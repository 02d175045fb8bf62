//! Synthetic devices for development: a description of a device that was
//! read from JSON, and the device state that it stands for.

use vstd::prelude::*;
use crate::device::{
    ActionType, ButtonInfo, ButtonModel, Color, DeviceInfo, Dpi, LedInfo, LedMode, LedModel,
    ProfileInfo, ProfileModel, ResolutionInfo, ResolutionModel, buttons_view, dpi_list_of_range,
    range_steps, resolutions_view,
};
use crate::device_database::{DpiRange, DriverConfig};
use crate::text::{chars_eq, chars_of, push_str, string_of};

verus! {

/// The description of a device.
#[derive(Debug)]
pub struct TestDeviceSpec {
    pub profiles: Vec<TestProfileSpec>,
}

/// The description of a profile.
#[derive(Debug)]
pub struct TestProfileSpec {
    pub is_active: bool,
    pub is_default: bool,
    pub is_disabled: bool,
    /// The report rate in Hz.
    pub rate: u32,
    pub report_rates: Vec<u32>,
    pub resolutions: Vec<TestResolutionSpec>,
    pub buttons: Vec<TestButtonSpec>,
    pub leds: Vec<TestLedSpec>,
}

/// The description of a resolution.
#[derive(Debug)]
pub struct TestResolutionSpec {
    pub xres: u32,
    pub yres: u32,
    pub dpi_min: Option<u32>,
    pub dpi_max: Option<u32>,
    pub is_active: bool,
    pub is_default: bool,
    pub is_disabled: bool,
    pub capabilities: Vec<u32>,
}

/// The description of a button.
#[derive(Debug)]
pub struct TestButtonSpec {
    pub action_type: String,
    pub button: u32,
    pub key: u32,
}

/// The description of an LED.
#[derive(Debug)]
pub struct TestLedSpec {
    pub mode: u32,
    pub duration: u32,
    pub brightness: u32,
    /// Red, green and blue.
    pub color: Option<Vec<u8>>,
}

impl Default for TestDeviceSpec {
    fn default() -> (r: Self)
        ensures
            r.profiles@.len() == 0,
    {
        TestDeviceSpec { profiles: Vec::new() }
    }
}

/// The resolution of a profile that describes none: 1000 DPI, active and
/// the default.
pub fn default_resolution() -> (r: TestResolutionSpec)
    ensures
        resolution_of_spec(0, r) == (ResolutionModel {
            index: 0,
            dpi: Dpi::Unified(1000),
            dpi_list: seq![1000u32],
            capabilities: Seq::empty(),
            is_active: true,
            is_default: true,
            is_disabled: false,
        }),
{
    let r = TestResolutionSpec {
        xres: 1000,
        yres: 1000,
        dpi_min: Some(1000),
        dpi_max: Some(1000),
        is_active: true,
        is_default: true,
        is_disabled: false,
        capabilities: Vec::new(),
    };
    assert(range_steps(DpiRange { min: 1000, max: 1000, step: 1 }) =~= seq![1000u32]);
    r
}

/// The button of a profile that describes none: mouse button 0.
pub fn default_button() -> (r: TestButtonSpec)
    ensures
        button_of_spec(0, r) == fallback_profile().buttons[0],
{
    proof {
        reveal_strlit("button");
        reveal_strlit("none");
        assert("button"@.len() == 6 && "none"@.len() == 4);
    }
    TestButtonSpec { action_type: "button".to_string(), button: 0, key: 0 }
}

/// The profile of a device that describes none.
pub fn default_profile() -> (r: TestProfileSpec)
    ensures
        profile_of_spec(0, r) == fallback_profile(),
        r.resolutions@.len() == 1,
        r.buttons@.len() == 1,
        r.leds@.len() == 0,
{
    let mut rates: Vec<u32> = Vec::new();
    rates.push(125);
    rates.push(250);
    rates.push(500);
    rates.push(1000);
    assert(rates@ =~= seq![125u32, 250u32, 500u32, 1000u32]);
    let mut resolutions: Vec<TestResolutionSpec> = Vec::new();
    resolutions.push(default_resolution());
    let mut buttons: Vec<TestButtonSpec> = Vec::new();
    buttons.push(default_button());
    let r = TestProfileSpec {
        is_active: true,
        is_default: true,
        is_disabled: false,
        rate: 1000,
        report_rates: rates,
        resolutions,
        buttons,
        leds: Vec::new(),
    };
    assert(resolutions_of_spec(r) =~= fallback_profile().resolutions);
    assert(buttons_of_spec(r) =~= fallback_profile().buttons);
    assert(profile_of_spec(0, r).leds =~= fallback_profile().leds);
    r
}

/// The list of DPI values of a described resolution: from the lowest to
/// the highest value in steps of 100 (of 1 where both are the same), or the
/// DPI of the X axis alone where the bounds are not both stated.
pub open spec fn dpi_list_of_spec(r: TestResolutionSpec) -> Seq<u32> {
    match (r.dpi_min, r.dpi_max) {
        (Some(lo), Some(hi)) => range_steps(
            DpiRange {
                min: lo,
                max: hi,
                step: if hi != lo {
                    100
                } else {
                    1
                },
            },
        ),
        _ => seq![r.xres],
    }
}

/// The resolution at position `i` that a description stands for.
pub open spec fn resolution_of_spec(i: int, r: TestResolutionSpec) -> ResolutionModel {
    ResolutionModel {
        index: i as u32,
        dpi: if r.xres == r.yres {
            Dpi::Unified(r.xres)
        } else {
            Dpi::Separate { x: r.xres, y: r.yres }
        },
        dpi_list: dpi_list_of_spec(r),
        capabilities: r.capabilities@,
        is_active: r.is_active,
        is_default: r.is_default,
        is_disabled: r.is_disabled,
    }
}

/// The action kind that a word of a description stands for.
pub open spec fn action_of_word(s: Seq<char>) -> ActionType {
    if s == "none"@ {
        ActionType::NoAction
    } else if s == "button"@ {
        ActionType::Button
    } else if s == "special"@ {
        ActionType::Special
    } else if s == "key"@ {
        ActionType::Key
    } else if s == "macro"@ {
        ActionType::Macro
    } else {
        ActionType::Unknown
    }
}

/// The button at position `i` that a description stands for.
pub open spec fn button_of_spec(i: int, b: TestButtonSpec) -> ButtonModel {
    ButtonModel {
        index: i as u32,
        action_type: action_of_word(b.action_type@),
        action_types: seq![0u32, 1u32, 2u32, 3u32, 4u32],
        mapping_value: b.button,
        macro_entries: Seq::empty(),
    }
}

/// The LED at position `i` that a description stands for.
pub open spec fn led_of_spec(i: int, l: TestLedSpec) -> LedModel {
    LedModel {
        index: i as u32,
        mode: match LedMode::spec_from_u32(l.mode) {
            Some(m) => m,
            None => LedMode::Off,
        },
        modes: seq![
            LedMode::Off,
            LedMode::Solid,
            LedMode::Cycle,
            LedMode::ColorWave,
            LedMode::Breathing,
        ],
        color: match l.color {
            Some(c) => if c@.len() >= 3 {
                Color { red: c@[0] as u32, green: c@[1] as u32, blue: c@[2] as u32 }
            } else {
                Color::black()
            },
            None => Color::black(),
        },
        secondary_color: Color::black(),
        tertiary_color: Color::black(),
        color_depth: 1,
        effect_duration: l.duration,
        brightness: l.brightness,
    }
}

/// The resolutions that a description stands for: those that it describes,
/// or the default one where it describes none.
pub open spec fn resolutions_of_spec(p: TestProfileSpec) -> Seq<ResolutionModel> {
    if p.resolutions@.len() == 0 {
        seq![
            ResolutionModel {
                index: 0,
                dpi: Dpi::Unified(1000),
                dpi_list: seq![1000u32],
                capabilities: Seq::empty(),
                is_active: true,
                is_default: true,
                is_disabled: false,
            },
        ]
    } else {
        Seq::new(p.resolutions@.len(), |i: int| resolution_of_spec(i, p.resolutions@[i]))
    }
}

/// The buttons that a description stands for: those that it describes, or
/// one mouse button where it describes none.
pub open spec fn buttons_of_spec(p: TestProfileSpec) -> Seq<ButtonModel> {
    if p.buttons@.len() == 0 {
        seq![
            ButtonModel {
                index: 0,
                action_type: ActionType::Button,
                action_types: seq![0u32, 1u32, 2u32, 3u32, 4u32],
                mapping_value: 0,
                macro_entries: Seq::empty(),
            },
        ]
    } else {
        Seq::new(p.buttons@.len(), |i: int| button_of_spec(i, p.buttons@[i]))
    }
}

/// The profile at position `i` that a description stands for.
pub open spec fn profile_of_spec(i: int, p: TestProfileSpec) -> ProfileModel {
    ProfileModel {
        index: i as u32,
        name: Seq::empty(),
        is_active: p.is_active,
        is_enabled: !p.is_disabled,
        is_dirty: false,
        report_rate: p.rate,
        report_rates: p.report_rates@,
        angle_snapping: -1i32,
        debounce: -1i32,
        debounces: Seq::empty(),
        resolutions: resolutions_of_spec(p),
        buttons: buttons_of_spec(p),
        leds: Seq::new(p.leds@.len(), |i: int| led_of_spec(i, p.leds@[i])),
    }
}

/// The profile of a device whose description holds none.
pub open spec fn fallback_profile() -> ProfileModel {
    ProfileModel {
        index: 0,
        name: Seq::empty(),
        is_active: true,
        is_enabled: true,
        is_dirty: false,
        report_rate: 1000,
        report_rates: seq![125u32, 250u32, 500u32, 1000u32],
        angle_snapping: -1i32,
        debounce: -1i32,
        debounces: Seq::empty(),
        resolutions: seq![
            ResolutionModel {
                index: 0,
                dpi: Dpi::Unified(1000),
                dpi_list: seq![1000u32],
                capabilities: Seq::empty(),
                is_active: true,
                is_default: true,
                is_disabled: false,
            },
        ],
        buttons: seq![
            ButtonModel {
                index: 0,
                action_type: ActionType::Button,
                action_types: seq![0u32, 1u32, 2u32, 3u32, 4u32],
                mapping_value: 0,
                macro_entries: Seq::empty(),
            },
        ],
        leds: Seq::empty(),
    }
}

/// The profiles that a description stands for.
pub open spec fn profiles_of_spec(spec: TestDeviceSpec) -> Seq<ProfileModel> {
    if spec.profiles@.len() == 0 {
        seq![fallback_profile()]
    } else {
        Seq::new(spec.profiles@.len(), |i: int| profile_of_spec(i, spec.profiles@[i]))
    }
}

fn action_kinds() -> (r: Vec<u32>)
    ensures
        r@ == seq![0u32, 1u32, 2u32, 3u32, 4u32],
{
    let mut v: Vec<u32> = Vec::new();
    v.push(0);
    v.push(1);
    v.push(2);
    v.push(3);
    v.push(4);
    assert(v@ =~= seq![0u32, 1u32, 2u32, 3u32, 4u32]);
    v
}

fn build_resolution(i: usize, r: &TestResolutionSpec) -> (out: ResolutionInfo)
    requires
        i <= u32::MAX,
    ensures
        out@ == resolution_of_spec(i as int, *r),
{
    let dpi_list = match (r.dpi_min, r.dpi_max) {
        (Some(lo), Some(hi)) => {
            let step: u32 = if hi != lo {
                100
            } else {
                1
            };
            dpi_list_of_range(&DpiRange { min: lo, max: hi, step })
        },
        _ => {
            let mut v: Vec<u32> = Vec::new();
            v.push(r.xres);
            assert(v@ =~= seq![r.xres]);
            v
        },
    };
    ResolutionInfo {
        index: i as u32,
        dpi: if r.xres == r.yres {
            Dpi::Unified(r.xres)
        } else {
            Dpi::Separate { x: r.xres, y: r.yres }
        },
        dpi_list,
        capabilities: r.capabilities.clone(),
        is_active: r.is_active,
        is_default: r.is_default,
        is_disabled: r.is_disabled,
    }
}

fn build_button(i: usize, b: &TestButtonSpec) -> (out: ButtonInfo)
    requires
        i <= u32::MAX,
    ensures
        out@ == button_of_spec(i as int, *b),
{
    let v = chars_of(b.action_type.as_str());
    assert(v@.subrange(0, v@.len() as int) =~= v@);
    let n = v.len();
    let action_type = if chars_eq(&v, 0, n, "none") {
        ActionType::NoAction
    } else if chars_eq(&v, 0, n, "button") {
        ActionType::Button
    } else if chars_eq(&v, 0, n, "special") {
        ActionType::Special
    } else if chars_eq(&v, 0, n, "key") {
        ActionType::Key
    } else if chars_eq(&v, 0, n, "macro") {
        ActionType::Macro
    } else {
        ActionType::Unknown
    };
    ButtonInfo {
        index: i as u32,
        action_type,
        action_types: action_kinds(),
        mapping_value: b.button,
        macro_entries: Vec::new(),
    }
}

fn build_led(i: usize, l: &TestLedSpec) -> (out: LedInfo)
    requires
        i <= u32::MAX,
    ensures
        out@ == led_of_spec(i as int, *l),
{
    let color = match &l.color {
        Some(c) => {
            if c.len() >= 3 {
                Color { red: c[0] as u32, green: c[1] as u32, blue: c[2] as u32 }
            } else {
                Color::default()
            }
        },
        None => Color::default(),
    };
    let mut modes: Vec<LedMode> = Vec::new();
    modes.push(LedMode::Off);
    modes.push(LedMode::Solid);
    modes.push(LedMode::Cycle);
    modes.push(LedMode::ColorWave);
    modes.push(LedMode::Breathing);
    assert(modes@ =~= seq![
        LedMode::Off,
        LedMode::Solid,
        LedMode::Cycle,
        LedMode::ColorWave,
        LedMode::Breathing,
    ]);
    LedInfo {
        index: i as u32,
        mode: match LedMode::from_u32(l.mode) {
            Some(m) => m,
            None => LedMode::Off,
        },
        modes,
        color,
        secondary_color: Color::default(),
        tertiary_color: Color::default(),
        color_depth: 1,
        effect_duration: l.duration,
        brightness: l.brightness,
    }
}

fn build_profile(i: usize, p: &TestProfileSpec) -> (out: ProfileInfo)
    requires
        i <= u32::MAX,
        p.resolutions@.len() <= u32::MAX,
        p.buttons@.len() <= u32::MAX,
        p.leds@.len() <= u32::MAX,
    ensures
        out@ == profile_of_spec(i as int, *p),
{
    let mut resolutions: Vec<ResolutionInfo> = Vec::new();
    if p.resolutions.len() == 0 {
        let d = default_resolution();
        resolutions.push(build_resolution(0, &d));
        assert(resolutions_view(resolutions@) =~= resolutions_of_spec(*p));
    } else {
        let mut j: usize = 0;
        while j < p.resolutions.len()
            invariant
                j <= p.resolutions@.len() <= u32::MAX,
                resolutions@.len() == j,
                forall|k: int|
                    0 <= k < j ==> (#[trigger] resolutions@[k])@ == resolution_of_spec(
                        k,
                        p.resolutions@[k],
                    ),
            decreases p.resolutions@.len() - j,
        {
            resolutions.push(build_resolution(j, &p.resolutions[j]));
            j += 1;
        }
        assert(resolutions_view(resolutions@) =~= resolutions_of_spec(*p));
    }
    let mut buttons: Vec<ButtonInfo> = Vec::new();
    if p.buttons.len() == 0 {
        let d = default_button();
        buttons.push(build_button(0, &d));
        assert(buttons_view(buttons@) =~= buttons_of_spec(*p)) by {
            assert(buttons_view(buttons@)[0] == fallback_profile().buttons[0]);
        }
    } else {
        let mut j: usize = 0;
        while j < p.buttons.len()
            invariant
                j <= p.buttons@.len() <= u32::MAX,
                buttons@.len() == j,
                forall|k: int|
                    0 <= k < j ==> (#[trigger] buttons@[k])@ == button_of_spec(k, p.buttons@[k]),
            decreases p.buttons@.len() - j,
        {
            buttons.push(build_button(j, &p.buttons[j]));
            j += 1;
        }
        assert(buttons_view(buttons@) =~= buttons_of_spec(*p));
    }
    let mut leds: Vec<LedInfo> = Vec::new();
    let mut j: usize = 0;
    while j < p.leds.len()
        invariant
            j <= p.leds@.len() <= u32::MAX,
            leds@.len() == j,
            forall|k: int| 0 <= k < j ==> (#[trigger] leds@[k])@ == led_of_spec(k, p.leds@[k]),
        decreases p.leds@.len() - j,
    {
        leds.push(build_led(j, &p.leds[j]));
        j += 1;
    }
    let out = ProfileInfo {
        index: i as u32,
        name: String::new(),
        is_active: p.is_active,
        is_enabled: !p.is_disabled,
        is_dirty: false,
        report_rate: p.rate,
        report_rates: p.report_rates.clone(),
        angle_snapping: -1,
        debounce: -1,
        debounces: Vec::new(),
        resolutions,
        buttons,
        leds,
    };
    assert(out@.leds =~= profile_of_spec(i as int, *p).leds);
    out
}

impl TestDeviceSpec {
    /// Whether the description is small enough for the indices of the
    /// device state, which are numbers of 32 bits.
    pub open spec fn fits(self) -> bool {
        &&& self.profiles@.len() <= u32::MAX
        &&& forall|i: int|
            0 <= i < self.profiles@.len() ==> {
                &&& (#[trigger] self.profiles@[i]).resolutions@.len() <= u32::MAX
                &&& self.profiles@[i].buttons@.len() <= u32::MAX
                &&& self.profiles@[i].leds@.len() <= u32::MAX
            }
    }

    /// Checks that the description is small enough for the indices of the
    /// device state.
    pub fn check_fits(&self) -> (r: bool)
        ensures
            r == self.fits(),
    {
        if self.profiles.len() > u32::MAX as usize {
            return false;
        }
        let mut i: usize = 0;
        while i < self.profiles.len()
            invariant
                i <= self.profiles@.len() <= u32::MAX,
                forall|k: int|
                    0 <= k < i ==> {
                        &&& (#[trigger] self.profiles@[k]).resolutions@.len() <= u32::MAX
                        &&& self.profiles@[k].buttons@.len() <= u32::MAX
                        &&& self.profiles@[k].leds@.len() <= u32::MAX
                    },
            decreases self.profiles@.len() - i,
        {
            let p = &self.profiles[i];
            if p.resolutions.len() > u32::MAX as usize || p.buttons.len() > u32::MAX as usize
                || p.leds.len() > u32::MAX as usize {
                return false;
            }
            i += 1;
        }
        true
    }
}

/// Builds the state of a synthetic device from its description. A
/// description without profiles stands for a device with one profile, one
/// resolution of 1000 DPI and one button.
pub fn build_device_info(sysname: &str, spec: TestDeviceSpec) -> (r: DeviceInfo)
    requires
        spec.fits(),
    ensures
        r@.sysname == sysname@,
        r@.name == "Test Device ("@ + sysname@ + ")"@,
        r@.model == "test:0000:0000:0"@,
        r@.firmware_version == Seq::<char>::empty(),
        r@.profiles == profiles_of_spec(spec),
        r@.driver_config == DriverConfig::empty(),
{
    let mut profiles: Vec<ProfileInfo> = Vec::new();
    if spec.profiles.len() == 0 {
        let d = default_profile();
        let p = build_profile(0, &d);
        profiles.push(p);
    } else {
        let mut i: usize = 0;
        while i < spec.profiles.len()
            invariant
                i <= spec.profiles@.len(),
                spec.fits(),
                profiles@.len() == i,
                forall|k: int|
                    0 <= k < i ==> (#[trigger] profiles@[k])@ == profile_of_spec(
                        k,
                        spec.profiles@[k],
                    ),
            decreases spec.profiles@.len() - i,
        {
            profiles.push(build_profile(i, &spec.profiles[i]));
            i += 1;
        }
    }
    let mut name: Vec<char> = Vec::new();
    push_str(&mut name, "Test Device (");
    push_str(&mut name, sysname);
    push_str(&mut name, ")");
    let r = DeviceInfo {
        sysname: sysname.to_string(),
        name: string_of(&name),
        model: "test:0000:0000:0".to_string(),
        firmware_version: String::new(),
        profiles,
        driver_config: DriverConfig::default(),
    };
    assert(r@.profiles =~= profiles_of_spec(spec)) by {
        if spec.profiles@.len() == 0 {
            assert(r@.profiles.len() == 1);
            assert(r@.profiles[0] == fallback_profile());
        }
    }
    r
}

} // verus!
