//! The in-memory state of one device: identity, profiles, resolutions,
//! buttons and LEDs, as the drivers fill it and the IPC layer stages changes
//! in it.

use vstd::prelude::*;
use crate::device_database::{DeviceEntry, DriverConfig, DriverConfigModel, DpiRange};
use crate::text::{hex4_lower, push_hex4, push_str, string_of};

verus! {

/// What a button does.
#[derive(Debug, Clone, Copy, PartialEq, Eq, Structural)]
pub enum ActionType {
    NoAction,
    Button,
    Special,
    Key,
    Macro,
    Unknown,
}

impl ActionType {
    /// The number that stands for the action kind on the IPC interface.
    pub open spec fn spec_code(self) -> u32 {
        match self {
            ActionType::NoAction => 0,
            ActionType::Button => 1,
            ActionType::Special => 2,
            ActionType::Key => 3,
            ActionType::Macro => 4,
            ActionType::Unknown => 1000,
        }
    }

    /// The action kind that a number stands for; `Unknown` for any number
    /// that names none.
    pub open spec fn spec_from_code(code: u32) -> ActionType {
        match code {
            0 => ActionType::NoAction,
            1 => ActionType::Button,
            2 => ActionType::Special,
            3 => ActionType::Key,
            4 => ActionType::Macro,
            _ => ActionType::Unknown,
        }
    }

    pub fn code(self) -> (r: u32)
        ensures
            r == self.spec_code(),
    {
        match self {
            ActionType::NoAction => 0,
            ActionType::Button => 1,
            ActionType::Special => 2,
            ActionType::Key => 3,
            ActionType::Macro => 4,
            ActionType::Unknown => 1000,
        }
    }

    pub fn from_code(code: u32) -> (r: ActionType)
        ensures
            r == Self::spec_from_code(code),
    {
        match code {
            0 => ActionType::NoAction,
            1 => ActionType::Button,
            2 => ActionType::Special,
            3 => ActionType::Key,
            4 => ActionType::Macro,
            _ => ActionType::Unknown,
        }
    }
}

/// A color as three bytes.
#[derive(Debug, Clone, Copy, PartialEq, Eq, Structural)]
pub struct RgbColor {
    pub r: u8,
    pub g: u8,
    pub b: u8,
}

/// A color as an RGB triplet.
#[derive(Debug, Clone, Copy, PartialEq, Eq, Structural)]
pub struct Color {
    pub red: u32,
    pub green: u32,
    pub blue: u32,
}

/// A component cut down to one byte: values above 255 become 255.
pub open spec fn clamp_byte(x: u32) -> u8 {
    if x > 255 {
        255u8
    } else {
        x as u8
    }
}

impl Color {
    pub open spec fn black() -> Color {
        Color { red: 0, green: 0, blue: 0 }
    }

    pub fn from_rgb(c: RgbColor) -> (r: Color)
        ensures
            r == (Color { red: c.r as u32, green: c.g as u32, blue: c.b as u32 }),
    {
        Color { red: c.r as u32, green: c.g as u32, blue: c.b as u32 }
    }

    /// The color with each component cut down to one byte.
    pub fn to_rgb(&self) -> (r: RgbColor)
        ensures
            r == (RgbColor {
                r: clamp_byte(self.red),
                g: clamp_byte(self.green),
                b: clamp_byte(self.blue),
            }),
    {
        RgbColor {
            r: if self.red > 255 {
                255
            } else {
                self.red as u8
            },
            g: if self.green > 255 {
                255
            } else {
                self.green as u8
            },
            b: if self.blue > 255 {
                255
            } else {
                self.blue as u8
            },
        }
    }
}

impl Default for Color {
    fn default() -> (r: Self)
        ensures
            r == Color::black(),
    {
        Color { red: 0, green: 0, blue: 0 }
    }
}

/// Resolution value, either one for both axes or one per axis.
#[derive(Debug, Clone, Copy, PartialEq, Eq, Structural)]
pub enum Dpi {
    Unified(u32),
    Separate { x: u32, y: u32 },
    Unknown,
}

/// What an LED does.
#[derive(Debug, Clone, Copy, PartialEq, Eq, Structural)]
pub enum LedMode {
    Off,
    Solid,
    Cycle,
    ColorWave,
    Starlight,
    Breathing,
    TriColor,
}

impl LedMode {
    /// The number that stands for the mode on the IPC interface.
    pub open spec fn spec_code(self) -> u32 {
        match self {
            LedMode::Off => 0,
            LedMode::Solid => 1,
            LedMode::Cycle => 3,
            LedMode::ColorWave => 4,
            LedMode::Starlight => 5,
            LedMode::Breathing => 10,
            LedMode::TriColor => 32,
        }
    }

    /// The mode that a number stands for, if any.
    pub open spec fn spec_from_u32(code: u32) -> Option<LedMode> {
        match code {
            0 => Some(LedMode::Off),
            1 => Some(LedMode::Solid),
            3 => Some(LedMode::Cycle),
            4 => Some(LedMode::ColorWave),
            5 => Some(LedMode::Starlight),
            10 => Some(LedMode::Breathing),
            32 => Some(LedMode::TriColor),
            _ => None,
        }
    }

    pub fn code(self) -> (r: u32)
        ensures
            r == self.spec_code(),
    {
        match self {
            LedMode::Off => 0,
            LedMode::Solid => 1,
            LedMode::Cycle => 3,
            LedMode::ColorWave => 4,
            LedMode::Starlight => 5,
            LedMode::Breathing => 10,
            LedMode::TriColor => 32,
        }
    }

    pub fn from_u32(code: u32) -> (r: Option<LedMode>)
        ensures
            r == Self::spec_from_u32(code),
    {
        match code {
            0 => Some(LedMode::Off),
            1 => Some(LedMode::Solid),
            3 => Some(LedMode::Cycle),
            4 => Some(LedMode::ColorWave),
            5 => Some(LedMode::Starlight),
            10 => Some(LedMode::Breathing),
            32 => Some(LedMode::TriColor),
            _ => None,
        }
    }
}

/// A number and the mode it stands for name each other.
pub proof fn lemma_led_mode_code_round_trip(m: LedMode)
    ensures
        LedMode::spec_from_u32(m.spec_code()) == Some(m),
{
}

/// Resolution state.
#[derive(Debug, Clone)]
pub struct ResolutionInfo {
    pub index: u32,
    pub dpi: Dpi,
    pub dpi_list: Vec<u32>,
    pub capabilities: Vec<u32>,
    pub is_active: bool,
    pub is_default: bool,
    pub is_disabled: bool,
}

pub struct ResolutionModel {
    pub index: u32,
    pub dpi: Dpi,
    pub dpi_list: Seq<u32>,
    pub capabilities: Seq<u32>,
    pub is_active: bool,
    pub is_default: bool,
    pub is_disabled: bool,
}

impl View for ResolutionInfo {
    type V = ResolutionModel;

    open spec fn view(&self) -> ResolutionModel {
        ResolutionModel {
            index: self.index,
            dpi: self.dpi,
            dpi_list: self.dpi_list@,
            capabilities: self.capabilities@,
            is_active: self.is_active,
            is_default: self.is_default,
            is_disabled: self.is_disabled,
        }
    }
}

/// Button mapping state.
#[derive(Debug, Clone)]
pub struct ButtonInfo {
    pub index: u32,
    pub action_type: ActionType,
    pub action_types: Vec<u32>,
    pub mapping_value: u32,
    pub macro_entries: Vec<(u32, u32)>,
}

pub struct ButtonModel {
    pub index: u32,
    pub action_type: ActionType,
    pub action_types: Seq<u32>,
    pub mapping_value: u32,
    pub macro_entries: Seq<(u32, u32)>,
}

impl View for ButtonInfo {
    type V = ButtonModel;

    open spec fn view(&self) -> ButtonModel {
        ButtonModel {
            index: self.index,
            action_type: self.action_type,
            action_types: self.action_types@,
            mapping_value: self.mapping_value,
            macro_entries: self.macro_entries@,
        }
    }
}

impl ButtonInfo {
    pub open spec fn blank() -> ButtonModel {
        ButtonModel {
            index: 0,
            action_type: ActionType::NoAction,
            action_types: Seq::empty(),
            mapping_value: 0,
            macro_entries: Seq::empty(),
        }
    }
}

impl Default for ButtonInfo {
    fn default() -> (r: Self)
        ensures
            r@ == ButtonInfo::blank(),
    {
        ButtonInfo {
            index: 0,
            action_type: ActionType::NoAction,
            action_types: Vec::new(),
            mapping_value: 0,
            macro_entries: Vec::new(),
        }
    }
}

/// LED state.
#[derive(Debug, Clone)]
pub struct LedInfo {
    pub index: u32,
    pub mode: LedMode,
    pub modes: Vec<LedMode>,
    pub color: Color,
    pub secondary_color: Color,
    pub tertiary_color: Color,
    pub color_depth: u32,
    pub effect_duration: u32,
    pub brightness: u32,
}

pub struct LedModel {
    pub index: u32,
    pub mode: LedMode,
    pub modes: Seq<LedMode>,
    pub color: Color,
    pub secondary_color: Color,
    pub tertiary_color: Color,
    pub color_depth: u32,
    pub effect_duration: u32,
    pub brightness: u32,
}

impl View for LedInfo {
    type V = LedModel;

    open spec fn view(&self) -> LedModel {
        LedModel {
            index: self.index,
            mode: self.mode,
            modes: self.modes@,
            color: self.color,
            secondary_color: self.secondary_color,
            tertiary_color: self.tertiary_color,
            color_depth: self.color_depth,
            effect_duration: self.effect_duration,
            brightness: self.brightness,
        }
    }
}

/// The views of a list of resolutions.
pub open spec fn resolutions_view(v: Seq<ResolutionInfo>) -> Seq<ResolutionModel> {
    Seq::new(v.len(), |i: int| v[i]@)
}

/// The views of a list of buttons.
pub open spec fn buttons_view(v: Seq<ButtonInfo>) -> Seq<ButtonModel> {
    Seq::new(v.len(), |i: int| v[i]@)
}

/// The views of a list of LEDs.
pub open spec fn leds_view(v: Seq<LedInfo>) -> Seq<LedModel> {
    Seq::new(v.len(), |i: int| v[i]@)
}

/// Profile state.
#[derive(Debug, Clone)]
pub struct ProfileInfo {
    pub index: u32,
    pub name: String,
    pub is_active: bool,
    pub is_enabled: bool,
    pub is_dirty: bool,
    pub report_rate: u32,
    pub report_rates: Vec<u32>,
    pub angle_snapping: i32,
    pub debounce: i32,
    pub debounces: Vec<u32>,
    pub resolutions: Vec<ResolutionInfo>,
    pub buttons: Vec<ButtonInfo>,
    pub leds: Vec<LedInfo>,
}

pub struct ProfileModel {
    pub index: u32,
    pub name: Seq<char>,
    pub is_active: bool,
    pub is_enabled: bool,
    pub is_dirty: bool,
    pub report_rate: u32,
    pub report_rates: Seq<u32>,
    pub angle_snapping: i32,
    pub debounce: i32,
    pub debounces: Seq<u32>,
    pub resolutions: Seq<ResolutionModel>,
    pub buttons: Seq<ButtonModel>,
    pub leds: Seq<LedModel>,
}

impl View for ProfileInfo {
    type V = ProfileModel;

    open spec fn view(&self) -> ProfileModel {
        ProfileModel {
            index: self.index,
            name: self.name@,
            is_active: self.is_active,
            is_enabled: self.is_enabled,
            is_dirty: self.is_dirty,
            report_rate: self.report_rate,
            report_rates: self.report_rates@,
            angle_snapping: self.angle_snapping,
            debounce: self.debounce,
            debounces: self.debounces@,
            resolutions: resolutions_view(self.resolutions@),
            buttons: buttons_view(self.buttons@),
            leds: leds_view(self.leds@),
        }
    }
}

impl ProfileInfo {
    pub open spec fn blank() -> ProfileModel {
        ProfileModel {
            index: 0,
            name: Seq::empty(),
            is_active: false,
            is_enabled: false,
            is_dirty: false,
            report_rate: 0,
            report_rates: Seq::empty(),
            angle_snapping: 0,
            debounce: 0,
            debounces: Seq::empty(),
            resolutions: Seq::empty(),
            buttons: Seq::empty(),
            leds: Seq::empty(),
        }
    }
}

impl Default for ProfileInfo {
    fn default() -> (r: Self)
        ensures
            r@ == ProfileInfo::blank(),
    {
        let r = ProfileInfo {
            index: 0,
            name: String::new(),
            is_active: false,
            is_enabled: false,
            is_dirty: false,
            report_rate: 0,
            report_rates: Vec::new(),
            angle_snapping: 0,
            debounce: 0,
            debounces: Vec::new(),
            resolutions: Vec::new(),
            buttons: Vec::new(),
            leds: Vec::new(),
        };
        assert(r@.resolutions =~= Seq::empty());
        assert(r@.buttons =~= Seq::empty());
        assert(r@.leds =~= Seq::empty());
        r
    }
}

/// The views of a list of profiles.
pub open spec fn profiles_view(v: Seq<ProfileInfo>) -> Seq<ProfileModel> {
    Seq::new(v.len(), |i: int| v[i]@)
}

/// Device state synced from hardware.
#[derive(Debug, Clone)]
pub struct DeviceInfo {
    pub sysname: String,
    pub name: String,
    pub model: String,
    pub firmware_version: String,
    pub profiles: Vec<ProfileInfo>,
    pub driver_config: DriverConfig,
}

pub struct DeviceModel {
    pub sysname: Seq<char>,
    pub name: Seq<char>,
    pub model: Seq<char>,
    pub firmware_version: Seq<char>,
    pub profiles: Seq<ProfileModel>,
    pub driver_config: DriverConfigModel,
}

impl View for DeviceInfo {
    type V = DeviceModel;

    open spec fn view(&self) -> DeviceModel {
        DeviceModel {
            sysname: self.sysname@,
            name: self.name@,
            model: self.model@,
            firmware_version: self.firmware_version@,
            profiles: profiles_view(self.profiles@),
            driver_config: self.driver_config@,
        }
    }
}

/// How many of `s` satisfy `f`.
pub open spec fn count_where<T>(s: Seq<T>, f: spec_fn(T) -> bool) -> nat
    decreases s.len(),
{
    if s.len() == 0 {
        0
    } else {
        count_where(s.drop_last(), f) + if f(s.last()) {
            1nat
        } else {
            0nat
        }
    }
}

impl DeviceModel {
    /// At most one profile is active, and in each profile at most one
    /// resolution is the default.
    pub open spec fn selection_unique(self) -> bool {
        &&& count_where(self.profiles, |p: ProfileModel| p.is_active) <= 1
        &&& forall|i: int|
            0 <= i < self.profiles.len() ==> count_where(
                (#[trigger] self.profiles[i]).resolutions,
                |r: ResolutionModel| r.is_default,
            ) <= 1
    }

    /// Every profile, resolution, button and LED carries its position as
    /// its index.
    pub open spec fn indexed(self) -> bool {
        forall|i: int|
            0 <= i < self.profiles.len() ==> (#[trigger] self.profiles[i]).index == i
                && self.profiles[i].indexed()
    }
}

impl ProfileModel {
    pub open spec fn indexed(self) -> bool {
        &&& forall|j: int|
            0 <= j < self.resolutions.len() ==> (#[trigger] self.resolutions[j]).index == j
        &&& forall|j: int| 0 <= j < self.buttons.len() ==> (#[trigger] self.buttons[j]).index == j
        &&& forall|j: int| 0 <= j < self.leds.len() ==> (#[trigger] self.leds[j]).index == j
    }
}

/// The values `min, min + step, ..` up to `max`.
pub open spec fn range_steps(r: DpiRange) -> Seq<u32> {
    if r.step > 0 && r.min <= r.max {
        Seq::new(((r.max - r.min) / (r.step as int) + 1) as nat, |i: int| (r.min + i * r.step) as u32)
    } else {
        Seq::empty()
    }
}

/// The name of a numeric bus type in a model string.
pub open spec fn bustype_name(bustype: u16) -> Seq<char> {
    if bustype == 0x03 {
        seq!['u', 's', 'b']
    } else if bustype == 0x05 {
        seq!['b', 'l', 'u', 'e', 't', 'o', 'o', 't', 'h']
    } else {
        hex4_lower(bustype)
    }
}

/// The model string of a device: `bus:vid:pid:0`, the identifiers in four
/// hexadecimal digits.
pub open spec fn model_string(bustype: u16, vid: u16, pid: u16) -> Seq<char> {
    bustype_name(bustype) + seq![':'] + hex4_lower(vid) + seq![':'] + hex4_lower(pid) + seq![
        ':',
        '0',
    ]
}

/// The resolution that a fresh device has at position `i`.
pub open spec fn seeded_resolution(i: int, dpi_list: Seq<u32>) -> ResolutionModel {
    ResolutionModel {
        index: i as u32,
        dpi: Dpi::Unified(800),
        dpi_list,
        capabilities: Seq::empty(),
        is_active: i == 0,
        is_default: i == 0,
        is_disabled: false,
    }
}

/// The button that a fresh device has at position `i`.
pub open spec fn seeded_button(i: int) -> ButtonModel {
    ButtonModel {
        index: i as u32,
        action_type: ActionType::Button,
        action_types: seq![0u32, 1u32, 2u32, 3u32, 4u32],
        mapping_value: i as u32,
        macro_entries: Seq::empty(),
    }
}

/// The LED that a fresh device has at position `i`.
pub open spec fn seeded_led(i: int) -> LedModel {
    LedModel {
        index: i as u32,
        mode: LedMode::Off,
        modes: seq![LedMode::Off, LedMode::Solid, LedMode::Cycle, LedMode::ColorWave],
        color: Color::black(),
        secondary_color: Color::black(),
        tertiary_color: Color::black(),
        color_depth: 1,
        effect_duration: 0,
        brightness: 255,
    }
}

/// The counts and the DPI list that a catalog entry gives a fresh device.
pub struct Seeding {
    pub profiles: u32,
    pub buttons: u32,
    pub leds: u32,
    pub dpis: u32,
    pub dpi_list: Seq<u32>,
}

pub open spec fn seeding_of(config: Option<DriverConfigModel>) -> Seeding {
    match config {
        Some(c) => Seeding {
            profiles: c.profiles.unwrap_or(1),
            buttons: c.buttons.unwrap_or(0),
            leds: c.leds.unwrap_or(0),
            dpis: c.dpis.unwrap_or(1),
            dpi_list: match c.dpi_range {
                Some(r) => range_steps(r),
                None => seq![800u32, 1600u32],
            },
        },
        None => Seeding {
            profiles: 1,
            buttons: 0,
            leds: 0,
            dpis: 1,
            dpi_list: seq![800u32, 1600u32],
        },
    }
}

/// The profile that a fresh device has at position `i`.
pub open spec fn seeded_profile(i: int, s: Seeding) -> ProfileModel {
    ProfileModel {
        index: i as u32,
        name: Seq::empty(),
        is_active: i == 0,
        is_enabled: true,
        is_dirty: false,
        report_rate: 1000,
        report_rates: seq![125u32, 250u32, 500u32, 1000u32],
        angle_snapping: -1i32,
        debounce: -1i32,
        debounces: Seq::empty(),
        resolutions: Seq::new(s.dpis as nat, |j: int| seeded_resolution(j, s.dpi_list)),
        buttons: Seq::new(s.buttons as nat, |j: int| seeded_button(j)),
        leds: Seq::new(s.leds as nat, |j: int| seeded_led(j)),
    }
}

fn copy_u32s(v: &Vec<u32>) -> (r: Vec<u32>)
    ensures
        r@ == v@,
{
    v.clone()
}

fn default_report_rates() -> (r: Vec<u32>)
    ensures
        r@ == seq![125u32, 250u32, 500u32, 1000u32],
{
    let mut r: Vec<u32> = Vec::new();
    r.push(125);
    r.push(250);
    r.push(500);
    r.push(1000);
    assert(r@ =~= seq![125u32, 250u32, 500u32, 1000u32]);
    r
}

/// Walks a DPI range into the list of its values.
pub fn dpi_list_of_range(range: &DpiRange) -> (r: Vec<u32>)
    ensures
        r@ == range_steps(*range),
{
    let mut out: Vec<u32> = Vec::new();
    if range.step == 0 || range.min > range.max {
        assert(out@ =~= range_steps(*range));
        return out;
    }
    let ghost count = (range.max - range.min) / (range.step as int) + 1;
    let mut v: u32 = range.min;
    let mut finished = false;
    while !finished
        invariant
            range.step > 0,
            range.min <= range.max,
            count == (range.max - range.min) / (range.step as int) + 1,
            !finished ==> out@.len() < count && v == range.min + out@.len() * range.step && v
                <= range.max,
            finished ==> out@.len() == count,
            out@.len() <= count,
            forall|i: int| 0 <= i < out@.len() ==> out@[i] == (range.min + i * range.step) as u32,
        decreases count - out@.len() + (if finished { 0int } else { 1int }),
    {
        let ghost k = out@.len() as int + 1;
        assert(v == range.min + (k - 1) * range.step);
        assert(v as int == (range.min + (k - 1) * range.step) as u32);
        out.push(v);
        proof {
            lemma_step_count(range.min as int, range.max as int, range.step as int, k);
        }
        if range.max - v >= range.step {
            v = v + range.step;
            assert(v == range.min + k * range.step) by (nonlinear_arith)
                requires
                    v == range.min + (k - 1) * range.step + range.step,
            ;
        } else {
            finished = true;
        }
    }
    assert(out@ =~= range_steps(*range));
    out
}

/// In a walk from `min` in steps of `step`, the `k`-th value is the last
/// one at most `max` exactly when `k` is the number of steps that fit.
pub proof fn lemma_step_count(min: int, max: int, step: int, k: int)
    requires
        step > 0,
        min <= max,
        k >= 1,
        min + (k - 1) * step <= max,
    ensures
        k <= (max - min) / step + 1,
        (max - (min + (k - 1) * step) >= step) <==> k < (max - min) / step + 1,
{
    let d = max - min;
    let q = d / step;
    assert(d == q * step + d % step && 0 <= d % step < step) by (nonlinear_arith)
        requires
            step > 0,
            d >= 0,
            q == d / step,
    ;
    assert((k - 1) * step <= d);
    assert(k - 1 <= q) by (nonlinear_arith)
        requires
            (k - 1) * step <= d,
            d == q * step + d % step,
            0 <= d % step < step,
            step > 0,
    ;
    if k - 1 < q {
        assert((k - 1) * step + step <= q * step) by (nonlinear_arith)
            requires
                k - 1 < q,
                step > 0,
        ;
    } else {
        assert((k - 1) * step == q * step);
    }
}

fn seed_resolutions(n: u32, dpi_list: &Vec<u32>) -> (r: Vec<ResolutionInfo>)
    ensures
        resolutions_view(r@) == Seq::new(n as nat, |j: int| seeded_resolution(j, dpi_list@)),
{
    let mut out: Vec<ResolutionInfo> = Vec::new();
    let mut i: u32 = 0;
    while i < n
        invariant
            i <= n,
            out@.len() == i,
            forall|j: int| 0 <= j < i ==> (#[trigger] out@[j])@ == seeded_resolution(j, dpi_list@),
        decreases n - i,
    {
        out.push(
            ResolutionInfo {
                index: i,
                dpi: Dpi::Unified(800),
                dpi_list: copy_u32s(dpi_list),
                capabilities: Vec::new(),
                is_active: i == 0,
                is_default: i == 0,
                is_disabled: false,
            },
        );
        i += 1;
    }
    assert(resolutions_view(out@) =~= Seq::new(
        n as nat,
        |j: int| seeded_resolution(j, dpi_list@),
    ));
    out
}

fn seed_buttons(n: u32) -> (r: Vec<ButtonInfo>)
    ensures
        buttons_view(r@) == Seq::new(n as nat, |j: int| seeded_button(j)),
{
    let mut out: Vec<ButtonInfo> = Vec::new();
    let mut i: u32 = 0;
    while i < n
        invariant
            i <= n,
            out@.len() == i,
            forall|j: int| 0 <= j < i ==> (#[trigger] out@[j])@ == seeded_button(j),
        decreases n - i,
    {
        let mut kinds: Vec<u32> = Vec::new();
        kinds.push(0);
        kinds.push(1);
        kinds.push(2);
        kinds.push(3);
        kinds.push(4);
        assert(kinds@ =~= seq![0u32, 1u32, 2u32, 3u32, 4u32]);
        out.push(
            ButtonInfo {
                index: i,
                action_type: ActionType::Button,
                action_types: kinds,
                mapping_value: i,
                macro_entries: Vec::new(),
            },
        );
        i += 1;
    }
    assert(buttons_view(out@) =~= Seq::new(n as nat, |j: int| seeded_button(j)));
    out
}

fn seed_leds(n: u32) -> (r: Vec<LedInfo>)
    ensures
        leds_view(r@) == Seq::new(n as nat, |j: int| seeded_led(j)),
{
    let mut out: Vec<LedInfo> = Vec::new();
    let mut i: u32 = 0;
    while i < n
        invariant
            i <= n,
            out@.len() == i,
            forall|j: int| 0 <= j < i ==> (#[trigger] out@[j])@ == seeded_led(j),
        decreases n - i,
    {
        let mut modes: Vec<LedMode> = Vec::new();
        modes.push(LedMode::Off);
        modes.push(LedMode::Solid);
        modes.push(LedMode::Cycle);
        modes.push(LedMode::ColorWave);
        assert(modes@ =~= seq![LedMode::Off, LedMode::Solid, LedMode::Cycle, LedMode::ColorWave]);
        out.push(
            LedInfo {
                index: i,
                mode: LedMode::Off,
                modes,
                color: Color::default(),
                secondary_color: Color::default(),
                tertiary_color: Color::default(),
                color_depth: 1,
                effect_duration: 0,
                brightness: 255,
            },
        );
        i += 1;
    }
    assert(leds_view(out@) =~= Seq::new(n as nat, |j: int| seeded_led(j)));
    out
}

impl DeviceInfo {
    /// The name of a numeric bus type as model strings write it.
    pub fn bustype_to_string(bustype: u16) -> (r: String)
        ensures
            r@ == bustype_name(bustype),
    {
        proof {
            reveal_strlit("usb");
            reveal_strlit("bluetooth");
            assert("usb"@ =~= seq!['u', 's', 'b']);
            assert("bluetooth"@ =~= seq!['b', 'l', 'u', 'e', 't', 'o', 'o', 't', 'h']);
        }
        if bustype == 0x03 {
            "usb".to_string()
        } else if bustype == 0x05 {
            "bluetooth".to_string()
        } else {
            let mut v: Vec<char> = Vec::new();
            push_hex4(&mut v, bustype);
            assert(v@ =~= hex4_lower(bustype));
            string_of(&v)
        }
    }

    /// The state of a device that has just been matched to a catalog entry,
    /// before anything was read from the hardware.
    ///
    /// The entry's tunables give the number of profiles (1 where unset),
    /// of resolutions per profile (1), of buttons (0) and of LEDs (0), and
    /// the list of legal DPI values (800 and 1600 where no range is set).
    /// The first profile is active; in each profile the first resolution is
    /// active and the default.
    pub fn from_entry(
        sysname: &str,
        name: &str,
        bustype: u16,
        vid: u16,
        pid: u16,
        entry: &DeviceEntry,
    ) -> (r: Self)
        ensures
            r@.sysname == sysname@,
            r@.name == name@,
            r@.model == model_string(bustype, vid, pid),
            r@.firmware_version == Seq::<char>::empty(),
            r@.profiles == Seq::new(
                seeding_of(entry.config_view()).profiles as nat,
                |i: int| seeded_profile(i, seeding_of(entry.config_view())),
            ),
            r@.driver_config == match entry.config_view() {
                Some(c) => c,
                None => DriverConfig::empty(),
            },
    {
        let bus = Self::bustype_to_string(bustype);
        let mut m: Vec<char> = Vec::new();
        push_str(&mut m, bus.as_str());
        m.push(':');
        push_hex4(&mut m, vid);
        m.push(':');
        push_hex4(&mut m, pid);
        m.push(':');
        m.push('0');
        assert(m@ =~= model_string(bustype, vid, pid));
        let model = string_of(&m);

        let (num_profiles, num_buttons, num_leds, num_dpis, dpi_list, config) =
            match &entry.driver_config {
            Some(c) => {
                let list = match &c.dpi_range {
                    Some(r) => dpi_list_of_range(r),
                    None => default_dpi_list(),
                };
                (
                    match c.profiles {
                        Some(n) => n,
                        None => 1,
                    },
                    match c.buttons {
                        Some(n) => n,
                        None => 0,
                    },
                    match c.leds {
                        Some(n) => n,
                        None => 0,
                    },
                    match c.dpis {
                        Some(n) => n,
                        None => 1,
                    },
                    list,
                    c.copy(),
                )
            },
            None => (1, 0, 0, 1, default_dpi_list(), DriverConfig::default()),
        };
        let ghost seeding = seeding_of(entry.config_view());
        assert(seeding.dpi_list == dpi_list@);

        let mut profiles: Vec<ProfileInfo> = Vec::new();
        let mut i: u32 = 0;
        while i < num_profiles
            invariant
                i <= num_profiles,
                profiles@.len() == i,
                seeding.dpi_list == dpi_list@,
                seeding.dpis == num_dpis,
                seeding.buttons == num_buttons,
                seeding.leds == num_leds,
                forall|j: int| 0 <= j < i ==> (#[trigger] profiles@[j])@ == seeded_profile(j, seeding),
            decreases num_profiles - i,
        {
            profiles.push(
                ProfileInfo {
                    index: i,
                    name: String::new(),
                    is_active: i == 0,
                    is_enabled: true,
                    is_dirty: false,
                    report_rate: 1000,
                    report_rates: default_report_rates(),
                    angle_snapping: -1,
                    debounce: -1,
                    debounces: Vec::new(),
                    resolutions: seed_resolutions(num_dpis, &dpi_list),
                    buttons: seed_buttons(num_buttons),
                    leds: seed_leds(num_leds),
                },
            );
            i += 1;
        }
        let r = DeviceInfo {
            sysname: sysname.to_string(),
            name: name.to_string(),
            model,
            firmware_version: String::new(),
            profiles,
            driver_config: config,
        };
        assert(r@.profiles =~= Seq::new(
            seeding.profiles as nat,
            |i: int| seeded_profile(i, seeding),
        ));
        r
    }
}

fn default_dpi_list() -> (r: Vec<u32>)
    ensures
        r@ == seq![800u32, 1600u32],
{
    let mut r: Vec<u32> = Vec::new();
    r.push(800);
    r.push(1600);
    assert(r@ =~= seq![800u32, 1600u32]);
    r
}

fn copy_pairs(v: &Vec<(u32, u32)>) -> (r: Vec<(u32, u32)>)
    ensures
        r@ == v@,
{
    let mut r: Vec<(u32, u32)> = Vec::new();
    let mut i: usize = 0;
    while i < v.len()
        invariant
            i <= v@.len(),
            r@ == v@.subrange(0, i as int),
        decreases v@.len() - i,
    {
        r.push(v[i]);
        i += 1;
        assert(r@ =~= v@.subrange(0, i as int));
    }
    assert(v@.subrange(0, v@.len() as int) =~= v@);
    r
}

fn copy_modes(v: &Vec<LedMode>) -> (r: Vec<LedMode>)
    ensures
        r@ == v@,
{
    let mut r: Vec<LedMode> = Vec::new();
    let mut i: usize = 0;
    while i < v.len()
        invariant
            i <= v@.len(),
            r@ == v@.subrange(0, i as int),
        decreases v@.len() - i,
    {
        r.push(v[i]);
        i += 1;
        assert(r@ =~= v@.subrange(0, i as int));
    }
    assert(v@.subrange(0, v@.len() as int) =~= v@);
    r
}

impl ResolutionInfo {
    /// A resolution with the same state.
    pub fn copy(&self) -> (r: Self)
        ensures
            r@ == self@,
    {
        ResolutionInfo {
            index: self.index,
            dpi: self.dpi,
            dpi_list: copy_u32s(&self.dpi_list),
            capabilities: copy_u32s(&self.capabilities),
            is_active: self.is_active,
            is_default: self.is_default,
            is_disabled: self.is_disabled,
        }
    }
}

impl ButtonInfo {
    /// A button with the same state.
    pub fn copy(&self) -> (r: Self)
        ensures
            r@ == self@,
    {
        ButtonInfo {
            index: self.index,
            action_type: self.action_type,
            action_types: copy_u32s(&self.action_types),
            mapping_value: self.mapping_value,
            macro_entries: copy_pairs(&self.macro_entries),
        }
    }
}

impl LedInfo {
    /// An LED with the same state.
    pub fn copy(&self) -> (r: Self)
        ensures
            r@ == self@,
    {
        LedInfo {
            index: self.index,
            mode: self.mode,
            modes: copy_modes(&self.modes),
            color: self.color,
            secondary_color: self.secondary_color,
            tertiary_color: self.tertiary_color,
            color_depth: self.color_depth,
            effect_duration: self.effect_duration,
            brightness: self.brightness,
        }
    }
}

impl ProfileInfo {
    /// A profile with the same state.
    pub fn copy(&self) -> (r: Self)
        ensures
            r@ == self@,
    {
        let mut resolutions: Vec<ResolutionInfo> = Vec::new();
        let mut i: usize = 0;
        while i < self.resolutions.len()
            invariant
                i <= self.resolutions@.len(),
                resolutions@.len() == i,
                forall|k: int| 0 <= k < i ==> (#[trigger] resolutions@[k])@ == self.resolutions@[k]@,
            decreases self.resolutions@.len() - i,
        {
            resolutions.push(self.resolutions[i].copy());
            i += 1;
        }
        let mut buttons: Vec<ButtonInfo> = Vec::new();
        let mut i: usize = 0;
        while i < self.buttons.len()
            invariant
                i <= self.buttons@.len(),
                buttons@.len() == i,
                forall|k: int| 0 <= k < i ==> (#[trigger] buttons@[k])@ == self.buttons@[k]@,
            decreases self.buttons@.len() - i,
        {
            buttons.push(self.buttons[i].copy());
            i += 1;
        }
        let mut leds: Vec<LedInfo> = Vec::new();
        let mut i: usize = 0;
        while i < self.leds.len()
            invariant
                i <= self.leds@.len(),
                leds@.len() == i,
                forall|k: int| 0 <= k < i ==> (#[trigger] leds@[k])@ == self.leds@[k]@,
            decreases self.leds@.len() - i,
        {
            leds.push(self.leds[i].copy());
            i += 1;
        }
        assert(resolutions_view(resolutions@) =~= resolutions_view(self.resolutions@));
        assert(buttons_view(buttons@) =~= buttons_view(self.buttons@));
        assert(leds_view(leds@) =~= leds_view(self.leds@));
        ProfileInfo {
            index: self.index,
            name: self.name.clone(),
            is_active: self.is_active,
            is_enabled: self.is_enabled,
            is_dirty: self.is_dirty,
            report_rate: self.report_rate,
            report_rates: copy_u32s(&self.report_rates),
            angle_snapping: self.angle_snapping,
            debounce: self.debounce,
            debounces: copy_u32s(&self.debounces),
            resolutions,
            buttons,
            leds,
        }
    }
}

impl DeviceInfo {
    /// A device state that holds the same.
    pub fn copy(&self) -> (r: Self)
        ensures
            r@ == self@,
    {
        let mut profiles: Vec<ProfileInfo> = Vec::new();
        let mut i: usize = 0;
        while i < self.profiles.len()
            invariant
                i <= self.profiles@.len(),
                profiles@.len() == i,
                forall|k: int| 0 <= k < i ==> (#[trigger] profiles@[k])@ == self.profiles@[k]@,
            decreases self.profiles@.len() - i,
        {
            profiles.push(self.profiles[i].copy());
            i += 1;
        }
        assert(profiles_view(profiles@) =~= profiles_view(self.profiles@));
        DeviceInfo {
            sysname: self.sysname.clone(),
            name: self.name.clone(),
            model: self.model.clone(),
            firmware_version: self.firmware_version.clone(),
            profiles,
            driver_config: self.driver_config.copy(),
        }
    }
}

/// Where no element of a sequence but the one at position `i` satisfies
/// `f`, the sequence holds one element that does if that element does, and
/// none else.
pub proof fn lemma_count_where_single<T>(s: Seq<T>, f: spec_fn(T) -> bool, i: int)
    requires
        forall|k: int| 0 <= k < s.len() && k != i ==> !f(#[trigger] s[k]),
    ensures
        count_where(s, f) == (if 0 <= i < s.len() && f(s[i]) {
            1nat
        } else {
            0nat
        }),
    decreases s.len(),
{
    if s.len() > 0 {
        let t = s.drop_last();
        assert forall|k: int| 0 <= k < t.len() && k != i implies !f(#[trigger] t[k]) by {
            assert(t[k] == s[k]);
        }
        lemma_count_where_single(t, f, i);
        if 0 <= i < t.len() {
            assert(t[i] == s[i]);
        }
    }
}

/// A fresh device has exactly one active profile where it has any, one
/// default resolution in each profile that has any, and indices that are
/// positions.
pub proof fn lemma_seeded_profiles_indexed(s: Seeding, d: DeviceModel)
    requires
        d.profiles == Seq::new(s.profiles as nat, |i: int| seeded_profile(i, s)),
    ensures
        d.indexed(),
        d.selection_unique(),
        forall|i: int|
            0 <= i < d.profiles.len() ==> ((#[trigger] d.profiles[i]).is_active <==> i == 0),
        forall|i: int, j: int|
            0 <= i < d.profiles.len() && 0 <= j < d.profiles[i].resolutions.len() ==> ((
            #[trigger] d.profiles[i].resolutions[j]).is_default <==> j == 0),
{
    lemma_count_where_single(d.profiles, |p: ProfileModel| p.is_active, 0);
    assert forall|i: int| 0 <= i < d.profiles.len() implies count_where(
        (#[trigger] d.profiles[i]).resolutions,
        |r: ResolutionModel| r.is_default,
    ) <= 1 by {
        lemma_count_where_single(d.profiles[i].resolutions, |r: ResolutionModel| r.is_default, 0);
    }
}

} // verus!
