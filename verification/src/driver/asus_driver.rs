//! The ASUS ROG driver: what it takes from the catalog entry, how it reads
//! the replies of the device into a profile, and the requests that write a
//! profile.

use vstd::prelude::*;
use crate::device::{
    ActionType, ButtonInfo, ButtonModel, Color, LedInfo, LedMode, LedModel, ProfileInfo,
    ProfileModel, ResolutionModel, buttons_view, resolutions_view,
};
use crate::device_database::{DriverConfig, DriverConfigModel, strings_view};
use crate::driver::asus::{
    brightness_of_raw, brightness_to_ratbag, button_entry, button_table, debounce_time_at,
    debounce_times, default_button_code, default_button_mapping, dpi_of_preset, find_button_by_code,
    first_entry, get_linux_key_code, has_code, led_mode_of_name, linux_key_of, names_view,
    parse_led_mode_str, parse_quirks, polling_rate_at, polling_rates, quirk_set, quirks_of,
    build_preset_dpi, AsusBinding, AsusBindingData, AsusButtonEntry, AsusButtonKind, AsusDpiXyData,
    AsusLedEntry, ASUS_ACTION_TYPE_BUTTON, ASUS_ACTION_TYPE_KEY, ASUS_BUTTON_CODE_DISABLED,
    ASUS_BUTTON_TABLE_LEN, ASUS_QUIRK_BUTTONS_SECONDARY,
};

verus! {

/// The LED mode that each mode number of the device stands for, unless the
/// catalog entry says otherwise.
pub open spec fn default_led_modes() -> Seq<LedMode> {
    seq![
        LedMode::Solid,
        LedMode::Breathing,
        LedMode::Cycle,
        LedMode::Solid,
        LedMode::Solid,
        LedMode::Solid,
        LedMode::Solid,
    ]
}

pub fn default_led_mode_table() -> (r: [LedMode; 7])
    ensures
        r@ == default_led_modes(),
{
    let r = [
        LedMode::Solid,
        LedMode::Breathing,
        LedMode::Cycle,
        LedMode::Solid,
        LedMode::Solid,
        LedMode::Solid,
        LedMode::Solid,
    ];
    assert(r@ =~= default_led_modes());
    r
}

/// The hardware code of each button slot that a catalog entry gives: the
/// codes of the entry for the first group, the defaults where the entry
/// says nothing, and the codes of the entry for the second group with the
/// quirk of a second group.
pub open spec fn mapping_of_config(c: DriverConfigModel, quirks: u32) -> Seq<Option<u8>> {
    Seq::new(
        34,
        |i: int|
            if i < 17 {
                if i < c.button_mapping.len() {
                    Some(c.button_mapping[i])
                } else if i < 8 {
                    Some(default_button_mapping()[i])
                } else {
                    None
                }
            } else if quirk_set(quirks, ASUS_QUIRK_BUTTONS_SECONDARY) && i - 17
                < c.button_mapping_secondary.len() {
                Some(c.button_mapping_secondary[i - 17])
            } else {
                None
            },
    )
}

/// The first slot from `i` on that holds the given code, or the number of
/// slots.
pub open spec fn slot_of_code(mapping: Seq<Option<u8>>, code: u8, i: int) -> int
    decreases mapping.len() - i,
{
    if 0 <= i < mapping.len() && mapping[i] != Some(code) {
        slot_of_code(mapping, code, i + 1)
    } else {
        i
    }
}

/// The slot of each button of the device state: the entries of the button
/// table from `e` on are looked up in the slots, in order, and each that is
/// found gives the next button its slot.
pub open spec fn indices_of(
    mapping: Seq<Option<u8>>,
    e: int,
    dev: int,
    acc: Seq<Option<usize>>,
) -> Seq<Option<usize>>
    decreases button_table().len() - e,
{
    if e < 0 || e >= button_table().len() || dev < 0 || dev >= acc.len() {
        acc
    } else {
        let pos = slot_of_code(mapping, button_table()[e].asus_code, 0);
        if pos < mapping.len() {
            indices_of(mapping, e + 1, dev + 1, acc.update(dev, Some(pos as usize)))
        } else {
            indices_of(mapping, e + 1, dev, acc)
        }
    }
}

/// The LED modes that a catalog entry gives: the modes that it names, for
/// the first seven mode numbers, and the defaults for the rest.
pub open spec fn led_modes_of_config(c: DriverConfigModel) -> Seq<LedMode> {
    Seq::new(
        7,
        |i: int|
            if i < c.led_modes.len() {
                led_mode_of_name(c.led_modes[i])
            } else {
                default_led_modes()[i]
            },
    )
}

/// What the driver takes from the catalog entry of a device.
#[derive(Debug, Clone, Copy)]
pub struct AsusTables {
    /// The hardware code of each button slot: the first group, then the
    /// second.
    pub button_mapping: [Option<u8>; 34],
    /// The slot of each button of the device state.
    pub button_indices: [Option<usize>; 34],
    /// The LED mode that each mode number of the device stands for.
    pub led_modes: [LedMode; 7],
    pub quirks: u32,
}

impl AsusTables {
    /// The tables of a driver that knows no catalog entry yet.
    pub fn new() -> (r: Self)
        ensures
            r.quirks == 0,
            r.led_modes@ == default_led_modes(),
            forall|i: int| 0 <= i < 34 ==> r.button_mapping@[i] is None,
            forall|i: int| 0 <= i < 34 ==> r.button_indices@[i] is None,
    {
        let mapping: [Option<u8>; 34] = [None;34];
        let indices: [Option<usize>; 34] = [None;34];
        AsusTables {
            button_mapping: mapping,
            button_indices: indices,
            led_modes: default_led_mode_table(),
            quirks: 0,
        }
    }

    /// Whether the tables are those that a catalog entry gives.
    pub open spec fn of_config(self, c: DriverConfigModel) -> bool {
        &&& self.quirks == quirks_of(c.quirks, c.quirks.len() as int)
        &&& self.button_mapping@ == mapping_of_config(c, self.quirks)
        &&& self.button_indices@ == indices_of(
            mapping_of_config(c, self.quirks),
            0,
            0,
            Seq::new(34, |i: int| None::<usize>),
        )
        &&& self.led_modes@ == led_modes_of_config(c)
    }

    /// Takes the quirks, the button codes and the LED modes of a catalog
    /// entry.
    pub fn from_config(config: &DriverConfig) -> (r: Self)
        ensures
            r.of_config(config@),
    {
        let quirks = parse_quirks(config.quirks.as_slice());
        assert(names_view(config.quirks@) =~= strings_view(config.quirks@));
        let secondary = quirks & ASUS_QUIRK_BUTTONS_SECONDARY != 0;
        let ghost want = mapping_of_config(config@, quirks);
        let mut mapping: [Option<u8>; 34] = [None;34];
        let mut i: usize = 0;
        while i < 34
            invariant
                i <= 34,
                secondary == quirk_set(quirks, ASUS_QUIRK_BUTTONS_SECONDARY),
                want == mapping_of_config(config@, quirks),
                forall|k: int| 0 <= k < i ==> mapping@[k] == want[k],
            decreases 34 - i,
        {
            let code: Option<u8> = if i < 17 {
                if i < config.button_mapping.len() {
                    Some(config.button_mapping[i])
                } else {
                    default_button_code(i)
                }
            } else if secondary && i - 17 < config.button_mapping_secondary.len() {
                Some(config.button_mapping_secondary[i - 17])
            } else {
                None
            };
            mapping[i] = code;
            i += 1;
        }
        assert(mapping@ =~= want);

        let mut indices: [Option<usize>; 34] = [None;34];
        assert(indices@ =~= Seq::new(34, |i: int| None::<usize>));
        let ghost all = indices_of(want, 0, 0, indices@);
        let mut dev: usize = 0;
        let mut e: usize = 0;
        while e < ASUS_BUTTON_TABLE_LEN && dev < 34
            invariant
                e <= ASUS_BUTTON_TABLE_LEN,
                dev <= 34,
                button_table().len() == ASUS_BUTTON_TABLE_LEN,
                mapping@ == want,
                all == indices_of(want, e as int, dev as int, indices@),
            decreases ASUS_BUTTON_TABLE_LEN - e,
        {
            let code = button_entry(e).asus_code;
            let mut pos: usize = 0;
            while pos < 34 && !is_code(&mapping[pos], code)
                invariant
                    pos <= 34,
                    mapping@ == want,
                    slot_of_code(want, code, 0) == slot_of_code(want, code, pos as int),
                decreases 34 - pos,
            {
                pos += 1;
            }
            if pos < 34 {
                indices[dev] = Some(pos);
                dev += 1;
            }
            e += 1;
        }

        let mut modes = default_led_mode_table();
        let mut m: usize = 0;
        while m < 7 && m < config.led_modes.len()
            invariant
                m <= 7,
                m <= config.led_modes@.len(),
                forall|k: int| 0 <= k < m ==> modes@[k] == led_modes_of_config(config@)[k],
                forall|k: int| m <= k < 7 ==> modes@[k] == default_led_modes()[k],
            decreases 7 - m,
        {
            assert(config@.led_modes[m as int] == config.led_modes@[m as int]@);
            modes[m] = parse_led_mode_str(config.led_modes[m].as_str());
            m += 1;
        }
        assert(modes@ =~= led_modes_of_config(config@));
        AsusTables { button_mapping: mapping, button_indices: indices, led_modes: modes, quirks }
    }

    pub fn has_quirk(&self, quirk: u32) -> (r: bool)
        ensures
            r == quirk_set(self.quirks, quirk),
    {
        self.quirks & quirk != 0
    }
}

fn is_code(slot: &Option<u8>, code: u8) -> (r: bool)
    ensures
        r == (*slot == Some(code)),
{
    match slot {
        Some(c) => *c == code,
        None => false,
    }
}

// ---------------------------------------------------------------------------
// Reading the replies of the device into a profile
// ---------------------------------------------------------------------------

/// The binding that the device holds for the button with the given index
/// of the device state, where the button has a slot: the slots of the first
/// group are read from the bindings of the first group, the others from
/// those of the second group, where they were read.
pub open spec fn wire_of_button(
    t: AsusTables,
    index: u32,
    primary: Seq<AsusBinding>,
    secondary: Option<Seq<AsusBinding>>,
) -> Option<AsusBinding> {
    if index >= 34 {
        None
    } else {
        match t.button_indices@[index as int] {
            None => None,
            Some(flat) => if flat < 17 {
                Some(primary[flat as int])
            } else {
                match secondary {
                    Some(s) => Some(s[flat as int % 17]),
                    None => None,
                }
            },
        }
    }
}

/// A button after its binding was read. A disabled binding switches the
/// button off. A key binding gives the key, where the daemon knows its
/// code. A button binding gives the mouse button or the special action of
/// its table entry; an axis of the joystick counts as special action 0. A
/// binding that the daemon cannot read leaves the button as it is.
pub open spec fn button_after_binding(b: ButtonModel, wire: Option<AsusBinding>) -> ButtonModel {
    match wire {
        None => b,
        Some(w) => if w.action == ASUS_BUTTON_CODE_DISABLED {
            ButtonModel { action_type: ActionType::NoAction, ..b }
        } else if w.type_ == ASUS_ACTION_TYPE_KEY {
            match linux_key_of(w.action) {
                Some(k) => ButtonModel { action_type: ActionType::Key, mapping_value: k, ..b },
                None => b,
            }
        } else if w.type_ == ASUS_ACTION_TYPE_BUTTON {
            match first_entry(button_table(), |e: AsusButtonEntry| has_code(e, w.action), 0) {
                Some(e) => match e.kind {
                    AsusButtonKind::Button(n) => ButtonModel {
                        action_type: ActionType::Button,
                        mapping_value: n,
                        ..b
                    },
                    AsusButtonKind::Special(n) => ButtonModel {
                        action_type: ActionType::Special,
                        mapping_value: n,
                        ..b
                    },
                    AsusButtonKind::Joystick => ButtonModel {
                        action_type: ActionType::Special,
                        mapping_value: 0,
                        ..b
                    },
                    AsusButtonKind::Unmapped => ButtonModel {
                        action_type: ActionType::NoAction,
                        ..b
                    },
                },
                None => b,
            }
        } else {
            b
        },
    }
}

/// The profile after the bindings of its buttons were read.
pub open spec fn profile_after_bindings(
    p: ProfileModel,
    t: AsusTables,
    primary: Seq<AsusBinding>,
    secondary: Option<Seq<AsusBinding>>,
) -> ProfileModel {
    ProfileModel {
        buttons: Seq::new(
            p.buttons.len(),
            |j: int|
                button_after_binding(
                    p.buttons[j],
                    wire_of_button(t, p.buttons[j].index, primary, secondary),
                ),
        ),
        ..p
    }
}

fn apply_binding(b: &mut ButtonInfo, wire: Option<AsusBinding>)
    ensures
        final(b)@ == button_after_binding(old(b)@, wire),
{
    match wire {
        None => {},
        Some(w) => {
            if w.action == ASUS_BUTTON_CODE_DISABLED {
                b.action_type = ActionType::NoAction;
            } else if w.type_ == ASUS_ACTION_TYPE_KEY {
                match get_linux_key_code(w.action) {
                    Some(k) => {
                        b.action_type = ActionType::Key;
                        b.mapping_value = k;
                    },
                    None => {},
                }
            } else if w.type_ == ASUS_ACTION_TYPE_BUTTON {
                match find_button_by_code(w.action) {
                    Some(e) => match e.kind {
                        AsusButtonKind::Button(n) => {
                            b.action_type = ActionType::Button;
                            b.mapping_value = n;
                        },
                        AsusButtonKind::Special(n) => {
                            b.action_type = ActionType::Special;
                            b.mapping_value = n;
                        },
                        AsusButtonKind::Joystick => {
                            b.action_type = ActionType::Special;
                            b.mapping_value = 0;
                        },
                        AsusButtonKind::Unmapped => {
                            b.action_type = ActionType::NoAction;
                        },
                    },
                    None => {},
                }
            }
        },
    }
}

/// Takes the bindings that the device reported.
pub fn apply_bindings(
    p: &mut ProfileInfo,
    t: &AsusTables,
    primary: &AsusBindingData,
    secondary: Option<&AsusBindingData>,
)
    ensures
        final(p)@ == profile_after_bindings(
            old(p)@,
            *t,
            primary.bindings@,
            match secondary {
                Some(s) => Some(s.bindings@),
                None => None,
            },
        ),
{
    let ghost sec = match secondary {
        Some(s) => Some(s.bindings@),
        None => None,
    };
    let ghost want = profile_after_bindings(old(p)@, *t, primary.bindings@, sec);
    let mut j: usize = 0;
    while j < p.buttons.len()
        invariant
            j <= p.buttons@.len(),
            p.buttons@.len() == old(p).buttons@.len(),
            sec == (match secondary {
                Some(s) => Some(s.bindings@),
                None => None,
            }),
            want == profile_after_bindings(old(p)@, *t, primary.bindings@, sec),
            forall|k: int| 0 <= k < j ==> (#[trigger] p.buttons@[k])@ == want.buttons[k],
            forall|k: int| j <= k < p.buttons@.len() ==> p.buttons@[k] == old(p).buttons@[k],
            p.index == old(p).index,
            p.name == old(p).name,
            p.is_active == old(p).is_active,
            p.is_enabled == old(p).is_enabled,
            p.is_dirty == old(p).is_dirty,
            p.report_rate == old(p).report_rate,
            p.report_rates == old(p).report_rates,
            p.angle_snapping == old(p).angle_snapping,
            p.debounce == old(p).debounce,
            p.debounces == old(p).debounces,
            p.resolutions == old(p).resolutions,
            p.leds == old(p).leds,
        decreases p.buttons@.len() - j,
    {
        assert(old(p)@.buttons[j as int] == old(p).buttons@[j as int]@);
        let index = p.buttons[j].index;
        let wire: Option<AsusBinding> = if index >= 34 {
            None
        } else {
            match t.button_indices[index as usize] {
                None => None,
                Some(flat) => {
                    if flat < 17 {
                        Some(primary.bindings[flat])
                    } else {
                        match secondary {
                            Some(s) => Some(s.bindings[flat % 17]),
                            None => None,
                        }
                    }
                },
            }
        };
        apply_binding(&mut p.buttons[j], wire);
        j += 1;
    }
    assert(buttons_view(p.buttons@) =~= want.buttons);
}

/// The settings of a profile as the device reported them.
pub struct AsusSettings {
    /// The stored DPI of each preset.
    pub dpis: Seq<u16>,
    pub rate_idx: u16,
    pub response_idx: u16,
    pub snapping: u16,
    /// The DPI of each axis, where the device states it per axis.
    pub xy: Option<Seq<(u16, u16)>>,
    /// The active preset, where the device names one.
    pub dpi_preset: Option<u32>,
}

/// A resolution after the settings were read.
pub open spec fn resolution_after_settings(r: ResolutionModel, s: AsusSettings, quirks: u32) -> ResolutionModel {
    ResolutionModel {
        dpi: dpi_of_preset(
            r.index as int,
            if r.index < s.dpis.len() {
                s.dpis[r.index as int]
            } else {
                0
            },
            s.xy,
            quirks,
        ),
        is_active: match s.dpi_preset {
            Some(preset) => r.index == preset,
            None => r.is_active,
        },
        ..r
    }
}

/// The profile after its settings were read: the report rate by its index
/// (1000 Hz for an index that names none), the debounce time by its index
/// (unchanged for an index that names none), angle snapping, and the DPI of
/// each resolution.
pub open spec fn profile_after_settings(p: ProfileModel, s: AsusSettings, quirks: u32) -> ProfileModel {
    ProfileModel {
        report_rate: if s.rate_idx < 4 {
            polling_rates()[s.rate_idx as int]
        } else {
            1000
        },
        debounce: if s.response_idx < 8 {
            debounce_times()[s.response_idx as int] as i32
        } else {
            p.debounce
        },
        angle_snapping: s.snapping as i32,
        resolutions: Seq::new(
            p.resolutions.len(),
            |j: int| resolution_after_settings(p.resolutions[j], s, quirks),
        ),
        ..p
    }
}

/// Takes the settings that the device reported.
pub fn apply_settings(
    p: &mut ProfileInfo,
    dpis: &[u16],
    rate_idx: u16,
    response_idx: u16,
    snapping: u16,
    xy: Option<&AsusDpiXyData>,
    dpi_preset: Option<u32>,
    quirks: u32,
)
    ensures
        final(p)@ == profile_after_settings(
            old(p)@,
            AsusSettings {
                dpis: dpis@,
                rate_idx,
                response_idx,
                snapping,
                xy: match xy {
                    Some(d) => Some(d.dpi@),
                    None => None,
                },
                dpi_preset,
            },
            quirks,
        ),
{
    let ghost s = AsusSettings {
        dpis: dpis@,
        rate_idx,
        response_idx,
        snapping,
        xy: match xy {
            Some(d) => Some(d.dpi@),
            None => None,
        },
        dpi_preset,
    };
    let ghost want = profile_after_settings(old(p)@, s, quirks);
    p.report_rate = match polling_rate_at(rate_idx as usize) {
        Some(hz) => hz,
        None => 1000,
    };
    match debounce_time_at(response_idx as usize) {
        Some(ms) => {
            p.debounce = ms as i32;
        },
        None => {},
    }
    p.angle_snapping = snapping as i32;
    let mut j: usize = 0;
    while j < p.resolutions.len()
        invariant
            j <= p.resolutions@.len(),
            p.resolutions@.len() == old(p).resolutions@.len(),
            s.dpis == dpis@,
            s.xy == (match xy {
                Some(d) => Some(d.dpi@),
                None => None,
            }),
            s.dpi_preset == dpi_preset,
            want == profile_after_settings(old(p)@, s, quirks),
            forall|k: int| 0 <= k < j ==> (#[trigger] p.resolutions@[k])@ == want.resolutions[k],
            forall|k: int|
                j <= k < p.resolutions@.len() ==> p.resolutions@[k] == old(p).resolutions@[k],
            p.index == old(p).index,
            p.name == old(p).name,
            p.is_active == old(p).is_active,
            p.is_enabled == old(p).is_enabled,
            p.is_dirty == old(p).is_dirty,
            p.report_rate == want.report_rate,
            p.report_rates == old(p).report_rates,
            p.angle_snapping == want.angle_snapping,
            p.debounce == want.debounce,
            p.debounces == old(p).debounces,
            p.buttons == old(p).buttons,
            p.leds == old(p).leds,
        decreases p.resolutions@.len() - j,
    {
        assert(old(p)@.resolutions[j as int] == old(p).resolutions@[j as int]@);
        let index = p.resolutions[j].index;
        let stored: u16 = if (index as u64) < dpis.len() as u64 {
            dpis[index as usize]
        } else {
            0
        };
        let i: usize = if index < 4 {
            index as usize
        } else {
            4
        };
        p.resolutions[j].dpi = build_preset_dpi(i, stored, xy, quirks);
        match dpi_preset {
            Some(preset) => {
                p.resolutions[j].is_active = index == preset;
            },
            None => {},
        }
        j += 1;
    }
    assert(resolutions_view(p.resolutions@) =~= want.resolutions);
}

/// An LED after what the device stores of it was read: the mode by its
/// number (a solid color for a number that names none), the brightness on
/// the scale of the daemon, and the color.
pub open spec fn led_after_entry(l: LedModel, e: AsusLedEntry, t: AsusTables) -> LedModel {
    LedModel {
        mode: if e.mode < 7 {
            t.led_modes@[e.mode as int]
        } else {
            LedMode::Solid
        },
        brightness: brightness_of_raw(e.brightness, t.quirks),
        color: Color { red: e.r as u32, green: e.g as u32, blue: e.b as u32 },
        ..l
    }
}

/// Takes what the device stores of an LED.
pub fn apply_led(led: &mut LedInfo, entry: AsusLedEntry, t: &AsusTables)
    ensures
        final(led)@ == led_after_entry(old(led)@, entry, *t),
{
    led.mode = if entry.mode < 7 {
        t.led_modes[entry.mode as usize]
    } else {
        LedMode::Solid
    };
    led.brightness = brightness_to_ratbag(entry.brightness, t.quirks);
    led.color = Color { red: entry.r as u32, green: entry.g as u32, blue: entry.b as u32 };
}

} // verus!
