//! The SteelSeries driver.
//!
//! The devices hold one profile, and most of them cannot be asked for their
//! settings: loading sets up a fixed skeleton and overrides what the device
//! reports, where it reports anything. A commit is a fixed sequence of
//! writes, each after a short pause; which reports it writes depends on the
//! protocol version alone, so the whole sequence is planned before the first
//! write.

use vstd::prelude::*;
use crate::device::{ActionType, ButtonInfo, ButtonModel, Color, DeviceInfo, DeviceModel, Dpi, LedInfo, LedMode, LedModel, ProfileInfo, ProfileModel, ResolutionInfo, ResolutionModel, leds_view, resolutions_view};
use crate::device_database::strings_view;
use crate::driver::{
    error_text, ActionModel, DeviceDriver, DriverAction, DriverEvent, DriverEventModel,
};
use crate::driver::hidpp20_driver::{first_active, first_active_resolution, text2};
use crate::driver::steelseries::{
    SteelseriesButtonReport, SteelseriesDpiReportV1, SteelseriesDpiReportV2,
    SteelseriesDpiReportV3, SteelseriesDpiReportV4, SteelseriesFirmwareRequestV1,
    SteelseriesFirmwareRequestV2, SteelseriesFirmwareRequestV3, SteelseriesLedColorReportV1,
    SteelseriesLedEffectReportV1, SteelseriesLedPoint, SteelseriesLedReportV2,
    SteelseriesLedReportV3, SteelseriesReportRateV1, SteelseriesReportRateV2,
    SteelseriesReportRateV3, SteelseriesReportRateV4, SteelseriesSaveV1, SteelseriesSaveV2,
    SteelseriesSaveV3, SteelseriesSettingsRequest, STEELSERIES_BUTTON_KBD, STEELSERIES_BUTTON_KEY,
    STEELSERIES_BUTTON_OFF, STEELSERIES_BUTTON_RES_CYCLE, STEELSERIES_BUTTON_WHEEL_DOWN,
    STEELSERIES_BUTTON_WHEEL_UP, STEELSERIES_ID_BUTTONS,
};
use crate::text::{chars_eq, chars_of, decimal, push_decimal, push_str, string_of};

verus! {

/// The quirk of devices whose button report is short and holds three bytes
/// for each button.
pub open spec fn senseiraw_quirk() -> Seq<char> {
    "STEELSERIES_QUIRK_SENSEIRAW"@
}

/// Whether a list of quirks names the short button report.
pub open spec fn has_senseiraw(quirks: Seq<Seq<char>>) -> bool {
    exists|i: int| 0 <= i < quirks.len() && quirks[i] == senseiraw_quirk()
}

pub fn quirks_have_senseiraw(quirks: &Vec<String>) -> (r: bool)
    ensures
        r == has_senseiraw(strings_view(quirks@)),
{
    let mut i: usize = 0;
    while i < quirks.len()
        invariant
            i <= quirks@.len(),
            forall|k: int| 0 <= k < i ==> strings_view(quirks@)[k] != senseiraw_quirk(),
        decreases quirks@.len() - i,
    {
        let chars = chars_of(quirks[i].as_str());
        assert(chars@.subrange(0, chars@.len() as int) =~= chars@);
        if chars_eq(&chars, 0, chars.len(), "STEELSERIES_QUIRK_SENSEIRAW") {
            assert(strings_view(quirks@)[i as int] == senseiraw_quirk());
            return true;
        }
        i += 1;
    }
    false
}

// ---------------------------------------------------------------------------
// The button report
// ---------------------------------------------------------------------------

/// The bit of the modifier byte that a key code stands for, where it is
/// the code of a modifier key.
pub open spec fn modifier_bit(key: u32) -> u8 {
    match key {
        224 => 0x01u8,
        225 => 0x02u8,
        226 => 0x04u8,
        227 => 0x08u8,
        228 => 0x10u8,
        229 => 0x20u8,
        230 => 0x40u8,
        231 => 0x80u8,
        _ => 0u8,
    }
}

fn modifier_bit_of(key: u32) -> (r: u8)
    ensures
        r == modifier_bit(key),
{
    match key {
        224 => 0x01,
        225 => 0x02,
        226 => 0x04,
        227 => 0x08,
        228 => 0x10,
        229 => 0x20,
        230 => 0x40,
        231 => 0x80,
        _ => 0,
    }
}

/// The modifiers that the first `n` events of a macro press.
pub open spec fn macro_modifiers(entries: Seq<(u32, u32)>, n: int) -> u8
    decreases n,
{
    if n <= 0 || n > entries.len() {
        0
    } else if entries[n - 1].0 == 0 {
        macro_modifiers(entries, n - 1) | modifier_bit(entries[n - 1].1)
    } else {
        macro_modifiers(entries, n - 1)
    }
}

/// The key that the first `n` events of a macro press last, modifiers
/// aside, cut to a byte; 0 where there is none.
pub open spec fn macro_key(entries: Seq<(u32, u32)>, n: int) -> u8
    decreases n,
{
    if n <= 0 || n > entries.len() {
        0
    } else if entries[n - 1].0 == 0 && modifier_bit(entries[n - 1].1) == 0 {
        (entries[n - 1].1 % 256) as u8
    } else {
        macro_key(entries, n - 1)
    }
}

/// The mask of bit `bit`.
pub open spec fn bit_mask(bit: int) -> u8 {
    if bit == 0 {
        0x01
    } else if bit == 1 {
        0x02
    } else if bit == 2 {
        0x04
    } else if bit == 3 {
        0x08
    } else if bit == 4 {
        0x10
    } else if bit == 5 {
        0x20
    } else if bit == 6 {
        0x40
    } else {
        0x80
    }
}

fn bit_mask_of(bit: u8) -> (r: u8)
    ensures
        r == bit_mask(bit as int),
{
    if bit == 0 {
        0x01
    } else if bit == 1 {
        0x02
    } else if bit == 2 {
        0x04
    } else if bit == 3 {
        0x08
    } else if bit == 4 {
        0x10
    } else if bit == 5 {
        0x20
    } else if bit == 6 {
        0x40
    } else {
        0x80
    }
}

/// The usage codes of the modifiers of a modifier byte, from bit `bit` on,
/// added to `acc`: `0xE0` for bit 0 up to `0xE7` for bit 7, in that order,
/// and no more than three in all.
pub open spec fn modifier_codes(modifiers: u8, bit: int, acc: Seq<u8>) -> Seq<u8>
    decreases 8 - bit,
{
    if bit < 0 || bit >= 8 {
        acc
    } else if modifiers & bit_mask(bit) != 0 && acc.len() < 3 {
        modifier_codes(modifiers, bit + 1, acc.push((0xE0 + bit) as u8))
    } else {
        modifier_codes(modifiers, bit + 1, acc)
    }
}

/// The bytes that stand for a button in the button report. A mouse button
/// is its number. A key is the keyboard marker and the usage code. A macro
/// is written as one key with up to three modifiers. A special action is
/// its code, where the device knows the action; anything else switches the
/// button off.
pub open spec fn button_bytes(b: ButtonModel, senseiraw: bool) -> Seq<u8> {
    let marker = if senseiraw {
        STEELSERIES_BUTTON_KEY
    } else {
        STEELSERIES_BUTTON_KBD
    };
    match b.action_type {
        ActionType::Button => seq![(b.mapping_value % 256) as u8],
        ActionType::Key => seq![marker, (b.mapping_value % 256) as u8],
        ActionType::Macro => {
            let n = b.macro_entries.len() as int;
            let key = macro_key(b.macro_entries, n);
            if senseiraw {
                seq![marker, key]
            } else {
                seq![marker] + modifier_codes(
                    macro_modifiers(b.macro_entries, n),
                    0,
                    Seq::empty(),
                ) + seq![key]
            }
        },
        ActionType::Special => seq![
            if b.mapping_value == 1 {
                STEELSERIES_BUTTON_RES_CYCLE
            } else if b.mapping_value == 2 {
                STEELSERIES_BUTTON_WHEEL_UP
            } else if b.mapping_value == 3 {
                STEELSERIES_BUTTON_WHEEL_DOWN
            } else {
                STEELSERIES_BUTTON_OFF
            },
        ],
        _ => seq![STEELSERIES_BUTTON_OFF],
    }
}

fn button_bytes_of(b: &ButtonInfo, senseiraw: bool) -> (r: Vec<u8>)
    ensures
        r@ == button_bytes(b@, senseiraw),
        r@.len() <= 5,
{
    let marker = if senseiraw {
        STEELSERIES_BUTTON_KEY
    } else {
        STEELSERIES_BUTTON_KBD
    };
    let mut out: Vec<u8> = Vec::new();
    match b.action_type {
        ActionType::Button => {
            out.push((b.mapping_value % 256) as u8);
            assert(out@ =~= button_bytes(b@, senseiraw));
        },
        ActionType::Key => {
            out.push(marker);
            out.push((b.mapping_value % 256) as u8);
            assert(out@ =~= button_bytes(b@, senseiraw));
        },
        ActionType::Macro => {
            let mut modifiers: u8 = 0;
            let mut key: u8 = 0;
            let mut i: usize = 0;
            while i < b.macro_entries.len()
                invariant
                    i <= b.macro_entries@.len(),
                    modifiers == macro_modifiers(b.macro_entries@, i as int),
                    key == macro_key(b.macro_entries@, i as int),
                decreases b.macro_entries@.len() - i,
            {
                let (ev, k) = b.macro_entries[i];
                if ev == 0 {
                    let bit = modifier_bit_of(k);
                    if bit != 0 {
                        modifiers = modifiers | bit;
                    } else {
                        assert(modifiers | 0u8 == modifiers) by (bit_vector);
                        key = (k % 256) as u8;
                    }
                }
                i += 1;
            }
            out.push(marker);
            if !senseiraw {
                let ghost want = modifier_codes(modifiers, 0, Seq::empty());
                let mut bit: u8 = 0;
                let mut count: usize = 0;
                assert(out@.subrange(1, 1) =~= Seq::<u8>::empty());
                while bit < 8
                    invariant
                        bit <= 8,
                        count <= 3,
                        out@.len() == 1 + count,
                        out@[0] == marker,
                        want == modifier_codes(modifiers, bit as int, out@.subrange(1, 1 + count)),
                    decreases 8 - bit,
                {
                    let ghost acc = out@.subrange(1, 1 + count);
                    if modifiers & bit_mask_of(bit) != 0 && count < 3 {
                        out.push(0xE0 + bit);
                        count += 1;
                        assert(out@.subrange(1, 1 + count) =~= acc.push((0xE0 + bit) as u8));
                    }
                    bit += 1;
                }
                assert(out@ =~= seq![marker] + want);
            }
            out.push(key);
            assert(out@ =~= button_bytes(b@, senseiraw));
        },
        ActionType::Special => {
            out.push(
                if b.mapping_value == 1 {
                    STEELSERIES_BUTTON_RES_CYCLE
                } else if b.mapping_value == 2 {
                    STEELSERIES_BUTTON_WHEEL_UP
                } else if b.mapping_value == 3 {
                    STEELSERIES_BUTTON_WHEEL_DOWN
                } else {
                    STEELSERIES_BUTTON_OFF
                },
            );
            assert(out@ =~= button_bytes(b@, senseiraw));
        },
        _ => {
            out.push(STEELSERIES_BUTTON_OFF);
            assert(out@ =~= button_bytes(b@, senseiraw));
        },
    }
    proof {
        lemma_modifier_codes_len(macro_modifiers(b@.macro_entries, b@.macro_entries.len() as int), 0, Seq::empty());
    }
    out
}

pub proof fn lemma_modifier_codes_len(modifiers: u8, bit: int, acc: Seq<u8>)
    requires
        acc.len() <= 3,
    ensures
        modifier_codes(modifiers, bit, acc).len() <= 3,
    decreases 8 - bit,
{
    if 0 <= bit < 8 {
        if modifiers & bit_mask(bit) != 0 && acc.len() < 3 {
            lemma_modifier_codes_len(modifiers, bit + 1, acc.push((0xE0 + bit) as u8));
        } else {
            lemma_modifier_codes_len(modifiers, bit + 1, acc);
        }
    }
}

/// How many bytes of the button report belong to one button.
pub open spec fn button_size(senseiraw: bool) -> int {
    if senseiraw {
        3
    } else {
        5
    }
}

/// How many bytes of the button report are sent.
pub open spec fn button_report_size(senseiraw: bool) -> int {
    if senseiraw {
        32
    } else {
        262
    }
}

/// The report after the bytes from `k` on were written from position
/// `idx + k` on; a position outside the buttons of the report is skipped.
pub open spec fn written_at(report: Seq<u8>, idx: int, bytes: Seq<u8>, k: int) -> Seq<u8>
    decreases bytes.len() - k,
{
    if k < 0 || k >= bytes.len() {
        report
    } else if 2 <= idx + k < 262 && idx + k < report.len() {
        written_at(report.update(idx + k, bytes[k]), idx, bytes, k + 1)
    } else {
        written_at(report, idx, bytes, k + 1)
    }
}

/// The button report after one button was written: its bytes start at
/// position 2 plus the button's index times the size of a button; a button
/// that starts outside the part that is sent is left out.
pub open spec fn report_after_button(report: Seq<u8>, b: ButtonModel, senseiraw: bool) -> Seq<u8> {
    let idx = 2 + b.index * button_size(senseiraw);
    if idx >= button_report_size(senseiraw) {
        report
    } else {
        written_at(report, idx, button_bytes(b, senseiraw), 0)
    }
}

/// The button report after the buttons from `i` on were written, in order.
pub open spec fn report_after_buttons(
    report: Seq<u8>,
    buttons: Seq<ButtonModel>,
    senseiraw: bool,
    i: int,
) -> Seq<u8>
    decreases buttons.len() - i,
{
    if i < 0 || i >= buttons.len() {
        report
    } else {
        report_after_buttons(report_after_button(report, buttons[i], senseiraw), buttons, senseiraw, i + 1)
    }
}

/// The empty button report: the report number and 261 zero bytes.
pub open spec fn empty_button_report() -> Seq<u8> {
    Seq::new(262, |i: int| if i == 0 { STEELSERIES_ID_BUTTONS } else { 0u8 })
}

/// The button report of a profile.
pub open spec fn button_report_of(p: ProfileModel, senseiraw: bool) -> Seq<u8> {
    report_after_buttons(empty_button_report(), p.buttons, senseiraw, 0)
}

/// Builds the button report of a profile.
pub fn build_button_report(profile: &ProfileInfo, senseiraw: bool) -> (r: SteelseriesButtonReport)
    ensures
        r.bytes() == button_report_of(profile@, senseiraw),
{
    let mut report = SteelseriesButtonReport::new();
    assert(report.bytes() =~= empty_button_report());
    let size: u64 = if senseiraw {
        3
    } else {
        5
    };
    let report_size: u64 = if senseiraw {
        32
    } else {
        262
    };
    let mut i: usize = 0;
    while i < profile.buttons.len()
        invariant
            i <= profile.buttons@.len(),
            size == button_size(senseiraw),
            report_size == button_report_size(senseiraw),
            report.bytes().len() == 262,
            button_report_of(profile@, senseiraw) == report_after_buttons(
                report.bytes(),
                profile@.buttons,
                senseiraw,
                i as int,
            ),
        decreases profile.buttons@.len() - i,
    {
        let button = &profile.buttons[i];
        assert(profile@.buttons[i as int] == button@);
        let idx: u64 = 2 + (button.index as u64) * size;
        if idx < report_size {
            let bytes = button_bytes_of(button, senseiraw);
            let ghost start = report.bytes();
            let mut k: usize = 0;
            while k < bytes.len()
                invariant
                    k <= bytes@.len() <= 5,
                    idx < 262,
                    report.bytes().len() == 262,
                    written_at(start, idx as int, bytes@, 0) == written_at(
                        report.bytes(),
                        idx as int,
                        bytes@,
                        k as int,
                    ),
                decreases bytes@.len() - k,
            {
                report.write_idx(idx as usize + k, bytes[k]);
                k += 1;
            }
        }
        i += 1;
    }
    report
}

// ---------------------------------------------------------------------------
// What the device reports
// ---------------------------------------------------------------------------

/// The resolution at position `j` of the skeleton: 800 DPI for the first,
/// 1600 for the second; the first is active and the default.
pub open spec fn skeleton_resolution(j: int) -> ResolutionModel {
    ResolutionModel {
        index: j as u32,
        dpi: Dpi::Unified((800 * (j + 1)) as u32),
        dpi_list: Seq::empty(),
        capabilities: Seq::empty(),
        is_active: j == 0,
        is_default: j == 0,
        is_disabled: false,
    }
}

/// The button at position `j` of the skeleton: mouse button `j + 1`.
pub open spec fn skeleton_button(j: int) -> ButtonModel {
    ButtonModel {
        index: j as u32,
        action_type: ActionType::Button,
        action_types: Seq::empty(),
        mapping_value: (j + 1) as u32,
        macro_entries: Seq::empty(),
    }
}

/// The LED at position `j` of the skeleton: solid red.
pub open spec fn skeleton_led(j: int) -> LedModel {
    LedModel {
        index: j as u32,
        mode: LedMode::Solid,
        modes: Seq::empty(),
        color: Color { red: 255, green: 0, blue: 0 },
        secondary_color: Color::black(),
        tertiary_color: Color::black(),
        color_depth: 3,
        effect_duration: 1000,
        brightness: 255,
    }
}

/// The profile that a load sets up before it asks the device: two
/// resolutions, six buttons and two LEDs.
pub open spec fn skeleton_profile(id: u8) -> ProfileModel {
    ProfileModel {
        index: id as u32,
        name: "Profile "@ + decimal(id as nat),
        is_active: true,
        is_enabled: true,
        is_dirty: false,
        report_rate: 1000,
        report_rates: seq![125u32, 250u32, 500u32, 1000u32],
        angle_snapping: 0,
        debounce: 0,
        debounces: Seq::empty(),
        resolutions: Seq::new(2, |j: int| skeleton_resolution(j)),
        buttons: Seq::new(6, |j: int| skeleton_button(j)),
        leds: Seq::new(2, |j: int| skeleton_led(j)),
    }
}

pub fn build_skeleton_profile(id: u8) -> (r: ProfileInfo)
    ensures
        r@ == skeleton_profile(id),
{
    let mut name: Vec<char> = Vec::new();
    push_str(&mut name, "Profile ");
    push_decimal(&mut name, id as u64);
    let mut rates: Vec<u32> = Vec::new();
    rates.push(125);
    rates.push(250);
    rates.push(500);
    rates.push(1000);
    assert(rates@ =~= seq![125u32, 250u32, 500u32, 1000u32]);
    let mut resolutions: Vec<ResolutionInfo> = Vec::new();
    let mut j: u32 = 0;
    while j < 2
        invariant
            j <= 2,
            resolutions@.len() == j,
            forall|k: int| 0 <= k < j ==> (#[trigger] resolutions@[k])@ == skeleton_resolution(k),
        decreases 2 - j,
    {
        resolutions.push(
            ResolutionInfo {
                index: j,
                dpi: Dpi::Unified(800 * (j + 1)),
                dpi_list: Vec::new(),
                capabilities: Vec::new(),
                is_active: j == 0,
                is_default: j == 0,
                is_disabled: false,
            },
        );
        j += 1;
    }
    let mut buttons: Vec<ButtonInfo> = Vec::new();
    let mut j: u32 = 0;
    while j < 6
        invariant
            j <= 6,
            buttons@.len() == j,
            forall|k: int| 0 <= k < j ==> (#[trigger] buttons@[k])@ == skeleton_button(k),
        decreases 6 - j,
    {
        buttons.push(
            ButtonInfo {
                index: j,
                action_type: ActionType::Button,
                action_types: Vec::new(),
                mapping_value: j + 1,
                macro_entries: Vec::new(),
            },
        );
        j += 1;
    }
    let mut leds: Vec<LedInfo> = Vec::new();
    let mut j: u32 = 0;
    while j < 2
        invariant
            j <= 2,
            leds@.len() == j,
            forall|k: int| 0 <= k < j ==> (#[trigger] leds@[k])@ == skeleton_led(k),
        decreases 2 - j,
    {
        leds.push(
            LedInfo {
                index: j,
                mode: LedMode::Solid,
                modes: Vec::new(),
                color: Color { red: 255, green: 0, blue: 0 },
                secondary_color: Color { red: 0, green: 0, blue: 0 },
                tertiary_color: Color { red: 0, green: 0, blue: 0 },
                color_depth: 3,
                effect_duration: 1000,
                brightness: 255,
            },
        );
        j += 1;
    }
    let r = ProfileInfo {
        index: id as u32,
        name: string_of(&name),
        is_active: true,
        is_enabled: true,
        is_dirty: false,
        report_rate: 1000,
        report_rates: rates,
        angle_snapping: 0,
        debounce: 0,
        debounces: Vec::new(),
        resolutions,
        buttons,
        leds,
    };
    assert(r@.resolutions =~= skeleton_profile(id).resolutions);
    assert(r@.buttons =~= skeleton_profile(id).buttons);
    assert(r@.leds =~= skeleton_profile(id).leds);
    r
}

/// The byte one less than `x`, and 0 for 0.
pub open spec fn pred_byte(x: u8) -> u8 {
    if x == 0 {
        0
    } else {
        (x - 1) as u8
    }
}

/// A resolution after the settings of the device were read.
pub open spec fn resolution_after_settings(r: ResolutionModel, version: u8, buf: Seq<u8>) -> ResolutionModel {
    if version == 2 {
        let at = 2 + r.index * 2;
        ResolutionModel {
            is_active: r.index == pred_byte(buf[1]),
            dpi: if at < buf.len() {
                Dpi::Unified((100 * (1 + buf[at])) as u32)
            } else {
                r.dpi
            },
            ..r
        }
    } else if version == 3 {
        ResolutionModel { is_active: r.index == pred_byte(buf[0]), ..r }
    } else {
        r
    }
}

/// An LED after the settings of the device were read.
pub open spec fn led_after_settings(l: LedModel, version: u8, buf: Seq<u8>) -> LedModel {
    let at = 6 + l.index * 3;
    if version == 2 && at + 2 < buf.len() {
        LedModel {
            color: Color {
                red: buf[at] as u32,
                green: buf[at + 1] as u32,
                blue: buf[at + 2] as u32,
            },
            ..l
        }
    } else {
        l
    }
}

/// The profile after the settings of the device were read. A reply of
/// fewer than two bytes says nothing. Protocol 2 reports the active
/// resolution, the DPI of each resolution and the color of each LED, as far
/// as the reply reaches; protocol 3 reports the active resolution.
pub open spec fn profile_after_settings(p: ProfileModel, version: u8, buf: Seq<u8>) -> ProfileModel {
    if buf.len() < 2 {
        p
    } else {
        ProfileModel {
            resolutions: Seq::new(
                p.resolutions.len(),
                |j: int| resolution_after_settings(p.resolutions[j], version, buf),
            ),
            leds: Seq::new(p.leds.len(), |j: int| led_after_settings(p.leds[j], version, buf)),
            ..p
        }
    }
}

/// Takes the settings that the device reported.
pub fn apply_settings(p: &mut ProfileInfo, version: u8, buf: &[u8])
    ensures
        final(p)@ == profile_after_settings(old(p)@, version, buf@),
{
    let n = buf.len();
    if n < 2 {
        return ;
    }
    let ghost want = profile_after_settings(old(p)@, version, buf@);
    let mut j: usize = 0;
    while j < p.resolutions.len()
        invariant
            n == buf@.len(),
            n >= 2,
            j <= p.resolutions@.len(),
            p.resolutions@.len() == old(p).resolutions@.len(),
            want == profile_after_settings(old(p)@, version, buf@),
            forall|k: int| 0 <= k < j ==> (#[trigger] p.resolutions@[k])@ == want.resolutions[k],
            forall|k: int|
                j <= k < p.resolutions@.len() ==> p.resolutions@[k] == old(p).resolutions@[k],
            p.index == old(p).index,
            p.name == old(p).name,
            p.is_active == old(p).is_active,
            p.is_enabled == old(p).is_enabled,
            p.is_dirty == old(p).is_dirty,
            p.report_rate == old(p).report_rate,
            p.report_rates == old(p).report_rates,
            p.angle_snapping == old(p).angle_snapping,
            p.debounce == old(p).debounce,
            p.debounces == old(p).debounces,
            p.buttons == old(p).buttons,
            p.leds == old(p).leds,
        decreases p.resolutions@.len() - j,
    {
        assert(old(p)@.resolutions[j as int] == old(p).resolutions@[j as int]@);
        let index = p.resolutions[j].index;
        if version == 2 {
            let active = if buf[1] == 0 {
                0
            } else {
                buf[1] - 1
            };
            p.resolutions[j].is_active = index == active as u32;
            let at: u64 = 2 + (index as u64) * 2;
            if at < n as u64 {
                p.resolutions[j].dpi = Dpi::Unified(100 * (1 + buf[at as usize] as u32));
            }
        } else if version == 3 {
            let active = if buf[0] == 0 {
                0
            } else {
                buf[0] - 1
            };
            p.resolutions[j].is_active = index == active as u32;
        }
        j += 1;
    }
    let mut j: usize = 0;
    while j < p.leds.len()
        invariant
            n == buf@.len(),
            n >= 2,
            j <= p.leds@.len(),
            p.leds@.len() == old(p).leds@.len(),
            want == profile_after_settings(old(p)@, version, buf@),
            resolutions_view(p.resolutions@) =~= want.resolutions,
            forall|k: int| 0 <= k < j ==> (#[trigger] p.leds@[k])@ == want.leds[k],
            forall|k: int| j <= k < p.leds@.len() ==> p.leds@[k] == old(p).leds@[k],
            p.index == old(p).index,
            p.name == old(p).name,
            p.is_active == old(p).is_active,
            p.is_enabled == old(p).is_enabled,
            p.is_dirty == old(p).is_dirty,
            p.report_rate == old(p).report_rate,
            p.report_rates == old(p).report_rates,
            p.angle_snapping == old(p).angle_snapping,
            p.debounce == old(p).debounce,
            p.debounces == old(p).debounces,
            p.buttons == old(p).buttons,
        decreases p.leds@.len() - j,
    {
        assert(old(p)@.leds[j as int] == old(p).leds@[j as int]@);
        let at: u64 = 6 + (p.leds[j].index as u64) * 3;
        if version == 2 && at + 2 < n as u64 {
            let a = at as usize;
            p.leds[j].color = Color {
                red: buf[a] as u32,
                green: buf[a + 1] as u32,
                blue: buf[a + 2] as u32,
            };
        }
        j += 1;
    }
    assert(leds_view(p.leds@) =~= want.leds);
}

/// The firmware version that a reply states: the second byte, a dot and
/// the first byte. A reply of fewer than two bytes states none.
pub open spec fn firmware_of(buf: Seq<u8>) -> Option<Seq<char>> {
    if buf.len() >= 2 {
        Some(decimal(buf[1] as nat) + seq!['.'] + decimal(buf[0] as nat))
    } else {
        None
    }
}

pub fn firmware_from_reply(buf: &[u8]) -> (r: Option<String>)
    ensures
        match firmware_of(buf@) {
            Some(t) => r is Some && r->0@ == t,
            None => r is None,
        },
{
    if buf.len() >= 2 {
        let mut v: Vec<char> = Vec::new();
        push_decimal(&mut v, buf[1] as u64);
        v.push('.');
        push_decimal(&mut v, buf[0] as u64);
        assert(v@ =~= decimal(buf@[1] as nat) + seq!['.'] + decimal(buf@[0] as nat));
        Some(string_of(&v))
    } else {
        None
    }
}

// ---------------------------------------------------------------------------
// The plan of a commit
// ---------------------------------------------------------------------------

/// A report of `size` bytes that starts with `head` and is zero after it.
pub open spec fn report_bytes(size: nat, head: Seq<u8>) -> Seq<u8> {
    Seq::new(size, |i: int| if i < head.len() { head[i] } else { 0u8 })
}

/// The views of a list of actions.
pub open spec fn actions_view(v: Seq<DriverAction>) -> Seq<ActionModel> {
    Seq::new(v.len(), |i: int| v[i]@)
}

/// A pause followed by the write of a report.
pub open spec fn paused_write(ms: u64, bytes: Seq<u8>) -> Seq<ActionModel> {
    seq![ActionModel::Sleep(ms), ActionModel::WriteReport(bytes)]
}

/// A pause followed by the setting of a feature report.
pub open spec fn paused_feature(ms: u64, bytes: Seq<u8>) -> Seq<ActionModel> {
    seq![ActionModel::Sleep(ms), ActionModel::SetFeatureReport(bytes)]
}

fn bytes_vec<const N: usize>(a: &[u8; N], len: usize) -> (r: Vec<u8>)
    requires
        len <= N,
    ensures
        r@ == a@.subrange(0, len as int),
{
    let mut v: Vec<u8> = Vec::new();
    let mut i: usize = 0;
    while i < len
        invariant
            i <= len <= N,
            v@ == a@.subrange(0, i as int),
        decreases len - i,
    {
        v.push(a[i]);
        i += 1;
        assert(v@ =~= a@.subrange(0, i as int));
    }
    v
}

fn push_paused_write(plan: &mut Vec<DriverAction>, ms: u64, bytes: Vec<u8>)
    ensures
        actions_view(final(plan)@) == actions_view(old(plan)@) + paused_write(ms, bytes@),
{
    plan.push(DriverAction::Sleep(ms));
    plan.push(DriverAction::WriteReport(bytes));
    assert(actions_view(plan@) =~= actions_view(old(plan)@) + paused_write(ms, bytes@));
}

fn push_paused_feature(plan: &mut Vec<DriverAction>, ms: u64, bytes: Vec<u8>)
    ensures
        actions_view(final(plan)@) == actions_view(old(plan)@) + paused_feature(ms, bytes@),
{
    plan.push(DriverAction::Sleep(ms));
    plan.push(DriverAction::SetFeatureReport(bytes));
    assert(actions_view(plan@) =~= actions_view(old(plan)@) + paused_feature(ms, bytes@));
}

/// The DPI value that is written for a resolution: the value of the X axis
/// where the axes differ, 800 where none is known.
pub open spec fn dpi_value(dpi: Dpi) -> u32 {
    match dpi {
        Dpi::Unified(d) => d,
        Dpi::Separate { x, y } => x,
        Dpi::Unknown => 800,
    }
}

/// The byte that stands for a DPI value: the number of hundreds less one,
/// cut to eight bits.
pub open spec fn dpi_scaled(dpi: Dpi) -> u8 {
    let q = dpi_value(dpi) / 100;
    if q == 0 {
        0
    } else {
        ((q - 1) % 256) as u8
    }
}

/// The number under which the device knows the resolution or LED with the
/// given index: one more than the index, in eight bits.
pub open spec fn next_byte(index: u32) -> u8 {
    ((index % 256 + 1) % 256) as u8
}

fn next_byte_of(index: u32) -> (r: u8)
    ensures
        r == next_byte(index),
{
    ((index % 256 + 1) % 256) as u8
}

/// The writes that set the DPI of a resolution.
pub open spec fn dpi_plan(r: ResolutionModel, version: u8) -> Seq<ActionModel> {
    let id = next_byte(r.index);
    let s = dpi_scaled(r.dpi);
    if version == 1 {
        paused_write(10, report_bytes(32, seq![0x03u8, id, s]))
    } else if version == 2 {
        paused_write(10, report_bytes(64, seq![0x53u8, 0u8, id, s, 0u8, 0u8, 0x42u8]))
    } else if version == 3 {
        paused_write(10, report_bytes(64, seq![0x03u8, 0u8, id, s, 0u8, 0x42u8]))
    } else if version == 4 {
        paused_write(10, report_bytes(32, seq![0x15u8, id, s]))
    } else {
        Seq::empty()
    }
}

fn plan_dpi(plan: &mut Vec<DriverAction>, res: &ResolutionInfo, version: u8)
    ensures
        actions_view(final(plan)@) == actions_view(old(plan)@) + dpi_plan(res@, version),
{
    let value: u32 = match res.dpi {
        Dpi::Unified(d) => d,
        Dpi::Separate { x, y } => x,
        Dpi::Unknown => 800,
    };
    let q = value / 100;
    let scaled: u8 = if q == 0 {
        0
    } else {
        ((q - 1) % 256) as u8
    };
    let id = next_byte_of(res.index);
    if version == 1 {
        let b = SteelseriesDpiReportV1::new(id, scaled).into_bytes();
        assert(b@ =~= report_bytes(32, seq![0x03u8, id, scaled]));
        push_paused_write(plan, 10, bytes_vec(&b, 32));
        assert(b@.subrange(0, 32) =~= b@);
    } else if version == 2 {
        let b = SteelseriesDpiReportV2::new(id, scaled).into_bytes();
        assert(b@ =~= report_bytes(64, seq![0x53u8, 0u8, id, scaled, 0u8, 0u8, 0x42u8]));
        push_paused_write(plan, 10, bytes_vec(&b, 64));
        assert(b@.subrange(0, 64) =~= b@);
    } else if version == 3 {
        let b = SteelseriesDpiReportV3::new(id, scaled).into_bytes();
        assert(b@ =~= report_bytes(64, seq![0x03u8, 0u8, id, scaled, 0u8, 0x42u8]));
        push_paused_write(plan, 10, bytes_vec(&b, 64));
        assert(b@.subrange(0, 64) =~= b@);
    } else if version == 4 {
        let b = SteelseriesDpiReportV4::new(id, scaled).into_bytes();
        assert(b@ =~= report_bytes(32, seq![0x15u8, id, scaled]));
        push_paused_write(plan, 10, bytes_vec(&b, 32));
        assert(b@.subrange(0, 32) =~= b@);
    } else {
        assert(actions_view(plan@) + Seq::<ActionModel>::empty() =~= actions_view(plan@));
    }
}

/// The write of the button report: protocol 3 takes it as a feature
/// report.
pub open spec fn buttons_plan(p: ProfileModel, version: u8, senseiraw: bool) -> Seq<ActionModel> {
    let bytes = button_report_of(p, senseiraw).subrange(0, button_report_size(senseiraw));
    if version == 3 {
        paused_feature(10, bytes)
    } else {
        paused_write(10, bytes)
    }
}

pub proof fn lemma_written_at_len(report: Seq<u8>, idx: int, bytes: Seq<u8>, k: int)
    ensures
        written_at(report, idx, bytes, k).len() == report.len(),
    decreases bytes.len() - k,
{
    if !(k < 0 || k >= bytes.len()) {
        if 2 <= idx + k < 262 && idx + k < report.len() {
            lemma_written_at_len(report.update(idx + k, bytes[k]), idx, bytes, k + 1);
        } else {
            lemma_written_at_len(report, idx, bytes, k + 1);
        }
    }
}

fn plan_buttons(plan: &mut Vec<DriverAction>, p: &ProfileInfo, version: u8, senseiraw: bool)
    ensures
        actions_view(final(plan)@) == actions_view(old(plan)@) + buttons_plan(
            p@,
            version,
            senseiraw,
        ),
{
    let report = build_button_report(p, senseiraw);
    let b = report.into_bytes();
    let size: usize = if senseiraw {
        32
    } else {
        262
    };
    let bytes = bytes_vec(&b, size);
    if version == 3 {
        push_paused_feature(plan, 10, bytes);
    } else {
        push_paused_write(plan, 10, bytes);
    }
}

/// The effect byte of protocol 1 for an LED, where the protocol can show
/// its mode: steady for off and solid, and one of three speeds for
/// breathing.
pub open spec fn led_effect_v1(l: LedModel) -> Option<u8> {
    match l.mode {
        LedMode::Off => Some(0x01u8),
        LedMode::Solid => Some(0x01u8),
        LedMode::Breathing => Some(
            if l.effect_duration <= 3000 {
                0x04u8
            } else if l.effect_duration <= 5000 {
                0x03u8
            } else {
                0x02u8
            },
        ),
        _ => None,
    }
}

/// The low eight bits of a color component.
pub open spec fn low8(x: u32) -> u8 {
    (x % 256) as u8
}

/// The duration of an LED effect with `npoints` stops: at least 330
/// milliseconds for each stop.
pub open spec fn led_duration(l: LedModel, npoints: int) -> u16 {
    let d = (l.effect_duration % 0x1_0000) as u16;
    if npoints * 330 > d {
        (npoints * 330) as u16
    } else {
        d
    }
}

/// The number of stops of the effect of an LED: three for breathing, else
/// one.
pub open spec fn led_points(l: LedModel) -> int {
    if l.mode == LedMode::Breathing {
        3
    } else {
        1
    }
}

/// The byte at position `k` of the stops of the effect of an LED: the
/// color (black for an LED that is off) at position 0; for breathing the
/// color again and then black, both at position `0x7F`.
pub open spec fn led_point_byte(l: LedModel, k: int) -> u8 {
    let off = l.mode == LedMode::Off;
    let breathing = l.mode == LedMode::Breathing;
    if k == 0 {
        if off {
            0
        } else {
            low8(l.color.red)
        }
    } else if k == 1 {
        if off {
            0
        } else {
            low8(l.color.green)
        }
    } else if k == 2 {
        if off {
            0
        } else {
            low8(l.color.blue)
        }
    } else if breathing && k == 4 {
        low8(l.color.red)
    } else if breathing && k == 5 {
        low8(l.color.green)
    } else if breathing && k == 6 {
        low8(l.color.blue)
    } else if breathing && (k == 7 || k == 11) {
        0x7F
    } else {
        0
    }
}

/// The LED report of protocol 2 for an LED.
pub open spec fn led_bytes_v2(l: LedModel) -> Seq<u8> {
    let d = led_duration(l, led_points(l));
    Seq::new(
        64,
        |i: int|
            if i == 0 {
                0x5bu8
            } else if i == 2 {
                low8(l.index)
            } else if i == 3 {
                (d % 256) as u8
            } else if i == 4 {
                (d / 256) as u8
            } else if i == 19 {
                if l.mode == LedMode::Off || l.mode == LedMode::Solid {
                    1u8
                } else {
                    0u8
                }
            } else if i == 27 {
                led_points(l) as u8
            } else if i >= 28 {
                led_point_byte(l, i - 28)
            } else {
                0u8
            },
    )
}

/// The LED report of protocol 3 for an LED.
pub open spec fn led_bytes_v3(l: LedModel) -> Seq<u8> {
    let d = led_duration(l, led_points(l));
    Seq::new(
        64,
        |i: int|
            if i == 0 {
                0x05u8
            } else if i == 2 || i == 7 {
                low8(l.index)
            } else if i == 8 {
                (d % 256) as u8
            } else if i == 9 {
                (d / 256) as u8
            } else if i == 24 {
                if l.mode == LedMode::Off || l.mode == LedMode::Solid {
                    1u8
                } else {
                    0u8
                }
            } else if i == 29 {
                led_points(l) as u8
            } else if 30 <= i < 62 {
                led_point_byte(l, i - 30)
            } else {
                0u8
            },
    )
}

/// The writes that set one LED. Protocol 1 writes the effect and the color
/// and leaves out an LED whose mode it cannot show; protocol 2 writes one
/// report; protocol 3 sets one feature report; protocol 4 writes nothing.
pub open spec fn led_plan(l: LedModel, version: u8) -> Seq<ActionModel> {
    if version == 1 {
        match led_effect_v1(l) {
            Some(effect) => paused_write(
                10,
                report_bytes(32, seq![0x07u8, next_byte(l.index), effect]),
            ) + paused_write(
                10,
                report_bytes(
                    32,
                    seq![
                        0x08u8,
                        next_byte(l.index),
                        low8(l.color.red),
                        low8(l.color.green),
                        low8(l.color.blue),
                    ],
                ),
            ),
            None => Seq::empty(),
        }
    } else if version == 2 {
        paused_write(10, led_bytes_v2(l))
    } else if version == 3 {
        paused_feature(10, led_bytes_v3(l))
    } else {
        Seq::empty()
    }
}

/// The writes that set the LEDs from `i` on, in order.
pub open spec fn leds_plan(leds: Seq<LedModel>, version: u8, i: int) -> Seq<ActionModel>
    decreases leds.len() - i,
{
    if i < 0 || i >= leds.len() {
        Seq::empty()
    } else {
        led_plan(leds[i], version) + leds_plan(leds, version, i + 1)
    }
}

fn led_stops(led: &LedInfo) -> (r: (u8, [SteelseriesLedPoint; 3], [u8; 2], u8))
    ensures
        r.0 == led_points(led@),
        r.2@ == seq![
            (led_duration(led@, led_points(led@)) % 256) as u8,
            (led_duration(led@, led_points(led@)) / 256) as u8,
        ],
        r.3 == (if led@.mode == LedMode::Off || led@.mode == LedMode::Solid {
            1u8
        } else {
            0u8
        }),
        forall|k: int|
            0 <= k < 12 ==> crate::driver::steelseries::point_byte(r.1@, k) == led_point_byte(
                led@,
                k,
            ),
{
    let red = (led.color.red % 256) as u8;
    let green = (led.color.green % 256) as u8;
    let blue = (led.color.blue % 256) as u8;
    let off = match led.mode {
        LedMode::Off => true,
        _ => false,
    };
    let breathing = match led.mode {
        LedMode::Breathing => true,
        _ => false,
    };
    let steady = match led.mode {
        LedMode::Off => true,
        LedMode::Solid => true,
        _ => false,
    };
    let zero = SteelseriesLedPoint { r: 0, g: 0, b: 0, pos: 0 };
    let first = if off {
        zero
    } else {
        SteelseriesLedPoint { r: red, g: green, b: blue, pos: 0 }
    };
    let points = if breathing {
        [
            first,
            SteelseriesLedPoint { r: red, g: green, b: blue, pos: 0x7F },
            SteelseriesLedPoint { r: 0, g: 0, b: 0, pos: 0x7F },
        ]
    } else {
        [first, zero, zero]
    };
    let npoints: u8 = if breathing {
        3
    } else {
        1
    };
    let d0: u16 = (led.effect_duration % 0x1_0000) as u16;
    let d: u16 = if (npoints as u16) * 330 > d0 {
        (npoints as u16) * 330
    } else {
        d0
    };
    let duration = [(d % 256) as u8, (d / 256) as u8];
    assert(duration@ =~= seq![(d % 256) as u8, (d / 256) as u8]);
    assert forall|k: int| 0 <= k < 12 implies crate::driver::steelseries::point_byte(points@, k)
        == led_point_byte(led@, k) by {
        assert(0 <= k / 4 < 3);
    }
    (npoints, points, duration, if steady {
        1
    } else {
        0
    })
}

fn plan_led(plan: &mut Vec<DriverAction>, led: &LedInfo, version: u8)
    ensures
        actions_view(final(plan)@) == actions_view(old(plan)@) + led_plan(led@, version),
{
    let ghost before = actions_view(plan@);
    if version == 1 {
        let effect: u8 = match led.mode {
            LedMode::Off => 0x01,
            LedMode::Solid => 0x01,
            LedMode::Breathing => {
                if led.effect_duration <= 3000 {
                    0x04
                } else if led.effect_duration <= 5000 {
                    0x03
                } else {
                    0x02
                }
            },
            _ => {
                assert(before + Seq::<ActionModel>::empty() =~= before);
                return ;
            },
        };
        let id = next_byte_of(led.index);
        let e = SteelseriesLedEffectReportV1::new(id, effect).into_bytes();
        assert(e@ =~= report_bytes(32, seq![0x07u8, id, effect]));
        assert(e@.subrange(0, 32) =~= e@);
        push_paused_write(plan, 10, bytes_vec(&e, 32));
        let red = (led.color.red % 256) as u8;
        let green = (led.color.green % 256) as u8;
        let blue = (led.color.blue % 256) as u8;
        let c = SteelseriesLedColorReportV1::new(id, red, green, blue).into_bytes();
        assert(c@ =~= report_bytes(32, seq![0x08u8, id, red, green, blue]));
        assert(c@.subrange(0, 32) =~= c@);
        push_paused_write(plan, 10, bytes_vec(&c, 32));
        assert(actions_view(plan@) =~= before + led_plan(led@, version));
    } else if version == 2 {
        let (npoints, points, duration, steady) = led_stops(led);
        let mut report = SteelseriesLedReportV2::new();
        report.led_id = (led.index % 256) as u8;
        report.disable_repeat = steady;
        report.points[0] = points[0];
        report.points[1] = points[1];
        report.points[2] = points[2];
        report.npoints = npoints;
        report.duration = duration;
        let b = report.into_bytes();
        assert(b@ =~= led_bytes_v2(led@)) by {
            assert forall|i: int| 0 <= i < 64 implies b@[i] == led_bytes_v2(led@)[i] by {
                if i >= 28 {
                    let k = i - 28;
                    assert(0 <= k / 4 < 9);
                    if k < 12 {
                        assert(report.points@[k / 4] == points@[k / 4]);
                        assert(crate::driver::steelseries::point_byte(report.points@, k)
                            == crate::driver::steelseries::point_byte(points@, k));
                    } else {
                        assert(report.points@[k / 4] == (SteelseriesLedPoint {
                            r: 0,
                            g: 0,
                            b: 0,
                            pos: 0,
                        }));
                    }
                }
            }
        }
        assert(b@.subrange(0, 64) =~= b@);
        push_paused_write(plan, 10, bytes_vec(&b, 64));
    } else if version == 3 {
        let (npoints, points, duration, steady) = led_stops(led);
        let mut report = SteelseriesLedReportV3::new();
        report.led_id = (led.index % 256) as u8;
        report.led_id2 = (led.index % 256) as u8;
        report.disable_repeat = steady;
        report.points[0] = points[0];
        report.points[1] = points[1];
        report.points[2] = points[2];
        report.npoints = npoints;
        report.duration = duration;
        let b = report.into_bytes();
        assert(b@ =~= led_bytes_v3(led@)) by {
            assert forall|i: int| 0 <= i < 64 implies b@[i] == led_bytes_v3(led@)[i] by {
                if 30 <= i < 62 {
                    let k = i - 30;
                    assert(0 <= k / 4 < 8);
                    if k < 12 {
                        assert(report.points@[k / 4] == points@[k / 4]);
                        assert(crate::driver::steelseries::point_byte(report.points@, k)
                            == crate::driver::steelseries::point_byte(points@, k));
                    } else {
                        assert(report.points@[k / 4] == (SteelseriesLedPoint {
                            r: 0,
                            g: 0,
                            b: 0,
                            pos: 0,
                        }));
                    }
                }
            }
        }
        assert(b@.subrange(0, 64) =~= b@);
        push_paused_feature(plan, 10, bytes_vec(&b, 64));
    } else {
        assert(before + Seq::<ActionModel>::empty() =~= before);
    }
}

/// The byte that stands for a report rate: the interval in milliseconds,
/// where a rate below 125 Hz counts as 125 Hz.
pub open spec fn rate_byte(hz: u32) -> u8 {
    if hz < 125 {
        8
    } else {
        (1000int / (hz as int)) as u8
    }
}

/// The write that sets the report rate.
pub open spec fn rate_plan(hz: u32, version: u8) -> Seq<ActionModel> {
    let v = rate_byte(hz);
    if version == 1 {
        paused_write(10, report_bytes(32, seq![0x04u8, 0u8, v]))
    } else if version == 2 {
        paused_write(10, report_bytes(64, seq![0x54u8, 0u8, v]))
    } else if version == 3 {
        paused_write(10, report_bytes(64, seq![0x04u8, 0u8, v]))
    } else if version == 4 {
        paused_write(10, report_bytes(32, seq![0x17u8, 0u8, v]))
    } else {
        Seq::empty()
    }
}

fn plan_rate(plan: &mut Vec<DriverAction>, hz: u32, version: u8)
    ensures
        actions_view(final(plan)@) == actions_view(old(plan)@) + rate_plan(hz, version),
{
    let v: u8 = if hz < 125 {
        8
    } else {
        (1000 / hz) as u8
    };
    if version == 1 {
        let b = SteelseriesReportRateV1::new(v).into_bytes();
        assert(b@ =~= report_bytes(32, seq![0x04u8, 0u8, v]));
        assert(b@.subrange(0, 32) =~= b@);
        push_paused_write(plan, 10, bytes_vec(&b, 32));
    } else if version == 2 {
        let b = SteelseriesReportRateV2::new(v).into_bytes();
        assert(b@ =~= report_bytes(64, seq![0x54u8, 0u8, v]));
        assert(b@.subrange(0, 64) =~= b@);
        push_paused_write(plan, 10, bytes_vec(&b, 64));
    } else if version == 3 {
        let b = SteelseriesReportRateV3::new(v).into_bytes();
        assert(b@ =~= report_bytes(64, seq![0x04u8, 0u8, v]));
        assert(b@.subrange(0, 64) =~= b@);
        push_paused_write(plan, 10, bytes_vec(&b, 64));
    } else if version == 4 {
        let b = SteelseriesReportRateV4::new(v).into_bytes();
        assert(b@ =~= report_bytes(32, seq![0x17u8, 0u8, v]));
        assert(b@.subrange(0, 32) =~= b@);
        push_paused_write(plan, 10, bytes_vec(&b, 32));
    } else {
        assert(actions_view(plan@) + Seq::<ActionModel>::empty() =~= actions_view(plan@));
    }
}

/// The write that makes the device keep the settings.
pub open spec fn save_plan(version: u8) -> Seq<ActionModel> {
    if version == 1 {
        paused_write(20, report_bytes(32, seq![0x09u8]))
    } else if version == 2 {
        paused_write(20, report_bytes(64, seq![0x59u8]))
    } else if version == 3 || version == 4 {
        paused_write(20, report_bytes(64, seq![0x09u8]))
    } else {
        Seq::empty()
    }
}

fn plan_save(plan: &mut Vec<DriverAction>, version: u8)
    ensures
        actions_view(final(plan)@) == actions_view(old(plan)@) + save_plan(version),
{
    if version == 1 {
        let b = SteelseriesSaveV1::new().into_bytes();
        assert(b@ =~= report_bytes(32, seq![0x09u8]));
        assert(b@.subrange(0, 32) =~= b@);
        push_paused_write(plan, 20, bytes_vec(&b, 32));
    } else if version == 2 {
        let b = SteelseriesSaveV2::new().into_bytes();
        assert(b@ =~= report_bytes(64, seq![0x59u8]));
        assert(b@.subrange(0, 64) =~= b@);
        push_paused_write(plan, 20, bytes_vec(&b, 64));
    } else if version == 3 || version == 4 {
        let b = SteelseriesSaveV3::new().into_bytes();
        assert(b@ =~= report_bytes(64, seq![0x09u8]));
        assert(b@.subrange(0, 64) =~= b@);
        push_paused_write(plan, 20, bytes_vec(&b, 64));
    } else {
        assert(actions_view(plan@) + Seq::<ActionModel>::empty() =~= actions_view(plan@));
    }
}

/// The profile that a commit writes: the first active one, or the first
/// where none is active.
pub open spec fn profile_to_commit(ps: Seq<ProfileModel>) -> Option<ProfileModel> {
    if ps.len() == 0 {
        None
    } else if first_active(ps, 0) < ps.len() {
        Some(ps[first_active(ps, 0)])
    } else {
        Some(ps[0])
    }
}

/// Everything that a commit does, in order: the DPI of the first active
/// resolution, the buttons, the LEDs, the report rate, and the saving of the
/// settings. A device without a profile cannot be committed.
pub open spec fn commit_plan_of(info: DeviceModel, version: u8) -> Option<Seq<ActionModel>> {
    match profile_to_commit(info.profiles) {
        None => None,
        Some(p) => {
            let j = first_active_resolution(p.resolutions, 0);
            let dpi = if j < p.resolutions.len() {
                dpi_plan(p.resolutions[j], version)
            } else {
                Seq::empty()
            };
            Some(
                dpi + buttons_plan(p, version, has_senseiraw(info.driver_config.quirks))
                    + leds_plan(p.leds, version, 0) + rate_plan(p.report_rate, version) + save_plan(
                    version,
                ),
            )
        },
    }
}

/// Plans a commit.
pub fn plan_commit(info: &DeviceInfo, version: u8) -> (r: Option<Vec<DriverAction>>)
    ensures
        match commit_plan_of(info@, version) {
            Some(plan) => r is Some && actions_view(r->0@) == plan,
            None => r is None,
        },
{
    if info.profiles.len() == 0 {
        return None;
    }
    let mut a: usize = 0;
    while a < info.profiles.len() && !info.profiles[a].is_active
        invariant
            a <= info.profiles@.len(),
            first_active(info@.profiles, 0) == first_active(info@.profiles, a as int),
        decreases info.profiles@.len() - a,
    {
        assert(info@.profiles[a as int] == info.profiles@[a as int]@);
        a += 1;
    }
    proof {
        if a < info.profiles@.len() {
            assert(info@.profiles[a as int] == info.profiles@[a as int]@);
        }
    }
    if a >= info.profiles.len() {
        a = 0;
    }
    let p = &info.profiles[a];
    assert(info@.profiles[a as int] == p@);
    assert(profile_to_commit(info@.profiles) == Some(p@));
    let mut plan: Vec<DriverAction> = Vec::new();
    assert(actions_view(plan@) =~= Seq::<ActionModel>::empty());

    let mut j: usize = 0;
    while j < p.resolutions.len() && !p.resolutions[j].is_active
        invariant
            j <= p.resolutions@.len(),
            first_active_resolution(p@.resolutions, 0) == first_active_resolution(
                p@.resolutions,
                j as int,
            ),
        decreases p.resolutions@.len() - j,
    {
        assert(p@.resolutions[j as int] == p.resolutions@[j as int]@);
        j += 1;
    }
    if j < p.resolutions.len() {
        assert(p@.resolutions[j as int] == p.resolutions@[j as int]@);
        plan_dpi(&mut plan, &p.resolutions[j], version);
    }
    let ghost dpi = if j < p@.resolutions.len() {
        dpi_plan(p@.resolutions[j as int], version)
    } else {
        Seq::empty()
    };
    assert(actions_view(plan@) =~= dpi);

    let senseiraw = quirks_have_senseiraw(&info.driver_config.quirks);
    plan_buttons(&mut plan, p, version, senseiraw);
    let ghost head = dpi + buttons_plan(p@, version, senseiraw);
    assert(actions_view(plan@) =~= head);

    let mut l: usize = 0;
    while l < p.leds.len()
        invariant
            l <= p.leds@.len(),
            actions_view(plan@) + leds_plan(p@.leds, version, l as int) =~= head + leds_plan(
                p@.leds,
                version,
                0,
            ),
        decreases p.leds@.len() - l,
    {
        assert(p@.leds[l as int] == p.leds@[l as int]@);
        let ghost before = actions_view(plan@);
        plan_led(&mut plan, &p.leds[l], version);
        assert(before + (led_plan(p@.leds[l as int], version) + leds_plan(
            p@.leds,
            version,
            l + 1,
        )) =~= (before + led_plan(p@.leds[l as int], version)) + leds_plan(
            p@.leds,
            version,
            l + 1,
        ));
        l += 1;
    }
    assert(actions_view(plan@) + Seq::<ActionModel>::empty() =~= actions_view(plan@));
    plan_rate(&mut plan, p.report_rate, version);
    plan_save(&mut plan, version);
    assert(actions_view(plan@) =~= commit_plan_of(info@, version)->0);
    Some(plan)
}

// ---------------------------------------------------------------------------
// The driver
// ---------------------------------------------------------------------------

/// Where an operation of the driver stands.
#[derive(Debug, Clone, Copy, PartialEq, Eq, Structural)]
pub enum SteelseriesStage {
    Idle,
    /// Load: the pause before the settings request.
    SettingsPause,
    /// Load: the write of the settings request.
    SettingsWrite,
    /// Load: the read of the settings.
    SettingsRead,
    /// Load: the pause before the firmware request.
    FirmwarePause,
    /// Load: the write of the firmware request.
    FirmwareWrite,
    /// Load: the read of the firmware version.
    FirmwareRead,
    /// Commit: the action of the plan at position `next` is under way.
    Commit,
}

/// The SteelSeries driver.
pub struct SteelseriesDriver {
    /// The protocol version of the device, from its catalog entry.
    pub version: u8,
    pub stage: SteelseriesStage,
    /// The plan of the commit under way.
    pub plan: Vec<DriverAction>,
    /// The position in the plan of the action under way.
    pub next: usize,
}

/// How long a load waits for a reply of the device, in milliseconds.
pub const REPLY_TIMEOUT_MS: u64 = 500;

/// The read of a reply of the device: a report of 64 bytes, waited for no
/// longer than half a second.
pub open spec fn reply_read() -> ActionModel {
    ActionModel::ReadReport { len: 64, timeout_ms: Some(REPLY_TIMEOUT_MS) }
}

/// The request for the firmware version of a protocol version; protocols 1
/// to 3 have one.
pub open spec fn firmware_request(version: u8) -> Option<Seq<u8>> {
    if version == 1 {
        Some(report_bytes(32, seq![0x10u8]))
    } else if version == 2 {
        Some(report_bytes(64, seq![0x90u8]))
    } else if version == 3 {
        Some(report_bytes(64, seq![0x10u8]))
    } else {
        None
    }
}

/// The request for the settings of a protocol version; protocols 2 and 3
/// have one.
pub open spec fn settings_request(version: u8) -> Option<Seq<u8>> {
    match SteelseriesSettingsRequest::id_of_version(version) {
        Some(id) => Some(report_bytes(64, seq![id])),
        None => None,
    }
}

/// The protocol version that a catalog entry gives: its device version cut
/// to eight bits, or 1 where it states none.
pub open spec fn version_of(device_version: Option<u32>) -> u8 {
    match device_version {
        Some(v) => (v % 256) as u8,
        None => 1,
    }
}

fn copy_action(a: &DriverAction) -> (r: DriverAction)
    ensures
        r@ == a@,
{
    match a {
        DriverAction::Request { report, attempts, expect } => DriverAction::Request {
            report: report.clone(),
            attempts: *attempts,
            expect: *expect,
        },
        DriverAction::WriteReport(b) => DriverAction::WriteReport(b.clone()),
        DriverAction::ReadReport { len, timeout_ms } => DriverAction::ReadReport {
            len: *len,
            timeout_ms: *timeout_ms,
        },
        DriverAction::GetFeatureReport(b) => DriverAction::GetFeatureReport(b.clone()),
        DriverAction::SetFeatureReport(b) => DriverAction::SetFeatureReport(b.clone()),
        DriverAction::Sleep(ms) => DriverAction::Sleep(*ms),
        DriverAction::Done => DriverAction::Done,
        DriverAction::Failed(s) => DriverAction::Failed(s.clone()),
    }
}

/// What a step of the probe does, given the driver before and after it,
/// the event and the action.
pub open spec fn probe_post(
    pre: SteelseriesDriver,
    ev: DriverEventModel,
    post: SteelseriesDriver,
    r: ActionModel,
) -> bool {
    &&& (r is Done)
    &&& (post == pre)
}

/// What a step of a load does, given the driver and the device state
/// before and after it, the event and the action.
pub open spec fn load_post(
    pre: SteelseriesDriver,
    before: DeviceModel,
    ev: DriverEventModel,
    post: SteelseriesDriver,
    after: DeviceModel,
    r: ActionModel,
) -> bool {
    &&& (!(r is Failed))
    &&& (r is Done ==> post.stage == SteelseriesStage::Idle)
    &&& (after.sysname == before.sysname)
    &&& (after.name == before.name)
    &&& (after.model == before.model)
    &&& (after.driver_config == before.driver_config)
    &&& (ev is Start ==> {
        &&& post.version == version_of(before.driver_config.device_version)
        &&& after.profiles == seq![skeleton_profile(0)]
        &&& after.firmware_version == before.firmware_version
        &&& match settings_request(post.version) {
        Some(_) => r == ActionModel::Sleep(10) && post.stage
        == SteelseriesStage::SettingsPause,
        None => match firmware_request(post.version) {
        Some(_) => r == ActionModel::Sleep(10) && post.stage
        == SteelseriesStage::FirmwarePause,
        None => r is Done,
        },
        }
        })
    &&& (!(ev is Start) ==> post.version == pre.version)
    &&& (!(ev is Start) && pre.stage == SteelseriesStage::SettingsPause
        && ev is Completed && settings_request(pre.version) is Some ==> r
        == ActionModel::WriteReport(settings_request(pre.version)->0)
        && post.stage == SteelseriesStage::SettingsWrite)
    &&& (!(ev is Start) && pre.stage == SteelseriesStage::SettingsWrite
        && ev is Completed ==> r == reply_read() && post.stage
        == SteelseriesStage::SettingsRead)
    &&& (!(ev is Start) && pre.stage == SteelseriesStage::SettingsRead && ev is Data
        && before.profiles.len() > 0 ==> after.profiles == before.profiles.update(
        0,
        profile_after_settings(before.profiles[0], pre.version, ev->Data_0),
        ))
    &&& (!(ev is Start) && !(pre.stage == SteelseriesStage::SettingsRead
        && ev is Data) ==> after.profiles == before.profiles)
    &&& (!(ev is Start) && pre.stage == SteelseriesStage::FirmwarePause
        && ev is Completed && firmware_request(pre.version) is Some ==> r
        == ActionModel::WriteReport(firmware_request(pre.version)->0)
        && post.stage == SteelseriesStage::FirmwareWrite)
    &&& (!(ev is Start) && pre.stage == SteelseriesStage::FirmwareWrite
        && ev is Completed ==> r == reply_read() && post.stage
        == SteelseriesStage::FirmwareRead)
    &&& (!(ev is Start) && pre.stage == SteelseriesStage::FirmwareRead ==> r is Done)
    &&& (!(ev is Start) && pre.stage == SteelseriesStage::FirmwareRead && ev is Data
        && firmware_of(ev->Data_0) is Some ==> after.firmware_version
        == firmware_of(ev->Data_0)->0)
    &&& (!(ev is Start) && !(pre.stage == SteelseriesStage::FirmwareRead
        && ev is Data && firmware_of(ev->Data_0) is Some)
        ==> after.firmware_version == before.firmware_version)
}

/// What a step of a commit does, given the driver before and after it,
/// the device state, the event and the action.
pub open spec fn commit_post(
    pre: SteelseriesDriver,
    info: DeviceModel,
    ev: DriverEventModel,
    post: SteelseriesDriver,
    r: ActionModel,
) -> bool {
    &&& (post.version == pre.version)
    &&& (r.ends() ==> post.stage == SteelseriesStage::Idle)
    &&& (ev is Start ==> match commit_plan_of(info, pre.version) {
        None => r == ActionModel::Failed(
            "No profiles found in DeviceInfo "@ + "(SteelSeries hardware requires at least 1)"@,
        ),
        Some(plan) => if plan.len() == 0 {
        r is Done
        } else {
        &&& r == plan[0]
        &&& actions_view(post.plan@) == plan
        &&& post.next == 0
        &&& post.stage == SteelseriesStage::Commit
        },
        })
    &&& (!(ev is Start) && pre.stage == SteelseriesStage::Commit && ev is Completed
        && pre.next < pre.plan@.len() ==> {
        &&& post.plan == pre.plan
        &&& if pre.next + 1 < pre.plan@.len() {
        &&& r == pre.plan@[pre.next + 1]@
        &&& post.next == pre.next + 1
        &&& (!r.ends() ==> post.stage == SteelseriesStage::Commit)
        } else {
        r is Done
        }
        })
    &&& (!(ev is Start) && !(pre.stage == SteelseriesStage::Commit
        && ev is Completed) ==> r == ActionModel::Failed(
        match ev {
            DriverEventModel::Failed(e) => error_text(e),
            _ => "SteelSeries commit: "@ + "unexpected event"@,
        },
    ))
}

impl SteelseriesDriver {
    pub fn new() -> (r: Self)
        ensures
            r.version == 0,
            r.stage == SteelseriesStage::Idle,
            r.plan@.len() == 0,
            r.next == 0,
    {
        SteelseriesDriver { version: 0, stage: SteelseriesStage::Idle, plan: Vec::new(), next: 0 }
    }

    /// The probe asks nothing of the device: it succeeds at once.
    pub fn probe_step(&mut self, event: DriverEvent) -> (r: DriverAction)
        ensures
            probe_post(*old(self), event@, *final(self), r@),
    {
        DriverAction::Done
    }

    /// Turns to the firmware version: the pause before the request, or the
    /// end of the load where the protocol has no request for it.
    fn load_firmware(&mut self) -> (r: DriverAction)
        ensures
            final(self).version == old(self).version,
            final(self).plan == old(self).plan,
            final(self).next == old(self).next,
            match firmware_request(old(self).version) {
                Some(_) => r@ == ActionModel::Sleep(10) && final(self).stage
                    == SteelseriesStage::FirmwarePause,
                None => r is Done && final(self).stage == SteelseriesStage::Idle,
            },
    {
        if self.version == 1 || self.version == 2 || self.version == 3 {
            self.stage = SteelseriesStage::FirmwarePause;
            DriverAction::Sleep(10)
        } else {
            self.stage = SteelseriesStage::Idle;
            DriverAction::Done
        }
    }

    /// One step of loading the profiles.
    ///
    /// The first step takes the protocol version from the catalog entry and
    /// sets up the skeleton of one profile. The device is then asked for its
    /// settings and for its firmware version, each by a pause, a write and a
    /// read that waits half a second. What the device reports overrides the
    /// skeleton; a request that fails, or is not answered, leaves it as it
    /// is. The load never fails.
    pub fn load_step(&mut self, info: &mut DeviceInfo, event: DriverEvent) -> (r: DriverAction)
        ensures
            load_post(*old(self), old(info)@, event@, *final(self), final(info)@, r@),
    {
        let stage = self.stage;
        self.stage = SteelseriesStage::Idle;
        match event {
            DriverEvent::Start => {
                self.version = match info.driver_config.device_version {
                    Some(v) => (v % 256) as u8,
                    None => 1,
                };
                let mut profiles: Vec<ProfileInfo> = Vec::new();
                profiles.push(build_skeleton_profile(0));
                info.profiles = profiles;
                assert(info@.profiles =~= seq![skeleton_profile(0)]);
                if self.version == 2 || self.version == 3 {
                    self.stage = SteelseriesStage::SettingsPause;
                    DriverAction::Sleep(10)
                } else {
                    self.load_firmware()
                }
            },
            DriverEvent::Completed => {
                match stage {
                    SteelseriesStage::SettingsPause => {
                        match SteelseriesSettingsRequest::new(self.version) {
                            Some(req) => {
                                let b = req.into_bytes();
                                assert(b@ =~= report_bytes(64, seq![req.report_id]));
                                assert(b@.subrange(0, 64) =~= b@);
                                self.stage = SteelseriesStage::SettingsWrite;
                                DriverAction::WriteReport(bytes_vec(&b, 64))
                            },
                            None => self.load_firmware(),
                        }
                    },
                    SteelseriesStage::SettingsWrite => {
                        self.stage = SteelseriesStage::SettingsRead;
                        DriverAction::ReadReport { len: 64, timeout_ms: Some(REPLY_TIMEOUT_MS) }
                    },
                    SteelseriesStage::FirmwarePause => {
                        if self.version == 1 {
                            let b = SteelseriesFirmwareRequestV1::new().into_bytes();
                            assert(b@ =~= report_bytes(32, seq![0x10u8]));
                            assert(b@.subrange(0, 32) =~= b@);
                            self.stage = SteelseriesStage::FirmwareWrite;
                            DriverAction::WriteReport(bytes_vec(&b, 32))
                        } else if self.version == 2 {
                            let b = SteelseriesFirmwareRequestV2::new().into_bytes();
                            assert(b@ =~= report_bytes(64, seq![0x90u8]));
                            assert(b@.subrange(0, 64) =~= b@);
                            self.stage = SteelseriesStage::FirmwareWrite;
                            DriverAction::WriteReport(bytes_vec(&b, 64))
                        } else if self.version == 3 {
                            let b = SteelseriesFirmwareRequestV3::new().into_bytes();
                            assert(b@ =~= report_bytes(64, seq![0x10u8]));
                            assert(b@.subrange(0, 64) =~= b@);
                            self.stage = SteelseriesStage::FirmwareWrite;
                            DriverAction::WriteReport(bytes_vec(&b, 64))
                        } else {
                            DriverAction::Done
                        }
                    },
                    SteelseriesStage::FirmwareWrite => {
                        self.stage = SteelseriesStage::FirmwareRead;
                        DriverAction::ReadReport { len: 64, timeout_ms: Some(REPLY_TIMEOUT_MS) }
                    },
                    SteelseriesStage::SettingsRead => self.load_firmware(),
                    _ => DriverAction::Done,
                }
            },
            DriverEvent::Data(buf) => {
                match stage {
                    SteelseriesStage::SettingsRead => {
                        if info.profiles.len() > 0 {
                            apply_settings(&mut info.profiles[0], self.version, buf.as_slice());
                            assert(info@.profiles =~= old(info)@.profiles.update(
                                0,
                                profile_after_settings(
                                    old(info)@.profiles[0],
                                    old(self).version,
                                    buf@,
                                ),
                            ));
                        }
                        self.load_firmware()
                    },
                    SteelseriesStage::FirmwareRead => {
                        match firmware_from_reply(buf.as_slice()) {
                            Some(fw) => {
                                info.firmware_version = fw;
                            },
                            None => {},
                        }
                        DriverAction::Done
                    },
                    SteelseriesStage::SettingsPause => self.load_firmware(),
                    SteelseriesStage::SettingsWrite => self.load_firmware(),
                    _ => DriverAction::Done,
                }
            },
            _ => {
                // A request that failed is given up; what follows it is
                // still tried.
                match stage {
                    SteelseriesStage::SettingsPause => self.load_firmware(),
                    SteelseriesStage::SettingsWrite => self.load_firmware(),
                    SteelseriesStage::SettingsRead => self.load_firmware(),
                    _ => DriverAction::Done,
                }
            },
        }
    }

    /// One step of the commit.
    ///
    /// The first step plans the commit and answers with the first action of
    /// the plan. Each further step answers with the next action, once the
    /// action before it was done, and the commit succeeds after the last.
    /// The first action that fails ends the commit with its failure.
    pub fn commit_step(&mut self, info: &DeviceInfo, event: DriverEvent) -> (r: DriverAction)
        ensures
            commit_post(*old(self), info@, event@, *final(self), r@),
    {
        let stage = self.stage;
        self.stage = SteelseriesStage::Idle;
        match event {
            DriverEvent::Start => {
                match plan_commit(info, self.version) {
                    None => DriverAction::Failed(
                        text2(
                            "No profiles found in DeviceInfo ",
                            "(SteelSeries hardware requires at least 1)",
                        ),
                    ),
                    Some(plan) => {
                        self.plan = plan;
                        self.next = 0;
                        if self.plan.len() == 0 {
                            DriverAction::Done
                        } else {
                            self.stage = SteelseriesStage::Commit;
                            let r = copy_action(&self.plan[0]);
                            proof {
                                let m = commit_plan_of(info@, self.version)->0;
                                assert(actions_view(self.plan@)[0] == self.plan@[0]@);
                                // No action of a plan ends the commit.
                                lemma_plan_never_ends(info@, self.version);
                            }
                            r
                        }
                    },
                }
            },
            DriverEvent::Completed => {
                if stage != SteelseriesStage::Commit {
                    return DriverAction::Failed(text2("SteelSeries commit: ", "unexpected event"));
                }
                if self.next < self.plan.len() && self.next + 1 < self.plan.len() {
                    self.next = self.next + 1;
                    let r = copy_action(&self.plan[self.next]);
                    match r {
                        DriverAction::Done => DriverAction::Done,
                        DriverAction::Failed(e) => DriverAction::Failed(e),
                        _ => {
                            self.stage = SteelseriesStage::Commit;
                            r
                        },
                    }
                } else {
                    DriverAction::Done
                }
            },
            DriverEvent::Failed(e) => DriverAction::Failed(e.to_string()),
            _ => DriverAction::Failed(text2("SteelSeries commit: ", "unexpected event")),
        }
    }
}

/// A plan holds pauses, writes and feature reports only: none of its
/// actions ends the commit.
pub proof fn lemma_plan_never_ends(info: DeviceModel, version: u8)
    requires
        commit_plan_of(info, version) is Some,
    ensures
        forall|i: int|
            0 <= i < commit_plan_of(info, version)->0.len() ==> !(#[trigger] commit_plan_of(
                info,
                version,
            )->0[i]).ends(),
{
    let p = profile_to_commit(info.profiles)->0;
    lemma_leds_plan_never_ends(p.leds, version, 0);
}

pub proof fn lemma_leds_plan_never_ends(leds: Seq<LedModel>, version: u8, i: int)
    ensures
        forall|k: int|
            0 <= k < leds_plan(leds, version, i).len() ==> !(#[trigger] leds_plan(
                leds,
                version,
                i,
            )[k]).ends(),
    decreases leds.len() - i,
{
    if 0 <= i < leds.len() {
        lemma_leds_plan_never_ends(leds, version, i + 1);
        let a = led_plan(leds[i], version);
        let b = leds_plan(leds, version, i + 1);
        assert forall|k: int| 0 <= k < (a + b).len() implies !(#[trigger] (a + b)[k]).ends() by {
            if k < a.len() {
                assert((a + b)[k] == a[k]);
            } else {
                assert((a + b)[k] == b[k - a.len()]);
            }
        }
    }
}

impl DeviceDriver for SteelseriesDriver {
    fn name(&self) -> (r: &'static str)
        ensures
            r@ == "SteelSeries"@,
    {
        "SteelSeries"
    }

    fn probe(&mut self, event: DriverEvent) -> (r: DriverAction)
        ensures
            probe_post(*old(self), event@, *final(self), r@),
    {
        self.probe_step(event)
    }

    fn load_profiles(&mut self, info: &mut DeviceInfo, event: DriverEvent) -> (r: DriverAction)
        ensures
            load_post(*old(self), old(info)@, event@, *final(self), final(info)@, r@),
    {
        self.load_step(info, event)
    }

    fn commit(&mut self, info: &DeviceInfo, event: DriverEvent) -> (r: DriverAction)
        ensures
            commit_post(*old(self), info@, event@, *final(self), r@),
    {
        self.commit_step(info, event)
    }
}

} // verus!
