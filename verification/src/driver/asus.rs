//! The ASUS ROG protocol: the packets, the tables of buttons and keys, and
//! the conversions between what the device stores and what the daemon
//! shows.
//!
//! Requests and responses are raw reports of 64 bytes. A request starts
//! with the command, a response with the status, both as 16 bits low byte
//! first; parameters and results follow from the third byte on.

use vstd::prelude::*;
use crate::device::{ActionType, Dpi, LedMode};
use crate::text::{ascii_lowered, chars_eq, chars_of, eq_ignore_ascii_case};

verus! {

pub const ASUS_PACKET_SIZE: usize = 64;

/// The status of a device that sleeps or is not connected.
pub const ASUS_STATUS_ERROR: u16 = 0xaaff;

pub const ASUS_CMD_GET_LED_DATA: u16 = 0x0312;

pub const ASUS_CMD_GET_SETTINGS: u16 = 0x0412;

pub const ASUS_CMD_GET_BUTTON_DATA: u16 = 0x0512;

pub const ASUS_CMD_GET_PROFILE_DATA: u16 = 0x0012;

pub const ASUS_CMD_SET_LED: u16 = 0x2851;

pub const ASUS_CMD_SET_SETTING: u16 = 0x3151;

pub const ASUS_CMD_SET_BUTTON: u16 = 0x2151;

pub const ASUS_CMD_SET_PROFILE: u16 = 0x0250;

pub const ASUS_CMD_SAVE: u16 = 0x0350;

/// The settings that follow the DPI presets in "set setting": the field
/// number is added to the number of presets.
pub const ASUS_FIELD_RATE: u8 = 0;

pub const ASUS_FIELD_RESPONSE: u8 = 1;

pub const ASUS_FIELD_SNAPPING: u8 = 2;

pub const ASUS_ACTION_TYPE_KEY: u8 = 0;

pub const ASUS_ACTION_TYPE_BUTTON: u8 = 1;

/// The action code of a button that does nothing.
pub const ASUS_BUTTON_CODE_DISABLED: u8 = 0xff;

pub const ASUS_MAX_NUM_BUTTON: usize = 17;

pub const ASUS_MAX_NUM_BUTTON_GROUP: usize = 2;

/// The number of button slots in both groups.
pub const ASUS_BUTTON_SLOTS: usize = 34;

pub const ASUS_MAX_NUM_LED: usize = 3;

pub const ASUS_MAX_NUM_LED_MODES: usize = 7;

pub const ASUS_QUIRK_DOUBLE_DPI: u32 = 0x01;

pub const ASUS_QUIRK_STRIX_PROFILE: u32 = 0x02;

pub const ASUS_QUIRK_BATTERY_V2: u32 = 0x04;

pub const ASUS_QUIRK_RAW_BRIGHTNESS: u32 = 0x08;

pub const ASUS_QUIRK_SEPARATE_XY_DPI: u32 = 0x10;

pub const ASUS_QUIRK_SEPARATE_LEDS: u32 = 0x20;

pub const ASUS_QUIRK_BUTTONS_SECONDARY: u32 = 0x40;

pub const ASUS_POLLING_RATES: [u32; 4] = [125, 250, 500, 1000];

pub const ASUS_DEBOUNCE_TIMES: [u32; 8] = [4, 8, 12, 16, 20, 24, 28, 32];

pub const SPECIAL_WHEEL_UP: u32 = 1;

pub const SPECIAL_WHEEL_DOWN: u32 = 2;

pub const SPECIAL_WHEEL_RIGHT: u32 = 3;

pub const SPECIAL_WHEEL_LEFT: u32 = 4;

pub const SPECIAL_RES_CYCLE_UP: u32 = 5;

pub const SPECIAL_RES_ALTERNATE: u32 = 6;

pub const KEY_ESC: u32 = 1;

pub const KEY_1: u32 = 2;

pub const KEY_2: u32 = 3;

pub const KEY_3: u32 = 4;

pub const KEY_4: u32 = 5;

pub const KEY_5: u32 = 6;

pub const KEY_6: u32 = 7;

pub const KEY_7: u32 = 8;

pub const KEY_8: u32 = 9;

pub const KEY_9: u32 = 10;

pub const KEY_0: u32 = 11;

pub const KEY_MINUS: u32 = 12;

pub const KEY_EQUAL: u32 = 13;

pub const KEY_BACKSPACE: u32 = 14;

pub const KEY_TAB: u32 = 15;

pub const KEY_Q: u32 = 16;

pub const KEY_W: u32 = 17;

pub const KEY_E: u32 = 18;

pub const KEY_R: u32 = 19;

pub const KEY_T: u32 = 20;

pub const KEY_Y: u32 = 21;

pub const KEY_U: u32 = 22;

pub const KEY_I: u32 = 23;

pub const KEY_O: u32 = 24;

pub const KEY_P: u32 = 25;

pub const KEY_ENTER: u32 = 28;

pub const KEY_A: u32 = 30;

pub const KEY_S: u32 = 31;

pub const KEY_D: u32 = 32;

pub const KEY_F: u32 = 33;

pub const KEY_G: u32 = 34;

pub const KEY_H: u32 = 35;

pub const KEY_J: u32 = 36;

pub const KEY_K: u32 = 37;

pub const KEY_L: u32 = 38;

pub const KEY_GRAVE: u32 = 41;

pub const KEY_Z: u32 = 44;

pub const KEY_X: u32 = 45;

pub const KEY_C: u32 = 46;

pub const KEY_V: u32 = 47;

pub const KEY_B: u32 = 48;

pub const KEY_N: u32 = 49;

pub const KEY_M: u32 = 50;

pub const KEY_SLASH: u32 = 53;

pub const KEY_SPACE: u32 = 57;

pub const KEY_F1: u32 = 59;

pub const KEY_F2: u32 = 60;

pub const KEY_F3: u32 = 61;

pub const KEY_F4: u32 = 62;

pub const KEY_F5: u32 = 63;

pub const KEY_F6: u32 = 64;

pub const KEY_F7: u32 = 65;

pub const KEY_F8: u32 = 66;

pub const KEY_F9: u32 = 67;

pub const KEY_F10: u32 = 68;

pub const KEY_KP7: u32 = 71;

pub const KEY_KP8: u32 = 72;

pub const KEY_KP9: u32 = 73;

pub const KEY_KP4: u32 = 75;

pub const KEY_KP5: u32 = 76;

pub const KEY_KP6: u32 = 77;

pub const KEY_KPPLUS: u32 = 78;

pub const KEY_KP1: u32 = 79;

pub const KEY_KP2: u32 = 80;

pub const KEY_KP3: u32 = 81;

pub const KEY_F11: u32 = 87;

pub const KEY_F12: u32 = 88;

pub const KEY_HOME: u32 = 102;

pub const KEY_UP: u32 = 103;

pub const KEY_PAGEUP: u32 = 104;

pub const KEY_LEFT: u32 = 105;

pub const KEY_RIGHT: u32 = 106;

pub const KEY_DOWN: u32 = 108;

pub const KEY_PAGEDOWN: u32 = 109;

pub const KEY_DELETE: u32 = 111;


/// The polling rates that the device knows, in Hz, by their index.
pub open spec fn polling_rates() -> Seq<u32> {
    seq![125u32, 250u32, 500u32, 1000u32]
}

/// The debounce times that the device knows, in milliseconds, by their
/// index.
pub open spec fn debounce_times() -> Seq<u32> {
    seq![4u32, 8u32, 12u32, 16u32, 20u32, 24u32, 28u32, 32u32]
}

/// What a button of the table does.
#[derive(Debug, Clone, Copy, PartialEq, Eq, Structural)]
pub enum AsusButtonKind {
    /// Nothing that the daemon knows.
    Unmapped,
    /// The mouse button with this number, counted from 1.
    Button(u32),
    /// The special action with this number.
    Special(u32),
    /// An axis of the joystick.
    Joystick,
}

/// One entry of the button table: a hardware code and what it does.
#[derive(Debug, Clone, Copy, PartialEq, Eq, Structural)]
pub struct AsusButtonEntry {
    pub asus_code: u8,
    pub kind: AsusButtonKind,
}

/// The button table. Its order matters: a search by action finds the
/// first entry that fits.
pub open spec fn button_table() -> Seq<AsusButtonEntry> {
    seq![
        AsusButtonEntry { asus_code: 0xf0, kind: AsusButtonKind::Button(1) },
        AsusButtonEntry { asus_code: 0xf1, kind: AsusButtonKind::Button(2) },
        AsusButtonEntry { asus_code: 0xf2, kind: AsusButtonKind::Button(3) },
        AsusButtonEntry { asus_code: 0xe8, kind: AsusButtonKind::Special(SPECIAL_WHEEL_UP) },
        AsusButtonEntry { asus_code: 0xe9, kind: AsusButtonKind::Special(SPECIAL_WHEEL_DOWN) },
        AsusButtonEntry { asus_code: 0xe6, kind: AsusButtonKind::Special(SPECIAL_RES_CYCLE_UP) },
        AsusButtonEntry { asus_code: 0xe4, kind: AsusButtonKind::Button(4) },
        AsusButtonEntry { asus_code: 0xe5, kind: AsusButtonKind::Button(5) },
        AsusButtonEntry { asus_code: 0xe1, kind: AsusButtonKind::Button(4) },
        AsusButtonEntry { asus_code: 0xe2, kind: AsusButtonKind::Button(5) },
        AsusButtonEntry { asus_code: 0xe7, kind: AsusButtonKind::Special(SPECIAL_RES_ALTERNATE) },
        AsusButtonEntry { asus_code: 0xea, kind: AsusButtonKind::Unmapped },
        AsusButtonEntry { asus_code: 0xeb, kind: AsusButtonKind::Unmapped },
        AsusButtonEntry { asus_code: 0xec, kind: AsusButtonKind::Unmapped },
        AsusButtonEntry { asus_code: 0xed, kind: AsusButtonKind::Unmapped },
        AsusButtonEntry { asus_code: 0xee, kind: AsusButtonKind::Unmapped },
        AsusButtonEntry { asus_code: 0xef, kind: AsusButtonKind::Unmapped },
        AsusButtonEntry { asus_code: 0xd0, kind: AsusButtonKind::Joystick },
        AsusButtonEntry { asus_code: 0xd1, kind: AsusButtonKind::Joystick },
        AsusButtonEntry { asus_code: 0xd2, kind: AsusButtonKind::Joystick },
        AsusButtonEntry { asus_code: 0xd3, kind: AsusButtonKind::Joystick },
        AsusButtonEntry { asus_code: 0xd7, kind: AsusButtonKind::Special(SPECIAL_WHEEL_DOWN) },
        AsusButtonEntry { asus_code: 0xd8, kind: AsusButtonKind::Special(SPECIAL_WHEEL_UP) },
        AsusButtonEntry { asus_code: 0xda, kind: AsusButtonKind::Special(SPECIAL_WHEEL_RIGHT) },
        AsusButtonEntry { asus_code: 0xdb, kind: AsusButtonKind::Special(SPECIAL_WHEEL_LEFT) },
    ]
}

pub const ASUS_BUTTON_TABLE_LEN: usize = 25;

/// The entry at position `i` of the button table.
pub fn button_entry(i: usize) -> (r: AsusButtonEntry)
    requires
        i < ASUS_BUTTON_TABLE_LEN,
    ensures
        r == button_table()[i as int],
{
    match i {
        0 => AsusButtonEntry { asus_code: 0xf0, kind: AsusButtonKind::Button(1) },
        1 => AsusButtonEntry { asus_code: 0xf1, kind: AsusButtonKind::Button(2) },
        2 => AsusButtonEntry { asus_code: 0xf2, kind: AsusButtonKind::Button(3) },
        3 => AsusButtonEntry { asus_code: 0xe8, kind: AsusButtonKind::Special(SPECIAL_WHEEL_UP) },
        4 => AsusButtonEntry { asus_code: 0xe9, kind: AsusButtonKind::Special(SPECIAL_WHEEL_DOWN) },
        5 => AsusButtonEntry { asus_code: 0xe6, kind: AsusButtonKind::Special(SPECIAL_RES_CYCLE_UP) },
        6 => AsusButtonEntry { asus_code: 0xe4, kind: AsusButtonKind::Button(4) },
        7 => AsusButtonEntry { asus_code: 0xe5, kind: AsusButtonKind::Button(5) },
        8 => AsusButtonEntry { asus_code: 0xe1, kind: AsusButtonKind::Button(4) },
        9 => AsusButtonEntry { asus_code: 0xe2, kind: AsusButtonKind::Button(5) },
        10 => AsusButtonEntry { asus_code: 0xe7, kind: AsusButtonKind::Special(SPECIAL_RES_ALTERNATE) },
        11 => AsusButtonEntry { asus_code: 0xea, kind: AsusButtonKind::Unmapped },
        12 => AsusButtonEntry { asus_code: 0xeb, kind: AsusButtonKind::Unmapped },
        13 => AsusButtonEntry { asus_code: 0xec, kind: AsusButtonKind::Unmapped },
        14 => AsusButtonEntry { asus_code: 0xed, kind: AsusButtonKind::Unmapped },
        15 => AsusButtonEntry { asus_code: 0xee, kind: AsusButtonKind::Unmapped },
        16 => AsusButtonEntry { asus_code: 0xef, kind: AsusButtonKind::Unmapped },
        17 => AsusButtonEntry { asus_code: 0xd0, kind: AsusButtonKind::Joystick },
        18 => AsusButtonEntry { asus_code: 0xd1, kind: AsusButtonKind::Joystick },
        19 => AsusButtonEntry { asus_code: 0xd2, kind: AsusButtonKind::Joystick },
        20 => AsusButtonEntry { asus_code: 0xd3, kind: AsusButtonKind::Joystick },
        21 => AsusButtonEntry { asus_code: 0xd7, kind: AsusButtonKind::Special(SPECIAL_WHEEL_DOWN) },
        22 => AsusButtonEntry { asus_code: 0xd8, kind: AsusButtonKind::Special(SPECIAL_WHEEL_UP) },
        23 => AsusButtonEntry { asus_code: 0xda, kind: AsusButtonKind::Special(SPECIAL_WHEEL_RIGHT) },
        _ => AsusButtonEntry { asus_code: 0xdb, kind: AsusButtonKind::Special(SPECIAL_WHEEL_LEFT) },
    }
}

/// The default hardware code of the first eight button slots: left, right,
/// middle, backward, forward, DPI cycle, wheel up and wheel down.
pub open spec fn default_button_mapping() -> Seq<u8> {
    seq![0xf0u8, 0xf1u8, 0xf2u8, 0xe4u8, 0xe5u8, 0xe6u8, 0xe8u8, 0xe9u8]
}

pub fn default_button_code(i: usize) -> (r: Option<u8>)
    ensures
        r == (if i < 8 {
            Some(default_button_mapping()[i as int])
        } else {
            None
        }),
{
    match i {
        0 => Some(0xf0),
        1 => Some(0xf1),
        2 => Some(0xf2),
        3 => Some(0xe4),
        4 => Some(0xe5),
        5 => Some(0xe6),
        6 => Some(0xe8),
        7 => Some(0xe9),
        _ => None,
    }
}

/// The codes of the axes of the joystick.
pub open spec fn joystick_code(code: u8) -> bool {
    code == 0xd0 || code == 0xd1 || code == 0xd2 || code == 0xd3 || code == 0xd7 || code == 0xd8
        || code == 0xda || code == 0xdb
}

/// Whether a hardware code belongs to the joystick.
pub fn is_joystick_code(code: u8) -> (r: bool)
    ensures
        r == joystick_code(code),
{
    code == 0xd0 || code == 0xd1 || code == 0xd2 || code == 0xd3 || code == 0xd7 || code == 0xd8
        || code == 0xda || code == 0xdb
}

/// The first entry of the table from position `i` on that `wanted` holds
/// of.
pub open spec fn first_entry(
    table: Seq<AsusButtonEntry>,
    wanted: spec_fn(AsusButtonEntry) -> bool,
    i: int,
) -> Option<AsusButtonEntry>
    decreases table.len() - i,
{
    if i < 0 || i >= table.len() {
        None
    } else if wanted(table[i]) {
        Some(table[i])
    } else {
        first_entry(table, wanted, i + 1)
    }
}

/// Whether an entry has the given hardware code.
pub open spec fn has_code(e: AsusButtonEntry, code: u8) -> bool {
    e.asus_code == code
}

/// Whether an entry stands for the given action, on the joystick or off
/// it.
pub open spec fn does_action(
    e: AsusButtonEntry,
    action_type: ActionType,
    value: u32,
    is_joystick: bool,
) -> bool {
    joystick_code(e.asus_code) == is_joystick && match (action_type, e.kind) {
        (ActionType::Button, AsusButtonKind::Button(n)) => n == value,
        (ActionType::Special, AsusButtonKind::Special(n)) => n == value,
        _ => false,
    }
}

/// Finds the entry of the table with the given hardware code.
pub fn find_button_by_code(code: u8) -> (r: Option<AsusButtonEntry>)
    ensures
        r == first_entry(button_table(), |e: AsusButtonEntry| has_code(e, code), 0),
{
    let ghost wanted = |e: AsusButtonEntry| has_code(e, code);
    let mut i: usize = 0;
    while i < ASUS_BUTTON_TABLE_LEN
        invariant
            i <= ASUS_BUTTON_TABLE_LEN,
            button_table().len() == ASUS_BUTTON_TABLE_LEN,
            wanted == |e: AsusButtonEntry| has_code(e, code),
            first_entry(button_table(), wanted, 0) == first_entry(button_table(), wanted, i as int),
        decreases ASUS_BUTTON_TABLE_LEN - i,
    {
        let e = button_entry(i);
        if e.asus_code == code {
            assert(wanted(e));
            return Some(e);
        }
        assert(!wanted(e));
        i += 1;
    }
    None
}

/// Finds the first entry of the table that stands for the given action.
/// With `is_joystick` the search looks at the codes of the joystick alone,
/// without it at all others.
pub fn find_button_by_action(action_type: ActionType, value: u32, is_joystick: bool) -> (r: Option<
    AsusButtonEntry,
>)
    ensures
        r == first_entry(
            button_table(),
            |e: AsusButtonEntry| does_action(e, action_type, value, is_joystick),
            0,
        ),
{
    let ghost wanted = |e: AsusButtonEntry| does_action(e, action_type, value, is_joystick);
    let mut i: usize = 0;
    while i < ASUS_BUTTON_TABLE_LEN
        invariant
            i <= ASUS_BUTTON_TABLE_LEN,
            button_table().len() == ASUS_BUTTON_TABLE_LEN,
            wanted == |e: AsusButtonEntry| does_action(e, action_type, value, is_joystick),
            first_entry(button_table(), wanted, 0) == first_entry(button_table(), wanted, i as int),
        decreases ASUS_BUTTON_TABLE_LEN - i,
    {
        let e = button_entry(i);
        let fits = is_joystick_code(e.asus_code) == is_joystick && match (action_type, e.kind) {
            (ActionType::Button, AsusButtonKind::Button(n)) => n == value,
            (ActionType::Special, AsusButtonKind::Special(n)) => n == value,
            _ => false,
        };
        if fits {
            assert(wanted(e));
            return Some(e);
        }
        assert(!wanted(e));
        i += 1;
    }
    None
}

/// The input event code that a key code of the device stands for; 0 where
/// it stands for none.
pub open spec fn key_of_code(code: usize) -> u32 {
    match code {
        0x04 => KEY_A,
        0x05 => KEY_B,
        0x06 => KEY_C,
        0x07 => KEY_D,
        0x08 => KEY_E,
        0x09 => KEY_F,
        0x0a => KEY_G,
        0x0b => KEY_H,
        0x0c => KEY_I,
        0x0d => KEY_J,
        0x0e => KEY_K,
        0x0f => KEY_L,
        0x10 => KEY_M,
        0x11 => KEY_N,
        0x12 => KEY_O,
        0x13 => KEY_P,
        0x14 => KEY_Q,
        0x15 => KEY_R,
        0x16 => KEY_S,
        0x17 => KEY_T,
        0x18 => KEY_U,
        0x19 => KEY_V,
        0x1a => KEY_W,
        0x1b => KEY_X,
        0x1c => KEY_Y,
        0x1d => KEY_Z,
        0x1e => KEY_1,
        0x1f => KEY_2,
        0x20 => KEY_3,
        0x21 => KEY_4,
        0x22 => KEY_5,
        0x23 => KEY_6,
        0x24 => KEY_7,
        0x25 => KEY_8,
        0x26 => KEY_9,
        0x27 => KEY_0,
        0x28 => KEY_ENTER,
        0x29 => KEY_ESC,
        0x2a => KEY_BACKSPACE,
        0x2b => KEY_TAB,
        0x2c => KEY_SPACE,
        0x2d => KEY_MINUS,
        0x2e => KEY_KPPLUS,
        0x35 => KEY_GRAVE,
        0x36 => KEY_EQUAL,
        0x38 => KEY_SLASH,
        0x3a => KEY_F1,
        0x3b => KEY_F2,
        0x3c => KEY_F3,
        0x3d => KEY_F4,
        0x3e => KEY_F5,
        0x3f => KEY_F6,
        0x40 => KEY_F7,
        0x41 => KEY_F8,
        0x42 => KEY_F9,
        0x43 => KEY_F10,
        0x44 => KEY_F11,
        0x45 => KEY_F12,
        0x4a => KEY_HOME,
        0x4b => KEY_PAGEUP,
        0x4c => KEY_DELETE,
        0x4e => KEY_PAGEDOWN,
        0x4f => KEY_RIGHT,
        0x50 => KEY_LEFT,
        0x51 => KEY_DOWN,
        0x52 => KEY_UP,
        0x59 => KEY_KP1,
        0x5a => KEY_KP2,
        0x5b => KEY_KP3,
        0x5c => KEY_KP4,
        0x5d => KEY_KP5,
        0x5e => KEY_KP6,
        0x5f => KEY_KP7,
        0x60 => KEY_KP8,
        0x61 => KEY_KP9,
        _ => 0,
    }
}

/// How many key codes the table holds.
pub const ASUS_KEY_TABLE_LEN: usize = 99;

fn key_at(code: usize) -> (r: u32)
    ensures
        r == key_of_code(code),
{
    match code {
        0x04 => KEY_A,
        0x05 => KEY_B,
        0x06 => KEY_C,
        0x07 => KEY_D,
        0x08 => KEY_E,
        0x09 => KEY_F,
        0x0a => KEY_G,
        0x0b => KEY_H,
        0x0c => KEY_I,
        0x0d => KEY_J,
        0x0e => KEY_K,
        0x0f => KEY_L,
        0x10 => KEY_M,
        0x11 => KEY_N,
        0x12 => KEY_O,
        0x13 => KEY_P,
        0x14 => KEY_Q,
        0x15 => KEY_R,
        0x16 => KEY_S,
        0x17 => KEY_T,
        0x18 => KEY_U,
        0x19 => KEY_V,
        0x1a => KEY_W,
        0x1b => KEY_X,
        0x1c => KEY_Y,
        0x1d => KEY_Z,
        0x1e => KEY_1,
        0x1f => KEY_2,
        0x20 => KEY_3,
        0x21 => KEY_4,
        0x22 => KEY_5,
        0x23 => KEY_6,
        0x24 => KEY_7,
        0x25 => KEY_8,
        0x26 => KEY_9,
        0x27 => KEY_0,
        0x28 => KEY_ENTER,
        0x29 => KEY_ESC,
        0x2a => KEY_BACKSPACE,
        0x2b => KEY_TAB,
        0x2c => KEY_SPACE,
        0x2d => KEY_MINUS,
        0x2e => KEY_KPPLUS,
        0x35 => KEY_GRAVE,
        0x36 => KEY_EQUAL,
        0x38 => KEY_SLASH,
        0x3a => KEY_F1,
        0x3b => KEY_F2,
        0x3c => KEY_F3,
        0x3d => KEY_F4,
        0x3e => KEY_F5,
        0x3f => KEY_F6,
        0x40 => KEY_F7,
        0x41 => KEY_F8,
        0x42 => KEY_F9,
        0x43 => KEY_F10,
        0x44 => KEY_F11,
        0x45 => KEY_F12,
        0x4a => KEY_HOME,
        0x4b => KEY_PAGEUP,
        0x4c => KEY_DELETE,
        0x4e => KEY_PAGEDOWN,
        0x4f => KEY_RIGHT,
        0x50 => KEY_LEFT,
        0x51 => KEY_DOWN,
        0x52 => KEY_UP,
        0x59 => KEY_KP1,
        0x5a => KEY_KP2,
        0x5b => KEY_KP3,
        0x5c => KEY_KP4,
        0x5d => KEY_KP5,
        0x5e => KEY_KP6,
        0x5f => KEY_KP7,
        0x60 => KEY_KP8,
        0x61 => KEY_KP9,
        _ => 0,
    }
}

/// The input event code of a key code of the device, where it has one.
pub open spec fn linux_key_of(asus_code: u8) -> Option<u32> {
    if key_of_code(asus_code as usize) == 0 {
        None
    } else {
        Some(key_of_code(asus_code as usize))
    }
}

/// Translates a key code of the device to an input event code.
pub fn get_linux_key_code(asus_code: u8) -> (r: Option<u32>)
    ensures
        r == linux_key_of(asus_code),
{
    let val = key_at(asus_code as usize);
    if val == 0 {
        None
    } else {
        Some(val)
    }
}

/// The first position of the key table from `i` on that holds the given
/// input event code, or the length of the table.
pub open spec fn key_position(linux_code: u32, i: int) -> int
    decreases ASUS_KEY_TABLE_LEN - i,
{
    if 0 <= i < ASUS_KEY_TABLE_LEN && key_of_code(i as usize) != linux_code {
        key_position(linux_code, i + 1)
    } else {
        i
    }
}

/// The key code of the device for an input event code: the first that
/// stands for it.
pub open spec fn asus_key_of(linux_code: u32) -> Option<u8> {
    if key_position(linux_code, 0) < ASUS_KEY_TABLE_LEN {
        Some(key_position(linux_code, 0) as u8)
    } else {
        None
    }
}

/// Translates an input event code to a key code of the device.
pub fn find_key_code(linux_code: u32) -> (r: Option<u8>)
    ensures
        r == asus_key_of(linux_code),
        r is Some ==> key_of_code(r->0 as usize) == linux_code,
{
    let mut i: usize = 0;
    while i < ASUS_KEY_TABLE_LEN
        invariant
            i <= ASUS_KEY_TABLE_LEN,
            key_position(linux_code, 0) == key_position(linux_code, i as int),
        decreases ASUS_KEY_TABLE_LEN - i,
    {
        if key_at(i) == linux_code {
            return Some(i as u8);
        }
        i += 1;
    }
    None
}

/// The position of a value in a list, from `i` on, or the length of the
/// list.
pub open spec fn position_in(list: Seq<u32>, value: u32, i: int) -> int
    decreases list.len() - i,
{
    if 0 <= i < list.len() && list[i] != value {
        position_in(list, value, i + 1)
    } else {
        i
    }
}

/// The index that stands for a value of a list, where the list holds it.
pub open spec fn index_in(list: Seq<u32>, value: u32) -> Option<u8> {
    if position_in(list, value, 0) < list.len() {
        Some(position_in(list, value, 0) as u8)
    } else {
        None
    }
}

/// The index of a polling rate.
pub fn polling_rate_index(hz: u32) -> (r: Option<u8>)
    ensures
        r == index_in(polling_rates(), hz),
{
    let r = match hz {
        125 => Some(0u8),
        250 => Some(1u8),
        500 => Some(2u8),
        1000 => Some(3u8),
        _ => None,
    };
    proof {
        lemma_position_in(polling_rates(), hz, 0);
    }
    r
}

/// The index of a debounce time.
pub fn debounce_index(ms: u32) -> (r: Option<u8>)
    ensures
        r == index_in(debounce_times(), ms),
{
    let r = match ms {
        4 => Some(0u8),
        8 => Some(1u8),
        12 => Some(2u8),
        16 => Some(3u8),
        20 => Some(4u8),
        24 => Some(5u8),
        28 => Some(6u8),
        32 => Some(7u8),
        _ => None,
    };
    proof {
        lemma_position_in(debounce_times(), ms, 0);
    }
    r
}

pub proof fn lemma_position_in(list: Seq<u32>, value: u32, i: int)
    requires
        0 <= i <= list.len(),
    ensures
        i <= position_in(list, value, i) <= list.len(),
        position_in(list, value, i) < list.len() ==> list[position_in(list, value, i)] == value,
        forall|k: int| i <= k < position_in(list, value, i) ==> list[k] != value,
    decreases list.len() - i,
{
    if i < list.len() && list[i] != value {
        lemma_position_in(list, value, i + 1);
    }
}

/// The polling rate with the given index, where there is one.
pub fn polling_rate_at(index: usize) -> (r: Option<u32>)
    ensures
        r == (if index < 4 {
            Some(polling_rates()[index as int])
        } else {
            None
        }),
{
    match index {
        0 => Some(125),
        1 => Some(250),
        2 => Some(500),
        3 => Some(1000),
        _ => None,
    }
}

/// The debounce time with the given index, where there is one.
pub fn debounce_time_at(index: usize) -> (r: Option<u32>)
    ensures
        r == (if index < 8 {
            Some(debounce_times()[index as int])
        } else {
            None
        }),
{
    match index {
        0 => Some(4),
        1 => Some(8),
        2 => Some(12),
        3 => Some(16),
        4 => Some(20),
        5 => Some(24),
        6 => Some(28),
        7 => Some(32),
        _ => None,
    }
}

/// The bit that the name of a quirk stands for; 0 for a name that names
/// none.
pub open spec fn quirk_bit(name: Seq<char>) -> u32 {
    if name == "DOUBLE_DPI"@ {
        ASUS_QUIRK_DOUBLE_DPI
    } else if name == "STRIX_PROFILE"@ {
        ASUS_QUIRK_STRIX_PROFILE
    } else if name == "BATTERY_V2"@ {
        ASUS_QUIRK_BATTERY_V2
    } else if name == "RAW_BRIGHTNESS"@ {
        ASUS_QUIRK_RAW_BRIGHTNESS
    } else if name == "SEPARATE_XY_DPI"@ {
        ASUS_QUIRK_SEPARATE_XY_DPI
    } else if name == "SEPARATE_LEDS"@ {
        ASUS_QUIRK_SEPARATE_LEDS
    } else if name == "BUTTONS_SECONDARY"@ {
        ASUS_QUIRK_BUTTONS_SECONDARY
    } else {
        0
    }
}

fn quirk_bit_of(name: &str) -> (r: u32)
    ensures
        r == quirk_bit(name@),
{
    let v = chars_of(name);
    assert(v@.subrange(0, v@.len() as int) =~= v@);
    let n = v.len();
    if chars_eq(&v, 0, n, "DOUBLE_DPI") {
        ASUS_QUIRK_DOUBLE_DPI
    } else if chars_eq(&v, 0, n, "STRIX_PROFILE") {
        ASUS_QUIRK_STRIX_PROFILE
    } else if chars_eq(&v, 0, n, "BATTERY_V2") {
        ASUS_QUIRK_BATTERY_V2
    } else if chars_eq(&v, 0, n, "RAW_BRIGHTNESS") {
        ASUS_QUIRK_RAW_BRIGHTNESS
    } else if chars_eq(&v, 0, n, "SEPARATE_XY_DPI") {
        ASUS_QUIRK_SEPARATE_XY_DPI
    } else if chars_eq(&v, 0, n, "SEPARATE_LEDS") {
        ASUS_QUIRK_SEPARATE_LEDS
    } else if chars_eq(&v, 0, n, "BUTTONS_SECONDARY") {
        ASUS_QUIRK_BUTTONS_SECONDARY
    } else {
        0
    }
}

/// The quirks that the first `n` names of a list stand for: the bits of the
/// names, joined.
pub open spec fn quirks_of(names: Seq<Seq<char>>, n: int) -> u32
    decreases n,
{
    if n <= 0 || n > names.len() {
        0
    } else {
        quirks_of(names, n - 1) | quirk_bit(names[n - 1])
    }
}

/// The views of a slice of strings.
pub open spec fn names_view(names: Seq<String>) -> Seq<Seq<char>> {
    Seq::new(names.len(), |i: int| names[i]@)
}

/// Reads the quirks of a catalog entry into a set of bits. A name that
/// names no quirk is passed over.
pub fn parse_quirks(quirk_strings: &[String]) -> (r: u32)
    ensures
        r == quirks_of(names_view(quirk_strings@), quirk_strings@.len() as int),
{
    let mut q: u32 = 0;
    let mut i: usize = 0;
    while i < quirk_strings.len()
        invariant
            i <= quirk_strings@.len(),
            q == quirks_of(names_view(quirk_strings@), i as int),
        decreases quirk_strings@.len() - i,
    {
        let bit = quirk_bit_of(quirk_strings[i].as_str());
        assert(names_view(quirk_strings@)[i as int] == quirk_strings@[i as int]@);
        q = q | bit;
        i += 1;
    }
    q
}

/// Whether a set of quirks holds a quirk.
pub open spec fn quirk_set(quirks: u32, quirk: u32) -> bool {
    quirks & quirk != 0
}

/// The DPI that a stored value stands for: 50 for each step and 50 more,
/// and twice that with the quirk of doubled DPI.
pub open spec fn dpi_of_stored(stored: u16, quirks: u32) -> u32 {
    if quirk_set(quirks, ASUS_QUIRK_DOUBLE_DPI) {
        ((stored * 50 + 50) * 2) as u32
    } else {
        (stored * 50 + 50) as u32
    }
}

/// Converts a stored DPI value to a DPI.
pub fn dpi_from_stored(stored: u16, quirks: u32) -> (r: u32)
    ensures
        r == dpi_of_stored(stored, quirks),
{
    let mut val = (stored as u32) * 50 + 50;
    if quirks & ASUS_QUIRK_DOUBLE_DPI != 0 {
        val = val * 2;
    }
    val
}

/// The value that is stored for a DPI: the number of steps of 50 above
/// 50, at most 255; with the quirk of doubled DPI, of half the DPI.
pub open spec fn stored_of_dpi(dpi: u32, quirks: u32) -> u8 {
    let adjusted: int = if quirk_set(quirks, ASUS_QUIRK_DOUBLE_DPI) {
        dpi as int / 2
    } else {
        dpi as int
    };
    let steps: int = if adjusted < 50 {
        0
    } else {
        (adjusted - 50) / 50
    };
    if steps > 255 {
        255
    } else {
        steps as u8
    }
}

/// Converts a DPI to the value that the device stores.
pub fn dpi_to_stored(dpi: u32, quirks: u32) -> (r: u8)
    ensures
        r == stored_of_dpi(dpi, quirks),
{
    let adjusted = if quirks & ASUS_QUIRK_DOUBLE_DPI != 0 {
        dpi / 2
    } else {
        dpi
    };
    let steps = if adjusted < 50 {
        0
    } else {
        (adjusted - 50) / 50
    };
    if steps > 255 {
        255
    } else {
        steps as u8
    }
}

/// Every stored value is what the DPI it stands for is stored as.
pub proof fn lemma_dpi_round_trip(stored: u8, quirks: u32)
    ensures
        stored_of_dpi(dpi_of_stored(stored as u16, quirks), quirks) == stored,
{
}

/// The brightness, on the scale of the daemon, that a stored value stands
/// for: the value itself with the quirk of raw brightness, else 64 for each
/// of the steps of the device.
pub open spec fn brightness_of_raw(raw: u8, quirks: u32) -> u32 {
    if quirk_set(quirks, ASUS_QUIRK_RAW_BRIGHTNESS) {
        raw as u32
    } else {
        (raw * 64) as u32
    }
}

pub fn brightness_to_ratbag(raw: u8, quirks: u32) -> (r: u32)
    ensures
        r == brightness_of_raw(raw, quirks),
{
    if quirks & ASUS_QUIRK_RAW_BRIGHTNESS != 0 {
        raw as u32
    } else {
        (raw as u32) * 64
    }
}

/// The value that is stored for a brightness: the brightness itself, at
/// most 255, with the quirk of raw brightness; else the nearest of the
/// steps 0 to 4 of the device.
pub open spec fn raw_of_brightness(ratbag: u32, quirks: u32) -> u8 {
    if quirk_set(quirks, ASUS_QUIRK_RAW_BRIGHTNESS) {
        if ratbag > 255 {
            255
        } else {
            ratbag as u8
        }
    } else if (ratbag + 32) / 64 > 4 {
        4
    } else {
        ((ratbag + 32) / 64) as u8
    }
}

pub fn brightness_to_asus(ratbag: u32, quirks: u32) -> (r: u8)
    ensures
        r == raw_of_brightness(ratbag, quirks),
{
    if quirks & ASUS_QUIRK_RAW_BRIGHTNESS != 0 {
        if ratbag > 255 {
            255
        } else {
            ratbag as u8
        }
    } else if ratbag >= 288 {
        4
    } else {
        ((ratbag + 32) / 64) as u8
    }
}

/// A brightness within the range of the device comes back from the device
/// no more than 32 away from what was stored.
pub proof fn lemma_brightness_round_trip(ratbag: u32, quirks: u32)
    requires
        !quirk_set(quirks, ASUS_QUIRK_RAW_BRIGHTNESS),
        ratbag <= 287,
    ensures
        ratbag - 32 <= brightness_of_raw(raw_of_brightness(ratbag, quirks), quirks) <= ratbag + 32,
{
}

/// The LED mode that a name in a catalog entry stands for, whatever its
/// case; a name that names none stands for a solid color.
pub open spec fn led_mode_of_name(s: Seq<char>) -> LedMode {
    let l = ascii_lowered(s);
    if l == ascii_lowered("ON"@) || l == ascii_lowered("SOLID"@) {
        LedMode::Solid
    } else if l == ascii_lowered("BREATHING"@) {
        LedMode::Breathing
    } else if l == ascii_lowered("CYCLE"@) {
        LedMode::Cycle
    } else if l == ascii_lowered("OFF"@) {
        LedMode::Off
    } else if l == ascii_lowered("COLORWAVE"@) {
        LedMode::ColorWave
    } else {
        LedMode::Solid
    }
}

/// Reads the name of an LED mode.
pub fn parse_led_mode_str(s: &str) -> (r: LedMode)
    ensures
        r == led_mode_of_name(s@),
{
    let v = chars_of(s);
    if eq_ignore_ascii_case(&v, "ON") || eq_ignore_ascii_case(&v, "SOLID") {
        LedMode::Solid
    } else if eq_ignore_ascii_case(&v, "BREATHING") {
        LedMode::Breathing
    } else if eq_ignore_ascii_case(&v, "CYCLE") {
        LedMode::Cycle
    } else if eq_ignore_ascii_case(&v, "OFF") {
        LedMode::Off
    } else if eq_ignore_ascii_case(&v, "COLORWAVE") {
        LedMode::ColorWave
    } else {
        LedMode::Solid
    }
}

// ---------------------------------------------------------------------------
// Packets
// ---------------------------------------------------------------------------

/// A request: 64 bytes.
#[derive(Debug, Clone, Copy)]
pub struct AsusRequest {
    pub buf: [u8; 64],
}

/// The bytes of a request that holds a command and no parameters.
pub open spec fn command_bytes(cmd: u16) -> Seq<u8> {
    Seq::new(
        64,
        |i: int|
            if i == 0 {
                (cmd % 256) as u8
            } else if i == 1 {
                (cmd / 256) as u8
            } else {
                0u8
            },
    )
}

impl AsusRequest {
    /// The request with the given command and all parameters zero.
    pub fn new(cmd: u16) -> (r: Self)
        ensures
            r.buf@ == command_bytes(cmd),
    {
        let mut buf = [0u8; 64];
        buf[0] = (cmd % 256) as u8;
        buf[1] = (cmd / 256) as u8;
        assert(buf@ =~= command_bytes(cmd));
        AsusRequest { buf }
    }

    /// Sets parameter `idx`, which lies at byte `2 + idx`; a parameter
    /// outside the packet is ignored.
    pub fn set_param(&mut self, idx: usize, val: u8)
        ensures
            final(self).buf@ == (if idx < 62 {
                old(self).buf@.update(idx + 2, val)
            } else {
                old(self).buf@
            }),
    {
        if idx < 62 {
            self.buf[2 + idx] = val;
        }
    }
}

/// A response: 64 bytes.
#[derive(Debug, Clone, Copy)]
pub struct AsusResponse {
    pub buf: [u8; 64],
}

impl Default for AsusResponse {
    fn default() -> (r: Self)
        ensures
            forall|i: int| 0 <= i < 64 ==> r.buf@[i] == 0,
    {
        AsusResponse { buf: [0u8; 64] }
    }
}

/// Result `idx` of a response, which lies at byte `2 + idx`; 0 outside the
/// packet.
pub open spec fn result_of(buf: Seq<u8>, idx: int) -> u8 {
    if 0 <= idx && idx + 2 < buf.len() {
        buf[idx + 2]
    } else {
        0
    }
}

/// The 16 bits whose low byte is `lo` and whose high byte is `hi`.
pub open spec fn le16(lo: u8, hi: u8) -> u16 {
    (hi as int * 256 + lo as int) as u16
}

fn u16_le(lo: u8, hi: u8) -> (r: u16)
    ensures
        r == le16(lo, hi),
{
    (hi as u16) * 256 + (lo as u16)
}

/// The 16 bits at results `idx` and `idx + 1` of a response.
pub open spec fn result16(buf: Seq<u8>, idx: int) -> u16 {
    le16(result_of(buf, idx), result_of(buf, idx + 1))
}

impl AsusResponse {
    /// The response that holds the given bytes, zero-padded or cut to 64
    /// bytes.
    pub fn from_slice(data: &[u8]) -> (r: Self)
        ensures
            forall|i: int|
                0 <= i < 64 ==> r.buf@[i] == (if i < data@.len() {
                    data@[i]
                } else {
                    0u8
                }),
    {
        let mut buf = [0u8; 64];
        let mut i: usize = 0;
        while i < 64 && i < data.len()
            invariant
                i <= 64,
                i <= data@.len(),
                forall|k: int| 0 <= k < i ==> buf@[k] == data@[k],
                forall|k: int| i <= k < 64 ==> buf@[k] == 0,
            decreases 64 - i,
        {
            buf[i] = data[i];
            i += 1;
        }
        AsusResponse { buf }
    }

    pub fn status_code(&self) -> (r: u16)
        ensures
            r == le16(self.buf@[0], self.buf@[1]),
    {
        u16_le(self.buf[0], self.buf[1])
    }

    pub fn result(&self, idx: usize) -> (r: u8)
        ensures
            r == result_of(self.buf@, idx as int),
    {
        if idx < 62 {
            self.buf[2 + idx]
        } else {
            0
        }
    }

    fn result_word(&self, idx: usize) -> (r: u16)
        requires
            idx < 61,
        ensures
            r == result16(self.buf@, idx as int),
    {
        u16_le(self.result(idx), self.result(idx + 1))
    }
}

/// The binding of one button slot.
#[derive(Debug, Clone, Copy, PartialEq, Eq, Structural)]
pub struct AsusBinding {
    pub action: u8,
    pub type_: u8,
}

/// The bindings of one group of buttons.
#[derive(Debug, Clone, Copy)]
pub struct AsusBindingData {
    pub bindings: [AsusBinding; 17],
}

/// The bindings that a response holds: binding `k` holds its action at
/// result `2 + 2k` and its type at result `3 + 2k`.
pub open spec fn bindings_of(buf: Seq<u8>) -> Seq<AsusBinding> {
    Seq::new(
        17,
        |k: int|
            AsusBinding { action: result_of(buf, 2 + 2 * k), type_: result_of(buf, 3 + 2 * k) },
    )
}

impl AsusBindingData {
    /// Reads the bindings from a response.
    pub fn from_response(resp: &AsusResponse) -> (r: Self)
        ensures
            r.bindings@ == bindings_of(resp.buf@),
            forall|k: int|
                0 <= k < 17 ==> r.bindings@[k] == (AsusBinding {
                    action: result_of(resp.buf@, 2 + 2 * k),
                    type_: result_of(resp.buf@, 3 + 2 * k),
                }),
    {
        let mut bindings = [AsusBinding { action: 0, type_: 0 };17];
        let mut k: usize = 0;
        while k < 17
            invariant
                k <= 17,
                forall|j: int|
                    0 <= j < k ==> bindings@[j] == (AsusBinding {
                        action: result_of(resp.buf@, 2 + 2 * j),
                        type_: result_of(resp.buf@, 3 + 2 * j),
                    }),
            decreases 17 - k,
        {
            bindings[k] = AsusBinding {
                action: resp.result(2 + k * 2),
                type_: resp.result(3 + k * 2),
            };
            k += 1;
        }
        assert(bindings@ =~= bindings_of(resp.buf@));
        AsusBindingData { bindings }
    }
}

/// The settings of a device with two DPI presets.
#[derive(Debug, Clone, Copy)]
pub struct AsusDpi2Data {
    pub dpi: [u16; 2],
    pub rate_idx: u16,
    pub response_idx: u16,
    pub snapping: u16,
}

impl AsusDpi2Data {
    /// Reads the settings from a response: 16-bit values from result 2 on,
    /// the presets first.
    pub fn from_response(resp: &AsusResponse) -> (r: Self)
        ensures
            r.dpi@ == seq![result16(resp.buf@, 2), result16(resp.buf@, 4)],
            r.rate_idx == result16(resp.buf@, 6),
            r.response_idx == result16(resp.buf@, 8),
            r.snapping == result16(resp.buf@, 10),
    {
        let dpi = [resp.result_word(2), resp.result_word(4)];
        assert(dpi@ =~= seq![result16(resp.buf@, 2), result16(resp.buf@, 4)]);
        AsusDpi2Data {
            dpi,
            rate_idx: resp.result_word(6),
            response_idx: resp.result_word(8),
            snapping: resp.result_word(10),
        }
    }
}

/// The settings of a device with four DPI presets.
#[derive(Debug, Clone, Copy)]
pub struct AsusDpi4Data {
    pub dpi: [u16; 4],
    pub rate_idx: u16,
    pub response_idx: u16,
    pub snapping: u16,
}

impl AsusDpi4Data {
    /// Reads the settings from a response: 16-bit values from result 2 on,
    /// the presets first.
    pub fn from_response(resp: &AsusResponse) -> (r: Self)
        ensures
            r.dpi@ == seq![
                result16(resp.buf@, 2),
                result16(resp.buf@, 4),
                result16(resp.buf@, 6),
                result16(resp.buf@, 8),
            ],
            r.rate_idx == result16(resp.buf@, 10),
            r.response_idx == result16(resp.buf@, 12),
            r.snapping == result16(resp.buf@, 14),
    {
        let dpi = [
            resp.result_word(2),
            resp.result_word(4),
            resp.result_word(6),
            resp.result_word(8),
        ];
        assert(dpi@ =~= seq![
            result16(resp.buf@, 2),
            result16(resp.buf@, 4),
            result16(resp.buf@, 6),
            result16(resp.buf@, 8),
        ]);
        AsusDpi4Data {
            dpi,
            rate_idx: resp.result_word(10),
            response_idx: resp.result_word(12),
            snapping: resp.result_word(14),
        }
    }
}

/// The DPI of each axis for four presets.
#[derive(Debug, Clone, Copy)]
pub struct AsusDpiXyData {
    pub dpi: [(u16, u16); 4],
}

/// The DPI of each axis that a response holds for each of four presets:
/// preset `i` holds X at result `2 + 4i` and Y at result `4 + 4i`.
pub open spec fn xy_of(buf: Seq<u8>) -> Seq<(u16, u16)> {
    Seq::new(4, |i: int| (result16(buf, 2 + 4 * i), result16(buf, 4 + 4 * i)))
}

impl AsusDpiXyData {
    /// Reads the presets from a response.
    pub fn from_response(resp: &AsusResponse) -> (r: Self)
        ensures
            r.dpi@ == xy_of(resp.buf@),
            forall|i: int|
                0 <= i < 4 ==> r.dpi@[i] == (
                    result16(resp.buf@, 2 + 4 * i),
                    result16(resp.buf@, 4 + 4 * i),
                ),
    {
        let mut dpi = [(0u16, 0u16);4];
        let mut i: usize = 0;
        while i < 4
            invariant
                i <= 4,
                forall|j: int|
                    0 <= j < i ==> dpi@[j] == (
                        result16(resp.buf@, 2 + 4 * j),
                        result16(resp.buf@, 4 + 4 * j),
                    ),
            decreases 4 - i,
        {
            let base = 2 + i * 4;
            dpi[i] = (resp.result_word(base), resp.result_word(base + 2));
            i += 1;
        }
        assert(dpi@ =~= xy_of(resp.buf@));
        AsusDpiXyData { dpi }
    }
}

/// What the device stores of one LED.
#[derive(Debug, Clone, Copy, PartialEq, Eq, Structural)]
pub struct AsusLedEntry {
    pub mode: u8,
    pub brightness: u8,
    pub r: u8,
    pub g: u8,
    pub b: u8,
}

/// The LED that a response holds at position `i`: five results from
/// result `2 + 5i` on.
pub open spec fn led_entry_of(buf: Seq<u8>, i: int) -> AsusLedEntry {
    AsusLedEntry {
        mode: result_of(buf, 2 + 5 * i),
        brightness: result_of(buf, 3 + 5 * i),
        r: result_of(buf, 4 + 5 * i),
        g: result_of(buf, 5 + 5 * i),
        b: result_of(buf, 6 + 5 * i),
    }
}

/// The LEDs of one response.
#[derive(Debug, Clone, Copy)]
pub struct AsusLedData {
    pub leds: [AsusLedEntry; 3],
}

/// The LEDs that a response holds.
pub open spec fn leds_of(buf: Seq<u8>) -> Seq<AsusLedEntry> {
    Seq::new(3, |i: int| led_entry_of(buf, i))
}

impl AsusLedData {
    pub fn from_response(resp: &AsusResponse) -> (out: Self)
        ensures
            out.leds@ == leds_of(resp.buf@),
            forall|i: int| 0 <= i < 3 ==> out.leds@[i] == led_entry_of(resp.buf@, i),
    {
        let mut leds = [AsusLedEntry { mode: 0, brightness: 0, r: 0, g: 0, b: 0 };3];
        let mut i: usize = 0;
        while i < 3
            invariant
                i <= 3,
                forall|j: int| 0 <= j < i ==> leds@[j] == led_entry_of(resp.buf@, j),
            decreases 3 - i,
        {
            let base = 2 + i * 5;
            leds[i] = AsusLedEntry {
                mode: resp.result(base),
                brightness: resp.result(base + 1),
                r: resp.result(base + 2),
                g: resp.result(base + 3),
                b: resp.result(base + 4),
            };
            i += 1;
        }
        assert(leds@ =~= leds_of(resp.buf@));
        AsusLedData { leds }
    }
}

/// What the device says of its profiles and its firmware.
#[derive(Debug, Clone, Copy, PartialEq, Eq)]
pub struct AsusProfileInfo {
    pub profile_id: u32,
    /// The active DPI preset, where the device names one.
    pub dpi_preset: Option<u32>,
    /// Major, minor and build.
    pub firmware_primary: (u8, u8, u8),
    pub firmware_secondary: (u8, u8, u8),
}

/// What a response to "get profile data" says. The profile lies at result
/// 8, or at result 7 with the quirk of Strix devices; the DPI preset at
/// result 9 counts from 1, and 0 names none.
pub open spec fn profile_info_of(buf: Seq<u8>, quirks: u32) -> AsusProfileInfo {
    AsusProfileInfo {
        profile_id: if quirk_set(quirks, ASUS_QUIRK_STRIX_PROFILE) {
            result_of(buf, 7) as u32
        } else {
            result_of(buf, 8) as u32
        },
        dpi_preset: if result_of(buf, 9) > 0 {
            Some((result_of(buf, 9) - 1) as u32)
        } else {
            None
        },
        firmware_primary: (result_of(buf, 13), result_of(buf, 12), result_of(buf, 11)),
        firmware_secondary: (result_of(buf, 4), result_of(buf, 3), result_of(buf, 2)),
    }
}

/// Reads a response to "get profile data".
pub fn parse_profile_info(resp: &AsusResponse, quirks: u32) -> (r: AsusProfileInfo)
    ensures
        r == profile_info_of(resp.buf@, quirks),
{
    AsusProfileInfo {
        profile_id: if quirks & ASUS_QUIRK_STRIX_PROFILE != 0 {
            resp.result(7) as u32
        } else {
            resp.result(8) as u32
        },
        dpi_preset: if resp.result(9) > 0 {
            Some(resp.result(9) as u32 - 1)
        } else {
            None
        },
        firmware_primary: (resp.result(13), resp.result(12), resp.result(11)),
        firmware_secondary: (resp.result(4), resp.result(3), resp.result(2)),
    }
}

/// The settings of a device, however many presets it has.
#[derive(Debug, Clone, Copy)]
pub enum AsusResolutionResult {
    Dpi2(AsusDpi2Data),
    Dpi4(AsusDpi4Data),
    Xy(AsusDpiXyData),
}

/// The DPI of preset `i`: that of each axis where the device states it per
/// axis and has the preset, else the one stored value.
pub open spec fn dpi_of_preset(i: int, stored: u16, xy: Option<Seq<(u16, u16)>>, quirks: u32) -> Dpi {
    match xy {
        Some(d) => if 0 <= i < 4 {
            Dpi::Separate { x: dpi_of_stored(d[i].0, quirks), y: dpi_of_stored(d[i].1, quirks) }
        } else {
            Dpi::Unified(dpi_of_stored(stored, quirks))
        },
        None => Dpi::Unified(dpi_of_stored(stored, quirks)),
    }
}

/// Builds the DPI of preset `i`.
pub fn build_preset_dpi(i: usize, stored: u16, xy_data: Option<&AsusDpiXyData>, quirks: u32) -> (r:
    Dpi)
    ensures
        r == dpi_of_preset(
            i as int,
            stored,
            match xy_data {
                Some(d) => Some(d.dpi@),
                None => None,
            },
            quirks,
        ),
{
    match xy_data {
        Some(xy) => {
            if i < 4 {
                let (xs, ys) = xy.dpi[i];
                return Dpi::Separate {
                    x: dpi_from_stored(xs, quirks),
                    y: dpi_from_stored(ys, quirks),
                };
            }
        },
        None => {},
    }
    Dpi::Unified(dpi_from_stored(stored, quirks))
}

} // verus!
