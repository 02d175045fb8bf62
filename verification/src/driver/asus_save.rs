//! The requests of the ASUS ROG protocol and the plan of a commit: which
//! requests write a profile, in which order.

use vstd::prelude::*;
use crate::device::{
    ActionType, ButtonInfo, ButtonModel, DeviceInfo, DeviceModel, Dpi, LedInfo, LedMode, LedModel,
    ProfileInfo, ProfileModel, ResolutionModel, clamp_byte,
};
use crate::driver::asus::{
    asus_key_of, brightness_to_asus, button_table, debounce_index, debounce_times, does_action,
    dpi_to_stored, find_button_by_action, find_key_code, first_entry, index_in, is_joystick_code,
    joystick_code, polling_rate_index, polling_rates, raw_of_brightness, stored_of_dpi,
    AsusButtonEntry, AsusRequest, ASUS_ACTION_TYPE_BUTTON, ASUS_ACTION_TYPE_KEY,
    ASUS_BUTTON_CODE_DISABLED, ASUS_CMD_GET_BUTTON_DATA, ASUS_CMD_GET_LED_DATA,
    ASUS_CMD_GET_PROFILE_DATA, ASUS_CMD_GET_SETTINGS, ASUS_CMD_SAVE, ASUS_CMD_SET_BUTTON,
    ASUS_CMD_SET_LED, ASUS_CMD_SET_PROFILE, ASUS_CMD_SET_SETTING,
};
use crate::driver::asus_driver::AsusTables;
use crate::driver::hidpp20_driver::text2;
use crate::driver::steelseries_driver::low8;

verus! {

/// The 64 bytes of a request: the command, low byte first, the parameters,
/// and zero after them.
pub open spec fn packet(cmd: u16, params: Seq<u8>) -> Seq<u8> {
    Seq::new(
        64,
        |i: int|
            if i == 0 {
                (cmd % 256) as u8
            } else if i == 1 {
                (cmd / 256) as u8
            } else if i - 2 < params.len() {
                params[i - 2]
            } else {
                0u8
            },
    )
}

fn build_packet(cmd: u16, params: &[u8]) -> (r: [u8; 64])
    requires
        params@.len() <= 62,
    ensures
        r@ == packet(cmd, params@),
{
    let mut req = AsusRequest::new(cmd);
    let mut i: usize = 0;
    while i < params.len()
        invariant
            i <= params@.len() <= 62,
            req.buf@[0] == (cmd % 256) as u8,
            req.buf@[1] == (cmd / 256) as u8,
            forall|k: int| 0 <= k < i ==> req.buf@[2 + k] == params@[k],
            forall|k: int| 2 + i <= k < 64 ==> req.buf@[k] == 0,
        decreases params@.len() - i,
    {
        req.set_param(i, params[i]);
        i += 1;
    }
    assert(req.buf@ =~= packet(cmd, params@));
    req.buf
}

/// The request for what the device says of its profiles.
pub fn profile_data_request() -> (r: [u8; 64])
    ensures
        r@ == packet(ASUS_CMD_GET_PROFILE_DATA, Seq::empty()),
{
    let p: [u8; 0] = [];
    assert(p@ =~= Seq::<u8>::empty());
    build_packet(ASUS_CMD_GET_PROFILE_DATA, p.as_slice())
}

/// The request that switches the device to a profile.
pub fn set_profile_request(index: u32) -> (r: [u8; 64])
    ensures
        r@ == packet(ASUS_CMD_SET_PROFILE, seq![low8(index)]),
{
    let p = [(index % 256) as u8];
    assert(p@ =~= seq![low8(index)]);
    build_packet(ASUS_CMD_SET_PROFILE, p.as_slice())
}

/// The request that makes the device keep the settings.
pub fn save_request() -> (r: [u8; 64])
    ensures
        r@ == packet(ASUS_CMD_SAVE, Seq::empty()),
{
    let p: [u8; 0] = [];
    assert(p@ =~= Seq::<u8>::empty());
    build_packet(ASUS_CMD_SAVE, p.as_slice())
}

/// The request for the bindings of a group of buttons.
pub fn binding_request(group: u8) -> (r: [u8; 64])
    ensures
        r@ == packet(ASUS_CMD_GET_BUTTON_DATA, seq![group]),
{
    let p = [group];
    assert(p@ =~= seq![group]);
    build_packet(ASUS_CMD_GET_BUTTON_DATA, p.as_slice())
}

/// The request for the settings: the first parameter is 2 for the DPI of
/// each axis, and 0 else.
pub fn settings_request(sep_xy: bool) -> (r: [u8; 64])
    ensures
        r@ == packet(ASUS_CMD_GET_SETTINGS, seq![if sep_xy { 2u8 } else { 0u8 }]),
{
    let p = [if sep_xy {
        2u8
    } else {
        0u8
    }];
    assert(p@ =~= seq![if sep_xy { 2u8 } else { 0u8 }]);
    build_packet(ASUS_CMD_GET_SETTINGS, p.as_slice())
}

/// The request for what the device stores of its LEDs.
pub fn led_request(index: u8) -> (r: [u8; 64])
    ensures
        r@ == packet(ASUS_CMD_GET_LED_DATA, seq![index]),
{
    let p = [index];
    assert(p@ =~= seq![index]);
    build_packet(ASUS_CMD_GET_LED_DATA, p.as_slice())
}

/// The request that binds the button with hardware code `src` to the
/// action `dst` of the given type.
pub fn set_button_request(src: u8, dst: u8, action_type: u8) -> (r: [u8; 64])
    ensures
        r@ == packet(
            ASUS_CMD_SET_BUTTON,
            seq![0u8, 0u8, src, ASUS_ACTION_TYPE_BUTTON, dst, action_type],
        ),
{
    let p = [0u8, 0u8, src, ASUS_ACTION_TYPE_BUTTON, dst, action_type];
    assert(p@ =~= seq![0u8, 0u8, src, ASUS_ACTION_TYPE_BUTTON, dst, action_type]);
    build_packet(ASUS_CMD_SET_BUTTON, p.as_slice())
}

/// The request that sets the setting with number `field` to `value`.
pub fn set_setting_request(field: u8, value: u8) -> (r: [u8; 64])
    ensures
        r@ == packet(ASUS_CMD_SET_SETTING, seq![field, 0u8, value]),
{
    let p = [field, 0u8, value];
    assert(p@ =~= seq![field, 0u8, value]);
    build_packet(ASUS_CMD_SET_SETTING, p.as_slice())
}

/// The request that sets an LED.
pub fn set_led_request(index: u8, mode: u8, brightness: u8, r: u8, g: u8, b: u8) -> (out: [u8; 64])
    ensures
        out@ == packet(ASUS_CMD_SET_LED, seq![index, 0u8, mode, brightness, r, g, b]),
{
    let p = [index, 0u8, mode, brightness, r, g, b];
    assert(p@ =~= seq![index, 0u8, mode, brightness, r, g, b]);
    build_packet(ASUS_CMD_SET_LED, p.as_slice())
}

/// One item of the plan of a commit.
#[derive(Debug, Clone)]
pub enum SaveItem {
    /// Send this request and read the response.
    Send([u8; 64]),
    /// Give the commit up; the text says why.
    Abort(String),
}

/// The mathematical value of a [`SaveItem`].
pub enum SaveItemModel {
    Send(Seq<u8>),
    Abort(Seq<char>),
}

impl View for SaveItem {
    type V = SaveItemModel;

    open spec fn view(&self) -> SaveItemModel {
        match self {
            SaveItem::Send(b) => SaveItemModel::Send(b@),
            SaveItem::Abort(text) => SaveItemModel::Abort(text@),
        }
    }
}

/// The views of a list of items.
pub open spec fn items_view(v: Seq<SaveItem>) -> Seq<SaveItemModel> {
    Seq::new(v.len(), |i: int| v[i]@)
}

/// The hardware code of the slot of a button of the device state, where
/// the button has a slot that holds a code.
pub open spec fn source_of_button(t: AsusTables, index: u32) -> Option<u8> {
    if index >= 34 {
        None
    } else {
        match t.button_indices@[index as int] {
            Some(flat) => if flat < 34 {
                t.button_mapping@[flat as int]
            } else {
                None
            },
            None => None,
        }
    }
}

/// The table entry that stands for an action on a button with hardware
/// code `src`: for a button of the joystick an entry of the joystick, where
/// there is one.
pub open spec fn entry_for_action(src: u8, action_type: ActionType, value: u32) -> Option<
    AsusButtonEntry,
> {
    let plain = first_entry(
        button_table(),
        |e: AsusButtonEntry| does_action(e, action_type, value, false),
        0,
    );
    if joystick_code(src) {
        match first_entry(
            button_table(),
            |e: AsusButtonEntry| does_action(e, action_type, value, true),
            0,
        ) {
            Some(e) => Some(e),
            None => plain,
        }
    } else {
        plain
    }
}

/// The request that writes the action of a button, where there is one to
/// write: a button without a slot, a key or an action that the device does
/// not know, and a macro are passed over.
pub open spec fn button_item(b: ButtonModel, t: AsusTables) -> Seq<SaveItemModel> {
    match source_of_button(t, b.index) {
        None => Seq::empty(),
        Some(src) => match b.action_type {
            ActionType::NoAction => seq![
                SaveItemModel::Send(
                    packet(
                        ASUS_CMD_SET_BUTTON,
                        seq![
                            0u8,
                            0u8,
                            src,
                            ASUS_ACTION_TYPE_BUTTON,
                            ASUS_BUTTON_CODE_DISABLED,
                            ASUS_ACTION_TYPE_BUTTON,
                        ],
                    ),
                ),
            ],
            ActionType::Key => match asus_key_of(b.mapping_value) {
                Some(key) => seq![
                    SaveItemModel::Send(
                        packet(
                            ASUS_CMD_SET_BUTTON,
                            seq![0u8, 0u8, src, ASUS_ACTION_TYPE_BUTTON, key, ASUS_ACTION_TYPE_KEY],
                        ),
                    ),
                ],
                None => Seq::empty(),
            },
            ActionType::Button | ActionType::Special => match entry_for_action(
                src,
                b.action_type,
                b.mapping_value,
            ) {
                Some(e) => seq![
                    SaveItemModel::Send(
                        packet(
                            ASUS_CMD_SET_BUTTON,
                            seq![
                                0u8,
                                0u8,
                                src,
                                ASUS_ACTION_TYPE_BUTTON,
                                e.asus_code,
                                ASUS_ACTION_TYPE_BUTTON,
                            ],
                        ),
                    ),
                ],
                None => Seq::empty(),
            },
            _ => Seq::empty(),
        },
    }
}

fn plan_button(plan: &mut Vec<SaveItem>, b: &ButtonInfo, t: &AsusTables)
    ensures
        items_view(final(plan)@) == items_view(old(plan)@) + button_item(b@, *t),
{
    let ghost before = items_view(plan@);
    let src: Option<u8> = if b.index >= 34 {
        None
    } else {
        match t.button_indices[b.index as usize] {
            Some(flat) => {
                if flat < 34 {
                    t.button_mapping[flat]
                } else {
                    None
                }
            },
            None => None,
        }
    };
    let request: Option<[u8; 64]> = match src {
        None => None,
        Some(src) => match b.action_type {
            ActionType::NoAction => Some(
                set_button_request(src, ASUS_BUTTON_CODE_DISABLED, ASUS_ACTION_TYPE_BUTTON),
            ),
            ActionType::Key => match find_key_code(b.mapping_value) {
                Some(key) => Some(set_button_request(src, key, ASUS_ACTION_TYPE_KEY)),
                None => None,
            },
            ActionType::Button | ActionType::Special => {
                let plain = find_button_by_action(b.action_type, b.mapping_value, false);
                let entry = if is_joystick_code(src) {
                    match find_button_by_action(b.action_type, b.mapping_value, true) {
                        Some(e) => Some(e),
                        None => plain,
                    }
                } else {
                    plain
                };
                match entry {
                    Some(e) => Some(set_button_request(src, e.asus_code, ASUS_ACTION_TYPE_BUTTON)),
                    None => None,
                }
            },
            _ => None,
        },
    };
    match request {
        Some(r) => {
            plan.push(SaveItem::Send(r));
            assert(items_view(plan@) =~= before + button_item(b@, *t));
        },
        None => {
            assert(before + Seq::<SaveItemModel>::empty() =~= before);
        },
    }
}

/// The requests that write the buttons from `i` on.
pub open spec fn buttons_items(buttons: Seq<ButtonModel>, t: AsusTables, i: int) -> Seq<SaveItemModel>
    decreases buttons.len() - i,
{
    if i < 0 || i >= buttons.len() {
        Seq::empty()
    } else {
        button_item(buttons[i], t) + buttons_items(buttons, t, i + 1)
    }
}

/// The number of DPI presets of a profile, in eight bits; the settings
/// after the presets are numbered from it on.
pub open spec fn preset_count(p: ProfileModel) -> u8 {
    (p.resolutions.len() % 256) as u8
}

/// The sum of two bytes in eight bits.
pub open spec fn add8(a: u8, b: u8) -> u8 {
    ((a + b) % 256) as u8
}

fn wrapping_sum(a: u8, b: u8) -> (r: u8)
    ensures
        r == add8(a, b),
{
    ((a as u16 + b as u16) % 256) as u8
}

/// The requests that write the report rate, angle snapping and the
/// debounce time. A report rate of 0, angle snapping below 0 and a debounce
/// time of 0 or less are not written. A report rate or a debounce time that
/// the device does not know gives the commit up, with a text that says
/// which of the two it was.
pub open spec fn settings_items(p: ProfileModel) -> Seq<SaveItemModel> {
    let n = preset_count(p);
    let rate = if p.report_rate > 0 {
        match index_in(polling_rates(), p.report_rate) {
            Some(idx) => seq![
                SaveItemModel::Send(packet(ASUS_CMD_SET_SETTING, seq![add8(n, 0), 0u8, idx])),
            ],
            None => seq![SaveItemModel::Abort("ASUS: "@ + "unsupported polling rate"@)],
        }
    } else {
        Seq::empty()
    };
    let snapping = if p.angle_snapping >= 0 {
        seq![
            SaveItemModel::Send(
                packet(
                    ASUS_CMD_SET_SETTING,
                    seq![add8(n, 2), 0u8, if p.angle_snapping != 0 { 1u8 } else { 0u8 }],
                ),
            ),
        ]
    } else {
        Seq::empty()
    };
    let debounce = if p.debounce > 0 {
        match index_in(debounce_times(), p.debounce as u32) {
            Some(idx) => seq![
                SaveItemModel::Send(packet(ASUS_CMD_SET_SETTING, seq![add8(n, 1), 0u8, idx])),
            ],
            None => seq![SaveItemModel::Abort("ASUS: "@ + "unsupported debounce time"@)],
        }
    } else {
        Seq::empty()
    };
    rate + snapping + debounce
}

fn plan_settings(plan: &mut Vec<SaveItem>, p: &ProfileInfo)
    ensures
        items_view(final(plan)@) == items_view(old(plan)@) + settings_items(p@),
{
    let ghost before = items_view(plan@);
    let n: u8 = (p.resolutions.len() % 256) as u8;
    if p.report_rate > 0 {
        match polling_rate_index(p.report_rate) {
            Some(idx) => {
                plan.push(SaveItem::Send(set_setting_request(wrapping_sum(n, 0), idx)));
            },
            None => {
                plan.push(SaveItem::Abort(text2("ASUS: ", "unsupported polling rate")));
            },
        }
    }
    if p.angle_snapping >= 0 {
        plan.push(
            SaveItem::Send(
                set_setting_request(
                    wrapping_sum(n, 2),
                    if p.angle_snapping != 0 {
                        1
                    } else {
                        0
                    },
                ),
            ),
        );
    }
    if p.debounce > 0 {
        match debounce_index(p.debounce as u32) {
            Some(idx) => {
                plan.push(SaveItem::Send(set_setting_request(wrapping_sum(n, 1), idx)));
            },
            None => {
                plan.push(SaveItem::Abort(text2("ASUS: ", "unsupported debounce time")));
            },
        }
    }
    assert(items_view(plan@) =~= before + settings_items(p@));
}

/// The request that writes the DPI of a resolution: the value of the X axis
/// where the axes differ; a resolution of unknown DPI is not written.
pub open spec fn resolution_item(r: ResolutionModel, quirks: u32) -> Seq<SaveItemModel> {
    match r.dpi {
        Dpi::Unified(v) => seq![
            SaveItemModel::Send(
                packet(ASUS_CMD_SET_SETTING, seq![low8(r.index), 0u8, stored_of_dpi(v, quirks)]),
            ),
        ],
        Dpi::Separate { x, y } => seq![
            SaveItemModel::Send(
                packet(ASUS_CMD_SET_SETTING, seq![low8(r.index), 0u8, stored_of_dpi(x, quirks)]),
            ),
        ],
        Dpi::Unknown => Seq::empty(),
    }
}

/// The requests that write the resolutions from `i` on.
pub open spec fn resolutions_items(rs: Seq<ResolutionModel>, quirks: u32, i: int) -> Seq<
    SaveItemModel,
>
    decreases rs.len() - i,
{
    if i < 0 || i >= rs.len() {
        Seq::empty()
    } else {
        resolution_item(rs[i], quirks) + resolutions_items(rs, quirks, i + 1)
    }
}

/// The position of a mode in the table of LED modes, from `i` on, or the
/// length of the table.
pub open spec fn mode_position(modes: Seq<LedMode>, mode: LedMode, i: int) -> int
    decreases modes.len() - i,
{
    if 0 <= i < modes.len() && modes[i] != mode {
        mode_position(modes, mode, i + 1)
    } else {
        i
    }
}

/// The mode number of the device for an LED mode: the first that stands
/// for it, and 0 where none does.
pub open spec fn mode_number(modes: Seq<LedMode>, mode: LedMode) -> u8 {
    if mode_position(modes, mode, 0) < modes.len() {
        mode_position(modes, mode, 0) as u8
    } else {
        0
    }
}

/// The request that writes an LED.
pub open spec fn led_item(l: LedModel, t: AsusTables) -> SaveItemModel {
    SaveItemModel::Send(
        packet(
            ASUS_CMD_SET_LED,
            seq![
                low8(l.index),
                0u8,
                mode_number(t.led_modes@, l.mode),
                raw_of_brightness(l.brightness, t.quirks),
                clamp_byte(l.color.red),
                clamp_byte(l.color.green),
                clamp_byte(l.color.blue),
            ],
        ),
    )
}

fn same_mode(a: LedMode, b: LedMode) -> (r: bool)
    ensures
        r == (a == b),
{
    a.code() == b.code()
}

fn plan_led(plan: &mut Vec<SaveItem>, led: &LedInfo, t: &AsusTables)
    ensures
        items_view(final(plan)@) == items_view(old(plan)@).push(led_item(led@, *t)),
{
    let mut m: usize = 0;
    while m < 7 && !same_mode(t.led_modes[m], led.mode)
        invariant
            m <= 7,
            mode_position(t.led_modes@, led.mode, 0) == mode_position(
                t.led_modes@,
                led.mode,
                m as int,
            ),
        decreases 7 - m,
    {
        m += 1;
    }
    let mode: u8 = if m < 7 {
        m as u8
    } else {
        0
    };
    let rgb = led.color.to_rgb();
    plan.push(
        SaveItem::Send(
            set_led_request(
                (led.index % 256) as u8,
                mode,
                brightness_to_asus(led.brightness, t.quirks),
                rgb.r,
                rgb.g,
                rgb.b,
            ),
        ),
    );
    assert(items_view(plan@) =~= items_view(old(plan)@).push(led_item(led@, *t)));
}

/// The requests that write a profile: its buttons, its settings, its
/// resolutions and its LEDs.
pub open spec fn profile_items(p: ProfileModel, t: AsusTables) -> Seq<SaveItemModel> {
    buttons_items(p.buttons, t, 0) + settings_items(p) + resolutions_items(
        p.resolutions,
        t.quirks,
        0,
    ) + Seq::new(p.leds.len(), |i: int| led_item(p.leds[i], t))
}

/// Plans the writing of a profile.
pub fn plan_profile(plan: &mut Vec<SaveItem>, p: &ProfileInfo, t: &AsusTables)
    ensures
        items_view(final(plan)@) == items_view(old(plan)@) + profile_items(p@, *t),
{
    let ghost start = items_view(plan@);
    let mut i: usize = 0;
    while i < p.buttons.len()
        invariant
            i <= p.buttons@.len(),
            items_view(plan@) + buttons_items(p@.buttons, *t, i as int) =~= start + buttons_items(
                p@.buttons,
                *t,
                0,
            ),
        decreases p.buttons@.len() - i,
    {
        assert(p@.buttons[i as int] == p.buttons@[i as int]@);
        let ghost before = items_view(plan@);
        plan_button(plan, &p.buttons[i], t);
        assert(before + (button_item(p@.buttons[i as int], *t) + buttons_items(
            p@.buttons,
            *t,
            i + 1,
        )) =~= (before + button_item(p@.buttons[i as int], *t)) + buttons_items(
            p@.buttons,
            *t,
            i + 1,
        ));
        i += 1;
    }
    assert(items_view(plan@) + Seq::<SaveItemModel>::empty() =~= items_view(plan@));
    let ghost a = start + buttons_items(p@.buttons, *t, 0);
    assert(items_view(plan@) =~= a);
    plan_settings(plan, p);
    let ghost b = a + settings_items(p@);
    assert(items_view(plan@) =~= b);

    let mut j: usize = 0;
    while j < p.resolutions.len()
        invariant
            j <= p.resolutions@.len(),
            items_view(plan@) + resolutions_items(p@.resolutions, t.quirks, j as int) =~= b
                + resolutions_items(p@.resolutions, t.quirks, 0),
        decreases p.resolutions@.len() - j,
    {
        assert(p@.resolutions[j as int] == p.resolutions@[j as int]@);
        let ghost before = items_view(plan@);
        let res = &p.resolutions[j];
        let value: Option<u32> = match res.dpi {
            Dpi::Unified(v) => Some(v),
            Dpi::Separate { x, y } => Some(x),
            Dpi::Unknown => None,
        };
        match value {
            Some(v) => {
                plan.push(
                    SaveItem::Send(
                        set_setting_request((res.index % 256) as u8, dpi_to_stored(v, t.quirks)),
                    ),
                );
                assert(items_view(plan@) =~= before + resolution_item(res@, t.quirks));
            },
            None => {
                assert(before + resolution_item(res@, t.quirks) =~= before);
            },
        }
        assert(before + (resolution_item(res@, t.quirks) + resolutions_items(
            p@.resolutions,
            t.quirks,
            j + 1,
        )) =~= (before + resolution_item(res@, t.quirks)) + resolutions_items(
            p@.resolutions,
            t.quirks,
            j + 1,
        ));
        j += 1;
    }
    assert(items_view(plan@) + Seq::<SaveItemModel>::empty() =~= items_view(plan@));
    let ghost c = b + resolutions_items(p@.resolutions, t.quirks, 0);
    assert(items_view(plan@) =~= c);

    let mut l: usize = 0;
    while l < p.leds.len()
        invariant
            l <= p.leds@.len(),
            items_view(plan@) =~= c + Seq::new(l as nat, |i: int| led_item(p@.leds[i], *t)),
        decreases p.leds@.len() - l,
    {
        assert(p@.leds[l as int] == p.leds@[l as int]@);
        plan_led(plan, &p.leds[l], t);
        l += 1;
    }
    assert(items_view(plan@) =~= start + profile_items(p@, *t));
}

/// The requests that write the profiles from `i` on: each dirty profile is
/// selected, where the device has more than one profile and the profile is
/// not the one that was selected before the commit, then written, and then
/// saved.
pub open spec fn profiles_items(ps: Seq<ProfileModel>, t: AsusTables, initial: u32, i: int) -> Seq<
    SaveItemModel,
>
    decreases ps.len() - i,
{
    if i < 0 || i >= ps.len() {
        Seq::empty()
    } else if ps[i].is_dirty {
        (if ps.len() > 1 && ps[i].index != initial {
            seq![SaveItemModel::Send(packet(ASUS_CMD_SET_PROFILE, seq![low8(ps[i].index)]))]
        } else {
            Seq::empty()
        }) + profile_items(ps[i], t) + seq![
            SaveItemModel::Send(packet(ASUS_CMD_SAVE, Seq::empty())),
        ] + profiles_items(ps, t, initial, i + 1)
    } else {
        profiles_items(ps, t, initial, i + 1)
    }
}

/// Everything that a commit sends once it knows which profile is selected:
/// the dirty profiles, and at the end the selection of the profile that was
/// selected before, where the device has more than one profile.
pub open spec fn save_items(info: DeviceModel, t: AsusTables, initial: u32) -> Seq<SaveItemModel> {
    profiles_items(info.profiles, t, initial, 0) + (if info.profiles.len() > 1 {
        seq![SaveItemModel::Send(packet(ASUS_CMD_SET_PROFILE, seq![low8(initial)]))]
    } else {
        Seq::empty()
    })
}

/// Plans a commit.
pub fn plan_save(info: &DeviceInfo, t: &AsusTables, initial: u32) -> (r: Vec<SaveItem>)
    ensures
        items_view(r@) == save_items(info@, *t, initial),
{
    let mut plan: Vec<SaveItem> = Vec::new();
    assert(items_view(plan@) =~= Seq::<SaveItemModel>::empty());
    let n = info.profiles.len();
    let mut i: usize = 0;
    while i < n
        invariant
            n == info.profiles@.len(),
            i <= n,
            items_view(plan@) + profiles_items(info@.profiles, *t, initial, i as int)
                =~= profiles_items(info@.profiles, *t, initial, 0),
        decreases n - i,
    {
        let p = &info.profiles[i];
        assert(info@.profiles[i as int] == p@);
        let ghost before = items_view(plan@);
        let ghost rest = profiles_items(info@.profiles, *t, initial, i + 1);
        if p.is_dirty {
            if n > 1 && p.index != initial {
                plan.push(SaveItem::Send(set_profile_request(p.index)));
            }
            let ghost select = if n > 1 && p.index != initial {
                seq![SaveItemModel::Send(packet(ASUS_CMD_SET_PROFILE, seq![low8(p.index)]))]
            } else {
                Seq::empty()
            };
            assert(items_view(plan@) =~= before + select);
            plan_profile(&mut plan, p, t);
            plan.push(SaveItem::Send(save_request()));
            let ghost save = seq![SaveItemModel::Send(packet(ASUS_CMD_SAVE, Seq::empty()))];
            assert(items_view(plan@) =~= before + select + profile_items(p@, *t) + save);
            assert(before + (select + profile_items(p@, *t) + save + rest) =~= (before + select
                + profile_items(p@, *t) + save) + rest);
        }
        i += 1;
    }
    assert(items_view(plan@) + Seq::<SaveItemModel>::empty() =~= items_view(plan@));
    if n > 1 {
        plan.push(SaveItem::Send(set_profile_request(initial)));
    }
    assert(items_view(plan@) =~= save_items(info@, *t, initial));
    plan
}

} // verus!
