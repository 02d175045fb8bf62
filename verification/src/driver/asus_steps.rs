//! The ASUS ROG driver, step by step.
//!
//! Every exchange with the device is a query: a request of 64 bytes is
//! written and one response of 64 bytes is read. A response whose status
//! says that the device sleeps fails the query.
//!
//! A wireless mouse may sleep when the daemon starts. The probe and the
//! load then succeed all the same and leave the driver not ready; the next
//! commit reads the device state once more, into a copy, and is given up:
//! a commit after it finds the driver ready.
//!
//! A commit switches a device with several profiles from profile to
//! profile. Where it fails after it has begun to write, the device is put
//! back on the profile that was selected before, and the commit fails with
//! the failure that made it give up.

use vstd::prelude::*;
use crate::device::{DeviceInfo, DeviceModel, Dpi, LedMode, LedModel, ProfileInfo, ProfileModel, leds_view};
use crate::device_database::DriverConfig;
use crate::driver::{
    ActionModel, DeviceDriver, DriverAction, DriverError, DriverEvent, DriverEventModel, ErrorModel, error_text,
};
use crate::driver::asus::{
    bindings_of, build_preset_dpi, debounce_times, dpi_of_preset, leds_of, parse_profile_info,
    polling_rates, profile_info_of, quirk_set, result16, xy_of, AsusBindingData, AsusDpi2Data,
    AsusDpi4Data, AsusDpiXyData, AsusLedData, AsusLedEntry, AsusResolutionResult, AsusResponse,
    ASUS_CMD_GET_BUTTON_DATA, ASUS_CMD_GET_LED_DATA, ASUS_CMD_GET_PROFILE_DATA,
    ASUS_CMD_GET_SETTINGS, ASUS_CMD_SET_PROFILE, ASUS_QUIRK_BUTTONS_SECONDARY,
    ASUS_QUIRK_SEPARATE_LEDS, ASUS_QUIRK_SEPARATE_XY_DPI, ASUS_STATUS_ERROR,
};
use crate::driver::asus_driver::{
    apply_bindings, apply_led, apply_settings, default_led_modes, led_after_entry,
    profile_after_bindings, profile_after_settings, AsusSettings, AsusTables,
};
use crate::driver::asus_save::{
    binding_request, items_view, led_request, packet, plan_save, profile_data_request, save_items,
    set_profile_request, settings_request, SaveItem, SaveItemModel,
};
use crate::driver::hidpp20_driver::text2;
use crate::driver::steelseries_driver::low8;
use crate::text::{hex2_upper, push_hex2, string_of};

verus! {

/// What a query is for.
#[derive(Debug, Clone, Copy, PartialEq, Eq, Structural)]
pub enum Pending {
    /// Probe: what the device says of its profiles.
    Probe,
    /// Load: what the device says of its profiles.
    ProfileData,
    /// Load: the selection of profile `i`.
    Switch { i: usize },
    /// Load: the bindings of the first group.
    Binding0 { i: usize },
    /// Load: the bindings of the second group.
    Binding1 { i: usize },
    /// Load: the settings.
    Settings { i: usize },
    /// Load: the DPI of each axis.
    SettingsXy { i: usize },
    /// Load: all LEDs at once.
    LedBulk { i: usize },
    /// Load: LED `k` alone.
    Led { i: usize, k: usize },
    /// Load: the selection of the profile that was selected before.
    Restore,
    /// Commit: what the device says of its profiles.
    SaveProfileData,
    /// Commit: item `k` of the plan.
    SaveItem { k: usize },
    /// Commit: the selection of the profile that was selected before, after
    /// a failure.
    SaveRestore,
}

/// Where an operation of the driver stands.
#[derive(Debug, Clone, Copy, PartialEq, Eq, Structural)]
pub enum AsusStage {
    Idle,
    /// The request of a query is being written.
    Writing(Pending),
    /// The response of a query is being read.
    Reading(Pending),
}

/// The ASUS ROG driver.
pub struct AsusDriver {
    /// Whether the device has answered a query.
    pub is_ready: bool,
    pub tables: AsusTables,
    pub stage: AsusStage,
    /// The profile that was selected when the operation under way began.
    pub initial_id: u32,
    /// The active DPI preset that the device named.
    pub dpi_preset: Option<u32>,
    /// The bindings of the first group, kept until those of the second
    /// group are read.
    pub binding: Option<AsusBindingData>,
    /// The settings, kept until the DPI of each axis is read.
    pub settings: Option<AsusResolutionResult>,
    /// The plan of the commit under way.
    pub plan: Vec<SaveItem>,
    /// The copy of the device state that a commit reads into while the
    /// driver is not ready.
    pub scratch: Option<DeviceInfo>,
    /// The failure of the commit under way, kept while the device is put
    /// back on the profile that was selected before.
    pub failure: Option<String>,
}

/// How a part of an operation went on.
pub enum Outcome {
    /// The operation goes on with this action.
    Action(DriverAction),
    /// The part is done.
    Finished,
}

/// The status of a response: its first two bytes, low byte first; bytes
/// that the response lacks count as zero.
pub open spec fn status_of(bytes: Seq<u8>) -> u16 {
    crate::driver::asus::le16(
        if bytes.len() > 0 {
            bytes[0]
        } else {
            0
        },
        if bytes.len() > 1 {
            bytes[1]
        } else {
            0
        },
    )
}

/// Whether an event is the response of a device that is awake.
pub open spec fn answers(ev: crate::driver::DriverEventModel) -> bool {
    ev is Data && status_of(ev->Data_0) != ASUS_STATUS_ERROR
}

/// The read of a response.
pub open spec fn response_read() -> ActionModel {
    ActionModel::ReadReport { len: 64, timeout_ms: None }
}

/// The firmware version as the daemon shows it: major, minor and build in
/// two hexadecimal digits each.
pub open spec fn firmware_text(v: (u8, u8, u8)) -> Seq<char> {
    hex2_upper(v.0) + seq!['.'] + hex2_upper(v.1) + seq!['.'] + hex2_upper(v.2)
}

fn firmware_string(v: (u8, u8, u8)) -> (r: String)
    ensures
        r@ == firmware_text(v),
{
    let mut t: Vec<char> = Vec::new();
    push_hex2(&mut t, v.0, true);
    t.push('.');
    push_hex2(&mut t, v.1, true);
    t.push('.');
    push_hex2(&mut t, v.2, true);
    assert(t@ =~= firmware_text(v));
    string_of(&t)
}

fn request_vec(a: [u8; 64]) -> (r: Vec<u8>)
    ensures
        r@ == a@,
{
    let mut v: Vec<u8> = Vec::new();
    let mut i: usize = 0;
    while i < 64
        invariant
            i <= 64,
            v@ == a@.subrange(0, i as int),
        decreases 64 - i,
    {
        v.push(a[i]);
        i += 1;
        assert(v@ =~= a@.subrange(0, i as int));
    }
    assert(a@.subrange(0, 64) =~= a@);
    v
}

fn u32_list(a: &[u32]) -> (r: Vec<u32>)
    ensures
        r@ == a@,
{
    let mut v: Vec<u32> = Vec::new();
    let mut i: usize = 0;
    while i < a.len()
        invariant
            i <= a@.len(),
            v@ == a@.subrange(0, i as int),
        decreases a@.len() - i,
    {
        v.push(a[i]);
        i += 1;
        assert(v@ =~= a@.subrange(0, i as int));
    }
    assert(a@.subrange(0, a@.len() as int) =~= a@);
    v
}

/// A profile with the lists of what the device can do: the polling rates,
/// the debounce times, and for each LED full color and the LED modes of the
/// driver.
pub open spec fn with_capabilities(p: ProfileModel, modes: Seq<LedMode>) -> ProfileModel {
    ProfileModel {
        report_rates: polling_rates(),
        debounces: debounce_times(),
        leds: Seq::new(
            p.leds.len(),
            |j: int| crate::device::LedModel { color_depth: 3, modes, ..p.leds[j] },
        ),
        ..p
    }
}

fn set_capabilities(p: &mut ProfileInfo, modes: &[LedMode; 7])
    ensures
        final(p)@ == with_capabilities(old(p)@, modes@),
{
    let rates = [125u32, 250, 500, 1000];
    let times = [4u32, 8, 12, 16, 20, 24, 28, 32];
    p.report_rates = u32_list(rates.as_slice());
    p.debounces = u32_list(times.as_slice());
    assert(p.report_rates@ =~= polling_rates());
    assert(p.debounces@ =~= debounce_times());
    let ghost want = with_capabilities(old(p)@, modes@);
    let mut j: usize = 0;
    while j < p.leds.len()
        invariant
            j <= p.leds@.len(),
            p.leds@.len() == old(p).leds@.len(),
            want == with_capabilities(old(p)@, modes@),
            forall|k: int| 0 <= k < j ==> (#[trigger] p.leds@[k])@ == want.leds[k],
            forall|k: int| j <= k < p.leds@.len() ==> p.leds@[k] == old(p).leds@[k],
            p.index == old(p).index,
            p.name == old(p).name,
            p.is_active == old(p).is_active,
            p.is_enabled == old(p).is_enabled,
            p.is_dirty == old(p).is_dirty,
            p.report_rate == old(p).report_rate,
            p.report_rates@ == polling_rates(),
            p.angle_snapping == old(p).angle_snapping,
            p.debounce == old(p).debounce,
            p.debounces@ == debounce_times(),
            p.buttons == old(p).buttons,
            p.resolutions == old(p).resolutions,
        decreases p.leds@.len() - j,
    {
        assert(old(p)@.leds[j as int] == old(p).leds@[j as int]@);
        let mut list: Vec<LedMode> = Vec::new();
        let mut m: usize = 0;
        while m < 7
            invariant
                m <= 7,
                list@ == modes@.subrange(0, m as int),
            decreases 7 - m,
        {
            list.push(modes[m]);
            m += 1;
            assert(list@ =~= modes@.subrange(0, m as int));
        }
        assert(modes@.subrange(0, 7) =~= modes@);
        p.leds[j].color_depth = 3;
        p.leds[j].modes = list;
        j += 1;
    }
    assert(leds_view(p.leds@) =~= want.leds);
}

/// What every step of the driver leaves alone in the device state: the
/// identity of the device and the number of its profiles.
pub open spec fn device_kept(before: DeviceModel, after: DeviceModel) -> bool {
    &&& after.sysname == before.sysname
    &&& after.name == before.name
    &&& after.model == before.model
    &&& after.driver_config == before.driver_config
    &&& after.profiles.len() == before.profiles.len()
}

/// A query: the stage in which its request is being written, and the
/// write of the request.
pub struct Ask {
    pub stage: AsusStage,
    pub action: ActionModel,
}

/// The query for `what` with the request of a command and its parameters.
pub open spec fn ask(what: Pending, cmd: u16, params: Seq<u8>) -> Ask {
    Ask { stage: AsusStage::Writing(what), action: ActionModel::WriteReport(packet(cmd, params)) }
}

/// How a load goes on: with the next query, or with none where everything
/// was read; and the profiles of the device state.
pub struct Path {
    pub next: Option<Ask>,
    pub profiles: Seq<ProfileModel>,
}

/// What is left to read, from profile `i` and step `step` on (0: selecting
/// the profile, 1: its bindings, 3: its settings, 5: its LEDs).
///
/// A profile that is not the one that the device had selected is selected
/// first, and counts as not active; the other one counts as active. The
/// bindings of the first group are asked for, then the settings, then the
/// LEDs where the profile has any: all at once, or the first one with the
/// quirk of separate LEDs. After the last profile the profile that the
/// device had selected is selected again, where the device has more than
/// one.
pub open spec fn load_from(t: AsusTables, initial: u32, ps: Seq<ProfileModel>, i: int, step: int) -> Path
    decreases ps.len() - i,
{
    if i < 0 || i >= ps.len() {
        Path {
            next: if ps.len() > 1 {
                Some(ask(Pending::Restore, ASUS_CMD_SET_PROFILE, seq![low8(initial)]))
            } else {
                None
            },
            profiles: ps,
        }
    } else if step == 0 && ps[i].index != initial {
        Path {
            next: Some(
                ask(
                    Pending::Switch { i: i as usize },
                    ASUS_CMD_SET_PROFILE,
                    seq![low8(ps[i].index)],
                ),
            ),
            profiles: ps.update(i, ProfileModel { is_active: false, ..ps[i] }),
        }
    } else if step <= 1 {
        Path {
            next: Some(ask(Pending::Binding0 { i: i as usize }, ASUS_CMD_GET_BUTTON_DATA, seq![0u8])),
            profiles: if step == 0 {
                ps.update(i, ProfileModel { is_active: true, ..ps[i] })
            } else {
                ps
            },
        }
    } else if step <= 3 {
        Path {
            next: Some(ask(Pending::Settings { i: i as usize }, ASUS_CMD_GET_SETTINGS, seq![0u8])),
            profiles: ps,
        }
    } else if ps[i].leds.len() > 0 && step <= 5 {
        Path {
            next: Some(
                if quirk_set(t.quirks, ASUS_QUIRK_SEPARATE_LEDS) {
                    ask(
                        Pending::Led { i: i as usize, k: 0 },
                        ASUS_CMD_GET_LED_DATA,
                        seq![low8(ps[i].leds[0].index)],
                    )
                } else {
                    ask(Pending::LedBulk { i: i as usize }, ASUS_CMD_GET_LED_DATA, seq![0u8])
                },
            ),
            profiles: ps,
        }
    } else {
        load_from(t, initial, ps, i + 1, 0)
    }
}

/// How a step of a load comes out.
pub enum Loaded {
    /// The load goes on with this query, or with the read of a response.
    Goes(Ask),
    /// Everything was read.
    Finished,
    /// The query failed.
    Fails,
}

/// What a step of a load comes to: how it comes out, and what the device
/// state and the driver hold after it.
pub struct LoadRead {
    pub out: Loaded,
    pub profiles: Seq<ProfileModel>,
    pub firmware: Seq<char>,
    pub initial_id: u32,
    pub dpi_preset: Option<u32>,
}

/// A step that goes on along a path.
pub open spec fn along(base: LoadRead, path: Path) -> LoadRead {
    LoadRead {
        out: match path.next {
            Some(a) => Loaded::Goes(a),
            None => Loaded::Finished,
        },
        profiles: path.profiles,
        ..base
    }
}

/// The profiles with the one at position `i` replaced, where there is one.
pub open spec fn with_profile(ps: Seq<ProfileModel>, i: int, p: ProfileModel) -> Seq<ProfileModel> {
    if 0 <= i < ps.len() {
        ps.update(i, p)
    } else {
        ps
    }
}

/// The settings that a response holds, for a device with two presets or
/// with four: 16-bit values from result 2 on, the presets first, then the
/// index of the polling rate, the index of the debounce time and angle
/// snapping.
pub open spec fn settings_of(
    buf: Seq<u8>,
    four: bool,
    xy: Option<Seq<(u16, u16)>>,
    preset: Option<u32>,
) -> AsusSettings {
    if four {
        AsusSettings {
            dpis: seq![result16(buf, 2), result16(buf, 4), result16(buf, 6), result16(buf, 8)],
            rate_idx: result16(buf, 10),
            response_idx: result16(buf, 12),
            snapping: result16(buf, 14),
            xy,
            dpi_preset: preset,
        }
    } else {
        AsusSettings {
            dpis: seq![result16(buf, 2), result16(buf, 4)],
            rate_idx: result16(buf, 6),
            response_idx: result16(buf, 8),
            snapping: result16(buf, 10),
            xy,
            dpi_preset: preset,
        }
    }
}

/// The settings that the driver keeps until the DPI of each axis is read.
pub open spec fn settings_kept(
    res: AsusResolutionResult,
    xy: Option<Seq<(u16, u16)>>,
    preset: Option<u32>,
) -> Option<AsusSettings> {
    match res {
        AsusResolutionResult::Dpi2(d) => Some(
            AsusSettings {
                dpis: d.dpi@,
                rate_idx: d.rate_idx,
                response_idx: d.response_idx,
                snapping: d.snapping,
                xy,
                dpi_preset: preset,
            },
        ),
        AsusResolutionResult::Dpi4(d) => Some(
            AsusSettings {
                dpis: d.dpi@,
                rate_idx: d.rate_idx,
                response_idx: d.response_idx,
                snapping: d.snapping,
                xy,
                dpi_preset: preset,
            },
        ),
        AsusResolutionResult::Xy(_) => None,
    }
}

/// Whether the settings of profile `i` are read as those of a device with
/// four presets: where the profile has more than two resolutions.
pub open spec fn four_presets(ps: Seq<ProfileModel>, i: int) -> bool {
    0 <= i < ps.len() && ps[i].resolutions.len() > 2
}

/// What the device stores of an LED that it does not report.
pub open spec fn no_led() -> AsusLedEntry {
    AsusLedEntry { mode: 0, brightness: 0, r: 0, g: 0, b: 0 }
}

/// The LEDs of a profile after the response that holds all of them: each
/// LED takes the entry at its index, where the response has one.
pub open spec fn leds_after_bulk(leds: Seq<LedModel>, buf: Seq<u8>, t: AsusTables) -> Seq<LedModel> {
    Seq::new(
        leds.len(),
        |k: int|
            led_after_entry(
                leds[k],
                if leds[k].index < 3 {
                    leds_of(buf)[leds[k].index as int]
                } else {
                    no_led()
                },
                t,
            ),
    )
}

/// What the response to a query of a load does.
///
/// What the device says of its profiles gives the firmware version, the
/// profile that is selected (profile 0 on a device with one profile) and
/// the active DPI preset; the load then turns to the first profile. The
/// bindings go to the buttons of the profile, with those of the second
/// group where the device has one; the settings go to the profile and its
/// resolutions, with the DPI of each axis where the device states it; what
/// the device stores of its LEDs goes to the LEDs of the profile. After
/// each of them the load goes on with what is left.
pub open spec fn load_answer(pre: AsusDriver, before: DeviceModel, what: Pending, buf: Seq<u8>) -> LoadRead {
    let t = pre.tables;
    let ps = before.profiles;
    let base = LoadRead {
        out: Loaded::Finished,
        profiles: ps,
        firmware: before.firmware_version,
        initial_id: pre.initial_id,
        dpi_preset: pre.dpi_preset,
    };
    match what {
        Pending::ProfileData => {
            let said = profile_info_of(buf, t.quirks);
            let initial = if ps.len() > 1 {
                said.profile_id
            } else {
                0
            };
            along(
                LoadRead {
                    firmware: firmware_text(said.firmware_primary),
                    initial_id: initial,
                    dpi_preset: said.dpi_preset,
                    ..base
                },
                load_from(t, initial, ps, 0, 0),
            )
        },
        Pending::Switch { i } => along(base, load_from(t, pre.initial_id, ps, i as int, 1)),
        Pending::Binding0 { i } => if quirk_set(t.quirks, ASUS_QUIRK_BUTTONS_SECONDARY) {
            LoadRead {
                out: Loaded::Goes(ask(Pending::Binding1 { i }, ASUS_CMD_GET_BUTTON_DATA, seq![1u8])),
                ..base
            }
        } else {
            along(
                base,
                load_from(
                    t,
                    pre.initial_id,
                    with_profile(
                        ps,
                        i as int,
                        profile_after_bindings(ps[i as int], t, bindings_of(buf), None),
                    ),
                    i as int,
                    3,
                ),
            )
        },
        Pending::Binding1 { i } => along(
            base,
            load_from(
                t,
                pre.initial_id,
                match pre.binding {
                    Some(first) => with_profile(
                        ps,
                        i as int,
                        profile_after_bindings(
                            ps[i as int],
                            t,
                            first.bindings@,
                            Some(bindings_of(buf)),
                        ),
                    ),
                    None => ps,
                },
                i as int,
                3,
            ),
        ),
        Pending::Settings { i } => if quirk_set(t.quirks, ASUS_QUIRK_SEPARATE_XY_DPI) {
            LoadRead {
                out: Loaded::Goes(ask(Pending::SettingsXy { i }, ASUS_CMD_GET_SETTINGS, seq![2u8])),
                ..base
            }
        } else {
            along(
                base,
                load_from(
                    t,
                    pre.initial_id,
                    with_profile(
                        ps,
                        i as int,
                        profile_after_settings(
                            ps[i as int],
                            settings_of(buf, four_presets(ps, i as int), None, pre.dpi_preset),
                            t.quirks,
                        ),
                    ),
                    i as int,
                    5,
                ),
            )
        },
        Pending::SettingsXy { i } => along(
            base,
            load_from(
                t,
                pre.initial_id,
                match pre.settings {
                    Some(res) => match settings_kept(res, Some(xy_of(buf)), pre.dpi_preset) {
                        Some(s) => with_profile(
                            ps,
                            i as int,
                            profile_after_settings(ps[i as int], s, t.quirks),
                        ),
                        None => ps,
                    },
                    None => ps,
                },
                i as int,
                5,
            ),
        ),
        Pending::LedBulk { i } => along(
            base,
            load_from(
                t,
                pre.initial_id,
                with_profile(
                    ps,
                    i as int,
                    ProfileModel {
                        leds: leds_after_bulk(ps[i as int].leds, buf, t),
                        ..ps[i as int]
                    },
                ),
                i + 1,
                0,
            ),
        ),
        Pending::Led { i, k } => if i < ps.len() && k < ps[i as int].leds.len() {
            let leds = ps[i as int].leds;
            let qs = ps.update(
                i as int,
                ProfileModel {
                    leds: leds.update(k as int, led_after_entry(leds[k as int], leds_of(buf)[0], t)),
                    ..ps[i as int]
                },
            );
            if k + 1 < leds.len() {
                LoadRead {
                    out: Loaded::Goes(
                        ask(
                            Pending::Led { i, k: (k + 1) as usize },
                            ASUS_CMD_GET_LED_DATA,
                            seq![low8(leds[k + 1].index)],
                        ),
                    ),
                    profiles: qs,
                    ..base
                }
            } else {
                along(base, load_from(t, pre.initial_id, qs, i + 1, 0))
            }
        } else {
            along(base, load_from(t, pre.initial_id, ps, i + 1, 0))
        },
        _ => base,
    }
}

/// What the driver keeps from a response for the step after it: the
/// bindings of the first group where those of the second group are asked
/// for, and the settings where the DPI of each axis is asked for.
pub open spec fn answer_kept(pre: AsusDriver, ps: Seq<ProfileModel>, what: Pending, buf: Seq<u8>, post: AsusDriver) -> bool {
    match what {
        Pending::Binding0 { i } => post.settings == pre.settings && if quirk_set(
            pre.tables.quirks,
            ASUS_QUIRK_BUTTONS_SECONDARY,
        ) {
            post.binding is Some && post.binding->0.bindings@ == bindings_of(buf)
        } else {
            post.binding == pre.binding
        },
        Pending::Settings { i } => post.binding == pre.binding && if quirk_set(
            pre.tables.quirks,
            ASUS_QUIRK_SEPARATE_XY_DPI,
        ) {
            post.settings is Some && settings_kept(post.settings->0, None, None) == Some(
                settings_of(buf, four_presets(ps, i as int), None, None),
            )
        } else {
            post.settings == pre.settings
        },
        _ => post.binding == pre.binding && post.settings == pre.settings,
    }
}

/// The 64 bytes of a response: the bytes that were read, zero-padded or
/// cut.
pub open spec fn response_bytes(bytes: Seq<u8>) -> Seq<u8> {
    Seq::new(
        64,
        |i: int|
            if i < bytes.len() {
                bytes[i]
            } else {
                0u8
            },
    )
}

/// What a step of a load does in a stage, given the event: the request of
/// a query that was written is followed by the read of its response; the
/// response of a device that is awake is taken; anything else fails the
/// query.
pub open spec fn load_read(pre: AsusDriver, stage: AsusStage, before: DeviceModel, ev: DriverEventModel) -> LoadRead {
    let base = LoadRead {
        out: Loaded::Fails,
        profiles: before.profiles,
        firmware: before.firmware_version,
        initial_id: pre.initial_id,
        dpi_preset: pre.dpi_preset,
    };
    match (stage, ev) {
        (AsusStage::Writing(what), DriverEventModel::Completed) => LoadRead {
            out: Loaded::Goes(Ask { stage: AsusStage::Reading(what), action: response_read() }),
            ..base
        },
        (AsusStage::Reading(what), DriverEventModel::Data(bytes)) => if answers(ev) {
            load_answer(pre, before, what, response_bytes(bytes))
        } else {
            base
        },
        _ => base,
    }
}

/// What the driver keeps from the event of a step of a load.
pub open spec fn read_kept(pre: AsusDriver, stage: AsusStage, ps: Seq<ProfileModel>, ev: DriverEventModel, post: AsusDriver) -> bool {
    match (stage, ev) {
        (AsusStage::Reading(what), DriverEventModel::Data(bytes)) => if answers(ev) {
            answer_kept(pre, ps, what, response_bytes(bytes), post)
        } else {
            post.binding == pre.binding && post.settings == pre.settings
        },
        _ => post.binding == pre.binding && post.settings == pre.settings,
    }
}

/// What a step of a load does, given the driver and the device state before
/// and after it, the event and the action.
///
/// The first step takes the tables of the catalog entry and gives every
/// profile the lists of what the device can do; the device is then asked
/// what it says of its profiles. Every further step goes on as
/// [`load_read`] says. The load never fails: where a query fails, the load
/// ends, the device state stays as far as it was read, and the driver is
/// not ready; where everything was read the driver is ready.
pub open spec fn load_post(
    pre: AsusDriver,
    before: DeviceModel,
    ev: DriverEventModel,
    post: AsusDriver,
    after: DeviceModel,
    r: ActionModel,
) -> bool {
    &&& device_kept(before, after)
    &&& post.plan == pre.plan
    &&& post.scratch == pre.scratch
    &&& match ev {
        DriverEventModel::Start => {
            &&& post.tables.of_config(before.driver_config)
            &&& post.is_ready == pre.is_ready
            &&& post.initial_id == pre.initial_id
            &&& post.dpi_preset == pre.dpi_preset
            &&& post.binding == pre.binding
            &&& post.settings == pre.settings
            &&& post.stage == AsusStage::Writing(Pending::ProfileData)
            &&& r == ActionModel::WriteReport(packet(ASUS_CMD_GET_PROFILE_DATA, Seq::empty()))
            &&& after.firmware_version == before.firmware_version
            &&& after.profiles == Seq::new(
                before.profiles.len(),
                |i: int| with_capabilities(before.profiles[i], post.tables.led_modes@),
            )
        },
        _ => {
            let x = load_read(pre, pre.stage, before, ev);
            &&& post.tables == pre.tables
            &&& after.profiles == x.profiles
            &&& after.firmware_version == x.firmware
            &&& post.initial_id == x.initial_id
            &&& post.dpi_preset == x.dpi_preset
            &&& read_kept(pre, pre.stage, before.profiles, ev, post)
            &&& match x.out {
                Loaded::Goes(a) => r == a.action && post.stage == a.stage && post.is_ready
                    == pre.is_ready,
                Loaded::Finished => r is Done && post.stage == AsusStage::Idle && post.is_ready,
                Loaded::Fails => r is Done && post.stage == AsusStage::Idle && !post.is_ready,
            }
        },
    }
}

/// How a commit that has begun to write gives up. On a device with more
/// than one profile the device is first put back on the profile that was
/// selected before, and the failure is kept for the end of the commit; on
/// any other device the commit fails at once.
pub open spec fn gave_up(many: bool, initial: u32, post: AsusDriver, r: ActionModel) -> bool {
    if many {
        &&& r == ActionModel::WriteReport(packet(ASUS_CMD_SET_PROFILE, seq![low8(initial)]))
        &&& post.stage == AsusStage::Writing(Pending::SaveRestore)
        &&& post.failure is Some
    } else {
        r is Failed && post.stage == AsusStage::Idle
    }
}

/// Whether a commit gave up with the failure `text`: it gave up as
/// [`gave_up`] says, and the failure that is kept, or that the commit
/// fails with at once, is `text`.
pub open spec fn gave_up_with(
    many: bool,
    initial: u32,
    post: AsusDriver,
    r: ActionModel,
    text: Seq<char>,
) -> bool {
    &&& gave_up(many, initial, post, r)
    &&& if many {
        post.failure->0@ == text
    } else {
        r == ActionModel::Failed(text)
    }
}

/// Whether a commit went on with item `k` of its plan: the request of the
/// item is written; at an item that gives the commit up the commit gives
/// up with the text of the item; after the last item the commit is done.
pub open spec fn sent(
    post: AsusDriver,
    r: ActionModel,
    items: Seq<SaveItemModel>,
    k: int,
    many: bool,
    initial: u32,
) -> bool {
    if 0 <= k < items.len() {
        match items[k] {
            SaveItemModel::Send(bytes) => r == ActionModel::WriteReport(bytes) && post.stage
                == AsusStage::Writing(Pending::SaveItem { k: k as usize }),
            SaveItemModel::Abort(text) => gave_up_with(many, initial, post, r, text),
        }
    } else {
        r is Done && post.stage == AsusStage::Idle
    }
}

/// What a step of a commit does on a driver that is not ready: the device
/// state is read once more, into the copy that the driver keeps, as
/// [`load_read`] says. Whether that reload comes to its end or fails, the
/// commit fails; where it came to its end the driver is ready from then
/// on.
pub open spec fn reloaded(
    pre: AsusDriver,
    stage: AsusStage,
    ev: DriverEventModel,
    post: AsusDriver,
    r: ActionModel,
) -> bool {
    match pre.scratch {
        Some(copy) => {
            let x = load_read(pre, stage, copy@, ev);
            &&& post.initial_id == x.initial_id
            &&& post.dpi_preset == x.dpi_preset
            &&& read_kept(pre, stage, copy@.profiles, ev, post)
            &&& match x.out {
                Loaded::Goes(a) => {
                    &&& r == a.action
                    &&& post.stage == a.stage
                    &&& !post.is_ready
                    &&& post.scratch is Some
                    &&& device_kept(copy@, post.scratch->0@)
                    &&& post.scratch->0@.profiles == x.profiles
                    &&& post.scratch->0@.firmware_version == x.firmware
                },
                Loaded::Finished => r == ActionModel::Failed(
                    "ASUS: device was not ready; "@ + "commit aborted after recovery reload"@,
                ) && post.stage == AsusStage::Idle && post.is_ready,
                Loaded::Fails => r == ActionModel::Failed(
                    "ASUS: device not ready and recovery failed; "@ + "commit aborted"@,
                ) && post.stage == AsusStage::Idle && !post.is_ready,
            }
        },
        None => r == ActionModel::Failed("ASUS commit: "@ + "unexpected event"@) && post.stage
            == AsusStage::Idle && !post.is_ready,
    }
}

/// What a step of a commit does on a driver that is ready. The response
/// that says which profile is selected is followed by the plan of the
/// commit and its first item; the response to the request of an item is
/// followed by the next item. A query for the selected profile that fails
/// fails the commit at once. Once the commit has begun to write, a request
/// that cannot be written and a query that fails make the commit give up
/// as [`gave_up`] says; the commit then fails with that failure, whatever
/// became of putting the device back.
pub open spec fn written(
    pre: AsusDriver,
    stage: AsusStage,
    info: DeviceModel,
    ev: DriverEventModel,
    post: AsusDriver,
    r: ActionModel,
) -> bool {
    let many = info.profiles.len() > 1;
    let fails = r == ActionModel::Failed(query_failure(ev)) && post.stage == AsusStage::Idle
        && post.plan == pre.plan && post.initial_id == pre.initial_id;
    match stage {
        AsusStage::Reading(Pending::SaveProfileData) => if answers(ev) {
            let said = profile_info_of(response_bytes(ev->Data_0), pre.tables.quirks);
            &&& post.initial_id == said.profile_id
            &&& items_view(post.plan@) == save_items(info, pre.tables, said.profile_id)
            &&& sent(post, r, items_view(post.plan@), 0, many, said.profile_id)
        } else {
            fails
        },
        AsusStage::Reading(Pending::SaveItem { k }) => {
            &&& post.plan == pre.plan
            &&& post.initial_id == pre.initial_id
            &&& if answers(ev) {
                sent(post, r, items_view(pre.plan@), k + 1, many, pre.initial_id)
            } else {
                gave_up_with(many, pre.initial_id, post, r, query_failure(ev))
            }
        },
        AsusStage::Writing(Pending::SaveItem { k }) => {
            &&& post.plan == pre.plan
            &&& post.initial_id == pre.initial_id
            &&& gave_up_with(many, pre.initial_id, post, r, query_failure(ev))
        },
        AsusStage::Writing(Pending::SaveRestore) | AsusStage::Reading(Pending::SaveRestore) => {
            &&& post.plan == pre.plan
            &&& post.initial_id == pre.initial_id
            &&& post.stage == AsusStage::Idle
            &&& match pre.failure {
                Some(e) => r == ActionModel::Failed(e@),
                None => r == ActionModel::Failed(query_failure(ev)),
            }
        },
        _ => fails,
    }
}

/// What a step of a commit does, given the driver before and after it, the
/// device state, the event and the action.
///
/// A driver that is not ready copies the device state and reads the device
/// once more into the copy; that commit fails, whether the reload
/// succeeded or not. A driver that is ready asks the device which profile
/// is selected, where the device has more than one, plans the commit and
/// sends the requests of the plan one after the other, reading the
/// response to each; where that fails the commit gives up as [`gave_up`]
/// says. A device state without profiles commits at once.
pub open spec fn commit_post(
    pre: AsusDriver,
    info: DeviceModel,
    ev: DriverEventModel,
    post: AsusDriver,
    r: ActionModel,
) -> bool {
    &&& post.tables == pre.tables
    &&& match ev {
        DriverEventModel::Start => if !pre.is_ready {
            &&& !post.is_ready
            &&& post.plan == pre.plan
            &&& post.scratch is Some
            &&& post.scratch->0@ == info
            &&& post.stage == AsusStage::Writing(Pending::ProfileData)
            &&& r == ActionModel::WriteReport(packet(ASUS_CMD_GET_PROFILE_DATA, Seq::empty()))
        } else {
            &&& post.is_ready
            &&& post.scratch is None
            &&& if info.profiles.len() == 0 {
                r is Done && post.stage == AsusStage::Idle && post.plan == pre.plan
            } else if info.profiles.len() > 1 {
                &&& post.plan == pre.plan
                &&& post.stage == AsusStage::Writing(Pending::SaveProfileData)
                &&& r == ActionModel::WriteReport(packet(ASUS_CMD_GET_PROFILE_DATA, Seq::empty()))
            } else {
                &&& post.initial_id == 0
                &&& items_view(post.plan@) == save_items(info, pre.tables, 0)
                &&& sent(post, r, items_view(post.plan@), 0, false, 0)
            }
        },
        DriverEventModel::Completed => {
            &&& post.is_ready == pre.is_ready
            &&& post.plan == pre.plan
            &&& post.scratch == pre.scratch
            &&& match pre.stage {
                AsusStage::Writing(what) => r == response_read() && post.stage
                    == AsusStage::Reading(what),
                _ => r == ActionModel::Failed("ASUS commit: "@ + "unexpected event"@)
                    && post.stage == AsusStage::Idle,
            }
        },
        _ => if !pre.is_ready {
            post.plan == pre.plan && reloaded(pre, pre.stage, ev, post, r)
        } else {
            post.is_ready && post.scratch == pre.scratch && written(
                pre,
                pre.stage,
                info,
                ev,
                post,
                r,
            )
        },
    }
}

/// Why a query failed, in words. A response that cannot be used is shown
/// as a protocol error with its first two bytes; a failure of the transport
/// is shown as it is; any other event was not expected.
pub open spec fn query_failure(ev: DriverEventModel) -> Seq<char> {
    match ev {
        DriverEventModel::Data(bytes) => error_text(
            ErrorModel::ProtocolError {
                sub_id: response_bytes(bytes)[0],
                error: response_bytes(bytes)[1],
            },
        ),
        DriverEventModel::Failed(e) => error_text(e),
        _ => "ASUS: "@ + "unexpected event"@,
    }
}

/// What every step leaves alone in the driver where it only goes on along
/// the path of a load.
pub open spec fn state_kept(pre: AsusDriver, post: AsusDriver) -> bool {
    &&& post.is_ready == pre.is_ready
    &&& post.tables == pre.tables
    &&& post.plan == pre.plan
    &&& post.scratch == pre.scratch
    &&& post.initial_id == pre.initial_id
    &&& post.dpi_preset == pre.dpi_preset
    &&& post.binding == pre.binding
    &&& post.settings == pre.settings
    &&& post.failure == pre.failure
}

/// Whether a part of a load went on along a path.
pub open spec fn follows(post: AsusDriver, after: DeviceModel, r: Outcome, path: Path) -> bool {
    after.profiles == path.profiles && match path.next {
        Some(a) => r is Action && r->Action_0@ == a.action && post.stage == a.stage,
        None => r is Finished,
    }
}

/// Whether the response to a query of a load was taken as [`load_answer`]
/// says.
pub open spec fn answered(
    pre: AsusDriver,
    before: DeviceModel,
    what: Pending,
    buf: Seq<u8>,
    post: AsusDriver,
    after: DeviceModel,
    r: Outcome,
) -> bool {
    let x = load_answer(pre, before, what, buf);
    &&& device_kept(before, after)
    &&& post.is_ready == pre.is_ready
    &&& post.tables == pre.tables
    &&& post.plan == pre.plan
    &&& post.scratch == pre.scratch
    &&& after.profiles == x.profiles
    &&& after.firmware_version == x.firmware
    &&& post.initial_id == x.initial_id
    &&& post.dpi_preset == x.dpi_preset
    &&& answer_kept(pre, before.profiles, what, buf, post)
    &&& match x.out {
        Loaded::Goes(a) => r is Action && r->Action_0@ == a.action && post.stage == a.stage,
        Loaded::Finished => r is Finished,
        Loaded::Fails => false,
    }
}

/// Whatever is left to read, the load goes on with the write of the request
/// of a query of the load, and leaves the number of profiles as it is.
pub proof fn lemma_load_from_writes(t: AsusTables, initial: u32, ps: Seq<ProfileModel>, i: int, step: int)
    ensures
        load_from(t, initial, ps, i, step).profiles.len() == ps.len(),
        match load_from(t, initial, ps, i, step).next {
            Some(a) => a.action is WriteReport && a.stage is Writing && !(a.stage->Writing_0
                is SaveItem),
            None => true,
        },
    decreases ps.len() - i,
{
    if 0 <= i < ps.len() && !(step == 0 && ps[i].index != initial) && step > 3 && !(ps[i].leds.len()
        > 0 && step <= 5) {
        lemma_load_from_writes(t, initial, ps, i + 1, 0);
    }
}

/// The response to a query of a load is followed by the write of the
/// request of another query of the load, or by the end of the load.
pub proof fn lemma_load_answer_writes(pre: AsusDriver, before: DeviceModel, what: Pending, buf: Seq<u8>)
    ensures
        match load_answer(pre, before, what, buf).out {
            Loaded::Goes(a) => a.action is WriteReport && a.stage is Writing && !(a.stage->Writing_0
                is SaveItem),
            Loaded::Finished => true,
            Loaded::Fails => false,
        },
{
    let t = pre.tables;
    let ps = before.profiles;
    match what {
        Pending::ProfileData => {
            let said = profile_info_of(buf, t.quirks);
            let initial = if ps.len() > 1 {
                said.profile_id
            } else {
                0
            };
            lemma_load_from_writes(t, initial, ps, 0, 0);
        },
        Pending::Switch { i } => {
            lemma_load_from_writes(t, pre.initial_id, ps, i as int, 1);
        },
        Pending::Binding0 { i } => {
            lemma_load_from_writes(
                t,
                pre.initial_id,
                with_profile(
                    ps,
                    i as int,
                    profile_after_bindings(ps[i as int], t, bindings_of(buf), None),
                ),
                i as int,
                3,
            );
        },
        Pending::Binding1 { i } => {
            let qs = match pre.binding {
                Some(first) => with_profile(
                    ps,
                    i as int,
                    profile_after_bindings(ps[i as int], t, first.bindings@, Some(bindings_of(buf))),
                ),
                None => ps,
            };
            lemma_load_from_writes(t, pre.initial_id, qs, i as int, 3);
        },
        Pending::Settings { i } => {
            lemma_load_from_writes(
                t,
                pre.initial_id,
                with_profile(
                    ps,
                    i as int,
                    profile_after_settings(
                        ps[i as int],
                        settings_of(buf, four_presets(ps, i as int), None, pre.dpi_preset),
                        t.quirks,
                    ),
                ),
                i as int,
                5,
            );
        },
        Pending::SettingsXy { i } => {
            let qs = match pre.settings {
                Some(res) => match settings_kept(res, Some(xy_of(buf)), pre.dpi_preset) {
                    Some(s) => with_profile(
                        ps,
                        i as int,
                        profile_after_settings(ps[i as int], s, t.quirks),
                    ),
                    None => ps,
                },
                None => ps,
            };
            lemma_load_from_writes(t, pre.initial_id, qs, i as int, 5);
        },
        Pending::LedBulk { i } => {
            lemma_load_from_writes(
                t,
                pre.initial_id,
                with_profile(
                    ps,
                    i as int,
                    ProfileModel {
                        leds: leds_after_bulk(ps[i as int].leds, buf, t),
                        ..ps[i as int]
                    },
                ),
                i + 1,
                0,
            );
        },
        Pending::Led { i, k } => {
            if i < ps.len() && k < ps[i as int].leds.len() {
                let leds = ps[i as int].leds;
                let qs = ps.update(
                    i as int,
                    ProfileModel {
                        leds: leds.update(
                            k as int,
                            led_after_entry(leds[k as int], leds_of(buf)[0], t),
                        ),
                        ..ps[i as int]
                    },
                );
                lemma_load_from_writes(t, pre.initial_id, qs, i + 1, 0);
            } else {
                lemma_load_from_writes(t, pre.initial_id, ps, i + 1, 0);
            }
        },
        _ => {},
    }
}

/// A commit on a driver that is not ready never succeeds and writes no
/// item of a plan: the device is read anew, and what was to be written
/// waits for the commit after it.
pub proof fn lemma_not_ready_never_commits(
    pre: AsusDriver,
    info: DeviceModel,
    ev: DriverEventModel,
    post: AsusDriver,
    r: ActionModel,
)
    requires
        commit_post(pre, info, ev, post, r),
        !pre.is_ready,
    ensures
        !(r is Done),
        !(r is WriteReport && post.stage is Writing && post.stage->Writing_0 is SaveItem),
{
    match (pre.scratch, pre.stage, ev) {
        (Some(copy), AsusStage::Reading(what), DriverEventModel::Data(bytes)) => {
            lemma_load_answer_writes(pre, copy@, what, response_bytes(bytes));
        },
        _ => {},
    }
}

/// A commit to a device with more than one profile that has begun to write
/// never fails while the device may be on another profile than before: a
/// request that cannot be written, and a query that fails, are followed by
/// the request that puts the device back on the profile that was selected
/// before the commit.
pub proof fn lemma_failed_commit_restores(
    pre: AsusDriver,
    info: DeviceModel,
    ev: DriverEventModel,
    post: AsusDriver,
    r: ActionModel,
)
    requires
        commit_post(pre, info, ev, post, r),
        pre.is_ready,
        info.profiles.len() > 1,
        !(ev is Start),
        // The event is one that the transport gives: a read is not
        // answered as a write is.
        match pre.stage {
            AsusStage::Writing(what) => what is SaveItem,
            AsusStage::Reading(what) => what is SaveItem && !(ev is Completed),
            _ => false,
        },
    ensures
        !(r is Failed),
        r is Done || r == response_read() || r is WriteReport,
        post.stage == AsusStage::Writing(Pending::SaveRestore) ==> r == ActionModel::WriteReport(
            packet(ASUS_CMD_SET_PROFILE, seq![low8(pre.initial_id)]),
        ),
{
}

/// What a step of the probe does, given the driver before and after it,
/// the event and the action.
pub open spec fn probe_post(
    pre: AsusDriver,
    ev: DriverEventModel,
    post: AsusDriver,
    r: ActionModel,
) -> bool {
    &&& (!(r is Failed))
    &&& (post.tables == pre.tables)
    &&& (ev is Start ==> r == ActionModel::WriteReport(
        packet(ASUS_CMD_GET_PROFILE_DATA, Seq::empty()),
        ) && post.stage == AsusStage::Writing(Pending::Probe))
    &&& (!(ev is Start) && pre.stage == AsusStage::Writing(Pending::Probe)
        && ev is Completed ==> r == response_read() && post.stage
        == AsusStage::Reading(Pending::Probe))
    &&& (!(ev is Start) && !(pre.stage == AsusStage::Writing(Pending::Probe)
        && ev is Completed) ==> r is Done && post.stage == AsusStage::Idle)
    &&& (!(ev is Start) && !(ev is Completed) && pre.stage == AsusStage::Reading(
        Pending::Probe,
        ) ==> post.is_ready == answers(ev))
}

impl AsusDriver {
    /// The driver of a device of which nothing is known yet: not ready, at
    /// rest, without quirks and button codes, and with the LED modes that a
    /// device has unless its catalog entry says otherwise.
    pub fn new() -> (r: Self)
        ensures
            !r.is_ready,
            r.stage == AsusStage::Idle,
            r.tables.quirks == 0,
            r.tables.led_modes@ == default_led_modes(),
            forall|i: int| 0 <= i < 34 ==> r.tables.button_mapping@[i] is None,
            forall|i: int| 0 <= i < 34 ==> r.tables.button_indices@[i] is None,
            r.initial_id == 0,
            r.dpi_preset is None,
            r.binding is None,
            r.settings is None,
            r.plan@.len() == 0,
            r.scratch is None,
            r.failure is None,
    {
        AsusDriver {
            is_ready: false,
            tables: AsusTables::new(),
            stage: AsusStage::Idle,
            initial_id: 0,
            dpi_preset: None,
            binding: None,
            settings: None,
            plan: Vec::new(),
            scratch: None,
            failure: None,
        }
    }

    pub fn has_quirk(&self, quirk: u32) -> (r: bool)
        ensures
            r == quirk_set(self.tables.quirks, quirk),
    {
        self.tables.has_quirk(quirk)
    }

    /// Takes the quirks, the button codes and the LED modes of the catalog
    /// entry of the device.
    pub fn init_from_config(&mut self, config: &DriverConfig)
        ensures
            final(self).tables.of_config(config@),
            final(self).is_ready == old(self).is_ready,
            final(self).stage == old(self).stage,
    {
        self.tables = AsusTables::from_config(config);
    }

    /// The DPI of preset `i`.
    pub fn build_dpi(&self, i: usize, stored: u16, xy_data: Option<&AsusDpiXyData>) -> (r: Dpi)
        ensures
            r == dpi_of_preset(
                i as int,
                stored,
                match xy_data {
                    Some(d) => Some(d.dpi@),
                    None => None,
                },
                self.tables.quirks,
            ),
    {
        build_preset_dpi(i, stored, xy_data, self.tables.quirks)
    }

    /// Starts a query.
    fn send(&mut self, what: Pending, request: [u8; 64]) -> (r: DriverAction)
        ensures
            r@ == ActionModel::WriteReport(request@),
            final(self).stage == AsusStage::Writing(what),
            final(self).is_ready == old(self).is_ready,
            final(self).tables == old(self).tables,
            final(self).initial_id == old(self).initial_id,
            final(self).dpi_preset == old(self).dpi_preset,
            final(self).binding == old(self).binding,
            final(self).settings == old(self).settings,
            final(self).plan == old(self).plan,
            final(self).scratch == old(self).scratch,
            final(self).failure == old(self).failure,
    {
        self.stage = AsusStage::Writing(what);
        DriverAction::WriteReport(request_vec(request))
    }

    /// Goes on with loading profile `i` at step `step`.
    fn load_continue(&mut self, info: &mut DeviceInfo, i: usize, step: u8) -> (r: Outcome)
        ensures
            state_kept(*old(self), *final(self)),
            device_kept(old(info)@, final(info)@),
            final(info)@.firmware_version == old(info)@.firmware_version,
            follows(
                *final(self),
                final(info)@,
                r,
                load_from(
                    old(self).tables,
                    old(self).initial_id,
                    old(info)@.profiles,
                    i as int,
                    step as int,
                ),
            ),
            r is Action ==> r->Action_0 is WriteReport,
    {
        let ghost t = self.tables;
        let ghost initial = self.initial_id;
        let ghost ps = info@.profiles;
        let ghost want = load_from(t, initial, ps, i as int, step as int);
        let n = info.profiles.len();
        assert(ps.len() == n);
        let mut cur = i;
        let mut at = step;
        while cur < n
            invariant
                n == info.profiles@.len(),
                *self == *old(self),
                *info == *old(info),
                t == self.tables,
                initial == self.initial_id,
                ps == info@.profiles,
                ps.len() == n,
                want == load_from(t, initial, ps, i as int, step as int),
                want == load_from(t, initial, ps, cur as int, at as int),
            decreases n - cur,
        {
            assert(ps[cur as int] == info.profiles@[cur as int]@);
            if at == 0 {
                let current = info.profiles[cur].index;
                if current != self.initial_id {
                    info.profiles[cur].is_active = false;
                    assert(info@.profiles =~= ps.update(
                        cur as int,
                        ProfileModel { is_active: false, ..ps[cur as int] },
                    ));
                    return Outcome::Action(
                        self.send(Pending::Switch { i: cur }, set_profile_request(current)),
                    );
                }
                info.profiles[cur].is_active = true;
                assert(info@.profiles =~= ps.update(
                    cur as int,
                    ProfileModel { is_active: true, ..ps[cur as int] },
                ));
                return Outcome::Action(self.send(Pending::Binding0 { i: cur }, binding_request(0)));
            }
            if at <= 1 {
                return Outcome::Action(self.send(Pending::Binding0 { i: cur }, binding_request(0)));
            }
            if at <= 3 {
                return Outcome::Action(
                    self.send(Pending::Settings { i: cur }, settings_request(false)),
                );
            }
            if info.profiles[cur].leds.len() > 0 && at <= 5 {
                assert(ps[cur as int].leds[0] == info.profiles@[cur as int].leds@[0]@);
                if !self.tables.has_quirk(ASUS_QUIRK_SEPARATE_LEDS) {
                    return Outcome::Action(self.send(Pending::LedBulk { i: cur }, led_request(0)));
                } else {
                    let index = (info.profiles[cur].leds[0].index % 256) as u8;
                    return Outcome::Action(
                        self.send(Pending::Led { i: cur, k: 0 }, led_request(index)),
                    );
                }
            }
            cur += 1;
            at = 0;
        }
        if n > 1 {
            Outcome::Action(self.send(Pending::Restore, set_profile_request(self.initial_id)))
        } else {
            Outcome::Finished
        }
    }

    /// Goes on with the profile after profile `i`.
    fn load_after(&mut self, info: &mut DeviceInfo, i: usize) -> (r: Outcome)
        ensures
            state_kept(*old(self), *final(self)),
            device_kept(old(info)@, final(info)@),
            final(info)@.firmware_version == old(info)@.firmware_version,
            follows(
                *final(self),
                final(info)@,
                r,
                load_from(old(self).tables, old(self).initial_id, old(info)@.profiles, i + 1, 0),
            ),
            r is Action ==> r->Action_0 is WriteReport,
    {
        if i < usize::MAX {
            self.load_continue(info, i + 1, 0)
        } else {
            let n = info.profiles.len();
            assert(info@.profiles.len() == n);
            self.load_continue(info, i, 0)
        }
    }

    /// Takes what the device says of its profiles.
    fn answer_profile_data(&mut self, info: &mut DeviceInfo, resp: &AsusResponse) -> (r: Outcome)
        ensures
            answered(
                *old(self),
                old(info)@,
                Pending::ProfileData,
                resp.buf@,
                *final(self),
                final(info)@,
                r,
            ),
            r is Action ==> r->Action_0 is WriteReport,
    {
        let n = info.profiles.len();
        assert(info@.profiles.len() == n);
        let said = parse_profile_info(resp, self.tables.quirks);
        self.initial_id = if n > 1 {
            said.profile_id
        } else {
            0
        };
        self.dpi_preset = said.dpi_preset;
        info.firmware_version = firmware_string(said.firmware_primary);
        self.load_continue(info, 0, 0)
    }

    /// Takes the bindings of the first group of buttons.
    fn answer_bindings(&mut self, info: &mut DeviceInfo, i: usize, resp: &AsusResponse) -> (r:
        Outcome)
        ensures
            answered(
                *old(self),
                old(info)@,
                Pending::Binding0 { i },
                resp.buf@,
                *final(self),
                final(info)@,
                r,
            ),
            r is Action ==> r->Action_0 is WriteReport,
    {
        let ghost ps = info@.profiles;
        let n = info.profiles.len();
        assert(ps.len() == n);
        let binding = AsusBindingData::from_response(resp);
        if self.tables.has_quirk(ASUS_QUIRK_BUTTONS_SECONDARY) {
            self.binding = Some(binding);
            return Outcome::Action(self.send(Pending::Binding1 { i }, binding_request(1)));
        }
        if i < n {
            assert(ps[i as int] == info.profiles@[i as int]@);
            apply_bindings(&mut info.profiles[i], &self.tables, &binding, None);
            assert(info@.profiles =~= ps.update(
                i as int,
                profile_after_bindings(ps[i as int], self.tables, bindings_of(resp.buf@), None),
            ));
        }
        self.load_continue(info, i, 3)
    }

    /// Takes the bindings of the second group of buttons.
    fn answer_more_bindings(&mut self, info: &mut DeviceInfo, i: usize, resp: &AsusResponse) -> (r:
        Outcome)
        ensures
            answered(
                *old(self),
                old(info)@,
                Pending::Binding1 { i },
                resp.buf@,
                *final(self),
                final(info)@,
                r,
            ),
            r is Action ==> r->Action_0 is WriteReport,
    {
        let ghost ps = info@.profiles;
        let n = info.profiles.len();
        assert(ps.len() == n);
        let secondary = AsusBindingData::from_response(resp);
        match &self.binding {
            Some(primary) => {
                if i < n {
                    assert(ps[i as int] == info.profiles@[i as int]@);
                    apply_bindings(&mut info.profiles[i], &self.tables, primary, Some(&secondary));
                    assert(info@.profiles =~= ps.update(
                        i as int,
                        profile_after_bindings(
                            ps[i as int],
                            self.tables,
                            primary.bindings@,
                            Some(bindings_of(resp.buf@)),
                        ),
                    ));
                }
            },
            None => {},
        }
        self.load_continue(info, i, 3)
    }

    /// Takes the settings.
    fn answer_settings(&mut self, info: &mut DeviceInfo, i: usize, resp: &AsusResponse) -> (r:
        Outcome)
        ensures
            answered(
                *old(self),
                old(info)@,
                Pending::Settings { i },
                resp.buf@,
                *final(self),
                final(info)@,
                r,
            ),
            r is Action ==> r->Action_0 is WriteReport,
    {
        let ghost ps = info@.profiles;
        let n = info.profiles.len();
        assert(ps.len() == n);
        let count = if i < n {
            assert(ps[i as int] == info.profiles@[i as int]@);
            info.profiles[i].resolutions.len()
        } else {
            0
        };
        assert((count > 2) == four_presets(ps, i as int));
        let res = if count <= 2 {
            AsusResolutionResult::Dpi2(AsusDpi2Data::from_response(resp))
        } else {
            AsusResolutionResult::Dpi4(AsusDpi4Data::from_response(resp))
        };
        assert(settings_kept(res, None, None) == Some(
            settings_of(resp.buf@, four_presets(ps, i as int), None, None),
        ));
        assert(settings_kept(res, None, self.dpi_preset) == Some(
            settings_of(resp.buf@, four_presets(ps, i as int), None, self.dpi_preset),
        ));
        if self.tables.has_quirk(ASUS_QUIRK_SEPARATE_XY_DPI) {
            self.settings = Some(res);
            return Outcome::Action(self.send(Pending::SettingsXy { i }, settings_request(true)));
        }
        if i < n {
            self.take_settings(&mut info.profiles[i], &res, None);
            assert(info@.profiles =~= ps.update(
                i as int,
                profile_after_settings(
                    ps[i as int],
                    settings_of(resp.buf@, four_presets(ps, i as int), None, self.dpi_preset),
                    self.tables.quirks,
                ),
            ));
        }
        self.load_continue(info, i, 5)
    }

    /// Takes the DPI of each axis.
    fn answer_settings_xy(&mut self, info: &mut DeviceInfo, i: usize, resp: &AsusResponse) -> (r:
        Outcome)
        ensures
            answered(
                *old(self),
                old(info)@,
                Pending::SettingsXy { i },
                resp.buf@,
                *final(self),
                final(info)@,
                r,
            ),
            r is Action ==> r->Action_0 is WriteReport,
    {
        let ghost ps = info@.profiles;
        let n = info.profiles.len();
        assert(ps.len() == n);
        let xy = AsusDpiXyData::from_response(resp);
        match self.settings {
            Some(res) => {
                if i < n {
                    assert(ps[i as int] == info.profiles@[i as int]@);
                    self.take_settings(&mut info.profiles[i], &res, Some(&xy));
                    assert(info@.profiles =~= with_profile(
                        ps,
                        i as int,
                        match settings_kept(res, Some(xy_of(resp.buf@)), self.dpi_preset) {
                            Some(s) => profile_after_settings(ps[i as int], s, self.tables.quirks),
                            None => ps[i as int],
                        },
                    ));
                    assert(settings_kept(res, Some(xy_of(resp.buf@)), self.dpi_preset) is None
                        ==> info@.profiles =~= ps);
                }
            },
            None => {},
        }
        self.load_continue(info, i, 5)
    }

    /// Takes what the device stores of all LEDs of a profile.
    fn answer_led_bulk(&mut self, info: &mut DeviceInfo, i: usize, resp: &AsusResponse) -> (r:
        Outcome)
        ensures
            answered(
                *old(self),
                old(info)@,
                Pending::LedBulk { i },
                resp.buf@,
                *final(self),
                final(info)@,
                r,
            ),
            r is Action ==> r->Action_0 is WriteReport,
    {
        let ghost ps = info@.profiles;
        let n = info.profiles.len();
        assert(ps.len() == n);
        let data = AsusLedData::from_response(resp);
        if i < n {
            assert(ps[i as int] == info.profiles@[i as int]@);
            let ghost want = leds_after_bulk(ps[i as int].leds, resp.buf@, self.tables);
            let count = info.profiles[i].leds.len();
            let mut k: usize = 0;
            while k < count
                invariant
                    i < n,
                    k <= count,
                    n == info.profiles@.len(),
                    n == old(info).profiles@.len(),
                    count == info.profiles@[i as int].leds@.len(),
                    count == ps[i as int].leds.len(),
                    *self == *old(self),
                    ps == old(info)@.profiles,
                    data.leds@ == leds_of(resp.buf@),
                    want == leds_after_bulk(ps[i as int].leds, resp.buf@, self.tables),
                    forall|j: int|
                        0 <= j < n && j != i ==> info.profiles@[j] == old(info).profiles@[j],
                    forall|j: int|
                        0 <= j < k ==> (#[trigger] info.profiles@[i as int].leds@[j])@ == want[j],
                    forall|j: int|
                        k <= j < count ==> info.profiles@[i as int].leds@[j] == old(
                            info,
                        ).profiles@[i as int].leds@[j],
                    info.profiles@[i as int].index == old(info).profiles@[i as int].index,
                    info.profiles@[i as int].name == old(info).profiles@[i as int].name,
                    info.profiles@[i as int].is_active == old(info).profiles@[i as int].is_active,
                    info.profiles@[i as int].is_enabled == old(info).profiles@[i as int].is_enabled,
                    info.profiles@[i as int].is_dirty == old(info).profiles@[i as int].is_dirty,
                    info.profiles@[i as int].report_rate == old(
                        info,
                    ).profiles@[i as int].report_rate,
                    info.profiles@[i as int].report_rates == old(
                        info,
                    ).profiles@[i as int].report_rates,
                    info.profiles@[i as int].angle_snapping == old(
                        info,
                    ).profiles@[i as int].angle_snapping,
                    info.profiles@[i as int].debounce == old(info).profiles@[i as int].debounce,
                    info.profiles@[i as int].debounces == old(info).profiles@[i as int].debounces,
                    info.profiles@[i as int].resolutions == old(
                        info,
                    ).profiles@[i as int].resolutions,
                    info.profiles@[i as int].buttons == old(info).profiles@[i as int].buttons,
                    info.sysname == old(info).sysname,
                    info.name == old(info).name,
                    info.model == old(info).model,
                    info.firmware_version == old(info).firmware_version,
                    info.driver_config == old(info).driver_config,
                decreases count - k,
            {
                assert(ps[i as int].leds[k as int] == old(info).profiles@[i as int].leds@[k as int]@);
                let index = info.profiles[i].leds[k].index;
                let entry = if index < 3 {
                    data.leds[index as usize]
                } else {
                    AsusLedEntry { mode: 0, brightness: 0, r: 0, g: 0, b: 0 }
                };
                apply_led(&mut info.profiles[i].leds[k], entry, &self.tables);
                k += 1;
            }
            assert(info@.profiles[i as int].leds =~= want);
            assert(info@.profiles =~= ps.update(
                i as int,
                ProfileModel { leds: want, ..ps[i as int] },
            ));
        }
        self.load_after(info, i)
    }

    /// Takes what the device stores of LED `k` of a profile.
    fn answer_led(&mut self, info: &mut DeviceInfo, i: usize, k: usize, resp: &AsusResponse) -> (r:
        Outcome)
        ensures
            answered(
                *old(self),
                old(info)@,
                Pending::Led { i, k },
                resp.buf@,
                *final(self),
                final(info)@,
                r,
            ),
            r is Action ==> r->Action_0 is WriteReport,
    {
        let ghost ps = info@.profiles;
        let n = info.profiles.len();
        assert(ps.len() == n);
        let data = AsusLedData::from_response(resp);
        if i < n && k < info.profiles[i].leds.len() {
            assert(ps[i as int] == info.profiles@[i as int]@);
            assert(ps[i as int].leds[k as int] == info.profiles@[i as int].leds@[k as int]@);
            apply_led(&mut info.profiles[i].leds[k], data.leds[0], &self.tables);
            assert(info@.profiles =~= ps.update(
                i as int,
                ProfileModel {
                    leds: ps[i as int].leds.update(
                        k as int,
                        led_after_entry(
                            ps[i as int].leds[k as int],
                            leds_of(resp.buf@)[0],
                            self.tables,
                        ),
                    ),
                    ..ps[i as int]
                },
            )) by {
                assert(info@.profiles[i as int].leds =~= ps[i as int].leds.update(
                    k as int,
                    led_after_entry(ps[i as int].leds[k as int], leds_of(resp.buf@)[0], self.tables),
                ));
            }
            if k + 1 < info.profiles[i].leds.len() {
                assert(ps[i as int].leds[k + 1] == info.profiles@[i as int].leds@[k + 1]@);
                let index = (info.profiles[i].leds[k + 1].index % 256) as u8;
                return Outcome::Action(
                    self.send(Pending::Led { i, k: k + 1 }, led_request(index)),
                );
            }
        }
        self.load_after(info, i)
    }

    /// Takes the response of a query of a load.
    fn load_response(&mut self, info: &mut DeviceInfo, what: Pending, resp: &AsusResponse) -> (r:
        Outcome)
        ensures
            answered(*old(self), old(info)@, what, resp.buf@, *final(self), final(info)@, r),
            r is Action ==> r->Action_0 is WriteReport,
    {
        match what {
            Pending::ProfileData => self.answer_profile_data(info, resp),
            Pending::Switch { i } => self.load_continue(info, i, 1),
            Pending::Binding0 { i } => self.answer_bindings(info, i, resp),
            Pending::Binding1 { i } => self.answer_more_bindings(info, i, resp),
            Pending::Settings { i } => self.answer_settings(info, i, resp),
            Pending::SettingsXy { i } => self.answer_settings_xy(info, i, resp),
            Pending::LedBulk { i } => self.answer_led_bulk(info, i, resp),
            Pending::Led { i, k } => self.answer_led(info, i, k, resp),
            _ => Outcome::Finished,
        }
    }

    fn take_settings(
        &self,
        p: &mut ProfileInfo,
        res: &AsusResolutionResult,
        xy: Option<&AsusDpiXyData>,
    )
        ensures
            final(p)@ == (match settings_kept(
                *res,
                match xy {
                    Some(d) => Some(d.dpi@),
                    None => None,
                },
                self.dpi_preset,
            ) {
                Some(s) => profile_after_settings(old(p)@, s, self.tables.quirks),
                None => old(p)@,
            }),
    {
        match res {
            AsusResolutionResult::Dpi2(d) => {
                apply_settings(
                    p,
                    d.dpi.as_slice(),
                    d.rate_idx,
                    d.response_idx,
                    d.snapping,
                    xy,
                    self.dpi_preset,
                    self.tables.quirks,
                );
            },
            AsusResolutionResult::Dpi4(d) => {
                apply_settings(
                    p,
                    d.dpi.as_slice(),
                    d.rate_idx,
                    d.response_idx,
                    d.snapping,
                    xy,
                    self.dpi_preset,
                    self.tables.quirks,
                );
            },
            AsusResolutionResult::Xy(_) => {},
        }
    }

    /// The response that an event carries, where the event is the data of
    /// a read whose status does not say that the device sleeps.
    fn response_of(event: &DriverEvent) -> (r: Option<AsusResponse>)
        ensures
            r is Some <==> answers(event@),
            r is Some ==> r->0.buf@ == response_bytes(event@->Data_0),
    {
        match event {
            DriverEvent::Data(bytes) => {
                let resp = AsusResponse::from_slice(bytes.as_slice());
                assert(resp.buf@ =~= response_bytes(bytes@));
                if resp.status_code() == ASUS_STATUS_ERROR {
                    None
                } else {
                    Some(resp)
                }
            },
            _ => None,
        }
    }

    /// The text that says why a query failed.
    fn failure_text(event: &DriverEvent) -> (r: String)
        ensures
            r@ == query_failure(event@),
    {
        match event {
            DriverEvent::Data(bytes) => {
                let resp = AsusResponse::from_slice(bytes.as_slice());
                assert(resp.buf@ =~= response_bytes(bytes@));
                (DriverError::ProtocolError { sub_id: resp.buf[0], error: resp.buf[1] }).to_string()
            },
            DriverEvent::Failed(e) => e.to_string(),
            _ => text2("ASUS: ", "unexpected event"),
        }
    }

    /// One step of the probe: the device is asked what it says of its
    /// profiles. The probe succeeds whether the device answers or not; the
    /// driver is ready where it did.
    pub fn probe_step(&mut self, event: DriverEvent) -> (r: DriverAction)
        ensures
            probe_post(*old(self), event@, *final(self), r@),
    {
        let stage = self.stage;
        self.stage = AsusStage::Idle;
        match event {
            DriverEvent::Start => self.send(Pending::Probe, profile_data_request()),
            DriverEvent::Completed => {
                match stage {
                    AsusStage::Writing(Pending::Probe) => {
                        self.stage = AsusStage::Reading(Pending::Probe);
                        DriverAction::ReadReport { len: 64, timeout_ms: None }
                    },
                    _ => DriverAction::Done,
                }
            },
            _ => {
                match stage {
                    AsusStage::Reading(Pending::Probe) => {
                        self.is_ready = Self::response_of(&event).is_some();
                    },
                    AsusStage::Writing(Pending::Probe) => {
                        self.is_ready = false;
                    },
                    _ => {},
                }
                DriverAction::Done
            },
        }
    }

    /// One step of a load, for the load proper and for the reload of a
    /// commit: an action, or the end of the load with its result.
    fn load_machine(&mut self, info: &mut DeviceInfo, stage: AsusStage, event: &DriverEvent) -> (r:
        Result<Outcome, String>)
        ensures
            device_kept(old(info)@, final(info)@),
            final(self).is_ready == old(self).is_ready,
            final(self).tables == old(self).tables,
            final(self).plan == old(self).plan,
            final(self).scratch == old(self).scratch,
            ({
                let x = load_read(*old(self), stage, old(info)@, event@);
                &&& final(info)@.profiles == x.profiles
                &&& final(info)@.firmware_version == x.firmware
                &&& final(self).initial_id == x.initial_id
                &&& final(self).dpi_preset == x.dpi_preset
                &&& read_kept(*old(self), stage, old(info)@.profiles, event@, *final(self))
                &&& match x.out {
                    Loaded::Goes(a) => r is Ok && r->Ok_0 is Action && r->Ok_0->Action_0@ == a.action
                        && final(self).stage == a.stage,
                    Loaded::Finished => r is Ok && r->Ok_0 is Finished && final(self).stage == old(
                        self,
                    ).stage,
                    Loaded::Fails => r is Err && final(self).stage == old(self).stage,
                }
            }),
            r is Ok && r->Ok_0 is Action ==> !r->Ok_0->Action_0@.ends(),
    {
        match event {
            DriverEvent::Completed => {
                match stage {
                    AsusStage::Writing(what) => {
                        self.stage = AsusStage::Reading(what);
                        Ok(Outcome::Action(DriverAction::ReadReport { len: 64, timeout_ms: None }))
                    },
                    _ => Err(text2("ASUS: ", "unexpected event")),
                }
            },
            _ => {
                match (stage, Self::response_of(event)) {
                    (AsusStage::Reading(what), Some(resp)) => {
                        let before = self.stage;
                        let r = self.load_response(info, what, &resp);
                        match r {
                            Outcome::Finished => {
                                self.stage = before;
                            },
                            _ => {},
                        }
                        Ok(r)
                    },
                    _ => Err(Self::failure_text(event)),
                }
            },
        }
    }

    /// One step of loading the profiles.
    pub fn load_step(&mut self, info: &mut DeviceInfo, event: DriverEvent) -> (r: DriverAction)
        ensures
            load_post(*old(self), old(info)@, event@, *final(self), final(info)@, r@),
            !(r is Failed),
            r is Done ==> final(self).stage == AsusStage::Idle,
    {
        let stage = self.stage;
        match event {
            DriverEvent::Start => {
                self.tables = AsusTables::from_config(&info.driver_config);
                let n = info.profiles.len();
                let ghost want = Seq::new(
                    old(info)@.profiles.len(),
                    |i: int| with_capabilities(old(info)@.profiles[i], self.tables.led_modes@),
                );
                let mut i: usize = 0;
                while i < n
                    invariant
                        i <= n,
                        n == info.profiles@.len(),
                        n == old(info).profiles@.len(),
                        want == Seq::new(
                            old(info)@.profiles.len(),
                            |i: int|
                                with_capabilities(old(info)@.profiles[i], self.tables.led_modes@),
                        ),
                        forall|k: int| 0 <= k < i ==> (#[trigger] info.profiles@[k])@ == want[k],
                        forall|k: int|
                            i <= k < n ==> info.profiles@[k] == old(info).profiles@[k],
                        info.sysname == old(info).sysname,
                        info.name == old(info).name,
                        info.model == old(info).model,
                        info.firmware_version == old(info).firmware_version,
                        info.driver_config == old(info).driver_config,
                    decreases n - i,
                {
                    assert(old(info)@.profiles[i as int] == old(info).profiles@[i as int]@);
                    set_capabilities(&mut info.profiles[i], &self.tables.led_modes);
                    i += 1;
                }
                assert(info@.profiles =~= want);
                self.send(Pending::ProfileData, profile_data_request())
            },
            _ => {
                match self.load_machine(info, stage, &event) {
                    Ok(Outcome::Action(a)) => a,
                    Ok(Outcome::Finished) => {
                        self.stage = AsusStage::Idle;
                        self.is_ready = true;
                        DriverAction::Done
                    },
                    Err(_) => {
                        self.stage = AsusStage::Idle;
                        self.is_ready = false;
                        DriverAction::Done
                    },
                }
            },
        }
    }

    /// Gives a commit up that has begun to write.
    fn give_up(&mut self, many: bool, text: String) -> (r: DriverAction)
        ensures
            gave_up_with(many, old(self).initial_id, *final(self), r@, text@),
            final(self).is_ready == old(self).is_ready,
            final(self).tables == old(self).tables,
            final(self).plan == old(self).plan,
            final(self).scratch == old(self).scratch,
            final(self).initial_id == old(self).initial_id,
    {
        if many {
            self.failure = Some(text);
            self.send(Pending::SaveRestore, set_profile_request(self.initial_id))
        } else {
            self.stage = AsusStage::Idle;
            DriverAction::Failed(text)
        }
    }

    /// Goes on with the plan of a commit at item `k`.
    fn save_continue(&mut self, k: usize, many: bool) -> (r: DriverAction)
        ensures
            sent(
                *final(self),
                r@,
                items_view(old(self).plan@),
                k as int,
                many,
                old(self).initial_id,
            ),
            final(self).is_ready == old(self).is_ready,
            final(self).tables == old(self).tables,
            final(self).plan == old(self).plan,
            final(self).scratch == old(self).scratch,
            final(self).initial_id == old(self).initial_id,
    {
        let count = self.plan.len();
        assert(items_view(self.plan@).len() == count);
        if k < count {
            assert(items_view(self.plan@)[k as int] == self.plan@[k as int]@);
            match &self.plan[k] {
                SaveItem::Send(bytes) => {
                    let request = *bytes;
                    self.send(Pending::SaveItem { k }, request)
                },
                SaveItem::Abort(text) => {
                    let text = text.clone();
                    self.give_up(many, text)
                },
            }
        } else {
            self.stage = AsusStage::Idle;
            DriverAction::Done
        }
    }

    /// The first step of a commit.
    fn commit_start(&mut self, info: &DeviceInfo) -> (r: DriverAction)
        ensures
            commit_post(*old(self), info@, DriverEventModel::Start, *final(self), r@),
            r@.ends() ==> final(self).stage == AsusStage::Idle,
    {
        if !self.is_ready {
            self.scratch = Some(info.copy());
            return self.send(Pending::ProfileData, profile_data_request());
        }
        self.scratch = None;
        let n = info.profiles.len();
        assert(info@.profiles.len() == n);
        if n == 0 {
            self.stage = AsusStage::Idle;
            return DriverAction::Done;
        }
        if n > 1 {
            return self.send(Pending::SaveProfileData, profile_data_request());
        }
        self.initial_id = 0;
        self.plan = plan_save(info, &self.tables, 0);
        self.save_continue(0, false)
    }

    /// A step of the reload of a driver that was not ready.
    fn commit_reload(&mut self, stage: AsusStage, event: &DriverEvent) -> (r: DriverAction)
        requires
            !(event is Start),
            !old(self).is_ready,
            old(self).stage == AsusStage::Idle,
        ensures
            final(self).tables == old(self).tables,
            final(self).plan == old(self).plan,
            reloaded(*old(self), stage, event@, *final(self), r@),
            r@.ends() ==> final(self).stage == AsusStage::Idle,
    {
        let mut scratch: Option<DeviceInfo> = None;
        core::mem::swap(&mut self.scratch, &mut scratch);
        match scratch {
            Some(copy) => {
                let mut copy = copy;
                let outcome = self.load_machine(&mut copy, stage, event);
                match outcome {
                    Ok(Outcome::Action(a)) => {
                        self.scratch = Some(copy);
                        a
                    },
                    Ok(Outcome::Finished) => {
                        self.stage = AsusStage::Idle;
                        self.is_ready = true;
                        DriverAction::Failed(
                            text2(
                                "ASUS: device was not ready; ",
                                "commit aborted after recovery reload",
                            ),
                        )
                    },
                    Err(_) => {
                        self.stage = AsusStage::Idle;
                        DriverAction::Failed(
                            text2("ASUS: device not ready and recovery failed; ", "commit aborted"),
                        )
                    },
                }
            },
            None => DriverAction::Failed(text2("ASUS commit: ", "unexpected event")),
        }
    }

    /// A step of the writing of a driver that is ready.
    fn commit_write(&mut self, info: &DeviceInfo, stage: AsusStage, event: &DriverEvent) -> (r:
        DriverAction)
        requires
            !(event is Start),
            old(self).is_ready,
            old(self).stage == AsusStage::Idle,
        ensures
            final(self).tables == old(self).tables,
            final(self).is_ready,
            final(self).scratch == old(self).scratch,
            written(*old(self), stage, info@, event@, *final(self), r@),
            r@.ends() ==> final(self).stage == AsusStage::Idle,
    {
        let count = info.profiles.len();
        assert(info@.profiles.len() == count);
        let many = count > 1;
        match stage {
            AsusStage::Reading(Pending::SaveProfileData) => match Self::response_of(event) {
                Some(resp) => {
                    let said = parse_profile_info(&resp, self.tables.quirks);
                    self.initial_id = said.profile_id;
                    self.plan = plan_save(info, &self.tables, said.profile_id);
                    self.save_continue(0, many)
                },
                None => DriverAction::Failed(Self::failure_text(event)),
            },
            AsusStage::Reading(Pending::SaveItem { k }) => match Self::response_of(event) {
                Some(_) => {
                    if k < usize::MAX {
                        self.save_continue(k + 1, many)
                    } else {
                        let items = self.plan.len();
                        assert(items_view(self.plan@).len() == items);
                        self.save_continue(k, many)
                    }
                },
                None => {
                    let text = Self::failure_text(event);
                    self.give_up(many, text)
                },
            },
            AsusStage::Writing(Pending::SaveItem { k }) => {
                let text = Self::failure_text(event);
                self.give_up(many, text)
            },
            AsusStage::Writing(Pending::SaveRestore) | AsusStage::Reading(Pending::SaveRestore) => {
                let mut failure: Option<String> = None;
                core::mem::swap(&mut self.failure, &mut failure);
                match failure {
                    Some(text) => DriverAction::Failed(text),
                    None => DriverAction::Failed(Self::failure_text(event)),
                }
            },
            _ => DriverAction::Failed(Self::failure_text(event)),
        }
    }

    /// One step of the commit.
    pub fn commit_step(&mut self, info: &DeviceInfo, event: DriverEvent) -> (r: DriverAction)
        ensures
            commit_post(*old(self), info@, event@, *final(self), r@),
            r@.ends() ==> final(self).stage == AsusStage::Idle,
    {
        let stage = self.stage;
        match event {
            DriverEvent::Start => self.commit_start(info),
            DriverEvent::Completed => {
                match stage {
                    AsusStage::Writing(what) => {
                        self.stage = AsusStage::Reading(what);
                        DriverAction::ReadReport { len: 64, timeout_ms: None }
                    },
                    _ => {
                        self.stage = AsusStage::Idle;
                        DriverAction::Failed(text2("ASUS commit: ", "unexpected event"))
                    },
                }
            },
            _ => {
                self.stage = AsusStage::Idle;
                if !self.is_ready {
                    self.commit_reload(stage, &event)
                } else {
                    self.commit_write(info, stage, &event)
                }
            },
        }
    }
}

impl DeviceDriver for AsusDriver {
    fn name(&self) -> (r: &'static str)
        ensures
            r@ == "asus"@,
    {
        "asus"
    }

    fn probe(&mut self, event: DriverEvent) -> (r: DriverAction)
        ensures
            probe_post(*old(self), event@, *final(self), r@),
    {
        self.probe_step(event)
    }

    fn load_profiles(&mut self, info: &mut DeviceInfo, event: DriverEvent) -> (r: DriverAction)
        ensures
            load_post(*old(self), old(info)@, event@, *final(self), final(info)@, r@),
    {
        self.load_step(info, event)
    }

    fn commit(&mut self, info: &DeviceInfo, event: DriverEvent) -> (r: DriverAction)
        ensures
            commit_post(*old(self), info@, event@, *final(self), r@),
    {
        self.commit_step(info, event)
    }
}

} // verus!
