//! Loading the profiles of a HID++ 2.0 device, step by step.
//!
//! A device with onboard profiles is asked for the description of its
//! memory, then for the directory sector and the sector of each profile.
//! After that the live settings are read for each profile: the DPI of the
//! sensor, the report rate and the LED effects. A query that fails leaves
//! the fields it would have filled as they are; only the description and
//! the directory are needed for the load to succeed.

use vstd::prelude::*;
use crate::device::{DeviceInfo, DeviceModel, ProfileInfo, ProfileModel};
use crate::driver::{ActionModel, DriverAction, DriverEvent, DriverEventModel};
use crate::driver::hidpp::{be16, sector_crc_ok, u16_from_be};
use crate::driver::hidpp20::{
    apply_led_zone, dpi_list_of_reply, led_after_zone, parse_dpi_list, rate_from_interval,
    rate_of_interval, rates_of_bitmap, report_rates_from_bitmap, take_bytes, FeatureMap,
    Hidpp20OnboardProfilesInfo, DPI_FN_GET_SENSOR_COUNT, DPI_FN_GET_SENSOR_DPI,
    DPI_FN_GET_SENSOR_DPI_LIST, LED_FN_GET_ZONE_EFFECT, PROFILES_FN_GET_PROFILES_DESCR,
    PROFILES_FN_MEMORY_READ, RATE_FN_GET_REPORT_RATE, RATE_FN_GET_REPORT_RATE_LIST,
};
use crate::driver::hidpp20_driver::{
    apply_sensor_dpi, call_failure, event_payload, feature_call, fit_profiles, fitted_profiles,
    payload_of, profile_after_dpi, text2, Hidpp20Driver, Stage, StageModel,
};
use crate::driver::hidpp20_memory::{
    directory_of, read_directory, Directory, DirectoryModel, SectorRead, SectorReadModel,
};
use crate::driver::hidpp20_profile::{apply_profile_sector, profile_after_sector};

verus! {

/// What every step of a load leaves alone: the identity of the device, the
/// address and the features found at probe time; and the repair flag, once
/// raised, stays raised.
pub open spec fn load_keeps(
    pre: Hidpp20Driver,
    post: Hidpp20Driver,
    before: DeviceModel,
    after: DeviceModel,
) -> bool {
    &&& post.device_index == pre.device_index
    &&& post.features == pre.features
    &&& post.version == pre.version
    &&& (pre.needs_eeprom_repair ==> post.needs_eeprom_repair)
    &&& after.sysname == before.sysname
    &&& after.name == before.name
    &&& after.model == before.model
    &&& after.firmware_version == before.firmware_version
    &&& after.driver_config == before.driver_config
}

/// What a step leaves alone where it only asks the next question: the
/// repair flag and what the load has cached so far.
pub open spec fn cache_kept(pre: Hidpp20Driver, post: Hidpp20Driver) -> bool {
    &&& post.needs_eeprom_repair == pre.needs_eeprom_repair
    &&& post.cached_onboard_info == pre.cached_onboard_info
    &&& post.cached_report_rate_hz == pre.cached_report_rate_hz
}

/// The profiles with the first one made active.
pub open spec fn first_made_active(ps: Seq<ProfileModel>) -> Seq<ProfileModel> {
    if ps.len() > 0 {
        ps.update(0, ProfileModel { is_active: true, ..ps[0] })
    } else {
        ps
    }
}

/// The profiles with every one of them enabled.
pub open spec fn all_enabled(ps: Seq<ProfileModel>) -> Seq<ProfileModel> {
    Seq::new(ps.len(), |i: int| ProfileModel { is_enabled: true, ..ps[i] })
}

/// The profiles with the one at position `i` replaced, where there is one.
pub open spec fn with_profile(ps: Seq<ProfileModel>, i: int, p: ProfileModel) -> Seq<ProfileModel> {
    if 0 <= i < ps.len() {
        ps.update(i, p)
    } else {
        ps
    }
}

/// The zone of an LED in a request: its index in eight bits.
pub open spec fn zone_of(index: u32) -> u8 {
    (index % 256) as u8
}

/// How a step of a load goes on: the stage that the driver is in after it,
/// the action that it answers with, and the profiles of the device state.
pub struct Turn {
    pub stage: StageModel,
    pub action: ActionModel,
    pub profiles: Seq<ProfileModel>,
}

/// Whether a step went on as `t` says.
pub open spec fn took(post: Hidpp20Driver, after: DeviceModel, r: ActionModel, t: Turn) -> bool {
    post.stage@ == t.stage && r == t.action && after.profiles == t.profiles
}

/// The next query for the live settings, from profile `p` and phase `phase`
/// on (0: the DPI, 1: the report rate, 2: the LEDs): the sensor count where
/// the device has adjustable DPI, the list of report rates where it has an
/// adjustable report rate, the effect of the first LED where it has LED
/// effects and the profile has an LED; then the same for the next profile.
/// Where nothing is left to ask, the load is done.
pub open spec fn live_query(dev: u8, f: FeatureMap, ps: Seq<ProfileModel>, p: int, phase: int) -> Turn
    decreases ps.len() - p,
{
    if p < 0 || p >= ps.len() {
        Turn { stage: StageModel::Idle, action: ActionModel::Done, profiles: ps }
    } else if phase == 0 && f.adjustable_dpi is Some {
        Turn {
            stage: StageModel::LoadSensorCount { p: p as usize },
            action: feature_call(dev, f.adjustable_dpi->0, DPI_FN_GET_SENSOR_COUNT, seq![0u8]),
            profiles: ps,
        }
    } else if phase <= 1 && f.report_rate is Some {
        Turn {
            stage: StageModel::LoadRateList { p: p as usize },
            action: feature_call(dev, f.report_rate->0, RATE_FN_GET_REPORT_RATE_LIST, Seq::empty()),
            profiles: ps,
        }
    } else if f.color_led_effects is Some && ps[p].leds.len() > 0 {
        Turn {
            stage: StageModel::LoadLed { p: p as usize, l: 0 },
            action: feature_call(
                dev,
                f.color_led_effects->0,
                LED_FN_GET_ZONE_EFFECT,
                seq![zone_of(ps[p].leds[0].index)],
            ),
            profiles: ps,
        }
    } else {
        live_query(dev, f, ps, p + 1, 0)
    }
}

/// The turn to the live settings: the first profile becomes the active
/// one, and the first query for a live setting follows.
pub open spec fn enter_live(dev: u8, f: FeatureMap, ps: Seq<ProfileModel>) -> Turn {
    live_query(dev, f, first_made_active(ps), 0, 0)
}

/// Whether a sector address of the directory names a sector.
pub open spec fn usable(addr: u16) -> bool {
    addr != 0 && addr != 0xFFFF
}

/// The first profile from `i` on that the directory gives a sector, or the
/// number of profiles of the directory.
pub open spec fn next_sector(dir: DirectoryModel, i: int) -> int
    decreases dir.addrs.len() - i,
{
    if 0 <= i < dir.addrs.len() && !usable(dir.addrs[i]) {
        next_sector(dir, i + 1)
    } else {
        i
    }
}

/// The read of a whole sector of `size` bytes, nothing read yet.
pub open spec fn whole_sector(sector: u16, size: u16) -> SectorReadModel {
    SectorReadModel { sector, start: 0, end: size, cur: 0, data: Seq::empty() }
}

/// The read of the next profile sector, from profile `i` on: the first
/// chunk of the sector of the first profile that the directory gives one.
/// Where no profile is left, the live settings follow.
pub open spec fn sector_turn(
    dev: u8,
    f: FeatureMap,
    size: u16,
    dir: DirectoryModel,
    i: int,
    ps: Seq<ProfileModel>,
) -> Turn {
    let j = next_sector(dir, i);
    if f.onboard_profiles is Some && size > 0 && dir.addrs.len() == dir.enabled.len() && 0 <= i
        && j < dir.addrs.len() {
        Turn {
            stage: StageModel::LoadProfile {
                i: j as usize,
                dir,
                read: whole_sector(dir.addrs[j], size),
            },
            action: feature_call(
                dev,
                f.onboard_profiles->0,
                PROFILES_FN_MEMORY_READ,
                whole_sector(dir.addrs[j], size).request_params(),
            ),
            profiles: ps,
        }
    } else {
        enter_live(dev, f, ps)
    }
}

/// A step that fails the load: nothing is taken from the event.
pub open spec fn load_fails(
    pre: Hidpp20Driver,
    post: Hidpp20Driver,
    before: DeviceModel,
    after: DeviceModel,
    r: ActionModel,
) -> bool {
    &&& r is Failed
    &&& post.stage@ == StageModel::Idle
    &&& after.profiles == before.profiles
    &&& cache_kept(pre, post)
}

/// A step that fails the load with the failure `text`.
pub open spec fn load_fails_as(
    pre: Hidpp20Driver,
    post: Hidpp20Driver,
    before: DeviceModel,
    after: DeviceModel,
    r: ActionModel,
    text: Seq<char>,
) -> bool {
    load_fails(pre, post, before, after, r) && r == ActionModel::Failed(text)
}

/// Why a call that a load made failed: the text of the failure of the call
/// that the driver made last, after what the load was about.
pub open spec fn load_failure(pre: Hidpp20Driver, context: Seq<char>, ev: DriverEventModel) -> Seq<
    char,
> {
    call_failure(context, ev, pre.pending_feature, pre.pending_function)
}

/// What a step of a load does, given the driver and the device state before
/// and after it, the event and the action.
///
/// The first step asks a device with onboard profiles for the description
/// of its memory; on a device without them one profile is made sure of and
/// the live settings follow. The description sizes the device state: as
/// many profiles as the device holds, with as many buttons as a sector
/// binds. The directory sector is then read chunk by chunk. A directory
/// whose checksum is wrong raises the repair flag, and every profile is
/// looked for in the sector after its ordinal. Each profile that the
/// directory gives a sector is read chunk by chunk and taken into the
/// device state; a wrong checksum raises the repair flag and the data is
/// used all the same; a sector that cannot be read is passed over. On a
/// device whose sectors have no size every sector reads as nothing: the
/// repair flag is raised, and every profile counts as enabled. The live
/// settings follow for each profile: the list of DPI values and the
/// current DPI, the list of report rates and the current
/// rate, which the driver remembers, and the effect of each LED. A query
/// for a live setting that fails leaves what it would have filled as it is.
/// The load fails where the description or a chunk of the directory cannot
/// be had, and in a stage that is none of a load; the text of the failure
/// says which call failed and why.
pub open spec fn load_post(
    pre: Hidpp20Driver,
    before: DeviceModel,
    ev: DriverEventModel,
    post: Hidpp20Driver,
    after: DeviceModel,
    r: ActionModel,
) -> bool {
    let dev = pre.device_index;
    let f = pre.features;
    let ps = before.profiles;
    let size = pre.sector_size_spec();
    &&& load_keeps(pre, post, before, after)
    &&& match ev {
        DriverEventModel::Start => {
            &&& cache_kept(pre, post)
            &&& match f.onboard_profiles {
                Some(idx) => took(
                    post,
                    after,
                    r,
                    Turn {
                        stage: StageModel::LoadDescriptor,
                        action: feature_call(dev, idx, PROFILES_FN_GET_PROFILES_DESCR, Seq::empty()),
                        profiles: ps,
                    },
                ),
                None => took(
                    post,
                    after,
                    r,
                    enter_live(
                        dev,
                        f,
                        if ps.len() == 0 {
                            seq![ProfileInfo::blank()]
                        } else {
                            ps
                        },
                    ),
                ),
            }
        },
        _ => match pre.stage@ {
            StageModel::LoadDescriptor => match (payload_of(ev), f.onboard_profiles) {
                (Some(p), Some(idx)) => {
                    &&& post.cached_onboard_info is Some
                    &&& post.cached_onboard_info->0.bytes() == p
                    &&& post.cached_report_rate_hz == pre.cached_report_rate_hz
                    &&& {
                        let desc = post.cached_onboard_info->0;
                        let fitted = fitted_profiles(
                            ps,
                            desc.spec_profile_count() as int,
                            desc.button_count as int,
                        );
                        if desc.spec_sector_size() == 0 {
                            post.needs_eeprom_repair && took(
                                post,
                                after,
                                r,
                                enter_live(dev, f, all_enabled(fitted)),
                            )
                        } else {
                            post.needs_eeprom_repair == pre.needs_eeprom_repair && took(
                                post,
                                after,
                                r,
                                Turn {
                                    stage: StageModel::LoadRoot {
                                        read: whole_sector(0, desc.spec_sector_size()),
                                    },
                                    action: feature_call(
                                        dev,
                                        idx,
                                        PROFILES_FN_MEMORY_READ,
                                        whole_sector(0, desc.spec_sector_size()).request_params(),
                                    ),
                                    profiles: fitted,
                                },
                            )
                        }
                    }
                },
                (Some(_), None) => load_fails_as(
                    pre,
                    post,
                    before,
                    after,
                    r,
                    "HID++ 2.0: "@ + "the device has no onboard profiles"@,
                ),
                _ => load_fails_as(
                    pre,
                    post,
                    before,
                    after,
                    r,
                    load_failure(pre, "Failed to get Onboard Profiles Description"@, ev),
                ),
            },
            StageModel::LoadRoot { read } => match (payload_of(ev), f.onboard_profiles) {
                (Some(p), Some(idx)) => if !read.wf() || read.done() {
                    load_fails_as(
                        pre,
                        post,
                        before,
                        after,
                        r,
                        "HID++ 2.0: "@ + "inconsistent sector read"@,
                    )
                } else {
                    let now = read.accept(p);
                    &&& post.cached_onboard_info == pre.cached_onboard_info
                    &&& post.cached_report_rate_hz == pre.cached_report_rate_hz
                    &&& if now.done() {
                        &&& post.needs_eeprom_repair == (pre.needs_eeprom_repair || !sector_crc_ok(
                            now.data,
                        ))
                        &&& took(
                            post,
                            after,
                            r,
                            sector_turn(
                                dev,
                                f,
                                size,
                                directory_of(now.data, pre.profile_count_spec()),
                                0,
                                ps,
                            ),
                        )
                    } else {
                        &&& post.needs_eeprom_repair == pre.needs_eeprom_repair
                        &&& took(
                            post,
                            after,
                            r,
                            Turn {
                                stage: StageModel::LoadRoot { read: now },
                                action: feature_call(
                                    dev,
                                    idx,
                                    PROFILES_FN_MEMORY_READ,
                                    now.request_params(),
                                ),
                                profiles: ps,
                            },
                        )
                    }
                },
                (Some(_), None) => load_fails_as(
                    pre,
                    post,
                    before,
                    after,
                    r,
                    "HID++ 2.0: "@ + "the device has no onboard profiles"@,
                ),
                _ => load_fails_as(
                    pre,
                    post,
                    before,
                    after,
                    r,
                    load_failure(pre, "Failed to read sector chunk"@, ev),
                ),
            },
            StageModel::LoadProfile { i, dir, read } => {
                &&& post.cached_onboard_info == pre.cached_onboard_info
                &&& post.cached_report_rate_hz == pre.cached_report_rate_hz
                &&& match payload_of(ev) {
                    Some(p) => if !read.wf() || read.done() || i >= dir.enabled.len()
                        || dir.addrs.len() != dir.enabled.len() {
                        post.needs_eeprom_repair == pre.needs_eeprom_repair && took(
                            post,
                            after,
                            r,
                            enter_live(dev, f, ps),
                        )
                    } else {
                        let now = read.accept(p);
                        if now.done() {
                            &&& post.needs_eeprom_repair == (pre.needs_eeprom_repair
                                || !sector_crc_ok(now.data))
                            &&& took(
                                post,
                                after,
                                r,
                                sector_turn(
                                    dev,
                                    f,
                                    size,
                                    dir,
                                    i + 1,
                                    with_profile(
                                        ps,
                                        i as int,
                                        profile_after_sector(
                                            ps[i as int],
                                            now.data,
                                            dir.enabled[i as int],
                                            pre.button_count_spec(),
                                        ),
                                    ),
                                ),
                            )
                        } else {
                            &&& post.needs_eeprom_repair == pre.needs_eeprom_repair
                            &&& match f.onboard_profiles {
                                Some(idx) => took(
                                    post,
                                    after,
                                    r,
                                    Turn {
                                        stage: StageModel::LoadProfile { i, dir, read: now },
                                        action: feature_call(
                                            dev,
                                            idx,
                                            PROFILES_FN_MEMORY_READ,
                                            now.request_params(),
                                        ),
                                        profiles: ps,
                                    },
                                ),
                                None => took(post, after, r, enter_live(dev, f, ps)),
                            }
                        }
                    },
                    None => post.needs_eeprom_repair == pre.needs_eeprom_repair && took(
                        post,
                        after,
                        r,
                        sector_turn(dev, f, size, dir, i + 1, ps),
                    ),
                }
            },
            StageModel::LoadSensorCount { p } => {
                &&& cache_kept(pre, post)
                &&& match (payload_of(ev), f.adjustable_dpi) {
                    (Some(d), Some(idx)) => if d[0] != 0 {
                        took(
                            post,
                            after,
                            r,
                            Turn {
                                stage: StageModel::LoadDpiList { p },
                                action: feature_call(
                                    dev,
                                    idx,
                                    DPI_FN_GET_SENSOR_DPI_LIST,
                                    seq![0u8],
                                ),
                                profiles: ps,
                            },
                        )
                    } else {
                        took(post, after, r, live_query(dev, f, ps, p as int, 1))
                    },
                    _ => took(post, after, r, live_query(dev, f, ps, p as int, 1)),
                }
            },
            StageModel::LoadDpiList { p } => {
                &&& cache_kept(pre, post)
                &&& match (payload_of(ev), f.adjustable_dpi) {
                    (Some(d), Some(idx)) => took(
                        post,
                        after,
                        r,
                        Turn {
                            stage: StageModel::LoadSensorDpi { p, list: dpi_list_of_reply(d) },
                            action: feature_call(dev, idx, DPI_FN_GET_SENSOR_DPI, seq![0u8]),
                            profiles: ps,
                        },
                    ),
                    _ => took(post, after, r, live_query(dev, f, ps, p as int, 1)),
                }
            },
            StageModel::LoadSensorDpi { p, list } => {
                &&& cache_kept(pre, post)
                &&& took(
                    post,
                    after,
                    r,
                    live_query(
                        dev,
                        f,
                        match payload_of(ev) {
                            Some(d) => with_profile(
                                ps,
                                p as int,
                                profile_after_dpi(ps[p as int], list, be16(d[1], d[2])),
                            ),
                            None => ps,
                        },
                        p as int,
                        1,
                    ),
                )
            },
            StageModel::LoadRateList { p } => {
                &&& cache_kept(pre, post)
                &&& match (payload_of(ev), f.report_rate) {
                    (Some(d), Some(idx)) => took(
                        post,
                        after,
                        r,
                        Turn {
                            stage: StageModel::LoadRate { p },
                            action: feature_call(dev, idx, RATE_FN_GET_REPORT_RATE, Seq::empty()),
                            profiles: with_profile(
                                ps,
                                p as int,
                                ProfileModel {
                                    report_rates: rates_of_bitmap(d[0], 0),
                                    ..ps[p as int]
                                },
                            ),
                        },
                    ),
                    _ => took(post, after, r, live_query(dev, f, ps, p as int, 2)),
                }
            },
            StageModel::LoadRate { p } => {
                let hz = match payload_of(ev) {
                    Some(d) => rate_of_interval(d[0]),
                    None => None,
                };
                &&& post.needs_eeprom_repair == pre.needs_eeprom_repair
                &&& post.cached_onboard_info == pre.cached_onboard_info
                &&& if hz is Some && p < ps.len() {
                    &&& post.cached_report_rate_hz == hz->0
                    &&& took(
                        post,
                        after,
                        r,
                        live_query(
                            dev,
                            f,
                            ps.update(
                                p as int,
                                ProfileModel { report_rate: hz->0, ..ps[p as int] },
                            ),
                            p as int,
                            2,
                        ),
                    )
                } else {
                    &&& post.cached_report_rate_hz == pre.cached_report_rate_hz
                    &&& took(post, after, r, live_query(dev, f, ps, p as int, 2))
                }
            },
            StageModel::LoadLed { p, l } => {
                &&& cache_kept(pre, post)
                &&& match (payload_of(ev), f.color_led_effects) {
                    (Some(d), Some(idx)) => if p < ps.len() && l < ps[p as int].leds.len() {
                        let led = ps[p as int].leds[l as int];
                        let qs = if d[0] == zone_of(led.index) {
                            ps.update(
                                p as int,
                                ProfileModel {
                                    leds: ps[p as int].leds.update(
                                        l as int,
                                        led_after_zone(led, d.subrange(1, 12)),
                                    ),
                                    ..ps[p as int]
                                },
                            )
                        } else {
                            ps
                        };
                        if l + 1 < ps[p as int].leds.len() {
                            took(
                                post,
                                after,
                                r,
                                Turn {
                                    stage: StageModel::LoadLed { p, l: (l + 1) as usize },
                                    action: feature_call(
                                        dev,
                                        idx,
                                        LED_FN_GET_ZONE_EFFECT,
                                        seq![zone_of(ps[p as int].leds[l + 1].index)],
                                    ),
                                    profiles: qs,
                                },
                            )
                        } else {
                            took(post, after, r, live_query(dev, f, qs, p + 1, 0))
                        }
                    } else {
                        took(post, after, r, live_query(dev, f, ps, p + 1, 0))
                    },
                    _ => took(post, after, r, live_query(dev, f, ps, p + 1, 0)),
                }
            },
            _ => load_fails_as(
                pre,
                post,
                before,
                after,
                r,
                "HID++ 2.0 load: "@ + "unexpected event"@,
            ),
        },
    }
}

impl Hidpp20Driver {
    /// The number of buttons whose bindings a sector holds, as the device
    /// stated it.
    pub open spec fn button_count_spec(self) -> int {
        match self.cached_onboard_info {
            Some(d) => d.button_count as int,
            None => 0,
        }
    }

    /// The size of a sector, as the device stated it.
    pub open spec fn sector_size_spec(self) -> u16 {
        match self.cached_onboard_info {
            Some(d) => d.spec_sector_size(),
            None => 0,
        }
    }

    /// The number of profiles that the device holds, as it stated it.
    pub open spec fn profile_count_spec(self) -> nat {
        match self.cached_onboard_info {
            Some(d) => d.spec_profile_count(),
            None => 0,
        }
    }

    fn button_count(&self) -> (r: usize)
        ensures
            r == self.button_count_spec(),
    {
        match &self.cached_onboard_info {
            Some(d) => d.button_count as usize,
            None => 0,
        }
    }

    fn sector_size(&self) -> (r: u16)
        ensures
            r == self.sector_size_spec(),
    {
        match &self.cached_onboard_info {
            Some(d) => d.sector_size(),
            None => 0,
        }
    }

    /// Finds the next query for the live settings, from profile `p` and
    /// phase `phase` on, or ends the load.
    fn load_phase(&mut self, info: &DeviceInfo, p: usize, phase: u8) -> (r: DriverAction)
        ensures
            load_keeps(*old(self), *final(self), info@, info@),
            cache_kept(*old(self), *final(self)),
            took(
                *final(self),
                info@,
                r@,
                live_query(
                    old(self).device_index,
                    old(self).features,
                    info@.profiles,
                    p as int,
                    phase as int,
                ),
            ),
            final(self).stage.wf(),
            r@.ends() ==> final(self).stage is Idle,
    {
        let ghost dev = self.device_index;
        let ghost f = self.features;
        let ghost ps = info@.profiles;
        let ghost first = live_query(dev, f, ps, p as int, phase as int);
        let mut cur = p;
        let mut step = phase;
        while cur < info.profiles.len()
            invariant
                *self == *old(self),
                dev == self.device_index,
                f == self.features,
                ps == info@.profiles,
                first == live_query(dev, f, ps, p as int, phase as int),
                first == live_query(dev, f, ps, cur as int, step as int),
            decreases info.profiles@.len() - cur,
        {
            assert(ps.len() == info.profiles@.len());
            assert(ps[cur as int] == info.profiles@[cur as int]@);
            if step == 0 {
                match self.features.adjustable_dpi {
                    Some(idx) => {
                        self.stage = Stage::LoadSensorCount { p: cur };
                        let params = [0u8];
                        assert(params@ =~= seq![0u8]);
                        return self.call(idx, DPI_FN_GET_SENSOR_COUNT, params.as_slice());
                    },
                    None => {},
                }
            }
            if step <= 1 {
                match self.features.report_rate {
                    Some(idx) => {
                        self.stage = Stage::LoadRateList { p: cur };
                        let params: [u8; 0] = [];
                        assert(params@ =~= Seq::<u8>::empty());
                        return self.call(idx, RATE_FN_GET_REPORT_RATE_LIST, params.as_slice());
                    },
                    None => {},
                }
            }
            match self.features.color_led_effects {
                Some(idx) => {
                    if info.profiles[cur].leds.len() > 0 {
                        assert(ps[cur as int].leds[0] == info.profiles@[cur as int].leds@[0]@);
                        self.stage = Stage::LoadLed { p: cur, l: 0 };
                        let params = [(info.profiles[cur].leds[0].index % 256) as u8];
                        assert(params@ =~= seq![zone_of(ps[cur as int].leds[0].index)]);
                        return self.call(idx, LED_FN_GET_ZONE_EFFECT, params.as_slice());
                    }
                },
                None => {},
            }
            cur += 1;
            step = 0;
        }
        self.stage = Stage::Idle;
        DriverAction::Done
    }

    /// Goes on with the live settings of the profile after `p`.
    fn load_after(&mut self, info: &DeviceInfo, p: usize) -> (r: DriverAction)
        ensures
            load_keeps(*old(self), *final(self), info@, info@),
            cache_kept(*old(self), *final(self)),
            took(
                *final(self),
                info@,
                r@,
                live_query(old(self).device_index, old(self).features, info@.profiles, p + 1, 0),
            ),
            final(self).stage.wf(),
            r@.ends() ==> final(self).stage is Idle,
    {
        if p < usize::MAX {
            self.load_phase(info, p + 1, 0)
        } else {
            let count = info.profiles.len();
            assert(info@.profiles.len() == count);
            self.stage = Stage::Idle;
            DriverAction::Done
        }
    }

    /// Makes the first profile the active one, then turns to the live
    /// settings.
    fn load_enter_profiles(&mut self, info: &mut DeviceInfo) -> (r: DriverAction)
        ensures
            load_keeps(*old(self), *final(self), old(info)@, final(info)@),
            cache_kept(*old(self), *final(self)),
            took(
                *final(self),
                final(info)@,
                r@,
                enter_live(old(self).device_index, old(self).features, old(info)@.profiles),
            ),
            final(self).stage.wf(),
            r@.ends() ==> final(self).stage is Idle,
    {
        if info.profiles.len() > 0 {
            info.profiles[0].is_active = true;
        }
        assert(info@.profiles =~= first_made_active(old(info)@.profiles));
        self.load_phase(info, 0, 0)
    }

    /// Takes the bytes of the sector of profile `i`: a wrong checksum
    /// raises the repair flag, and the data is used all the same.
    fn load_sector_done(&mut self, info: &mut DeviceInfo, i: usize, enabled: bool, data: &Vec<u8>)
        ensures
            load_keeps(*old(self), *final(self), old(info)@, final(info)@),
            final(self).needs_eeprom_repair == (old(self).needs_eeprom_repair || !sector_crc_ok(
                data@,
            )),
            final(self).cached_onboard_info == old(self).cached_onboard_info,
            final(self).cached_report_rate_hz == old(self).cached_report_rate_hz,
            final(self).stage == old(self).stage,
            final(info)@.profiles == with_profile(
                old(info)@.profiles,
                i as int,
                profile_after_sector(
                    old(info)@.profiles[i as int],
                    data@,
                    enabled,
                    old(self).button_count_spec(),
                ),
            ),
    {
        if !Self::verify_sector_crc(0, data.as_slice()) {
            self.needs_eeprom_repair = true;
        }
        let buttons = self.button_count();
        if i < info.profiles.len() {
            apply_profile_sector(&mut info.profiles[i], data.as_slice(), enabled, buttons);
            assert(info@.profiles =~= old(info)@.profiles.update(
                i as int,
                profile_after_sector(
                    old(info)@.profiles[i as int],
                    data@,
                    enabled,
                    old(self).button_count_spec(),
                ),
            ));
        } else {
            assert(info@.profiles =~= old(info)@.profiles);
        }
    }

    /// Starts reading the sector of the next profile that has one, from
    /// profile `i` on; turns to the live settings where none is left.
    fn load_next_sector(&mut self, info: &mut DeviceInfo, i: usize, dir: Directory) -> (r:
        DriverAction)
        ensures
            load_keeps(*old(self), *final(self), old(info)@, final(info)@),
            cache_kept(*old(self), *final(self)),
            took(
                *final(self),
                final(info)@,
                r@,
                sector_turn(
                    old(self).device_index,
                    old(self).features,
                    old(self).sector_size_spec(),
                    dir@,
                    i as int,
                    old(info)@.profiles,
                ),
            ),
            final(self).stage.wf(),
            r@.ends() ==> final(self).stage is Idle,
    {
        let size = self.sector_size();
        match self.features.onboard_profiles {
            Some(idx) => {
                if size > 0 && dir.addrs.len() == dir.enabled.len() {
                    let mut j = i;
                    while j < dir.addrs.len()
                        invariant
                            i <= j,
                            *self == *old(self),
                            *info == *old(info),
                            old(self).features.onboard_profiles == Some(idx),
                            next_sector(dir@, i as int) == next_sector(dir@, j as int),
                            size > 0,
                            size == old(self).sector_size_spec(),
                            dir@.addrs.len() == dir@.enabled.len(),
                        decreases dir.addrs@.len() - j,
                    {
                        let addr = dir.addrs[j];
                        if addr != 0xFFFF && addr != 0 {
                            let read = SectorRead::new(addr, 0, size);
                            let params = read.next_request();
                            self.stage = Stage::LoadProfile { i: j, dir, read };
                            return self.call(idx, PROFILES_FN_MEMORY_READ, params.as_slice());
                        }
                        j += 1;
                    }
                    assert(next_sector(dir@, i as int) >= dir@.addrs.len());
                }
            },
            None => {},
        }
        self.load_enter_profiles(info)
    }

    /// Takes the bytes of the directory sector. A directory with a wrong
    /// checksum raises the repair flag and is not used: every profile is
    /// then looked for in the sector after its ordinal.
    fn load_root_done(&mut self, info: &mut DeviceInfo, data: &Vec<u8>) -> (r: DriverAction)
        ensures
            load_keeps(*old(self), *final(self), old(info)@, final(info)@),
            final(self).needs_eeprom_repair == (old(self).needs_eeprom_repair || !sector_crc_ok(
                data@,
            )),
            final(self).cached_onboard_info == old(self).cached_onboard_info,
            final(self).cached_report_rate_hz == old(self).cached_report_rate_hz,
            took(
                *final(self),
                final(info)@,
                r@,
                sector_turn(
                    old(self).device_index,
                    old(self).features,
                    old(self).sector_size_spec(),
                    directory_of(data@, old(self).profile_count_spec()),
                    0,
                    old(info)@.profiles,
                ),
            ),
            final(self).stage.wf(),
            r@.ends() ==> final(self).stage is Idle,
    {
        if !Self::verify_sector_crc(0, data.as_slice()) {
            self.needs_eeprom_repair = true;
        }
        let count: usize = match &self.cached_onboard_info {
            Some(d) => d.effective_profile_count(),
            None => 0,
        };
        let dir = read_directory(data.as_slice(), count);
        self.load_next_sector(info, 0, dir)
    }

    /// Takes the description of the memory: the device state is sized to
    /// it, and the directory sector is asked for.
    fn load_described(&mut self, info: &mut DeviceInfo, idx: u8, p: &[u8; 16]) -> (r: DriverAction)
        requires
            old(self).features.onboard_profiles == Some(idx),
        ensures
            load_keeps(*old(self), *final(self), old(info)@, final(info)@),
            final(self).stage.wf(),
            r@.ends() ==> final(self).stage is Idle,
            final(self).cached_onboard_info is Some,
            final(self).cached_onboard_info->0.bytes() == p@,
            final(self).cached_report_rate_hz == old(self).cached_report_rate_hz,
            ({
                let desc = final(self).cached_onboard_info->0;
                let fitted = fitted_profiles(
                    old(info)@.profiles,
                    desc.spec_profile_count() as int,
                    desc.button_count as int,
                );
                if desc.spec_sector_size() == 0 {
                    final(self).needs_eeprom_repair && took(
                        *final(self),
                        final(info)@,
                        r@,
                        enter_live(old(self).device_index, old(self).features, all_enabled(fitted)),
                    )
                } else {
                    final(self).needs_eeprom_repair == old(self).needs_eeprom_repair && took(
                        *final(self),
                        final(info)@,
                        r@,
                        Turn {
                            stage: StageModel::LoadRoot {
                                read: whole_sector(0, desc.spec_sector_size()),
                            },
                            action: feature_call(
                                old(self).device_index,
                                idx,
                                PROFILES_FN_MEMORY_READ,
                                whole_sector(0, desc.spec_sector_size()).request_params(),
                            ),
                            profiles: fitted,
                        },
                    )
                }
            }),
    {
        let desc = Hidpp20OnboardProfilesInfo::from_bytes(p);
        self.cached_onboard_info = Some(desc);
        let count = desc.effective_profile_count();
        fit_profiles(info, count, desc.button_count as usize);
        let size = desc.sector_size();
        if size == 0 {
            // A device without memory behind its sectors: every sector reads
            // as nothing. What is nothing has no checksum, and says nothing
            // of a profile but that it is there.
            self.needs_eeprom_repair = true;
            let ghost fitted = info@.profiles;
            let mut i: usize = 0;
            while i < info.profiles.len()
                invariant
                    i <= info.profiles@.len(),
                    info.profiles@.len() == fitted.len(),
                    forall|k: int|
                        0 <= k < i ==> (#[trigger] info.profiles@[k])@ == all_enabled(fitted)[k],
                    forall|k: int|
                        i <= k < info.profiles@.len() ==> (#[trigger] info.profiles@[k])@
                            == fitted[k],
                    info.sysname@ == old(info).sysname@,
                    info.name@ == old(info).name@,
                    info.model@ == old(info).model@,
                    info.firmware_version@ == old(info).firmware_version@,
                    info.driver_config@ == old(info).driver_config@,
                decreases info.profiles@.len() - i,
            {
                info.profiles[i].is_enabled = true;
                i += 1;
            }
            assert(info@.profiles =~= all_enabled(fitted));
            self.load_enter_profiles(info)
        } else {
            let read = SectorRead::new(0, 0, size);
            let params = read.next_request();
            self.stage = Stage::LoadRoot { read };
            self.call(idx, PROFILES_FN_MEMORY_READ, params.as_slice())
        }
    }

    /// Takes the effect of LED `l` of profile `p`, and asks for the effect
    /// of the next LED or goes on with the next profile.
    fn load_led(&mut self, info: &mut DeviceInfo, idx: u8, p: usize, l: usize, d: &[u8; 16]) -> (r:
        DriverAction)
        requires
            old(self).features.color_led_effects == Some(idx),
        ensures
            load_keeps(*old(self), *final(self), old(info)@, final(info)@),
            cache_kept(*old(self), *final(self)),
            final(self).stage.wf(),
            r@.ends() ==> final(self).stage is Idle,
            ({
                let dev = old(self).device_index;
                let f = old(self).features;
                let ps = old(info)@.profiles;
                if p < ps.len() && l < ps[p as int].leds.len() {
                    let led = ps[p as int].leds[l as int];
                    let qs = if d@[0] == zone_of(led.index) {
                        ps.update(
                            p as int,
                            ProfileModel {
                                leds: ps[p as int].leds.update(
                                    l as int,
                                    led_after_zone(led, d@.subrange(1, 12)),
                                ),
                                ..ps[p as int]
                            },
                        )
                    } else {
                        ps
                    };
                    if l + 1 < ps[p as int].leds.len() {
                        took(
                            *final(self),
                            final(info)@,
                            r@,
                            Turn {
                                stage: StageModel::LoadLed { p, l: (l + 1) as usize },
                                action: feature_call(
                                    dev,
                                    idx,
                                    LED_FN_GET_ZONE_EFFECT,
                                    seq![zone_of(ps[p as int].leds[l + 1].index)],
                                ),
                                profiles: qs,
                            },
                        )
                    } else {
                        took(*final(self), final(info)@, r@, live_query(dev, f, qs, p + 1, 0))
                    }
                } else {
                    took(*final(self), final(info)@, r@, live_query(dev, f, ps, p + 1, 0))
                }
            }),
    {
        let ghost ps = info@.profiles;
        if p < info.profiles.len() && l < info.profiles[p].leds.len() {
            assert(ps[p as int] == info.profiles@[p as int]@);
            assert(ps[p as int].leds[l as int] == info.profiles@[p as int].leds@[l as int]@);
            let zone = (info.profiles[p].leds[l].index % 256) as u8;
            if d[0] == zone {
                let payload = take_bytes::<11>(d.as_slice(), 1);
                apply_led_zone(&mut info.profiles[p].leds[l], &payload);
                assert(info@.profiles =~= ps.update(
                    p as int,
                    ProfileModel {
                        leds: ps[p as int].leds.update(
                            l as int,
                            led_after_zone(ps[p as int].leds[l as int], d@.subrange(1, 12)),
                        ),
                        ..ps[p as int]
                    },
                )) by {
                    assert(info@.profiles[p as int].leds =~= ps[p as int].leds.update(
                        l as int,
                        led_after_zone(ps[p as int].leds[l as int], d@.subrange(1, 12)),
                    ));
                }
            }
            if l + 1 < info.profiles[p].leds.len() {
                assert(ps[p as int].leds[l + 1] == info.profiles@[p as int].leds@[l + 1]@);
                self.stage = Stage::LoadLed { p, l: l + 1 };
                let params = [(info.profiles[p].leds[l + 1].index % 256) as u8];
                assert(params@ =~= seq![zone_of(ps[p as int].leds[l + 1].index)]);
                return self.call(idx, LED_FN_GET_ZONE_EFFECT, params.as_slice());
            }
        }
        self.load_after(info, p)
    }

    /// The first step of a load.
    fn load_start(&mut self, info: &mut DeviceInfo) -> (r: DriverAction)
        ensures
            load_post(
                *old(self),
                old(info)@,
                DriverEventModel::Start,
                *final(self),
                final(info)@,
                r@,
            ),
            final(self).stage.wf(),
            r@.ends() ==> final(self).stage is Idle,
    {
        match self.features.onboard_profiles {
            Some(idx) => {
                self.stage = Stage::LoadDescriptor;
                let params: [u8; 0] = [];
                assert(params@ =~= Seq::<u8>::empty());
                self.call(idx, PROFILES_FN_GET_PROFILES_DESCR, params.as_slice())
            },
            None => {
                if info.profiles.len() == 0 {
                    info.profiles.push(ProfileInfo::default());
                    assert(info@.profiles =~= seq![ProfileInfo::blank()]);
                }
                self.load_enter_profiles(info)
            },
        }
    }

    /// The step that takes the description of the memory.
    fn load_descriptor(&mut self, info: &mut DeviceInfo, event: DriverEvent) -> (r: DriverAction)
        requires
            !(event is Start),
            old(self).stage is LoadDescriptor,
        ensures
            load_post(*old(self), old(info)@, event@, *final(self), final(info)@, r@),
            final(self).stage.wf(),
            r@.ends() ==> final(self).stage is Idle,
    {
        let mut stage = Stage::Idle;
        core::mem::swap(&mut self.stage, &mut stage);
        let ghost ps = info@.profiles;
        match stage {
            Stage::LoadDescriptor => {
                match (event_payload(&event), self.features.onboard_profiles) {
                    (Some(p), Some(idx)) => self.load_described(info, idx, &p),
                    (Some(_), None) => DriverAction::Failed(
                        text2("HID++ 2.0: ", "the device has no onboard profiles"),
                    ),
                    (None, _) => DriverAction::Failed(
                        self.failure_text("Failed to get Onboard Profiles Description", &event),
                    ),
                }
            },
            _ => DriverAction::Failed(text2("HID++ 2.0 load: ", "unexpected event")),
        }
    }

    /// The step that takes a chunk of the directory sector.
    fn load_root(&mut self, info: &mut DeviceInfo, event: DriverEvent) -> (r: DriverAction)
        requires
            !(event is Start),
            old(self).stage is LoadRoot,
        ensures
            load_post(*old(self), old(info)@, event@, *final(self), final(info)@, r@),
            final(self).stage.wf(),
            r@.ends() ==> final(self).stage is Idle,
    {
        let mut stage = Stage::Idle;
        core::mem::swap(&mut self.stage, &mut stage);
        let ghost ps = info@.profiles;
        match stage {
            Stage::LoadRoot { read } => {
                let mut read = read;
                match (event_payload(&event), self.features.onboard_profiles) {
                    (Some(p), Some(idx)) => {
                        if !read.is_valid() || read.is_done() {
                            return DriverAction::Failed(
                                text2("HID++ 2.0: ", "inconsistent sector read"),
                            );
                        }
                        read.accept(&p);
                        if read.is_done() {
                            self.load_root_done(info, &read.data)
                        } else {
                            let params = read.next_request();
                            self.stage = Stage::LoadRoot { read };
                            self.call(idx, PROFILES_FN_MEMORY_READ, params.as_slice())
                        }
                    },
                    (Some(_), None) => DriverAction::Failed(
                        text2("HID++ 2.0: ", "the device has no onboard profiles"),
                    ),
                    (None, _) => DriverAction::Failed(
                        self.failure_text("Failed to read sector chunk", &event),
                    ),
                }
            },
            _ => DriverAction::Failed(text2("HID++ 2.0 load: ", "unexpected event")),
        }
    }

    /// The step that takes a chunk of a profile sector.
    fn load_profile(&mut self, info: &mut DeviceInfo, event: DriverEvent) -> (r: DriverAction)
        requires
            !(event is Start),
            old(self).stage is LoadProfile,
        ensures
            load_post(*old(self), old(info)@, event@, *final(self), final(info)@, r@),
            final(self).stage.wf(),
            r@.ends() ==> final(self).stage is Idle,
    {
        let mut stage = Stage::Idle;
        core::mem::swap(&mut self.stage, &mut stage);
        let ghost ps = info@.profiles;
        match stage {
            Stage::LoadProfile { i, dir, read } => {
                let mut read = read;
                match event_payload(&event) {
                    Some(p) => {
                        if !read.is_valid() || read.is_done() || i >= dir.enabled.len()
                            || dir.addrs.len() != dir.enabled.len() {
                            return self.load_enter_profiles(info);
                        }
                        read.accept(&p);
                        if read.is_done() {
                            let enabled = dir.enabled[i];
                            self.load_sector_done(info, i, enabled, &read.data);
                            self.load_next_sector(info, i + 1, dir)
                        } else {
                            match self.features.onboard_profiles {
                                Some(idx) => {
                                    let params = read.next_request();
                                    self.stage = Stage::LoadProfile { i, dir, read };
                                    self.call(idx, PROFILES_FN_MEMORY_READ, params.as_slice())
                                },
                                None => self.load_enter_profiles(info),
                            }
                        }
                    },
                    None => {
                        if i < usize::MAX {
                            self.load_next_sector(info, i + 1, dir)
                        } else {
                            let count = dir.addrs.len();
                            assert(next_sector(dir@, i + 1) >= dir@.addrs.len());
                            self.load_enter_profiles(info)
                        }
                    },
                }
            },
            _ => DriverAction::Failed(text2("HID++ 2.0 load: ", "unexpected event")),
        }
    }

    /// The step that takes the sensor count.
    fn load_sensor_count(&mut self, info: &mut DeviceInfo, event: DriverEvent) -> (r: DriverAction)
        requires
            !(event is Start),
            old(self).stage is LoadSensorCount,
        ensures
            load_post(*old(self), old(info)@, event@, *final(self), final(info)@, r@),
            final(self).stage.wf(),
            r@.ends() ==> final(self).stage is Idle,
    {
        let mut stage = Stage::Idle;
        core::mem::swap(&mut self.stage, &mut stage);
        let ghost ps = info@.profiles;
        match stage {
            Stage::LoadSensorCount { p } => {
                match (event_payload(&event), self.features.adjustable_dpi) {
                    (Some(d), Some(idx)) => {
                        if d[0] != 0 {
                            self.stage = Stage::LoadDpiList { p };
                            let params = [0u8];
                            assert(params@ =~= seq![0u8]);
                            self.call(idx, DPI_FN_GET_SENSOR_DPI_LIST, params.as_slice())
                        } else {
                            self.load_phase(info, p, 1)
                        }
                    },
                    _ => self.load_phase(info, p, 1),
                }
            },
            _ => DriverAction::Failed(text2("HID++ 2.0 load: ", "unexpected event")),
        }
    }

    /// The step that takes the list of DPI values.
    fn load_dpi_list(&mut self, info: &mut DeviceInfo, event: DriverEvent) -> (r: DriverAction)
        requires
            !(event is Start),
            old(self).stage is LoadDpiList,
        ensures
            load_post(*old(self), old(info)@, event@, *final(self), final(info)@, r@),
            final(self).stage.wf(),
            r@.ends() ==> final(self).stage is Idle,
    {
        let mut stage = Stage::Idle;
        core::mem::swap(&mut self.stage, &mut stage);
        let ghost ps = info@.profiles;
        match stage {
            Stage::LoadDpiList { p } => {
                match (event_payload(&event), self.features.adjustable_dpi) {
                    (Some(d), Some(idx)) => {
                        let list = parse_dpi_list(&d);
                        self.stage = Stage::LoadSensorDpi { p, list };
                        let params = [0u8];
                        assert(params@ =~= seq![0u8]);
                        self.call(idx, DPI_FN_GET_SENSOR_DPI, params.as_slice())
                    },
                    _ => self.load_phase(info, p, 1),
                }
            },
            _ => DriverAction::Failed(text2("HID++ 2.0 load: ", "unexpected event")),
        }
    }

    /// The step that takes the current DPI.
    fn load_sensor_dpi(&mut self, info: &mut DeviceInfo, event: DriverEvent) -> (r: DriverAction)
        requires
            !(event is Start),
            old(self).stage is LoadSensorDpi,
        ensures
            load_post(*old(self), old(info)@, event@, *final(self), final(info)@, r@),
            final(self).stage.wf(),
            r@.ends() ==> final(self).stage is Idle,
    {
        let mut stage = Stage::Idle;
        core::mem::swap(&mut self.stage, &mut stage);
        let ghost ps = info@.profiles;
        match stage {
            Stage::LoadSensorDpi { p, list } => {
                match event_payload(&event) {
                    Some(d) => {
                        let current = u16_from_be(d[1], d[2]);
                        if p < info.profiles.len() {
                            assert(ps[p as int] == info.profiles@[p as int]@);
                            apply_sensor_dpi(&mut info.profiles[p], &list, current);
                            assert(info@.profiles =~= ps.update(
                                p as int,
                                profile_after_dpi(ps[p as int], list@, current),
                            ));
                        }
                    },
                    None => {},
                }
                self.load_phase(info, p, 1)
            },
            _ => DriverAction::Failed(text2("HID++ 2.0 load: ", "unexpected event")),
        }
    }

    /// The step that takes the list of report rates.
    fn load_rate_list(&mut self, info: &mut DeviceInfo, event: DriverEvent) -> (r: DriverAction)
        requires
            !(event is Start),
            old(self).stage is LoadRateList,
        ensures
            load_post(*old(self), old(info)@, event@, *final(self), final(info)@, r@),
            final(self).stage.wf(),
            r@.ends() ==> final(self).stage is Idle,
    {
        let mut stage = Stage::Idle;
        core::mem::swap(&mut self.stage, &mut stage);
        let ghost ps = info@.profiles;
        match stage {
            Stage::LoadRateList { p } => {
                match (event_payload(&event), self.features.report_rate) {
                    (Some(d), Some(idx)) => {
                        if p < info.profiles.len() {
                            assert(ps[p as int] == info.profiles@[p as int]@);
                            info.profiles[p].report_rates = report_rates_from_bitmap(d[0]);
                            assert(info@.profiles =~= ps.update(
                                p as int,
                                ProfileModel {
                                    report_rates: rates_of_bitmap(d@[0], 0),
                                    ..ps[p as int]
                                },
                            ));
                        }
                        self.stage = Stage::LoadRate { p };
                        let params: [u8; 0] = [];
                        assert(params@ =~= Seq::<u8>::empty());
                        self.call(idx, RATE_FN_GET_REPORT_RATE, params.as_slice())
                    },
                    _ => self.load_phase(info, p, 2),
                }
            },
            _ => DriverAction::Failed(text2("HID++ 2.0 load: ", "unexpected event")),
        }
    }

    /// The step that takes the current report rate.
    fn load_rate(&mut self, info: &mut DeviceInfo, event: DriverEvent) -> (r: DriverAction)
        requires
            !(event is Start),
            old(self).stage is LoadRate,
        ensures
            load_post(*old(self), old(info)@, event@, *final(self), final(info)@, r@),
            final(self).stage.wf(),
            r@.ends() ==> final(self).stage is Idle,
    {
        let mut stage = Stage::Idle;
        core::mem::swap(&mut self.stage, &mut stage);
        let ghost ps = info@.profiles;
        match stage {
            Stage::LoadRate { p } => {
                match event_payload(&event) {
                    Some(d) => {
                        match rate_from_interval(d[0]) {
                            Some(hz) => {
                                if p < info.profiles.len() {
                                    assert(ps[p as int] == info.profiles@[p as int]@);
                                    info.profiles[p].report_rate = hz;
                                    self.cached_report_rate_hz = hz;
                                    assert(info@.profiles =~= ps.update(
                                        p as int,
                                        ProfileModel { report_rate: hz, ..ps[p as int] },
                                    ));
                                }
                            },
                            None => {},
                        }
                    },
                    None => {},
                }
                self.load_phase(info, p, 2)
            },
            _ => DriverAction::Failed(text2("HID++ 2.0 load: ", "unexpected event")),
        }
    }

    /// The step that takes the effect of an LED.
    fn load_led_effect(&mut self, info: &mut DeviceInfo, event: DriverEvent) -> (r: DriverAction)
        requires
            !(event is Start),
            old(self).stage is LoadLed,
        ensures
            load_post(*old(self), old(info)@, event@, *final(self), final(info)@, r@),
            final(self).stage.wf(),
            r@.ends() ==> final(self).stage is Idle,
    {
        let mut stage = Stage::Idle;
        core::mem::swap(&mut self.stage, &mut stage);
        let ghost ps = info@.profiles;
        match stage {
            Stage::LoadLed { p, l } => {
                match (event_payload(&event), self.features.color_led_effects) {
                    (Some(d), Some(idx)) => self.load_led(info, idx, p, l, &d),
                    _ => self.load_after(info, p),
                }
            },
            _ => DriverAction::Failed(text2("HID++ 2.0 load: ", "unexpected event")),
        }
    }

    /// One step of loading the profiles.
    pub fn load_step(&mut self, info: &mut DeviceInfo, event: DriverEvent) -> (r: DriverAction)
        ensures
            load_post(*old(self), old(info)@, event@, *final(self), final(info)@, r@),
            final(self).stage.wf(),
            r@.ends() ==> final(self).stage is Idle,
    {
        match event {
            DriverEvent::Start => {
                self.stage = Stage::Idle;
                self.load_start(info)
            },
            _ => match self.stage {
                Stage::LoadDescriptor => self.load_descriptor(info, event),
                Stage::LoadRoot { .. } => self.load_root(info, event),
                Stage::LoadProfile { .. } => self.load_profile(info, event),
                Stage::LoadSensorCount { .. } => self.load_sensor_count(info, event),
                Stage::LoadDpiList { .. } => self.load_dpi_list(info, event),
                Stage::LoadSensorDpi { .. } => self.load_sensor_dpi(info, event),
                Stage::LoadRateList { .. } => self.load_rate_list(info, event),
                Stage::LoadRate { .. } => self.load_rate(info, event),
                Stage::LoadLed { .. } => self.load_led_effect(info, event),
                _ => {
                    self.stage = Stage::Idle;
                    DriverAction::Failed(text2("HID++ 2.0 load: ", "unexpected event"))
                },
            },
        }
    }
}

/// The queries for the live settings never change a profile and never fail
/// the load; the load is done exactly where the driver is idle after them.
pub proof fn lemma_live_query_asks(dev: u8, f: FeatureMap, ps: Seq<ProfileModel>, p: int, phase: int)
    ensures
        live_query(dev, f, ps, p, phase).profiles == ps,
        !(live_query(dev, f, ps, p, phase).action is Failed),
        live_query(dev, f, ps, p, phase).action is Done <==> live_query(dev, f, ps, p, phase).stage
            == StageModel::Idle,
    decreases ps.len() - p,
{
    if 0 <= p < ps.len() && !(phase == 0 && f.adjustable_dpi is Some) && !(phase <= 1
        && f.report_rate is Some) && !(f.color_led_effects is Some && ps[p].leds.len() > 0) {
        lemma_live_query_asks(dev, f, ps, p + 1, 0);
    }
}

/// A device that has none of the features for live settings is asked for
/// none: the load is done at once.
pub proof fn lemma_no_live_features(dev: u8, f: FeatureMap, ps: Seq<ProfileModel>, p: int, phase: int)
    requires
        f.adjustable_dpi is None,
        f.report_rate is None,
        f.color_led_effects is None,
    ensures
        live_query(dev, f, ps, p, phase) == (Turn {
            stage: StageModel::Idle,
            action: ActionModel::Done,
            profiles: ps,
        }),
    decreases ps.len() - p,
{
    if 0 <= p < ps.len() {
        lemma_no_live_features(dev, f, ps, p + 1, 0);
    }
}

/// A directory sector whose checksum is wrong does not stop the load: the
/// step that completes the sector raises the repair flag and goes on with
/// the first profile, which it looks for in sector 1; every profile is
/// looked for in the sector after its ordinal.
pub proof fn lemma_corrupt_directory_loads(
    pre: Hidpp20Driver,
    before: DeviceModel,
    ev: DriverEventModel,
    post: Hidpp20Driver,
    after: DeviceModel,
    r: ActionModel,
)
    requires
        load_post(pre, before, ev, post, after, r),
        pre.stage is LoadRoot,
        pre.stage.wf(),
        pre.features.onboard_profiles is Some,
        pre.sector_size_spec() > 0,
        pre.cached_onboard_info is Some,
        payload_of(ev) is Some,
        pre.stage->LoadRoot_read@.accept(payload_of(ev)->0).done(),
        !sector_crc_ok(pre.stage->LoadRoot_read@.accept(payload_of(ev)->0).data),
    ensures
        post.needs_eeprom_repair,
        post.stage@ == (StageModel::LoadProfile {
            i: 0,
            dir: crate::driver::hidpp20_memory::default_directory(pre.profile_count_spec()),
            read: whole_sector(1, pre.sector_size_spec()),
        }),
        !r.ends(),
        forall|k: int|
            0 <= k < pre.profile_count_spec() ==> post.stage->LoadProfile_dir@.addrs[k] == k + 1,
{
    let data = pre.stage->LoadRoot_read@.accept(payload_of(ev)->0).data;
    let count = pre.profile_count_spec();
    crate::driver::hidpp20_memory::lemma_corrupt_directory_degrades(data, count);
    let dir = directory_of(data, count);
    assert(dir.addrs.len() == count && dir.enabled.len() == count);
    assert(dir.addrs[0] == 1);
    assert(next_sector(dir, 0) == 0);
}

} // verus!
