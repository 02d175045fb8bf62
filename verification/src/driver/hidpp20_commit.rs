//! Committing staged changes to a HID++ 2.0 device, step by step.
//!
//! The live settings of the active profile go first, where that profile is
//! dirty: the DPI, the report rate and the LED effects. A device with
//! onboard profiles is then switched
//! to host mode; the sector of every dirty profile is read, patched and
//! written, the directory is rebuilt where a profile was written, and the
//! device is switched back to onboard mode. The switch back is made
//! whatever happened in between, and only the step that takes its reply
//! ends the commit.

use vstd::prelude::*;
use crate::device::{DeviceInfo, DeviceModel, LedMode, LedModel, ProfileModel};
use crate::driver::{ActionModel, DeviceDriver, DriverAction, DriverEvent, DriverEventModel};
use crate::driver::hidpp::{hi8, lo8, u16_hi, u16_lo};
use crate::driver::hidpp20::{
    build_led_write, interval_from_rate, interval_of_rate, led_write_params, low16, FeatureMap,
    DPI_FN_SET_SENSOR_DPI, LED_FN_SET_ZONE_EFFECT, ONBOARD_MODE_HOST, ONBOARD_MODE_ONBOARD,
    PROFILES_FN_MEMORY_ADDR_WRITE, PROFILES_FN_MEMORY_READ, PROFILES_FN_MEMORY_WRITE,
    PROFILES_FN_MEMORY_WRITE_END, PROFILES_FN_SET_MODE, RATE_FN_SET_REPORT_RATE,
};
use crate::driver::hidpp20_driver::{
    call_failure, commit_dpi_of, dpi_to_commit, event_payload, feature_call,
    find_active_profile, first_active, payload_of, probe_post, text2, Hidpp20Driver, Stage,
    StageModel,
};
use crate::driver::hidpp20_load::{load_post, whole_sector};
use crate::driver::hidpp20_memory::{
    build_directory, directory_bytes, SectorRead, SectorWrite, SectorWriteModel, WriteCall,
    WritePhase, WriteStep,
};
use crate::driver::hidpp20_profile::{patch_profile_sector, sector_after_patch};

verus! {

/// What every step of a commit leaves alone: the address and the features
/// found at probe time and what the load cached.
pub open spec fn commit_keeps(pre: Hidpp20Driver, post: Hidpp20Driver) -> bool {
    &&& post.device_index == pre.device_index
    &&& post.features == pre.features
    &&& post.version == pre.version
    &&& post.cached_onboard_info == pre.cached_onboard_info
    &&& post.cached_report_rate_hz == pre.cached_report_rate_hz
}

/// What the steps inside the host-mode window leave alone as well: what
/// the commit found when it entered the window.
pub open spec fn window_keeps(pre: Hidpp20Driver, post: Hidpp20Driver) -> bool {
    &&& post.mem_feature == pre.mem_feature
    &&& post.mem_sector_size == pre.mem_sector_size
    &&& post.mem_buttons == pre.mem_buttons
    &&& post.force_repair == pre.force_repair
    &&& post.needs_eeprom_repair == pre.needs_eeprom_repair
}

/// What a step leaves alone where no write ended in it: whether a sector
/// was written, and the last failure.
pub open spec fn progress_kept(pre: Hidpp20Driver, post: Hidpp20Driver) -> bool {
    post.any_written == pre.any_written && post.last_error == pre.last_error
}

/// What the steps before the host-mode window leave alone: the repair flag
/// and what the commit took over from it, and the progress.
pub open spec fn flags_kept(pre: Hidpp20Driver, post: Hidpp20Driver) -> bool {
    &&& post.needs_eeprom_repair == pre.needs_eeprom_repair
    &&& post.force_repair == pre.force_repair
    &&& progress_kept(pre, post)
}

/// The sector in which a commit stores a profile: the one after its index.
pub open spec fn sector_of_profile(index: u32) -> u16 {
    ((index + 1) % 0x1_0000) as u16
}

/// The function of the onboard-profiles feature that a call of a sector
/// write invokes.
pub open spec fn write_function(call: WriteCall) -> u8 {
    match call {
        WriteCall::Announce => PROFILES_FN_MEMORY_ADDR_WRITE,
        WriteCall::Data => PROFILES_FN_MEMORY_WRITE,
        WriteCall::End => PROFILES_FN_MEMORY_WRITE_END,
    }
}

/// The switch of the device to a mode.
pub open spec fn mode_switch(d: Hidpp20Driver, mode: u8) -> ActionModel {
    feature_call(d.device_index, d.mem_feature, PROFILES_FN_SET_MODE, seq![mode])
}

impl Stage {
    /// Whether the stage belongs to the part of a commit before the
    /// host-mode window.
    pub open spec fn is_live_commit(self) -> bool {
        self is CommitDpi || self is CommitRate || self is CommitLed
    }
}

/// How a step of a commit goes on: the stage that the driver is in after
/// it, and the action that it answers with.
pub struct Move {
    pub stage: StageModel,
    pub action: ActionModel,
}

/// Whether a step went on as `m` says.
pub open spec fn made(post: Hidpp20Driver, r: ActionModel, m: Move) -> bool {
    post.stage@ == m.stage && r == m.action
}

/// What a commit knows of the onboard memory while the device is in host
/// mode: the index of the onboard-profiles feature, the size of a sector
/// and the number of buttons that a sector binds.
pub struct Memory {
    pub feature: u8,
    pub size: u16,
    pub buttons: usize,
}

/// The write of a whole sector, nothing sent yet.
pub open spec fn whole_write(sector: u16, data: Seq<u8>) -> SectorWriteModel {
    SectorWriteModel { sector, offset: 0, data, failed: 0, phase: WritePhase::Announce }
}

/// A call of a sector write.
pub open spec fn write_call(dev: u8, m: Memory, w: SectorWriteModel) -> ActionModel {
    feature_call(dev, m.feature, write_function(w.call()), w.params())
}

/// The bytes of erased memory.
pub open spec fn blank(size: u16) -> Seq<u8> {
    Seq::new(size as nat, |i: int| 0xFFu8)
}

/// The switch back to onboard mode, which ends the host-mode window.
pub open spec fn leave_move(dev: u8, m: Memory) -> Move {
    Move {
        stage: StageModel::CommitOnboardMode,
        action: feature_call(dev, m.feature, PROFILES_FN_SET_MODE, seq![ONBOARD_MODE_ONBOARD]),
    }
}

/// What follows the last profile: the directory is written where a profile
/// sector was written; else the device leaves host mode.
pub open spec fn directory_move(dev: u8, m: Memory, ps: Seq<ProfileModel>, any_written: bool) -> Move {
    if any_written {
        Move {
            stage: StageModel::CommitDirectory {
                write: whole_write(0, directory_bytes(ps, m.size as int)),
            },
            action: write_call(dev, m, whole_write(0, directory_bytes(ps, m.size as int))),
        }
    } else {
        leave_move(dev, m)
    }
}

/// The start of the write of profile `i`: the bytes of its sector, patched
/// with what the profile holds and sealed with the checksum.
pub open spec fn write_move(dev: u8, m: Memory, i: usize, p: ProfileModel, data: Seq<u8>) -> Move {
    Move {
        stage: StageModel::CommitWrite {
            i,
            write: whole_write(
                sector_of_profile(p.index),
                sector_after_patch(data, p, m.buttons as int),
            ),
        },
        action: write_call(
            dev,
            m,
            whole_write(sector_of_profile(p.index), sector_after_patch(data, p, m.buttons as int)),
        ),
    }
}

/// The first profile from `i` on that is to be written: one that is dirty,
/// or any where every profile is written. The number of profiles where
/// there is none.
pub open spec fn next_due(ps: Seq<ProfileModel>, force: bool, i: int) -> int
    decreases ps.len() - i,
{
    if 0 <= i < ps.len() && !(ps[i].is_dirty || force) {
        next_due(ps, force, i + 1)
    } else {
        i
    }
}

/// The turn to the next profile that is to be written, from profile `i`
/// on: its sector is read first, unless the sectors have no size. Where no
/// profile is left, the directory follows.
pub open spec fn profile_move(
    dev: u8,
    m: Memory,
    ps: Seq<ProfileModel>,
    force: bool,
    any_written: bool,
    i: int,
) -> Move {
    let j = next_due(ps, force, i);
    if 0 <= i && j < ps.len() {
        if m.size == 0 {
            write_move(dev, m, j as usize, ps[j], Seq::empty())
        } else {
            Move {
                stage: StageModel::CommitRead {
                    i: j as usize,
                    read: whole_sector(sector_of_profile(ps[j].index), m.size),
                },
                action: feature_call(
                    dev,
                    m.feature,
                    PROFILES_FN_MEMORY_READ,
                    whole_sector(sector_of_profile(ps[j].index), m.size).request_params(),
                ),
            }
        }
    } else {
        directory_move(dev, m, ps, any_written)
    }
}

/// The feature through which an LED is written: that for RGB effects where
/// the LED shows three colors, else that for color LED effects.
pub open spec fn led_feature(f: FeatureMap, led: LedModel) -> Option<u8> {
    if led.mode == LedMode::TriColor {
        f.rgb_effects
    } else {
        f.color_led_effects
    }
}

/// The first LED from `l` on whose feature the device has, or the number of
/// LEDs.
pub open spec fn next_led(f: FeatureMap, leds: Seq<LedModel>, l: int) -> int
    decreases leds.len() - l,
{
    if 0 <= l < leds.len() && led_feature(f, leds[l]) is None {
        next_led(f, leds, l + 1)
    } else {
        l
    }
}

/// The next write of a live setting of the active profile `p`, from phase
/// `phase` on (0: the DPI, 1: the report rate, 2: the LEDs from `l` on), or
/// `None` where none is left.
///
/// The DPI is written where the device has adjustable DPI and the first
/// active resolution has one value for both axes. The report rate is
/// written where the device has an adjustable report rate and the rate is
/// not 0 and differs from the rate that the device was found to have. Each
/// LED is written through the feature for its mode, and passed over where
/// the device lacks that feature.
pub open spec fn live_move(
    dev: u8,
    f: FeatureMap,
    rate_hz: u32,
    p: ProfileModel,
    a: usize,
    phase: int,
    l: int,
) -> Option<Move> {
    let k = next_led(f, p.leds, l);
    if phase == 0 && f.adjustable_dpi is Some && commit_dpi_of(p) is Some {
        Some(
            Move {
                stage: StageModel::CommitDpi { a },
                action: feature_call(
                    dev,
                    f.adjustable_dpi->0,
                    DPI_FN_SET_SENSOR_DPI,
                    seq![
                        0u8,
                        hi8(low16(commit_dpi_of(p)->0)),
                        lo8(low16(commit_dpi_of(p)->0)),
                    ],
                ),
            },
        )
    } else if phase <= 1 && f.report_rate is Some && p.report_rate > 0 && p.report_rate != rate_hz {
        Some(
            Move {
                stage: StageModel::CommitRate { a },
                action: feature_call(
                    dev,
                    f.report_rate->0,
                    RATE_FN_SET_REPORT_RATE,
                    seq![interval_of_rate(p.report_rate)],
                ),
            },
        )
    } else if 0 <= l && k < p.leds.len() {
        Some(
            Move {
                stage: StageModel::CommitLed { a, l: k as usize },
                action: feature_call(
                    dev,
                    led_feature(f, p.leds[k])->0,
                    LED_FN_SET_ZONE_EFFECT,
                    led_write_params(p.leds[k]),
                ),
            },
        )
    } else {
        None
    }
}

impl Hidpp20Driver {
    /// What the driver knows of the onboard memory.
    pub open spec fn memory(self) -> Memory {
        Memory { feature: self.mem_feature, size: self.mem_sector_size, buttons: self.mem_buttons }
    }
}

/// The turn to the onboard memory: a device with onboard profiles whose
/// memory was described is switched to host mode, and the driver takes note
/// of what it knows of the memory. For any other device the commit is done.
pub open spec fn entered(pre: Hidpp20Driver, post: Hidpp20Driver, r: ActionModel) -> bool {
    match (pre.features.onboard_profiles, pre.cached_onboard_info) {
        (Some(idx), Some(desc)) => {
            &&& post.memory() == (Memory {
                feature: idx,
                size: desc.spec_sector_size(),
                buttons: desc.button_count as usize,
            })
            &&& made(
                post,
                r,
                Move {
                    stage: StageModel::CommitHostMode,
                    action: feature_call(
                        pre.device_index,
                        idx,
                        PROFILES_FN_SET_MODE,
                        seq![ONBOARD_MODE_HOST],
                    ),
                },
            )
        },
        _ => made(post, r, Move { stage: StageModel::Idle, action: ActionModel::Done }),
    }
}

/// A step of the part before the host-mode window: the next live setting of
/// the active profile `a` is written, from phase `phase` on, where that
/// profile is dirty. Where none is left, where the profile is not dirty,
/// and where the device state has no such profile, the onboard memory
/// follows.
pub open spec fn lived(
    pre: Hidpp20Driver,
    ps: Seq<ProfileModel>,
    post: Hidpp20Driver,
    r: ActionModel,
    a: usize,
    phase: int,
    l: int,
) -> bool {
    if a < ps.len() && ps[a as int].is_dirty {
        match live_move(
            pre.device_index,
            pre.features,
            pre.cached_report_rate_hz,
            ps[a as int],
            a,
            phase,
            l,
        ) {
            Some(m) => made(post, r, m),
            None => entered(pre, post, r),
        }
    } else {
        entered(pre, post, r)
    }
}

/// Whether the driver keeps the failure `text`.
pub open spec fn keeps_failure(post: Hidpp20Driver, text: Seq<char>) -> bool {
    post.last_error is Some && post.last_error->0@ == text
}

/// The failure of a write whose progress is inconsistent.
pub open spec fn inconsistent_write() -> Seq<char> {
    "HID++ 2.0: "@ + "inconsistent sector write"@
}

/// What the step after a call of a sector write does: the sequence goes on
/// with its next call, or pauses before it starts again, or ends. `rest`
/// says how the commit goes on after the write has ended, given whether a
/// profile sector has been written by then, and `why` is the failure that
/// is kept where the last attempt has failed.
pub open spec fn wrote(
    pre: Hidpp20Driver,
    post: Hidpp20Driver,
    r: ActionModel,
    write: SectorWriteModel,
    ok: bool,
    counts: bool,
    going: spec_fn(SectorWriteModel) -> StageModel,
    pausing: spec_fn(SectorWriteModel) -> StageModel,
    rest: spec_fn(bool) -> Move,
    why: Seq<char>,
) -> bool {
    if !write.wf() {
        &&& keeps_failure(post, inconsistent_write())
        &&& post.any_written == pre.any_written
        &&& made(post, r, rest(pre.any_written))
    } else {
        let step = write.after(ok);
        match step.1 {
            WriteStep::Call => progress_kept(pre, post) && made(
                post,
                r,
                Move {
                    stage: going(step.0),
                    action: write_call(pre.device_index, pre.memory(), step.0),
                },
            ),
            WriteStep::Backoff { ms } => progress_kept(pre, post) && made(
                post,
                r,
                Move { stage: pausing(step.0), action: ActionModel::Sleep(ms) },
            ),
            WriteStep::Done => {
                &&& post.any_written == (pre.any_written || counts)
                &&& post.last_error == pre.last_error
                &&& made(post, r, rest(post.any_written))
            },
            WriteStep::Failed => {
                &&& keeps_failure(post, why)
                &&& post.any_written == pre.any_written
                &&& made(post, r, rest(pre.any_written))
            },
        }
    }
}

/// What the step after a pause does: the write starts again, unless its
/// progress is inconsistent, in which case the device leaves host mode.
pub open spec fn resumed(
    pre: Hidpp20Driver,
    post: Hidpp20Driver,
    r: ActionModel,
    write: SectorWriteModel,
    going: spec_fn(SectorWriteModel) -> StageModel,
) -> bool {
    if !write.wf() {
        &&& keeps_failure(post, inconsistent_write())
        &&& post.any_written == pre.any_written
        &&& made(post, r, leave_move(pre.device_index, pre.memory()))
    } else {
        progress_kept(pre, post) && made(
            post,
            r,
            Move { stage: going(write), action: write_call(pre.device_index, pre.memory(), write) },
        )
    }
}

/// What a step of a commit does, given the driver before and after it, the
/// device state, the event and the action.
///
/// The first step takes over the repair flag: where it is up, every profile
/// is written. The live settings of the first active profile are written
/// one by one, where that profile is dirty: a commit writes nothing of a
/// profile that has no staged change. A failure to write the DPI or the
/// report rate is passed
/// over, and a failure to write an LED ends the writing of LEDs. A device
/// with onboard profiles is then switched to host mode. Every profile that
/// is dirty, or every profile where a repair is due, has its sector read
/// chunk by chunk, patched and written; a sector that cannot be read is
/// written afresh from erased memory. A write that fails is started again
/// after a pause that grows with each attempt; after the last attempt the
/// failure is kept, in words that say which call failed and why, and the
/// commit goes on with the next profile. Where a
/// profile sector was written the directory is written as well. The device
/// is then switched back to onboard mode, and the step after that ends the
/// commit: it succeeds where no failure was kept, and lowers the repair
/// flag; else it fails with the last failure, and raises the flag.
pub open spec fn commit_post(
    pre: Hidpp20Driver,
    info: DeviceModel,
    ev: DriverEventModel,
    post: Hidpp20Driver,
    r: ActionModel,
) -> bool {
    let dev = pre.device_index;
    let ps = info.profiles;
    let m = pre.memory();
    let ok = payload_of(ev) is Some;
    &&& commit_keeps(pre, post)
    &&& match ev {
        DriverEventModel::Start => {
            &&& !post.any_written
            &&& post.last_error is None
            &&& post.force_repair == pre.needs_eeprom_repair
            &&& post.needs_eeprom_repair == pre.needs_eeprom_repair
            &&& lived(pre, ps, post, r, first_active(ps, 0) as usize, 0, 0)
        },
        _ => match pre.stage@ {
            StageModel::CommitDpi { a } => flags_kept(pre, post) && lived(pre, ps, post, r, a, 1, 0),
            StageModel::CommitRate { a } => flags_kept(pre, post) && lived(
                pre,
                ps,
                post,
                r,
                a,
                2,
                0,
            ),
            StageModel::CommitLed { a, l } => flags_kept(pre, post) && if ok {
                lived(pre, ps, post, r, a, 2, l + 1)
            } else {
                entered(pre, post, r)
            },
            StageModel::CommitHostMode => {
                &&& window_keeps(pre, post)
                &&& progress_kept(pre, post)
                &&& made(post, r, profile_move(dev, m, ps, pre.force_repair, pre.any_written, 0))
            },
            StageModel::CommitRead { i, read } => {
                &&& window_keeps(pre, post)
                &&& progress_kept(pre, post)
                &&& if i >= ps.len() {
                    made(post, r, directory_move(dev, m, ps, pre.any_written))
                } else if ok && read.wf() && !read.done() {
                    let now = read.accept(payload_of(ev)->0);
                    if now.done() {
                        made(post, r, write_move(dev, m, i, ps[i as int], now.data))
                    } else {
                        made(
                            post,
                            r,
                            Move {
                                stage: StageModel::CommitRead { i, read: now },
                                action: feature_call(
                                    dev,
                                    m.feature,
                                    PROFILES_FN_MEMORY_READ,
                                    now.request_params(),
                                ),
                            },
                        )
                    }
                } else {
                    made(post, r, write_move(dev, m, i, ps[i as int], blank(m.size)))
                }
            },
            StageModel::CommitWrite { i, write } => {
                &&& window_keeps(pre, post)
                &&& wrote(
                    pre,
                    post,
                    r,
                    write,
                    ok,
                    true,
                    |w: SectorWriteModel| StageModel::CommitWrite { i, write: w },
                    |w: SectorWriteModel| StageModel::CommitBackoff { i, write: w },
                    |written: bool| profile_move(dev, m, ps, pre.force_repair, written, i + 1),
                    call_failure(
                        "Failed to write sector"@,
                        ev,
                        pre.pending_feature,
                        pre.pending_function,
                    ),
                )
            },
            StageModel::CommitBackoff { i, write } => {
                &&& window_keeps(pre, post)
                &&& resumed(
                    pre,
                    post,
                    r,
                    write,
                    |w: SectorWriteModel| StageModel::CommitWrite { i, write: w },
                )
            },
            StageModel::CommitDirectory { write } => {
                &&& window_keeps(pre, post)
                &&& wrote(
                    pre,
                    post,
                    r,
                    write,
                    ok,
                    false,
                    |w: SectorWriteModel| StageModel::CommitDirectory { write: w },
                    |w: SectorWriteModel| StageModel::CommitDirectoryBackoff { write: w },
                    |written: bool| leave_move(dev, m),
                    call_failure(
                        "Failed to write profile directory"@,
                        ev,
                        pre.pending_feature,
                        pre.pending_function,
                    ),
                )
            },
            StageModel::CommitDirectoryBackoff { write } => {
                &&& window_keeps(pre, post)
                &&& resumed(
                    pre,
                    post,
                    r,
                    write,
                    |w: SectorWriteModel| StageModel::CommitDirectory { write: w },
                )
            },
            StageModel::CommitOnboardMode => {
                &&& post.stage@ == StageModel::Idle
                &&& post.last_error is None
                &&& post.needs_eeprom_repair == pre.last_error is Some
                &&& match pre.last_error {
                    Some(e) => r == ActionModel::Failed(e@),
                    None => r == ActionModel::Done,
                }
            },
            _ => {
                &&& r == ActionModel::Failed("HID++ 2.0 commit: "@ + "unexpected event"@)
                &&& post.stage@ == StageModel::Idle
                &&& flags_kept(pre, post)
            },
        },
    }
}

/// The host-mode window of a commit. The window is entered by the switch to
/// host mode alone. Inside it no step ends the commit, whatever the event,
/// and the only way out is the switch back to onboard mode. The step after
/// that switch ends the commit; it succeeds exactly where no failure was
/// kept, and leaves the repair flag up exactly where one was.
pub proof fn lemma_host_mode_window(
    pre: Hidpp20Driver,
    info: DeviceModel,
    ev: DriverEventModel,
    post: Hidpp20Driver,
    r: ActionModel,
)
    requires
        commit_post(pre, info, ev, post, r),
    ensures
        post.stage.in_host_window() && (ev is Start || !pre.stage.in_host_window())
            ==> post.stage is CommitHostMode && r == mode_switch(post, ONBOARD_MODE_HOST),
        !(ev is Start) && pre.stage.in_host_window() ==> !r.ends() && (post.stage.in_host_window()
            || post.stage is CommitOnboardMode),
        post.stage is CommitOnboardMode ==> !(ev is Start) && pre.stage.in_host_window() && r
            == mode_switch(post, ONBOARD_MODE_ONBOARD),
        !(ev is Start) && pre.stage is CommitOnboardMode ==> r.ends() && (r is Done
            <==> pre.last_error is None) && post.needs_eeprom_repair == pre.last_error is Some,
        ev is Start || !(pre.stage is CommitOnboardMode) ==> post.needs_eeprom_repair
            == pre.needs_eeprom_repair,
{
}

/// On a device without LED features no LED is written.
pub proof fn lemma_no_led_features(f: FeatureMap, leds: Seq<LedModel>, l: int)
    requires
        f.color_led_effects is None,
        f.rgb_effects is None,
        0 <= l,
    ensures
        next_led(f, leds, l) >= leds.len(),
    decreases leds.len() - l,
{
    if l < leds.len() {
        lemma_no_led_features(f, leds, l + 1);
    }
}

/// A commit to a device on which the probe found no feature writes
/// nothing: its first step ends it, and it succeeds.
pub proof fn lemma_nothing_to_write(
    pre: Hidpp20Driver,
    info: DeviceModel,
    post: Hidpp20Driver,
    r: ActionModel,
)
    requires
        pre.features == FeatureMap::empty(),
        commit_post(pre, info, DriverEventModel::Start, post, r),
    ensures
        r is Done,
        post.stage@ == StageModel::Idle,
{
    let a = first_active(info.profiles, 0) as usize;
    if a < info.profiles.len() {
        lemma_no_led_features(pre.features, info.profiles[a as int].leds, 0);
    }
}

/// A commit to a device with onboard profiles that succeeds lowers the
/// repair flag: the only step that ends such a commit with success is the
/// one after the switch back to onboard mode, and it leaves the flag down.
pub proof fn lemma_successful_commit_clears_repair(
    pre: Hidpp20Driver,
    info: DeviceModel,
    ev: DriverEventModel,
    post: Hidpp20Driver,
    r: ActionModel,
)
    requires
        commit_post(pre, info, ev, post, r),
        pre.features.onboard_profiles is Some,
        pre.cached_onboard_info is Some,
        r is Done,
    ensures
        !(ev is Start),
        pre.stage is CommitOnboardMode,
        pre.last_error is None,
        !post.needs_eeprom_repair,
{
}

/// A commit that has nothing dirty to write, and no repair to make, leaves
/// the onboard memory alone: after the switch to host mode the device is
/// switched straight back.
pub proof fn lemma_clean_commit_writes_no_sector(
    pre: Hidpp20Driver,
    info: DeviceModel,
    ev: DriverEventModel,
    post: Hidpp20Driver,
    r: ActionModel,
)
    requires
        !(ev is Start),
        pre.stage is CommitHostMode,
        !pre.force_repair,
        !pre.any_written,
        forall|k: int| 0 <= k < info.profiles.len() ==> !(#[trigger] info.profiles[k]).is_dirty,
        commit_post(pre, info, ev, post, r),
    ensures
        post.stage is CommitOnboardMode,
        r == mode_switch(post, ONBOARD_MODE_ONBOARD),
{
    lemma_next_due_clean(info.profiles, 0);
}

/// Where no profile is dirty and no repair is due, no profile is to be
/// written.
pub proof fn lemma_next_due_clean(ps: Seq<ProfileModel>, i: int)
    requires
        0 <= i,
        forall|k: int| 0 <= k < ps.len() ==> !(#[trigger] ps[k]).is_dirty,
    ensures
        next_due(ps, false, i) >= ps.len(),
    decreases ps.len() - i,
{
    if i < ps.len() {
        lemma_next_due_clean(ps, i + 1);
    }
}

impl Hidpp20Driver {
    /// Asks for the next call of a sector write.
    fn ask_write(&mut self, write: &SectorWrite) -> (r: DriverAction)
        requires
            write@.wf(),
        ensures
            r@ == write_call(old(self).device_index, old(self).memory(), write@),
            commit_keeps(*old(self), *final(self)),
            window_keeps(*old(self), *final(self)),
            progress_kept(*old(self), *final(self)),
            final(self).stage == old(self).stage,
    {
        let function = match write.next_call() {
            WriteCall::Announce => PROFILES_FN_MEMORY_ADDR_WRITE,
            WriteCall::Data => PROFILES_FN_MEMORY_WRITE,
            WriteCall::End => PROFILES_FN_MEMORY_WRITE_END,
        };
        let params = write.next_params();
        self.call(self.mem_feature, function, params.as_slice())
    }

    /// Switches the device back to onboard mode.
    fn commit_leave(&mut self) -> (r: DriverAction)
        ensures
            made(*final(self), r@, leave_move(old(self).device_index, old(self).memory())),
            commit_keeps(*old(self), *final(self)),
            window_keeps(*old(self), *final(self)),
            progress_kept(*old(self), *final(self)),
            final(self).stage.wf(),
    {
        self.stage = Stage::CommitOnboardMode;
        let params = [ONBOARD_MODE_ONBOARD];
        assert(params@ =~= seq![ONBOARD_MODE_ONBOARD]);
        self.call(self.mem_feature, PROFILES_FN_SET_MODE, params.as_slice())
    }

    /// Writes the directory where a profile sector was written, then
    /// leaves host mode.
    fn commit_directory(&mut self, info: &DeviceInfo) -> (r: DriverAction)
        ensures
            made(
                *final(self),
                r@,
                directory_move(
                    old(self).device_index,
                    old(self).memory(),
                    info@.profiles,
                    old(self).any_written,
                ),
            ),
            commit_keeps(*old(self), *final(self)),
            window_keeps(*old(self), *final(self)),
            progress_kept(*old(self), *final(self)),
            final(self).stage.wf(),
    {
        if self.any_written {
            let dir = build_directory(&info.profiles, self.mem_sector_size);
            let write = SectorWrite::new(0, 0, dir);
            let r = self.ask_write(&write);
            self.stage = Stage::CommitDirectory { write };
            r
        } else {
            self.commit_leave()
        }
    }

    /// Patches the sector of profile `i` and starts writing it.
    fn commit_write_profile(&mut self, info: &DeviceInfo, i: usize, data: Vec<u8>) -> (r:
        DriverAction)
        requires
            i < info.profiles@.len(),
            data@.len() <= 0xFFFF,
        ensures
            made(
                *final(self),
                r@,
                write_move(
                    old(self).device_index,
                    old(self).memory(),
                    i,
                    info@.profiles[i as int],
                    data@,
                ),
            ),
            commit_keeps(*old(self), *final(self)),
            window_keeps(*old(self), *final(self)),
            progress_kept(*old(self), *final(self)),
            final(self).stage.wf(),
    {
        let mut data = data;
        let profile = &info.profiles[i];
        assert(info@.profiles[i as int] == profile@);
        patch_profile_sector(&mut data, profile, self.mem_buttons);
        let addr = ((profile.index as u64 + 1) % 0x1_0000) as u16;
        let write = SectorWrite::new(addr, 0, data);
        let r = self.ask_write(&write);
        self.stage = Stage::CommitWrite { i, write };
        r
    }

    /// Turns to the next profile that is to be written, from profile `i`
    /// on. Where no profile is left, the directory follows.
    fn commit_next_profile(&mut self, info: &DeviceInfo, i: usize) -> (r: DriverAction)
        ensures
            made(
                *final(self),
                r@,
                profile_move(
                    old(self).device_index,
                    old(self).memory(),
                    info@.profiles,
                    old(self).force_repair,
                    old(self).any_written,
                    i as int,
                ),
            ),
            commit_keeps(*old(self), *final(self)),
            window_keeps(*old(self), *final(self)),
            progress_kept(*old(self), *final(self)),
            final(self).stage.wf(),
    {
        let ghost ps = info@.profiles;
        let count = info.profiles.len();
        assert(ps.len() == count);
        let mut j = i;
        while j < info.profiles.len()
            invariant
                i <= j,
                *self == *old(self),
                ps == info@.profiles,
                ps.len() == info.profiles@.len(),
                next_due(ps, old(self).force_repair, i as int) == next_due(
                    ps,
                    old(self).force_repair,
                    j as int,
                ),
            decreases info.profiles@.len() - j,
        {
            let profile = &info.profiles[j];
            assert(ps[j as int] == profile@);
            if profile.is_dirty || self.force_repair {
                if self.mem_sector_size == 0 {
                    let empty: Vec<u8> = Vec::new();
                    assert(empty@ =~= Seq::<u8>::empty());
                    return self.commit_write_profile(info, j, empty);
                }
                let addr = ((profile.index as u64 + 1) % 0x1_0000) as u16;
                let read = SectorRead::new(addr, 0, self.mem_sector_size);
                let params = read.next_request();
                let r = self.call(self.mem_feature, PROFILES_FN_MEMORY_READ, params.as_slice());
                self.stage = Stage::CommitRead { i: j, read };
                return r;
            }
            j += 1;
        }
        self.commit_directory(info)
    }

    /// Enters the part of the commit that writes onboard memory, where the
    /// device has such memory: the device is switched to host mode.
    fn commit_enter_memory(&mut self) -> (r: DriverAction)
        ensures
            entered(*old(self), *final(self), r@),
            commit_keeps(*old(self), *final(self)),
            flags_kept(*old(self), *final(self)),
            final(self).stage.wf(),
    {
        match (self.features.onboard_profiles, &self.cached_onboard_info) {
            (Some(idx), Some(desc)) => {
                self.mem_feature = idx;
                self.mem_sector_size = desc.sector_size();
                self.mem_buttons = desc.button_count as usize;
                self.stage = Stage::CommitHostMode;
                let params = [ONBOARD_MODE_HOST];
                assert(params@ =~= seq![ONBOARD_MODE_HOST]);
                self.call(idx, PROFILES_FN_SET_MODE, params.as_slice())
            },
            _ => {
                self.stage = Stage::Idle;
                DriverAction::Done
            },
        }
    }

    /// Finds the next write of a live setting of the active profile `a`,
    /// from phase `phase` on; turns to onboard memory where none is left.
    fn commit_live(&mut self, info: &DeviceInfo, a: usize, phase: u8, l: usize) -> (r:
        DriverAction)
        ensures
            lived(*old(self), info@.profiles, *final(self), r@, a, phase as int, l as int),
            commit_keeps(*old(self), *final(self)),
            flags_kept(*old(self), *final(self)),
            final(self).stage.wf(),
    {
        let ghost ps = info@.profiles;
        let count = info.profiles.len();
        assert(ps.len() == count);
        if a >= count {
            return self.commit_enter_memory();
        }
        let profile = &info.profiles[a];
        assert(ps[a as int] == profile@);
        if !profile.is_dirty {
            // Only what was staged is written.
            return self.commit_enter_memory();
        }
        if phase == 0 {
            match (self.features.adjustable_dpi, dpi_to_commit(profile)) {
                (Some(idx), Some(v)) => {
                    let w: u16 = (v % 0x1_0000) as u16;
                    let params = [0u8, u16_hi(w), u16_lo(w)];
                    assert(params@ =~= seq![0u8, hi8(low16(v)), lo8(low16(v))]);
                    self.stage = Stage::CommitDpi { a };
                    return self.call(idx, DPI_FN_SET_SENSOR_DPI, params.as_slice());
                },
                _ => {},
            }
        }
        if phase <= 1 {
            match self.features.report_rate {
                Some(idx) => {
                    if profile.report_rate > 0 && profile.report_rate != self.cached_report_rate_hz {
                        let params = [interval_from_rate(profile.report_rate)];
                        assert(params@ =~= seq![interval_of_rate(profile.report_rate)]);
                        self.stage = Stage::CommitRate { a };
                        return self.call(idx, RATE_FN_SET_REPORT_RATE, params.as_slice());
                    }
                },
                None => {},
            }
        }
        let leds = profile.leds.len();
        assert(profile@.leds.len() == leds);
        let mut k = l;
        while k < profile.leds.len()
            invariant
                l <= k,
                *self == *old(self),
                a < ps.len(),
                ps == info@.profiles,
                ps[a as int].is_dirty,
                profile@ == ps[a as int],
                profile@.leds.len() == profile.leds@.len(),
                !(phase == 0 && old(self).features.adjustable_dpi is Some && commit_dpi_of(
                    ps[a as int],
                ) is Some),
                !(phase <= 1 && old(self).features.report_rate is Some && ps[a as int].report_rate
                    > 0 && ps[a as int].report_rate != old(self).cached_report_rate_hz),
                next_led(old(self).features, profile@.leds, l as int) == next_led(
                    old(self).features,
                    profile@.leds,
                    k as int,
                ),
            decreases profile.leds@.len() - k,
        {
            let led = &profile.leds[k];
            assert(profile@.leds[k as int] == led@);
            let feature = match led.mode {
                LedMode::TriColor => self.features.rgb_effects,
                _ => self.features.color_led_effects,
            };
            match feature {
                Some(idx) => {
                    let params = build_led_write(led);
                    self.stage = Stage::CommitLed { a, l: k };
                    return self.call(idx, LED_FN_SET_ZONE_EFFECT, params.as_slice());
                },
                None => {},
            }
            k += 1;
        }
        self.commit_enter_memory()
    }

    /// The step that takes a chunk of a sector that is read before it is
    /// patched.
    fn commit_read(&mut self, info: &DeviceInfo, event: DriverEvent) -> (r: DriverAction)
        requires
            !(event is Start),
            old(self).stage is CommitRead,
        ensures
            commit_post(*old(self), info@, event@, *final(self), r@),
            final(self).stage.wf(),
            r@.ends() ==> final(self).stage is Idle,
    {
        let mut stage = Stage::Idle;
        core::mem::swap(&mut self.stage, &mut stage);
        match stage {
            Stage::CommitRead { i, read } => {
                let mut read = read;
                let count = info.profiles.len();
                assert(info@.profiles.len() == count);
                if i >= count {
                    return self.commit_directory(info);
                }
                match event_payload(&event) {
                    Some(p) => {
                        if read.is_valid() && !read.is_done() {
                            read.accept(&p);
                            if read.is_done() {
                                self.commit_write_profile(info, i, read.data)
                            } else {
                                let params = read.next_request();
                                let r = self.call(
                                    self.mem_feature,
                                    PROFILES_FN_MEMORY_READ,
                                    params.as_slice(),
                                );
                                self.stage = Stage::CommitRead { i, read };
                                r
                            }
                        } else {
                            let erased = blank_sector(self.mem_sector_size);
                            self.commit_write_profile(info, i, erased)
                        }
                    },
                    None => {
                        // A sector that cannot be read is written afresh.
                        let erased = blank_sector(self.mem_sector_size);
                        self.commit_write_profile(info, i, erased)
                    },
                }
            },
            _ => DriverAction::Failed(text2("HID++ 2.0 commit: ", "unexpected event")),
        }
    }

    /// The step that takes the result of a call of the write of a profile
    /// sector.
    fn commit_write(&mut self, info: &DeviceInfo, event: DriverEvent) -> (r: DriverAction)
        requires
            !(event is Start),
            old(self).stage is CommitWrite,
        ensures
            commit_post(*old(self), info@, event@, *final(self), r@),
            final(self).stage.wf(),
            r@.ends() ==> final(self).stage is Idle,
    {
        let mut stage = Stage::Idle;
        core::mem::swap(&mut self.stage, &mut stage);
        match stage {
            Stage::CommitWrite { i, write } => {
                let mut write = write;
                let count = info.profiles.len();
                assert(info@.profiles.len() == count);
                let next = if i < usize::MAX {
                    i + 1
                } else {
                    i
                };
                assert(profile_move(
                    self.device_index,
                    self.memory(),
                    info@.profiles,
                    self.force_repair,
                    self.any_written,
                    next as int,
                ) == profile_move(
                    self.device_index,
                    self.memory(),
                    info@.profiles,
                    self.force_repair,
                    self.any_written,
                    i + 1,
                ));
                assert(profile_move(
                    self.device_index,
                    self.memory(),
                    info@.profiles,
                    self.force_repair,
                    true,
                    next as int,
                ) == profile_move(
                    self.device_index,
                    self.memory(),
                    info@.profiles,
                    self.force_repair,
                    true,
                    i + 1,
                ));
                if !write.is_valid() {
                    self.last_error = Some(text2("HID++ 2.0: ", "inconsistent sector write"));
                    return self.commit_next_profile(info, next);
                }
                let ok = event_payload(&event).is_some();
                match write.on_result(ok) {
                    WriteStep::Call => {
                        let r = self.ask_write(&write);
                        self.stage = Stage::CommitWrite { i, write };
                        r
                    },
                    WriteStep::Backoff { ms } => {
                        self.stage = Stage::CommitBackoff { i, write };
                        DriverAction::Sleep(ms)
                    },
                    WriteStep::Done => {
                        self.any_written = true;
                        self.commit_next_profile(info, next)
                    },
                    WriteStep::Failed => {
                        self.last_error = Some(self.failure_text("Failed to write sector", &event));
                        self.commit_next_profile(info, next)
                    },
                }
            },
            _ => DriverAction::Failed(text2("HID++ 2.0 commit: ", "unexpected event")),
        }
    }

    /// The step that takes the result of a call of the write of the
    /// directory.
    fn commit_directory_write(&mut self, info: &DeviceInfo, event: DriverEvent) -> (r:
        DriverAction)
        requires
            !(event is Start),
            old(self).stage is CommitDirectory,
        ensures
            commit_post(*old(self), info@, event@, *final(self), r@),
            final(self).stage.wf(),
            r@.ends() ==> final(self).stage is Idle,
    {
        let mut stage = Stage::Idle;
        core::mem::swap(&mut self.stage, &mut stage);
        match stage {
            Stage::CommitDirectory { write } => {
                let mut write = write;
                if !write.is_valid() {
                    self.last_error = Some(text2("HID++ 2.0: ", "inconsistent sector write"));
                    return self.commit_leave();
                }
                let ok = event_payload(&event).is_some();
                match write.on_result(ok) {
                    WriteStep::Call => {
                        let r = self.ask_write(&write);
                        self.stage = Stage::CommitDirectory { write };
                        r
                    },
                    WriteStep::Backoff { ms } => {
                        self.stage = Stage::CommitDirectoryBackoff { write };
                        DriverAction::Sleep(ms)
                    },
                    WriteStep::Done => self.commit_leave(),
                    WriteStep::Failed => {
                        self.last_error = Some(
                            self.failure_text("Failed to write profile directory", &event),
                        );
                        self.commit_leave()
                    },
                }
            },
            _ => DriverAction::Failed(text2("HID++ 2.0 commit: ", "unexpected event")),
        }
    }

    /// The step after a pause: the write starts again.
    fn commit_resume(&mut self, info: &DeviceInfo, event: DriverEvent) -> (r: DriverAction)
        requires
            !(event is Start),
            old(self).stage is CommitBackoff || old(self).stage is CommitDirectoryBackoff,
        ensures
            commit_post(*old(self), info@, event@, *final(self), r@),
            final(self).stage.wf(),
            r@.ends() ==> final(self).stage is Idle,
    {
        let mut stage = Stage::Idle;
        core::mem::swap(&mut self.stage, &mut stage);
        match stage {
            Stage::CommitBackoff { i, write } => {
                if !write.is_valid() {
                    self.last_error = Some(text2("HID++ 2.0: ", "inconsistent sector write"));
                    return self.commit_leave();
                }
                let r = self.ask_write(&write);
                self.stage = Stage::CommitWrite { i, write };
                r
            },
            Stage::CommitDirectoryBackoff { write } => {
                if !write.is_valid() {
                    self.last_error = Some(text2("HID++ 2.0: ", "inconsistent sector write"));
                    return self.commit_leave();
                }
                let r = self.ask_write(&write);
                self.stage = Stage::CommitDirectory { write };
                r
            },
            _ => DriverAction::Failed(text2("HID++ 2.0 commit: ", "unexpected event")),
        }
    }

    /// The step that ends a commit, after the switch back to onboard mode.
    fn commit_end(&mut self) -> (r: DriverAction)
        ensures
            commit_keeps(*old(self), *final(self)),
            final(self).stage is Idle,
            final(self).last_error is None,
            final(self).needs_eeprom_repair == old(self).last_error is Some,
            match old(self).last_error {
                Some(e) => r@ == ActionModel::Failed(e@),
                None => r@ == ActionModel::Done,
            },
    {
        self.stage = Stage::Idle;
        let mut failure: Option<String> = None;
        core::mem::swap(&mut self.last_error, &mut failure);
        match failure {
            Some(e) => {
                // The flag stays up: the next commit tries again.
                self.needs_eeprom_repair = true;
                DriverAction::Failed(e)
            },
            None => {
                self.needs_eeprom_repair = false;
                DriverAction::Done
            },
        }
    }

    /// The first step of a commit.
    fn commit_start(&mut self, info: &DeviceInfo) -> (r: DriverAction)
        ensures
            commit_post(*old(self), info@, DriverEventModel::Start, *final(self), r@),
            final(self).stage.wf(),
            r@.ends() ==> final(self).stage is Idle,
    {
        self.stage = Stage::Idle;
        self.any_written = false;
        self.last_error = None;
        self.force_repair = self.needs_eeprom_repair;
        let a = find_active_profile(info);
        self.commit_live(info, a, 0, 0)
    }

    /// The step after the write of a live setting.
    fn commit_after_live(&mut self, info: &DeviceInfo, event: DriverEvent) -> (r: DriverAction)
        requires
            !(event is Start),
            old(self).stage.is_live_commit(),
        ensures
            commit_post(*old(self), info@, event@, *final(self), r@),
            final(self).stage.wf(),
            r@.ends() ==> final(self).stage is Idle,
    {
        let mut stage = Stage::Idle;
        core::mem::swap(&mut self.stage, &mut stage);
        match stage {
            Stage::CommitDpi { a } => self.commit_live(info, a, 1, 0),
            Stage::CommitRate { a } => self.commit_live(info, a, 2, 0),
            Stage::CommitLed { a, l } => {
                // A failure to write one LED ends the writing of LEDs.
                if event_payload(&event).is_some() {
                    if l < usize::MAX {
                        self.commit_live(info, a, 2, l + 1)
                    } else {
                        if a < info.profiles.len() {
                            let leds = info.profiles[a].leds.len();
                            assert(info@.profiles[a as int].leds.len() == leds);
                        }
                        self.commit_enter_memory()
                    }
                } else {
                    self.commit_enter_memory()
                }
            },
            _ => DriverAction::Failed(text2("HID++ 2.0 commit: ", "unexpected event")),
        }
    }

    /// The step after the switch to host mode.
    fn commit_in_host_mode(&mut self, info: &DeviceInfo, event: DriverEvent) -> (r: DriverAction)
        requires
            !(event is Start),
            old(self).stage is CommitHostMode,
        ensures
            commit_post(*old(self), info@, event@, *final(self), r@),
            final(self).stage.wf(),
            r@.ends() ==> final(self).stage is Idle,
    {
        self.stage = Stage::Idle;
        self.commit_next_profile(info, 0)
    }

    /// The step after the switch back to onboard mode.
    fn commit_finish(&mut self, info: &DeviceInfo, event: DriverEvent) -> (r: DriverAction)
        requires
            !(event is Start),
            old(self).stage is CommitOnboardMode,
        ensures
            commit_post(*old(self), info@, event@, *final(self), r@),
            final(self).stage.wf(),
            r@.ends() ==> final(self).stage is Idle,
    {
        self.commit_end()
    }

    /// One step of the commit.
    pub fn commit_step(&mut self, info: &DeviceInfo, event: DriverEvent) -> (r: DriverAction)
        ensures
            commit_post(*old(self), info@, event@, *final(self), r@),
            final(self).stage.wf(),
            r@.ends() ==> final(self).stage is Idle,
    {
        match event {
            DriverEvent::Start => self.commit_start(info),
            _ => match self.stage {
                Stage::CommitDpi { .. } => self.commit_after_live(info, event),
                Stage::CommitRate { .. } => self.commit_after_live(info, event),
                Stage::CommitLed { .. } => self.commit_after_live(info, event),
                Stage::CommitHostMode => self.commit_in_host_mode(info, event),
                Stage::CommitRead { .. } => self.commit_read(info, event),
                Stage::CommitWrite { .. } => self.commit_write(info, event),
                Stage::CommitBackoff { .. } => self.commit_resume(info, event),
                Stage::CommitDirectory { .. } => self.commit_directory_write(info, event),
                Stage::CommitDirectoryBackoff { .. } => self.commit_resume(info, event),
                Stage::CommitOnboardMode => self.commit_finish(info, event),
                _ => {
                    self.stage = Stage::Idle;
                    DriverAction::Failed(text2("HID++ 2.0 commit: ", "unexpected event"))
                },
            },
        }
    }
}

/// A sector of the given size that holds `0xFF` in every byte, as erased
/// memory does.
pub fn blank_sector(size: u16) -> (r: Vec<u8>)
    ensures
        r@ == blank(size),
{
    let mut v: Vec<u8> = Vec::new();
    let mut i: u16 = 0;
    while i < size
        invariant
            i <= size,
            v@.len() == i,
            forall|k: int| 0 <= k < i ==> v@[k] == 0xFFu8,
        decreases size - i,
    {
        v.push(0xFF);
        i += 1;
    }
    assert(v@ =~= blank(size));
    v
}

impl DeviceDriver for Hidpp20Driver {
    fn name(&self) -> (r: &'static str)
        ensures
            r@ == "Logitech HID++ 2.0"@,
    {
        "Logitech HID++ 2.0"
    }

    fn probe(&mut self, event: DriverEvent) -> (r: DriverAction)
        ensures
            probe_post(*old(self), event@, *final(self), r@),
    {
        self.probe_step(event)
    }

    fn load_profiles(&mut self, info: &mut DeviceInfo, event: DriverEvent) -> (r: DriverAction)
        ensures
            load_post(*old(self), old(info)@, event@, *final(self), final(info)@, r@),
    {
        self.load_step(info, event)
    }

    fn commit(&mut self, info: &DeviceInfo, event: DriverEvent) -> (r: DriverAction)
        ensures
            commit_post(*old(self), info@, event@, *final(self), r@),
    {
        self.commit_step(info, event)
    }
}

} // verus!
