//! Whole runs of the HID++ 2.0 driver: what holds of a load from its first
//! step on, whatever the device answers, and of a commit to a device that
//! accepts every request, given that every step does what the relation of
//! the load or of the commit says.

use vstd::prelude::*;
use crate::device::{DeviceModel, ProfileModel};
use crate::driver::{ActionModel, DriverEventModel};
use crate::driver::hidpp::{lemma_crc_round_trip, sector_crc_ok};
use crate::driver::hidpp20::{FeatureMap, ONBOARD_MODE_HOST, ONBOARD_MODE_ONBOARD};
use crate::driver::hidpp20_commit::{
    commit_post, lemma_host_mode_window, made, mode_switch, next_due, profile_move,
    sector_of_profile,
};
use crate::driver::hidpp20_driver::{payload_of, Hidpp20Driver, StageModel};
use crate::driver::hidpp20_load::{
    first_made_active, lemma_corrupt_directory_loads, lemma_live_query_asks, live_query,
    load_post, next_sector, sector_turn, with_profile,
};
use crate::driver::hidpp20_memory::{
    default_directory, directory_body, directory_bytes, DirectoryModel, WritePhase, WriteStep,
};
use crate::driver::hidpp20_profile::{
    lemma_patch_buttons_length, lemma_patch_dpis_length, lemma_patch_keeps_length, patch_buttons,
    patch_default, patch_dpis, patch_rate, sector_after_patch, sector_buttons,
};

verus! {

/// Whether step `i` of a run does what the relation of the load says.
pub open spec fn load_step_at(
    d: Seq<Hidpp20Driver>,
    s: Seq<DeviceModel>,
    e: Seq<DriverEventModel>,
    a: Seq<ActionModel>,
    i: int,
) -> bool {
    load_post(d[i], s[i], e[i], d[i + 1], s[i + 1], a[i])
}

/// Whether step `i` of a run goes on with an operation that began before
/// it and has not ended.
pub open spec fn goes_on_at(e: Seq<DriverEventModel>, a: Seq<ActionModel>, i: int) -> bool {
    !(e[i] is Start) && !a[i - 1].ends()
}

/// A run of a load: the driver `d[i]` and the device state `s[i]` before
/// step `i`, its event `e[i]` and its action `a[i]`, and the driver and
/// the device state after the last step. The first step begins the load;
/// every further step takes what the action of the step before gave.
pub open spec fn is_load_run(
    d: Seq<Hidpp20Driver>,
    s: Seq<DeviceModel>,
    e: Seq<DriverEventModel>,
    a: Seq<ActionModel>,
) -> bool {
    &&& e.len() > 0
    &&& d.len() == e.len() + 1
    &&& s.len() == e.len() + 1
    &&& a.len() == e.len()
    &&& e[0] is Start
    &&& forall|i: int| 0 < i < e.len() ==> #[trigger] goes_on_at(e, a, i)
    &&& forall|i: int| 0 <= i < e.len() ==> #[trigger] load_step_at(d, s, e, a, i)
}

/// Whether a stage of a load comes after the directory was read.
pub open spec fn past_directory(stage: StageModel) -> bool {
    stage is LoadProfile || stage is LoadSensorCount || stage is LoadDpiList
        || stage is LoadSensorDpi || stage is LoadRateList || stage is LoadRate
        || stage is LoadLed
}

/// Whether the sector that a stage reads for a profile is the one that the
/// directory `dir` gives the profile.
pub open spec fn placed(stage: StageModel, dir: DirectoryModel) -> bool {
    match stage {
        StageModel::LoadProfile { i, dir: d, read } => d == dir && i < dir.addrs.len()
            && read.sector == dir.addrs[i as int],
        _ => true,
    }
}

/// The first profile from `i` on that has a sector comes at or after `i`.
pub proof fn lemma_next_sector_bounds(dir: DirectoryModel, i: int)
    requires
        0 <= i,
    ensures
        i <= next_sector(dir, i),
    decreases dir.addrs.len() - i,
{
    if i < dir.addrs.len() && !crate::driver::hidpp20_load::usable(dir.addrs[i]) {
        lemma_next_sector_bounds(dir, i + 1);
    }
}

/// The queries for the live settings lead to a stage of the live settings
/// or to the end of the load.
pub proof fn lemma_live_query_stages(dev: u8, f: FeatureMap, ps: Seq<ProfileModel>, p: int, phase: int)
    ensures
        live_query(dev, f, ps, p, phase).stage == StageModel::Idle || live_query(
            dev,
            f,
            ps,
            p,
            phase,
        ).stage is LoadSensorCount || live_query(dev, f, ps, p, phase).stage is LoadRateList
            || live_query(dev, f, ps, p, phase).stage is LoadLed,
        live_query(dev, f, ps, p, phase).profiles == ps,
        !(live_query(dev, f, ps, p, phase).action is Failed),
        live_query(dev, f, ps, p, phase).action is Done <==> live_query(dev, f, ps, p, phase).stage
            == StageModel::Idle,
    decreases ps.len() - p,
{
    lemma_live_query_asks(dev, f, ps, p, phase);
    if 0 <= p < ps.len() && !(phase == 0 && f.adjustable_dpi is Some) && !(phase <= 1
        && f.report_rate is Some) && !(f.color_led_effects is Some && ps[p].leds.len() > 0) {
        lemma_live_query_stages(dev, f, ps, p + 1, 0);
    }
}

/// The turn to the next profile sector never fails the load, keeps the
/// number of profiles, stays with the directory, and reads the sector that
/// the directory gives the profile.
pub proof fn lemma_sector_turn_asks(
    dev: u8,
    f: FeatureMap,
    size: u16,
    dir: DirectoryModel,
    i: int,
    ps: Seq<ProfileModel>,
)
    ensures
        !(sector_turn(dev, f, size, dir, i, ps).action is Failed),
        sector_turn(dev, f, size, dir, i, ps).action is Done <==> sector_turn(
            dev,
            f,
            size,
            dir,
            i,
            ps,
        ).stage == StageModel::Idle,
        sector_turn(dev, f, size, dir, i, ps).profiles.len() == ps.len(),
        sector_turn(dev, f, size, dir, i, ps).stage == StageModel::Idle || past_directory(
            sector_turn(dev, f, size, dir, i, ps).stage,
        ),
        dir.addrs.len() <= usize::MAX ==> placed(sector_turn(dev, f, size, dir, i, ps).stage, dir),
{
    lemma_live_query_stages(dev, f, first_made_active(ps), 0, 0);
    if 0 <= i {
        lemma_next_sector_bounds(dir, i);
    }
}

/// A step of a load after the directory was read never fails the load: it
/// keeps the number of profiles and what was cached of the memory, never
/// lowers the repair flag, and stays with the directory and its placement
/// of the profiles.
pub proof fn lemma_load_goes_on(
    pre: Hidpp20Driver,
    before: DeviceModel,
    ev: DriverEventModel,
    post: Hidpp20Driver,
    after: DeviceModel,
    r: ActionModel,
    dir: DirectoryModel,
)
    requires
        load_post(pre, before, ev, post, after, r),
        !(ev is Start),
        past_directory(pre.stage@),
        placed(pre.stage@, dir),
        dir.addrs.len() <= usize::MAX,
    ensures
        !(r is Failed),
        r is Done <==> post.stage@ == StageModel::Idle,
        after.profiles.len() == before.profiles.len(),
        post.cached_onboard_info == pre.cached_onboard_info,
        pre.needs_eeprom_repair ==> post.needs_eeprom_repair,
        post.stage@ == StageModel::Idle || past_directory(post.stage@),
        placed(post.stage@, dir),
{
    let dev = pre.device_index;
    let f = pre.features;
    let ps = before.profiles;
    let size = pre.sector_size_spec();
    match pre.stage@ {
        StageModel::LoadProfile { i, dir: d, read } => {
            lemma_live_query_stages(dev, f, first_made_active(ps), 0, 0);
            lemma_sector_turn_asks(dev, f, size, d, i + 1, ps);
            match payload_of(ev) {
                Some(p) => {
                    let now = read.accept(p);
                    lemma_sector_turn_asks(
                        dev,
                        f,
                        size,
                        d,
                        i + 1,
                        with_profile(
                            ps,
                            i as int,
                            crate::driver::hidpp20_profile::profile_after_sector(
                                ps[i as int],
                                now.data,
                                d.enabled[i as int],
                                pre.button_count_spec(),
                            ),
                        ),
                    );
                },
                None => {},
            }
        },
        StageModel::LoadSensorCount { p } => {
            lemma_live_query_stages(dev, f, ps, p as int, 1);
        },
        StageModel::LoadDpiList { p } => {
            lemma_live_query_stages(dev, f, ps, p as int, 1);
        },
        StageModel::LoadSensorDpi { p, list } => {
            lemma_live_query_stages(dev, f, ps, p as int, 1);
            match payload_of(ev) {
                Some(dd) => {
                    lemma_live_query_stages(
                        dev,
                        f,
                        with_profile(
                            ps,
                            p as int,
                            crate::driver::hidpp20_driver::profile_after_dpi(
                                ps[p as int],
                                list,
                                crate::driver::hidpp::be16(dd[1], dd[2]),
                            ),
                        ),
                        p as int,
                        1,
                    );
                },
                None => {},
            }
        },
        StageModel::LoadRateList { p } => {
            lemma_live_query_stages(dev, f, ps, p as int, 2);
        },
        StageModel::LoadRate { p } => {
            lemma_live_query_stages(dev, f, ps, p as int, 2);
            match payload_of(ev) {
                Some(dd) => match crate::driver::hidpp20::rate_of_interval(dd[0]) {
                    Some(hz) => {
                        if p < ps.len() {
                            lemma_live_query_stages(
                                dev,
                                f,
                                ps.update(
                                    p as int,
                                    ProfileModel { report_rate: hz, ..ps[p as int] },
                                ),
                                p as int,
                                2,
                            );
                        }
                    },
                    None => {},
                },
                None => {},
            }
        },
        StageModel::LoadLed { p, l } => {
            lemma_live_query_stages(dev, f, ps, p + 1, 0);
            match payload_of(ev) {
                Some(dd) => {
                    if p < ps.len() && l < ps[p as int].leds.len() {
                        let led = ps[p as int].leds[l as int];
                        let qs = ps.update(
                            p as int,
                            ProfileModel {
                                leds: ps[p as int].leds.update(
                                    l as int,
                                    crate::driver::hidpp20::led_after_zone(led, dd.subrange(1, 12)),
                                ),
                                ..ps[p as int]
                            },
                        );
                        lemma_live_query_stages(dev, f, qs, p + 1, 0);
                    }
                },
                None => {},
            }
        },
        _ => {},
    }
}

/// From a step after the directory was read to the end of the run, the
/// load never fails: the number of profiles and what was cached of the
/// memory stay, the repair flag is never lowered, and every profile sector
/// that is read is the one that the directory gives the profile.
pub proof fn lemma_load_run_goes_on(
    d: Seq<Hidpp20Driver>,
    s: Seq<DeviceModel>,
    e: Seq<DriverEventModel>,
    a: Seq<ActionModel>,
    m: int,
    n: int,
    dir: DirectoryModel,
)
    requires
        is_load_run(d, s, e, a),
        0 < m <= n <= e.len(),
        past_directory(d[m].stage@),
        placed(d[m].stage@, dir),
        dir.addrs.len() <= usize::MAX,
    ensures
        forall|k: int| m <= k < n ==> !(#[trigger] a[k] is Failed),
        s[n].profiles.len() == s[m].profiles.len(),
        d[n].cached_onboard_info == d[m].cached_onboard_info,
        d[m].needs_eeprom_repair ==> d[n].needs_eeprom_repair,
        d[n].stage@ == StageModel::Idle || past_directory(d[n].stage@),
        placed(d[n].stage@, dir),
        n < e.len() ==> past_directory(d[n].stage@),
    decreases n - m,
{
    if m < n {
        lemma_load_run_goes_on(d, s, e, a, m, n - 1, dir);
        assert(load_step_at(d, s, e, a, n - 1));
        if n - 1 > 0 {
            assert(goes_on_at(e, a, n - 1));
        }
        lemma_load_goes_on(d[n - 1], s[n - 1], e[n - 1], d[n], s[n], a[n - 1], dir);
        if n < e.len() {
            assert(goes_on_at(e, a, n));
        }
    } else {
        if n < e.len() {
            assert(goes_on_at(e, a, n));
        }
    }
}

/// A load goes on past a directory whose checksum is wrong. From the step
/// that completes such a directory sector on, to the end of the run, no
/// step fails the load; the repair flag is up; the number of profiles
/// stays; and every profile is read from the sector after its ordinal,
/// never from an address found in the directory.
pub proof fn lemma_corrupt_directory_run(
    d: Seq<Hidpp20Driver>,
    s: Seq<DeviceModel>,
    e: Seq<DriverEventModel>,
    a: Seq<ActionModel>,
    m: int,
    n: int,
)
    requires
        is_load_run(d, s, e, a),
        0 < m < n <= e.len(),
        d[m].stage is LoadRoot,
        d[m].stage.wf(),
        d[m].features.onboard_profiles is Some,
        d[m].sector_size_spec() > 0,
        d[m].cached_onboard_info is Some,
        payload_of(e[m]) is Some,
        d[m].stage->LoadRoot_read@.accept(payload_of(e[m])->0).done(),
        !sector_crc_ok(d[m].stage->LoadRoot_read@.accept(payload_of(e[m])->0).data),
    ensures
        forall|k: int| m <= k < n ==> !(#[trigger] a[k] is Failed),
        d[n].needs_eeprom_repair,
        s[n].profiles.len() == s[m].profiles.len(),
        match d[n].stage@ {
            StageModel::LoadProfile { i, dir, read } => dir == default_directory(
                d[m].profile_count_spec(),
            ) && i < d[m].profile_count_spec() && read.sector == i + 1,
            _ => true,
        },
{
    let dir = default_directory(d[m].profile_count_spec());
    assert(load_step_at(d, s, e, a, m));
    assert(goes_on_at(e, a, m));
    lemma_corrupt_directory_loads(d[m], s[m], e[m], d[m + 1], s[m + 1], a[m]);
    assert(placed(d[m + 1].stage@, dir));
    lemma_load_run_goes_on(d, s, e, a, m + 1, n, dir);
    match d[n].stage@ {
        StageModel::LoadProfile { i, dir: dd, read } => {
            assert(dir.addrs[i as int] == i + 1);
        },
        _ => {},
    }
}

/// Whether the device state has as many profiles as the device said that
/// it holds.
pub open spec fn sized(driver: Hidpp20Driver, state: DeviceModel) -> bool {
    driver.cached_onboard_info is Some && state.profiles.len() == driver.profile_count_spec()
}

/// Whether a stage of a load comes after the description of the memory
/// was taken.
pub open spec fn described(stage: StageModel) -> bool {
    stage is LoadRoot || past_directory(stage) || stage == StageModel::Idle
}

/// On a device with onboard profiles, a load that has not failed has, from
/// its third step on, as many profiles in the device state as the device
/// said that it holds: the description of the memory sizes the device
/// state, and no later step changes the number of profiles.
pub proof fn lemma_load_run_is_sized(
    d: Seq<Hidpp20Driver>,
    s: Seq<DeviceModel>,
    e: Seq<DriverEventModel>,
    a: Seq<ActionModel>,
    n: int,
)
    requires
        is_load_run(d, s, e, a),
        d[0].features.onboard_profiles is Some,
        2 <= n <= e.len(),
        forall|k: int| 0 <= k < n ==> !(#[trigger] a[k] is Failed),
    ensures
        sized(d[n], s[n]),
        described(d[n].stage@),
        d[n].features == d[0].features,
    decreases n,
{
    assert(load_step_at(d, s, e, a, 0));
    assert(load_step_at(d, s, e, a, 1));
    assert(goes_on_at(e, a, 1));
    assert(!(a[0] is Failed) && !(a[1] is Failed));
    let dev = d[0].device_index;
    let f = d[0].features;
    if n == 2 {
        let desc = d[2].cached_onboard_info->0;
        let fitted = crate::driver::hidpp20_driver::fitted_profiles(
            s[1].profiles,
            desc.spec_profile_count() as int,
            desc.button_count as int,
        );
        lemma_live_query_stages(
            dev,
            f,
            first_made_active(crate::driver::hidpp20_load::all_enabled(fitted)),
            0,
            0,
        );
    } else {
        assert forall|k: int| 0 <= k < n - 1 implies !(#[trigger] a[k] is Failed) by {}
        lemma_load_run_is_sized(d, s, e, a, n - 1);
        assert(load_step_at(d, s, e, a, n - 1));
        assert(goes_on_at(e, a, n - 1));
        assert(!(a[n - 1] is Failed));
        let pre = d[n - 1];
        let ps = s[n - 1].profiles;
        match pre.stage@ {
            StageModel::LoadRoot { read } => {
                match payload_of(e[n - 1]) {
                    Some(p) => {
                        lemma_sector_turn_asks(
                            pre.device_index,
                            pre.features,
                            pre.sector_size_spec(),
                            crate::driver::hidpp20_memory::directory_of(
                                read.accept(p).data,
                                pre.profile_count_spec(),
                            ),
                            0,
                            ps,
                        );
                    },
                    None => {},
                }
            },
            StageModel::LoadProfile { i, dir, read } => {
                lemma_load_goes_on_plain(pre, s[n - 1], e[n - 1], d[n], s[n], a[n - 1]);
            },
            _ => {
                if past_directory(pre.stage@) {
                    lemma_load_goes_on_plain(pre, s[n - 1], e[n - 1], d[n], s[n], a[n - 1]);
                }
            },
        }
    }
}

/// A step of a load after the directory was read keeps the number of
/// profiles and what was cached of the memory, whatever the directory.
pub proof fn lemma_load_goes_on_plain(
    pre: Hidpp20Driver,
    before: DeviceModel,
    ev: DriverEventModel,
    post: Hidpp20Driver,
    after: DeviceModel,
    r: ActionModel,
)
    requires
        load_post(pre, before, ev, post, after, r),
        !(ev is Start),
        past_directory(pre.stage@),
    ensures
        !(r is Failed),
        after.profiles.len() == before.profiles.len(),
        post.cached_onboard_info == pre.cached_onboard_info,
        post.stage@ == StageModel::Idle || past_directory(post.stage@),
{
    let dev = pre.device_index;
    let f = pre.features;
    let ps = before.profiles;
    let size = pre.sector_size_spec();
    match pre.stage@ {
        StageModel::LoadProfile { i, dir: d, read } => {
            lemma_live_query_stages(dev, f, first_made_active(ps), 0, 0);
            lemma_sector_turn_asks(dev, f, size, d, i + 1, ps);
            match payload_of(ev) {
                Some(p) => {
                    let now = read.accept(p);
                    lemma_sector_turn_asks(
                        dev,
                        f,
                        size,
                        d,
                        i + 1,
                        with_profile(
                            ps,
                            i as int,
                            crate::driver::hidpp20_profile::profile_after_sector(
                                ps[i as int],
                                now.data,
                                d.enabled[i as int],
                                pre.button_count_spec(),
                            ),
                        ),
                    );
                },
                None => {},
            }
        },
        _ => {
            lemma_load_goes_on(
                pre,
                before,
                ev,
                post,
                after,
                r,
                DirectoryModel { addrs: Seq::empty(), enabled: Seq::empty() },
            );
        },
    }
}

/// Whether a step of a load completes a sector whose checksum is wrong.
pub open spec fn reads_bad_sector(pre: Hidpp20Driver, ev: DriverEventModel) -> bool {
    !(ev is Start) && match (pre.stage@, payload_of(ev)) {
        (StageModel::LoadRoot { read }, Some(p)) => pre.features.onboard_profiles is Some
            && read.wf() && !read.done() && read.accept(p).done() && !sector_crc_ok(
            read.accept(p).data,
        ),
        (StageModel::LoadProfile { i, dir, read }, Some(p)) => read.wf() && !read.done() && i
            < dir.enabled.len() && dir.addrs.len() == dir.enabled.len() && read.accept(p).done()
            && !sector_crc_ok(read.accept(p).data),
        _ => false,
    }
}

/// Whether a step of a load takes a description of the memory that says
/// that sectors have no size: every sector of such a device reads as
/// nothing, which has no checksum.
pub open spec fn finds_no_memory(pre: Hidpp20Driver, ev: DriverEventModel, post: Hidpp20Driver) -> bool {
    !(ev is Start) && pre.stage@ is LoadDescriptor && payload_of(ev) is Some
        && pre.features.onboard_profiles is Some && post.sector_size_spec() == 0
}

/// Whether one of the first `n` steps of a run read what has no valid
/// checksum.
pub open spec fn read_badly(d: Seq<Hidpp20Driver>, e: Seq<DriverEventModel>, n: int) -> bool
    decreases n,
{
    n > 0 && (read_badly(d, e, n - 1) || reads_bad_sector(d[n - 1], e[n - 1]) || finds_no_memory(
        d[n - 1],
        e[n - 1],
        d[n],
    ))
}

/// A wrong checksum is no failure. At every point of a load the repair
/// flag is up exactly where it was up before the load, or a sector that
/// was read by then (the directory or a profile sector) failed its
/// checksum; and the step that completes such a sector does not fail the
/// load.
pub proof fn lemma_repair_flag_after_load(
    d: Seq<Hidpp20Driver>,
    s: Seq<DeviceModel>,
    e: Seq<DriverEventModel>,
    a: Seq<ActionModel>,
    n: int,
)
    requires
        is_load_run(d, s, e, a),
        0 <= n <= e.len(),
    ensures
        d[n].needs_eeprom_repair == (d[0].needs_eeprom_repair || read_badly(d, e, n)),
        forall|k: int|
            0 <= k < n && reads_bad_sector(#[trigger] d[k], e[k]) ==> !(a[k] is Failed),
    decreases n,
{
    if n > 0 {
        lemma_repair_flag_after_load(d, s, e, a, n - 1);
        assert(load_step_at(d, s, e, a, n - 1));
        let pre = d[n - 1];
        let ev = e[n - 1];
        let ps = s[n - 1].profiles;
        if reads_bad_sector(pre, ev) {
            match (pre.stage@, payload_of(ev)) {
                (StageModel::LoadRoot { read }, Some(p)) => {
                    lemma_sector_turn_asks(
                        pre.device_index,
                        pre.features,
                        pre.sector_size_spec(),
                        crate::driver::hidpp20_memory::directory_of(
                            read.accept(p).data,
                            pre.profile_count_spec(),
                        ),
                        0,
                        ps,
                    );
                },
                (StageModel::LoadProfile { i, dir, read }, Some(p)) => {
                    lemma_sector_turn_asks(
                        pre.device_index,
                        pre.features,
                        pre.sector_size_spec(),
                        dir,
                        i + 1,
                        with_profile(
                            ps,
                            i as int,
                            crate::driver::hidpp20_profile::profile_after_sector(
                                ps[i as int],
                                read.accept(p).data,
                                dir.enabled[i as int],
                                pre.button_count_spec(),
                            ),
                        ),
                    );
                },
                _ => {},
            }
        }
    }
}

// ---------------------------------------------------------------------------
// Runs of a commit
// ---------------------------------------------------------------------------

/// Whether step `i` of a run does what the relation of the commit says.
pub open spec fn commit_step_at(
    d: Seq<Hidpp20Driver>,
    info: DeviceModel,
    e: Seq<DriverEventModel>,
    a: Seq<ActionModel>,
    i: int,
) -> bool {
    commit_post(d[i], info, e[i], d[i + 1], a[i])
}

/// A run of a commit of the device state `info`: the driver `d[i]` before
/// step `i`, its event `e[i]` and its action `a[i]`, and the driver after
/// the last step.
pub open spec fn is_commit_run(
    d: Seq<Hidpp20Driver>,
    info: DeviceModel,
    e: Seq<DriverEventModel>,
    a: Seq<ActionModel>,
) -> bool {
    &&& e.len() > 0
    &&& d.len() == e.len() + 1
    &&& a.len() == e.len()
    &&& e[0] is Start
    &&& forall|i: int| 0 < i < e.len() ==> #[trigger] goes_on_at(e, a, i)
    &&& forall|i: int| 0 <= i < e.len() ==> #[trigger] commit_step_at(d, info, e, a, i)
}

/// Whether the device accepted the request of step `k`: the event is a
/// reply with its sixteen parameter bytes.
pub open spec fn accepted_at(e: Seq<DriverEventModel>, k: int) -> bool {
    payload_of(e[k]) is Some && payload_of(e[k])->0.len() == 16
}

/// Whether `data` is a sector patched with what profile `p` holds: the
/// bytes of some sector of the same length, with the fields that the driver
/// manages taken from the profile, and a fresh checksum.
pub open spec fn patched(data: Seq<u8>, p: ProfileModel, buttons: int) -> bool {
    exists|raw: Seq<u8>|
        raw.len() == data.len() && data == #[trigger] sector_after_patch(raw, p, buttons)
}

/// Whether profile `j` is to be written by a commit: it is dirty, or every
/// profile is written.
pub open spec fn due(ps: Seq<ProfileModel>, force: bool, j: int) -> bool {
    force || ps[j].is_dirty
}

/// Whether step `k` completes the write of the sector of profile `j`: the
/// end marker of the write is accepted. The sector is the one after the
/// index of the profile; what was written is a sector patched with what
/// the profile holds, and ends in its checksum.
pub open spec fn completes_profile(
    d: Seq<Hidpp20Driver>,
    info: DeviceModel,
    e: Seq<DriverEventModel>,
    k: int,
    j: int,
) -> bool {
    match d[k].stage@ {
        StageModel::CommitWrite { i, write } => {
            &&& i == j
            &&& write.wf()
            &&& write.phase == WritePhase::End
            &&& accepted_at(e, k)
            &&& write.sector == sector_of_profile(info.profiles[j].index)
            &&& write.offset == 0
            &&& write.data.len() == d[k].mem_sector_size
            &&& patched(write.data, info.profiles[j], d[k].mem_buttons as int)
            &&& (write.data.len() >= 2 ==> sector_crc_ok(write.data))
        },
        _ => false,
    }
}

/// Whether step `k` completes the write of the directory sector: the end
/// marker of the write is accepted. What was written is the directory of
/// the profiles, which ends in its checksum.
pub open spec fn completes_directory(
    d: Seq<Hidpp20Driver>,
    info: DeviceModel,
    e: Seq<DriverEventModel>,
    k: int,
) -> bool {
    match d[k].stage@ {
        StageModel::CommitDirectory { write } => {
            &&& write.wf()
            &&& write.phase == WritePhase::End
            &&& accepted_at(e, k)
            &&& write.sector == 0
            &&& write.offset == 0
            &&& write.data == directory_bytes(info.profiles, d[k].mem_sector_size as int)
            &&& (write.data.len() >= 2 ==> sector_crc_ok(write.data))
        },
        _ => false,
    }
}

/// Whether the sector of profile `j` was written in one of the steps from
/// `h` up to `n`.
pub open spec fn profile_written(
    d: Seq<Hidpp20Driver>,
    info: DeviceModel,
    e: Seq<DriverEventModel>,
    h: int,
    n: int,
    j: int,
) -> bool {
    exists|k: int| h <= k < n && #[trigger] completes_profile(d, info, e, k, j)
}

/// Whether the sectors of the profiles before profile `i` that were to be
/// written were written in the steps from `h` up to `n`.
pub open spec fn profiles_written(
    d: Seq<Hidpp20Driver>,
    info: DeviceModel,
    e: Seq<DriverEventModel>,
    h: int,
    n: int,
    i: int,
) -> bool {
    forall|j: int|
        0 <= j < i && due(info.profiles, d[h].force_repair, j) ==> #[trigger] profile_written(
            d,
            info,
            e,
            h,
            n,
            j,
        )
}

/// Whether the directory sector was written in one of the steps from `h`
/// up to `n`, after the sectors of all the profiles.
pub open spec fn directory_written(
    d: Seq<Hidpp20Driver>,
    info: DeviceModel,
    e: Seq<DriverEventModel>,
    h: int,
    n: int,
) -> bool {
    exists|k: int|
        h <= k < n && #[trigger] completes_directory(d, info, e, k) && profiles_written(
            d,
            info,
            e,
            h,
            k,
            info.profiles.len() as int,
        )
}

/// Where a commit stands before step `n`, on a device that accepts every
/// request, `h` being the step that takes the reply to the switch to host
/// mode. The profiles that are to be written are written in order, each to
/// the sector after its index, patched with what the profile holds and
/// with its checksum; the directory follows where a profile was written;
/// then the device is switched back, and the commit ends with success and
/// the repair flag down.
pub open spec fn committing(
    d: Seq<Hidpp20Driver>,
    info: DeviceModel,
    e: Seq<DriverEventModel>,
    a: Seq<ActionModel>,
    h: int,
    n: int,
) -> bool {
    let x = d[n];
    let ps = info.profiles;
    let all = ps.len() as int;
    let force = d[h].force_repair;
    let first = next_due(ps, force, 0);
    &&& x.last_error is None
    &&& x.stage is Idle || (x.force_repair == force && x.memory() == d[h].memory())
    &&& match x.stage@ {
        StageModel::CommitHostMode => n == h && !x.any_written,
        StageModel::CommitRead { i, read } => {
            &&& i < ps.len()
            &&& due(ps, force, i as int)
            &&& read.wf()
            &&& !read.done()
            &&& read.start == 0
            &&& read.end == x.mem_sector_size
            &&& read.sector == sector_of_profile(ps[i as int].index)
            &&& x.any_written == (first < i)
            &&& profiles_written(d, info, e, h, n, i as int)
        },
        StageModel::CommitWrite { i, write } => {
            &&& i < ps.len()
            &&& due(ps, force, i as int)
            &&& write.wf()
            &&& write.failed == 0
            &&& write.offset == 0
            &&& write.sector == sector_of_profile(ps[i as int].index)
            &&& write.data.len() == x.mem_sector_size
            &&& patched(write.data, ps[i as int], x.mem_buttons as int)
            &&& (write.data.len() >= 2 ==> sector_crc_ok(write.data))
            &&& x.any_written == (first < i)
            &&& profiles_written(d, info, e, h, n, i as int)
        },
        StageModel::CommitDirectory { write } => {
            &&& write.wf()
            &&& write.failed == 0
            &&& write.offset == 0
            &&& write.sector == 0
            &&& write.data == directory_bytes(ps, x.mem_sector_size as int)
            &&& x.any_written
            &&& first < all
            &&& profiles_written(d, info, e, h, n, all)
        },
        StageModel::CommitOnboardMode => {
            &&& profiles_written(d, info, e, h, n, all)
            &&& first < all ==> directory_written(d, info, e, h, n)
        },
        StageModel::Idle => {
            &&& n > h
            &&& a[n - 1] is Done
            &&& !x.needs_eeprom_repair
            &&& profiles_written(d, info, e, h, n, all)
            &&& first < all ==> directory_written(d, info, e, h, n)
        },
        _ => false,
    }
}

/// What was written by step `n` was written by step `n + 1`.
proof fn lemma_written_stays(
    d: Seq<Hidpp20Driver>,
    info: DeviceModel,
    e: Seq<DriverEventModel>,
    h: int,
    n: int,
    i: int,
)
    requires
        profiles_written(d, info, e, h, n, i),
    ensures
        profiles_written(d, info, e, h, n + 1, i),
        directory_written(d, info, e, h, n) ==> directory_written(d, info, e, h, n + 1),
{
    assert forall|j: int|
        0 <= j < i && due(info.profiles, d[h].force_repair, j) implies #[trigger] profile_written(
        d,
        info,
        e,
        h,
        n + 1,
        j,
    ) by {
        assert(profile_written(d, info, e, h, n, j));
        let k = choose|k: int| h <= k < n && #[trigger] completes_profile(d, info, e, k, j);
        assert(h <= k < n + 1 && completes_profile(d, info, e, k, j));
    }
    if directory_written(d, info, e, h, n) {
        let k = choose|k: int|
            h <= k < n && #[trigger] completes_directory(d, info, e, k) && profiles_written(
                d,
                info,
                e,
                h,
                k,
                info.profiles.len() as int,
            );
        assert(h <= k < n + 1 && completes_directory(d, info, e, k));
    }
}

/// The next profile that is to be written, from profile `i` on, is the
/// first such profile: none before it is to be written.
proof fn lemma_next_due(ps: Seq<ProfileModel>, force: bool, i: int)
    requires
        0 <= i,
    ensures
        i <= next_due(ps, force, i),
        i <= ps.len() ==> next_due(ps, force, i) <= ps.len(),
        forall|t: int| i <= t < next_due(ps, force, i) ==> !#[trigger] due(ps, force, t),
        next_due(ps, force, i) < ps.len() ==> due(ps, force, next_due(ps, force, i)),
    decreases ps.len() - i,
{
    if i < ps.len() && !(ps[i].is_dirty || force) {
        lemma_next_due(ps, force, i + 1);
    }
}

/// A sector that a commit has patched has the length that it had, and ends
/// in its checksum.
proof fn lemma_sealed_verifies(data: Seq<u8>, p: ProfileModel, buttons: int)
    ensures
        sector_after_patch(data, p, buttons).len() == data.len(),
        patched(sector_after_patch(data, p, buttons), p, buttons),
        data.len() >= 2 ==> sector_crc_ok(sector_after_patch(data, p, buttons)),
{
    lemma_patch_keeps_length(data, p, buttons);
    let a = patch_default(patch_rate(data, p.report_rate), p.resolutions);
    lemma_patch_dpis_length(a, p.resolutions, 0);
    let b = patch_dpis(a, p.resolutions, 0);
    lemma_patch_buttons_length(b, p.buttons, sector_buttons(buttons), 0);
    let c = patch_buttons(b, p.buttons, sector_buttons(buttons), 0);
    if c.len() >= 2 {
        lemma_crc_round_trip(c.subrange(0, c.len() - 2), 0, 0);
    }
}

/// The turn to the next profile that is to be written, from profile `i`
/// on.
proof fn lemma_turn_to_profile(
    d: Seq<Hidpp20Driver>,
    info: DeviceModel,
    e: Seq<DriverEventModel>,
    a: Seq<ActionModel>,
    h: int,
    n: int,
    i: int,
)
    requires
        0 < h < n < d.len(),
        0 <= i <= info.profiles.len() <= usize::MAX,
        d[n].force_repair == d[h].force_repair,
        d[n].last_error is None,
        d[n].memory() == d[h].memory(),
        d[n].any_written == (next_due(info.profiles, d[h].force_repair, 0) < i),
        profiles_written(d, info, e, h, n, i),
        made(
            d[n],
            a[n - 1],
            profile_move(
                d[n - 1].device_index,
                d[n].memory(),
                info.profiles,
                d[h].force_repair,
                d[n].any_written,
                i,
            ),
        ),
    ensures
        committing(d, info, e, a, h, n),
{
    let ps = info.profiles;
    let m = d[n].memory();
    let force = d[h].force_repair;
    let j = next_due(ps, force, i);
    lemma_next_due(ps, force, i);
    lemma_next_due(ps, force, 0);
    assert forall|t: int| 0 <= t < j && due(ps, force, t) implies #[trigger] profile_written(
        d,
        info,
        e,
        h,
        n,
        t,
    ) by {
        assert(t < i);
    }
    if j < ps.len() {
        if m.size == 0 {
            lemma_sealed_verifies(Seq::<u8>::empty(), ps[j], m.buttons as int);
        }
    } else {
        lemma_directory_length(ps, m.size as int);
    }
}

/// The directory sector has the size of a sector and ends in its checksum.
proof fn lemma_directory_length(ps: Seq<ProfileModel>, size: int)
    requires
        0 <= size,
    ensures
        directory_bytes(ps, size).len() == size,
        size >= 2 ==> sector_crc_ok(directory_bytes(ps, size)),
{
    if size >= 2 {
        lemma_crc_round_trip(directory_body(ps, size).subrange(0, size - 2), 0, 0);
    }
}

/// The step of a commit that takes the reply to the switch to host mode.
proof fn lemma_commit_enters(
    d: Seq<Hidpp20Driver>,
    info: DeviceModel,
    e: Seq<DriverEventModel>,
    a: Seq<ActionModel>,
    h: int,
    k: int,
)
    requires
        0 < h <= k < e.len(),
        d.len() == e.len() + 1,
        a.len() == e.len(),
        info.profiles.len() <= usize::MAX,
        committing(d, info, e, a, h, k),
        d[k].stage is CommitHostMode,
        commit_step_at(d, info, e, a, k),
        !(e[k] is Start),
        accepted_at(e, k),
    ensures
        committing(d, info, e, a, h, k + 1),
{
    let n = k + 1;
    let pre = d[k];
    let post = d[n];
    let ps = info.profiles;
    let m = pre.memory();
    assert(post.memory() == pre.memory());
    assert(profiles_written(d, info, e, h, n, 0));
    lemma_next_due(ps, d[h].force_repair, 0);
    lemma_turn_to_profile(d, info, e, a, h, n, 0);
}

/// A step of a commit that takes a chunk of a sector.
proof fn lemma_commit_reads(
    d: Seq<Hidpp20Driver>,
    info: DeviceModel,
    e: Seq<DriverEventModel>,
    a: Seq<ActionModel>,
    h: int,
    k: int,
)
    requires
        0 < h <= k < e.len(),
        d.len() == e.len() + 1,
        a.len() == e.len(),
        info.profiles.len() <= usize::MAX,
        committing(d, info, e, a, h, k),
        d[k].stage is CommitRead,
        commit_step_at(d, info, e, a, k),
        !(e[k] is Start),
        accepted_at(e, k),
    ensures
        committing(d, info, e, a, h, k + 1),
{
    let n = k + 1;
    let pre = d[k];
    let post = d[n];
    let ps = info.profiles;
    let m = pre.memory();
    assert(post.memory() == pre.memory());
    let i = pre.stage@->CommitRead_i;
    let read = pre.stage@->CommitRead_read;
    lemma_written_stays(d, info, e, h, k, i as int);
    let now = read.accept(payload_of(e[k])->0);
    assert(now.wf());
    if now.done() {
        lemma_sealed_verifies(now.data, ps[i as int], m.buttons as int);
    }
}

/// A step of a commit that takes the reply to a call of a profile write.
proof fn lemma_commit_writes(
    d: Seq<Hidpp20Driver>,
    info: DeviceModel,
    e: Seq<DriverEventModel>,
    a: Seq<ActionModel>,
    h: int,
    k: int,
)
    requires
        0 < h <= k < e.len(),
        d.len() == e.len() + 1,
        a.len() == e.len(),
        info.profiles.len() <= usize::MAX,
        committing(d, info, e, a, h, k),
        d[k].stage is CommitWrite,
        commit_step_at(d, info, e, a, k),
        !(e[k] is Start),
        accepted_at(e, k),
    ensures
        committing(d, info, e, a, h, k + 1),
{
    let n = k + 1;
    let pre = d[k];
    let post = d[n];
    let ps = info.profiles;
    let m = pre.memory();
    assert(post.memory() == pre.memory());
    let i = pre.stage@->CommitWrite_i;
    let write = pre.stage@->CommitWrite_write;
    lemma_written_stays(d, info, e, h, k, i as int);
    let step = write.after(true);
    if step.1 == WriteStep::Done {
        assert(completes_profile(d, info, e, k, i as int));
        lemma_next_due(ps, d[h].force_repair, 0);
        assert forall|j: int|
            0 <= j < i + 1 && due(ps, d[h].force_repair, j) implies #[trigger] profile_written(
            d,
            info,
            e,
            h,
            n,
            j,
        ) by {
            if j < i {
                assert(profile_written(d, info, e, h, n, j));
            } else {
                assert(h <= k < n && completes_profile(d, info, e, k, j));
            }
        }
        lemma_turn_to_profile(d, info, e, a, h, n, i + 1);
    }
}

/// A step of a commit that takes the reply to a call of the directory write.
proof fn lemma_commit_writes_directory(
    d: Seq<Hidpp20Driver>,
    info: DeviceModel,
    e: Seq<DriverEventModel>,
    a: Seq<ActionModel>,
    h: int,
    k: int,
)
    requires
        0 < h <= k < e.len(),
        d.len() == e.len() + 1,
        a.len() == e.len(),
        info.profiles.len() <= usize::MAX,
        committing(d, info, e, a, h, k),
        d[k].stage is CommitDirectory,
        commit_step_at(d, info, e, a, k),
        !(e[k] is Start),
        accepted_at(e, k),
    ensures
        committing(d, info, e, a, h, k + 1),
{
    let n = k + 1;
    let pre = d[k];
    let post = d[n];
    let ps = info.profiles;
    let m = pre.memory();
    assert(post.memory() == pre.memory());
    let write = pre.stage@->CommitDirectory_write;
    lemma_written_stays(d, info, e, h, k, ps.len() as int);
    lemma_directory_length(ps, pre.mem_sector_size as int);
    let step = write.after(true);
    if step.1 == WriteStep::Done {
        assert(h <= k < n && completes_directory(d, info, e, k));
    }
}

/// The step of a commit that takes the reply to the switch back.
proof fn lemma_commit_leaves(
    d: Seq<Hidpp20Driver>,
    info: DeviceModel,
    e: Seq<DriverEventModel>,
    a: Seq<ActionModel>,
    h: int,
    k: int,
)
    requires
        0 < h <= k < e.len(),
        d.len() == e.len() + 1,
        a.len() == e.len(),
        info.profiles.len() <= usize::MAX,
        committing(d, info, e, a, h, k),
        d[k].stage is CommitOnboardMode,
        commit_step_at(d, info, e, a, k),
        !(e[k] is Start),
        accepted_at(e, k),
    ensures
        committing(d, info, e, a, h, k + 1),
{
    let n = k + 1;
    let pre = d[k];
    let post = d[n];
    let ps = info.profiles;
    let m = pre.memory();
    lemma_written_stays(d, info, e, h, k, ps.len() as int);
}

/// One step of a commit inside the host-mode window.
proof fn lemma_commit_step(
    d: Seq<Hidpp20Driver>,
    info: DeviceModel,
    e: Seq<DriverEventModel>,
    a: Seq<ActionModel>,
    h: int,
    k: int,
)
    requires
        0 < h <= k < e.len(),
        d.len() == e.len() + 1,
        a.len() == e.len(),
        info.profiles.len() <= usize::MAX,
        committing(d, info, e, a, h, k),
        !(d[k].stage is Idle),
        commit_step_at(d, info, e, a, k),
        !(e[k] is Start),
        accepted_at(e, k),
    ensures
        committing(d, info, e, a, h, k + 1),
{
    if d[k].stage is CommitHostMode {
        lemma_commit_enters(d, info, e, a, h, k);
    } else if d[k].stage is CommitRead {
        lemma_commit_reads(d, info, e, a, h, k);
    } else if d[k].stage is CommitWrite {
        lemma_commit_writes(d, info, e, a, h, k);
    } else if d[k].stage is CommitDirectory {
        lemma_commit_writes_directory(d, info, e, a, h, k);
    } else {
        lemma_commit_leaves(d, info, e, a, h, k);
    }
}

/// A commit, on a device that accepts every request, writes every profile
/// that is dirty, or every profile where a repair is due, and then the
/// directory. From the step `h` that takes the reply to the switch to host
/// mode on, the run stands as [`committing`] says: the sector after the
/// index of each such profile is written, in order, patched with what the
/// profile holds and ending in its checksum; the directory sector is
/// written after the last of them; the device is switched back to onboard
/// mode; and the commit ends with success and the repair flag down.
pub proof fn lemma_commit_run(
    d: Seq<Hidpp20Driver>,
    info: DeviceModel,
    e: Seq<DriverEventModel>,
    a: Seq<ActionModel>,
    h: int,
    n: int,
)
    requires
        is_commit_run(d, info, e, a),
        0 < h <= n <= e.len(),
        forall|k: int| h <= k < e.len() ==> #[trigger] accepted_at(e, k),
        d[h].stage is CommitHostMode,
        !d[h].any_written,
        d[h].last_error is None,
        info.profiles.len() <= usize::MAX,
    ensures
        committing(d, info, e, a, h, n),
    decreases n - h,
{
    if h < n {
        let k = n - 1;
        lemma_commit_run(d, info, e, a, h, k);
        assert(commit_step_at(d, info, e, a, k));
        assert(goes_on_at(e, a, k));
        assert(accepted_at(e, k));
        if d[k].stage is Idle {
            assert(k > h);
            assert(goes_on_at(e, a, k));
            assert(a[k - 1] is Done);
            assert(a[k - 1].ends());
        }
        lemma_commit_step(d, info, e, a, h, k);
    }
}

/// Whether the commit stands before the host-mode window after step
/// `k - 1`: a live setting was written, no sector yet, and the driver
/// holds what the first step took over.
pub open spec fn live_at(d: Seq<Hidpp20Driver>, a: Seq<ActionModel>, k: int) -> bool {
    &&& d[k].stage.is_live_commit()
    &&& !a[k - 1].ends()
    &&& carried(d, k)
}

/// What the steps up to the host-mode window carry along: what the probe
/// and the load found, the repair flag as the first step took it over, and
/// that nothing was written and nothing failed.
pub open spec fn carried(d: Seq<Hidpp20Driver>, k: int) -> bool {
    &&& d[k].features == d[0].features
    &&& d[k].cached_onboard_info == d[0].cached_onboard_info
    &&& d[k].force_repair == d[0].needs_eeprom_repair
    &&& !d[k].any_written
    &&& d[k].last_error is None
}

/// Whether the host-mode window opens after step `h - 1`: that step
/// switches the device to host mode, the driver has taken note of the size
/// of a sector and of the number of buttons that a sector binds, and every
/// step before it wrote a live setting.
pub open spec fn window_opens(d: Seq<Hidpp20Driver>, a: Seq<ActionModel>, h: int) -> bool {
    &&& 0 < h < d.len()
    &&& d[h].stage is CommitHostMode
    &&& a[h - 1] == mode_switch(d[h], ONBOARD_MODE_HOST)
    &&& d[0].cached_onboard_info is Some ==> d[h].mem_sector_size
        == d[0].cached_onboard_info->0.spec_sector_size() && d[h].mem_buttons
        == d[0].cached_onboard_info->0.button_count as usize
    &&& carried(d, h)
    &&& forall|k: int| 0 < k < h ==> #[trigger] live_at(d, a, k)
}

/// A commit to a device with onboard profiles whose memory was described
/// writes live settings until it switches the device to host mode: after
/// `n` steps the window has opened, or every step so far wrote a live
/// setting.
pub proof fn lemma_commit_reaches_window(
    d: Seq<Hidpp20Driver>,
    info: DeviceModel,
    e: Seq<DriverEventModel>,
    a: Seq<ActionModel>,
    n: int,
)
    requires
        is_commit_run(d, info, e, a),
        d[0].features.onboard_profiles is Some,
        d[0].cached_onboard_info is Some,
        0 < n <= e.len(),
    ensures
        (forall|k: int| 0 < k <= n ==> #[trigger] live_at(d, a, k)) || (exists|h: int|
            h <= n && #[trigger] window_opens(d, a, h)),
    decreases n,
{
    let k = n - 1;
    assert(commit_step_at(d, info, e, a, k));
    if k == 0 {
        if !live_at(d, a, 1) {
            assert(window_opens(d, a, 1));
        }
    } else {
        lemma_commit_reaches_window(d, info, e, a, k);
        assert(goes_on_at(e, a, k));
        if forall|j: int| 0 < j <= k ==> #[trigger] live_at(d, a, j) {
            assert(live_at(d, a, k));
            if !live_at(d, a, n) {
                assert(window_opens(d, a, n));
            }
        } else {
            let h = choose|h: int| h <= k && #[trigger] window_opens(d, a, h);
            assert(h <= n && window_opens(d, a, h));
        }
    }
}

/// What a commit has done when it ends, `h` being the step that takes the
/// reply to the switch to host mode: no sector was written before the
/// device was in host mode; from then on the sector of every profile that
/// was to be written was written, and the directory after them; the device
/// was switched back to onboard mode after the last write; and the commit
/// ended with success and the repair flag down.
pub open spec fn committed(
    d: Seq<Hidpp20Driver>,
    info: DeviceModel,
    e: Seq<DriverEventModel>,
    a: Seq<ActionModel>,
    h: int,
) -> bool {
    let last = e.len() - 1;
    let all = info.profiles.len() as int;
    &&& window_opens(d, a, h)
    &&& h < last
    &&& profiles_written(d, info, e, h, last, all)
    &&& next_due(info.profiles, d[0].needs_eeprom_repair, 0) < all ==> directory_written(
        d,
        info,
        e,
        h,
        last,
    )
    &&& d[last].stage is CommitOnboardMode
    &&& a[last - 1] == mode_switch(d[last], ONBOARD_MODE_ONBOARD)
    &&& a[last] is Done
    &&& !d[last + 1].needs_eeprom_repair
}

/// A commit to a device with onboard profiles that accepts every request
/// succeeds. The device is switched to host mode; the sector of every
/// profile that is dirty, which is the one after its index, is written,
/// patched with what the profile holds and with its checksum; the
/// directory sector is written after them, where a profile was written;
/// the device is switched back to onboard mode; and the commit ends with
/// success and the repair flag down.
pub proof fn lemma_commit_succeeds(
    d: Seq<Hidpp20Driver>,
    info: DeviceModel,
    e: Seq<DriverEventModel>,
    a: Seq<ActionModel>,
)
    requires
        is_commit_run(d, info, e, a),
        d[0].features.onboard_profiles is Some,
        d[0].cached_onboard_info is Some,
        info.profiles.len() <= usize::MAX,
        forall|k: int| 0 < k < e.len() ==> #[trigger] accepted_at(e, k),
        a.last().ends(),
    ensures
        exists|h: int| #[trigger] committed(d, info, e, a, h),
{
    let n = e.len() as int;
    lemma_commit_reaches_window(d, info, e, a, n);
    if forall|k: int| 0 < k <= n ==> #[trigger] live_at(d, a, k) {
        assert(live_at(d, a, n));
    }
    let h = choose|h: int| h <= n && #[trigger] window_opens(d, a, h);
    lemma_commit_run(d, info, e, a, h, n);
    assert(h < n);
    lemma_commit_run(d, info, e, a, h, n - 1);
    lemma_window_step(d, info, e, a, n - 1);
    assert(d[n - 1].stage is CommitOnboardMode);
    assert(h < n - 1);
    lemma_window_step(d, info, e, a, n - 2);
    lemma_commit_ends(d, info, e, a, h);
}

/// What the host-mode window says of step `k` of a run.
proof fn lemma_window_step(
    d: Seq<Hidpp20Driver>,
    info: DeviceModel,
    e: Seq<DriverEventModel>,
    a: Seq<ActionModel>,
    k: int,
)
    requires
        is_commit_run(d, info, e, a),
        0 < k < e.len(),
    ensures
        d[k].stage.in_host_window() ==> !a[k].ends(),
        d[k].stage is Idle ==> false,
        d[k].stage is CommitOnboardMode ==> d[k + 1].stage is Idle,
        d[k + 1].stage is CommitOnboardMode ==> a[k] == mode_switch(
            d[k + 1],
            ONBOARD_MODE_ONBOARD,
        ),
{
    assert(commit_step_at(d, info, e, a, k));
    assert(commit_step_at(d, info, e, a, k - 1));
    assert(goes_on_at(e, a, k));
    lemma_host_mode_window(d[k], info, e[k], d[k + 1], a[k]);
    if d[k].stage is Idle {
        lemma_idle_ended(d[k - 1], info, e[k - 1], d[k], a[k - 1]);
    }
}

/// A step of a commit that leaves the driver idle ends the commit.
proof fn lemma_idle_ended(
    pre: Hidpp20Driver,
    info: DeviceModel,
    ev: DriverEventModel,
    post: Hidpp20Driver,
    r: ActionModel,
)
    requires
        commit_post(pre, info, ev, post, r),
        post.stage is Idle,
    ensures
        r.ends(),
{
}

/// The end of a commit whose last steps switched the device back.
proof fn lemma_commit_ends(
    d: Seq<Hidpp20Driver>,
    info: DeviceModel,
    e: Seq<DriverEventModel>,
    a: Seq<ActionModel>,
    h: int,
)
    requires
        d.len() == e.len() + 1,
        a.len() == e.len(),
        window_opens(d, a, h),
        h < e.len() - 1,
        d[0].needs_eeprom_repair == d[h].force_repair,
        committing(d, info, e, a, h, e.len() - 1),
        committing(d, info, e, a, h, e.len() as int),
        d[e.len() - 1].stage is CommitOnboardMode,
        d[e.len() as int].stage is Idle,
        a[e.len() - 2] == mode_switch(d[e.len() - 1], ONBOARD_MODE_ONBOARD),
    ensures
        committed(d, info, e, a, h),
{
}

/// What a commit that made a repair has done when it ends: what every
/// commit has done, and the sector of every profile was written, and the
/// directory after them.
pub open spec fn repaired(
    d: Seq<Hidpp20Driver>,
    info: DeviceModel,
    e: Seq<DriverEventModel>,
    a: Seq<ActionModel>,
    h: int,
) -> bool {
    let last = e.len() - 1;
    &&& committed(d, info, e, a, h)
    &&& forall|j: int|
        0 <= j < info.profiles.len() ==> #[trigger] profile_written(d, info, e, h, last, j)
    &&& directory_written(d, info, e, h, last)
}

/// A commit with the repair flag up, to a device that accepts every
/// request, repairs the onboard memory. The device is switched to host
/// mode; the sector of every profile, which is the one after its index, is
/// written with its checksum, whether or not the profile is dirty; the
/// directory sector is written after them; the device is switched back to
/// onboard mode; and the commit ends with success and the flag down.
pub proof fn lemma_repairing_commit(
    d: Seq<Hidpp20Driver>,
    info: DeviceModel,
    e: Seq<DriverEventModel>,
    a: Seq<ActionModel>,
)
    requires
        is_commit_run(d, info, e, a),
        d[0].needs_eeprom_repair,
        d[0].features.onboard_profiles is Some,
        d[0].cached_onboard_info is Some,
        1 <= info.profiles.len() <= usize::MAX,
        forall|k: int| 0 < k < e.len() ==> #[trigger] accepted_at(e, k),
        a.last().ends(),
    ensures
        exists|h: int| #[trigger] repaired(d, info, e, a, h),
{
    lemma_commit_succeeds(d, info, e, a);
    let h = choose|h: int| #[trigger] committed(d, info, e, a, h);
    let last = e.len() - 1;
    lemma_next_due(info.profiles, true, 0);
    assert forall|j: int| 0 <= j < info.profiles.len() implies #[trigger] profile_written(
        d,
        info,
        e,
        h,
        last,
        j,
    ) by {
        assert(due(info.profiles, d[h].force_repair, j));
    }
    assert(repaired(d, info, e, a, h));
}

} // verus!
