//! Runs of the HID++ 2.0 driver against a device whose onboard memory is
//! known: what a load takes from the sectors of the profiles, and what it
//! finds of what a commit wrote there.

use vstd::prelude::*;
use crate::device::{DeviceModel, Dpi, ProfileModel};
use crate::driver::{ActionModel, DriverEventModel};
use crate::driver::hidpp::be16;
use crate::driver::hidpp20::FeatureMap;
use crate::driver::hidpp20_commit::sector_of_profile;
use crate::driver::hidpp20_driver::{payload_of, Hidpp20Driver, StageModel};
use crate::driver::hidpp20_load::{
    first_made_active, load_post, next_sector, sector_turn, took, usable, whole_sector,
    with_profile,
};
use crate::driver::hidpp20_memory::{directory_of, DirectoryModel, SectorReadModel};
use crate::driver::hidpp20_profile::{
    lemma_sector_keeps_dpi, profile_after_sector, sector_after_patch, sector_dpis,
};
use crate::driver::hidpp20_runs::{
    accepted_at, committed, completes_profile, due, goes_on_at, is_commit_run, is_load_run,
    lemma_commit_run, lemma_commit_succeeds, lemma_live_query_stages, lemma_sector_turn_asks,
    load_step_at, patched, profile_written,
};

verus! {

/// Whether the memory holds sector `addr` in full.
pub open spec fn fits(memory: Seq<Seq<u8>>, addr: u16, size: u16) -> bool {
    addr < memory.len() && memory[addr as int].len() == size
}

/// Whether the memory of a device, sector by sector, holds every sector
/// that the directory gives a profile, in sectors of at least sixteen
/// bytes.
pub open spec fn holds(memory: Seq<Seq<u8>>, dir: DirectoryModel, size: u16) -> bool {
    &&& size >= 16
    &&& dir.addrs.len() == dir.enabled.len()
    &&& dir.addrs.len() <= usize::MAX
    &&& forall|j: int|
        0 <= j < dir.addrs.len() && usable(#[trigger] dir.addrs[j]) ==> fits(
            memory,
            dir.addrs[j],
            size,
        )
}

/// Whether the event of step `k` is the answer of a device that holds
/// `memory` to the read request that is open before the step: the sixteen
/// bytes of the sector from the offset that the request asks for.
pub open spec fn served_at(
    d: Seq<Hidpp20Driver>,
    e: Seq<DriverEventModel>,
    memory: Seq<Seq<u8>>,
    k: int,
) -> bool {
    match d[k].stage@ {
        StageModel::LoadProfile { i, dir, read } => {
            &&& read.sector < memory.len()
            &&& payload_of(e[k]) == Some(
                memory[read.sector as int].subrange(
                    read.request_offset(),
                    read.request_offset() + 16,
                ),
            )
        },
        _ => false,
    }
}

/// The profiles after the sectors of the profiles before profile `i` were
/// taken from the memory: each profile that the directory gives a sector
/// is what the bytes of that sector make of it.
pub open spec fn filled_to(
    start: Seq<ProfileModel>,
    memory: Seq<Seq<u8>>,
    dir: DirectoryModel,
    buttons: int,
    i: int,
) -> Seq<ProfileModel> {
    Seq::new(
        start.len(),
        |j: int|
            if j < i && j < dir.addrs.len() && usable(dir.addrs[j]) {
                profile_after_sector(
                    start[j],
                    memory[dir.addrs[j] as int],
                    dir.enabled[j],
                    buttons,
                )
            } else {
                start[j]
            },
    )
}

/// Where a load stands before step `n`, `m` being the step that takes the
/// first chunk of the first profile sector, on a device that holds
/// `memory`. While a sector is read, what was read of it is what the
/// memory holds there, and the profiles before it are filled from their
/// sectors. Once the last sector is read, every profile is filled from its
/// sector, and the first profile is the active one.
pub open spec fn filling(
    d: Seq<Hidpp20Driver>,
    s: Seq<DeviceModel>,
    a: Seq<ActionModel>,
    memory: Seq<Seq<u8>>,
    dir: DirectoryModel,
    m: int,
    n: int,
) -> bool {
    let size = d[m].sector_size_spec();
    let buttons = d[m].button_count_spec();
    let start = s[m].profiles;
    &&& d[n].cached_onboard_info == d[m].cached_onboard_info
    &&& d[n].features == d[m].features
    &&& match d[n].stage@ {
        StageModel::LoadProfile { i, dir: now, read } => {
            &&& now == dir
            &&& i < dir.addrs.len()
            &&& usable(dir.addrs[i as int])
            &&& read.wf()
            &&& !read.done()
            &&& read.start == 0
            &&& read.end == size
            &&& read.sector == dir.addrs[i as int]
            &&& read.cur % 16 == 0
            &&& read.data == memory[read.sector as int].subrange(0, read.cur as int)
            &&& s[n].profiles == filled_to(start, memory, dir, buttons, i as int)
        },
        _ => {
            &&& n > m
            &&& !(a[n - 1] is Failed)
            &&& s[n].profiles == first_made_active(
                filled_to(start, memory, dir, buttons, dir.addrs.len() as int),
            )
        },
    }
}

/// Between profile `i` and the next profile that the directory gives a
/// sector, no profile has one.
proof fn lemma_next_sector_skips(dir: DirectoryModel, i: int)
    requires
        0 <= i,
    ensures
        i <= next_sector(dir, i),
        forall|t: int| i <= t < next_sector(dir, i) && t < dir.addrs.len() ==> !usable(
            #[trigger] dir.addrs[t],
        ),
        next_sector(dir, i) < dir.addrs.len() ==> usable(dir.addrs[next_sector(dir, i)]),
    decreases dir.addrs.len() - i,
{
    if i < dir.addrs.len() && !usable(dir.addrs[i]) {
        lemma_next_sector_skips(dir, i + 1);
    }
}

/// Profiles that the directory gives no sector are left as they were.
proof fn lemma_filled_skips(
    start: Seq<ProfileModel>,
    memory: Seq<Seq<u8>>,
    dir: DirectoryModel,
    buttons: int,
    i: int,
    j: int,
)
    requires
        0 <= i <= j,
        forall|t: int| i <= t < j && t < dir.addrs.len() ==> !usable(#[trigger] dir.addrs[t]),
    ensures
        filled_to(start, memory, dir, buttons, i) == filled_to(start, memory, dir, buttons, j),
{
    assert(filled_to(start, memory, dir, buttons, i) =~= filled_to(start, memory, dir, buttons, j));
}

/// Past the last profile of the directory nothing is left to fill.
proof fn lemma_filled_ends(
    start: Seq<ProfileModel>,
    memory: Seq<Seq<u8>>,
    dir: DirectoryModel,
    buttons: int,
    j: int,
)
    requires
        dir.addrs.len() <= j,
    ensures
        filled_to(start, memory, dir, buttons, j) == filled_to(
            start,
            memory,
            dir,
            buttons,
            dir.addrs.len() as int,
        ),
{
    assert(filled_to(start, memory, dir, buttons, j) =~= filled_to(
        start,
        memory,
        dir,
        buttons,
        dir.addrs.len() as int,
    ));
}

/// Taking the sector of profile `i` fills one profile more.
proof fn lemma_filled_next(
    start: Seq<ProfileModel>,
    memory: Seq<Seq<u8>>,
    dir: DirectoryModel,
    buttons: int,
    i: int,
)
    requires
        0 <= i < dir.addrs.len(),
        usable(dir.addrs[i]),
    ensures
        with_profile(
            filled_to(start, memory, dir, buttons, i),
            i,
            profile_after_sector(
                filled_to(start, memory, dir, buttons, i)[i],
                memory[dir.addrs[i] as int],
                dir.enabled[i],
                buttons,
            ),
        ) == filled_to(start, memory, dir, buttons, i + 1),
{
    assert(with_profile(
        filled_to(start, memory, dir, buttons, i),
        i,
        profile_after_sector(
            filled_to(start, memory, dir, buttons, i)[i],
            memory[dir.addrs[i] as int],
            dir.enabled[i],
            buttons,
        ),
    ) =~= filled_to(start, memory, dir, buttons, i + 1));
}

/// What the step that takes a chunk of a profile sector does: the read
/// goes on with the next chunk, or the sector is taken into its profile
/// and the next sector follows.
pub open spec fn chunk_taken(
    pre: Hidpp20Driver,
    before: DeviceModel,
    ev: DriverEventModel,
    post: Hidpp20Driver,
    after: DeviceModel,
    r: ActionModel,
) -> bool {
    let i = pre.stage@->LoadProfile_i;
    let dir = pre.stage@->LoadProfile_dir;
    let read = pre.stage@->LoadProfile_read;
    let now = read.accept(payload_of(ev)->0);
    let ps = before.profiles;
    &&& post.cached_onboard_info == pre.cached_onboard_info
    &&& post.features == pre.features
    &&& if now.done() {
        took(
            post,
            after,
            r,
            sector_turn(
                pre.device_index,
                pre.features,
                pre.sector_size_spec(),
                dir,
                i + 1,
                with_profile(
                    ps,
                    i as int,
                    profile_after_sector(
                        ps[i as int],
                        now.data,
                        dir.enabled[i as int],
                        pre.button_count_spec(),
                    ),
                ),
            ),
        )
    } else {
        &&& post.stage@ == (StageModel::LoadProfile { i, dir, read: now })
        &&& !(r is Failed)
        &&& after.profiles == ps
    }
}

/// A step of a load that takes a chunk of a profile sector does what
/// [`chunk_taken`] says.
proof fn lemma_chunk_taken(
    pre: Hidpp20Driver,
    before: DeviceModel,
    ev: DriverEventModel,
    post: Hidpp20Driver,
    after: DeviceModel,
    r: ActionModel,
)
    requires
        load_post(pre, before, ev, post, after, r),
        !(ev is Start),
        payload_of(ev) is Some,
        pre.features.onboard_profiles is Some,
        pre.stage@ is LoadProfile,
        pre.stage@->LoadProfile_read.wf(),
        !pre.stage@->LoadProfile_read.done(),
        pre.stage@->LoadProfile_i < pre.stage@->LoadProfile_dir.enabled.len(),
        pre.stage@->LoadProfile_dir.addrs.len() == pre.stage@->LoadProfile_dir.enabled.len(),
    ensures
        chunk_taken(pre, before, ev, post, after, r),
{
}

/// Where the turn to the sector of the next profile leads, given that the
/// profiles before it are filled.
proof fn lemma_turn_fills(
    post: Hidpp20Driver,
    after: DeviceModel,
    r: ActionModel,
    dev: u8,
    f: FeatureMap,
    size: u16,
    start: Seq<ProfileModel>,
    memory: Seq<Seq<u8>>,
    dir: DirectoryModel,
    buttons: int,
    i: int,
)
    requires
        holds(memory, dir, size),
        f.onboard_profiles is Some,
        0 < i <= dir.addrs.len(),
        took(
            post,
            after,
            r,
            sector_turn(dev, f, size, dir, i, filled_to(start, memory, dir, buttons, i)),
        ),
    ensures
        !(r is Failed),
        match post.stage@ {
            StageModel::LoadProfile { i: j, dir: now, read } => {
                &&& now == dir
                &&& j < dir.addrs.len()
                &&& usable(dir.addrs[j as int])
                &&& read == whole_sector(dir.addrs[j as int], size)
                &&& after.profiles == filled_to(start, memory, dir, buttons, j as int)
            },
            _ => after.profiles == first_made_active(
                filled_to(start, memory, dir, buttons, dir.addrs.len() as int),
            ),
        },
{
    let j = next_sector(dir, i);
    let ps = filled_to(start, memory, dir, buttons, i);
    lemma_next_sector_skips(dir, i);
    lemma_filled_skips(start, memory, dir, buttons, i, j);
    lemma_live_query_stages(dev, f, first_made_active(ps), 0, 0);
    if j >= dir.addrs.len() {
        lemma_filled_ends(start, memory, dir, buttons, j);
    }
}

/// What was read of a sector, with the next chunk, is what the memory
/// holds there.
proof fn lemma_chunk_from_memory(read: SectorReadModel, sector: Seq<u8>)
    requires
        read.wf(),
        !read.done(),
        read.start == 0,
        read.end == sector.len(),
        sector.len() >= 16,
        read.cur % 16 == 0,
        read.data == sector.subrange(0, read.cur as int),
    ensures
        ({
            let off = read.request_offset();
            let now = read.accept(sector.subrange(off, off + 16));
            &&& now.wf()
            &&& now.start == 0
            &&& now.end == read.end
            &&& now.sector == read.sector
            &&& now.data == sector.subrange(0, now.cur as int)
            &&& (now.done() ==> now.data == sector)
            &&& (!now.done() ==> now.cur % 16 == 0)
        }),
{
    let off = read.request_offset();
    let p = sector.subrange(off, off + 16);
    let now = read.accept(p);
    assert(read.kept(p) =~= sector.subrange(read.cur as int, read.cur + read.chunk_len()));
    assert(now.data =~= sector.subrange(0, now.cur as int));
    if now.done() {
        assert(now.data =~= sector);
    }
}

/// One step of a load that takes a chunk of a profile sector from the
/// memory of the device.
proof fn lemma_fill_step(
    d: Seq<Hidpp20Driver>,
    s: Seq<DeviceModel>,
    e: Seq<DriverEventModel>,
    a: Seq<ActionModel>,
    memory: Seq<Seq<u8>>,
    dir: DirectoryModel,
    m: int,
    k: int,
)
    requires
        0 < m <= k < e.len(),
        d.len() == e.len() + 1,
        s.len() == e.len() + 1,
        a.len() == e.len(),
        holds(memory, dir, d[m].sector_size_spec()),
        d[m].features.onboard_profiles is Some,
        filling(d, s, a, memory, dir, m, k),
        served_at(d, e, memory, k),
        chunk_taken(d[k], s[k], e[k], d[k + 1], s[k + 1], a[k]),
    ensures
        filling(d, s, a, memory, dir, m, k + 1),
{
    let size = d[m].sector_size_spec();
    let buttons = d[m].button_count_spec();
    let start = s[m].profiles;
    let pre = d[k];
    let ps = s[k].profiles;
    let i = pre.stage@->LoadProfile_i;
    let read = pre.stage@->LoadProfile_read;
    let sector = memory[read.sector as int];
    assert(fits(memory, dir.addrs[i as int], size));
    lemma_chunk_from_memory(read, sector);
    let off = read.request_offset();
    let now = read.accept(sector.subrange(off, off + 16));
    if now.done() {
        lemma_filled_next(start, memory, dir, buttons, i as int);
        let next = with_profile(
            ps,
            i as int,
            profile_after_sector(ps[i as int], now.data, dir.enabled[i as int], buttons),
        );
        assert(next == filled_to(start, memory, dir, buttons, i + 1));
        lemma_turn_fills(
            d[k + 1],
            s[k + 1],
            a[k],
            pre.device_index,
            pre.features,
            size,
            start,
            memory,
            dir,
            buttons,
            i + 1,
        );
        if d[k + 1].stage@ is LoadProfile {
            let j = d[k + 1].stage@->LoadProfile_i;
            let next_read = whole_sector(dir.addrs[j as int], size);
            assert(fits(memory, dir.addrs[j as int], size));
            assert(next_read.data =~= memory[next_read.sector as int].subrange(0, 0));
        }
    }
}

/// A load fills every profile from the sector that the directory gives it.
/// From the step `m` that takes the first chunk of the first profile
/// sector on, on a device that answers every read with the bytes that its
/// memory holds, the run stands as [`filling`] says: when the last sector
/// is read, each profile is what the bytes of its sector make of the
/// profile that was there, and no step has failed the load.
pub proof fn lemma_load_fills_from_memory(
    d: Seq<Hidpp20Driver>,
    s: Seq<DeviceModel>,
    e: Seq<DriverEventModel>,
    a: Seq<ActionModel>,
    memory: Seq<Seq<u8>>,
    dir: DirectoryModel,
    m: int,
    n: int,
)
    requires
        is_load_run(d, s, e, a),
        0 < m <= n <= e.len(),
        holds(memory, dir, d[m].sector_size_spec()),
        d[m].features.onboard_profiles is Some,
        next_sector(dir, 0) < dir.addrs.len(),
        d[m].stage@ == (StageModel::LoadProfile {
            i: next_sector(dir, 0) as usize,
            dir,
            read: whole_sector(dir.addrs[next_sector(dir, 0)], d[m].sector_size_spec()),
        }),
        forall|k: int| m <= k < n ==> #[trigger] served_at(d, e, memory, k),
    ensures
        filling(d, s, a, memory, dir, m, n),
    decreases n - m,
{
    let buttons = d[m].button_count_spec();
    if m == n {
        let j = next_sector(dir, 0);
        lemma_next_sector_skips(dir, 0);
        lemma_filled_skips(s[m].profiles, memory, dir, buttons, 0, j);
        assert(filled_to(s[m].profiles, memory, dir, buttons, 0) =~= s[m].profiles);
        let read = whole_sector(dir.addrs[j], d[m].sector_size_spec());
        assert(read.data =~= memory[read.sector as int].subrange(0, 0));
    } else {
        let k = n - 1;
        lemma_load_fills_from_memory(d, s, e, a, memory, dir, m, k);
        assert(served_at(d, e, memory, k));
        assert(load_step_at(d, s, e, a, k));
        assert(goes_on_at(e, a, k));
        lemma_chunk_taken(d[k], s[k], e[k], d[n], s[n], a[k]);
        lemma_fill_step(d, s, e, a, memory, dir, m, k);
    }
}

// ---------------------------------------------------------------------------
// A load after a commit
// ---------------------------------------------------------------------------

/// The DPI value in slot `t` of a profile sector.
pub open spec fn slot(data: Seq<u8>, t: int) -> u16 {
    be16(data[3 + 2 * t + 1], data[3 + 2 * t])
}

/// Whether a DPI can be stored in a slot of a profile sector: one value
/// for both axes, which is neither 0 nor at or above `0xFFFF`.
pub open spec fn storable(dpi: Dpi) -> bool {
    dpi is Unified && 0 < dpi->Unified_0 < 0xFFFF
}

/// Whether resolution `i` of a profile is read back from where a commit
/// stored it: it is one of the first five, and it and the resolutions
/// before it hold a DPI that can be stored.
pub open spec fn stored_resolution(p: ProfileModel, i: int) -> bool {
    &&& 0 <= i < p.resolutions.len()
    &&& i < 5
    &&& forall|t: int| 0 <= t <= i ==> storable(#[trigger] p.resolutions[t].dpi)
}

/// Where the slots from `d` to `i` of a sector hold a value, the value of
/// slot `i` is the one that is read at position `i - d`.
proof fn lemma_slots_read(data: Seq<u8>, d: int, i: int)
    requires
        0 <= d <= i < 5,
        data.len() >= 13,
        forall|t: int| d <= t <= i ==> 0 < #[trigger] slot(data, t) < 0xFFFF,
    ensures
        sector_dpis(data, d).len() > i - d,
        sector_dpis(data, d)[i - d] == slot(data, i) as u32,
    decreases i - d,
{
    assert(0 < slot(data, d) < 0xFFFF);
    if d < i {
        lemma_slots_read(data, d + 1, i);
    }
}

/// What a commit stored of a profile is read back: in a sector that was
/// patched with what profile `p` holds, a load finds the DPI of each
/// resolution of `p` that can be stored, whatever profile it fills.
pub proof fn lemma_stored_dpi_reads_back(
    q: ProfileModel,
    data: Seq<u8>,
    p: ProfileModel,
    buttons: int,
    enabled: bool,
    i: int,
)
    requires
        data.len() >= 34,
        stored_resolution(p, i),
        patched(data, p, buttons),
    ensures
        profile_after_sector(q, data, enabled, buttons).resolutions.len() > i,
        profile_after_sector(q, data, enabled, buttons).resolutions[i].dpi
            == p.resolutions[i].dpi,
{
    let raw = choose|raw: Seq<u8>|
        raw.len() == data.len() && data == #[trigger] sector_after_patch(raw, p, buttons);
    assert forall|t: int| 0 <= t <= i implies 0 < #[trigger] slot(data, t) < 0xFFFF && slot(
        data,
        t,
    ) == p.resolutions[t].dpi->Unified_0 by {
        assert(storable(p.resolutions[t].dpi));
        lemma_sector_keeps_dpi(raw, p, buttons, t);
    }
    lemma_slots_read(data, 0, i);
}

/// Whether the memory holds, in the sector that a write went to, what was
/// written.
pub open spec fn stored(memory: Seq<Seq<u8>>, stage: StageModel) -> bool {
    match stage {
        StageModel::CommitWrite { i, write } => write.sector < memory.len()
            && memory[write.sector as int] == write.data,
        _ => false,
    }
}

/// Whether the memory holds what a commit wrote for profile `j`.
pub open spec fn keeps_written(
    d: Seq<Hidpp20Driver>,
    info: DeviceModel,
    e: Seq<DriverEventModel>,
    memory: Seq<Seq<u8>>,
    j: int,
) -> bool {
    forall|k: int|
        0 <= k < e.len() && #[trigger] completes_profile(d, info, e, k, j) ==> stored(
            memory,
            d[k].stage@,
        )
}

/// A load finds what a commit wrote. Take a commit of the device state
/// `info`, on a device that accepts every request, in which profile `j` is
/// dirty; and a load from a device whose memory holds what that commit
/// wrote for the profile, in the sector that the directory gives it. When
/// the load has read the last profile sector, resolution `i` of profile
/// `j` has the DPI that it had in `info`, given that the DPI can be
/// stored.
pub proof fn lemma_commit_then_load(
    d1: Seq<Hidpp20Driver>,
    info: DeviceModel,
    e1: Seq<DriverEventModel>,
    a1: Seq<ActionModel>,
    d2: Seq<Hidpp20Driver>,
    s2: Seq<DeviceModel>,
    e2: Seq<DriverEventModel>,
    a2: Seq<ActionModel>,
    memory: Seq<Seq<u8>>,
    dir: DirectoryModel,
    m: int,
    n: int,
    j: int,
    i: int,
)
    requires
        is_commit_run(d1, info, e1, a1),
        d1[0].features.onboard_profiles is Some,
        d1[0].cached_onboard_info is Some,
        info.profiles.len() <= usize::MAX,
        forall|k: int| 0 < k < e1.len() ==> #[trigger] accepted_at(e1, k),
        a1.last().ends(),
        0 <= j < info.profiles.len(),
        info.profiles[j].is_dirty,
        stored_resolution(info.profiles[j], i),
        keeps_written(d1, info, e1, memory, j),
        is_load_run(d2, s2, e2, a2),
        0 < m < n <= e2.len(),
        d2[m].cached_onboard_info == d1[0].cached_onboard_info,
        d2[m].sector_size_spec() >= 34,
        holds(memory, dir, d2[m].sector_size_spec()),
        d2[m].features.onboard_profiles is Some,
        next_sector(dir, 0) < dir.addrs.len(),
        d2[m].stage@ == (StageModel::LoadProfile {
            i: next_sector(dir, 0) as usize,
            dir,
            read: whole_sector(dir.addrs[next_sector(dir, 0)], d2[m].sector_size_spec()),
        }),
        forall|k: int| m <= k < n ==> #[trigger] served_at(d2, e2, memory, k),
        !(d2[n].stage is LoadProfile),
        j < dir.addrs.len(),
        j < s2[m].profiles.len(),
        usable(dir.addrs[j]),
        dir.addrs[j] == sector_of_profile(info.profiles[j].index),
    ensures
        s2[n].profiles.len() > j,
        s2[n].profiles[j].resolutions.len() > i,
        s2[n].profiles[j].resolutions[i].dpi == info.profiles[j].resolutions[i].dpi,
{
    let buttons = d2[m].button_count_spec();
    lemma_commit_succeeds(d1, info, e1, a1);
    let h = choose|h: int| #[trigger] committed(d1, info, e1, a1, h);
    let last = e1.len() - 1;
    assert(due(info.profiles, d1[h].force_repair, j));
    assert(profile_written(d1, info, e1, h, last, j));
    let k = choose|k: int| h <= k < last && #[trigger] completes_profile(d1, info, e1, k, j);
    lemma_commit_run(d1, info, e1, a1, h, k);
    assert(stored(memory, d1[k].stage@));
    let data = memory[dir.addrs[j] as int];
    assert(fits(memory, dir.addrs[j], d2[m].sector_size_spec()));
    assert(patched(data, info.profiles[j], buttons));
    lemma_load_fills_from_memory(d2, s2, e2, a2, memory, dir, m, n);
    let start = s2[m].profiles;
    let filled = filled_to(start, memory, dir, buttons, dir.addrs.len() as int);
    assert(s2[n].profiles == first_made_active(filled));
    lemma_stored_dpi_reads_back(start[j], data, info.profiles[j], buttons, dir.enabled[j], i);
    assert(filled[j] == profile_after_sector(start[j], data, dir.enabled[j], buttons));
}

// ---------------------------------------------------------------------------
// A whole load from a device
// ---------------------------------------------------------------------------

/// Whether the event of step `k` is the answer of a device that holds
/// `memory` to the read request for the directory sector that is open
/// before the step.
pub open spec fn root_served_at(
    d: Seq<Hidpp20Driver>,
    e: Seq<DriverEventModel>,
    memory: Seq<Seq<u8>>,
    k: int,
) -> bool {
    match d[k].stage@ {
        StageModel::LoadRoot { read } => {
            &&& 0 < memory.len()
            &&& payload_of(e[k]) == Some(
                memory[0].subrange(read.request_offset(), read.request_offset() + 16),
            )
        },
        _ => false,
    }
}

/// The directory that a load finds on a device that holds `memory`.
pub open spec fn directory_in(memory: Seq<Seq<u8>>, driver: Hidpp20Driver) -> DirectoryModel {
    directory_of(memory[0], driver.profile_count_spec())
}

/// Where a load stands before step `n`, from its third step on, while it
/// reads the directory sector of a device that holds `memory`: what was
/// read is what the memory holds there, and the profiles are as the
/// description of the memory sized them. Once the sector is read, the
/// sector of the first profile follows, by the directory that the memory
/// holds.
pub open spec fn finding(
    d: Seq<Hidpp20Driver>,
    s: Seq<DeviceModel>,
    a: Seq<ActionModel>,
    memory: Seq<Seq<u8>>,
    n: int,
) -> bool {
    let size = d[2].sector_size_spec();
    &&& d[n].cached_onboard_info == d[2].cached_onboard_info
    &&& d[n].features == d[2].features
    &&& d[n].device_index == d[2].device_index
    &&& match d[n].stage@ {
        StageModel::LoadRoot { read } => {
            &&& read.wf()
            &&& !read.done()
            &&& read.start == 0
            &&& read.end == size
            &&& read.sector == 0
            &&& read.cur % 16 == 0
            &&& read.data == memory[0].subrange(0, read.cur as int)
            &&& s[n].profiles == s[2].profiles
        },
        _ => n > 2 && took(
            d[n],
            s[n],
            a[n - 1],
            sector_turn(
                d[2].device_index,
                d[2].features,
                size,
                directory_in(memory, d[2]),
                0,
                s[2].profiles,
            ),
        ),
    }
}

/// What the step that takes a chunk of the directory sector does: the
/// read goes on with the next chunk, or the directory is taken and the
/// sector of the first profile follows.
pub open spec fn root_chunk_taken(
    pre: Hidpp20Driver,
    before: DeviceModel,
    ev: DriverEventModel,
    post: Hidpp20Driver,
    after: DeviceModel,
    r: ActionModel,
) -> bool {
    let read = pre.stage@->LoadRoot_read;
    let now = read.accept(payload_of(ev)->0);
    let ps = before.profiles;
    &&& post.cached_onboard_info == pre.cached_onboard_info
    &&& post.features == pre.features
    &&& post.device_index == pre.device_index
    &&& if now.done() {
        took(
            post,
            after,
            r,
            sector_turn(
                pre.device_index,
                pre.features,
                pre.sector_size_spec(),
                directory_of(now.data, pre.profile_count_spec()),
                0,
                ps,
            ),
        )
    } else {
        &&& post.stage@ == (StageModel::LoadRoot { read: now })
        &&& after.profiles == ps
    }
}

/// A step of a load that takes a chunk of the directory sector does what
/// [`root_chunk_taken`] says.
proof fn lemma_root_chunk_taken(
    pre: Hidpp20Driver,
    before: DeviceModel,
    ev: DriverEventModel,
    post: Hidpp20Driver,
    after: DeviceModel,
    r: ActionModel,
)
    requires
        load_post(pre, before, ev, post, after, r),
        !(ev is Start),
        payload_of(ev) is Some,
        pre.features.onboard_profiles is Some,
        pre.stage@ is LoadRoot,
        pre.stage@->LoadRoot_read.wf(),
        !pre.stage@->LoadRoot_read.done(),
    ensures
        root_chunk_taken(pre, before, ev, post, after, r),
{
}

/// The first two steps of a load from a device with onboard profiles that
/// describes its memory: the directory sector is asked for.
proof fn lemma_load_begins(
    d: Seq<Hidpp20Driver>,
    s: Seq<DeviceModel>,
    e: Seq<DriverEventModel>,
    a: Seq<ActionModel>,
)
    requires
        is_load_run(d, s, e, a),
        e.len() >= 2,
        d[0].features.onboard_profiles is Some,
        payload_of(e[1]) is Some,
        d[2].sector_size_spec() > 0,
    ensures
        d[2].stage@ == (StageModel::LoadRoot { read: whole_sector(0, d[2].sector_size_spec()) }),
        d[2].features == d[0].features,
{
    assert(load_step_at(d, s, e, a, 0));
    assert(load_step_at(d, s, e, a, 1));
    assert(goes_on_at(e, a, 1));
}

/// One step of a load that takes a chunk of the directory sector from the
/// memory of the device.
proof fn lemma_find_step(
    d: Seq<Hidpp20Driver>,
    s: Seq<DeviceModel>,
    e: Seq<DriverEventModel>,
    a: Seq<ActionModel>,
    memory: Seq<Seq<u8>>,
    k: int,
)
    requires
        2 <= k < e.len(),
        d.len() == e.len() + 1,
        s.len() == e.len() + 1,
        a.len() == e.len(),
        d[2].sector_size_spec() >= 16,
        memory.len() > 0,
        memory[0].len() == d[2].sector_size_spec(),
        finding(d, s, a, memory, k),
        root_served_at(d, e, memory, k),
        root_chunk_taken(d[k], s[k], e[k], d[k + 1], s[k + 1], a[k]),
    ensures
        finding(d, s, a, memory, k + 1),
{
    let read = d[k].stage@->LoadRoot_read;
    lemma_chunk_from_memory(read, memory[0]);
    lemma_sector_turn_asks(
        d[2].device_index,
        d[2].features,
        d[2].sector_size_spec(),
        directory_in(memory, d[2]),
        0,
        s[2].profiles,
    );
}

/// A load reads the directory from the memory of the device. From its
/// third step on, on a device that answers every read of the directory
/// sector with the bytes that its memory holds, the run stands as
/// [`finding`] says.
pub proof fn lemma_load_finds_directory(
    d: Seq<Hidpp20Driver>,
    s: Seq<DeviceModel>,
    e: Seq<DriverEventModel>,
    a: Seq<ActionModel>,
    memory: Seq<Seq<u8>>,
    n: int,
)
    requires
        is_load_run(d, s, e, a),
        2 <= n <= e.len(),
        d[0].features.onboard_profiles is Some,
        payload_of(e[1]) is Some,
        d[2].sector_size_spec() >= 16,
        memory.len() > 0,
        memory[0].len() == d[2].sector_size_spec(),
        forall|k: int| 2 <= k < n ==> #[trigger] root_served_at(d, e, memory, k),
    ensures
        finding(d, s, a, memory, n),
    decreases n,
{
    lemma_load_begins(d, s, e, a);
    if n == 2 {
        let read = whole_sector(0, d[2].sector_size_spec());
        assert(read.data =~= memory[0].subrange(0, 0));
    } else {
        let k = n - 1;
        lemma_load_finds_directory(d, s, e, a, memory, k);
        assert(root_served_at(d, e, memory, k));
        assert(load_step_at(d, s, e, a, k));
        assert(goes_on_at(e, a, k));
        lemma_root_chunk_taken(d[k], s[k], e[k], d[n], s[n], a[k]);
        lemma_find_step(d, s, e, a, memory, k);
    }
}

/// A whole load from a device. Take a device with onboard profiles that
/// describes its memory and answers every read with the bytes that its
/// memory holds: the directory sector up to step `m`, the sectors of the
/// profiles from there up to step `n`. When the last profile sector is
/// read, no step has failed the load, and every profile that the directory
/// in the memory gives a sector is what the bytes of that sector make of
/// the profile that the description of the memory put there; the first
/// profile is the active one.
pub proof fn lemma_load_from_device(
    d: Seq<Hidpp20Driver>,
    s: Seq<DeviceModel>,
    e: Seq<DriverEventModel>,
    a: Seq<ActionModel>,
    memory: Seq<Seq<u8>>,
    m: int,
    n: int,
)
    requires
        is_load_run(d, s, e, a),
        2 < m < n <= e.len(),
        d[0].features.onboard_profiles is Some,
        payload_of(e[1]) is Some,
        memory.len() > 0,
        memory[0].len() == d[2].sector_size_spec(),
        holds(memory, directory_in(memory, d[2]), d[2].sector_size_spec()),
        forall|k: int| 2 <= k < m ==> #[trigger] root_served_at(d, e, memory, k),
        forall|k: int| m <= k < n ==> #[trigger] served_at(d, e, memory, k),
        !(d[n].stage is LoadProfile),
    ensures
        !(a[n - 1] is Failed),
        s[n].profiles == first_made_active(
            filled_to(
                s[2].profiles,
                memory,
                directory_in(memory, d[2]),
                d[2].button_count_spec(),
                directory_in(memory, d[2]).addrs.len() as int,
            ),
        ),
{
    let dir = directory_in(memory, d[2]);
    lemma_load_finds_directory(d, s, e, a, memory, m);
    assert(served_at(d, e, memory, m));
    assert(d[m].stage@ is LoadProfile);
    lemma_next_sector_skips(dir, 0);
    lemma_live_query_stages(
        d[2].device_index,
        d[2].features,
        first_made_active(s[2].profiles),
        0,
        0,
    );
    lemma_load_fills_from_memory(d, s, e, a, memory, dir, m, n);
    lemma_filled_skips(
        s[2].profiles,
        memory,
        dir,
        d[2].button_count_spec(),
        0,
        next_sector(dir, 0),
    );
    assert(filled_to(s[2].profiles, memory, dir, d[2].button_count_spec(), 0) =~= s[2].profiles);
}

} // verus!
