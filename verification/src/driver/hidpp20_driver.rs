//! The HID++ 2.0 driver: probing with feature discovery, loading the
//! profiles from the device and committing staged changes to it, each as a
//! sequence of steps.
//!
//! A commit that writes onboard memory switches the device to host mode
//! first and back to onboard mode at the end, whatever happened in between.

use vstd::prelude::*;
use crate::device::{
    ButtonInfo, ButtonModel, DeviceInfo, Dpi, ProfileInfo, ProfileModel, ResolutionModel,
    buttons_view, resolutions_view,
};
use crate::driver::{
    error_text, ActionModel, DriverAction, DriverEvent, DriverEventModel, Expect, Reply,
    ReplyModel,
};
use crate::driver::hidpp::{
    build_hidpp20_request, crc_is_valid, error_name, hi8, hidpp20_error_name,
    hidpp20_request_bytes, lo8, sector_crc_ok, u16_hi, u16_lo, DEVICE_IDX_CORDED,
    DEVICE_IDX_RECEIVER, ROOT_FEATURE_INDEX, ROOT_FN_GET_FEATURE, ROOT_FN_GET_PROTOCOL_VERSION,
};
use crate::driver::hidpp20::{
    feature_page, feature_pages, FeatureMap, Hidpp20OnboardProfilesInfo, SW_ID,
};
use crate::driver::hidpp20_memory::{
    Directory, DirectoryModel, SectorRead, SectorReadModel, SectorWrite, SectorWriteModel,
};
use crate::text::{decimal, hex2_upper, push_decimal, push_hex2, push_str, string_of};

verus! {

/// The protocol version that the device stated at probe time.
#[derive(Debug, Clone, Copy, PartialEq, Eq, Structural)]
pub struct ProtocolVersion {
    pub major: u8,
    pub minor: u8,
}

/// Where an operation of the driver stands: which reply it waits for.
#[derive(Debug, Clone)]
pub enum Stage {
    /// No operation is under way.
    Idle,
    /// Probe: the version query at the `k`-th candidate address.
    ProbeVersion { k: usize },
    /// Probe: the query for the `k`-th page of the feature table.
    ProbeFeature { k: usize },
    /// Load: the description of the onboard profiles.
    LoadDescriptor,
    /// Load: a chunk of the directory sector.
    LoadRoot { read: SectorRead },
    /// Load: a chunk of the sector of profile `i`.
    LoadProfile { i: usize, dir: Directory, read: SectorRead },
    /// Load: the sensor count, for profile `p`.
    LoadSensorCount { p: usize },
    /// Load: the DPI list.
    LoadDpiList { p: usize },
    /// Load: the current DPI.
    LoadSensorDpi { p: usize, list: Vec<u32> },
    /// Load: the list of report rates.
    LoadRateList { p: usize },
    /// Load: the current report rate.
    LoadRate { p: usize },
    /// Load: the effect of LED `l`.
    LoadLed { p: usize, l: usize },
    /// Commit: the DPI of the active profile `a`.
    CommitDpi { a: usize },
    /// Commit: the report rate of the active profile.
    CommitRate { a: usize },
    /// Commit: the effect of LED `l` of the active profile.
    CommitLed { a: usize, l: usize },
    /// Commit: the switch to host mode.
    CommitHostMode,
    /// Commit: a chunk of the sector of profile `i`, read before patching.
    CommitRead { i: usize, read: SectorRead },
    /// Commit: a call of the write of the sector of profile `i`.
    CommitWrite { i: usize, write: SectorWrite },
    /// Commit: the pause after a failed write attempt.
    CommitBackoff { i: usize, write: SectorWrite },
    /// Commit: a call of the write of the directory.
    CommitDirectory { write: SectorWrite },
    /// Commit: the pause after a failed attempt to write the directory.
    CommitDirectoryBackoff { write: SectorWrite },
    /// Commit: the switch back to onboard mode.
    CommitOnboardMode,
}

impl Stage {
    /// Whether the device was asked to enter host mode and not yet asked to
    /// leave it.
    pub open spec fn in_host_window(self) -> bool {
        self is CommitHostMode || self is CommitRead || self is CommitWrite || self is CommitBackoff
            || self is CommitDirectory || self is CommitDirectoryBackoff
    }

    /// Whether the stage carries well-formed progress of a read or write.
    pub open spec fn wf(self) -> bool {
        match self {
            Stage::LoadRoot { read } => read@.wf() && !read@.done(),
            Stage::LoadProfile { i, dir, read } => read@.wf() && !read@.done()
                && dir@.addrs.len() == dir@.enabled.len() && i < dir@.addrs.len(),
            Stage::CommitRead { i, read } => read@.wf() && !read@.done(),
            Stage::CommitWrite { i, write } => write@.wf(),
            Stage::CommitBackoff { i, write } => write@.wf(),
            Stage::CommitDirectory { write } => write@.wf(),
            Stage::CommitDirectoryBackoff { write } => write@.wf(),
            _ => true,
        }
    }
}

/// The mathematical value of a [`Stage`].
pub enum StageModel {
    Idle,
    ProbeVersion { k: usize },
    ProbeFeature { k: usize },
    LoadDescriptor,
    LoadRoot { read: SectorReadModel },
    LoadProfile { i: usize, dir: DirectoryModel, read: SectorReadModel },
    LoadSensorCount { p: usize },
    LoadDpiList { p: usize },
    LoadSensorDpi { p: usize, list: Seq<u32> },
    LoadRateList { p: usize },
    LoadRate { p: usize },
    LoadLed { p: usize, l: usize },
    CommitDpi { a: usize },
    CommitRate { a: usize },
    CommitLed { a: usize, l: usize },
    CommitHostMode,
    CommitRead { i: usize, read: SectorReadModel },
    CommitWrite { i: usize, write: SectorWriteModel },
    CommitBackoff { i: usize, write: SectorWriteModel },
    CommitDirectory { write: SectorWriteModel },
    CommitDirectoryBackoff { write: SectorWriteModel },
    CommitOnboardMode,
}

impl View for Stage {
    type V = StageModel;

    open spec fn view(&self) -> StageModel {
        match self {
            Stage::Idle => StageModel::Idle,
            Stage::ProbeVersion { k } => StageModel::ProbeVersion { k: *k },
            Stage::ProbeFeature { k } => StageModel::ProbeFeature { k: *k },
            Stage::LoadDescriptor => StageModel::LoadDescriptor,
            Stage::LoadRoot { read } => StageModel::LoadRoot { read: read@ },
            Stage::LoadProfile { i, dir, read } => StageModel::LoadProfile {
                i: *i,
                dir: dir@,
                read: read@,
            },
            Stage::LoadSensorCount { p } => StageModel::LoadSensorCount { p: *p },
            Stage::LoadDpiList { p } => StageModel::LoadDpiList { p: *p },
            Stage::LoadSensorDpi { p, list } => StageModel::LoadSensorDpi { p: *p, list: list@ },
            Stage::LoadRateList { p } => StageModel::LoadRateList { p: *p },
            Stage::LoadRate { p } => StageModel::LoadRate { p: *p },
            Stage::LoadLed { p, l } => StageModel::LoadLed { p: *p, l: *l },
            Stage::CommitDpi { a } => StageModel::CommitDpi { a: *a },
            Stage::CommitRate { a } => StageModel::CommitRate { a: *a },
            Stage::CommitLed { a, l } => StageModel::CommitLed { a: *a, l: *l },
            Stage::CommitHostMode => StageModel::CommitHostMode,
            Stage::CommitRead { i, read } => StageModel::CommitRead { i: *i, read: read@ },
            Stage::CommitWrite { i, write } => StageModel::CommitWrite { i: *i, write: write@ },
            Stage::CommitBackoff { i, write } => StageModel::CommitBackoff {
                i: *i,
                write: write@,
            },
            Stage::CommitDirectory { write } => StageModel::CommitDirectory { write: write@ },
            Stage::CommitDirectoryBackoff { write } => StageModel::CommitDirectoryBackoff {
                write: write@,
            },
            Stage::CommitOnboardMode => StageModel::CommitOnboardMode,
        }
    }
}

/// The HID++ 2.0 driver.
pub struct Hidpp20Driver {
    /// The logical address at which the device answered the probe.
    pub device_index: u8,
    pub version: ProtocolVersion,
    pub features: FeatureMap,
    pub cached_onboard_info: Option<Hidpp20OnboardProfilesInfo>,
    /// The report rate read from the hardware, in Hz; a commit does not
    /// write a rate that the device already has.
    pub cached_report_rate_hz: u32,
    /// Set when the checksum of a sector was found wrong; the next commit
    /// then writes every profile and the directory.
    pub needs_eeprom_repair: bool,
    pub stage: Stage,
    /// Whether the commit under way has written a profile sector.
    pub any_written: bool,
    /// The last failure of the commit under way to write a sector.
    pub last_error: Option<String>,
    /// Whether the commit under way writes every profile.
    pub force_repair: bool,
    /// The index of the onboard-profiles feature, the size of a sector and
    /// the number of buttons in a sector, as the commit under way found
    /// them when it switched the device to host mode.
    pub mem_feature: u8,
    pub mem_sector_size: u16,
    pub mem_buttons: usize,
    /// The feature and the function of the last call, for messages.
    pub pending_feature: u8,
    pub pending_function: u8,
}

/// The candidate addresses of a probe, in order: the sub-device of a
/// wireless receiver, then the wired device.
pub open spec fn probe_indices() -> Seq<u8> {
    seq![DEVICE_IDX_RECEIVER, DEVICE_IDX_CORDED]
}

/// The version query at a candidate address: two attempts.
pub open spec fn version_query(idx: u8) -> ActionModel {
    ActionModel::Request {
        report: hidpp20_request_bytes(
            idx,
            ROOT_FEATURE_INDEX,
            ROOT_FN_GET_PROTOCOL_VERSION,
            SW_ID,
            Seq::empty(),
        ),
        attempts: 2,
        expect: Expect::ProtocolVersion { device_index: idx },
    }
}

/// The query of the root feature for the index of a page: three attempts.
pub open spec fn root_query(dev: u8, page: u16) -> ActionModel {
    ActionModel::Request {
        report: hidpp20_request_bytes(
            dev,
            ROOT_FEATURE_INDEX,
            ROOT_FN_GET_FEATURE,
            SW_ID,
            seq![hi8(page), lo8(page)],
        ),
        attempts: 3,
        expect: Expect::RootFeature { device_index: dev },
    }
}

/// The call of a function of a feature: three attempts, and an error reply
/// of the device ends it at once.
pub open spec fn feature_call(dev: u8, feature: u8, function: u8, params: Seq<u8>) -> ActionModel {
    ActionModel::Request {
        report: hidpp20_request_bytes(dev, feature, function, SW_ID, params),
        attempts: 3,
        expect: Expect::Feature { device_index: dev, feature_index: feature },
    }
}

pub(crate) fn report_vec(a: [u8; 20]) -> (r: Vec<u8>)
    ensures
        r@ == a@,
{
    let mut v: Vec<u8> = Vec::new();
    let mut i: usize = 0;
    while i < 20
        invariant
            i <= 20,
            v@ == a@.subrange(0, i as int),
        decreases 20 - i,
    {
        v.push(a[i]);
        i += 1;
        assert(v@ =~= a@.subrange(0, i as int));
    }
    assert(a@.subrange(0, 20) =~= a@);
    v
}

pub(crate) fn text2(a: &str, b: &str) -> (r: String)
    ensures
        r@ == a@ + b@,
{
    let mut v: Vec<char> = Vec::new();
    push_str(&mut v, a);
    push_str(&mut v, b);
    string_of(&v)
}

/// Why the call of function `function` of the feature with index `feature`
/// failed, in words, after the context in which it was made. An error
/// reply of the device is shown with the name and the code of the error; a
/// failure of the transport is shown with its own text; any other event is
/// an unexpected reply.
pub open spec fn call_failure(
    context: Seq<char>,
    ev: DriverEventModel,
    feature: u8,
    function: u8,
) -> Seq<char> {
    context + ": "@ + match ev {
        DriverEventModel::Matched(ReplyModel::HidppError(code)) => "HID++ error "@ + error_name(
            code,
        ) + " (0x"@ + hex2_upper(code) + ") for feature 0x"@ + hex2_upper(feature) + " fn="@
            + decimal(function as nat),
        DriverEventModel::Failed(e) => "Feature request (idx=0x"@ + hex2_upper(feature)
            + ", fn="@ + decimal(function as nat) + ") failed: "@ + error_text(e),
        _ => "unexpected reply"@,
    }
}

/// The sixteen parameter bytes of a reply to a feature call, where the
/// event is one.
pub open spec fn payload_of(ev: DriverEventModel) -> Option<Seq<u8>> {
    match ev {
        DriverEventModel::Matched(ReplyModel::Payload(p)) => Some(p),
        _ => None,
    }
}

pub(crate) fn event_payload(event: &DriverEvent) -> (r: Option<[u8; 16]>)
    ensures
        match payload_of(event@) {
            Some(p) => r is Some && r->0@ == p,
            None => r is None,
        },
{
    match event {
        DriverEvent::Matched(Reply::Payload(p)) => Some(*p),
        _ => None,
    }
}

/// The profiles of a device fitted to what its memory holds: `count`
/// profiles with `buttons` buttons each, indexed by position. Profiles and
/// buttons that were there stay as they were; new ones are blank.
pub open spec fn fitted_profiles(ps: Seq<ProfileModel>, count: int, buttons: int) -> Seq<
    ProfileModel,
> {
    Seq::new(
        count as nat,
        |i: int|
            {
                let p = if i < ps.len() {
                    ps[i]
                } else {
                    ProfileInfo::blank()
                };
                ProfileModel { index: i as u32, buttons: fitted_buttons(p.buttons, buttons), ..p }
            },
    )
}

pub open spec fn fitted_buttons(bs: Seq<ButtonModel>, count: int) -> Seq<ButtonModel> {
    Seq::new(
        count as nat,
        |j: int|
            {
                let b = if j < bs.len() {
                    bs[j]
                } else {
                    ButtonInfo::blank()
                };
                ButtonModel { index: j as u32, ..b }
            },
    )
}

fn fit_buttons(bs: &mut Vec<ButtonInfo>, count: usize)
    requires
        count <= 255,
    ensures
        buttons_view(final(bs)@) == fitted_buttons(buttons_view(old(bs)@), count as int),
{
    bs.truncate(count);
    while bs.len() < count
        invariant
            bs@.len() <= count,
            old(bs)@.len() <= bs@.len() || bs@.len() == count,
            forall|j: int|
                0 <= j < bs@.len() && j < old(bs)@.len() ==> bs@[j] == old(bs)@[j],
            forall|j: int|
                old(bs)@.len() <= j < bs@.len() ==> (#[trigger] bs@[j])@ == ButtonInfo::blank(),
        decreases count - bs@.len(),
    {
        bs.push(ButtonInfo::default());
    }
    let mut j: usize = 0;
    while j < count
        invariant
            j <= count <= 255,
            bs@.len() == count,
            forall|k: int|
                0 <= k < j ==> (#[trigger] bs@[k])@ == fitted_buttons(
                    buttons_view(old(bs)@),
                    count as int,
                )[k],
            forall|k: int| j <= k < count && k < old(bs)@.len() ==> bs@[k] == old(bs)@[k],
            forall|k: int|
                j <= k < count && old(bs)@.len() <= k ==> (#[trigger] bs@[k])@
                    == ButtonInfo::blank(),
        decreases count - j,
    {
        bs[j].index = j as u32;
        j += 1;
    }
    assert(buttons_view(bs@) =~= fitted_buttons(buttons_view(old(bs)@), count as int));
}

pub(crate) fn fit_profiles(info: &mut DeviceInfo, count: usize, buttons: usize)
    requires
        count <= 255,
        buttons <= 255,
    ensures
        final(info)@.profiles == fitted_profiles(old(info)@.profiles, count as int, buttons as int),
        final(info)@.sysname == old(info)@.sysname,
        final(info)@.name == old(info)@.name,
        final(info)@.model == old(info)@.model,
        final(info)@.firmware_version == old(info)@.firmware_version,
        final(info)@.driver_config == old(info)@.driver_config,
{
    info.profiles.truncate(count);
    while info.profiles.len() < count
        invariant
            info.profiles@.len() <= count,
            old(info).profiles@.len() <= info.profiles@.len() || info.profiles@.len() == count,
            forall|j: int|
                0 <= j < info.profiles@.len() && j < old(info).profiles@.len()
                    ==> info.profiles@[j] == old(info).profiles@[j],
            forall|j: int|
                old(info).profiles@.len() <= j < info.profiles@.len() ==> (
                #[trigger] info.profiles@[j])@ == ProfileInfo::blank(),
            info.sysname == old(info).sysname,
            info.name == old(info).name,
            info.model == old(info).model,
            info.firmware_version == old(info).firmware_version,
            info.driver_config == old(info).driver_config,
        decreases count - info.profiles@.len(),
    {
        info.profiles.push(ProfileInfo::default());
    }
    let ghost want = fitted_profiles(old(info)@.profiles, count as int, buttons as int);
    let mut i: usize = 0;
    while i < count
        invariant
            i <= count <= 255,
            buttons <= 255,
            info.profiles@.len() == count,
            want == fitted_profiles(old(info)@.profiles, count as int, buttons as int),
            forall|k: int| 0 <= k < i ==> (#[trigger] info.profiles@[k])@ == want[k],
            forall|k: int|
                i <= k < count && k < old(info).profiles@.len() ==> info.profiles@[k] == old(
                    info,
                ).profiles@[k],
            forall|k: int|
                i <= k < count && old(info).profiles@.len() <= k ==> (
                #[trigger] info.profiles@[k])@ == ProfileInfo::blank(),
            info.sysname == old(info).sysname,
            info.name == old(info).name,
            info.model == old(info).model,
            info.firmware_version == old(info).firmware_version,
            info.driver_config == old(info).driver_config,
        decreases count - i,
    {
        let ghost before = info.profiles@[i as int]@;
        info.profiles[i].index = i as u32;
        fit_buttons(&mut info.profiles[i].buttons, buttons);
        proof {
            let now = info.profiles@[i as int]@;
            assert(now == (ProfileModel {
                index: i as u32,
                buttons: fitted_buttons(before.buttons, buttons as int),
                ..before
            }));
            if i < old(info).profiles@.len() {
                assert(before == old(info)@.profiles[i as int]);
            } else {
                assert(before == ProfileInfo::blank());
            }
        }
        i += 1;
    }
    assert(info@.profiles =~= want);
}

/// The profile after the DPI of its sensor was read: every resolution
/// takes the list of legal values, where the device named any, and each
/// active resolution takes the current value.
pub open spec fn profile_after_dpi(p: ProfileModel, list: Seq<u32>, current: u16) -> ProfileModel {
    ProfileModel {
        resolutions: Seq::new(
            p.resolutions.len(),
            |j: int|
                {
                    let r = p.resolutions[j];
                    ResolutionModel {
                        dpi_list: if list.len() > 0 {
                            list
                        } else {
                            r.dpi_list
                        },
                        dpi: if r.is_active {
                            Dpi::Unified(current as u32)
                        } else {
                            r.dpi
                        },
                        ..r
                    }
                },
        ),
        ..p
    }
}

pub(crate) fn apply_sensor_dpi(p: &mut ProfileInfo, list: &Vec<u32>, current: u16)
    ensures
        final(p)@ == profile_after_dpi(old(p)@, list@, current),
{
    let ghost want = profile_after_dpi(old(p)@, list@, current);
    let mut j: usize = 0;
    while j < p.resolutions.len()
        invariant
            j <= p.resolutions@.len(),
            p.resolutions@.len() == old(p).resolutions@.len(),
            want == profile_after_dpi(old(p)@, list@, current),
            forall|k: int| 0 <= k < j ==> (#[trigger] p.resolutions@[k])@ == want.resolutions[k],
            forall|k: int|
                j <= k < p.resolutions@.len() ==> p.resolutions@[k] == old(p).resolutions@[k],
            p.index == old(p).index,
            p.name == old(p).name,
            p.is_active == old(p).is_active,
            p.is_enabled == old(p).is_enabled,
            p.is_dirty == old(p).is_dirty,
            p.report_rate == old(p).report_rate,
            p.report_rates == old(p).report_rates,
            p.angle_snapping == old(p).angle_snapping,
            p.debounce == old(p).debounce,
            p.debounces == old(p).debounces,
            p.buttons == old(p).buttons,
            p.leds == old(p).leds,
        decreases p.resolutions@.len() - j,
    {
        assert(old(p)@.resolutions[j as int] == old(p).resolutions@[j as int]@);
        if list.len() > 0 {
            p.resolutions[j].dpi_list = list.clone();
        }
        if p.resolutions[j].is_active {
            p.resolutions[j].dpi = Dpi::Unified(current as u32);
        }
        j += 1;
    }
    assert(resolutions_view(p.resolutions@) =~= want.resolutions);
}

/// The position of the first active profile, or the number of profiles.
pub open spec fn first_active(ps: Seq<ProfileModel>, j: int) -> int
    decreases ps.len() - j,
{
    if 0 <= j < ps.len() && !ps[j].is_active {
        first_active(ps, j + 1)
    } else {
        j
    }
}

pub(crate) fn find_active_profile(info: &DeviceInfo) -> (r: usize)
    ensures
        r == first_active(info@.profiles, 0),
        r <= info.profiles@.len(),
{
    let mut j: usize = 0;
    while j < info.profiles.len() && !info.profiles[j].is_active
        invariant
            j <= info.profiles@.len(),
            first_active(info@.profiles, 0) == first_active(info@.profiles, j as int),
        decreases info.profiles@.len() - j,
    {
        assert(info@.profiles[j as int] == info.profiles@[j as int]@);
        j += 1;
    }
    proof {
        if j < info.profiles@.len() {
            assert(info@.profiles[j as int] == info.profiles@[j as int]@);
        }
    }
    j
}

/// The position of the first active resolution, or the number of
/// resolutions.
pub open spec fn first_active_resolution(rs: Seq<ResolutionModel>, j: int) -> int
    decreases rs.len() - j,
{
    if 0 <= j < rs.len() && !rs[j].is_active {
        first_active_resolution(rs, j + 1)
    } else {
        j
    }
}

/// The DPI value that a commit sends for a profile: that of its first
/// active resolution, where it has one value for both axes.
pub open spec fn commit_dpi_of(p: ProfileModel) -> Option<u32> {
    let j = first_active_resolution(p.resolutions, 0);
    if j < p.resolutions.len() {
        match p.resolutions[j].dpi {
            Dpi::Unified(v) => Some(v),
            _ => None,
        }
    } else {
        None
    }
}

pub(crate) fn dpi_to_commit(p: &ProfileInfo) -> (r: Option<u32>)
    ensures
        r == commit_dpi_of(p@),
{
    let mut j: usize = 0;
    while j < p.resolutions.len() && !p.resolutions[j].is_active
        invariant
            j <= p.resolutions@.len(),
            first_active_resolution(p@.resolutions, 0) == first_active_resolution(
                p@.resolutions,
                j as int,
            ),
        decreases p.resolutions@.len() - j,
    {
        assert(p@.resolutions[j as int] == p.resolutions@[j as int]@);
        j += 1;
    }
    if j < p.resolutions.len() {
        assert(p@.resolutions[j as int] == p.resolutions@[j as int]@);
        match p.resolutions[j].dpi {
            Dpi::Unified(v) => Some(v),
            _ => None,
        }
    } else {
        None
    }
}

/// What a probe step does, given the driver before and after it, the
/// event and the action.
///
/// The candidate addresses are asked for the protocol version in order. The
/// first that answers becomes the address of the device, and discovery asks
/// the root feature for each page of the table in order. A page whose query
/// fails, or that the device does not have, stays unsupported. Where no
/// address answers, the probe fails, and says which addresses it tried.
pub open spec fn probe_post(
    pre: Hidpp20Driver,
    ev: DriverEventModel,
    post: Hidpp20Driver,
    r: ActionModel,
) -> bool {
    match ev {
        DriverEventModel::Start => {
            &&& r == version_query(probe_indices()[0])
            &&& post.stage == (Stage::ProbeVersion { k: 0 })
            &&& post.device_index == pre.device_index
            &&& post.features == pre.features
        },
        _ => match pre.stage {
            Stage::ProbeVersion { k } => if k < 2 {
                match ev {
                    DriverEventModel::Matched(ReplyModel::Version { major, minor }) => {
                        &&& post.device_index == probe_indices()[k as int]
                        &&& post.version == (ProtocolVersion { major, minor })
                        &&& post.features == pre.features
                        &&& r == root_query(post.device_index, feature_pages()[0])
                        &&& post.stage == (Stage::ProbeFeature { k: 0 })
                    },
                    _ => if k == 0 {
                        &&& r == version_query(probe_indices()[1])
                        &&& post.stage == (Stage::ProbeVersion { k: 1 })
                        &&& post.device_index == pre.device_index
                        &&& post.features == pre.features
                    } else {
                        &&& r == ActionModel::Failed(
                            "HID++ 2.0 protocol version probe failed "@
                                + "(tried indices: [FF, 00])"@,
                        )
                        &&& post.stage is Idle
                        &&& post.device_index == pre.device_index
                        &&& post.features == pre.features
                    },
                }
            } else {
                r == ActionModel::Failed("HID++ 2.0 probe: "@ + "no candidate address is left"@)
                    && post.stage is Idle
            },
            Stage::ProbeFeature { k } => if k < 7 {
                &&& post.device_index == pre.device_index
                &&& post.features == pre.features.discovered(
                    feature_pages()[k as int],
                    match ev {
                        DriverEventModel::Matched(ReplyModel::FeatureIndex(found)) => found,
                        _ => None,
                    },
                )
                &&& if k + 1 < 7 {
                    r == root_query(post.device_index, feature_pages()[k + 1]) && post.stage == (
                    Stage::ProbeFeature { k: (k + 1) as usize })
                } else {
                    r is Done && post.stage is Idle
                }
            } else {
                r == ActionModel::Failed("HID++ 2.0 probe: "@ + "no page of the table is left"@)
                    && post.stage is Idle
            },
            _ => r == ActionModel::Failed("HID++ 2.0 probe: "@ + "unexpected event"@)
                && post.stage is Idle,
        },
    }
}

impl Hidpp20Driver {
    /// Whether the driver is one of a device of which nothing is known yet:
    /// addressed as the sub-device of a receiver, without features, without
    /// anything cached, at rest, and with no commit under way.
    pub open spec fn is_fresh(self) -> bool {
        &&& self.device_index == DEVICE_IDX_RECEIVER
        &&& self.version == (ProtocolVersion { major: 0, minor: 0 })
        &&& self.features == FeatureMap::empty()
        &&& self.cached_onboard_info is None
        &&& self.cached_report_rate_hz == 0
        &&& !self.needs_eeprom_repair
        &&& self.stage is Idle
        &&& !self.any_written
        &&& self.last_error is None
        &&& !self.force_repair
        &&& self.mem_feature == 0
        &&& self.mem_sector_size == 0
        &&& self.mem_buttons == 0
        &&& self.pending_feature == 0
        &&& self.pending_function == 0
    }

    pub fn new() -> (r: Self)
        ensures
            r.is_fresh(),
    {
        Hidpp20Driver {
            device_index: DEVICE_IDX_RECEIVER,
            version: ProtocolVersion { major: 0, minor: 0 },
            features: FeatureMap::new(),
            cached_onboard_info: None,
            cached_report_rate_hz: 0,
            needs_eeprom_repair: false,
            stage: Stage::Idle,
            any_written: false,
            last_error: None,
            force_repair: false,
            mem_feature: 0,
            mem_sector_size: 0,
            mem_buttons: 0,
            pending_feature: 0,
            pending_function: 0,
        }
    }

    /// Checks the checksum in the last two bytes of a sector. A mismatch is
    /// no failure: the data is used, and the caller raises the repair flag.
    pub fn verify_sector_crc(sector: u16, data: &[u8]) -> (r: bool)
        ensures
            r == sector_crc_ok(data@),
    {
        crc_is_valid(data)
    }

    fn ask_version(&mut self, k: usize) -> (r: DriverAction)
        requires
            k < 2,
        ensures
            r@ == version_query(probe_indices()[k as int]),
            final(self).stage == (Stage::ProbeVersion { k }),
            final(self).device_index == old(self).device_index,
            final(self).features == old(self).features,
            final(self).version == old(self).version,
    {
        let idx = if k == 0 {
            DEVICE_IDX_RECEIVER
        } else {
            DEVICE_IDX_CORDED
        };
        let none: [u8; 0] = [];
        let report = build_hidpp20_request(
            idx,
            ROOT_FEATURE_INDEX,
            ROOT_FN_GET_PROTOCOL_VERSION,
            SW_ID,
            none.as_slice(),
        );
        assert(none@ =~= Seq::<u8>::empty());
        self.stage = Stage::ProbeVersion { k };
        DriverAction::Request {
            report: report_vec(report),
            attempts: 2,
            expect: Expect::ProtocolVersion { device_index: idx },
        }
    }

    fn ask_feature(&mut self, k: usize) -> (r: DriverAction)
        requires
            k < 7,
        ensures
            r@ == root_query(old(self).device_index, feature_pages()[k as int]),
            final(self).stage == (Stage::ProbeFeature { k }),
            final(self).device_index == old(self).device_index,
            final(self).features == old(self).features,
            final(self).version == old(self).version,
    {
        let page = feature_page(k);
        let params = [u16_hi(page), u16_lo(page)];
        assert(params@ =~= seq![hi8(page), lo8(page)]);
        let report = build_hidpp20_request(
            self.device_index,
            ROOT_FEATURE_INDEX,
            ROOT_FN_GET_FEATURE,
            SW_ID,
            params.as_slice(),
        );
        self.stage = Stage::ProbeFeature { k };
        DriverAction::Request {
            report: report_vec(report),
            attempts: 3,
            expect: Expect::RootFeature { device_index: self.device_index },
        }
    }

    /// One step of the probe.
    pub fn probe_step(&mut self, event: DriverEvent) -> (r: DriverAction)
        ensures
            probe_post(*old(self), event@, *final(self), r@),
    {
        let mut stage = Stage::Idle;
        core::mem::swap(&mut self.stage, &mut stage);
        match event {
            DriverEvent::Start => self.ask_version(0),
            _ => match stage {
                Stage::ProbeVersion { k } => {
                    if k >= 2 {
                        return DriverAction::Failed(
                            text2("HID++ 2.0 probe: ", "no candidate address is left"),
                        );
                    }
                    match event {
                        DriverEvent::Matched(Reply::Version { major, minor }) => {
                            self.device_index = if k == 0 {
                                DEVICE_IDX_RECEIVER
                            } else {
                                DEVICE_IDX_CORDED
                            };
                            self.version = ProtocolVersion { major, minor };
                            self.ask_feature(0)
                        },
                        _ => {
                            if k == 0 {
                                self.ask_version(1)
                            } else {
                                DriverAction::Failed(
                                    text2(
                                        "HID++ 2.0 protocol version probe failed ",
                                        "(tried indices: [FF, 00])",
                                    ),
                                )
                            }
                        },
                    }
                },
                Stage::ProbeFeature { k } => {
                    if k >= 7 {
                        return DriverAction::Failed(
                            text2("HID++ 2.0 probe: ", "no page of the table is left"),
                        );
                    }
                    match event {
                        DriverEvent::Matched(Reply::FeatureIndex(Some(index))) => {
                            self.features.insert(feature_page(k), index);
                        },
                        _ => {},
                    }
                    if k + 1 < 7 {
                        self.ask_feature(k + 1)
                    } else {
                        DriverAction::Done
                    }
                },
                _ => DriverAction::Failed(text2("HID++ 2.0 probe: ", "unexpected event")),
            },
        }
    }

    /// Calls a function of a feature.
    pub(crate) fn call(&mut self, feature: u8, function: u8, params: &[u8]) -> (r: DriverAction)
        ensures
            r@ == feature_call(old(self).device_index, feature, function, params@),
            final(self).device_index == old(self).device_index,
            final(self).version == old(self).version,
            final(self).features == old(self).features,
            final(self).cached_onboard_info == old(self).cached_onboard_info,
            final(self).cached_report_rate_hz == old(self).cached_report_rate_hz,
            final(self).needs_eeprom_repair == old(self).needs_eeprom_repair,
            final(self).stage == old(self).stage,
            final(self).any_written == old(self).any_written,
            final(self).last_error == old(self).last_error,
            final(self).force_repair == old(self).force_repair,
            final(self).mem_feature == old(self).mem_feature,
            final(self).mem_sector_size == old(self).mem_sector_size,
            final(self).mem_buttons == old(self).mem_buttons,
    {
        let report = build_hidpp20_request(self.device_index, feature, function, SW_ID, params);
        self.pending_feature = feature;
        self.pending_function = function;
        DriverAction::Request {
            report: report_vec(report),
            attempts: 3,
            expect: Expect::Feature { device_index: self.device_index, feature_index: feature },
        }
    }

    /// The text that says why the last call failed.
    pub(crate) fn failure_text(&self, context: &str, event: &DriverEvent) -> (r: String)
        ensures
            r@ == call_failure(context@, event@, self.pending_feature, self.pending_function),
    {
        let mut v: Vec<char> = Vec::new();
        push_str(&mut v, context);
        push_str(&mut v, ": ");
        match event {
            DriverEvent::Matched(Reply::HidppError(code)) => {
                push_str(&mut v, "HID++ error ");
                push_str(&mut v, hidpp20_error_name(*code));
                push_str(&mut v, " (0x");
                push_hex2(&mut v, *code, true);
                push_str(&mut v, ") for feature 0x");
                push_hex2(&mut v, self.pending_feature, true);
                push_str(&mut v, " fn=");
                push_decimal(&mut v, self.pending_function as u64);
            },
            DriverEvent::Failed(e) => {
                push_str(&mut v, "Feature request (idx=0x");
                push_hex2(&mut v, self.pending_feature, true);
                push_str(&mut v, ", fn=");
                push_decimal(&mut v, self.pending_function as u64);
                push_str(&mut v, ") failed: ");
                let cause = e.to_string();
                push_str(&mut v, cause.as_str());
            },
            _ => {
                push_str(&mut v, "unexpected reply");
            },
        }
        assert(v@ =~= call_failure(
            context@,
            event@,
            self.pending_feature,
            self.pending_function,
        ));
        string_of(&v)
    }
}

} // verus!
