//! The HID++ 1.0 driver: the older, register based protocol, spoken in
//! short reports.

use vstd::prelude::*;
use crate::device::{DeviceInfo, ProfileModel, DeviceModel};
use crate::driver::{
    ActionModel, DeviceDriver, DriverAction, DriverEvent, DriverEventModel, Expect, Reply, ReplyModel,
};
use crate::driver::hidpp::{build_short_report, short_report_bytes, DEVICE_IDX_WIRED};
use crate::driver::hidpp20_driver::{first_active, text2};

verus! {

pub const REG_PROTOCOL_VERSION: u8 = 0x00;

pub const REG_CURRENT_PROFILE: u8 = 0x0F;

pub const SUB_ID_SET_REGISTER: u8 = 0x80;

pub const SUB_ID_GET_REGISTER: u8 = 0x81;

/// Which reply an operation of the driver waits for.
#[derive(Debug, Clone, Copy, PartialEq, Eq, Structural)]
pub enum Hidpp10Stage {
    Idle,
    /// The protocol version register.
    Probe,
    /// The register of the current profile, read.
    Load,
    /// The register of the current profile, written.
    Commit,
}

/// The HID++ 1.0 driver.
pub struct Hidpp10Driver {
    pub device_index: u8,
    pub version_major: u8,
    pub version_minor: u8,
    pub stage: Hidpp10Stage,
}

/// The access to a register: a short report with the sub-id of the access,
/// the register and two parameters; three attempts.
pub open spec fn register_access(dev: u8, sub_id: u8, register: u8, p0: u8, p1: u8) -> ActionModel {
    ActionModel::Request {
        report: short_report_bytes(dev, sub_id, seq![register, p0, p1]),
        attempts: 3,
        expect: Expect::Register { device_index: dev, sub_id },
    }
}

/// The three parameter bytes of a reply to a register access, where the
/// event is one.
pub open spec fn register_of(ev: DriverEventModel) -> Option<Seq<u8>> {
    match ev {
        DriverEventModel::Matched(ReplyModel::Register(p)) => Some(p),
        _ => None,
    }
}

/// The profiles with the one whose index is `active` marked active, and no
/// other.
pub open spec fn with_active(ps: Seq<ProfileModel>, active: u32) -> Seq<ProfileModel> {
    Seq::new(ps.len(), |i: int| ProfileModel { is_active: ps[i].index == active, ..ps[i] })
}

/// The index that a commit writes to the register of the current profile:
/// that of the first active profile, where it fits in a byte.
pub open spec fn profile_to_select(ps: Seq<ProfileModel>) -> Option<u8> {
    let a = first_active(ps, 0);
    if a < ps.len() && ps[a].index <= 255 {
        Some(ps[a].index as u8)
    } else {
        None
    }
}

fn event_register(event: &DriverEvent) -> (r: Option<[u8; 3]>)
    ensures
        match register_of(event@) {
            Some(p) => r is Some && r->0@ == p,
            None => r is None,
        },
{
    match event {
        DriverEvent::Matched(Reply::Register(p)) => Some(*p),
        _ => None,
    }
}

/// What a step of the probe does, given the driver before and after it,
/// the event and the action.
pub open spec fn probe_post(
    pre: Hidpp10Driver,
    ev: DriverEventModel,
    post: Hidpp10Driver,
    r: ActionModel,
) -> bool {
    &&& (post.device_index == pre.device_index)
    &&& (ev is Start ==> r == register_access(
        pre.device_index,
        SUB_ID_GET_REGISTER,
        REG_PROTOCOL_VERSION,
        0,
        0,
        ) && post.stage == Hidpp10Stage::Probe)
    &&& (!(ev is Start) ==> post.stage == Hidpp10Stage::Idle)
    &&& (!(ev is Start) && pre.stage == Hidpp10Stage::Probe ==> match register_of(
        ev,
        ) {
        Some(p) => r is Done && post.version_major == p[0]
        && post.version_minor == p[1],
        None => r == ActionModel::Failed(
            "Protocol version query failed: "@ + "HID++ 1.0 GET_REGISTER failed"@,
        ) && post.version_major == pre.version_major
        && post.version_minor == pre.version_minor,
        })
    &&& (!(ev is Start) && pre.stage != Hidpp10Stage::Probe ==> r == ActionModel::Failed(
        "HID++ 1.0 probe: "@ + "unexpected event"@,
    ))
}

/// What a step of a load does, given the driver and the device state
/// before and after it, the event and the action.
pub open spec fn load_post(
    pre: Hidpp10Driver,
    before: DeviceModel,
    ev: DriverEventModel,
    post: Hidpp10Driver,
    after: DeviceModel,
    r: ActionModel,
) -> bool {
    &&& (post.device_index == pre.device_index)
    &&& (post.version_major == pre.version_major)
    &&& (post.version_minor == pre.version_minor)
    &&& (after.sysname == before.sysname)
    &&& (after.name == before.name)
    &&& (after.model == before.model)
    &&& (after.firmware_version == before.firmware_version)
    &&& (after.driver_config == before.driver_config)
    &&& (ev is Start ==> r == register_access(
        pre.device_index,
        SUB_ID_GET_REGISTER,
        REG_CURRENT_PROFILE,
        0,
        0,
        ) && post.stage == Hidpp10Stage::Load
        && after.profiles == before.profiles)
    &&& (!(ev is Start) ==> post.stage == Hidpp10Stage::Idle)
    &&& (!(ev is Start) && pre.stage == Hidpp10Stage::Load ==> r is Done
        && after.profiles == with_active(
        before.profiles,
        match register_of(ev) {
        Some(p) => p[0] as u32,
        None => 0,
        },
        ))
    &&& (!(ev is Start) && pre.stage != Hidpp10Stage::Load ==> r == ActionModel::Failed(
        "HID++ 1.0 load: "@ + "unexpected event"@,
    ) && after.profiles == before.profiles)
}

/// What a step of a commit does, given the driver before and after it,
/// the device state, the event and the action.
pub open spec fn commit_post(
    pre: Hidpp10Driver,
    info: DeviceModel,
    ev: DriverEventModel,
    post: Hidpp10Driver,
    r: ActionModel,
) -> bool {
    &&& (post.device_index == pre.device_index)
    &&& (post.version_major == pre.version_major)
    &&& (post.version_minor == pre.version_minor)
    &&& (ev is Start ==> match profile_to_select(info.profiles) {
        Some(idx) => r == register_access(
        pre.device_index,
        SUB_ID_SET_REGISTER,
        REG_CURRENT_PROFILE,
        idx,
        0,
        ) && post.stage == Hidpp10Stage::Commit,
        None => r is Done && post.stage == Hidpp10Stage::Idle,
        })
    &&& (!(ev is Start) ==> post.stage == Hidpp10Stage::Idle)
    &&& (!(ev is Start) && pre.stage == Hidpp10Stage::Commit ==> match register_of(ev) {
        Some(_) => r is Done,
        None => r == ActionModel::Failed(
            "Failed to commit active profile: "@ + "HID++ 1.0 SET_REGISTER failed"@,
        ),
    })
    &&& (!(ev is Start) && pre.stage != Hidpp10Stage::Commit ==> r == ActionModel::Failed(
        "HID++ 1.0 commit: "@ + "unexpected event"@,
    ))
}

impl Hidpp10Driver {
    pub fn new() -> (r: Self)
        ensures
            r.device_index == DEVICE_IDX_WIRED,
            r.version_major == 0,
            r.version_minor == 0,
            r.stage == Hidpp10Stage::Idle,
    {
        Hidpp10Driver {
            device_index: DEVICE_IDX_WIRED,
            version_major: 0,
            version_minor: 0,
            stage: Hidpp10Stage::Idle,
        }
    }

    fn access(&self, sub_id: u8, register: u8, p0: u8, p1: u8) -> (r: DriverAction)
        ensures
            r@ == register_access(self.device_index, sub_id, register, p0, p1),
    {
        let params = [register, p0, p1];
        assert(params@ =~= seq![register, p0, p1]);
        let report = build_short_report(self.device_index, sub_id, params);
        let mut v: Vec<u8> = Vec::new();
        let mut i: usize = 0;
        while i < 7
            invariant
                i <= 7,
                v@ == report@.subrange(0, i as int),
            decreases 7 - i,
        {
            v.push(report[i]);
            i += 1;
            assert(v@ =~= report@.subrange(0, i as int));
        }
        assert(report@.subrange(0, 7) =~= report@);
        DriverAction::Request {
            report: v,
            attempts: 3,
            expect: Expect::Register { device_index: self.device_index, sub_id },
        }
    }

    /// One step of the probe: the device is asked for its protocol version;
    /// the probe succeeds where it answers.
    pub fn probe_step(&mut self, event: DriverEvent) -> (r: DriverAction)
        ensures
            probe_post(*old(self), event@, *final(self), r@),
    {
        let stage = self.stage;
        self.stage = Hidpp10Stage::Idle;
        match event {
            DriverEvent::Start => {
                self.stage = Hidpp10Stage::Probe;
                self.access(SUB_ID_GET_REGISTER, REG_PROTOCOL_VERSION, 0x00, 0x00)
            },
            _ => match stage {
                Hidpp10Stage::Probe => match event_register(&event) {
                    Some(p) => {
                        self.version_major = p[0];
                        self.version_minor = p[1];
                        DriverAction::Done
                    },
                    None => DriverAction::Failed(
                        text2("Protocol version query failed: ", "HID++ 1.0 GET_REGISTER failed"),
                    ),
                },
                _ => DriverAction::Failed(text2("HID++ 1.0 probe: ", "unexpected event")),
            },
        }
    }

    /// One step of loading the profiles: the device is asked which profile
    /// is current, and that profile alone is marked active. Where the
    /// device does not answer, profile 0 counts as current.
    pub fn load_step(&mut self, info: &mut DeviceInfo, event: DriverEvent) -> (r: DriverAction)
        ensures
            load_post(*old(self), old(info)@, event@, *final(self), final(info)@, r@),
    {
        let stage = self.stage;
        self.stage = Hidpp10Stage::Idle;
        match event {
            DriverEvent::Start => {
                self.stage = Hidpp10Stage::Load;
                self.access(SUB_ID_GET_REGISTER, REG_CURRENT_PROFILE, 0x00, 0x00)
            },
            _ => match stage {
                Hidpp10Stage::Load => {
                    let active: u32 = match event_register(&event) {
                        Some(p) => p[0] as u32,
                        None => 0,
                    };
                    let mut i: usize = 0;
                    while i < info.profiles.len()
                        invariant
                            i <= info.profiles@.len(),
                            info.profiles@.len() == old(info).profiles@.len(),
                            forall|k: int|
                                0 <= k < i ==> (#[trigger] info.profiles@[k])@ == with_active(
                                    old(info)@.profiles,
                                    active,
                                )[k],
                            forall|k: int|
                                i <= k < info.profiles@.len() ==> info.profiles@[k]
                                    == old(info).profiles@[k],
                            info.sysname == old(info).sysname,
                            info.name == old(info).name,
                            info.model == old(info).model,
                            info.firmware_version == old(info).firmware_version,
                            info.driver_config == old(info).driver_config,
                        decreases info.profiles@.len() - i,
                    {
                        assert(old(info)@.profiles[i as int] == old(info).profiles@[i as int]@);
                        let is_active = info.profiles[i].index == active;
                        info.profiles[i].is_active = is_active;
                        i += 1;
                    }
                    assert(info@.profiles =~= with_active(old(info)@.profiles, active));
                    DriverAction::Done
                },
                _ => DriverAction::Failed(text2("HID++ 1.0 load: ", "unexpected event")),
            },
        }
    }

    /// One step of the commit: the index of the first active profile is
    /// written to the register of the current profile, where there is an
    /// active profile whose index fits in a byte; the commit succeeds where
    /// the device acknowledges it, and where there is nothing to write.
    pub fn commit_step(&mut self, info: &DeviceInfo, event: DriverEvent) -> (r: DriverAction)
        ensures
            commit_post(*old(self), info@, event@, *final(self), r@),
    {
        let stage = self.stage;
        self.stage = Hidpp10Stage::Idle;
        match event {
            DriverEvent::Start => {
                let mut a: usize = 0;
                while a < info.profiles.len() && !info.profiles[a].is_active
                    invariant
                        a <= info.profiles@.len(),
                        first_active(info@.profiles, 0) == first_active(info@.profiles, a as int),
                    decreases info.profiles@.len() - a,
                {
                    assert(info@.profiles[a as int] == info.profiles@[a as int]@);
                    a += 1;
                }
                if a < info.profiles.len() {
                    assert(info@.profiles[a as int] == info.profiles@[a as int]@);
                    let index = info.profiles[a].index;
                    if index <= 255 {
                        self.stage = Hidpp10Stage::Commit;
                        return self.access(
                            SUB_ID_SET_REGISTER,
                            REG_CURRENT_PROFILE,
                            index as u8,
                            0x00,
                        );
                    }
                }
                DriverAction::Done
            },
            _ => match stage {
                Hidpp10Stage::Commit => match event_register(&event) {
                    Some(_) => DriverAction::Done,
                    None => DriverAction::Failed(
                        text2("Failed to commit active profile: ", "HID++ 1.0 SET_REGISTER failed"),
                    ),
                },
                _ => DriverAction::Failed(text2("HID++ 1.0 commit: ", "unexpected event")),
            },
        }
    }
}

impl DeviceDriver for Hidpp10Driver {
    fn name(&self) -> (r: &'static str)
        ensures
            r@ == "Logitech HID++ 1.0"@,
    {
        "Logitech HID++ 1.0"
    }

    fn probe(&mut self, event: DriverEvent) -> (r: DriverAction)
        ensures
            probe_post(*old(self), event@, *final(self), r@),
    {
        self.probe_step(event)
    }

    fn load_profiles(&mut self, info: &mut DeviceInfo, event: DriverEvent) -> (r: DriverAction)
        ensures
            load_post(*old(self), old(info)@, event@, *final(self), final(info)@, r@),
    {
        self.load_step(info, event)
    }

    fn commit(&mut self, info: &DeviceInfo, event: DriverEvent) -> (r: DriverAction)
        ensures
            commit_post(*old(self), info@, event@, *final(self), r@),
    {
        self.commit_step(info, event)
    }
}

} // verus!
