//! The MarsGaming driver, for the MM4: five profiles, up to five
//! resolutions per profile, nineteen buttons and one LED zone.
//!
//! The report layouts and the probe are in place. Loading and committing
//! profiles are not: the probe confirms that the device answers and then
//! declines it.

use vstd::prelude::*;
use crate::device::{DeviceInfo, DeviceModel};
use crate::driver::{
    error_text, ActionModel, DeviceDriver, DriverAction, DriverEvent, DriverEventModel,
};
use crate::driver::hidpp20_driver::text2;

verus! {

pub const NUM_PROFILES: usize = 5;

pub const NUM_RESOLUTIONS_PER_PROFILE: usize = 5;

pub const NUM_BUTTONS: usize = 19;

pub const NUM_LED: usize = 1;

pub const RES_MIN: u32 = 50;

pub const RES_MAX: u32 = 16400;

pub const RES_SCALING: u32 = 50;

#[derive(Debug, Clone, Copy, PartialEq, Eq, Structural)]
pub enum ReportType {
    Unknown1,
    Write,
    Read,
    Unknown4,
    Unknown6,
}

impl ReportType {
    /// The byte that stands for the report type on the wire.
    pub open spec fn spec_code(self) -> u8 {
        match self {
            ReportType::Unknown1 => 0x01,
            ReportType::Write => 0x02,
            ReportType::Read => 0x03,
            ReportType::Unknown4 => 0x04,
            ReportType::Unknown6 => 0x06,
        }
    }

    pub fn code(self) -> (r: u8)
        ensures
            r == self.spec_code(),
    {
        match self {
            ReportType::Unknown1 => 0x01,
            ReportType::Write => 0x02,
            ReportType::Read => 0x03,
            ReportType::Unknown4 => 0x04,
            ReportType::Unknown6 => 0x06,
        }
    }
}

/// One resolution slot: seven bytes in the report.
#[derive(Debug, Clone, Copy)]
pub struct ResolutionInfo {
    pub enabled: bool,
    pub x_res: u16,
    pub y_res: u16,
    /// Four bits that say which LEDs show the resolution.
    pub led_bitset: u8,
    pub _zeros: [u8; 2],
}

/// The resolution report: 64 bytes.
#[derive(Debug, Clone)]
pub struct ResolutionReport {
    pub usb_report_id: u8,
    pub report_type: u8,
    pub unknown_2: u8,
    pub profile_id: u8,
    pub unknown_4: u8,
    pub unknown_5: u8,
    pub unknown_6: u8,
    pub unknown_7: u8,
    pub count_resolutions: u8,
    pub current_resolution: u8,
    pub resolutions: [ResolutionInfo; 6],
    pub padding: [u8; 6],
}

/// One button: four bytes in the report.
#[derive(Debug, Clone, Copy)]
pub struct ButtonInfo {
    pub function_type: u8,
    pub params: [u8; 3],
}

/// The button report: 1024 bytes.
#[derive(Debug, Clone)]
pub struct ButtonReport {
    pub usb_report_id: u8,
    pub report_type: u8,
    pub unknown_2: u8,
    pub profile_id: u8,
    pub unknown_4: u8,
    pub unknown_5: u8,
    pub unknown_6: u8,
    pub unknown_7: u8,
    pub button_count: u8,
    pub buttons: Vec<ButtonInfo>,
    pub padding: [u8; 3],
}

/// How many buttons a button report holds.
pub const BUTTON_REPORT_SLOTS: usize = 253;

impl Default for ButtonReport {
    fn default() -> (r: Self)
        ensures
            r.usb_report_id == 0,
            r.report_type == 0,
            r.profile_id == 0,
            r.button_count == 0,
            r.buttons@.len() == BUTTON_REPORT_SLOTS,
            forall|i: int|
                0 <= i < r.buttons@.len() ==> (#[trigger] r.buttons@[i]).function_type == 0,
    {
        let mut buttons: Vec<ButtonInfo> = Vec::new();
        let mut i: usize = 0;
        while i < BUTTON_REPORT_SLOTS
            invariant
                i <= BUTTON_REPORT_SLOTS,
                buttons@.len() == i,
                forall|k: int| 0 <= k < i ==> (#[trigger] buttons@[k]).function_type == 0,
            decreases BUTTON_REPORT_SLOTS - i,
        {
            buttons.push(ButtonInfo { function_type: 0, params: [0u8; 3] });
            i += 1;
        }
        ButtonReport {
            usb_report_id: 0,
            report_type: 0,
            unknown_2: 0,
            profile_id: 0,
            unknown_4: 0,
            unknown_5: 0,
            unknown_6: 0,
            unknown_7: 0,
            button_count: 0,
            buttons,
            padding: [0u8; 3],
        }
    }
}

#[derive(Debug, Clone, Copy, PartialEq, Eq, Structural)]
pub enum LedMode {
    Off,
    Static,
    Breathing,
    Rainbow,
}

impl LedMode {
    /// The byte that stands for the mode on the wire.
    pub open spec fn spec_code(self) -> u8 {
        match self {
            LedMode::Off => 0x00,
            LedMode::Static => 0x01,
            LedMode::Breathing => 0x02,
            LedMode::Rainbow => 0x03,
        }
    }

    pub fn code(self) -> (r: u8)
        ensures
            r == self.spec_code(),
    {
        match self {
            LedMode::Off => 0x00,
            LedMode::Static => 0x01,
            LedMode::Breathing => 0x02,
            LedMode::Rainbow => 0x03,
        }
    }
}

/// The state of the LED: six bytes in the report.
#[derive(Debug, Clone, Copy, PartialEq, Eq, Structural)]
pub struct LedState {
    pub mode: u8,
    pub red: u8,
    pub green: u8,
    pub blue: u8,
    pub speed: u8,
    pub brightness: u8,
}

/// The LED report: 16 bytes.
#[derive(Debug, Clone, Copy, PartialEq, Eq, Structural)]
pub struct LedReport {
    pub usb_report_id: u8,
    pub report_type: u8,
    pub unknown_2: u8,
    pub profile_id: u8,
    pub unknown_4: u8,
    pub unknown_5: u8,
    pub unknown_6: u8,
    pub unknown_7: u8,
    pub led: LedState,
    pub unknown_13: u8,
    pub unknown_14: u8,
    pub unknown_15: u8,
}

/// The raw value that stands for a DPI: defined for the multiples of 50
/// from 50 to 16400.
pub open spec fn raw_of_dpi(dpi: u32) -> Option<u16> {
    if dpi < RES_MIN || dpi > RES_MAX || dpi % RES_SCALING != 0 {
        None
    } else {
        Some((dpi / RES_SCALING) as u16)
    }
}

/// Converts a DPI to the 16 bits that the device stores.
pub fn dpi_to_raw(dpi: u32) -> (r: Option<u16>)
    ensures
        r == raw_of_dpi(dpi),
{
    if dpi < RES_MIN || dpi > RES_MAX || dpi % RES_SCALING != 0 {
        return None;
    }
    Some((dpi / RES_SCALING) as u16)
}

/// Converts the 16 bits that the device stores to a DPI.
pub fn raw_to_dpi(raw: u16) -> (r: u32)
    ensures
        r == raw * 50,
{
    (raw as u32) * RES_SCALING
}

/// A DPI that has a raw value is what its raw value stands for.
pub proof fn lemma_dpi_round_trip(dpi: u32)
    requires
        raw_of_dpi(dpi) is Some,
    ensures
        raw_of_dpi(dpi)->0 * 50 == dpi,
{
}

/// The request that the probe sends: a read of the resolutions of profile
/// 0, in a report of 64 bytes.
pub open spec fn probe_request() -> Seq<u8> {
    Seq::new(
        64,
        |i: int|
            if i == 0 {
                0x01u8
            } else if i == 1 {
                0x03u8
            } else if i == 2 {
                0x4fu8
            } else if i == 4 {
                0x2au8
            } else if i == 6 || i == 7 {
                0xfau8
            } else {
                0u8
            },
    )
}

/// Where the probe stands.
#[derive(Debug, Clone, Copy, PartialEq, Eq, Structural)]
pub enum ProbeStage {
    Idle,
    /// The request is being written.
    Writing,
    /// The reply is being read.
    Reading,
}

/// The MarsGaming driver.
pub struct MarsGamingDriver {
    /// The active profile, once a probe was answered.
    pub active_profile: Option<u8>,
    pub stage: ProbeStage,
}

/// Why a step of the probe fails, in words: a step that no probe is
/// waiting for is unexpected; a failure of the transport is told in its
/// own words; and a device that answered is told that its profiles cannot
/// be loaded.
pub open spec fn probe_failure(pre: MarsGamingDriver, ev: DriverEventModel) -> Seq<char> {
    match ev {
        DriverEventModel::Data(reply) => if pre.stage == ProbeStage::Reading {
            "MarsGaming driver: "@ + "loading profiles is not supported"@
        } else {
            "MarsGaming probe: "@ + "unexpected event"@
        },
        DriverEventModel::Failed(e) => error_text(e),
        _ => "MarsGaming probe: "@ + "unexpected event"@,
    }
}

/// What a step of the probe does, given the driver before and after it,
/// the event and the action.
pub open spec fn probe_post(
    pre: MarsGamingDriver,
    ev: DriverEventModel,
    post: MarsGamingDriver,
    r: ActionModel,
) -> bool {
    &&& (r is Failed ==> r == ActionModel::Failed(probe_failure(pre, ev)))
    &&& (ev is Start ==> r == ActionModel::WriteReport(probe_request()) && post.stage
        == ProbeStage::Writing && post.active_profile == pre.active_profile)
    &&& (!(ev is Start) && pre.stage == ProbeStage::Writing && ev is Completed ==> r
        == (ActionModel::ReadReport { len: 64, timeout_ms: None }) && post.stage
        == ProbeStage::Reading && post.active_profile == pre.active_profile)
    &&& (!(ev is Start) && !(pre.stage == ProbeStage::Writing && ev is Completed)
        ==> r is Failed && post.stage == ProbeStage::Idle)
    &&& (!(ev is Start) && pre.stage == ProbeStage::Reading && ev is Data
        ==> post.active_profile == Some(0u8))
    &&& (!(ev is Start) && !(pre.stage == ProbeStage::Reading && ev is Data)
        ==> post.active_profile == pre.active_profile)
}

/// What a step of a load does, given the driver and the device state
/// before and after it, the event and the action.
pub open spec fn load_post(
    pre: MarsGamingDriver,
    before: DeviceModel,
    ev: DriverEventModel,
    post: MarsGamingDriver,
    after: DeviceModel,
    r: ActionModel,
) -> bool {
    &&& (r == ActionModel::Failed("MarsGaming driver: "@ + "loading profiles is not supported"@))
    &&& (after == before)
    &&& (post == pre)
}

/// What a step of a commit does, given the driver before and after it,
/// the device state, the event and the action.
pub open spec fn commit_post(
    pre: MarsGamingDriver,
    info: DeviceModel,
    ev: DriverEventModel,
    post: MarsGamingDriver,
    r: ActionModel,
) -> bool {
    &&& (r == ActionModel::Failed("MarsGaming driver: "@ + "committing is not supported"@))
    &&& (post == pre)
}

impl MarsGamingDriver {
    pub fn new() -> (r: Self)
        ensures
            r.active_profile is None,
            r.stage == ProbeStage::Idle,
    {
        MarsGamingDriver { active_profile: None, stage: ProbeStage::Idle }
    }

    /// One step of the probe: the request is written and one report is
    /// read. Where both succeed the driver notes profile 0 as active; the
    /// probe fails all the same, since the driver cannot load profiles.
    pub fn probe_step(&mut self, event: DriverEvent) -> (r: DriverAction)
        ensures
            probe_post(*old(self), event@, *final(self), r@),
    {
        let stage = self.stage;
        self.stage = ProbeStage::Idle;
        match event {
            DriverEvent::Start => {
                let mut buf: Vec<u8> = Vec::new();
                let mut i: usize = 0;
                while i < 64
                    invariant
                        i <= 64,
                        buf@.len() == i,
                        forall|k: int| 0 <= k < i ==> buf@[k] == probe_request()[k],
                    decreases 64 - i,
                {
                    let b: u8 = if i == 0 {
                        0x01
                    } else if i == 1 {
                        ReportType::Read.code()
                    } else if i == 2 {
                        0x4f
                    } else if i == 4 {
                        0x2a
                    } else if i == 6 || i == 7 {
                        0xfa
                    } else {
                        0
                    };
                    buf.push(b);
                    i += 1;
                }
                assert(buf@ =~= probe_request());
                self.stage = ProbeStage::Writing;
                DriverAction::WriteReport(buf)
            },
            DriverEvent::Completed => {
                if stage == ProbeStage::Writing {
                    self.stage = ProbeStage::Reading;
                    DriverAction::ReadReport { len: 64, timeout_ms: None }
                } else {
                    DriverAction::Failed(text2("MarsGaming probe: ", "unexpected event"))
                }
            },
            DriverEvent::Data(_) => {
                if stage == ProbeStage::Reading {
                    self.active_profile = Some(0);
                    DriverAction::Failed(
                        text2("MarsGaming driver: ", "loading profiles is not supported"),
                    )
                } else {
                    DriverAction::Failed(text2("MarsGaming probe: ", "unexpected event"))
                }
            },
            DriverEvent::Failed(e) => DriverAction::Failed(e.to_string()),
            _ => DriverAction::Failed(text2("MarsGaming probe: ", "unexpected event")),
        }
    }

    /// Loading profiles is not supported: the first step fails.
    pub fn load_step(&mut self, info: &mut DeviceInfo, event: DriverEvent) -> (r: DriverAction)
        ensures
            load_post(*old(self), old(info)@, event@, *final(self), final(info)@, r@),
            *final(info) == *old(info),
    {
        DriverAction::Failed(text2("MarsGaming driver: ", "loading profiles is not supported"))
    }

    /// Committing is not supported: the first step fails.
    pub fn commit_step(&mut self, info: &DeviceInfo, event: DriverEvent) -> (r: DriverAction)
        ensures
            commit_post(*old(self), info@, event@, *final(self), r@),
    {
        DriverAction::Failed(text2("MarsGaming driver: ", "committing is not supported"))
    }
}

impl DeviceDriver for MarsGamingDriver {
    fn name(&self) -> (r: &'static str)
        ensures
            r@ == "MarsGaming MM4"@,
    {
        "MarsGaming MM4"
    }

    fn probe(&mut self, event: DriverEvent) -> (r: DriverAction)
        ensures
            probe_post(*old(self), event@, *final(self), r@),
    {
        self.probe_step(event)
    }

    fn load_profiles(&mut self, info: &mut DeviceInfo, event: DriverEvent) -> (r: DriverAction)
        ensures
            load_post(*old(self), old(info)@, event@, *final(self), final(info)@, r@),
    {
        self.load_step(info, event)
    }

    fn commit(&mut self, info: &DeviceInfo, event: DriverEvent) -> (r: DriverAction)
        ensures
            commit_post(*old(self), info@, event@, *final(self), r@),
    {
        self.commit_step(info, event)
    }
}

} // verus!
