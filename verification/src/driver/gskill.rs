//! The G.Skill driver, for the Ripjaws MX780 and similar mice: five
//! profiles, up to five DPI slots, ten buttons and three LED zones.
//!
//! The report layouts and the probe are in place. Loading and committing
//! profiles are not: the probe confirms that the device answers and then
//! declines it.

use vstd::prelude::*;
use crate::device::{DeviceInfo, DeviceModel};
use crate::driver::{
    error_text, ActionModel, DeviceDriver, DriverAction, DriverEvent, DriverEventModel,
};
use crate::driver::hidpp20_driver::text2;

verus! {

pub const GSKILL_PROFILE_MAX: usize = 5;

pub const GSKILL_NUM_DPI: usize = 5;

pub const GSKILL_BUTTON_MAX: usize = 10;

pub const GSKILL_MAX_POLLING_RATE: u32 = 1000;

pub const GSKILL_MIN_DPI: u32 = 100;

pub const GSKILL_MAX_DPI: u32 = 8200;

pub const GSKILL_DPI_UNIT: u32 = 50;

pub const GSKILL_GET_CURRENT_PROFILE_NUM: u8 = 0x03;

pub const GSKILL_GET_SET_MACRO: u8 = 0x04;

pub const GSKILL_GET_SET_PROFILE: u8 = 0x05;

pub const GSKILL_GENERAL_CMD: u8 = 0x0c;

pub const GSKILL_REPORT_SIZE_PROFILE: usize = 644;

pub const GSKILL_REPORT_SIZE_CMD: usize = 9;

pub const GSKILL_REPORT_SIZE_MACRO: usize = 2052;

/// Where the checksum lies in profile and macro reports.
pub const GSKILL_CHECKSUM_OFFSET: usize = 3;

pub const GSKILL_CMD_SUCCESS: u8 = 0xb0;

pub const GSKILL_CMD_IN_PROGRESS: u8 = 0xb1;

pub const GSKILL_CMD_FAILURE: u8 = 0xb2;

pub const GSKILL_CMD_IDLE: u8 = 0xb3;

pub const GSKILL_LED_TYPE_LOGO: usize = 0;

pub const GSKILL_LED_TYPE_WHEEL: usize = 1;

pub const GSKILL_LED_TYPE_TAIL: usize = 2;

pub const GSKILL_LED_TYPE_COUNT: usize = 3;

pub const KBD_MOD_CTRL_LEFT: u8 = 0x01;

pub const KBD_MOD_SHIFT_LEFT: u8 = 0x02;

pub const KBD_MOD_ALT_LEFT: u8 = 0x04;

pub const KBD_MOD_SUPER_LEFT: u8 = 0x08;

pub const KBD_MOD_CTRL_RIGHT: u8 = 0x10;

pub const KBD_MOD_SHIFT_RIGHT: u8 = 0x20;

pub const KBD_MOD_ALT_RIGHT: u8 = 0x40;

pub const KBD_MOD_SUPER_RIGHT: u8 = 0x80;

#[derive(Debug, Clone, Copy, PartialEq, Eq, Structural)]
pub enum LedControlType {
    AllOff,
    AllOn,
    Breathing,
    DpiLedRightCycle,
    DpiLedLeftCycle,
}

impl LedControlType {
    /// The byte that stands for the control type on the wire.
    pub open spec fn spec_code(self) -> u8 {
        match self {
            LedControlType::AllOff => 0x0,
            LedControlType::AllOn => 0x1,
            LedControlType::Breathing => 0x2,
            LedControlType::DpiLedRightCycle => 0x3,
            LedControlType::DpiLedLeftCycle => 0x4,
        }
    }

    pub fn code(self) -> (r: u8)
        ensures
            r == self.spec_code(),
    {
        match self {
            LedControlType::AllOff => 0x0,
            LedControlType::AllOn => 0x1,
            LedControlType::Breathing => 0x2,
            LedControlType::DpiLedRightCycle => 0x3,
            LedControlType::DpiLedLeftCycle => 0x4,
        }
    }
}

#[derive(Debug, Clone, Copy, PartialEq, Eq, Structural)]
pub enum ButtonFunctionType {
    Wheel,
    Mouse,
    Kbd,
    Consumer,
    Macro,
    DpiUp,
    DpiDown,
    CycleDpiUp,
    CycleDpiDown,
    ProfileSwitch,
    TemporaryCpiAdjust,
    DirectDpiChange,
    CycleProfileUp,
    CycleProfileDown,
    Disable,
}

impl ButtonFunctionType {
    /// The byte that stands for the function type on the wire.
    pub open spec fn spec_code(self) -> u8 {
        match self {
            ButtonFunctionType::Wheel => 0x00,
            ButtonFunctionType::Mouse => 0x01,
            ButtonFunctionType::Kbd => 0x02,
            ButtonFunctionType::Consumer => 0x03,
            ButtonFunctionType::Macro => 0x06,
            ButtonFunctionType::DpiUp => 0x09,
            ButtonFunctionType::DpiDown => 0x0a,
            ButtonFunctionType::CycleDpiUp => 0x0b,
            ButtonFunctionType::CycleDpiDown => 0x0c,
            ButtonFunctionType::ProfileSwitch => 0x0d,
            ButtonFunctionType::TemporaryCpiAdjust => 0x15,
            ButtonFunctionType::DirectDpiChange => 0x16,
            ButtonFunctionType::CycleProfileUp => 0x18,
            ButtonFunctionType::CycleProfileDown => 0x19,
            ButtonFunctionType::Disable => 0xff,
        }
    }

    pub fn code(self) -> (r: u8)
        ensures
            r == self.spec_code(),
    {
        match self {
            ButtonFunctionType::Wheel => 0x00,
            ButtonFunctionType::Mouse => 0x01,
            ButtonFunctionType::Kbd => 0x02,
            ButtonFunctionType::Consumer => 0x03,
            ButtonFunctionType::Macro => 0x06,
            ButtonFunctionType::DpiUp => 0x09,
            ButtonFunctionType::DpiDown => 0x0a,
            ButtonFunctionType::CycleDpiUp => 0x0b,
            ButtonFunctionType::CycleDpiDown => 0x0c,
            ButtonFunctionType::ProfileSwitch => 0x0d,
            ButtonFunctionType::TemporaryCpiAdjust => 0x15,
            ButtonFunctionType::DirectDpiChange => 0x16,
            ButtonFunctionType::CycleProfileUp => 0x18,
            ButtonFunctionType::CycleProfileDown => 0x19,
            ButtonFunctionType::Disable => 0xff,
        }
    }
}

/// A DPI level as the device stores it: one byte per axis.
#[derive(Debug, Clone, Copy, PartialEq, Eq, Structural)]
pub struct RawDpiLevel {
    pub x: u8,
    pub y: u8,
}

#[derive(Debug, Clone, Copy, PartialEq, Eq, Structural)]
pub struct LedColor {
    pub red: u8,
    pub green: u8,
    pub blue: u8,
}

/// The values of one LED: brightness and color.
#[derive(Debug, Clone, Copy, PartialEq, Eq, Structural)]
pub struct LedValues {
    pub brightness: u8,
    pub color: LedColor,
}

/// The configuration of one button.
#[derive(Debug, Clone, Copy)]
pub struct ButtonCfg {
    pub function_type: u8,
    /// What the bytes mean depends on the function type.
    pub params: [u8; 4],
}

#[derive(Debug, Clone, Copy, PartialEq, Eq, Structural)]
pub enum MacroExecMethod {
    ButtonRelease,
    ButtonPress,
    ButtonLoopStart,
    ButtonLoopEnd,
}

impl MacroExecMethod {
    /// The byte that stands for the method on the wire.
    pub open spec fn spec_code(self) -> u8 {
        match self {
            MacroExecMethod::ButtonRelease => 0x1,
            MacroExecMethod::ButtonPress => 0x5,
            MacroExecMethod::ButtonLoopStart => 0x7,
            MacroExecMethod::ButtonLoopEnd => 0x0,
        }
    }

    pub fn code(self) -> (r: u8)
        ensures
            r == self.spec_code(),
    {
        match self {
            MacroExecMethod::ButtonRelease => 0x1,
            MacroExecMethod::ButtonPress => 0x5,
            MacroExecMethod::ButtonLoopStart => 0x7,
            MacroExecMethod::ButtonLoopEnd => 0x0,
        }
    }
}

/// The device state that the driver keeps after a probe.
#[derive(Debug, Clone)]
pub struct GskillData {
    /// The raw report of each profile that was read.
    pub profiles: Vec<Option<Vec<u8>>>,
    pub active_profile: u8,
}

/// The G.Skill driver.
pub struct GskillDriver {
    pub data: Option<GskillData>,
    /// Whether the probe waits for the device to answer.
    pub probing: bool,
}

/// The DPI that a raw value stands for: one unit of 50 more than the raw
/// value times 50.
pub open spec fn dpi_of_raw(raw: u8) -> u32 {
    ((raw + 1) * 50) as u32
}

/// Converts a raw DPI level to the DPI of each axis.
pub fn raw_to_dpi(raw: RawDpiLevel) -> (r: (u32, u32))
    ensures
        r == (dpi_of_raw(raw.x), dpi_of_raw(raw.y)),
{
    ((raw.x as u32 + 1) * GSKILL_DPI_UNIT, (raw.y as u32 + 1) * GSKILL_DPI_UNIT)
}

/// The raw value that stands for a DPI: defined for the multiples of 50
/// from 100 to 8200.
pub open spec fn raw_of_dpi(dpi: u32) -> Option<u8> {
    if dpi < GSKILL_MIN_DPI || dpi > GSKILL_MAX_DPI || dpi % GSKILL_DPI_UNIT != 0 {
        None
    } else {
        Some((dpi / GSKILL_DPI_UNIT - 1) as u8)
    }
}

/// Converts a DPI to the raw value of one axis.
pub fn dpi_to_raw(dpi: u32) -> (r: Option<u8>)
    ensures
        r == raw_of_dpi(dpi),
{
    if dpi < GSKILL_MIN_DPI || dpi > GSKILL_MAX_DPI || dpi % GSKILL_DPI_UNIT != 0 {
        return None;
    }
    Some((dpi / GSKILL_DPI_UNIT - 1) as u8)
}

/// A DPI that has a raw value is what its raw value stands for.
pub proof fn lemma_dpi_round_trip(dpi: u32)
    requires
        raw_of_dpi(dpi) is Some,
    ensures
        dpi_of_raw(raw_of_dpi(dpi)->0) == dpi,
{
}

/// The exclusive or of the bytes of `s`.
pub open spec fn xor_all(s: Seq<u8>) -> u8
    decreases s.len(),
{
    if s.len() == 0 {
        0
    } else {
        xor_all(s.drop_last()) ^ s.last()
    }
}

/// Computes the checksum of a report: the exclusive or of all bytes from
/// the fifth on.
pub fn compute_checksum(report: &[u8]) -> (r: u8)
    requires
        report@.len() >= 4,
    ensures
        r == xor_all(report@.subrange(4, report@.len() as int)),
{
    let mut acc: u8 = 0;
    let mut i: usize = 4;
    while i < report.len()
        invariant
            4 <= i <= report@.len(),
            acc == xor_all(report@.subrange(4, i as int)),
        decreases report@.len() - i,
    {
        proof {
            assert(report@.subrange(4, i + 1).drop_last() =~= report@.subrange(4, i as int));
        }
        acc = acc ^ report[i];
        i += 1;
    }
    acc
}

/// The query that the probe sends: the command report for the number of
/// the current profile.
pub open spec fn probe_query() -> ActionModel {
    ActionModel::GetFeatureReport(
        Seq::new(9, |i: int| if i == 0 { GSKILL_GET_CURRENT_PROFILE_NUM } else { 0u8 }),
    )
}

/// Whether a reply to the probe query shows a device that answers: its
/// status byte says success or idle.
pub open spec fn probe_accepts(reply: Seq<u8>) -> bool {
    reply.len() >= 3 && (reply[1] == GSKILL_CMD_SUCCESS || reply[1] == GSKILL_CMD_IDLE)
}

/// Why a step of the probe fails, in words: a step that no probe is
/// waiting for is unexpected; a failure of the transport is told in its
/// own words; and a device that answered is told that its profiles cannot
/// be loaded.
pub open spec fn probe_failure(pre: GskillDriver, ev: DriverEventModel) -> Seq<char> {
    match ev {
        DriverEventModel::Data(reply) => if !pre.probing {
            "G.Skill probe: "@ + "unexpected event"@
        } else if !probe_accepts(reply) {
            "G.Skill probe: "@ + "unexpected status byte"@
        } else {
            "G.Skill driver: "@ + "loading profiles is not supported"@
        },
        DriverEventModel::Failed(e) => error_text(e),
        _ => "G.Skill probe: "@ + "unexpected event"@,
    }
}

/// What a step of the probe does, given the driver before and after it,
/// the event and the action.
pub open spec fn probe_post(
    pre: GskillDriver,
    ev: DriverEventModel,
    post: GskillDriver,
    r: ActionModel,
) -> bool {
    &&& (r is Failed ==> r == ActionModel::Failed(probe_failure(pre, ev)))
    &&& (ev is Start ==> r == probe_query() && post.probing && post.data
        == pre.data)
    &&& (!(ev is Start) ==> r is Failed && !post.probing)
    &&& (!(ev is Start) && pre.probing && ev is Data && probe_accepts(
        ev->Data_0,
        ) ==> post.data is Some && post.data->0.active_profile
        == ev->Data_0[2] & 0x0f)
    &&& (!(ev is Start) && !(pre.probing && ev is Data && probe_accepts(
        ev->Data_0,
        )) ==> post.data == pre.data)
}

/// What a step of a load does, given the driver and the device state
/// before and after it, the event and the action.
pub open spec fn load_post(
    pre: GskillDriver,
    before: DeviceModel,
    ev: DriverEventModel,
    post: GskillDriver,
    after: DeviceModel,
    r: ActionModel,
) -> bool {
    &&& (r == ActionModel::Failed("G.Skill driver: "@ + "loading profiles is not supported"@))
    &&& (after == before)
    &&& (post.data == pre.data)
}

/// What a step of a commit does, given the driver before and after it,
/// the device state, the event and the action.
pub open spec fn commit_post(
    pre: GskillDriver,
    info: DeviceModel,
    ev: DriverEventModel,
    post: GskillDriver,
    r: ActionModel,
) -> bool {
    &&& (r == ActionModel::Failed("G.Skill driver: "@ + "committing is not supported"@))
    &&& (post.data == pre.data)
}

impl GskillDriver {
    pub fn new() -> (r: Self)
        ensures
            r.data is None,
            !r.probing,
    {
        GskillDriver { data: None, probing: false }
    }

    /// One step of the probe: the device is asked for the number of its
    /// current profile. Where its status says success or idle, the driver
    /// notes the active profile, the low half of the third byte; the probe
    /// fails all the same, since the driver cannot load profiles.
    pub fn probe_step(&mut self, event: DriverEvent) -> (r: DriverAction)
        ensures
            probe_post(*old(self), event@, *final(self), r@),
    {
        let probing = self.probing;
        self.probing = false;
        match event {
            DriverEvent::Start => {
                self.probing = true;
                let mut buf: Vec<u8> = Vec::new();
                buf.push(GSKILL_GET_CURRENT_PROFILE_NUM);
                let mut i: usize = 1;
                while i < 9
                    invariant
                        1 <= i <= 9,
                        buf@.len() == i,
                        buf@[0] == GSKILL_GET_CURRENT_PROFILE_NUM,
                        forall|k: int| 1 <= k < i ==> buf@[k] == 0,
                    decreases 9 - i,
                {
                    buf.push(0);
                    i += 1;
                }
                assert(buf@ =~= Seq::new(
                    9,
                    |i: int| if i == 0 { GSKILL_GET_CURRENT_PROFILE_NUM } else { 0u8 },
                ));
                DriverAction::GetFeatureReport(buf)
            },
            DriverEvent::Data(reply) => {
                if !probing {
                    return DriverAction::Failed(text2("G.Skill probe: ", "unexpected event"));
                }
                if reply.len() < 3 || (reply[1] != GSKILL_CMD_SUCCESS && reply[1]
                    != GSKILL_CMD_IDLE) {
                    return DriverAction::Failed(
                        text2("G.Skill probe: ", "unexpected status byte"),
                    );
                }
                let mut profiles: Vec<Option<Vec<u8>>> = Vec::new();
                let mut i: usize = 0;
                while i < GSKILL_PROFILE_MAX
                    invariant
                        i <= GSKILL_PROFILE_MAX,
                    decreases GSKILL_PROFILE_MAX - i,
                {
                    profiles.push(None);
                    i += 1;
                }
                self.data = Some(GskillData { profiles, active_profile: reply[2] & 0x0f });
                DriverAction::Failed(text2("G.Skill driver: ", "loading profiles is not supported"))
            },
            DriverEvent::Failed(e) => DriverAction::Failed(e.to_string()),
            _ => DriverAction::Failed(text2("G.Skill probe: ", "unexpected event")),
        }
    }

    /// Loading profiles is not supported: the first step fails.
    pub fn load_step(&mut self, info: &mut DeviceInfo, event: DriverEvent) -> (r: DriverAction)
        ensures
            load_post(*old(self), old(info)@, event@, *final(self), final(info)@, r@),
            *final(info) == *old(info),
    {
        DriverAction::Failed(text2("G.Skill driver: ", "loading profiles is not supported"))
    }

    /// Committing is not supported: the first step fails.
    pub fn commit_step(&mut self, info: &DeviceInfo, event: DriverEvent) -> (r: DriverAction)
        ensures
            commit_post(*old(self), info@, event@, *final(self), r@),
    {
        DriverAction::Failed(text2("G.Skill driver: ", "committing is not supported"))
    }
}

impl DeviceDriver for GskillDriver {
    fn name(&self) -> (r: &'static str)
        ensures
            r@ == "G.Skill"@,
    {
        "G.Skill"
    }

    fn probe(&mut self, event: DriverEvent) -> (r: DriverAction)
        ensures
            probe_post(*old(self), event@, *final(self), r@),
    {
        self.probe_step(event)
    }

    fn load_profiles(&mut self, info: &mut DeviceInfo, event: DriverEvent) -> (r: DriverAction)
        ensures
            load_post(*old(self), old(info)@, event@, *final(self), final(info)@, r@),
    {
        self.load_step(info, event)
    }

    fn commit(&mut self, info: &DeviceInfo, event: DriverEvent) -> (r: DriverAction)
        ensures
            commit_post(*old(self), info@, event@, *final(self), r@),
    {
        self.commit_step(info, event)
    }
}

} // verus!
