//! The SinoWealth Nubwo driver, for Nubwo mice that speak the simple
//! variant of the SinoWealth protocol: fixed commands in place of
//! configuration reports.
//!
//! The commands and the probe are in place. Loading and committing profiles
//! are not: the probe confirms that the device answers and then declines
//! it.

use vstd::prelude::*;
use crate::device::{DeviceInfo, DeviceModel};
use crate::driver::{
    error_text, ActionModel, DeviceDriver, DriverAction, DriverEvent, DriverEventModel,
};
use crate::driver::hidpp20_driver::text2;

verus! {

/// The report number of performance commands: rate and DPI.
pub const REPORTID_PERF_CMD: u8 = 0x02;

/// The report number of LED commands.
pub const REPORTID_AESTHETIC_CMD: u8 = 0x03;

/// The report number of the firmware version query.
pub const REPORTID_GET_FIRMWARE: u8 = 0x04;

pub const GET_FIRMWARE_MSGSIZE: usize = 256;

/// Where the firmware text starts in the reply.
pub const GET_FIRMWARE_MSGOFFSET: usize = 48;

pub const PERF_CMD_MSGSIZE: usize = 16;

pub const NUM_PROFILES: usize = 1;

pub const NUM_RESOLUTIONS: usize = 1;

pub const NUM_BUTTONS: usize = 0;

pub const NUM_LEDS: usize = 1;

#[derive(Debug, Clone, Copy, PartialEq, Eq, Structural)]
pub enum ColorMode {
    Off,
    On,
    Breathing,
    ColorShift,
    Spectrum,
    Marquee,
}

impl ColorMode {
    /// The byte that stands for the mode on the wire.
    pub open spec fn spec_code(self) -> u8 {
        match self {
            ColorMode::Off => 0x00,
            ColorMode::On => 0x01,
            ColorMode::Breathing => 0x02,
            ColorMode::ColorShift => 0x03,
            ColorMode::Spectrum => 0x04,
            ColorMode::Marquee => 0x05,
        }
    }

    pub fn code(self) -> (r: u8)
        ensures
            r == self.spec_code(),
    {
        match self {
            ColorMode::Off => 0x00,
            ColorMode::On => 0x01,
            ColorMode::Breathing => 0x02,
            ColorMode::ColorShift => 0x03,
            ColorMode::Spectrum => 0x04,
            ColorMode::Marquee => 0x05,
        }
    }
}

/// The LED report: 15 bytes.
#[derive(Debug, Clone, Copy)]
pub struct AestheticReport {
    pub report_id: u8,
    pub cmd: [u8; 7],
    pub r: u8,
    pub g: u8,
    pub b: u8,
    pub color_mode: u8,
    pub pad_zero: u8,
    /// 1 (low) to 3 (high).
    pub brightness: u8,
    /// 1 (fast), 3 (slow) or 5 (very slow).
    pub tempo: u8,
}

/// The raw byte that stands for a DPI; only five values have one.
pub open spec fn encoded_dpi(dpi: u32) -> Option<u8> {
    match dpi {
        1000 => Some(0x04u8),
        2000 => Some(0x03u8),
        3000 => Some(0x02u8),
        5000 => Some(0x01u8),
        15000 => Some(0x00u8),
        _ => None,
    }
}

/// Encodes a DPI for the DPI command.
pub fn encode_dpi(dpi: u32) -> (r: Option<u8>)
    ensures
        r == encoded_dpi(dpi),
{
    match dpi {
        1000 => Some(0x04),
        2000 => Some(0x03),
        3000 => Some(0x02),
        5000 => Some(0x01),
        15000 => Some(0x00),
        _ => None,
    }
}

/// The raw byte that stands for a report rate; only five rates have one.
pub open spec fn encoded_rate(rate: u32) -> Option<u8> {
    match rate {
        125 => Some(0x08u8),
        250 => Some(0x04u8),
        333 => Some(0x03u8),
        500 => Some(0x02u8),
        1000 => Some(0x01u8),
        _ => None,
    }
}

/// Encodes a report rate for the rate command.
pub fn encode_rate(rate: u32) -> (r: Option<u8>)
    ensures
        r == encoded_rate(rate),
{
    match rate {
        125 => Some(0x08),
        250 => Some(0x04),
        333 => Some(0x03),
        500 => Some(0x02),
        1000 => Some(0x01),
        _ => None,
    }
}

/// The encoded report rate is the interval between reports in
/// milliseconds.
pub proof fn lemma_rate_is_interval(rate: u32)
    requires
        encoded_rate(rate) is Some,
    ensures
        encoded_rate(rate)->0 == 1000int / (rate as int),
{
    assert(1000int / 125 == 8 && 1000int / 250 == 4 && 1000int / 333 == 3 && 1000int / 500 == 2
        && 1000int / 1000 == 1);
}

/// Builds the command that sets the DPI.
pub fn build_dpi_cmd(encoded: u8) -> (r: [u8; 8])
    ensures
        r@ == seq![0x02u8, 0x06u8, 0xbbu8, 0xaau8, 0x32u8, 0x00u8, encoded, 0x00u8],
{
    let r = [0x02, 0x06, 0xbb, 0xaa, 0x32, 0x00, encoded, 0x00];
    assert(r@ =~= seq![0x02u8, 0x06u8, 0xbbu8, 0xaau8, 0x32u8, 0x00u8, encoded, 0x00u8]);
    r
}

/// Builds the command that sets the report rate.
pub fn build_rate_cmd(encoded: u8) -> (r: [u8; 8])
    ensures
        r@ == seq![0x02u8, 0x06u8, 0xbbu8, 0xaau8, 0x28u8, 0x00u8, encoded, 0x00u8],
{
    let r = [0x02, 0x06, 0xbb, 0xaa, 0x28, 0x00, encoded, 0x00];
    assert(r@ =~= seq![0x02u8, 0x06u8, 0xbbu8, 0xaau8, 0x28u8, 0x00u8, encoded, 0x00u8]);
    r
}

/// The report that must be set before the firmware version can be asked
/// for.
pub open spec fn prefirmware_query() -> Seq<u8> {
    Seq::new(
        16,
        |i: int|
            if i == 0 {
                0x02u8
            } else if i == 1 {
                0x01u8
            } else if i == 2 {
                0x49u8
            } else {
                0u8
            },
    )
}

/// The buffer of the firmware version query: the report number and 255
/// zero bytes.
pub open spec fn firmware_query() -> Seq<u8> {
    Seq::new(256, |i: int| if i == 0 { REPORTID_GET_FIRMWARE } else { 0u8 })
}

/// Where the firmware text ends in a reply: at its first zero byte from
/// position `i` on, or at the end of the reply.
pub open spec fn text_end(reply: Seq<u8>, i: int) -> int
    decreases reply.len() - i,
{
    if 0 <= i < reply.len() && reply[i] != 0 {
        text_end(reply, i + 1)
    } else {
        i
    }
}

/// The bytes of the firmware text in a reply: those from position 48 up to
/// the first zero byte.
pub open spec fn firmware_text(reply: Seq<u8>) -> Seq<u8> {
    if reply.len() >= 48 {
        reply.subrange(48, text_end(reply, 48))
    } else {
        Seq::empty()
    }
}

/// What the driver knows of the device after a probe.
#[derive(Debug, Clone)]
pub struct NubwoData {
    /// The bytes of the firmware text.
    pub firmware: Vec<u8>,
    pub current_dpi_encoded: u8,
    pub current_rate_encoded: u8,
}

/// Where the probe stands.
#[derive(Debug, Clone, Copy, PartialEq, Eq, Structural)]
pub enum ProbeStage {
    Idle,
    /// The report before the query is being set.
    Preparing,
    /// The firmware version is being read.
    Asking,
}

/// The SinoWealth Nubwo driver.
pub struct SinowealhNubwoDriver {
    pub data: Option<NubwoData>,
    pub stage: ProbeStage,
}

/// Why a step of the probe fails, in words: a step that no probe is
/// waiting for is unexpected; a failure of the transport is told in its
/// own words; and a device that answered is told that its profiles cannot
/// be loaded.
pub open spec fn probe_failure(pre: SinowealhNubwoDriver, ev: DriverEventModel) -> Seq<char> {
    match ev {
        DriverEventModel::Data(reply) => if pre.stage != ProbeStage::Asking {
            "SinoWealth-Nubwo probe: "@ + "unexpected event"@
        } else {
            "SinoWealth-Nubwo driver: "@ + "loading profiles is not supported"@
        },
        DriverEventModel::Failed(e) => error_text(e),
        _ => "SinoWealth-Nubwo probe: "@ + "unexpected event"@,
    }
}

/// What a step of the probe does, given the driver before and after it,
/// the event and the action.
pub open spec fn probe_post(
    pre: SinowealhNubwoDriver,
    ev: DriverEventModel,
    post: SinowealhNubwoDriver,
    r: ActionModel,
) -> bool {
    &&& (r is Failed ==> r == ActionModel::Failed(probe_failure(pre, ev)))
    &&& (ev is Start ==> r == ActionModel::SetFeatureReport(prefirmware_query())
        && post.stage == ProbeStage::Preparing && post.data == pre.data)
    &&& (!(ev is Start) && pre.stage == ProbeStage::Preparing && ev is Completed
        ==> r == ActionModel::GetFeatureReport(firmware_query()) && post.stage
        == ProbeStage::Asking && post.data == pre.data)
    &&& (!(ev is Start) && !(pre.stage == ProbeStage::Preparing && ev is Completed)
        ==> r is Failed && post.stage == ProbeStage::Idle)
    &&& (!(ev is Start) && pre.stage == ProbeStage::Asking && ev is Data
        ==> post.data is Some && post.data->0.firmware@ == firmware_text(
        ev->Data_0,
        ) && post.data->0.current_dpi_encoded == 0x04
        && post.data->0.current_rate_encoded == 0x01)
    &&& (!(ev is Start) && !(pre.stage == ProbeStage::Asking && ev is Data)
        ==> post.data == pre.data)
}

/// What a step of a load does, given the driver and the device state
/// before and after it, the event and the action.
pub open spec fn load_post(
    pre: SinowealhNubwoDriver,
    before: DeviceModel,
    ev: DriverEventModel,
    post: SinowealhNubwoDriver,
    after: DeviceModel,
    r: ActionModel,
) -> bool {
    &&& (r == ActionModel::Failed("SinoWealth-Nubwo driver: "@ + "loading profiles is not supported"@))
    &&& (after == before)
    &&& (post == pre)
}

/// What a step of a commit does, given the driver before and after it,
/// the device state, the event and the action.
pub open spec fn commit_post(
    pre: SinowealhNubwoDriver,
    info: DeviceModel,
    ev: DriverEventModel,
    post: SinowealhNubwoDriver,
    r: ActionModel,
) -> bool {
    &&& (r == ActionModel::Failed("SinoWealth-Nubwo driver: "@ + "committing is not supported"@))
    &&& (post == pre)
}

impl SinowealhNubwoDriver {
    pub fn new() -> (r: Self)
        ensures
            r.data is None,
            r.stage == ProbeStage::Idle,
    {
        SinowealhNubwoDriver { data: None, stage: ProbeStage::Idle }
    }

    /// One step of the probe: the report before the query is set, then the
    /// firmware version is asked for. The driver keeps the firmware text
    /// and assumes the first DPI and the highest rate; the probe fails all
    /// the same, since the driver cannot load profiles.
    pub fn probe_step(&mut self, event: DriverEvent) -> (r: DriverAction)
        ensures
            probe_post(*old(self), event@, *final(self), r@),
    {
        let stage = self.stage;
        self.stage = ProbeStage::Idle;
        match event {
            DriverEvent::Start => {
                let mut buf: Vec<u8> = Vec::new();
                let mut i: usize = 0;
                while i < 16
                    invariant
                        i <= 16,
                        buf@.len() == i,
                        forall|k: int| 0 <= k < i ==> buf@[k] == prefirmware_query()[k],
                    decreases 16 - i,
                {
                    let b: u8 = if i == 0 {
                        0x02
                    } else if i == 1 {
                        0x01
                    } else if i == 2 {
                        0x49
                    } else {
                        0
                    };
                    buf.push(b);
                    i += 1;
                }
                assert(buf@ =~= prefirmware_query());
                self.stage = ProbeStage::Preparing;
                DriverAction::SetFeatureReport(buf)
            },
            DriverEvent::Completed => {
                if stage != ProbeStage::Preparing {
                    return DriverAction::Failed(text2("SinoWealth-Nubwo probe: ", "unexpected event"));
                }
                let mut buf: Vec<u8> = Vec::new();
                buf.push(REPORTID_GET_FIRMWARE);
                let mut i: usize = 1;
                while i < 256
                    invariant
                        1 <= i <= 256,
                        buf@.len() == i,
                        buf@[0] == REPORTID_GET_FIRMWARE,
                        forall|k: int| 1 <= k < i ==> buf@[k] == 0,
                    decreases 256 - i,
                {
                    buf.push(0);
                    i += 1;
                }
                assert(buf@ =~= firmware_query());
                self.stage = ProbeStage::Asking;
                DriverAction::GetFeatureReport(buf)
            },
            DriverEvent::Data(reply) => {
                if stage != ProbeStage::Asking {
                    return DriverAction::Failed(text2("SinoWealth-Nubwo probe: ", "unexpected event"));
                }
                let mut firmware: Vec<u8> = Vec::new();
                if reply.len() >= 48 {
                    let mut i: usize = 48;
                    while i < reply.len() && reply[i] != 0
                        invariant
                            48 <= i <= reply@.len(),
                            text_end(reply@, 48) == text_end(reply@, i as int),
                            firmware@ == reply@.subrange(48, i as int),
                        decreases reply@.len() - i,
                    {
                        firmware.push(reply[i]);
                        i += 1;
                        assert(firmware@ =~= reply@.subrange(48, i as int));
                    }
                }
                assert(firmware@ =~= firmware_text(reply@));
                self.data = Some(
                    NubwoData { firmware, current_dpi_encoded: 0x04, current_rate_encoded: 0x01 },
                );
                DriverAction::Failed(
                    text2("SinoWealth-Nubwo driver: ", "loading profiles is not supported"),
                )
            },
            DriverEvent::Failed(e) => DriverAction::Failed(e.to_string()),
            _ => DriverAction::Failed(text2("SinoWealth-Nubwo probe: ", "unexpected event")),
        }
    }

    /// Loading profiles is not supported: the first step fails.
    pub fn load_step(&mut self, info: &mut DeviceInfo, event: DriverEvent) -> (r: DriverAction)
        ensures
            load_post(*old(self), old(info)@, event@, *final(self), final(info)@, r@),
            *final(info) == *old(info),
    {
        DriverAction::Failed(text2("SinoWealth-Nubwo driver: ", "loading profiles is not supported"))
    }

    /// Committing is not supported: the first step fails.
    pub fn commit_step(&mut self, info: &DeviceInfo, event: DriverEvent) -> (r: DriverAction)
        ensures
            commit_post(*old(self), info@, event@, *final(self), r@),
    {
        DriverAction::Failed(text2("SinoWealth-Nubwo driver: ", "committing is not supported"))
    }
}

impl DeviceDriver for SinowealhNubwoDriver {
    fn name(&self) -> (r: &'static str)
        ensures
            r@ == "SinoWealth-Nubwo"@,
    {
        "SinoWealth-Nubwo"
    }

    fn probe(&mut self, event: DriverEvent) -> (r: DriverAction)
        ensures
            probe_post(*old(self), event@, *final(self), r@),
    {
        self.probe_step(event)
    }

    fn load_profiles(&mut self, info: &mut DeviceInfo, event: DriverEvent) -> (r: DriverAction)
        ensures
            load_post(*old(self), old(info)@, event@, *final(self), final(info)@, r@),
    {
        self.load_step(info, event)
    }

    fn commit(&mut self, info: &DeviceInfo, event: DriverEvent) -> (r: DriverAction)
        ensures
            commit_post(*old(self), info@, event@, *final(self), r@),
    {
        self.commit_step(info, event)
    }
}

} // verus!
