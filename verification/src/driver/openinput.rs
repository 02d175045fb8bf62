//! The OpenInput driver, for mice that speak the OpenInput protocol.
//!
//! The report layouts and the probe are in place. Loading and committing
//! profiles are not: the probe confirms that the device answers and then
//! declines it.

use vstd::prelude::*;
use crate::device::{DeviceInfo, DeviceModel};
use crate::driver::{
    error_text, ActionModel, DeviceDriver, DriverAction, DriverEvent, DriverEventModel,
};
use crate::driver::hidpp20_driver::text2;

verus! {

/// The marker of a short report: 8 bytes.
pub const OI_REPORT_SHORT: u8 = 0x20;

/// The marker of a long report: 32 bytes.
pub const OI_REPORT_LONG: u8 = 0x21;

pub const OI_REPORT_SHORT_SIZE: usize = 8;

pub const OI_REPORT_LONG_SIZE: usize = 32;

pub const OI_REPORT_MAX_SIZE: usize = 32;

/// Where the payload starts in a report.
pub const OI_REPORT_DATA_INDEX: usize = 3;

pub const OI_REPORT_DATA_MAX_SIZE: usize = 29;

pub const OI_PAGE_INFO: u8 = 0x00;

pub const OI_PAGE_GIMMICKS: u8 = 0xFD;

pub const OI_PAGE_DEBUG: u8 = 0xFE;

pub const OI_PAGE_ERROR: u8 = 0xFF;

pub const OI_FUNCTION_VERSION: u8 = 0x00;

pub const OI_FUNCTION_FW_INFO: u8 = 0x01;

pub const OI_FUNCTION_SUPPORTED_PAGES: u8 = 0x02;

pub const OI_FUNCTION_SUPPORTED_FUNCTIONS: u8 = 0x03;

pub const OI_ERROR_INVALID_VALUE: u8 = 0x01;

pub const OI_ERROR_UNSUPPORTED_FUNCTION: u8 = 0x02;

pub const OI_ERROR_CUSTOM: u8 = 0xFE;

/// An OpenInput report.
#[derive(Debug, Clone, Copy)]
pub struct OiReport {
    /// The marker of a short or of a long report.
    pub id: u8,
    pub function_page: u8,
    pub function: u8,
    pub data: [u8; 29],
}

impl OiReport {
    /// The first `size` bytes of the report on the wire: marker, page,
    /// function, then the payload.
    pub open spec fn bytes(self, size: int) -> Seq<u8> {
        Seq::new(
            size as nat,
            |i: int|
                if i == 0 {
                    self.id
                } else if i == 1 {
                    self.function_page
                } else if i == 2 {
                    self.function
                } else {
                    self.data@[i - 3]
                },
        )
    }

    /// The report as a short report of 8 bytes.
    pub fn to_short_buf(&self) -> (r: [u8; 8])
        ensures
            r@ == self.bytes(8),
    {
        let mut buf = [0u8; 8];
        buf[0] = self.id;
        buf[1] = self.function_page;
        buf[2] = self.function;
        let mut i: usize = 0;
        while i < 5
            invariant
                i <= 5,
                buf@[0] == self.id,
                buf@[1] == self.function_page,
                buf@[2] == self.function,
                forall|k: int| 0 <= k < i ==> buf@[3 + k] == self.data@[k],
            decreases 5 - i,
        {
            buf[3 + i] = self.data[i];
            i += 1;
        }
        assert(buf@ =~= self.bytes(8));
        buf
    }

    /// The report as a long report of 32 bytes.
    pub fn to_long_buf(&self) -> (r: [u8; 32])
        ensures
            r@ == self.bytes(32),
    {
        let mut buf = [0u8; 32];
        buf[0] = self.id;
        buf[1] = self.function_page;
        buf[2] = self.function;
        let mut i: usize = 0;
        while i < 29
            invariant
                i <= 29,
                buf@[0] == self.id,
                buf@[1] == self.function_page,
                buf@[2] == self.function,
                forall|k: int| 0 <= k < i ==> buf@[3 + k] == self.data@[k],
            decreases 29 - i,
        {
            buf[3 + i] = self.data[i];
            i += 1;
        }
        assert(buf@ =~= self.bytes(32));
        buf
    }
}

/// Builds a short request for a function of a page, with an empty payload.
pub fn build_request(page: u8, function: u8) -> (r: OiReport)
    ensures
        r.id == OI_REPORT_SHORT,
        r.function_page == page,
        r.function == function,
        forall|i: int| 0 <= i < 29 ==> r.data@[i] == 0,
{
    OiReport { id: OI_REPORT_SHORT, function_page: page, function, data: [0u8; 29] }
}

/// The name of a function page.
pub open spec fn name_of_page(page: u8) -> Seq<char> {
    match page {
        0x00 => "INFO"@,
        0x01 => "SETTINGS"@,
        0x02 => "DPI"@,
        0x03 => "BUTTONS"@,
        0x04 => "LEDS"@,
        0xFD => "GIMMICKS"@,
        0xFE => "DEBUG"@,
        0xFF => "ERROR"@,
        _ => "UNKNOWN"@,
    }
}

pub fn page_name(page: u8) -> (r: &'static str)
    ensures
        r@ == name_of_page(page),
{
    match page {
        0x00 => "INFO",
        0x01 => "SETTINGS",
        0x02 => "DPI",
        0x03 => "BUTTONS",
        0x04 => "LEDS",
        0xFD => "GIMMICKS",
        0xFE => "DEBUG",
        0xFF => "ERROR",
        _ => "UNKNOWN",
    }
}

/// What the driver knows of the device after a probe.
#[derive(Debug, Clone, Copy, PartialEq, Eq, Structural)]
pub struct OiData {
    pub fw_major: u8,
    pub fw_minor: u8,
    pub fw_patch: u8,
    pub num_profiles: u32,
    pub num_resolutions: u32,
    pub num_buttons: u32,
    pub num_leds: u32,
    /// One bit for each function page that the device supports.
    pub supported: u64,
}

/// Where the probe stands.
#[derive(Debug, Clone, Copy, PartialEq, Eq, Structural)]
pub enum ProbeStage {
    Idle,
    /// The version query is being written.
    Writing,
    /// The reply is being read.
    Reading,
}

/// The OpenInput driver.
pub struct OpenInputDriver {
    pub data: Option<OiData>,
    pub stage: ProbeStage,
}

/// The version query that the probe sends.
pub open spec fn probe_request() -> Seq<u8> {
    seq![OI_REPORT_SHORT, OI_PAGE_INFO, OI_FUNCTION_VERSION, 0u8, 0u8, 0u8, 0u8, 0u8]
}

/// What a reply to the version query says of the device, where it is long
/// enough and no error reply.
pub open spec fn probe_data(reply: Seq<u8>) -> Option<OiData> {
    if reply.len() >= 6 && reply[1] != OI_PAGE_ERROR {
        Some(
            OiData {
                fw_major: reply[3],
                fw_minor: reply[4],
                fw_patch: reply[5],
                num_profiles: 1,
                num_resolutions: 1,
                num_buttons: 0,
                num_leds: 0,
                supported: 0,
            },
        )
    } else {
        None
    }
}

/// Why a step of the probe fails, in words: a step that no probe is
/// waiting for is unexpected; a failure of the transport is told in its
/// own words; and a device that answered is told that its profiles cannot
/// be loaded.
pub open spec fn probe_failure(pre: OpenInputDriver, ev: DriverEventModel) -> Seq<char> {
    match ev {
        DriverEventModel::Data(reply) => if pre.stage != ProbeStage::Reading {
            "OpenInput probe: "@ + "unexpected event"@
        } else if reply.len() < 6 {
            "OpenInput probe: "@ + "the reply is too short"@
        } else if reply[1] == OI_PAGE_ERROR {
            "OpenInput device returned error "@ + "on version query"@
        } else {
            "OpenInput driver: "@ + "loading profiles is not supported"@
        },
        DriverEventModel::Failed(e) => error_text(e),
        _ => "OpenInput probe: "@ + "unexpected event"@,
    }
}

/// What a step of the probe does, given the driver before and after it,
/// the event and the action.
pub open spec fn probe_post(
    pre: OpenInputDriver,
    ev: DriverEventModel,
    post: OpenInputDriver,
    r: ActionModel,
) -> bool {
    &&& (r is Failed ==> r == ActionModel::Failed(probe_failure(pre, ev)))
    &&& (ev is Start ==> r == ActionModel::WriteReport(probe_request()) && post.stage
        == ProbeStage::Writing && post.data == pre.data)
    &&& (!(ev is Start) && pre.stage == ProbeStage::Writing && ev is Completed ==> r
        == (ActionModel::ReadReport { len: 8, timeout_ms: None }) && post.stage
        == ProbeStage::Reading && post.data == pre.data)
    &&& (!(ev is Start) && !(pre.stage == ProbeStage::Writing && ev is Completed)
        ==> r is Failed && post.stage == ProbeStage::Idle)
    &&& (!(ev is Start) && pre.stage == ProbeStage::Reading && ev is Data
        && probe_data(ev->Data_0) is Some ==> post.data == probe_data(
        ev->Data_0,
        ))
    &&& (!(ev is Start) && !(pre.stage == ProbeStage::Reading && ev is Data
        && probe_data(ev->Data_0) is Some) ==> post.data == pre.data)
}

/// What a step of a load does, given the driver and the device state
/// before and after it, the event and the action.
pub open spec fn load_post(
    pre: OpenInputDriver,
    before: DeviceModel,
    ev: DriverEventModel,
    post: OpenInputDriver,
    after: DeviceModel,
    r: ActionModel,
) -> bool {
    &&& (r == ActionModel::Failed("OpenInput driver: "@ + "loading profiles is not supported"@))
    &&& (after == before)
    &&& (post == pre)
}

/// What a step of a commit does, given the driver before and after it,
/// the device state, the event and the action.
pub open spec fn commit_post(
    pre: OpenInputDriver,
    info: DeviceModel,
    ev: DriverEventModel,
    post: OpenInputDriver,
    r: ActionModel,
) -> bool {
    &&& (r == ActionModel::Failed("OpenInput driver: "@ + "committing is not supported"@))
    &&& (post == pre)
}

impl OpenInputDriver {
    pub fn new() -> (r: Self)
        ensures
            r.data is None,
            r.stage == ProbeStage::Idle,
    {
        OpenInputDriver { data: None, stage: ProbeStage::Idle }
    }

    /// One step of the probe: the version query is written and one report
    /// is read. A reply that is no error gives the firmware version, which
    /// the driver keeps; the probe fails all the same, since the driver
    /// cannot load profiles.
    pub fn probe_step(&mut self, event: DriverEvent) -> (r: DriverAction)
        ensures
            probe_post(*old(self), event@, *final(self), r@),
    {
        let stage = self.stage;
        self.stage = ProbeStage::Idle;
        match event {
            DriverEvent::Start => {
                let req = build_request(OI_PAGE_INFO, OI_FUNCTION_VERSION);
                let bytes = req.to_short_buf();
                let mut buf: Vec<u8> = Vec::new();
                let mut i: usize = 0;
                while i < 8
                    invariant
                        i <= 8,
                        buf@ == bytes@.subrange(0, i as int),
                    decreases 8 - i,
                {
                    buf.push(bytes[i]);
                    i += 1;
                    assert(buf@ =~= bytes@.subrange(0, i as int));
                }
                assert(buf@ =~= probe_request());
                self.stage = ProbeStage::Writing;
                DriverAction::WriteReport(buf)
            },
            DriverEvent::Completed => {
                if stage == ProbeStage::Writing {
                    self.stage = ProbeStage::Reading;
                    DriverAction::ReadReport { len: 8, timeout_ms: None }
                } else {
                    DriverAction::Failed(text2("OpenInput probe: ", "unexpected event"))
                }
            },
            DriverEvent::Data(reply) => {
                if stage != ProbeStage::Reading {
                    return DriverAction::Failed(text2("OpenInput probe: ", "unexpected event"));
                }
                if reply.len() < 6 {
                    return DriverAction::Failed(text2("OpenInput probe: ", "the reply is too short"));
                }
                if reply[1] == OI_PAGE_ERROR {
                    return DriverAction::Failed(
                        text2("OpenInput device returned error ", "on version query"),
                    );
                }
                self.data = Some(
                    OiData {
                        fw_major: reply[3],
                        fw_minor: reply[4],
                        fw_patch: reply[5],
                        num_profiles: 1,
                        num_resolutions: 1,
                        num_buttons: 0,
                        num_leds: 0,
                        supported: 0,
                    },
                );
                DriverAction::Failed(text2("OpenInput driver: ", "loading profiles is not supported"))
            },
            DriverEvent::Failed(e) => DriverAction::Failed(e.to_string()),
            _ => DriverAction::Failed(text2("OpenInput probe: ", "unexpected event")),
        }
    }

    /// Loading profiles is not supported: the first step fails.
    pub fn load_step(&mut self, info: &mut DeviceInfo, event: DriverEvent) -> (r: DriverAction)
        ensures
            load_post(*old(self), old(info)@, event@, *final(self), final(info)@, r@),
            *final(info) == *old(info),
    {
        DriverAction::Failed(text2("OpenInput driver: ", "loading profiles is not supported"))
    }

    /// Committing is not supported: the first step fails.
    pub fn commit_step(&mut self, info: &DeviceInfo, event: DriverEvent) -> (r: DriverAction)
        ensures
            commit_post(*old(self), info@, event@, *final(self), r@),
    {
        DriverAction::Failed(text2("OpenInput driver: ", "committing is not supported"))
    }
}

impl DeviceDriver for OpenInputDriver {
    fn name(&self) -> (r: &'static str)
        ensures
            r@ == "OpenInput"@,
    {
        "OpenInput"
    }

    fn probe(&mut self, event: DriverEvent) -> (r: DriverAction)
        ensures
            probe_post(*old(self), event@, *final(self), r@),
    {
        self.probe_step(event)
    }

    fn load_profiles(&mut self, info: &mut DeviceInfo, event: DriverEvent) -> (r: DriverAction)
        ensures
            load_post(*old(self), old(info)@, event@, *final(self), final(info)@, r@),
    {
        self.load_step(info, event)
    }

    fn commit(&mut self, info: &DeviceInfo, event: DriverEvent) -> (r: DriverAction)
        ensures
            commit_post(*old(self), info@, event@, *final(self), r@),
    {
        self.commit_step(info, event)
    }
}

} // verus!
