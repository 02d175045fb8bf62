//! The Logitech G600 driver: a mouse with twenty buttons, three profiles,
//! four DPI levels and one LED zone.
//!
//! The report layouts and the probe are in place. Loading and committing
//! profiles are not: the probe confirms that the device answers and then
//! declines it.

use vstd::prelude::*;
use crate::device::{DeviceInfo, DeviceModel};
use crate::driver::{
    error_text, ActionModel, DeviceDriver, DriverAction, DriverEvent, DriverEventModel,
};
use crate::driver::hidpp20_driver::text2;

verus! {

pub const NUM_PROFILES: usize = 3;

/// Twenty buttons, twenty more under G-Shift and one color buffer.
pub const NUM_BUTTONS: usize = 41;

pub const NUM_DPI: usize = 4;

pub const NUM_LED: usize = 1;

pub const DPI_MIN: u32 = 200;

pub const DPI_MAX: u32 = 8200;

pub const REPORT_ID_GET_ACTIVE: u8 = 0xF0;

pub const REPORT_ID_SET_ACTIVE: u8 = 0xF0;

pub const REPORT_ID_PROFILE_0: u8 = 0xF3;

pub const REPORT_ID_PROFILE_1: u8 = 0xF4;

pub const REPORT_ID_PROFILE_2: u8 = 0xF5;

pub const REPORT_SIZE_PROFILE: usize = 154;

pub const LED_SOLID: u8 = 0x00;

pub const LED_BREATHE: u8 = 0x01;

pub const LED_CYCLE: u8 = 0x02;

#[derive(Debug, Clone, Copy, PartialEq, Eq, Structural)]
pub enum ButtonCode {
    MouseButton,
    Key,
    GShift,
    Disabled,
}

impl ButtonCode {
    /// The byte that stands for the action on the wire.
    pub open spec fn spec_code(self) -> u8 {
        match self {
            ButtonCode::MouseButton => 0x00,
            ButtonCode::Key => 0x01,
            ButtonCode::GShift => 0x02,
            ButtonCode::Disabled => 0x0f,
        }
    }

    pub fn code(self) -> (r: u8)
        ensures
            r == self.spec_code(),
    {
        match self {
            ButtonCode::MouseButton => 0x00,
            ButtonCode::Key => 0x01,
            ButtonCode::GShift => 0x02,
            ButtonCode::Disabled => 0x0f,
        }
    }
}

/// One button of a profile report: three bytes.
#[derive(Debug, Clone, Copy, PartialEq, Eq, Structural)]
pub struct ButtonEntry {
    pub code: u8,
    pub modifier: u8,
    pub key: u8,
}

/// A profile report: 154 bytes.
#[derive(Debug, Clone)]
pub struct ProfileReport {
    pub id: u8,
    pub led_red: u8,
    pub led_green: u8,
    pub led_blue: u8,
    pub led_effect: u8,
    pub led_duration: u8,
    pub unknown1: [u8; 5],
    /// The report rate is `1000 / (frequency + 1)` Hz.
    pub frequency: u8,
    /// The DPI under DPI shift, in units of 50; 0 where it is off.
    pub dpi_shift: u8,
    /// The default DPI slot, counted from 1.
    pub dpi_default: u8,
    /// The DPI of each slot, in units of 50; 0 where it is off.
    pub dpi: [u8; 4],
    pub unknown2: [u8; 13],
    pub buttons: [ButtonEntry; 20],
    pub g_shift_color: [u8; 3],
    pub g_shift_buttons: [ButtonEntry; 20],
}

/// The report of the active profile and resolution.
#[derive(Debug, Clone, Copy, PartialEq, Eq, Structural)]
pub struct ActiveProfileReport {
    pub id: u8,
    /// Bits 1 and 2 hold the resolution, bits 4 to 7 the profile.
    pub packed: u8,
    pub unknown3: u8,
    pub unknown4: u8,
}

impl ActiveProfileReport {
    pub open spec fn spec_profile(self) -> u8 {
        (self.packed >> 4) & 0x0f
    }

    pub open spec fn spec_resolution(self) -> u8 {
        (self.packed >> 1) & 0x03
    }

    /// The index of the active profile.
    pub fn profile(&self) -> (r: u8)
        ensures
            r == self.spec_profile(),
            r == self.packed / 16,
    {
        let p = self.packed;
        assert((p >> 4) & 0x0f == p / 16) by (bit_vector);
        (self.packed >> 4) & 0x0f
    }

    /// The index of the active resolution.
    pub fn resolution(&self) -> (r: u8)
        ensures
            r == self.spec_resolution(),
            r == (self.packed / 2) % 4,
    {
        let p = self.packed;
        assert((p >> 1) & 0x03 == (p / 2) % 4) by (bit_vector);
        (self.packed >> 1) & 0x03
    }
}

/// The raw byte that stands for a DPI: defined for the multiples of 50
/// from 200 to 8200.
pub open spec fn raw_of_dpi(dpi: u32) -> Option<u8> {
    if dpi < DPI_MIN || dpi > DPI_MAX || dpi % 50 != 0 {
        None
    } else {
        Some((dpi / 50) as u8)
    }
}

/// Converts a DPI to the raw byte of a profile report.
pub fn dpi_to_raw(dpi: u32) -> (r: Option<u8>)
    ensures
        r == raw_of_dpi(dpi),
{
    if dpi < DPI_MIN || dpi > DPI_MAX || dpi % 50 != 0 {
        return None;
    }
    Some((dpi / 50) as u8)
}

/// Converts the raw byte of a profile report to a DPI.
pub fn raw_to_dpi(raw: u8) -> (r: u32)
    ensures
        r == raw * 50,
{
    (raw as u32) * 50
}

/// A DPI that has a raw byte is what its raw byte stands for.
pub proof fn lemma_dpi_round_trip(dpi: u32)
    requires
        raw_of_dpi(dpi) is Some,
    ensures
        raw_of_dpi(dpi)->0 * 50 == dpi,
{
}

/// The report rate that a frequency byte stands for.
pub open spec fn hz_of_raw(raw: u8) -> u32 {
    if raw == 0 {
        1000
    } else {
        (1000int / (raw as int + 1)) as u32
    }
}

/// Converts the frequency byte of a profile report to Hz.
pub fn raw_to_hz(raw: u8) -> (r: u32)
    ensures
        r == hz_of_raw(raw),
{
    if raw == 0 {
        1000
    } else {
        1000 / (raw as u32 + 1)
    }
}

/// The number of the report that holds a profile.
pub open spec fn profile_report_id(profile: int) -> u8 {
    if profile == 0 {
        REPORT_ID_PROFILE_0
    } else if profile == 1 {
        REPORT_ID_PROFILE_1
    } else {
        REPORT_ID_PROFILE_2
    }
}

pub fn report_id_of_profile(profile: usize) -> (r: u8)
    requires
        profile < NUM_PROFILES,
    ensures
        r == profile_report_id(profile as int),
{
    if profile == 0 {
        REPORT_ID_PROFILE_0
    } else if profile == 1 {
        REPORT_ID_PROFILE_1
    } else {
        REPORT_ID_PROFILE_2
    }
}

/// The device state that the driver keeps after a probe.
#[derive(Debug, Clone)]
pub struct G600Data {
    pub profile_reports: Vec<Option<ProfileReport>>,
    pub active: ActiveProfileReport,
}

/// The Logitech G600 driver.
pub struct LG600Driver {
    pub data: Option<G600Data>,
    /// Whether the probe waits for the device to answer.
    pub probing: bool,
}

/// The query that the probe sends: the report of the active profile.
pub open spec fn probe_query() -> ActionModel {
    ActionModel::GetFeatureReport(seq![REPORT_ID_GET_ACTIVE, 0u8, 0u8, 0u8])
}

/// Why a step of the probe fails, in words: a step that no probe is
/// waiting for is unexpected; a failure of the transport is told in its
/// own words; and a device that answered is told that its profiles cannot
/// be loaded.
pub open spec fn probe_failure(pre: LG600Driver, ev: DriverEventModel) -> Seq<char> {
    match ev {
        DriverEventModel::Data(reply) => if !pre.probing || reply.len() < 4 {
            "Logitech G600 probe: "@ + "unexpected event"@
        } else {
            "Logitech G600 driver: "@ + "loading profiles is not supported"@
        },
        DriverEventModel::Failed(e) => error_text(e),
        _ => "Logitech G600 probe: "@ + "unexpected event"@,
    }
}

/// What a step of the probe does, given the driver before and after it,
/// the event and the action.
pub open spec fn probe_post(
    pre: LG600Driver,
    ev: DriverEventModel,
    post: LG600Driver,
    r: ActionModel,
) -> bool {
    &&& (r is Failed ==> r == ActionModel::Failed(probe_failure(pre, ev)))
    &&& (ev is Start ==> r == probe_query() && post.probing && post.data
        == pre.data)
    &&& (!(ev is Start) ==> r is Failed && !post.probing)
    &&& (!(ev is Start) && pre.probing && ev is Data && ev->Data_0.len() >= 4
        ==> post.data is Some && post.data->0.active == (ActiveProfileReport {
        id: ev->Data_0[0],
        packed: ev->Data_0[1],
        unknown3: ev->Data_0[2],
        unknown4: ev->Data_0[3],
        }))
    &&& (!(ev is Start) && !(pre.probing && ev is Data && ev->Data_0.len() >= 4)
        ==> post.data == pre.data)
}

/// What a step of a load does, given the driver and the device state
/// before and after it, the event and the action.
pub open spec fn load_post(
    pre: LG600Driver,
    before: DeviceModel,
    ev: DriverEventModel,
    post: LG600Driver,
    after: DeviceModel,
    r: ActionModel,
) -> bool {
    &&& (r == ActionModel::Failed("Logitech G600 driver: "@ + "loading profiles is not supported"@))
    &&& (after == before)
    &&& (post.data == pre.data)
}

/// What a step of a commit does, given the driver before and after it,
/// the device state, the event and the action.
pub open spec fn commit_post(
    pre: LG600Driver,
    info: DeviceModel,
    ev: DriverEventModel,
    post: LG600Driver,
    r: ActionModel,
) -> bool {
    &&& (r == ActionModel::Failed("Logitech G600 driver: "@ + "committing is not supported"@))
    &&& (post.data == pre.data)
}

impl LG600Driver {
    pub fn new() -> (r: Self)
        ensures
            r.data is None,
            !r.probing,
    {
        LG600Driver { data: None, probing: false }
    }

    /// One step of the probe: the device is asked for the report of its
    /// active profile, which the driver keeps; the probe fails all the same,
    /// since the driver cannot load profiles.
    pub fn probe_step(&mut self, event: DriverEvent) -> (r: DriverAction)
        ensures
            probe_post(*old(self), event@, *final(self), r@),
    {
        let probing = self.probing;
        self.probing = false;
        match event {
            DriverEvent::Start => {
                self.probing = true;
                let mut buf: Vec<u8> = Vec::new();
                buf.push(REPORT_ID_GET_ACTIVE);
                buf.push(0);
                buf.push(0);
                buf.push(0);
                assert(buf@ =~= seq![REPORT_ID_GET_ACTIVE, 0u8, 0u8, 0u8]);
                DriverAction::GetFeatureReport(buf)
            },
            DriverEvent::Data(reply) => {
                if !probing || reply.len() < 4 {
                    return DriverAction::Failed(text2("Logitech G600 probe: ", "unexpected event"));
                }
                let mut reports: Vec<Option<ProfileReport>> = Vec::new();
                let mut i: usize = 0;
                while i < NUM_PROFILES
                    invariant
                        i <= NUM_PROFILES,
                    decreases NUM_PROFILES - i,
                {
                    reports.push(None);
                    i += 1;
                }
                self.data = Some(
                    G600Data {
                        profile_reports: reports,
                        active: ActiveProfileReport {
                            id: reply[0],
                            packed: reply[1],
                            unknown3: reply[2],
                            unknown4: reply[3],
                        },
                    },
                );
                DriverAction::Failed(
                    text2("Logitech G600 driver: ", "loading profiles is not supported"),
                )
            },
            DriverEvent::Failed(e) => DriverAction::Failed(e.to_string()),
            _ => DriverAction::Failed(text2("Logitech G600 probe: ", "unexpected event")),
        }
    }

    /// Loading profiles is not supported: the first step fails.
    pub fn load_step(&mut self, info: &mut DeviceInfo, event: DriverEvent) -> (r: DriverAction)
        ensures
            load_post(*old(self), old(info)@, event@, *final(self), final(info)@, r@),
            *final(info) == *old(info),
    {
        DriverAction::Failed(text2("Logitech G600 driver: ", "loading profiles is not supported"))
    }

    /// Committing is not supported: the first step fails.
    pub fn commit_step(&mut self, info: &DeviceInfo, event: DriverEvent) -> (r: DriverAction)
        ensures
            commit_post(*old(self), info@, event@, *final(self), r@),
    {
        DriverAction::Failed(text2("Logitech G600 driver: ", "committing is not supported"))
    }
}

impl DeviceDriver for LG600Driver {
    fn name(&self) -> (r: &'static str)
        ensures
            r@ == "Logitech G600"@,
    {
        "Logitech G600"
    }

    fn probe(&mut self, event: DriverEvent) -> (r: DriverAction)
        ensures
            probe_post(*old(self), event@, *final(self), r@),
    {
        self.probe_step(event)
    }

    fn load_profiles(&mut self, info: &mut DeviceInfo, event: DriverEvent) -> (r: DriverAction)
        ensures
            load_post(*old(self), old(info)@, event@, *final(self), final(info)@, r@),
    {
        self.load_step(info, event)
    }

    fn commit(&mut self, info: &DeviceInfo, event: DriverEvent) -> (r: DriverAction)
        ensures
            commit_post(*old(self), info@, event@, *final(self), r@),
    {
        self.commit_step(info, event)
    }
}

} // verus!
