//! The SinoWealth driver, for the Glorious Model O, the G-Wolves Skoll, the
//! Genesis Xenon 770, the DreamMachines DM5 and similar mice.
//!
//! The report layouts and the probe are in place. Loading and committing
//! profiles are not: the probe confirms that the device answers and then
//! declines it.

use vstd::prelude::*;
use crate::device::{DeviceInfo, DeviceModel};
use crate::driver::{
    error_text, ActionModel, DeviceDriver, DriverAction, DriverEvent, DriverEventModel,
};
use crate::driver::hidpp20_driver::text2;

verus! {

#[derive(Debug, Clone, Copy, PartialEq, Eq, Structural)]
pub enum ReportId {
    Config,
    Cmd,
    ConfigLong,
}

impl ReportId {
    /// The report number on the wire.
    pub open spec fn spec_code(self) -> u8 {
        match self {
            ReportId::Config => 0x04,
            ReportId::Cmd => 0x05,
            ReportId::ConfigLong => 0x06,
        }
    }

    pub fn code(self) -> (r: u8)
        ensures
            r == self.spec_code(),
    {
        match self {
            ReportId::Config => 0x04,
            ReportId::Cmd => 0x05,
            ReportId::ConfigLong => 0x06,
        }
    }
}

#[derive(Debug, Clone, Copy, PartialEq, Eq, Structural)]
pub enum CommandId {
    FirmwareVersion,
    Profile,
    GetConfig,
    GetButtons,
    Debounce,
    LongAngleSnappingAndLod,
    GetConfig2,
    GetButtons2,
    Macro,
    GetConfig3,
    GetButtons3,
    Dfu,
}

impl CommandId {
    /// The command number on the wire.
    pub open spec fn spec_code(self) -> u8 {
        match self {
            CommandId::FirmwareVersion => 0x01,
            CommandId::Profile => 0x02,
            CommandId::GetConfig => 0x11,
            CommandId::GetButtons => 0x12,
            CommandId::Debounce => 0x1a,
            CommandId::LongAngleSnappingAndLod => 0x1b,
            CommandId::GetConfig2 => 0x21,
            CommandId::GetButtons2 => 0x22,
            CommandId::Macro => 0x30,
            CommandId::GetConfig3 => 0x31,
            CommandId::GetButtons3 => 0x32,
            CommandId::Dfu => 0x75,
        }
    }

    pub fn code(self) -> (r: u8)
        ensures
            r == self.spec_code(),
    {
        match self {
            CommandId::FirmwareVersion => 0x01,
            CommandId::Profile => 0x02,
            CommandId::GetConfig => 0x11,
            CommandId::GetButtons => 0x12,
            CommandId::Debounce => 0x1a,
            CommandId::LongAngleSnappingAndLod => 0x1b,
            CommandId::GetConfig2 => 0x21,
            CommandId::GetButtons2 => 0x22,
            CommandId::Macro => 0x30,
            CommandId::GetConfig3 => 0x31,
            CommandId::GetButtons3 => 0x32,
            CommandId::Dfu => 0x75,
        }
    }
}

/// The size of a command report.
pub const SINOWEALTH_CMD_SIZE: usize = 6;

pub const SINOWEALTH_CONFIG_REPORT_SIZE: usize = 520;

/// The longest configuration payload.
pub const SINOWEALTH_CONFIG_SIZE_MAX: usize = 167;

/// The configuration payload of devices with the shorter configuration.
pub const SINOWEALTH_CONFIG_SIZE_MIN: usize = 123;

pub const SINOWEALTH_BUTTON_SIZE: usize = 88;

pub const SINOWEALTH_MACRO_SIZE: usize = 515;

pub const SINOWEALTH_DPI_MIN: u32 = 100;

pub const SINOWEALTH_DPI_STEP: u32 = 100;

/// The DPI that is assumed where the device states no range.
pub const SINOWEALTH_DPI_FALLBACK: u32 = 2000;

pub const SINOWEALTH_DEBOUNCE_MIN: u32 = 4;

pub const SINOWEALTH_DEBOUNCE_MAX: u32 = 16;

pub const SINOWEALTH_NUM_DPIS: usize = 8;

pub const SINOWEALTH_NUM_PROFILES_MAX: usize = 3;

pub const SINOWEALTH_NUM_BUTTONS_MAX: usize = 64;

pub const SINOWEALTH_MACRO_LENGTH_MAX: usize = 168;

pub const SINOWEALTH_MACRO_MAX_TIMEOUT: u8 = 0xff;

/// Bit 3 of the configuration byte: the axes have DPI values of their own.
pub const SINOWEALTH_XY_INDEPENDENT: u8 = 0x08;

/// The debounce times that the device accepts, in milliseconds.
pub open spec fn debounce_times() -> Seq<u32> {
    seq![4u32, 6u32, 8u32, 10u32, 12u32, 14u32, 16u32]
}

/// The report rates that the device accepts, in Hz.
pub open spec fn report_rates() -> Seq<u32> {
    seq![125u32, 250u32, 500u32, 1000u32]
}

pub fn sinowealth_debounce_times() -> (r: Vec<u32>)
    ensures
        r@ == debounce_times(),
{
    let mut v: Vec<u32> = Vec::new();
    v.push(4);
    v.push(6);
    v.push(8);
    v.push(10);
    v.push(12);
    v.push(14);
    v.push(16);
    assert(v@ =~= debounce_times());
    v
}

pub fn sinowealth_report_rates() -> (r: Vec<u32>)
    ensures
        r@ == report_rates(),
{
    let mut v: Vec<u32> = Vec::new();
    v.push(125);
    v.push(250);
    v.push(500);
    v.push(1000);
    assert(v@ =~= report_rates());
    v
}

#[derive(Debug, Clone, Copy, PartialEq, Eq, Structural)]
pub enum Sensor {
    Pmw3360,
    Pmw3212,
    Pmw3327,
    Pmw3389,
}

impl Sensor {
    /// The number of the sensor on the wire.
    pub open spec fn spec_code(self) -> u8 {
        match self {
            Sensor::Pmw3360 => 0x06,
            Sensor::Pmw3212 => 0x08,
            Sensor::Pmw3327 => 0x0e,
            Sensor::Pmw3389 => 0x0f,
        }
    }

    pub fn code(self) -> (r: u8)
        ensures
            r == self.spec_code(),
    {
        match self {
            Sensor::Pmw3360 => 0x06,
            Sensor::Pmw3212 => 0x08,
            Sensor::Pmw3327 => 0x0e,
            Sensor::Pmw3389 => 0x0f,
        }
    }
}

#[derive(Debug, Clone, Copy, PartialEq, Eq, Structural)]
pub enum RgbEffect {
    Off,
    Glorious,
    /// One constant color.
    Single,
    /// Breathing with seven colors.
    Breathing7,
    Tail,
    /// Breathing through all colors.
    Breathing,
    /// Each LED has a constant color of its own.
    Constant,
    Rave,
    Random,
    Wave,
    /// Breathing with one color.
    Breathing1,
    /// What a device without LEDs states; it must not be overwritten.
    NotSupported,
}

impl RgbEffect {
    /// The number of the effect on the wire.
    pub open spec fn spec_code(self) -> u8 {
        match self {
            RgbEffect::Off => 0x00,
            RgbEffect::Glorious => 0x01,
            RgbEffect::Single => 0x02,
            RgbEffect::Breathing7 => 0x03,
            RgbEffect::Tail => 0x04,
            RgbEffect::Breathing => 0x05,
            RgbEffect::Constant => 0x06,
            RgbEffect::Rave => 0x07,
            RgbEffect::Random => 0x08,
            RgbEffect::Wave => 0x09,
            RgbEffect::Breathing1 => 0x0a,
            RgbEffect::NotSupported => 0xff,
        }
    }

    pub fn code(self) -> (r: u8)
        ensures
            r == self.spec_code(),
    {
        match self {
            RgbEffect::Off => 0x00,
            RgbEffect::Glorious => 0x01,
            RgbEffect::Single => 0x02,
            RgbEffect::Breathing7 => 0x03,
            RgbEffect::Tail => 0x04,
            RgbEffect::Breathing => 0x05,
            RgbEffect::Constant => 0x06,
            RgbEffect::Rave => 0x07,
            RgbEffect::Random => 0x08,
            RgbEffect::Wave => 0x09,
            RgbEffect::Breathing1 => 0x0a,
            RgbEffect::NotSupported => 0xff,
        }
    }
}

/// One DPI slot of the configuration report.
#[derive(Debug, Clone, Copy, PartialEq, Eq, Structural)]
pub struct DpiSlot {
    pub raw_x: u8,
    /// Used where the axes have DPI values of their own.
    pub raw_y: u8,
    pub enabled: bool,
}

/// The device state that the driver keeps after a probe.
#[derive(Debug, Clone)]
pub struct SinoweathData {
    pub firmware_version: [u8; 2],
    pub config_raw: Vec<u8>,
    pub active_profile: u8,
    /// Which of the two configuration sizes the firmware uses.
    pub config_size: usize,
}

/// The SinoWealth driver.
pub struct SinowealhDriver {
    pub data: Option<SinoweathData>,
    /// Whether the probe waits for the device to answer.
    pub probing: bool,
}

/// The DPI that a raw byte stands for.
pub open spec fn dpi_of_raw(raw: u8) -> u32 {
    ((raw + 1) * 100) as u32
}

/// Converts a raw DPI byte to a DPI.
pub fn raw_to_dpi(raw: u8) -> (r: u32)
    ensures
        r == dpi_of_raw(raw),
{
    (raw as u32 + 1) * SINOWEALTH_DPI_STEP
}

/// The raw byte that stands for a DPI: the number of steps of 100 in it,
/// less one; defined from 100 on, as far as the byte reaches.
pub open spec fn raw_of_dpi(dpi: u32) -> Option<u8> {
    if dpi < SINOWEALTH_DPI_MIN || dpi / SINOWEALTH_DPI_STEP - 1 > 255 {
        None
    } else {
        Some((dpi / SINOWEALTH_DPI_STEP - 1) as u8)
    }
}

/// Converts a DPI to the raw byte that the device expects.
pub fn dpi_to_raw(dpi: u32) -> (r: Option<u8>)
    ensures
        r == raw_of_dpi(dpi),
{
    if dpi < SINOWEALTH_DPI_MIN {
        return None;
    }
    let raw = dpi / SINOWEALTH_DPI_STEP - 1;
    if raw > 255 {
        None
    } else {
        Some(raw as u8)
    }
}

/// A multiple of 100 that has a raw byte is what its raw byte stands for.
pub proof fn lemma_dpi_round_trip(dpi: u32)
    requires
        raw_of_dpi(dpi) is Some,
        dpi % 100 == 0,
    ensures
        dpi_of_raw(raw_of_dpi(dpi)->0) == dpi,
{
}

/// The bytes of a command report: the report number of commands, the
/// command, and four zero bytes.
pub open spec fn cmd_bytes(cmd: CommandId) -> Seq<u8> {
    seq![ReportId::Cmd.spec_code(), cmd.spec_code(), 0u8, 0u8, 0u8, 0u8]
}

/// Builds a command report.
pub fn build_cmd(cmd_id: CommandId) -> (r: [u8; 6])
    ensures
        r@ == cmd_bytes(cmd_id),
{
    let mut buf = [0u8; 6];
    buf[0] = ReportId::Cmd.code();
    buf[1] = cmd_id.code();
    assert(buf@ =~= cmd_bytes(cmd_id));
    buf
}

/// Why a step of the probe fails, in words: a step that no probe is
/// waiting for is unexpected; a failure of the transport is told in its
/// own words; and a device that answered is told that its profiles cannot
/// be loaded.
pub open spec fn probe_failure(pre: SinowealhDriver, ev: DriverEventModel) -> Seq<char> {
    match ev {
        DriverEventModel::Data(reply) => if !pre.probing || reply.len() < 4 {
            "SinoWealth probe: "@ + "unexpected event"@
        } else {
            "SinoWealth driver: "@ + "loading profiles is not supported"@
        },
        DriverEventModel::Failed(e) => error_text(e),
        _ => "SinoWealth probe: "@ + "unexpected event"@,
    }
}

/// What a step of the probe does, given the driver before and after it,
/// the event and the action.
pub open spec fn probe_post(
    pre: SinowealhDriver,
    ev: DriverEventModel,
    post: SinowealhDriver,
    r: ActionModel,
) -> bool {
    &&& (r is Failed ==> r == ActionModel::Failed(probe_failure(pre, ev)))
    &&& (ev is Start ==> r == ActionModel::GetFeatureReport(
        cmd_bytes(CommandId::FirmwareVersion),
        ) && post.probing && post.data == pre.data)
    &&& (!(ev is Start) ==> r is Failed && !post.probing)
    &&& (!(ev is Start) && pre.probing && ev is Data && ev->Data_0.len() >= 4
        ==> post.data is Some && post.data->0.firmware_version@ == seq![
        ev->Data_0[2],
        ev->Data_0[3],
        ] && post.data->0.config_size == SINOWEALTH_CONFIG_SIZE_MAX
        && post.data->0.active_profile == 0)
    &&& (!(ev is Start) && !(pre.probing && ev is Data && ev->Data_0.len() >= 4)
        ==> post.data == pre.data)
}

/// What a step of a load does, given the driver and the device state
/// before and after it, the event and the action.
pub open spec fn load_post(
    pre: SinowealhDriver,
    before: DeviceModel,
    ev: DriverEventModel,
    post: SinowealhDriver,
    after: DeviceModel,
    r: ActionModel,
) -> bool {
    &&& (r == ActionModel::Failed("SinoWealth driver: "@ + "loading profiles is not supported"@))
    &&& (after == before)
    &&& (post.data == pre.data)
}

/// What a step of a commit does, given the driver before and after it,
/// the device state, the event and the action.
pub open spec fn commit_post(
    pre: SinowealhDriver,
    info: DeviceModel,
    ev: DriverEventModel,
    post: SinowealhDriver,
    r: ActionModel,
) -> bool {
    &&& (r == ActionModel::Failed("SinoWealth driver: "@ + "committing is not supported"@))
    &&& (post.data == pre.data)
}

impl SinowealhDriver {
    pub fn new() -> (r: Self)
        ensures
            r.data is None,
            !r.probing,
    {
        SinowealhDriver { data: None, probing: false }
    }

    /// One step of the probe: the device is asked for its firmware version,
    /// which the driver keeps; the probe fails all the same, since the
    /// driver cannot load profiles.
    pub fn probe_step(&mut self, event: DriverEvent) -> (r: DriverAction)
        ensures
            probe_post(*old(self), event@, *final(self), r@),
    {
        let probing = self.probing;
        self.probing = false;
        match event {
            DriverEvent::Start => {
                self.probing = true;
                let cmd = build_cmd(CommandId::FirmwareVersion);
                let mut buf: Vec<u8> = Vec::new();
                let mut i: usize = 0;
                while i < 6
                    invariant
                        i <= 6,
                        buf@ == cmd@.subrange(0, i as int),
                    decreases 6 - i,
                {
                    buf.push(cmd[i]);
                    i += 1;
                    assert(buf@ =~= cmd@.subrange(0, i as int));
                }
                assert(cmd@.subrange(0, 6) =~= cmd@);
                DriverAction::GetFeatureReport(buf)
            },
            DriverEvent::Data(reply) => {
                if !probing || reply.len() < 4 {
                    return DriverAction::Failed(text2("SinoWealth probe: ", "unexpected event"));
                }
                let version = [reply[2], reply[3]];
                assert(version@ =~= seq![reply@[2], reply@[3]]);
                let mut config: Vec<u8> = Vec::new();
                let mut i: usize = 0;
                while i < SINOWEALTH_CONFIG_REPORT_SIZE
                    invariant
                        i <= SINOWEALTH_CONFIG_REPORT_SIZE,
                    decreases SINOWEALTH_CONFIG_REPORT_SIZE - i,
                {
                    config.push(0);
                    i += 1;
                }
                self.data = Some(
                    SinoweathData {
                        firmware_version: version,
                        config_raw: config,
                        active_profile: 0,
                        config_size: SINOWEALTH_CONFIG_SIZE_MAX,
                    },
                );
                DriverAction::Failed(
                    text2("SinoWealth driver: ", "loading profiles is not supported"),
                )
            },
            DriverEvent::Failed(e) => DriverAction::Failed(e.to_string()),
            _ => DriverAction::Failed(text2("SinoWealth probe: ", "unexpected event")),
        }
    }

    /// Loading profiles is not supported: the first step fails.
    pub fn load_step(&mut self, info: &mut DeviceInfo, event: DriverEvent) -> (r: DriverAction)
        ensures
            load_post(*old(self), old(info)@, event@, *final(self), final(info)@, r@),
            *final(info) == *old(info),
    {
        DriverAction::Failed(text2("SinoWealth driver: ", "loading profiles is not supported"))
    }

    /// Committing is not supported: the first step fails.
    pub fn commit_step(&mut self, info: &DeviceInfo, event: DriverEvent) -> (r: DriverAction)
        ensures
            commit_post(*old(self), info@, event@, *final(self), r@),
    {
        DriverAction::Failed(text2("SinoWealth driver: ", "committing is not supported"))
    }
}

impl DeviceDriver for SinowealhDriver {
    fn name(&self) -> (r: &'static str)
        ensures
            r@ == "SinoWealth"@,
    {
        "SinoWealth"
    }

    fn probe(&mut self, event: DriverEvent) -> (r: DriverAction)
        ensures
            probe_post(*old(self), event@, *final(self), r@),
    {
        self.probe_step(event)
    }

    fn load_profiles(&mut self, info: &mut DeviceInfo, event: DriverEvent) -> (r: DriverAction)
        ensures
            load_post(*old(self), old(info)@, event@, *final(self), final(info)@, r@),
    {
        self.load_step(info, event)
    }

    fn commit(&mut self, info: &DeviceInfo, event: DriverEvent) -> (r: DriverAction)
        ensures
            commit_post(*old(self), info@, event@, *final(self), r@),
    {
        self.commit_step(info, event)
    }
}

} // verus!
