//! The SteelSeries protocols: the reports of the four protocol versions and
//! the button report.
//!
//! The devices do not report most of their settings; what is written is
//! what the host holds.

use vstd::prelude::*;

verus! {

pub const STEELSERIES_NUM_PROFILES: u8 = 1;

pub const STEELSERIES_NUM_DPI: u8 = 2;

pub const STEELSERIES_REPORT_SIZE_SHORT: usize = 32;

pub const STEELSERIES_REPORT_SIZE: usize = 64;

pub const STEELSERIES_REPORT_LONG_SIZE: usize = 262;

pub const STEELSERIES_ID_DPI_SHORT: u8 = 0x03;

pub const STEELSERIES_ID_REPORT_RATE_SHORT: u8 = 0x04;

pub const STEELSERIES_ID_LED_EFFECT_SHORT: u8 = 0x07;

pub const STEELSERIES_ID_LED_COLOR_SHORT: u8 = 0x08;

pub const STEELSERIES_ID_SAVE_SHORT: u8 = 0x09;

pub const STEELSERIES_ID_FIRMWARE_PROTOCOL1: u8 = 0x10;

pub const STEELSERIES_ID_BUTTONS: u8 = 0x31;

pub const STEELSERIES_ID_DPI: u8 = 0x53;

pub const STEELSERIES_ID_REPORT_RATE: u8 = 0x54;

pub const STEELSERIES_ID_LED: u8 = 0x5b;

pub const STEELSERIES_ID_SAVE: u8 = 0x59;

pub const STEELSERIES_ID_FIRMWARE_PROTOCOL2: u8 = 0x90;

pub const STEELSERIES_ID_SETTINGS: u8 = 0x92;

pub const STEELSERIES_ID_DPI_PROTOCOL3: u8 = 0x03;

pub const STEELSERIES_ID_REPORT_RATE_PROTOCOL3: u8 = 0x04;

pub const STEELSERIES_ID_LED_PROTOCOL3: u8 = 0x05;

pub const STEELSERIES_ID_SAVE_PROTOCOL3: u8 = 0x09;

pub const STEELSERIES_ID_FIRMWARE_PROTOCOL3: u8 = 0x10;

pub const STEELSERIES_ID_SETTINGS_PROTOCOL3: u8 = 0x16;

pub const STEELSERIES_ID_DPI_PROTOCOL4: u8 = 0x15;

pub const STEELSERIES_ID_REPORT_RATE_PROTOCOL4: u8 = 0x17;

pub const STEELSERIES_BUTTON_OFF: u8 = 0x00;

pub const STEELSERIES_BUTTON_RES_CYCLE: u8 = 0x30;

pub const STEELSERIES_BUTTON_WHEEL_UP: u8 = 0x31;

pub const STEELSERIES_BUTTON_WHEEL_DOWN: u8 = 0x32;

pub const STEELSERIES_BUTTON_KEY: u8 = 0x10;

pub const STEELSERIES_BUTTON_KBD: u8 = 0x51;

/// The DPI report of protocol 1.
#[derive(Debug, Clone, Copy)]
pub struct SteelseriesDpiReportV1 {
    pub report_id: u8,
    pub res_id: u8,
    pub dpi_scaled: u8,
    pub padding: [u8; 29],
}

impl SteelseriesDpiReportV1 {
    /// The 32 bytes of the report on the wire.
    pub open spec fn bytes(self) -> Seq<u8> {
        Seq::new(
            32,
            |i: int|
                if i == 0 {
                    self.report_id
                } else if i == 1 {
                    self.res_id
                } else if i == 2 {
                    self.dpi_scaled
                } else {
                    0u8
                },
        )
    }

    pub fn new(res_id: u8, dpi_scaled: u8) -> (out: Self)
        ensures
            out.report_id == STEELSERIES_ID_DPI_SHORT,
            out.res_id == res_id,
            out.dpi_scaled == dpi_scaled,
    {
        SteelseriesDpiReportV1 {
            report_id: STEELSERIES_ID_DPI_SHORT,
            res_id,
            dpi_scaled,
            padding: [0u8; 29],
        }
    }

    pub fn into_bytes(self) -> (r: [u8; 32])
        ensures
            r@ == self.bytes(),
    {
        let mut buf = [0u8; 32];
        buf[0] = self.report_id;
        buf[1] = self.res_id;
        buf[2] = self.dpi_scaled;
        assert(buf@ =~= self.bytes());
        buf
    }
}

/// The DPI report of protocol 2.
#[derive(Debug, Clone, Copy)]
pub struct SteelseriesDpiReportV2 {
    pub report_id: u8,
    pub padding1: u8,
    pub res_id: u8,
    pub dpi_scaled: u8,
    pub padding2: [u8; 2],
    pub magic_42: u8,
    pub padding3: [u8; 57],
}

impl SteelseriesDpiReportV2 {
    /// The 64 bytes of the report on the wire.
    pub open spec fn bytes(self) -> Seq<u8> {
        Seq::new(
            64,
            |i: int|
                if i == 0 {
                    self.report_id
                } else if i == 2 {
                    self.res_id
                } else if i == 3 {
                    self.dpi_scaled
                } else if i == 6 {
                    self.magic_42
                } else {
                    0u8
                },
        )
    }

    pub fn new(res_id: u8, dpi_scaled: u8) -> (out: Self)
        ensures
            out.report_id == STEELSERIES_ID_DPI,
            out.padding1 == 0,
            out.res_id == res_id,
            out.dpi_scaled == dpi_scaled,
            out.magic_42 == 0x42,
    {
        SteelseriesDpiReportV2 {
            report_id: STEELSERIES_ID_DPI,
            padding1: 0,
            res_id,
            dpi_scaled,
            padding2: [0u8; 2],
            magic_42: 0x42,
            padding3: [0u8; 57],
        }
    }

    pub fn into_bytes(self) -> (r: [u8; 64])
        ensures
            r@ == self.bytes(),
    {
        let mut buf = [0u8; 64];
        buf[0] = self.report_id;
        buf[2] = self.res_id;
        buf[3] = self.dpi_scaled;
        buf[6] = self.magic_42;
        assert(buf@ =~= self.bytes());
        buf
    }
}

/// The DPI report of protocol 3.
#[derive(Debug, Clone, Copy)]
pub struct SteelseriesDpiReportV3 {
    pub report_id: u8,
    pub padding1: u8,
    pub res_id: u8,
    pub dpi_scaled: u8,
    pub padding2: u8,
    pub magic_42: u8,
    pub padding3: [u8; 58],
}

impl SteelseriesDpiReportV3 {
    /// The 64 bytes of the report on the wire.
    pub open spec fn bytes(self) -> Seq<u8> {
        Seq::new(
            64,
            |i: int|
                if i == 0 {
                    self.report_id
                } else if i == 2 {
                    self.res_id
                } else if i == 3 {
                    self.dpi_scaled
                } else if i == 5 {
                    self.magic_42
                } else {
                    0u8
                },
        )
    }

    pub fn new(res_id: u8, dpi_scaled: u8) -> (out: Self)
        ensures
            out.report_id == STEELSERIES_ID_DPI_PROTOCOL3,
            out.padding1 == 0,
            out.res_id == res_id,
            out.dpi_scaled == dpi_scaled,
            out.padding2 == 0,
            out.magic_42 == 0x42,
    {
        SteelseriesDpiReportV3 {
            report_id: STEELSERIES_ID_DPI_PROTOCOL3,
            padding1: 0,
            res_id,
            dpi_scaled,
            padding2: 0,
            magic_42: 0x42,
            padding3: [0u8; 58],
        }
    }

    pub fn into_bytes(self) -> (r: [u8; 64])
        ensures
            r@ == self.bytes(),
    {
        let mut buf = [0u8; 64];
        buf[0] = self.report_id;
        buf[2] = self.res_id;
        buf[3] = self.dpi_scaled;
        buf[5] = self.magic_42;
        assert(buf@ =~= self.bytes());
        buf
    }
}

/// The DPI report of protocol 4.
#[derive(Debug, Clone, Copy)]
pub struct SteelseriesDpiReportV4 {
    pub report_id: u8,
    pub res_id: u8,
    pub dpi_scaled: u8,
    pub padding: [u8; 29],
}

impl SteelseriesDpiReportV4 {
    /// The 32 bytes of the report on the wire.
    pub open spec fn bytes(self) -> Seq<u8> {
        Seq::new(
            32,
            |i: int|
                if i == 0 {
                    self.report_id
                } else if i == 1 {
                    self.res_id
                } else if i == 2 {
                    self.dpi_scaled
                } else {
                    0u8
                },
        )
    }

    pub fn new(res_id: u8, dpi_scaled: u8) -> (out: Self)
        ensures
            out.report_id == STEELSERIES_ID_DPI_PROTOCOL4,
            out.res_id == res_id,
            out.dpi_scaled == dpi_scaled,
    {
        SteelseriesDpiReportV4 {
            report_id: STEELSERIES_ID_DPI_PROTOCOL4,
            res_id,
            dpi_scaled,
            padding: [0u8; 29],
        }
    }

    pub fn into_bytes(self) -> (r: [u8; 32])
        ensures
            r@ == self.bytes(),
    {
        let mut buf = [0u8; 32];
        buf[0] = self.report_id;
        buf[1] = self.res_id;
        buf[2] = self.dpi_scaled;
        assert(buf@ =~= self.bytes());
        buf
    }
}

/// The report rate report of protocol 1.
#[derive(Debug, Clone, Copy)]
pub struct SteelseriesReportRateV1 {
    pub report_id: u8,
    pub padding1: u8,
    pub rate_val: u8,
    pub padding2: [u8; 29],
}

impl SteelseriesReportRateV1 {
    /// The 32 bytes of the report on the wire.
    pub open spec fn bytes(self) -> Seq<u8> {
        Seq::new(
            32,
            |i: int|
                if i == 0 {
                    self.report_id
                } else if i == 2 {
                    self.rate_val
                } else {
                    0u8
                },
        )
    }

    pub fn new(rate_val: u8) -> (out: Self)
        ensures
            out.report_id == STEELSERIES_ID_REPORT_RATE_SHORT,
            out.padding1 == 0,
            out.rate_val == rate_val,
    {
        SteelseriesReportRateV1 {
            report_id: STEELSERIES_ID_REPORT_RATE_SHORT,
            padding1: 0,
            rate_val,
            padding2: [0u8; 29],
        }
    }

    pub fn into_bytes(self) -> (r: [u8; 32])
        ensures
            r@ == self.bytes(),
    {
        let mut buf = [0u8; 32];
        buf[0] = self.report_id;
        buf[2] = self.rate_val;
        assert(buf@ =~= self.bytes());
        buf
    }
}

/// The report rate report of protocol 2.
#[derive(Debug, Clone, Copy)]
pub struct SteelseriesReportRateV2 {
    pub report_id: u8,
    pub padding1: u8,
    pub rate_val: u8,
    pub padding2: [u8; 61],
}

impl SteelseriesReportRateV2 {
    /// The 64 bytes of the report on the wire.
    pub open spec fn bytes(self) -> Seq<u8> {
        Seq::new(
            64,
            |i: int|
                if i == 0 {
                    self.report_id
                } else if i == 2 {
                    self.rate_val
                } else {
                    0u8
                },
        )
    }

    pub fn new(rate_val: u8) -> (out: Self)
        ensures
            out.report_id == STEELSERIES_ID_REPORT_RATE,
            out.padding1 == 0,
            out.rate_val == rate_val,
    {
        SteelseriesReportRateV2 {
            report_id: STEELSERIES_ID_REPORT_RATE,
            padding1: 0,
            rate_val,
            padding2: [0u8; 61],
        }
    }

    pub fn into_bytes(self) -> (r: [u8; 64])
        ensures
            r@ == self.bytes(),
    {
        let mut buf = [0u8; 64];
        buf[0] = self.report_id;
        buf[2] = self.rate_val;
        assert(buf@ =~= self.bytes());
        buf
    }
}

/// The report rate report of protocol 3.
#[derive(Debug, Clone, Copy)]
pub struct SteelseriesReportRateV3 {
    pub report_id: u8,
    pub padding1: u8,
    pub rate_val: u8,
    pub padding2: [u8; 61],
}

impl SteelseriesReportRateV3 {
    /// The 64 bytes of the report on the wire.
    pub open spec fn bytes(self) -> Seq<u8> {
        Seq::new(
            64,
            |i: int|
                if i == 0 {
                    self.report_id
                } else if i == 2 {
                    self.rate_val
                } else {
                    0u8
                },
        )
    }

    pub fn new(rate_val: u8) -> (out: Self)
        ensures
            out.report_id == STEELSERIES_ID_REPORT_RATE_PROTOCOL3,
            out.padding1 == 0,
            out.rate_val == rate_val,
    {
        SteelseriesReportRateV3 {
            report_id: STEELSERIES_ID_REPORT_RATE_PROTOCOL3,
            padding1: 0,
            rate_val,
            padding2: [0u8; 61],
        }
    }

    pub fn into_bytes(self) -> (r: [u8; 64])
        ensures
            r@ == self.bytes(),
    {
        let mut buf = [0u8; 64];
        buf[0] = self.report_id;
        buf[2] = self.rate_val;
        assert(buf@ =~= self.bytes());
        buf
    }
}

/// The report rate report of protocol 4.
#[derive(Debug, Clone, Copy)]
pub struct SteelseriesReportRateV4 {
    pub report_id: u8,
    pub padding1: u8,
    pub rate_val: u8,
    pub padding2: [u8; 29],
}

impl SteelseriesReportRateV4 {
    /// The 32 bytes of the report on the wire.
    pub open spec fn bytes(self) -> Seq<u8> {
        Seq::new(
            32,
            |i: int|
                if i == 0 {
                    self.report_id
                } else if i == 2 {
                    self.rate_val
                } else {
                    0u8
                },
        )
    }

    pub fn new(rate_val: u8) -> (out: Self)
        ensures
            out.report_id == STEELSERIES_ID_REPORT_RATE_PROTOCOL4,
            out.padding1 == 0,
            out.rate_val == rate_val,
    {
        SteelseriesReportRateV4 {
            report_id: STEELSERIES_ID_REPORT_RATE_PROTOCOL4,
            padding1: 0,
            rate_val,
            padding2: [0u8; 29],
        }
    }

    pub fn into_bytes(self) -> (r: [u8; 32])
        ensures
            r@ == self.bytes(),
    {
        let mut buf = [0u8; 32];
        buf[0] = self.report_id;
        buf[2] = self.rate_val;
        assert(buf@ =~= self.bytes());
        buf
    }
}

/// The report of protocol 1 that saves the settings in the device.
#[derive(Debug, Clone, Copy)]
pub struct SteelseriesSaveV1 {
    pub report_id: u8,
    pub padding: [u8; 31],
}

impl SteelseriesSaveV1 {
    /// The 32 bytes of the report on the wire.
    pub open spec fn bytes(self) -> Seq<u8> {
        Seq::new(
            32,
            |i: int|
                if i == 0 {
                    self.report_id
                } else {
                    0u8
                },
        )
    }

    pub fn new() -> (out: Self)
        ensures
            out.report_id == STEELSERIES_ID_SAVE_SHORT,
    {
        SteelseriesSaveV1 {
            report_id: STEELSERIES_ID_SAVE_SHORT,
            padding: [0u8; 31],
        }
    }

    pub fn into_bytes(self) -> (r: [u8; 32])
        ensures
            r@ == self.bytes(),
    {
        let mut buf = [0u8; 32];
        buf[0] = self.report_id;
        assert(buf@ =~= self.bytes());
        buf
    }
}

/// The report of protocol 2 that saves the settings in the device.
#[derive(Debug, Clone, Copy)]
pub struct SteelseriesSaveV2 {
    pub report_id: u8,
    pub padding: [u8; 63],
}

impl SteelseriesSaveV2 {
    /// The 64 bytes of the report on the wire.
    pub open spec fn bytes(self) -> Seq<u8> {
        Seq::new(
            64,
            |i: int|
                if i == 0 {
                    self.report_id
                } else {
                    0u8
                },
        )
    }

    pub fn new() -> (out: Self)
        ensures
            out.report_id == STEELSERIES_ID_SAVE,
    {
        SteelseriesSaveV2 {
            report_id: STEELSERIES_ID_SAVE,
            padding: [0u8; 63],
        }
    }

    pub fn into_bytes(self) -> (r: [u8; 64])
        ensures
            r@ == self.bytes(),
    {
        let mut buf = [0u8; 64];
        buf[0] = self.report_id;
        assert(buf@ =~= self.bytes());
        buf
    }
}

/// The report of protocol 3 that saves the settings in the device.
#[derive(Debug, Clone, Copy)]
pub struct SteelseriesSaveV3 {
    pub report_id: u8,
    pub padding: [u8; 63],
}

impl SteelseriesSaveV3 {
    /// The 64 bytes of the report on the wire.
    pub open spec fn bytes(self) -> Seq<u8> {
        Seq::new(
            64,
            |i: int|
                if i == 0 {
                    self.report_id
                } else {
                    0u8
                },
        )
    }

    pub fn new() -> (out: Self)
        ensures
            out.report_id == STEELSERIES_ID_SAVE_PROTOCOL3,
    {
        SteelseriesSaveV3 {
            report_id: STEELSERIES_ID_SAVE_PROTOCOL3,
            padding: [0u8; 63],
        }
    }

    pub fn into_bytes(self) -> (r: [u8; 64])
        ensures
            r@ == self.bytes(),
    {
        let mut buf = [0u8; 64];
        buf[0] = self.report_id;
        assert(buf@ =~= self.bytes());
        buf
    }
}

/// The report of protocol 1 that asks for the firmware version.
#[derive(Debug, Clone, Copy)]
pub struct SteelseriesFirmwareRequestV1 {
    pub report_id: u8,
    pub padding: [u8; 31],
}

impl SteelseriesFirmwareRequestV1 {
    /// The 32 bytes of the report on the wire.
    pub open spec fn bytes(self) -> Seq<u8> {
        Seq::new(
            32,
            |i: int|
                if i == 0 {
                    self.report_id
                } else {
                    0u8
                },
        )
    }

    pub fn new() -> (out: Self)
        ensures
            out.report_id == STEELSERIES_ID_FIRMWARE_PROTOCOL1,
    {
        SteelseriesFirmwareRequestV1 {
            report_id: STEELSERIES_ID_FIRMWARE_PROTOCOL1,
            padding: [0u8; 31],
        }
    }

    pub fn into_bytes(self) -> (r: [u8; 32])
        ensures
            r@ == self.bytes(),
    {
        let mut buf = [0u8; 32];
        buf[0] = self.report_id;
        assert(buf@ =~= self.bytes());
        buf
    }
}

/// The report of protocol 2 that asks for the firmware version.
#[derive(Debug, Clone, Copy)]
pub struct SteelseriesFirmwareRequestV2 {
    pub report_id: u8,
    pub padding: [u8; 63],
}

impl SteelseriesFirmwareRequestV2 {
    /// The 64 bytes of the report on the wire.
    pub open spec fn bytes(self) -> Seq<u8> {
        Seq::new(
            64,
            |i: int|
                if i == 0 {
                    self.report_id
                } else {
                    0u8
                },
        )
    }

    pub fn new() -> (out: Self)
        ensures
            out.report_id == STEELSERIES_ID_FIRMWARE_PROTOCOL2,
    {
        SteelseriesFirmwareRequestV2 {
            report_id: STEELSERIES_ID_FIRMWARE_PROTOCOL2,
            padding: [0u8; 63],
        }
    }

    pub fn into_bytes(self) -> (r: [u8; 64])
        ensures
            r@ == self.bytes(),
    {
        let mut buf = [0u8; 64];
        buf[0] = self.report_id;
        assert(buf@ =~= self.bytes());
        buf
    }
}

/// The report of protocol 3 that asks for the firmware version.
#[derive(Debug, Clone, Copy)]
pub struct SteelseriesFirmwareRequestV3 {
    pub report_id: u8,
    pub padding: [u8; 63],
}

impl SteelseriesFirmwareRequestV3 {
    /// The 64 bytes of the report on the wire.
    pub open spec fn bytes(self) -> Seq<u8> {
        Seq::new(
            64,
            |i: int|
                if i == 0 {
                    self.report_id
                } else {
                    0u8
                },
        )
    }

    pub fn new() -> (out: Self)
        ensures
            out.report_id == STEELSERIES_ID_FIRMWARE_PROTOCOL3,
    {
        SteelseriesFirmwareRequestV3 {
            report_id: STEELSERIES_ID_FIRMWARE_PROTOCOL3,
            padding: [0u8; 63],
        }
    }

    pub fn into_bytes(self) -> (r: [u8; 64])
        ensures
            r@ == self.bytes(),
    {
        let mut buf = [0u8; 64];
        buf[0] = self.report_id;
        assert(buf@ =~= self.bytes());
        buf
    }
}

/// The LED effect report of protocol 1.
#[derive(Debug, Clone, Copy)]
pub struct SteelseriesLedEffectReportV1 {
    pub report_id: u8,
    pub led_id: u8,
    pub effect: u8,
    pub padding: [u8; 29],
}

impl SteelseriesLedEffectReportV1 {
    /// The 32 bytes of the report on the wire.
    pub open spec fn bytes(self) -> Seq<u8> {
        Seq::new(
            32,
            |i: int|
                if i == 0 {
                    self.report_id
                } else if i == 1 {
                    self.led_id
                } else if i == 2 {
                    self.effect
                } else {
                    0u8
                },
        )
    }

    pub fn new(led_id: u8, effect: u8) -> (out: Self)
        ensures
            out.report_id == STEELSERIES_ID_LED_EFFECT_SHORT,
            out.led_id == led_id,
            out.effect == effect,
    {
        SteelseriesLedEffectReportV1 {
            report_id: STEELSERIES_ID_LED_EFFECT_SHORT,
            led_id,
            effect,
            padding: [0u8; 29],
        }
    }

    pub fn into_bytes(self) -> (r: [u8; 32])
        ensures
            r@ == self.bytes(),
    {
        let mut buf = [0u8; 32];
        buf[0] = self.report_id;
        buf[1] = self.led_id;
        buf[2] = self.effect;
        assert(buf@ =~= self.bytes());
        buf
    }
}

/// The LED color report of protocol 1.
#[derive(Debug, Clone, Copy)]
pub struct SteelseriesLedColorReportV1 {
    pub report_id: u8,
    pub led_id: u8,
    pub r: u8,
    pub g: u8,
    pub b: u8,
    pub padding: [u8; 27],
}

impl SteelseriesLedColorReportV1 {
    /// The 32 bytes of the report on the wire.
    pub open spec fn bytes(self) -> Seq<u8> {
        Seq::new(
            32,
            |i: int|
                if i == 0 {
                    self.report_id
                } else if i == 1 {
                    self.led_id
                } else if i == 2 {
                    self.r
                } else if i == 3 {
                    self.g
                } else if i == 4 {
                    self.b
                } else {
                    0u8
                },
        )
    }

    pub fn new(led_id: u8, r: u8, g: u8, b: u8) -> (out: Self)
        ensures
            out.report_id == STEELSERIES_ID_LED_COLOR_SHORT,
            out.led_id == led_id,
            out.r == r,
            out.g == g,
            out.b == b,
    {
        SteelseriesLedColorReportV1 {
            report_id: STEELSERIES_ID_LED_COLOR_SHORT,
            led_id,
            r,
            g,
            b,
            padding: [0u8; 27],
        }
    }

    pub fn into_bytes(self) -> (r: [u8; 32])
        ensures
            r@ == self.bytes(),
    {
        let mut buf = [0u8; 32];
        buf[0] = self.report_id;
        buf[1] = self.led_id;
        buf[2] = self.r;
        buf[3] = self.g;
        buf[4] = self.b;
        assert(buf@ =~= self.bytes());
        buf
    }
}

/// One stop of an LED effect: a color and its position in the cycle.
#[derive(Debug, Clone, Copy, PartialEq, Eq, Structural)]
pub struct SteelseriesLedPoint {
    pub r: u8,
    pub g: u8,
    pub b: u8,
    pub pos: u8,
}

/// The byte at position `k` of the stops of an LED effect laid out one
/// after the other, four bytes each.
pub open spec fn point_byte(points: Seq<SteelseriesLedPoint>, k: int) -> u8 {
    let p = points[k / 4];
    if k % 4 == 0 {
        p.r
    } else if k % 4 == 1 {
        p.g
    } else if k % 4 == 2 {
        p.b
    } else {
        p.pos
    }
}

/// The LED report of protocol 2.
#[derive(Debug, Clone, Copy)]
pub struct SteelseriesLedReportV2 {
    pub report_id: u8,
    pub padding1: u8,
    pub led_id: u8,
    /// Low byte first.
    pub duration: [u8; 2],
    pub padding2: [u8; 14],
    pub disable_repeat: u8,
    pub padding3: [u8; 7],
    pub npoints: u8,
    pub points: [SteelseriesLedPoint; 9],
}

impl SteelseriesLedReportV2 {
    /// The 64 bytes of the report on the wire.
    pub open spec fn bytes(self) -> Seq<u8> {
        Seq::new(
            64,
            |i: int|
                if i == 0 {
                    self.report_id
                } else if i == 1 {
                    self.padding1
                } else if i == 2 {
                    self.led_id
                } else if i < 5 {
                    self.duration@[i - 3]
                } else if i < 19 {
                    self.padding2@[i - 5]
                } else if i == 19 {
                    self.disable_repeat
                } else if i < 27 {
                    self.padding3@[i - 20]
                } else if i == 27 {
                    self.npoints
                } else {
                    point_byte(self.points@, i - 28)
                },
        )
    }

    pub fn new() -> (r: Self)
        ensures
            r.report_id == STEELSERIES_ID_LED,
            r.padding1 == 0,
            r.led_id == 0,
            r.disable_repeat == 0,
            r.npoints == 0,
            r.duration@ == seq![0u8, 0u8],
            forall|i: int| 0 <= i < 14 ==> r.padding2@[i] == 0,
            forall|i: int| 0 <= i < 7 ==> r.padding3@[i] == 0,
            forall|i: int|
                0 <= i < 9 ==> r.points@[i] == (SteelseriesLedPoint { r: 0, g: 0, b: 0, pos: 0 }),
    {
        let zero = SteelseriesLedPoint { r: 0, g: 0, b: 0, pos: 0 };
        let r = SteelseriesLedReportV2 {
            report_id: STEELSERIES_ID_LED,
            padding1: 0,
            led_id: 0,
            duration: [0u8; 2],
            padding2: [0u8; 14],
            disable_repeat: 0,
            padding3: [0u8; 7],
            npoints: 0,
            points: [zero, zero, zero, zero, zero, zero, zero, zero, zero],
        };
        assert(r.duration@ =~= seq![0u8, 0u8]);
        r
    }

    pub fn into_bytes(self) -> (r: [u8; 64])
        ensures
            r@ == self.bytes(),
    {
        let mut buf = [0u8; 64];
        buf[0] = self.report_id;
        buf[1] = self.padding1;
        buf[2] = self.led_id;
        buf[3] = self.duration[0];
        buf[4] = self.duration[1];
        let mut i: usize = 0;
        while i < 14
            invariant
                i <= 14,
                forall|k: int| 0 <= k < 5 ==> buf@[k] == self.bytes()[k],
                forall|k: int| 0 <= k < i ==> buf@[5 + k] == self.padding2@[k],
            decreases 14 - i,
        {
            buf[5 + i] = self.padding2[i];
            i += 1;
        }
        buf[19] = self.disable_repeat;
        let mut i: usize = 0;
        while i < 7
            invariant
                i <= 7,
                forall|k: int| 0 <= k < 20 ==> buf@[k] == self.bytes()[k],
                forall|k: int| 0 <= k < i ==> buf@[20 + k] == self.padding3@[k],
            decreases 7 - i,
        {
            buf[20 + i] = self.padding3[i];
            i += 1;
        }
        buf[27] = self.npoints;
        let mut j: usize = 0;
        while j < 9
            invariant
                j <= 9,
                forall|k: int| 0 <= k < 28 ==> buf@[k] == self.bytes()[k],
                forall|k: int| 0 <= k < 4 * j ==> buf@[28 + k] == point_byte(self.points@, k),
            decreases 9 - j,
        {
            let p = self.points[j];
            buf[28 + 4 * j] = p.r;
            buf[28 + 4 * j + 1] = p.g;
            buf[28 + 4 * j + 2] = p.b;
            buf[28 + 4 * j + 3] = p.pos;
            assert forall|k: int| 0 <= k < 4 * (j + 1) implies buf@[28 + k] == point_byte(
                self.points@,
                k,
            ) by {
                if k >= 4 * j {
                    assert(k / 4 == j as int);
                }
            }
            j += 1;
        }
        assert(buf@ =~= self.bytes());
        buf
    }
}

/// The LED report of protocol 3.
#[derive(Debug, Clone, Copy)]
pub struct SteelseriesLedReportV3 {
    pub report_id: u8,
    pub padding1: u8,
    pub led_id: u8,
    pub padding2: [u8; 4],
    pub led_id2: u8,
    /// Low byte first.
    pub duration: [u8; 2],
    pub padding3: [u8; 14],
    pub disable_repeat: u8,
    pub padding4: [u8; 4],
    pub npoints: u8,
    pub points: [SteelseriesLedPoint; 8],
    pub padding5: [u8; 2],
}

impl SteelseriesLedReportV3 {
    /// The 64 bytes of the report on the wire.
    pub open spec fn bytes(self) -> Seq<u8> {
        Seq::new(
            64,
            |i: int|
                if i == 0 {
                    self.report_id
                } else if i == 1 {
                    self.padding1
                } else if i == 2 {
                    self.led_id
                } else if i < 7 {
                    self.padding2@[i - 3]
                } else if i == 7 {
                    self.led_id2
                } else if i < 10 {
                    self.duration@[i - 8]
                } else if i < 24 {
                    self.padding3@[i - 10]
                } else if i == 24 {
                    self.disable_repeat
                } else if i < 29 {
                    self.padding4@[i - 25]
                } else if i == 29 {
                    self.npoints
                } else if i < 62 {
                    point_byte(self.points@, i - 30)
                } else {
                    self.padding5@[i - 62]
                },
        )
    }

    pub fn new() -> (r: Self)
        ensures
            r.report_id == STEELSERIES_ID_LED_PROTOCOL3,
            r.padding1 == 0,
            r.led_id == 0,
            r.led_id2 == 0,
            r.disable_repeat == 0,
            r.npoints == 0,
            r.duration@ == seq![0u8, 0u8],
            forall|i: int| 0 <= i < 4 ==> r.padding2@[i] == 0 && r.padding4@[i] == 0,
            forall|i: int| 0 <= i < 14 ==> r.padding3@[i] == 0,
            forall|i: int| 0 <= i < 2 ==> r.padding5@[i] == 0,
            forall|i: int|
                0 <= i < 8 ==> r.points@[i] == (SteelseriesLedPoint { r: 0, g: 0, b: 0, pos: 0 }),
    {
        let zero = SteelseriesLedPoint { r: 0, g: 0, b: 0, pos: 0 };
        let r = SteelseriesLedReportV3 {
            report_id: STEELSERIES_ID_LED_PROTOCOL3,
            padding1: 0,
            led_id: 0,
            padding2: [0u8; 4],
            led_id2: 0,
            duration: [0u8; 2],
            padding3: [0u8; 14],
            disable_repeat: 0,
            padding4: [0u8; 4],
            npoints: 0,
            points: [zero, zero, zero, zero, zero, zero, zero, zero],
            padding5: [0u8; 2],
        };
        assert(r.duration@ =~= seq![0u8, 0u8]);
        r
    }

    pub fn into_bytes(self) -> (r: [u8; 64])
        ensures
            r@ == self.bytes(),
    {
        let mut buf = [0u8; 64];
        buf[0] = self.report_id;
        buf[1] = self.padding1;
        buf[2] = self.led_id;
        buf[3] = self.padding2[0];
        buf[4] = self.padding2[1];
        buf[5] = self.padding2[2];
        buf[6] = self.padding2[3];
        buf[7] = self.led_id2;
        buf[8] = self.duration[0];
        buf[9] = self.duration[1];
        let mut i: usize = 0;
        while i < 14
            invariant
                i <= 14,
                forall|k: int| 0 <= k < 10 ==> buf@[k] == self.bytes()[k],
                forall|k: int| 0 <= k < i ==> buf@[10 + k] == self.padding3@[k],
            decreases 14 - i,
        {
            buf[10 + i] = self.padding3[i];
            i += 1;
        }
        buf[24] = self.disable_repeat;
        buf[25] = self.padding4[0];
        buf[26] = self.padding4[1];
        buf[27] = self.padding4[2];
        buf[28] = self.padding4[3];
        buf[29] = self.npoints;
        let mut j: usize = 0;
        while j < 8
            invariant
                j <= 8,
                forall|k: int| 0 <= k < 30 ==> buf@[k] == self.bytes()[k],
                forall|k: int| 0 <= k < 4 * j ==> buf@[30 + k] == point_byte(self.points@, k),
            decreases 8 - j,
        {
            let p = self.points[j];
            buf[30 + 4 * j] = p.r;
            buf[30 + 4 * j + 1] = p.g;
            buf[30 + 4 * j + 2] = p.b;
            buf[30 + 4 * j + 3] = p.pos;
            assert forall|k: int| 0 <= k < 4 * (j + 1) implies buf@[30 + k] == point_byte(
                self.points@,
                k,
            ) by {
                if k >= 4 * j {
                    assert(k / 4 == j as int);
                }
            }
            j += 1;
        }
        buf[62] = self.padding5[0];
        buf[63] = self.padding5[1];
        assert(buf@ =~= self.bytes());
        buf
    }
}

/// The button report: the report number, one reserved byte and 260 bytes
/// that hold the buttons.
#[derive(Debug, Clone, Copy)]
pub struct SteelseriesButtonReport {
    pub report_id: u8,
    pub padding: u8,
    pub buttons: [u8; 260],
}

impl SteelseriesButtonReport {
    /// The 262 bytes of the report on the wire.
    pub open spec fn bytes(self) -> Seq<u8> {
        seq![self.report_id, self.padding] + self.buttons@
    }

    pub fn new() -> (r: Self)
        ensures
            r.report_id == STEELSERIES_ID_BUTTONS,
            r.padding == 0,
            forall|i: int| 0 <= i < 260 ==> r.buttons@[i] == 0,
    {
        SteelseriesButtonReport { report_id: STEELSERIES_ID_BUTTONS, padding: 0, buttons: [0u8; 260] }
    }

    pub fn into_bytes(self) -> (r: [u8; 262])
        ensures
            r@ == self.bytes(),
    {
        let mut b = [0u8; 262];
        b[0] = self.report_id;
        b[1] = self.padding;
        let mut i: usize = 0;
        while i < 260
            invariant
                i <= 260,
                b@[0] == self.report_id,
                b@[1] == self.padding,
                forall|k: int| 0 <= k < i ==> b@[2 + k] == self.buttons@[k],
            decreases 260 - i,
        {
            b[2 + i] = self.buttons[i];
            i += 1;
        }
        assert(b@ =~= self.bytes());
        b
    }

    /// Writes `val` at position `idx` of the wire format; a position
    /// outside the buttons is ignored.
    pub fn write_idx(&mut self, idx: usize, val: u8)
        ensures
            final(self).bytes() == (if 2 <= idx < 262 {
                old(self).bytes().update(idx as int, val)
            } else {
                old(self).bytes()
            }),
            final(self).report_id == old(self).report_id,
            final(self).padding == old(self).padding,
    {
        if idx >= 2 && idx < 262 {
            self.buttons[idx - 2] = val;
            assert(self.bytes() =~= old(self).bytes().update(idx as int, val));
        }
    }
}

/// The report that asks the device for its settings; protocols 2 and 3
/// have one.
#[derive(Debug, Clone, Copy)]
pub struct SteelseriesSettingsRequest {
    pub report_id: u8,
    pub padding: [u8; 63],
}

impl SteelseriesSettingsRequest {
    /// The 64 bytes of the report on the wire.
    pub open spec fn bytes(self) -> Seq<u8> {
        Seq::new(64, |i: int| if i == 0 { self.report_id } else { 0u8 })
    }

    /// The report number of the request of a protocol version.
    pub open spec fn id_of_version(version: u8) -> Option<u8> {
        if version == 2 {
            Some(STEELSERIES_ID_SETTINGS)
        } else if version == 3 {
            Some(STEELSERIES_ID_SETTINGS_PROTOCOL3)
        } else {
            None
        }
    }

    pub fn new(version: u8) -> (r: Option<Self>)
        ensures
            match Self::id_of_version(version) {
                Some(id) => r is Some && r->0.report_id == id,
                None => r is None,
            },
    {
        let id = if version == 2 {
            STEELSERIES_ID_SETTINGS
        } else if version == 3 {
            STEELSERIES_ID_SETTINGS_PROTOCOL3
        } else {
            return None;
        };
        Some(SteelseriesSettingsRequest { report_id: id, padding: [0u8; 63] })
    }

    pub fn into_bytes(self) -> (r: [u8; 64])
        ensures
            r@ == self.bytes(),
    {
        let mut buf = [0u8; 64];
        buf[0] = self.report_id;
        assert(buf@ =~= self.bytes());
        buf
    }
}

} // verus!
