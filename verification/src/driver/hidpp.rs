//! Framing shared by HID++ 1.0 and 2.0: the short and the long report, error
//! replies, the sector checksum and the LED zone payload.
//!
//! A short report has 7 bytes: marker `0x10`, device index, sub-id, three
//! parameter bytes and one reserved byte. A long report has 20 bytes: marker
//! `0x11`, device index, sub-id, address and sixteen parameter bytes.

use vstd::prelude::*;
use crate::device::{LedInfo, LedMode, LedModel, clamp_byte};

verus! {

pub const REPORT_ID_SHORT: u8 = 0x10;

pub const REPORT_ID_LONG: u8 = 0x11;

pub const SHORT_REPORT_LEN: usize = 7;

pub const LONG_REPORT_LEN: usize = 20;

/// Sub-id of an error reply in a short report.
pub const HIDPP10_ERROR: u8 = 0x8F;

/// Sub-id of an error reply in a long report.
pub const HIDPP20_ERROR: u8 = 0xFF;

pub const DEVICE_IDX_WIRED: u8 = 0x00;

pub const DEVICE_IDX_CORDED: u8 = 0x00;

pub const DEVICE_IDX_RECEIVER: u8 = 0xFF;

pub const PAGE_DEVICE_NAME: u16 = 0x0005;

pub const PAGE_SPECIAL_KEYS_BUTTONS: u16 = 0x1B04;

pub const PAGE_ADJUSTABLE_DPI: u16 = 0x2201;

pub const PAGE_ADJUSTABLE_REPORT_RATE: u16 = 0x8060;

pub const PAGE_COLOR_LED_EFFECTS: u16 = 0x8070;

pub const PAGE_RGB_EFFECTS: u16 = 0x8071;

pub const PAGE_ONBOARD_PROFILES: u16 = 0x8100;

/// The root feature always has index 0.
pub const ROOT_FEATURE_INDEX: u8 = 0x00;

pub const ROOT_FN_GET_FEATURE: u8 = 0x00;

pub const ROOT_FN_GET_PROTOCOL_VERSION: u8 = 0x01;

pub const LED_HW_MODE_OFF: u8 = 0x00;

pub const LED_HW_MODE_FIXED: u8 = 0x01;

pub const LED_HW_MODE_CYCLE: u8 = 0x03;

pub const LED_HW_MODE_COLOR_WAVE: u8 = 0x04;

pub const LED_HW_MODE_STARLIGHT: u8 = 0x05;

pub const LED_HW_MODE_BREATHING: u8 = 0x0A;

pub const LED_PAYLOAD_SIZE: usize = 11;

pub const BUTTON_TYPE_MACRO: u8 = 0x00;

pub const BUTTON_TYPE_HID: u8 = 0x80;

pub const BUTTON_TYPE_SPECIAL: u8 = 0x90;

pub const BUTTON_TYPE_DISABLED: u8 = 0xFF;

pub const BUTTON_SUBTYPE_MOUSE: u8 = 0x01;

pub const BUTTON_SUBTYPE_KEYBOARD: u8 = 0x02;

pub const BUTTON_SUBTYPE_CONSUMER: u8 = 0x03;

/// The 16-bit number whose big-endian bytes are `hi`, `lo`.
pub open spec fn be16(hi: u8, lo: u8) -> u16 {
    (hi as int * 256 + lo as int) as u16
}

pub fn u16_from_be(hi: u8, lo: u8) -> (r: u16)
    ensures
        r == be16(hi, lo),
{
    (hi as u16) * 256 + (lo as u16)
}

/// The high byte of `x`.
pub open spec fn hi8(x: u16) -> u8 {
    (x / 256) as u8
}

/// The low byte of `x`.
pub open spec fn lo8(x: u16) -> u8 {
    (x % 256) as u8
}

pub fn u16_hi(x: u16) -> (r: u8)
    ensures
        r == hi8(x),
{
    (x / 256) as u8
}

pub fn u16_lo(x: u16) -> (r: u8)
    ensures
        r == lo8(x),
{
    (x % 256) as u8
}

/// Splitting a number into its two bytes and joining them gives it back.
pub proof fn lemma_be16_round_trip(x: u16, hi: u8, lo: u8)
    ensures
        be16(hi8(x), lo8(x)) == x,
        hi8(be16(hi, lo)) == hi,
        lo8(be16(hi, lo)) == lo,
{
}

/// A parsed HID++ report.
#[derive(Debug, Clone, PartialEq, Eq)]
pub enum HidppReport {
    Short { device_index: u8, sub_id: u8, params: [u8; 3] },
    Long { device_index: u8, sub_id: u8, address: u8, params: [u8; 16] },
}

/// The mathematical value of a [`HidppReport`].
pub enum ReportModel {
    Short { device_index: u8, sub_id: u8, params: Seq<u8> },
    Long { device_index: u8, sub_id: u8, address: u8, params: Seq<u8> },
}

impl View for HidppReport {
    type V = ReportModel;

    open spec fn view(&self) -> ReportModel {
        match self {
            HidppReport::Short { device_index, sub_id, params } => ReportModel::Short {
                device_index: *device_index,
                sub_id: *sub_id,
                params: params@,
            },
            HidppReport::Long { device_index, sub_id, address, params } => ReportModel::Long {
                device_index: *device_index,
                sub_id: *sub_id,
                address: *address,
                params: params@,
            },
        }
    }
}

/// What a raw buffer reads as. The first byte alone picks the shape; a
/// buffer of fewer than 7 bytes, a long marker on fewer than 20 bytes, and
/// any other first byte are no HID++ report.
pub open spec fn parse_report(buf: Seq<u8>) -> Option<ReportModel> {
    if buf.len() < 7 {
        None
    } else if buf[0] == REPORT_ID_SHORT {
        Some(ReportModel::Short { device_index: buf[1], sub_id: buf[2], params: buf.subrange(3, 6) })
    } else if buf[0] == REPORT_ID_LONG && buf.len() >= 20 {
        Some(
            ReportModel::Long {
                device_index: buf[1],
                sub_id: buf[2],
                address: buf[3],
                params: buf.subrange(4, 20),
            },
        )
    } else {
        None
    }
}

/// The view of a parse result.
pub open spec fn report_view(r: Option<HidppReport>) -> Option<ReportModel> {
    match r {
        Some(x) => Some(x@),
        None => None,
    }
}

impl ReportModel {
    /// An error reply: a short report with sub-id `0x8F` or a long report
    /// with sub-id `0xFF`.
    pub open spec fn is_error(self) -> bool {
        match self {
            ReportModel::Short { sub_id, .. } => sub_id == HIDPP10_ERROR,
            ReportModel::Long { sub_id, .. } => sub_id == HIDPP20_ERROR,
        }
    }

    /// A long report from the given device for the given feature.
    pub open spec fn matches_hidpp20(self, dev: u8, feature: u8) -> bool {
        match self {
            ReportModel::Long { device_index, sub_id, .. } => device_index == dev && sub_id
                == feature,
            _ => false,
        }
    }

    /// The code of an error reply from the given device to a request for
    /// the given feature: in a long report the error sub-id stands where the
    /// feature index would, the feature index follows it and the code is the
    /// second parameter; in a short report the feature index is the first
    /// parameter and the code is the third.
    pub open spec fn error_code(self, dev: u8, feature: u8) -> Option<u8> {
        match self {
            ReportModel::Long { device_index, sub_id, address, params } => if device_index == dev
                && sub_id == HIDPP20_ERROR && address == feature && params.len() == 16 {
                Some(params[1])
            } else {
                None
            },
            ReportModel::Short { device_index, sub_id, params } => if device_index == dev && sub_id
                == HIDPP10_ERROR && params.len() == 3 && params[0] == feature {
                Some(params[2])
            } else {
                None
            },
        }
    }
}

impl HidppReport {
    /// Reads a raw buffer as a report; `None` for anything that is no HID++
    /// report, which the caller treats as noise on the channel.
    pub fn parse(buf: &[u8]) -> (r: Option<Self>)
        ensures
            report_view(r) == parse_report(buf@),
    {
        if buf.len() < 7 {
            return None;
        }
        if buf[0] == REPORT_ID_SHORT {
            let params = [buf[3], buf[4], buf[5]];
            assert(params@ =~= buf@.subrange(3, 6));
            Some(HidppReport::Short { device_index: buf[1], sub_id: buf[2], params })
        } else if buf[0] == REPORT_ID_LONG && buf.len() >= 20 {
            let mut params = [0u8; 16];
            let mut i: usize = 0;
            while i < 16
                invariant
                    i <= 16,
                    buf@.len() >= 20,
                    forall|k: int| 0 <= k < i ==> params@[k] == buf@[4 + k],
                decreases 16 - i,
            {
                params[i] = buf[4 + i];
                i += 1;
            }
            assert(params@ =~= buf@.subrange(4, 20));
            Some(
                HidppReport::Long { device_index: buf[1], sub_id: buf[2], address: buf[3], params },
            )
        } else {
            None
        }
    }

    pub fn is_error(&self) -> (r: bool)
        ensures
            r == self@.is_error(),
    {
        match self {
            HidppReport::Short { sub_id, .. } => *sub_id == HIDPP10_ERROR,
            HidppReport::Long { sub_id, .. } => *sub_id == HIDPP20_ERROR,
        }
    }

    pub fn matches_hidpp20(&self, expected_dev: u8, expected_feature: u8) -> (r: bool)
        ensures
            r == self@.matches_hidpp20(expected_dev, expected_feature),
    {
        match self {
            HidppReport::Long { device_index, sub_id, .. } => *device_index == expected_dev
                && *sub_id == expected_feature,
            _ => false,
        }
    }

    pub fn hidpp20_error_code(&self, expected_dev: u8, expected_feature: u8) -> (r: Option<u8>)
        ensures
            r == self@.error_code(expected_dev, expected_feature),
    {
        match self {
            HidppReport::Long { device_index, sub_id, address, params } => {
                if *device_index == expected_dev && *sub_id == HIDPP20_ERROR && *address
                    == expected_feature {
                    Some(params[1])
                } else {
                    None
                }
            },
            HidppReport::Short { device_index, sub_id, params } => {
                if *device_index == expected_dev && *sub_id == HIDPP10_ERROR && params[0]
                    == expected_feature {
                    Some(params[2])
                } else {
                    None
                }
            },
        }
    }
}

/// An error reply is an error whatever request it answers.
pub proof fn lemma_error_code_is_error(r: ReportModel, dev: u8, feature: u8)
    requires
        r.error_code(dev, feature) is Some,
    ensures
        r.is_error(),
{
}

/// The bytes of a short report.
pub open spec fn short_report_bytes(device_index: u8, sub_id: u8, params: Seq<u8>) -> Seq<u8> {
    seq![REPORT_ID_SHORT, device_index, sub_id, params[0], params[1], params[2], 0u8]
}

/// Builds a 7-byte short report.
pub fn build_short_report(device_index: u8, sub_id: u8, params: [u8; 3]) -> (r: [u8; 7])
    ensures
        r@ == short_report_bytes(device_index, sub_id, params@),
{
    let r = [REPORT_ID_SHORT, device_index, sub_id, params[0], params[1], params[2], 0x00];
    assert(r@ =~= short_report_bytes(device_index, sub_id, params@));
    r
}

/// The fourth byte of a feature request: the function in the high half,
/// the software id in the low half.
pub open spec fn function_byte(function: u8, sw_id: u8) -> u8 {
    (function << 4) | (sw_id & 0x0F)
}

/// The bytes of a feature request: marker, device index, feature index,
/// function byte, then up to 16 parameter bytes, zero-padded to 20 bytes.
pub open spec fn hidpp20_request_bytes(
    device_index: u8,
    feature_index: u8,
    function: u8,
    sw_id: u8,
    params: Seq<u8>,
) -> Seq<u8> {
    Seq::new(
        20,
        |i: int|
            if i == 0 {
                REPORT_ID_LONG
            } else if i == 1 {
                device_index
            } else if i == 2 {
                feature_index
            } else if i == 3 {
                function_byte(function, sw_id)
            } else if i - 4 < params.len() {
                params[i - 4]
            } else {
                0u8
            },
    )
}

/// Builds a HID++ 2.0 feature request. Parameters beyond the sixteenth are
/// dropped.
pub fn build_hidpp20_request(
    device_index: u8,
    feature_index: u8,
    function: u8,
    sw_id: u8,
    params: &[u8],
) -> (r: [u8; 20])
    ensures
        r@ == hidpp20_request_bytes(device_index, feature_index, function, sw_id, params@),
{
    let mut buf = [0u8; 20];
    buf[0] = REPORT_ID_LONG;
    buf[1] = device_index;
    buf[2] = feature_index;
    buf[3] = (function << 4) | (sw_id & 0x0F);
    let copy_len = if params.len() < 16 {
        params.len()
    } else {
        16
    };
    let mut i: usize = 0;
    while i < copy_len
        invariant
            i <= copy_len <= 16,
            copy_len <= params@.len(),
            buf@[0] == REPORT_ID_LONG,
            buf@[1] == device_index,
            buf@[2] == feature_index,
            buf@[3] == function_byte(function, sw_id),
            forall|k: int| 0 <= k < i ==> buf@[4 + k] == params@[k],
            forall|k: int| 4 + i <= k < 20 ==> buf@[k] == 0,
        decreases copy_len - i,
    {
        buf[4 + i] = params[i];
        i += 1;
    }
    assert(buf@ =~= hidpp20_request_bytes(device_index, feature_index, function, sw_id, params@));
    buf
}

/// A short report that was built parses back to its fields.
pub proof fn lemma_short_report_round_trip(device_index: u8, sub_id: u8, params: Seq<u8>)
    requires
        params.len() == 3,
    ensures
        parse_report(short_report_bytes(device_index, sub_id, params)) == Some(
            ReportModel::Short { device_index, sub_id, params },
        ),
{
    let b = short_report_bytes(device_index, sub_id, params);
    assert(b.subrange(3, 6) =~= params);
}

/// One step of the CRC-CCITT computation: the checksum after one more byte.
pub open spec fn crc_step(crc: u16, byte: u8) -> u16 {
    let temp: u16 = (crc >> 8) ^ (byte as u16);
    let quick: u16 = temp ^ (temp >> 4);
    (crc << 8) ^ quick ^ (quick << 5) ^ (quick << 12)
}

/// The CRC-CCITT checksum of `data`: polynomial `0x1021`, seed `0xFFFF`,
/// the bytes taken in order.
pub open spec fn crc_ccitt(data: Seq<u8>) -> u16
    decreases data.len(),
{
    if data.len() == 0 {
        0xFFFFu16
    } else {
        crc_step(crc_ccitt(data.drop_last()), data.last())
    }
}

/// Computes the CRC-CCITT checksum of `data`.
pub fn compute_ccitt_crc(data: &[u8]) -> (r: u16)
    ensures
        r == crc_ccitt(data@),
{
    let mut crc: u16 = 0xFFFF;
    let mut i: usize = 0;
    while i < data.len()
        invariant
            i <= data.len(),
            crc == crc_ccitt(data@.subrange(0, i as int)),
        decreases data.len() - i,
    {
        let temp: u16 = (crc >> 8) ^ (data[i] as u16);
        let quick: u16 = temp ^ (temp >> 4);
        proof {
            assert(data@.subrange(0, i + 1).drop_last() =~= data@.subrange(0, i as int));
        }
        crc = (crc << 8) ^ quick ^ (quick << 5) ^ (quick << 12);
        i += 1;
    }
    assert(data@.subrange(0, data.len() as int) =~= data@);
    crc
}

/// `data` followed by its checksum, high byte first.
pub open spec fn with_crc(data: Seq<u8>) -> Seq<u8> {
    data + seq![hi8(crc_ccitt(data)), lo8(crc_ccitt(data))]
}

/// Whether the last two bytes of `sector` are the checksum, high byte
/// first, of the bytes before them. A sector of fewer than two bytes holds
/// no checksum.
pub open spec fn sector_crc_ok(sector: Seq<u8>) -> bool {
    sector.len() >= 2 && crc_ccitt(sector.subrange(0, sector.len() - 2)) == be16(
        sector[sector.len() - 2],
        sector[sector.len() - 1],
    )
}

/// For one byte, different checksums before it give different checksums
/// after it.
pub proof fn lemma_crc_step_injective_in_crc(a: u16, b: u16, byte: u8)
    requires
        a != b,
    ensures
        crc_step(a, byte) != crc_step(b, byte),
{
    assert(a != b ==> ({
        let ta: u16 = (a >> 8) ^ (byte as u16);
        let qa: u16 = ta ^ (ta >> 4);
        (a << 8) ^ qa ^ (qa << 5) ^ (qa << 12)
    }) != ({
        let tb: u16 = (b >> 8) ^ (byte as u16);
        let qb: u16 = tb ^ (tb >> 4);
        (b << 8) ^ qb ^ (qb << 5) ^ (qb << 12)
    })) by (bit_vector);
}

/// From one checksum, different bytes lead to different checksums.
pub proof fn lemma_crc_step_injective_in_byte(crc: u16, x: u8, y: u8)
    requires
        x != y,
    ensures
        crc_step(crc, x) != crc_step(crc, y),
{
    assert(x != y ==> ({
        let ta: u16 = (crc >> 8) ^ (x as u16);
        let qa: u16 = ta ^ (ta >> 4);
        (crc << 8) ^ qa ^ (qa << 5) ^ (qa << 12)
    }) != ({
        let tb: u16 = (crc >> 8) ^ (y as u16);
        let qb: u16 = tb ^ (tb >> 4);
        (crc << 8) ^ qb ^ (qb << 5) ^ (qb << 12)
    })) by (bit_vector);
}

/// Two sequences of one length that end alike but have different checksums
/// at some earlier point keep different checksums.
proof fn lemma_crc_diverged(a: Seq<u8>, b: Seq<u8>, k: int)
    requires
        a.len() == b.len(),
        0 <= k <= a.len(),
        crc_ccitt(a.subrange(0, k)) != crc_ccitt(b.subrange(0, k)),
        forall|i: int| k <= i < a.len() ==> a[i] == b[i],
    ensures
        crc_ccitt(a) != crc_ccitt(b),
    decreases a.len() - k,
{
    if k == a.len() {
        assert(a.subrange(0, k) =~= a);
        assert(b.subrange(0, k) =~= b);
    } else {
        assert(a.subrange(0, k + 1).drop_last() =~= a.subrange(0, k));
        assert(b.subrange(0, k + 1).drop_last() =~= b.subrange(0, k));
        lemma_crc_step_injective_in_crc(
            crc_ccitt(a.subrange(0, k)),
            crc_ccitt(b.subrange(0, k)),
            a[k],
        );
        lemma_crc_diverged(a, b, k + 1);
    }
}

/// Changing one byte of the data changes the checksum.
pub proof fn lemma_crc_detects_single_byte_change(a: Seq<u8>, b: Seq<u8>, k: int)
    requires
        a.len() == b.len(),
        0 <= k < a.len(),
        a[k] != b[k],
        forall|i: int| 0 <= i < a.len() && i != k ==> a[i] == b[i],
    ensures
        crc_ccitt(a) != crc_ccitt(b),
{
    assert(a.subrange(0, k) =~= b.subrange(0, k));
    assert(a.subrange(0, k + 1).drop_last() =~= a.subrange(0, k));
    assert(b.subrange(0, k + 1).drop_last() =~= b.subrange(0, k));
    lemma_crc_step_injective_in_byte(crc_ccitt(a.subrange(0, k)), a[k], b[k]);
    lemma_crc_diverged(a, b, k + 1);
}

/// Flipping bit `bit` of a byte.
pub open spec fn flip_bit(x: u8, bit: u8) -> u8 {
    x ^ (1u8 << bit)
}

/// Data with its checksum appended verifies; with any single bit of the
/// data flipped it no longer does.
pub proof fn lemma_crc_round_trip(data: Seq<u8>, k: int, bit: u8)
    ensures
        sector_crc_ok(with_crc(data)),
        0 <= k < data.len() && bit < 8 ==> !sector_crc_ok(
            data.update(k, flip_bit(data[k], bit)) + seq![
                hi8(crc_ccitt(data)),
                lo8(crc_ccitt(data)),
            ],
        ),
{
    let crc = crc_ccitt(data);
    let s = with_crc(data);
    assert(s.subrange(0, s.len() - 2) =~= data);
    lemma_be16_round_trip(crc, 0, 0);
    if 0 <= k < data.len() && bit < 8 {
        let x = data[k];
        assert(bit < 8 ==> (x ^ (1u8 << bit)) != x) by (bit_vector);
        let changed = data.update(k, flip_bit(x, bit));
        lemma_crc_detects_single_byte_change(data, changed, k);
        let t = changed + seq![hi8(crc), lo8(crc)];
        assert(t.subrange(0, t.len() - 2) =~= changed);
    }
}

/// Checks the checksum in the last two bytes of a sector.
pub fn crc_is_valid(data: &[u8]) -> (r: bool)
    ensures
        r == sector_crc_ok(data@),
{
    if data.len() < 2 {
        return false;
    }
    let n = data.len() - 2;
    let computed = compute_ccitt_crc(slice_prefix(data, n));
    let stored = u16_from_be(data[n], data[n + 1]);
    computed == stored
}

/// The first `n` elements of a slice.
pub fn slice_prefix(data: &[u8], n: usize) -> (r: &[u8])
    requires
        n <= data@.len(),
    ensures
        r@ == data@.subrange(0, n as int),
{
    vstd::slice::slice_subrange(data, 0, n)
}

/// Puts the checksum of all bytes but the last two into the last two
/// bytes, high byte first.
pub fn seal_sector(data: &mut Vec<u8>)
    requires
        old(data)@.len() >= 2,
    ensures
        final(data)@ == with_crc(old(data)@.subrange(0, old(data)@.len() - 2)),
        sector_crc_ok(final(data)@),
{
    let n = data.len() - 2;
    let crc = compute_ccitt_crc(slice_prefix(data.as_slice(), n));
    data[n] = u16_hi(crc);
    data[n + 1] = u16_lo(crc);
    proof {
        assert(data@ =~= with_crc(old(data)@.subrange(0, n as int)));
        lemma_crc_round_trip(old(data)@.subrange(0, n as int), 0, 0);
    }
}

/// The name of a HID++ 2.0 error code.
pub open spec fn error_name(code: u8) -> Seq<char> {
    match code {
        0 => "ERR_SUCCESS"@,
        1 => "ERR_UNKNOWN"@,
        2 => "ERR_INVALID_ARGUMENT"@,
        3 => "ERR_OUT_OF_RANGE"@,
        4 => "ERR_HARDWARE_ERROR"@,
        5 => "ERR_LOGITECH_INTERNAL"@,
        6 => "ERR_INVALID_FEATURE_INDEX"@,
        7 => "ERR_INVALID_FUNCTION_ID"@,
        8 => "ERR_BUSY"@,
        9 => "ERR_UNSUPPORTED"@,
        _ => "ERR_UNRECOGNISED"@,
    }
}

pub fn hidpp20_error_name(code: u8) -> (r: &'static str)
    ensures
        r@ == error_name(code),
{
    match code {
        0 => "ERR_SUCCESS",
        1 => "ERR_UNKNOWN",
        2 => "ERR_INVALID_ARGUMENT",
        3 => "ERR_OUT_OF_RANGE",
        4 => "ERR_HARDWARE_ERROR",
        5 => "ERR_LOGITECH_INTERNAL",
        6 => "ERR_INVALID_FEATURE_INDEX",
        7 => "ERR_INVALID_FUNCTION_ID",
        8 => "ERR_BUSY",
        9 => "ERR_UNSUPPORTED",
        _ => "ERR_UNRECOGNISED",
    }
}

/// Brightness on the scale 0 to 255 as the percentage the device stores;
/// values above 255 count as 255.
pub open spec fn brightness_percent(brightness: u32) -> u8 {
    (clamp_byte(brightness) as int * 100 / 255) as u8
}

/// A stored percentage as brightness on the scale 0 to 255.
pub open spec fn brightness_from_percent(percent: u8) -> u32 {
    (percent as int * 255 / 100) as u32
}

/// An effect duration as the 16 bits the device stores; longer durations
/// count as the longest.
pub open spec fn duration16(ms: u32) -> u16 {
    if ms > 0xFFFF {
        0xFFFFu16
    } else {
        ms as u16
    }
}

/// The eleven bytes that describe the effect of one LED zone. The first
/// byte selects the format; what follows depends on it:
/// fixed color: the color; cycle and color wave: the period in bytes 6 and
/// 7 and the brightness percentage in byte 8; starlight: the sky color and
/// the star color; breathing: the color, the period in bytes 4 and 5 and
/// the brightness percentage in byte 7. A tri-color pattern has no format
/// byte: its three colors fill the first nine bytes.
pub open spec fn led_payload(led: LedModel) -> Seq<u8> {
    let c1 = led.color;
    let c2 = led.secondary_color;
    let c3 = led.tertiary_color;
    let d = duration16(led.effect_duration);
    let p = brightness_percent(led.brightness);
    let z = 0u8;
    match led.mode {
        LedMode::Off => seq![LED_HW_MODE_OFF, z, z, z, z, z, z, z, z, z, z],
        LedMode::Solid => seq![
            LED_HW_MODE_FIXED,
            clamp_byte(c1.red),
            clamp_byte(c1.green),
            clamp_byte(c1.blue),
            z,
            z,
            z,
            z,
            z,
            z,
            z,
        ],
        LedMode::Cycle => seq![LED_HW_MODE_CYCLE, z, z, z, z, z, hi8(d), lo8(d), p, z, z],
        LedMode::ColorWave => seq![LED_HW_MODE_COLOR_WAVE, z, z, z, z, z, hi8(d), lo8(d), p, z, z],
        LedMode::Starlight => seq![
            LED_HW_MODE_STARLIGHT,
            clamp_byte(c1.red),
            clamp_byte(c1.green),
            clamp_byte(c1.blue),
            clamp_byte(c2.red),
            clamp_byte(c2.green),
            clamp_byte(c2.blue),
            z,
            z,
            z,
            z,
        ],
        LedMode::Breathing => seq![
            LED_HW_MODE_BREATHING,
            clamp_byte(c1.red),
            clamp_byte(c1.green),
            clamp_byte(c1.blue),
            hi8(d),
            lo8(d),
            z,
            p,
            z,
            z,
            z,
        ],
        LedMode::TriColor => seq![
            clamp_byte(c1.red),
            clamp_byte(c1.green),
            clamp_byte(c1.blue),
            clamp_byte(c2.red),
            clamp_byte(c2.green),
            clamp_byte(c2.blue),
            clamp_byte(c3.red),
            clamp_byte(c3.green),
            clamp_byte(c3.blue),
            z,
            z,
        ],
    }
}

/// Builds the payload that describes the effect of one LED zone.
pub fn build_led_payload(led: &LedInfo) -> (r: [u8; 11])
    ensures
        r@ == led_payload(led@),
{
    let c1 = led.color.to_rgb();
    let c2 = led.secondary_color.to_rgb();
    let c3 = led.tertiary_color.to_rgb();
    let d: u16 = if led.effect_duration > 0xFFFF {
        0xFFFF
    } else {
        led.effect_duration as u16
    };
    let b: u32 = if led.brightness > 255 {
        255
    } else {
        led.brightness
    };
    let p: u8 = (b * 100 / 255) as u8;
    let r = match led.mode {
        LedMode::Off => [LED_HW_MODE_OFF, 0, 0, 0, 0, 0, 0, 0, 0, 0, 0],
        LedMode::Solid => [LED_HW_MODE_FIXED, c1.r, c1.g, c1.b, 0, 0, 0, 0, 0, 0, 0],
        LedMode::Cycle => [LED_HW_MODE_CYCLE, 0, 0, 0, 0, 0, u16_hi(d), u16_lo(d), p, 0, 0],
        LedMode::ColorWave => [
            LED_HW_MODE_COLOR_WAVE,
            0,
            0,
            0,
            0,
            0,
            u16_hi(d),
            u16_lo(d),
            p,
            0,
            0,
        ],
        LedMode::Starlight => [
            LED_HW_MODE_STARLIGHT,
            c1.r,
            c1.g,
            c1.b,
            c2.r,
            c2.g,
            c2.b,
            0,
            0,
            0,
            0,
        ],
        LedMode::Breathing => [
            LED_HW_MODE_BREATHING,
            c1.r,
            c1.g,
            c1.b,
            u16_hi(d),
            u16_lo(d),
            0,
            p,
            0,
            0,
            0,
        ],
        LedMode::TriColor => [c1.r, c1.g, c1.b, c2.r, c2.g, c2.b, c3.r, c3.g, c3.b, 0, 0],
    };
    assert(r@ =~= led_payload(led@));
    r
}

} // verus!
