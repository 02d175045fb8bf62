//! The HID++ 2.0 protocol: the feature map, the payloads of its features
//! and the button bindings.
//!
//! HID++ 2.0 is feature based. Each capability is a numbered feature whose
//! run-time index is found at probe time through the root feature.

use vstd::prelude::*;
use crate::device::{
    ActionType, Color, LedInfo, LedMode, LedModel, dpi_list_of_range, range_steps,
};
use crate::device_database::DpiRange;
use crate::driver::hidpp::{
    be16, brightness_from_percent, hi8, lo8, u16_from_be, u16_hi, u16_lo, lemma_be16_round_trip,
    BUTTON_SUBTYPE_CONSUMER, BUTTON_SUBTYPE_KEYBOARD, BUTTON_SUBTYPE_MOUSE, BUTTON_TYPE_DISABLED,
    BUTTON_TYPE_HID, BUTTON_TYPE_MACRO, BUTTON_TYPE_SPECIAL, LED_HW_MODE_BREATHING,
    LED_HW_MODE_COLOR_WAVE, LED_HW_MODE_CYCLE, LED_HW_MODE_FIXED, LED_HW_MODE_OFF,
    LED_HW_MODE_STARLIGHT, PAGE_ADJUSTABLE_DPI, PAGE_ADJUSTABLE_REPORT_RATE,
    PAGE_COLOR_LED_EFFECTS, PAGE_DEVICE_NAME, PAGE_ONBOARD_PROFILES, PAGE_RGB_EFFECTS,
    PAGE_SPECIAL_KEYS_BUTTONS,
};

verus! {

/// Software id in all requests; it tells our replies from those to others.
pub const SW_ID: u8 = 0x04;

pub const DPI_FN_GET_SENSOR_COUNT: u8 = 0x00;

pub const DPI_FN_GET_SENSOR_DPI_LIST: u8 = 0x01;

pub const DPI_FN_GET_SENSOR_DPI: u8 = 0x02;

pub const DPI_FN_SET_SENSOR_DPI: u8 = 0x03;

pub const RATE_FN_GET_REPORT_RATE_LIST: u8 = 0x00;

pub const RATE_FN_GET_REPORT_RATE: u8 = 0x01;

pub const RATE_FN_SET_REPORT_RATE: u8 = 0x02;

pub const LED_FN_GET_ZONE_EFFECT: u8 = 0x01;

pub const LED_FN_SET_ZONE_EFFECT: u8 = 0x02;

pub const RGB_FN_SET_CLUSTER_PATTERN: u8 = 0x02;

pub const PROFILES_FN_GET_PROFILES_DESCR: u8 = 0x00;

pub const PROFILES_FN_SET_MODE: u8 = 0x01;

pub const PROFILES_FN_MEMORY_READ: u8 = 0x04;

pub const PROFILES_FN_MEMORY_ADDR_WRITE: u8 = 0x05;

pub const PROFILES_FN_MEMORY_WRITE: u8 = 0x06;

pub const PROFILES_FN_MEMORY_WRITE_END: u8 = 0x07;

pub const ONBOARD_MODE_ONBOARD: u8 = 0x01;

pub const ONBOARD_MODE_HOST: u8 = 0x02;

/// Copies `N` bytes of `src`, from position `from` on, into an array.
pub fn take_bytes<const N: usize>(src: &[u8], from: usize) -> (r: [u8; N])
    requires
        from + N <= src@.len(),
    ensures
        r@ == src@.subrange(from as int, from + N),
{
    let mut out = [0u8; N];
    let len = src.len();
    let mut i: usize = 0;
    while i < N
        invariant
            i <= N,
            len == src@.len(),
            from + N <= src@.len(),
            out@.len() == N,
            forall|k: int| 0 <= k < i ==> out@[k] == src@[from + k],
        decreases N - i,
    {
        out[i] = src[from + i];
        i += 1;
    }
    assert(out@ =~= src@.subrange(from as int, from + N));
    out
}

/// Copies `src` into `dst` from position `at` on.
pub fn put_bytes<const N: usize>(dst: &mut [u8; N], at: usize, src: &[u8])
    requires
        at + src@.len() <= N,
    ensures
        final(dst)@ == old(dst)@.subrange(0, at as int) + src@ + old(dst)@.subrange(
            at + src@.len(),
            N as int,
        ),
{
    let mut i: usize = 0;
    while i < src.len()
        invariant
            i <= src@.len(),
            at + src@.len() <= N,
            dst@.len() == N,
            forall|k: int| 0 <= k < i ==> dst@[at + k] == src@[k],
            forall|k: int| 0 <= k < at ==> dst@[k] == old(dst)@[k],
            forall|k: int| at + i <= k < N ==> dst@[k] == old(dst)@[k],
        decreases src@.len() - i,
    {
        dst[at + i] = src[i];
        i += 1;
    }
    assert(dst@ =~= old(dst)@.subrange(0, at as int) + src@ + old(dst)@.subrange(
        at + src@.len(),
        N as int,
    ));
}

// ---------------------------------------------------------------------------
// Feature map
// ---------------------------------------------------------------------------

/// The run-time index of each capability that the driver knows, found once
/// at probe time. `None` says that the device does not have the capability.
#[derive(Debug, Clone, Copy)]
pub struct FeatureMap {
    pub adjustable_dpi: Option<u8>,
    pub special_keys: Option<u8>,
    pub onboard_profiles: Option<u8>,
    pub color_led_effects: Option<u8>,
    pub rgb_effects: Option<u8>,
    pub report_rate: Option<u8>,
    pub device_name: Option<u8>,
}

/// The pages that feature discovery asks for, in order.
pub open spec fn feature_pages() -> Seq<u16> {
    seq![
        PAGE_ADJUSTABLE_DPI,
        PAGE_SPECIAL_KEYS_BUTTONS,
        PAGE_ONBOARD_PROFILES,
        PAGE_COLOR_LED_EFFECTS,
        PAGE_RGB_EFFECTS,
        PAGE_ADJUSTABLE_REPORT_RATE,
        PAGE_DEVICE_NAME,
    ]
}

pub const FEATURE_PAGE_COUNT: usize = 7;

/// The `k`-th page that feature discovery asks for.
pub fn feature_page(k: usize) -> (r: u16)
    requires
        k < FEATURE_PAGE_COUNT,
    ensures
        r == feature_pages()[k as int],
{
    if k == 0 {
        PAGE_ADJUSTABLE_DPI
    } else if k == 1 {
        PAGE_SPECIAL_KEYS_BUTTONS
    } else if k == 2 {
        PAGE_ONBOARD_PROFILES
    } else if k == 3 {
        PAGE_COLOR_LED_EFFECTS
    } else if k == 4 {
        PAGE_RGB_EFFECTS
    } else if k == 5 {
        PAGE_ADJUSTABLE_REPORT_RATE
    } else {
        PAGE_DEVICE_NAME
    }
}

/// What the index in a reply of the root feature says: index 0 is the root
/// feature itself and stands for a page that the device does not have.
pub open spec fn index_of_reply(raw: u8) -> Option<u8> {
    if raw == 0 {
        None
    } else {
        Some(raw)
    }
}

pub fn feature_index_of(raw: u8) -> (r: Option<u8>)
    ensures
        r == index_of_reply(raw),
{
    if raw == 0 {
        None
    } else {
        Some(raw)
    }
}

impl FeatureMap {
    /// The map of a device of which nothing is known.
    pub open spec fn empty() -> FeatureMap {
        FeatureMap {
            adjustable_dpi: None,
            special_keys: None,
            onboard_profiles: None,
            color_led_effects: None,
            rgb_effects: None,
            report_rate: None,
            device_name: None,
        }
    }

    /// The index of the capability of page `page`.
    pub open spec fn get(self, page: u16) -> Option<u8> {
        if page == PAGE_ADJUSTABLE_DPI {
            self.adjustable_dpi
        } else if page == PAGE_SPECIAL_KEYS_BUTTONS {
            self.special_keys
        } else if page == PAGE_ONBOARD_PROFILES {
            self.onboard_profiles
        } else if page == PAGE_COLOR_LED_EFFECTS {
            self.color_led_effects
        } else if page == PAGE_RGB_EFFECTS {
            self.rgb_effects
        } else if page == PAGE_ADJUSTABLE_REPORT_RATE {
            self.report_rate
        } else if page == PAGE_DEVICE_NAME {
            self.device_name
        } else {
            None
        }
    }

    /// The map with the capability of page `page` at `index`; a page that
    /// the driver does not know changes nothing.
    pub open spec fn with(self, page: u16, index: u8) -> FeatureMap {
        if page == PAGE_ADJUSTABLE_DPI {
            FeatureMap { adjustable_dpi: Some(index), ..self }
        } else if page == PAGE_SPECIAL_KEYS_BUTTONS {
            FeatureMap { special_keys: Some(index), ..self }
        } else if page == PAGE_ONBOARD_PROFILES {
            FeatureMap { onboard_profiles: Some(index), ..self }
        } else if page == PAGE_COLOR_LED_EFFECTS {
            FeatureMap { color_led_effects: Some(index), ..self }
        } else if page == PAGE_RGB_EFFECTS {
            FeatureMap { rgb_effects: Some(index), ..self }
        } else if page == PAGE_ADJUSTABLE_REPORT_RATE {
            FeatureMap { report_rate: Some(index), ..self }
        } else if page == PAGE_DEVICE_NAME {
            FeatureMap { device_name: Some(index), ..self }
        } else {
            self
        }
    }

    /// The map after the root feature answered the query for `page` with
    /// `found`.
    pub open spec fn discovered(self, page: u16, found: Option<u8>) -> FeatureMap {
        match found {
            Some(index) => self.with(page, index),
            None => self,
        }
    }

    pub fn new() -> (r: Self)
        ensures
            r == Self::empty(),
    {
        FeatureMap {
            adjustable_dpi: None,
            special_keys: None,
            onboard_profiles: None,
            color_led_effects: None,
            rgb_effects: None,
            report_rate: None,
            device_name: None,
        }
    }

    /// Stores the index found for a page.
    pub fn insert(&mut self, page: u16, index: u8)
        ensures
            *final(self) == old(self).with(page, index),
    {
        if page == PAGE_ADJUSTABLE_DPI {
            self.adjustable_dpi = Some(index);
        } else if page == PAGE_SPECIAL_KEYS_BUTTONS {
            self.special_keys = Some(index);
        } else if page == PAGE_ONBOARD_PROFILES {
            self.onboard_profiles = Some(index);
        } else if page == PAGE_COLOR_LED_EFFECTS {
            self.color_led_effects = Some(index);
        } else if page == PAGE_RGB_EFFECTS {
            self.rgb_effects = Some(index);
        } else if page == PAGE_ADJUSTABLE_REPORT_RATE {
            self.report_rate = Some(index);
        } else if page == PAGE_DEVICE_NAME {
            self.device_name = Some(index);
        }
    }
}

impl Default for FeatureMap {
    fn default() -> (r: Self)
        ensures
            r == FeatureMap::empty(),
    {
        FeatureMap::new()
    }
}

/// For every page of the table: an index of 0 in the reply of the root
/// feature leaves the capability unsupported, and any other index is
/// stored for that page and for no other.
pub proof fn lemma_zero_index_is_unsupported(m: FeatureMap, k: int, raw: u8)
    requires
        0 <= k < feature_pages().len(),
    ensures
        raw == 0 ==> index_of_reply(raw) is None && m.discovered(
            feature_pages()[k],
            index_of_reply(raw),
        ) == m,
        raw == 0 ==> FeatureMap::empty().discovered(feature_pages()[k], index_of_reply(raw)).get(
            feature_pages()[k],
        ) is None,
        raw != 0 ==> m.discovered(feature_pages()[k], index_of_reply(raw)).get(feature_pages()[k])
            == Some(raw),
        forall|j: int|
            0 <= j < feature_pages().len() && j != k ==> m.discovered(
                feature_pages()[k],
                index_of_reply(raw),
            ).get(#[trigger] feature_pages()[j]) == m.get(feature_pages()[j]),
{
}

// ---------------------------------------------------------------------------
// Payloads
// ---------------------------------------------------------------------------

/// Adjustable DPI: the payload of "get sensor DPI" and "set sensor DPI".
#[derive(Debug, Clone, Copy)]
pub struct Hidpp20DpiPayload {
    pub sensor_index: u8,
    /// Big endian.
    pub current_dpi: [u8; 2],
    /// Big endian.
    pub default_dpi: [u8; 2],
    pub padding: [u8; 11],
}

impl Hidpp20DpiPayload {
    /// The sixteen bytes of the payload.
    pub open spec fn bytes(self) -> Seq<u8> {
        seq![self.sensor_index] + self.current_dpi@ + self.default_dpi@ + self.padding@
    }

    pub open spec fn spec_current_dpi(self) -> u16 {
        be16(self.current_dpi@[0], self.current_dpi@[1])
    }

    pub open spec fn spec_default_dpi(self) -> u16 {
        be16(self.default_dpi@[0], self.default_dpi@[1])
    }

    pub fn from_bytes(buf: &[u8; 16]) -> (r: Self)
        ensures
            r.bytes() == buf@,
    {
        let r = Hidpp20DpiPayload {
            sensor_index: buf[0],
            current_dpi: take_bytes::<2>(buf.as_slice(), 1),
            default_dpi: take_bytes::<2>(buf.as_slice(), 3),
            padding: take_bytes::<11>(buf.as_slice(), 5),
        };
        assert(r.bytes() =~= buf@);
        r
    }

    pub fn into_bytes(self) -> (r: [u8; 16])
        ensures
            r@ == self.bytes(),
    {
        let mut buf = [0u8; 16];
        buf[0] = self.sensor_index;
        put_bytes(&mut buf, 1, self.current_dpi.as_slice());
        put_bytes(&mut buf, 3, self.default_dpi.as_slice());
        put_bytes(&mut buf, 5, self.padding.as_slice());
        assert(buf@ =~= self.bytes());
        buf
    }

    pub fn current_dpi(&self) -> (r: u16)
        ensures
            r == self.spec_current_dpi(),
    {
        u16_from_be(self.current_dpi[0], self.current_dpi[1])
    }

    pub fn default_dpi(&self) -> (r: u16)
        ensures
            r == self.spec_default_dpi(),
    {
        u16_from_be(self.default_dpi[0], self.default_dpi[1])
    }

    pub fn set_current_dpi(&mut self, dpi: u16)
        ensures
            final(self).spec_current_dpi() == dpi,
            final(self).current_dpi@ == seq![hi8(dpi), lo8(dpi)],
            final(self).sensor_index == old(self).sensor_index,
            final(self).default_dpi == old(self).default_dpi,
            final(self).padding == old(self).padding,
    {
        self.current_dpi = [u16_hi(dpi), u16_lo(dpi)];
        assert(self.current_dpi@ =~= seq![hi8(dpi), lo8(dpi)]);
    }
}

/// Adjustable report rate: one byte that holds a bitmap of rates or an
/// interval in milliseconds.
#[derive(Debug, Clone, Copy)]
pub struct Hidpp20ReportRatePayload {
    pub data: u8,
    pub padding: [u8; 15],
}

impl Hidpp20ReportRatePayload {
    pub open spec fn bytes(self) -> Seq<u8> {
        seq![self.data] + self.padding@
    }

    pub fn from_bytes(buf: &[u8; 16]) -> (r: Self)
        ensures
            r.bytes() == buf@,
    {
        let r = Hidpp20ReportRatePayload {
            data: buf[0],
            padding: take_bytes::<15>(buf.as_slice(), 1),
        };
        assert(r.bytes() =~= buf@);
        r
    }
}

/// Color LED effects: the reply of "get zone effect".
#[derive(Debug, Clone, Copy)]
pub struct Hidpp20LedGetZonePayload {
    pub zone_index: u8,
    pub payload: [u8; 11],
    pub padding: [u8; 4],
}

impl Hidpp20LedGetZonePayload {
    pub open spec fn bytes(self) -> Seq<u8> {
        seq![self.zone_index] + self.payload@ + self.padding@
    }

    pub fn from_bytes(buf: &[u8; 16]) -> (r: Self)
        ensures
            r.bytes() == buf@,
    {
        let r = Hidpp20LedGetZonePayload {
            zone_index: buf[0],
            payload: take_bytes::<11>(buf.as_slice(), 1),
            padding: take_bytes::<4>(buf.as_slice(), 12),
        };
        assert(r.bytes() =~= buf@);
        r
    }
}

/// Color LED effects: the request of "set zone effect".
#[derive(Debug, Clone, Copy)]
pub struct Hidpp20LedSetZonePayload {
    pub zone_index: u8,
    pub payload: [u8; 11],
    pub persist: u8,
    pub padding: [u8; 3],
}

impl Hidpp20LedSetZonePayload {
    pub open spec fn bytes(self) -> Seq<u8> {
        seq![self.zone_index] + self.payload@ + seq![self.persist] + self.padding@
    }

    pub fn into_bytes(self) -> (r: [u8; 16])
        ensures
            r@ == self.bytes(),
    {
        let mut buf = [0u8; 16];
        buf[0] = self.zone_index;
        put_bytes(&mut buf, 1, self.payload.as_slice());
        buf[12] = self.persist;
        put_bytes(&mut buf, 13, self.padding.as_slice());
        assert(buf@ =~= self.bytes());
        buf
    }
}

/// Onboard profiles: what the device says of its profile memory.
#[derive(Debug, Clone, Copy)]
pub struct Hidpp20OnboardProfilesInfo {
    pub memory_model: u8,
    pub profile_format_id: u8,
    pub macro_format_id: u8,
    pub profile_count: u8,
    pub profile_count_oob: u8,
    pub button_count: u8,
    pub sector_count: u8,
    /// Big endian.
    pub sector_size: [u8; 2],
    pub mechanical_layout: u8,
    pub reserved: [u8; 6],
}

impl Hidpp20OnboardProfilesInfo {
    pub open spec fn bytes(self) -> Seq<u8> {
        seq![
            self.memory_model,
            self.profile_format_id,
            self.macro_format_id,
            self.profile_count,
            self.profile_count_oob,
            self.button_count,
            self.sector_count,
        ] + self.sector_size@ + seq![self.mechanical_layout] + self.reserved@
    }

    pub open spec fn spec_sector_size(self) -> u16 {
        be16(self.sector_size@[0], self.sector_size@[1])
    }

    /// How many profiles the device holds: the stated count, the count of
    /// factory profiles where that says more and the stated count is at
    /// most one, and at least one.
    pub open spec fn spec_profile_count(self) -> nat {
        let n = if self.profile_count <= 1 && self.profile_count_oob > 1 {
            self.profile_count_oob
        } else {
            self.profile_count
        };
        if n == 0 {
            1
        } else {
            n as nat
        }
    }

    pub fn from_bytes(buf: &[u8; 16]) -> (r: Self)
        ensures
            r.bytes() == buf@,
    {
        let r = Hidpp20OnboardProfilesInfo {
            memory_model: buf[0],
            profile_format_id: buf[1],
            macro_format_id: buf[2],
            profile_count: buf[3],
            profile_count_oob: buf[4],
            button_count: buf[5],
            sector_count: buf[6],
            sector_size: take_bytes::<2>(buf.as_slice(), 7),
            mechanical_layout: buf[9],
            reserved: take_bytes::<6>(buf.as_slice(), 10),
        };
        assert(r.bytes() =~= buf@);
        r
    }

    pub fn sector_size(&self) -> (r: u16)
        ensures
            r == self.spec_sector_size(),
    {
        u16_from_be(self.sector_size[0], self.sector_size[1])
    }

    pub fn effective_profile_count(&self) -> (r: usize)
        ensures
            r == self.spec_profile_count(),
            1 <= r <= 255,
    {
        let n = if self.profile_count <= 1 && self.profile_count_oob > 1 {
            self.profile_count_oob
        } else {
            self.profile_count
        };
        if n == 0 {
            1
        } else {
            n as usize
        }
    }
}

// ---------------------------------------------------------------------------
// Button bindings
// ---------------------------------------------------------------------------

/// The binding of one button in a profile sector: four bytes.
#[derive(Debug, Clone, Copy)]
pub struct Hidpp20ButtonBinding {
    pub button_type: u8,
    pub subtype: u8,
    pub control_id_or_macro_id: [u8; 2],
}

/// The bit mask that stands for logical button `n`, counted from 1: bit
/// `n - 1`. A number outside 1 to 16 has no mask.
pub open spec fn button_mask(n: u32) -> u16 {
    if 1 <= n <= 16 {
        1u16 << ((n - 1) as u16)
    } else {
        0
    }
}

/// The position of the lowest bit of `mask` that is set, looking from
/// position `from` up; 16 where there is none.
pub open spec fn lowest_bit(mask: u16, from: nat) -> nat
    decreases 16 - from,
{
    if from >= 16 {
        16
    } else if mask & (1u16 << (from as u16)) != 0 {
        from
    } else {
        lowest_bit(mask, from + 1)
    }
}

/// The logical button that a mask stands for: the position of its lowest
/// set bit, counted from 1; 0 for an empty mask.
pub open spec fn button_of_mask(mask: u16) -> u32 {
    if mask == 0 {
        0
    } else {
        (lowest_bit(mask, 0) + 1) as u32
    }
}

pub fn button_from_mask(mask: u16) -> (r: u32)
    ensures
        r == button_of_mask(mask),
{
    if mask == 0 {
        return 0;
    }
    let mut k: u16 = 0;
    while k < 16 && mask & (1u16 << k) == 0
        invariant
            k <= 16,
            lowest_bit(mask, 0) == lowest_bit(mask, k as nat),
        decreases 16 - k,
    {
        k += 1;
    }
    (k + 1) as u32
}

/// The 16 bits that a mapping value is cut to.
pub open spec fn low16(v: u32) -> u16 {
    (v % 0x1_0000) as u16
}

/// The mathematical value of a binding.
pub struct BindingModel {
    pub button_type: u8,
    pub subtype: u8,
    pub id: Seq<u8>,
}

/// The binding that stands for an action. A mouse button is stored as the
/// bit mask of the button, high byte first; a macro, a key and a special
/// action are stored as their number, low byte first; anything else is
/// stored as a disabled button.
pub open spec fn binding_of_action(action: ActionType, value: u32) -> BindingModel {
    match action {
        ActionType::Macro => BindingModel {
            button_type: BUTTON_TYPE_MACRO,
            subtype: 0,
            id: seq![lo8(low16(value)), hi8(low16(value))],
        },
        ActionType::Button => BindingModel {
            button_type: BUTTON_TYPE_HID,
            subtype: BUTTON_SUBTYPE_MOUSE,
            id: seq![hi8(button_mask(value)), lo8(button_mask(value))],
        },
        ActionType::Key => BindingModel {
            button_type: BUTTON_TYPE_HID,
            subtype: BUTTON_SUBTYPE_KEYBOARD,
            id: seq![lo8(low16(value)), hi8(low16(value))],
        },
        ActionType::Special => BindingModel {
            button_type: BUTTON_TYPE_SPECIAL,
            subtype: 0,
            id: seq![lo8(low16(value)), hi8(low16(value))],
        },
        _ => BindingModel { button_type: BUTTON_TYPE_DISABLED, subtype: 0, id: seq![0u8, 0u8] },
    }
}

impl BindingModel {
    /// The four bytes of the binding.
    pub open spec fn bytes(self) -> Seq<u8> {
        seq![self.button_type, self.subtype] + self.id
    }

    /// The action kind that the binding stands for.
    pub open spec fn action(self) -> ActionType {
        if self.button_type == BUTTON_TYPE_MACRO {
            ActionType::Macro
        } else if self.button_type == BUTTON_TYPE_HID {
            if self.subtype == BUTTON_SUBTYPE_MOUSE {
                ActionType::Button
            } else if self.subtype == BUTTON_SUBTYPE_KEYBOARD {
                ActionType::Key
            } else if self.subtype == BUTTON_SUBTYPE_CONSUMER {
                ActionType::Special
            } else {
                ActionType::Unknown
            }
        } else if self.button_type == BUTTON_TYPE_SPECIAL {
            ActionType::Special
        } else if self.button_type == BUTTON_TYPE_DISABLED {
            ActionType::NoAction
        } else {
            ActionType::Unknown
        }
    }

    /// The value of the action: for a mouse button the logical button that
    /// the mask stands for, found by the position of its lowest set bit; for
    /// anything else the number read high byte first.
    pub open spec fn value(self) -> u32 {
        let word = be16(self.id[0], self.id[1]);
        if self.button_type == BUTTON_TYPE_HID && self.subtype == BUTTON_SUBTYPE_MOUSE {
            button_of_mask(word)
        } else {
            word as u32
        }
    }
}

impl View for Hidpp20ButtonBinding {
    type V = BindingModel;

    open spec fn view(&self) -> BindingModel {
        BindingModel {
            button_type: self.button_type,
            subtype: self.subtype,
            id: self.control_id_or_macro_id@,
        }
    }
}

impl Hidpp20ButtonBinding {
    pub fn from_bytes(buf: &[u8; 4]) -> (r: Self)
        ensures
            r@.bytes() == buf@,
    {
        let r = Hidpp20ButtonBinding {
            button_type: buf[0],
            subtype: buf[1],
            control_id_or_macro_id: [buf[2], buf[3]],
        };
        assert(r@.bytes() =~= buf@);
        r
    }

    pub fn into_bytes(self) -> (r: [u8; 4])
        ensures
            r@ == self@.bytes(),
    {
        let r = [
            self.button_type,
            self.subtype,
            self.control_id_or_macro_id[0],
            self.control_id_or_macro_id[1],
        ];
        assert(r@ =~= self@.bytes());
        r
    }

    pub fn to_action(self) -> (r: ActionType)
        ensures
            r == self@.action(),
    {
        if self.button_type == BUTTON_TYPE_MACRO {
            ActionType::Macro
        } else if self.button_type == BUTTON_TYPE_HID {
            if self.subtype == BUTTON_SUBTYPE_MOUSE {
                ActionType::Button
            } else if self.subtype == BUTTON_SUBTYPE_KEYBOARD {
                ActionType::Key
            } else if self.subtype == BUTTON_SUBTYPE_CONSUMER {
                ActionType::Special
            } else {
                ActionType::Unknown
            }
        } else if self.button_type == BUTTON_TYPE_SPECIAL {
            ActionType::Special
        } else if self.button_type == BUTTON_TYPE_DISABLED {
            ActionType::NoAction
        } else {
            ActionType::Unknown
        }
    }

    /// The value of the action that the binding stands for.
    pub fn mapping_value(self) -> (r: u32)
        ensures
            r == self@.value(),
    {
        let word = u16_from_be(self.control_id_or_macro_id[0], self.control_id_or_macro_id[1]);
        if self.button_type == BUTTON_TYPE_HID && self.subtype == BUTTON_SUBTYPE_MOUSE {
            button_from_mask(word)
        } else {
            word as u32
        }
    }

    pub fn from_action(action: ActionType, mapping_value: u32) -> (r: Self)
        ensures
            r@ == binding_of_action(action, mapping_value),
    {
        let id: u16 = (mapping_value % 0x1_0000) as u16;
        let little = [u16_lo(id), u16_hi(id)];
        assert(little@ =~= seq![lo8(low16(mapping_value)), hi8(low16(mapping_value))]);
        match action {
            ActionType::Macro => Hidpp20ButtonBinding {
                button_type: BUTTON_TYPE_MACRO,
                subtype: 0,
                control_id_or_macro_id: little,
            },
            ActionType::Button => {
                let mask: u16 = if mapping_value > 0 && mapping_value <= 16 {
                    1u16 << ((mapping_value - 1) as u16)
                } else {
                    0
                };
                let big = [u16_hi(mask), u16_lo(mask)];
                assert(big@ =~= seq![
                    hi8(button_mask(mapping_value)),
                    lo8(button_mask(mapping_value)),
                ]);
                Hidpp20ButtonBinding {
                    button_type: BUTTON_TYPE_HID,
                    subtype: BUTTON_SUBTYPE_MOUSE,
                    control_id_or_macro_id: big,
                }
            },
            ActionType::Key => Hidpp20ButtonBinding {
                button_type: BUTTON_TYPE_HID,
                subtype: BUTTON_SUBTYPE_KEYBOARD,
                control_id_or_macro_id: little,
            },
            ActionType::Special => Hidpp20ButtonBinding {
                button_type: BUTTON_TYPE_SPECIAL,
                subtype: 0,
                control_id_or_macro_id: little,
            },
            _ => {
                let zero = [0u8, 0u8];
                assert(zero@ =~= seq![0u8, 0u8]);
                Hidpp20ButtonBinding {
                    button_type: BUTTON_TYPE_DISABLED,
                    subtype: 0,
                    control_id_or_macro_id: zero,
                }
            },
        }
    }
}

proof fn lemma_single_bit(k: u16, j: u16)
    requires
        k < 16,
        j < 16,
    ensures
        ((1u16 << k) & (1u16 << j) != 0) <==> k == j,
        (1u16 << k) != 0,
{
    assert(k < 16 && j < 16 ==> (((1u16 << k) & (1u16 << j) != 0) <==> k == j)) by (bit_vector);
    assert(k < 16 ==> (1u16 << k) != 0) by (bit_vector);
}

proof fn lemma_lowest_bit_of_single(k: nat, from: nat)
    requires
        from <= k < 16,
    ensures
        lowest_bit(1u16 << (k as u16), from) == k,
    decreases k - from,
{
    lemma_single_bit(k as u16, from as u16);
    if from < k {
        lemma_lowest_bit_of_single(k, from + 1);
    }
}

/// A logical button from 1 to 16 that is stored as a binding and read back
/// is the same button: the binding is a mouse-button binding, and the
/// position of the bit of its mask gives the button's number.
pub proof fn lemma_button_mask_round_trip(n: u32)
    requires
        1 <= n <= 16,
    ensures
        binding_of_action(ActionType::Button, n).action() == ActionType::Button,
        binding_of_action(ActionType::Button, n).value() == n,
        button_of_mask(button_mask(n)) == n,
{
    let k = (n - 1) as nat;
    lemma_single_bit(k as u16, 0);
    lemma_lowest_bit_of_single(k, 0);
    lemma_be16_round_trip(button_mask(n), 0, 0);
}

// ---------------------------------------------------------------------------
// Adjustable DPI and report rate
// ---------------------------------------------------------------------------

/// The `k`-th 16-bit word of a DPI list reply, which follows the sensor
/// index in the first byte.
pub open spec fn dpi_word(data: Seq<u8>, k: int) -> u16 {
    be16(data[1 + 2 * k], data[2 + 2 * k])
}

/// How many words of a DPI list reply count, from word `k` on: those
/// before the first zero, of the seven that fit.
pub open spec fn dpi_word_count(data: Seq<u8>, k: int) -> int
    decreases 7 - k,
{
    if 0 <= k < 7 && dpi_word(data, k) != 0 {
        dpi_word_count(data, k + 1)
    } else {
        k
    }
}

/// The words of a DPI list reply.
pub open spec fn dpi_words(data: Seq<u8>) -> Seq<u16> {
    Seq::new(dpi_word_count(data, 0) as nat, |k: int| dpi_word(data, k))
}

/// The DPI values that the words from `i` on add to `acc`. A word below
/// `0xE000` is one value. A word from `0xE000` on marks a range: its low 13
/// bits are the step, the value before it is the lowest value (200 where
/// there is none) and the word after it the highest.
pub open spec fn dpi_values(words: Seq<u16>, i: int, acc: Seq<u32>) -> Seq<u32>
    decreases words.len() + 1 - i,
{
    if i < 0 || i >= words.len() {
        acc
    } else if words[i] >= 0xE000 {
        let step = (words[i] & 0x1FFF) as u32;
        let min = if acc.len() > 0 {
            acc.last()
        } else {
            200u32
        };
        let base = if acc.len() > 0 {
            acc.drop_last()
        } else {
            acc
        };
        let max = if i + 1 < words.len() {
            words[i + 1] as u32
        } else {
            min
        };
        dpi_values(words, i + 2, base + range_steps(DpiRange { min, max, step }))
    } else {
        dpi_values(words, i + 1, acc.push(words[i] as u32))
    }
}

/// The list of DPI values that a DPI list reply stands for.
pub open spec fn dpi_list_of_reply(data: Seq<u8>) -> Seq<u32> {
    dpi_values(dpi_words(data), 0, Seq::empty())
}

proof fn lemma_dpi_word_count(data: Seq<u8>, k: int)
    requires
        0 <= k <= 7,
    ensures
        k <= dpi_word_count(data, k) <= 7,
        forall|j: int| k <= j < dpi_word_count(data, k) ==> dpi_word(data, j) != 0,
        dpi_word_count(data, k) < 7 ==> dpi_word(data, dpi_word_count(data, k)) == 0,
    decreases 7 - k,
{
    if k < 7 && dpi_word(data, k) != 0 {
        lemma_dpi_word_count(data, k + 1);
    }
}

/// Reads the list of DPI values from a DPI list reply.
pub fn parse_dpi_list(data: &[u8; 16]) -> (r: Vec<u32>)
    ensures
        r@ == dpi_list_of_reply(data@),
{
    let mut words: Vec<u16> = Vec::new();
    let mut k: usize = 0;
    let mut open = true;
    while k < 7 && open
        invariant
            k <= 7,
            words@.len() == k,
            open ==> dpi_word_count(data@, 0) == dpi_word_count(data@, k as int),
            !open ==> dpi_word_count(data@, 0) == k,
            forall|j: int| 0 <= j < k ==> words@[j] == dpi_word(data@, j),
        decreases 7 - k + (if open { 1int } else { 0int }),
    {
        let w = u16_from_be(data[1 + 2 * k], data[2 + 2 * k]);
        if w == 0 {
            open = false;
        } else {
            words.push(w);
            k += 1;
        }
    }
    assert(words@ =~= dpi_words(data@));
    let mut out: Vec<u32> = Vec::new();
    let mut i: usize = 0;
    while i < words.len()
        invariant
            words@.len() <= 7,
            i <= words@.len() + 1,
            dpi_values(words@, 0, Seq::empty()) == dpi_values(words@, i as int, out@),
        decreases words@.len() + 1 - i,
    {
        let w = words[i];
        if w >= 0xE000 {
            let step = (w & 0x1FFF) as u32;
            let min: u32 = if out.len() > 0 {
                let last = out[out.len() - 1];
                out.pop();
                last
            } else {
                200
            };
            let max: u32 = if i + 1 < words.len() {
                words[i + 1] as u32
            } else {
                min
            };
            let ghost base = out@;
            let range = DpiRange { min, max, step };
            let mut more = dpi_list_of_range(&range);
            out.append(&mut more);
            assert(out@ =~= base + range_steps(range));
            i += 2;
        } else {
            out.push(w as u32);
            i += 1;
        }
    }
    out
}

/// The report rates, in Hz, that a bitmap stands for, from bit `bit` on:
/// bit `n` stands for an interval of `n + 1` milliseconds.
pub open spec fn rates_of_bitmap(bitmap: u8, bit: nat) -> Seq<u32>
    decreases 8 - bit,
{
    if bit >= 8 {
        Seq::empty()
    } else if bitmap & (1u8 << (bit as u8)) != 0 {
        seq![(1000int / (bit as int + 1)) as u32] + rates_of_bitmap(bitmap, bit + 1)
    } else {
        rates_of_bitmap(bitmap, bit + 1)
    }
}

/// Reads the list of supported report rates from a bitmap.
pub fn report_rates_from_bitmap(bitmap: u8) -> (r: Vec<u32>)
    ensures
        r@ == rates_of_bitmap(bitmap, 0),
{
    let mut out: Vec<u32> = Vec::new();
    let mut bit: u8 = 0;
    while bit < 8
        invariant
            bit <= 8,
            rates_of_bitmap(bitmap, 0) == out@ + rates_of_bitmap(bitmap, bit as nat),
        decreases 8 - bit,
    {
        let ghost before = out@;
        if bitmap & (1u8 << bit) != 0 {
            out.push(1000 / (bit as u32 + 1));
            assert(out@ + rates_of_bitmap(bitmap, (bit + 1) as nat) =~= before + rates_of_bitmap(
                bitmap,
                bit as nat,
            ));
        }
        bit += 1;
    }
    assert(out@ + Seq::<u32>::empty() =~= out@);
    out
}

/// The report rate that an interval in milliseconds stands for; an
/// interval of 0 says nothing.
pub open spec fn rate_of_interval(ms: u8) -> Option<u32> {
    if ms > 0 {
        Some((1000int / (ms as int)) as u32)
    } else {
        None
    }
}

pub fn rate_from_interval(ms: u8) -> (r: Option<u32>)
    ensures
        r == rate_of_interval(ms),
{
    if ms > 0 {
        Some(1000 / (ms as u32))
    } else {
        None
    }
}

/// The interval byte that stands for a report rate: 1000 divided by the
/// rate, cut to eight bits.
pub open spec fn interval_of_rate(hz: u32) -> u8
    recommends
        hz > 0,
{
    ((1000int / (hz as int)) % 256) as u8
}

pub fn interval_from_rate(hz: u32) -> (r: u8)
    requires
        hz > 0,
    ensures
        r == interval_of_rate(hz),
{
    ((1000 / hz) % 256) as u8
}

// ---------------------------------------------------------------------------
// LED zones
// ---------------------------------------------------------------------------

/// The LED after the effect of its zone was read from the device. The
/// first byte of the payload selects the format; a format that the driver
/// does not know changes nothing.
pub open spec fn led_after_zone(led: LedModel, payload: Seq<u8>) -> LedModel {
    let mode = payload[0];
    let c1 = Color { red: payload[1] as u32, green: payload[2] as u32, blue: payload[3] as u32 };
    if mode == LED_HW_MODE_OFF {
        LedModel { mode: LedMode::Off, ..led }
    } else if mode == LED_HW_MODE_FIXED {
        LedModel { mode: LedMode::Solid, color: c1, ..led }
    } else if mode == LED_HW_MODE_CYCLE {
        LedModel {
            mode: LedMode::Cycle,
            effect_duration: be16(payload[6], payload[7]) as u32,
            brightness: brightness_from_percent(payload[8]),
            ..led
        }
    } else if mode == LED_HW_MODE_COLOR_WAVE {
        LedModel {
            mode: LedMode::ColorWave,
            effect_duration: be16(payload[6], payload[7]) as u32,
            brightness: brightness_from_percent(payload[8]),
            ..led
        }
    } else if mode == LED_HW_MODE_STARLIGHT {
        LedModel {
            mode: LedMode::Starlight,
            color: c1,
            secondary_color: Color {
                red: payload[4] as u32,
                green: payload[5] as u32,
                blue: payload[6] as u32,
            },
            ..led
        }
    } else if mode == LED_HW_MODE_BREATHING {
        LedModel {
            mode: LedMode::Breathing,
            color: c1,
            effect_duration: be16(payload[4], payload[5]) as u32,
            brightness: brightness_from_percent(payload[7]),
            ..led
        }
    } else {
        led
    }
}

/// Takes the effect of an LED zone as read from the device.
pub fn apply_led_zone(led: &mut LedInfo, payload: &[u8; 11])
    ensures
        final(led)@ == led_after_zone(old(led)@, payload@),
{
    let mode = payload[0];
    let c1 = Color { red: payload[1] as u32, green: payload[2] as u32, blue: payload[3] as u32 };
    if mode == LED_HW_MODE_OFF {
        led.mode = LedMode::Off;
    } else if mode == LED_HW_MODE_FIXED {
        led.mode = LedMode::Solid;
        led.color = c1;
    } else if mode == LED_HW_MODE_CYCLE {
        led.mode = LedMode::Cycle;
        led.effect_duration = u16_from_be(payload[6], payload[7]) as u32;
        led.brightness = (payload[8] as u32) * 255 / 100;
    } else if mode == LED_HW_MODE_COLOR_WAVE {
        led.mode = LedMode::ColorWave;
        led.effect_duration = u16_from_be(payload[6], payload[7]) as u32;
        led.brightness = (payload[8] as u32) * 255 / 100;
    } else if mode == LED_HW_MODE_STARLIGHT {
        led.mode = LedMode::Starlight;
        led.color = c1;
        led.secondary_color = Color {
            red: payload[4] as u32,
            green: payload[5] as u32,
            blue: payload[6] as u32,
        };
    } else if mode == LED_HW_MODE_BREATHING {
        led.mode = LedMode::Breathing;
        led.color = c1;
        led.effect_duration = u16_from_be(payload[4], payload[5]) as u32;
        led.brightness = (payload[7] as u32) * 255 / 100;
    }
}

/// The parameters of "set zone effect" for an LED: the zone, the payload
/// of the effect and the flag that makes it persistent; thirteen bytes.
pub open spec fn led_write_params(led: LedModel) -> Seq<u8> {
    seq![(led.index % 256) as u8] + crate::driver::hidpp::led_payload(led) + seq![1u8]
}

/// Builds the parameters of "set zone effect" for an LED.
pub fn build_led_write(led: &LedInfo) -> (r: Vec<u8>)
    ensures
        r@ == led_write_params(led@),
{
    let payload = crate::driver::hidpp::build_led_payload(led);
    let req = Hidpp20LedSetZonePayload {
        zone_index: (led.index % 256) as u8,
        payload,
        persist: 0x01,
        padding: [0u8; 3],
    };
    let bytes = req.into_bytes();
    let mut out: Vec<u8> = Vec::new();
    let mut i: usize = 0;
    while i < 13
        invariant
            i <= 13,
            out@ == bytes@.subrange(0, i as int),
        decreases 13 - i,
    {
        out.push(bytes[i]);
        i += 1;
        assert(out@ =~= bytes@.subrange(0, i as int));
    }
    assert(out@ =~= led_write_params(led@));
    out
}

} // verus!
