//! The static device catalog: which driver serves a `(bus, vendor, product)`
//! triple, and the per-model tunables that come with it.

use vstd::prelude::*;
use crate::text::{chars_eq, chars_of, find_char, find_from, hex4_lower, parse_number, parse_unsigned, push_hex4, push_range, push_str, string_of, string_of_range, trim_bounds, trim_range};

verus! {

/// Bus protocol identifier used in match patterns and catalog keys.
#[derive(Debug, Clone, PartialEq, Eq, Hash)]
pub enum BusType {
    Usb,
    Bluetooth,
    Other(String),
}

/// The mathematical value of a [`BusType`].
pub enum BusTypeModel {
    Usb,
    Bluetooth,
    Other(Seq<char>),
}

impl View for BusType {
    type V = BusTypeModel;

    open spec fn view(&self) -> BusTypeModel {
        match self {
            BusType::Usb => BusTypeModel::Usb,
            BusType::Bluetooth => BusTypeModel::Bluetooth,
            BusType::Other(s) => BusTypeModel::Other(s@),
        }
    }
}

/// The bus that the numeric bus type of a HID identifier stands for.
pub open spec fn bus_of_number(bustype: u16) -> BusTypeModel {
    if bustype == 0x03 {
        BusTypeModel::Usb
    } else if bustype == 0x05 {
        BusTypeModel::Bluetooth
    } else {
        BusTypeModel::Other(hex4_lower(bustype))
    }
}

/// The bus that a name in a match pattern stands for.
pub open spec fn bus_of_name(s: Seq<char>) -> BusTypeModel {
    if s == seq!['u', 's', 'b'] {
        BusTypeModel::Usb
    } else if s == seq!['b', 'l', 'u', 'e', 't', 'o', 'o', 't', 'h'] {
        BusTypeModel::Bluetooth
    } else {
        BusTypeModel::Other(s)
    }
}

/// The name under which a bus is written in match patterns.
pub open spec fn bus_name(b: BusTypeModel) -> Seq<char> {
    match b {
        BusTypeModel::Usb => seq!['u', 's', 'b'],
        BusTypeModel::Bluetooth => seq!['b', 'l', 'u', 'e', 't', 'o', 'o', 't', 'h'],
        BusTypeModel::Other(s) => s,
    }
}

fn bus_of_chars(v: &Vec<char>, lo: usize, hi: usize) -> (r: BusType)
    requires
        lo <= hi <= v.len(),
    ensures
        r@ == bus_of_name(v@.subrange(lo as int, hi as int)),
{
    proof {
        reveal_strlit("usb");
        reveal_strlit("bluetooth");
        assert("usb"@ =~= seq!['u', 's', 'b']);
        assert("bluetooth"@ =~= seq!['b', 'l', 'u', 'e', 't', 'o', 'o', 't', 'h']);
    }
    if chars_eq(v, lo, hi, "usb") {
        BusType::Usb
    } else if chars_eq(v, lo, hi, "bluetooth") {
        BusType::Bluetooth
    } else {
        BusType::Other(string_of_range(v, lo, hi))
    }
}

impl BusType {
    /// Converts the numeric bus type of a HID identifier.
    pub fn from_u16(bustype: u16) -> (r: Self)
        ensures
            r@ == bus_of_number(bustype),
    {
        if bustype == 0x03 {
            BusType::Usb
        } else if bustype == 0x05 {
            BusType::Bluetooth
        } else {
            let mut v: Vec<char> = Vec::new();
            push_hex4(&mut v, bustype);
            assert(v@ =~= hex4_lower(bustype));
            BusType::Other(string_of(&v))
        }
    }

    /// Converts the bus name of a match pattern.
    pub fn from_str(s: &str) -> (r: Self)
        ensures
            r@ == bus_of_name(s@),
    {
        let v = chars_of(s);
        assert(v@.subrange(0, v.len() as int) =~= v@);
        bus_of_chars(&v, 0, v.len())
    }

    /// The name of the bus as match patterns write it.
    pub fn to_string(&self) -> (r: String)
        ensures
            r@ == bus_name(self@),
    {
        proof {
            reveal_strlit("usb");
            reveal_strlit("bluetooth");
            assert("usb"@ =~= seq!['u', 's', 'b']);
            assert("bluetooth"@ =~= seq!['b', 'l', 'u', 'e', 't', 'o', 'o', 't', 'h']);
        }
        match self {
            BusType::Usb => "usb".to_string(),
            BusType::Bluetooth => "bluetooth".to_string(),
            BusType::Other(s) => s.clone(),
        }
    }
}

/// A single `bus:vid:pid` match pattern.
#[derive(Debug, Clone)]
pub struct DeviceMatch {
    pub bustype: BusType,
    pub vid: u16,
    pub pid: u16,
}

pub struct DeviceMatchModel {
    pub bustype: BusTypeModel,
    pub vid: u16,
    pub pid: u16,
}

impl View for DeviceMatch {
    type V = DeviceMatchModel;

    open spec fn view(&self) -> DeviceMatchModel {
        DeviceMatchModel { bustype: self.bustype@, vid: self.vid, pid: self.pid }
    }
}

/// A range of DPI values: from `min` to `max` in steps of `step`.
#[derive(Debug, Clone, Copy)]
pub struct DpiRange {
    pub min: u32,
    pub max: u32,
    pub step: u32,
}

impl DpiRange {
    /// A range that can be walked: the step is positive and the bounds are
    /// in order.
    pub open spec fn wf(&self) -> bool {
        self.step > 0 && self.min <= self.max
    }
}

/// Driver-specific configuration of one model.
#[derive(Debug, Clone)]
pub struct DriverConfig {
    pub profiles: Option<u32>,
    pub buttons: Option<u32>,
    pub leds: Option<u32>,
    pub dpis: Option<u32>,
    pub dpi_range: Option<DpiRange>,
    pub wireless: bool,
    pub device_version: Option<u32>,
    pub quirks: Vec<String>,
    pub button_mapping: Vec<u8>,
    pub button_mapping_secondary: Vec<u8>,
    pub led_modes: Vec<String>,
}

pub struct DriverConfigModel {
    pub profiles: Option<u32>,
    pub buttons: Option<u32>,
    pub leds: Option<u32>,
    pub dpis: Option<u32>,
    pub dpi_range: Option<DpiRange>,
    pub wireless: bool,
    pub device_version: Option<u32>,
    pub quirks: Seq<Seq<char>>,
    pub button_mapping: Seq<u8>,
    pub button_mapping_secondary: Seq<u8>,
    pub led_modes: Seq<Seq<char>>,
}

/// The views of a list of strings.
pub open spec fn strings_view(v: Seq<String>) -> Seq<Seq<char>> {
    Seq::new(v.len(), |i: int| v[i]@)
}

impl View for DriverConfig {
    type V = DriverConfigModel;

    open spec fn view(&self) -> DriverConfigModel {
        DriverConfigModel {
            profiles: self.profiles,
            buttons: self.buttons,
            leds: self.leds,
            dpis: self.dpis,
            dpi_range: self.dpi_range,
            wireless: self.wireless,
            device_version: self.device_version,
            quirks: strings_view(self.quirks@),
            button_mapping: self.button_mapping@,
            button_mapping_secondary: self.button_mapping_secondary@,
            led_modes: strings_view(self.led_modes@),
        }
    }
}

impl DriverConfig {
    /// A configuration that sets nothing.
    pub open spec fn empty() -> DriverConfigModel {
        DriverConfigModel {
            profiles: None,
            buttons: None,
            leds: None,
            dpis: None,
            dpi_range: None,
            wireless: false,
            device_version: None,
            quirks: Seq::empty(),
            button_mapping: Seq::empty(),
            button_mapping_secondary: Seq::empty(),
            led_modes: Seq::empty(),
        }
    }

    pub open spec fn wf(&self) -> bool {
        self.dpi_range is Some ==> self.dpi_range->0.wf()
    }
}

fn copy_strings(v: &Vec<String>) -> (r: Vec<String>)
    ensures
        strings_view(r@) == strings_view(v@),
{
    let mut out: Vec<String> = Vec::new();
    let mut i: usize = 0;
    while i < v.len()
        invariant
            i <= v.len(),
            out@.len() == i,
            forall|j: int| 0 <= j < i ==> (#[trigger] out@[j])@ == v@[j]@,
        decreases v.len() - i,
    {
        out.push(v[i].clone());
        i += 1;
    }
    assert(strings_view(out@) =~= strings_view(v@));
    out
}

impl DriverConfig {
    /// A configuration with the same settings.
    pub fn copy(&self) -> (r: Self)
        ensures
            r@ == self@,
    {
        DriverConfig {
            profiles: self.profiles,
            buttons: self.buttons,
            leds: self.leds,
            dpis: self.dpis,
            dpi_range: self.dpi_range,
            wireless: self.wireless,
            device_version: self.device_version,
            quirks: copy_strings(&self.quirks),
            button_mapping: self.button_mapping.clone(),
            button_mapping_secondary: self.button_mapping_secondary.clone(),
            led_modes: copy_strings(&self.led_modes),
        }
    }
}

impl Default for DriverConfig {
    fn default() -> (r: Self)
        ensures
            r@ == DriverConfig::empty(),
    {
        let r = DriverConfig {
            profiles: None,
            buttons: None,
            leds: None,
            dpis: None,
            dpi_range: None,
            wireless: false,
            device_version: None,
            quirks: Vec::new(),
            button_mapping: Vec::new(),
            button_mapping_secondary: Vec::new(),
            led_modes: Vec::new(),
        };
        assert(r@.quirks =~= Seq::empty());
        assert(r@.led_modes =~= Seq::empty());
        r
    }
}

/// A catalog entry describing one supported model.
#[derive(Debug, Clone)]
pub struct DeviceEntry {
    pub name: String,
    pub driver: String,
    pub matches: Vec<DeviceMatch>,
    pub driver_config: Option<DriverConfig>,
}

impl DeviceEntry {
    /// The view of the entry's driver configuration, where it has one.
    pub open spec fn config_view(&self) -> Option<DriverConfigModel> {
        match self.driver_config {
            Some(c) => Some(c@),
            None => None,
        }
    }
}

/// The part `s[lo..hi]` of a match list as one pattern, `bus:vid:pid` with
/// the two identifiers in hexadecimal, or `None` where it is not one.
pub open spec fn match_of(s: Seq<char>) -> Option<DeviceMatchModel> {
    let c1 = find_from(s, ':', 0, s.len() as int);
    let c2 = find_from(s, ':', c1 + 1, s.len() as int);
    let c3 = find_from(s, ':', c2 + 1, s.len() as int);
    if c1 < s.len() && c2 < s.len() && c3 >= s.len() {
        match (
            parse_unsigned(s.subrange(c1 + 1, c2), 16, 0xffff),
            parse_unsigned(s.subrange(c2 + 1, s.len() as int), 16, 0xffff),
        ) {
            (Some(vid), Some(pid)) => Some(
                DeviceMatchModel {
                    bustype: bus_of_name(s.subrange(0, c1)),
                    vid: vid as u16,
                    pid: pid as u16,
                },
            ),
            _ => None,
        }
    } else {
        None
    }
}

/// What is said of a part of a match list that is no pattern: that the
/// pattern is invalid, where it does not have three fields; else which of
/// the two identifiers is invalid, the vendor first.
pub open spec fn match_error(s: Seq<char>) -> Seq<char> {
    let c1 = find_from(s, ':', 0, s.len() as int);
    let c2 = find_from(s, ':', c1 + 1, s.len() as int);
    let c3 = find_from(s, ':', c2 + 1, s.len() as int);
    if c1 < s.len() && c2 < s.len() && c3 >= s.len() {
        if parse_unsigned(s.subrange(c1 + 1, c2), 16, 0xffff) is None {
            "Invalid VID in '"@ + s + "'"@
        } else {
            "Invalid PID in '"@ + s + "'"@
        }
    } else {
        "Invalid DeviceMatch pattern: "@ + s + ""@
    }
}

/// The first part of `s` from `lo` on, separated by `;`, that is not blank
/// and is no pattern, without the blanks around it.
pub open spec fn first_bad_from(s: Seq<char>, lo: int) -> Option<Seq<char>>
    decreases s.len() - lo,
{
    if 0 <= lo <= s.len() {
        let end = find_from(s, ';', lo, s.len() as int);
        let (a, b) = trim_bounds(s, lo, end);
        if a != b && match_of(s.subrange(a, b)) is None {
            Some(s.subrange(a, b))
        } else if lo <= end < s.len() {
            first_bad_from(s, end + 1)
        } else {
            None
        }
    } else {
        None
    }
}

/// What is said of a match list that is rejected: what is wrong with its
/// first part that is no pattern, or that the list holds no pattern.
pub open spec fn matches_error(s: Seq<char>) -> Seq<char> {
    match first_bad_from(s, 0) {
        Some(part) => match_error(part),
        None => "DeviceMatch is empty"@,
    }
}

/// What the parts of `s` from `lo` on, separated by `;`, read as: the
/// patterns in order, blank parts skipped, or `None` where a part that is
/// not blank is no pattern.
pub open spec fn matches_from(s: Seq<char>, lo: int) -> Option<Seq<DeviceMatchModel>>
    decreases s.len() - lo,
{
    if 0 <= lo <= s.len() {
        let end = find_from(s, ';', lo, s.len() as int);
        let (a, b) = trim_bounds(s, lo, end);
        let rest = if lo <= end < s.len() {
            matches_from(s, end + 1)
        } else {
            Some(Seq::empty())
        };
        if a == b {
            rest
        } else {
            match (match_of(s.subrange(a, b)), rest) {
                (Some(m), Some(r)) => Some(seq![m] + r),
                _ => None,
            }
        }
    } else {
        Some(Seq::empty())
    }
}

/// What a match list reads as: at least one pattern, every part that is
/// not blank being one.
pub open spec fn device_matches_of(s: Seq<char>) -> Option<Seq<DeviceMatchModel>> {
    match matches_from(s, 0) {
        Some(r) => if r.len() > 0 {
            Some(r)
        } else {
            None
        },
        None => None,
    }
}

/// The views of a list of match patterns.
pub open spec fn matches_view(v: Seq<DeviceMatch>) -> Seq<DeviceMatchModel> {
    Seq::new(v.len(), |i: int| v[i]@)
}

fn parse_one_match(v: &Vec<char>, a: usize, b: usize) -> (r: Result<DeviceMatch, String>)
    requires
        a <= b <= v.len(),
    ensures
        match match_of(v@.subrange(a as int, b as int)) {
            Some(m) => r is Ok && r->Ok_0@ == m,
            None => r is Err && r->Err_0@ == match_error(v@.subrange(a as int, b as int)),
        },
{
    let ghost s = v@.subrange(a as int, b as int);
    let c1 = find_char(v, ':', a, b);
    proof {
        lemma_find_shift(v@, ':', a as int, b as int, a as int);
    }
    if c1 >= b {
        return Err(message("Invalid DeviceMatch pattern: ", v, a, b, ""));
    }
    let c2 = find_char(v, ':', c1 + 1, b);
    proof {
        lemma_find_shift(v@, ':', a as int, b as int, c1 + 1);
    }
    if c2 >= b {
        return Err(message("Invalid DeviceMatch pattern: ", v, a, b, ""));
    }
    let c3 = find_char(v, ':', c2 + 1, b);
    proof {
        lemma_find_shift(v@, ':', a as int, b as int, c2 + 1);
    }
    if c3 < b {
        return Err(message("Invalid DeviceMatch pattern: ", v, a, b, ""));
    }
    assert(s.subrange(c1 - a + 1, c2 - a) =~= v@.subrange(c1 + 1, c2 as int));
    assert(s.subrange(c2 - a + 1, s.len() as int) =~= v@.subrange(c2 + 1, b as int));
    assert(s.subrange(0, c1 - a) =~= v@.subrange(a as int, c1 as int));
    let vid = parse_number(v, c1 + 1, c2, 16, 0xffff);
    let pid = parse_number(v, c2 + 1, b, 16, 0xffff);
    match (vid, pid) {
        (Some(vid), Some(pid)) => Ok(
            DeviceMatch { bustype: bus_of_chars(v, a, c1), vid: vid as u16, pid: pid as u16 },
        ),
        (None, _) => Err(message("Invalid VID in '", v, a, b, "'")),
        (_, None) => Err(message("Invalid PID in '", v, a, b, "'")),
    }
}

/// Searching a part of a sequence finds what searching the part on its own
/// finds, moved by where the part starts.
pub proof fn lemma_find_shift(s: Seq<char>, c: char, a: int, b: int, lo: int)
    requires
        0 <= a <= lo <= b + 1,
        b <= s.len(),
    ensures
        find_from(s.subrange(a, b), c, lo - a, b - a) == if lo <= b {
            find_from(s, c, lo, b) - a
        } else {
            lo - a
        },
    decreases b - lo,
{
    if lo < b {
        assert(s.subrange(a, b)[lo - a] == s[lo]);
        lemma_find_shift(s, c, a, b, lo + 1);
    }
}

fn message(prefix: &str, v: &Vec<char>, a: usize, b: usize, suffix: &str) -> (r: String)
    requires
        a <= b <= v.len(),
    ensures
        r@ == prefix@ + v@.subrange(a as int, b as int) + suffix@,
{
    let mut m: Vec<char> = Vec::new();
    push_str(&mut m, prefix);
    push_range(&mut m, v, a, b);
    push_str(&mut m, suffix);
    string_of(&m)
}

/// Reads a list of match patterns such as `usb:046d:c539;usb:046d:c53a`.
///
/// Fails where a part that is not blank is no `bus:vid:pid` pattern with
/// hexadecimal identifiers of 16 bits, and where no pattern is left; the
/// text of the failure names the first such part and what is wrong with
/// it.
pub fn parse_device_matches(s: &str) -> (r: Result<Vec<DeviceMatch>, String>)
    ensures
        match device_matches_of(s@) {
            Some(m) => r is Ok && matches_view(r->Ok_0@) == m,
            None => r is Err && r->Err_0@ == matches_error(s@),
        },
{
    let v = chars_of(s);
    let n = v.len();
    let mut out: Vec<DeviceMatch> = Vec::new();
    let mut lo: usize = 0;
    let mut finished = false;
    while !finished
        invariant
            n == v.len(),
            v@ == s@,
            lo <= n,
            !finished ==> (matches_from(v@, 0) == match matches_from(v@, lo as int) {
                Some(r) => Some(matches_view(out@) + r),
                None => None,
            }),
            finished ==> matches_from(v@, 0) == Some(matches_view(out@)),
            !finished ==> first_bad_from(v@, 0) == first_bad_from(v@, lo as int),
            finished ==> first_bad_from(v@, 0) is None,
        decreases n - lo + (if finished { 0int } else { 1int }),
    {
        let end = find_char(&v, ';', lo, n);
        let (a, b) = trim_range(&v, lo, end);
        let ghost before = matches_view(out@);
        if a != b {
            match parse_one_match(&v, a, b) {
                Ok(m) => {
                    out.push(m);
                    assert(matches_view(out@) =~= before + seq![m@]);
                },
                Err(e) => {
                    return Err(e);
                },
            }
        }
        proof {
            let rest = if end < n {
                matches_from(v@, end + 1)
            } else {
                Some(Seq::empty())
            };
            if rest is Some {
                if a != b {
                    assert(before + (seq![out@.last()@] + rest->0) =~= matches_view(out@)
                        + rest->0);
                }
                if end >= n {
                    assert(matches_view(out@) + Seq::<DeviceMatchModel>::empty() =~= matches_view(
                        out@,
                    ));
                }
            }
        }
        if end < n {
            lo = end + 1;
        } else {
            finished = true;
        }
    }
    if out.len() == 0 {
        return Err("DeviceMatch is empty".to_string());
    }
    Ok(out)
}

/// What a DPI range such as `100:16000@100` reads as: `min:max@step` in
/// decimal, with a positive step and bounds in order.
pub open spec fn dpi_range_of(s: Seq<char>) -> Option<DpiRange> {
    let at = find_from(s, '@', 0, s.len() as int);
    let colon = find_from(s, ':', 0, at);
    if at < s.len() && colon < at {
        match (
            parse_unsigned(s.subrange(0, colon), 10, 0xffff_ffff),
            parse_unsigned(s.subrange(colon + 1, at), 10, 0xffff_ffff),
            parse_unsigned(s.subrange(at + 1, s.len() as int), 10, 0xffff_ffff),
        ) {
            (Some(min), Some(max), Some(step)) => if step == 0 || min > max {
                None
            } else {
                Some(DpiRange { min: min as u32, max: max as u32, step: step as u32 })
            },
            _ => None,
        }
    } else {
        None
    }
}

/// Reads a DPI range such as `100:16000@100`.
pub fn parse_dpi_range(s: &str) -> (r: Option<DpiRange>)
    ensures
        r == dpi_range_of(s@),
        r is Some ==> r->0.wf(),
{
    let v = chars_of(s);
    let n = v.len();
    let at = find_char(&v, '@', 0, n);
    if at >= n {
        return None;
    }
    let colon = find_char(&v, ':', 0, at);
    if colon >= at {
        return None;
    }
    let min = parse_number(&v, 0, colon, 10, 0xffff_ffff);
    let max = parse_number(&v, colon + 1, at, 10, 0xffff_ffff);
    let step = parse_number(&v, at + 1, n, 10, 0xffff_ffff);
    match (min, max, step) {
        (Some(min), Some(max), Some(step)) => {
            if step == 0 || min > max {
                None
            } else {
                Some(DpiRange { min, max, step })
            }
        },
        _ => None,
    }
}

} // verus!
