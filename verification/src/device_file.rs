//! Catalog files: the entry that the text of one `.device` file stands
//! for, and the catalog that the entries make up.
//!
//! The files are written in INI syntax, which an outside parser reads. The
//! fields of an entry are taken from what the parser found.

use vstd::prelude::*;
use crate::device_database::{
    device_matches_of, dpi_range_of, matches_error, matches_view, parse_device_matches,
    parse_dpi_range, BusType, BusTypeModel, DeviceEntry, DeviceMatch, DeviceMatchModel,
    DriverConfig, DriverConfigModel,
};
use crate::text::{
    chars_of, find_char, find_from, parse_number, parse_unsigned, push_str, string_of,
    string_of_range, trim_bounds, trim_range,
};

verus! {

/// One key of a section of a configuration, with its value where the key
/// has one.
#[derive(Debug, Clone)]
pub struct IniEntry {
    pub section: String,
    pub key: String,
    pub value: Option<String>,
}

/// What the parser found in a configuration: the names of its sections and
/// the keys of each section. The parser puts the names of sections and keys
/// in lower case. No order is defined among the sections, nor among the
/// keys.
#[derive(Debug, Clone)]
pub struct IniData {
    pub sections: Vec<String>,
    pub entries: Vec<IniEntry>,
}

/// What a configuration holds: its sections, and for each section and key
/// the value, where the key has one.
pub struct IniContents {
    pub sections: Set<Seq<char>>,
    pub values: Map<(Seq<char>, Seq<char>), Option<Seq<char>>>,
}

/// What the parser of the `configparser` crate, with its default settings,
/// finds in a text; `None` for a text that it rejects.
pub uninterp spec fn ini_contents(input: Seq<char>) -> Option<IniContents>;

impl IniData {
    /// The sections of the data as a set.
    pub open spec fn section_set(self) -> Set<Seq<char>> {
        Set::new(|s: Seq<char>| exists|i: int| 0 <= i < self.sections@.len() && self.sections@[i]@ == s)
    }

    /// Whether the data holds the given value for a section and a key.
    pub open spec fn holds(self, section: Seq<char>, key: Seq<char>, value: Option<Seq<char>>) -> bool {
        exists|i: int|
            0 <= i < self.entries@.len() && (#[trigger] self.entries@[i]).section@ == section
                && self.entries@[i].key@ == key && option_view(self.entries@[i].value) == value
    }

    /// Whether the data says what the contents say: the same sections, an
    /// entry for each value of the contents, and no entry besides.
    pub open spec fn says(self, c: IniContents) -> bool {
        &&& self.section_set() == c.sections
        &&& forall|i: int|
            0 <= i < self.entries@.len() ==> c.values.contains_key(
                ((#[trigger] self.entries@[i]).section@, self.entries@[i].key@),
            ) && c.values[(self.entries@[i].section@, self.entries@[i].key@)] == option_view(
                self.entries@[i].value,
            )
        &&& forall|s: Seq<char>, k: Seq<char>| #[trigger]
            c.values.contains_key((s, k)) ==> self.holds(s, k, c.values[(s, k)])
    }
}

/// The view of an optional string.
pub open spec fn option_view(v: Option<String>) -> Option<Seq<char>> {
    match v {
        Some(s) => Some(s@),
        None => None,
    }
}

/// Reads a text in INI syntax with `Ini::read` of the `configparser` crate,
/// set up by `Ini::new`, and lists what it found: every section, and every
/// key of every section with its value. Whether the text is accepted, and
/// what is found in it, is the parser's affair; the contract says no more
/// than that the lists hold what the parser found.
#[verifier::external_body]
fn read_ini(input: &str) -> (r: Result<IniData, String>)
    ensures
        match ini_contents(input@) {
            Some(c) => r is Ok && r->Ok_0.says(c),
            None => r is Err,
        },
{
    let mut ini = configparser::ini::Ini::new();
    let map = ini.read(input.to_string())?;
    let mut data = IniData { sections: Vec::new(), entries: Vec::new() };
    for (section, keys) in map {
        for (key, value) in keys {
            data.entries.push(IniEntry { section: section.clone(), key, value });
        }
        data.sections.push(section);
    }
    Ok(data)
}

/// The value that the contents hold for a section and a key, where the key
/// is there and has a value.
pub open spec fn value_of(c: IniContents, section: Seq<char>, key: Seq<char>) -> Option<Seq<char>> {
    if c.values.contains_key((section, key)) {
        c.values[(section, key)]
    } else {
        None
    }
}

fn same_text(a: &String, b: &str) -> (r: bool)
    ensures
        r == (a@ == b@),
{
    let x = chars_of(a.as_str());
    let y = chars_of(b);
    if x.len() != y.len() {
        return false;
    }
    let mut i: usize = 0;
    while i < x.len()
        invariant
            i <= x@.len(),
            x@.len() == y@.len(),
            x@ == a@,
            y@ == b@,
            forall|k: int| 0 <= k < i ==> x@[k] == y@[k],
        decreases x@.len() - i,
    {
        if x[i] != y[i] {
            assert(a@[i as int] != b@[i as int]);
            return false;
        }
        i += 1;
    }
    assert(x@ =~= y@);
    true
}

impl IniData {
    /// The value of a key of a section.
    pub fn get(&self, section: &str, key: &str) -> (r: Option<String>)
        ensures
            forall|c: IniContents| self.says(c) ==> option_view(r) == value_of(c, section@, key@),
    {
        let mut i: usize = 0;
        while i < self.entries.len()
            invariant
                i <= self.entries@.len(),
                forall|k: int|
                    0 <= k < i ==> !((#[trigger] self.entries@[k]).section@ == section@
                        && self.entries@[k].key@ == key@),
            decreases self.entries@.len() - i,
        {
            let e = &self.entries[i];
            if same_text(&e.section, section) && same_text(&e.key, key) {
                let r = match &e.value {
                    Some(v) => Some(v.clone()),
                    None => None,
                };
                assert forall|c: IniContents| self.says(c) implies option_view(r) == value_of(
                    c,
                    section@,
                    key@,
                ) by {
                    assert(c.values.contains_key((self.entries@[i as int].section@, self.entries@[i as int].key@)));
                }
                return r;
            }
            i += 1;
        }
        assert forall|c: IniContents| self.says(c) implies value_of(c, section@, key@) is None by {
            if c.values.contains_key((section@, key@)) {
                assert(self.holds(section@, key@, c.values[(section@, key@)]));
            }
        }
        None
    }

    /// Whether the configuration has a section of the given name.
    pub fn has_section(&self, section: &str) -> (r: bool)
        ensures
            forall|c: IniContents| self.says(c) ==> r == c.sections.contains(section@),
    {
        let mut i: usize = 0;
        while i < self.sections.len()
            invariant
                i <= self.sections@.len(),
                forall|k: int| 0 <= k < i ==> self.sections@[k]@ != section@,
            decreases self.sections@.len() - i,
        {
            if same_text(&self.sections[i], section) {
                assert(self.section_set().contains(section@));
                return true;
            }
            i += 1;
        }
        assert(!self.section_set().contains(section@));
        false
    }
}

/// The number that a value stands for, where it is a decimal number of 32
/// bits.
pub open spec fn number_of(v: Option<Seq<char>>) -> Option<u32> {
    match v {
        Some(s) => match parse_unsigned(s, 10, 0xffff_ffff) {
            Some(n) => Some(n as u32),
            None => None,
        },
        None => None,
    }
}

fn number_from(v: &Option<String>) -> (r: Option<u32>)
    ensures
        r == number_of(option_view(*v)),
{
    match v {
        Some(s) => {
            let c = chars_of(s.as_str());
            assert(c@.subrange(0, c@.len() as int) =~= c@);
            parse_number(&c, 0, c.len(), 10, 0xffff_ffff)
        },
        None => None,
    }
}

/// The parts of a list that `;` separates, from position `lo` on: each
/// part without the white space around it, and blank parts left out.
pub open spec fn list_parts(s: Seq<char>, lo: int) -> Seq<Seq<char>>
    decreases s.len() - lo,
{
    if 0 <= lo <= s.len() {
        let end = find_from(s, ';', lo, s.len() as int);
        let (a, b) = trim_bounds(s, lo, end);
        let rest = if lo <= end < s.len() {
            list_parts(s, end + 1)
        } else {
            Seq::empty()
        };
        if a == b {
            rest
        } else {
            seq![s.subrange(a, b)] + rest
        }
    } else {
        Seq::empty()
    }
}

/// The views of a list of strings.
pub open spec fn texts_view(v: Seq<String>) -> Seq<Seq<char>> {
    Seq::new(v.len(), |i: int| v[i]@)
}

/// Splits a list at `;`.
pub fn split_list(s: &str) -> (r: Vec<String>)
    ensures
        texts_view(r@) == list_parts(s@, 0),
{
    let v = chars_of(s);
    let n = v.len();
    let mut out: Vec<String> = Vec::new();
    let mut lo: usize = 0;
    let mut finished = false;
    assert(texts_view(out@) =~= Seq::<Seq<char>>::empty());
    while !finished
        invariant
            n == v@.len(),
            v@ == s@,
            lo <= n,
            !finished ==> list_parts(v@, 0) == texts_view(out@) + list_parts(v@, lo as int),
            finished ==> list_parts(v@, 0) == texts_view(out@),
        decreases n - lo + (if finished { 0int } else { 1int }),
    {
        let end = find_char(&v, ';', lo, n);
        let (a, b) = trim_range(&v, lo, end);
        let ghost before = texts_view(out@);
        let ghost rest = if end < n {
            list_parts(v@, end + 1)
        } else {
            Seq::empty()
        };
        if a != b {
            out.push(string_of_range(&v, a, b));
            assert(texts_view(out@) =~= before + seq![v@.subrange(a as int, b as int)]);
            assert(before + (seq![v@.subrange(a as int, b as int)] + rest) =~= texts_view(out@)
                + rest);
        }
        if end < n {
            lo = end + 1;
        } else {
            finished = true;
            assert(texts_view(out@) + Seq::<Seq<char>>::empty() =~= texts_view(out@));
        }
    }
    out
}

/// The bytes that the parts of a list stand for, from part `i` on: each
/// part that is a hexadecimal number of eight bits, in order.
pub open spec fn bytes_of_parts(parts: Seq<Seq<char>>, i: int) -> Seq<u8>
    decreases parts.len() - i,
{
    if i < 0 || i >= parts.len() {
        Seq::empty()
    } else {
        match parse_unsigned(parts[i], 16, 0xff) {
            Some(b) => seq![b as u8] + bytes_of_parts(parts, i + 1),
            None => bytes_of_parts(parts, i + 1),
        }
    }
}

fn parse_byte_list(parts: &Vec<String>) -> (r: Vec<u8>)
    ensures
        r@ == bytes_of_parts(texts_view(parts@), 0),
{
    let mut out: Vec<u8> = Vec::new();
    let mut i: usize = 0;
    while i < parts.len()
        invariant
            i <= parts@.len(),
            bytes_of_parts(texts_view(parts@), 0) == out@ + bytes_of_parts(
                texts_view(parts@),
                i as int,
            ),
        decreases parts@.len() - i,
    {
        let c = chars_of(parts[i].as_str());
        assert(c@.subrange(0, c@.len() as int) =~= c@);
        assert(texts_view(parts@)[i as int] == parts@[i as int]@);
        let ghost before = out@;
        match parse_number(&c, 0, c.len(), 16, 0xff) {
            Some(b) => {
                out.push(b as u8);
                assert(before + (seq![b as u8] + bytes_of_parts(texts_view(parts@), i + 1)) =~= out@
                    + bytes_of_parts(texts_view(parts@), i + 1));
            },
            None => {},
        }
        i += 1;
    }
    assert(out@ + Seq::<u8>::empty() =~= out@);
    out
}

/// The list that a value stands for; no list for a key that is not there.
pub open spec fn list_of(v: Option<Seq<char>>) -> Seq<Seq<char>> {
    match v {
        Some(s) => list_parts(s, 0),
        None => Seq::empty(),
    }
}

fn list_from(v: &Option<String>) -> (r: Vec<String>)
    ensures
        texts_view(r@) == list_of(option_view(*v)),
{
    match v {
        Some(s) => split_list(s.as_str()),
        None => {
            let r: Vec<String> = Vec::new();
            assert(texts_view(r@) =~= Seq::<Seq<char>>::empty());
            r
        },
    }
}

/// The driver configuration that a section of a configuration stands for.
/// The counts and the device version are decimal numbers; a value that is
/// no number counts as not stated. The DPI range is written `min:max@step`.
/// The device is wireless where the value of that key is a number other
/// than 0. Quirks, button codes (in hexadecimal) and LED modes are lists
/// whose parts `;` separates.
pub open spec fn driver_config_of(c: IniContents, section: Seq<char>) -> DriverConfigModel {
    DriverConfigModel {
        profiles: number_of(value_of(c, section, "profiles"@)),
        buttons: number_of(value_of(c, section, "buttons"@)),
        leds: number_of(value_of(c, section, "leds"@)),
        dpis: number_of(value_of(c, section, "dpis"@)),
        dpi_range: match value_of(c, section, "dpirange"@) {
            Some(s) => dpi_range_of(s),
            None => None,
        },
        wireless: match number_of(value_of(c, section, "wireless"@)) {
            Some(n) => n != 0,
            None => false,
        },
        device_version: number_of(value_of(c, section, "deviceversion"@)),
        quirks: list_of(value_of(c, section, "quirks"@)),
        button_mapping: bytes_of_parts(list_of(value_of(c, section, "buttonmapping"@)), 0),
        button_mapping_secondary: bytes_of_parts(
            list_of(value_of(c, section, "buttonmappingsecondary"@)),
            0,
        ),
        led_modes: list_of(value_of(c, section, "ledmodes"@)),
    }
}

/// Reads the driver configuration from a section of a configuration.
pub fn parse_driver_config(ini: &IniData, section: &str) -> (r: DriverConfig)
    ensures
        forall|c: IniContents| ini.says(c) ==> r@ == driver_config_of(c, section@),
{
    let range_text = ini.get(section, "dpirange");
    let dpi_range = match &range_text {
        Some(s) => parse_dpi_range(s.as_str()),
        None => None,
    };
    let profiles = number_from(&ini.get(section, "profiles"));
    let buttons = number_from(&ini.get(section, "buttons"));
    let leds = number_from(&ini.get(section, "leds"));
    let dpis = number_from(&ini.get(section, "dpis"));
    let wireless = match number_from(&ini.get(section, "wireless")) {
        Some(n) => n != 0,
        None => false,
    };
    let device_version = number_from(&ini.get(section, "deviceversion"));
    let quirks = list_from(&ini.get(section, "quirks"));
    let mapping = list_from(&ini.get(section, "buttonmapping"));
    let mapping2 = list_from(&ini.get(section, "buttonmappingsecondary"));
    let led_modes = list_from(&ini.get(section, "ledmodes"));
    let r = DriverConfig {
        profiles,
        buttons,
        leds,
        dpis,
        dpi_range,
        wireless,
        device_version,
        quirks,
        button_mapping: parse_byte_list(&mapping),
        button_mapping_secondary: parse_byte_list(&mapping2),
        led_modes,
    };
    assert forall|c: IniContents| ini.says(c) implies r@ == driver_config_of(c, section@) by {
        assert(r@.quirks =~= driver_config_of(c, section@).quirks);
        assert(r@.led_modes =~= driver_config_of(c, section@).led_modes);
    }
    r
}

/// The mathematical value of a catalog entry.
pub struct EntryModel {
    pub name: Seq<char>,
    pub driver: Seq<char>,
    pub matches: Seq<DeviceMatchModel>,
    pub driver_config: Option<DriverConfigModel>,
}

/// The view of a catalog entry.
pub open spec fn entry_view(e: DeviceEntry) -> EntryModel {
    EntryModel {
        name: e.name@,
        driver: e.driver@,
        matches: matches_view(e.matches@),
        driver_config: e.config_view(),
    }
}

/// The catalog entry that a configuration stands for: the section
/// `device` must state the name, the driver and at least one match pattern;
/// the section `driver/` followed by the name of the driver, where there is
/// one, gives the driver configuration.
pub open spec fn entry_of(c: IniContents) -> Option<EntryModel> {
    match (
        value_of(c, "device"@, "name"@),
        value_of(c, "device"@, "driver"@),
        value_of(c, "device"@, "devicematch"@),
    ) {
        (Some(name), Some(driver), Some(patterns)) => match device_matches_of(patterns) {
            Some(matches) => Some(
                EntryModel {
                    name,
                    driver,
                    matches,
                    driver_config: if c.sections.contains("driver/"@ + driver) {
                        Some(driver_config_of(c, "driver/"@ + driver))
                    } else {
                        None
                    },
                },
            ),
            None => None,
        },
        _ => None,
    }
}

/// What is said of a configuration that stands for no entry: which of the
/// name, the driver and the match patterns is missing, in this order, or
/// what is wrong with the match patterns.
pub open spec fn entry_error(c: IniContents) -> Seq<char> {
    match missing_key(c) {
        Some(text) => text,
        None => matches_error(value_of(c, "device"@, "devicematch"@)->0),
    }
}

/// What is said of a configuration that lacks what an entry needs: which
/// of the name, the driver and the match patterns is missing, in this
/// order. `None` where all three are there.
pub open spec fn missing_key(c: IniContents) -> Option<Seq<char>> {
    if value_of(c, "device"@, "name"@) is None {
        Some("Missing [Device] Name"@)
    } else if value_of(c, "device"@, "driver"@) is None {
        Some("Missing [Device] Driver"@)
    } else if value_of(c, "device"@, "devicematch"@) is None {
        Some("Missing [Device] DeviceMatch"@)
    } else {
        None
    }
}

/// The catalog entry that the text of a `.device` file stands for, where
/// the parser accepts the text and the text states what an entry needs.
pub open spec fn entry_of_text(text: Seq<char>) -> Option<EntryModel> {
    match ini_contents(text) {
        Some(c) => entry_of(c),
        None => None,
    }
}

/// Builds the catalog entry from what the parser found. Where the
/// configuration stands for no entry, the failure says what is missing or
/// what is wrong with the match patterns.
pub fn entry_from_ini(ini: &IniData) -> (r: Result<DeviceEntry, String>)
    ensures
        forall|c: IniContents|
            ini.says(c) ==> match entry_of(c) {
                Some(e) => r is Ok && entry_view(r->Ok_0) == e,
                None => r is Err && r->Err_0@ == entry_error(c),
            },
{
    let name = match ini.get("device", "name") {
        Some(v) => v,
        None => {
            return Err("Missing [Device] Name".to_string());
        },
    };
    let driver = match ini.get("device", "driver") {
        Some(v) => v,
        None => {
            return Err("Missing [Device] Driver".to_string());
        },
    };
    let patterns = match ini.get("device", "devicematch") {
        Some(v) => v,
        None => {
            return Err("Missing [Device] DeviceMatch".to_string());
        },
    };
    let matches = match parse_device_matches(patterns.as_str()) {
        Ok(m) => m,
        Err(e) => {
            return Err(e);
        },
    };
    let mut section: Vec<char> = Vec::new();
    push_str(&mut section, "driver/");
    push_str(&mut section, driver.as_str());
    let section = string_of(&section);
    let driver_config = if ini.has_section(section.as_str()) {
        Some(parse_driver_config(ini, section.as_str()))
    } else {
        None
    };
    Ok(DeviceEntry { name, driver, matches, driver_config })
}

/// Reads the text of a `.device` file into a catalog entry.
pub fn parse_device_file(text: &str) -> (r: Result<DeviceEntry, String>)
    ensures
        match entry_of_text(text@) {
            Some(e) => r is Ok && entry_view(r->Ok_0) == e,
            None => r is Err && (ini_contents(text@) is Some ==> r->Err_0@ == entry_error(
                ini_contents(text@)->0,
            )),
        },
{
    match read_ini(text) {
        Ok(ini) => entry_from_ini(&ini),
        Err(e) => {
            let mut m: Vec<char> = Vec::new();
            push_str(&mut m, "INI parse error: ");
            push_str(&mut m, e.as_str());
            Err(string_of(&m))
        },
    }
}

// ---------------------------------------------------------------------------
// The catalog
// ---------------------------------------------------------------------------

/// The catalog: which entry serves a bus, a vendor and a product. Each
/// match pattern of an entry is a key of its own; an entry that is added
/// later takes the keys that it shares with an earlier one.
pub struct DeviceDb {
    /// The entries, in the order in which they were added.
    pub entries: Vec<DeviceEntry>,
}

fn same_bus(a: &BusType, b: &BusType) -> (r: bool)
    ensures
        r == (a@ == b@),
{
    match (a, b) {
        (BusType::Usb, BusType::Usb) => true,
        (BusType::Bluetooth, BusType::Bluetooth) => true,
        (BusType::Other(x), BusType::Other(y)) => same_text(x, y.as_str()),
        _ => false,
    }
}

/// Whether an entry has a match pattern for a bus, a vendor and a product.
pub open spec fn entry_matches(e: DeviceEntry, bus: BusTypeModel, vid: u16, pid: u16) -> bool {
    exists|j: int|
        0 <= j < e.matches@.len() && (#[trigger] e.matches@[j])@ == (DeviceMatchModel {
            bustype: bus,
            vid,
            pid,
        })
}

/// The position of the entry that serves a device among the first `n`
/// entries: the last that has a match pattern for it.
pub open spec fn serving(entries: Seq<DeviceEntry>, bus: BusTypeModel, vid: u16, pid: u16, n: int) -> Option<
    int,
>
    decreases n,
{
    if n <= 0 || n > entries.len() {
        None
    } else if entry_matches(entries[n - 1], bus, vid, pid) {
        Some(n - 1)
    } else {
        serving(entries, bus, vid, pid, n - 1)
    }
}

impl DeviceDb {
    /// The empty catalog.
    pub fn new() -> (r: Self)
        ensures
            r.entries@.len() == 0,
    {
        DeviceDb { entries: Vec::new() }
    }

    /// The number of entries.
    pub fn len(&self) -> (r: usize)
        ensures
            r == self.entries@.len(),
    {
        self.entries.len()
    }

    /// Adds an entry.
    pub fn insert(&mut self, entry: DeviceEntry)
        ensures
            final(self).entries@ == old(self).entries@.push(entry),
    {
        self.entries.push(entry);
    }

    /// Looks up the entry that serves a device.
    pub fn lookup(&self, bustype: &BusType, vid: u16, pid: u16) -> (r: Option<&DeviceEntry>)
        ensures
            match serving(self.entries@, bustype@, vid, pid, self.entries@.len() as int) {
                Some(i) => r == Some(&self.entries@[i]),
                None => r is None,
            },
    {
        let mut n: usize = self.entries.len();
        while n > 0
            invariant
                n <= self.entries@.len(),
                serving(self.entries@, bustype@, vid, pid, self.entries@.len() as int) == serving(
                    self.entries@,
                    bustype@,
                    vid,
                    pid,
                    n as int,
                ),
            decreases n,
        {
            let e = &self.entries[n - 1];
            let mut j: usize = 0;
            while j < e.matches.len()
                invariant
                    j <= e.matches@.len(),
                    0 < n <= self.entries@.len(),
                    *e == self.entries@[n - 1],
                    serving(self.entries@, bustype@, vid, pid, self.entries@.len() as int)
                        == serving(self.entries@, bustype@, vid, pid, n as int),
                    forall|k: int|
                        0 <= k < j ==> (#[trigger] e.matches@[k])@ != (DeviceMatchModel {
                            bustype: bustype@,
                            vid,
                            pid,
                        }),
                decreases e.matches@.len() - j,
            {
                let m = &e.matches[j];
                if same_bus(&m.bustype, bustype) && m.vid == vid && m.pid == pid {
                    assert(entry_matches(*e, bustype@, vid, pid));
                    return Some(e);
                }
                j += 1;
            }
            assert(!entry_matches(*e, bustype@, vid, pid));
            n -= 1;
        }
        None
    }
}

} // verus!
