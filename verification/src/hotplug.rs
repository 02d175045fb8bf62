//! Devices that come and go: what the hotplug feed says of a device, which
//! catalog entry serves it, and the objects that the daemon shows for it.

use vstd::prelude::*;
use crate::device::{
    model_string, seeded_profile, seeding_of, DeviceInfo, DeviceModel, ProfileModel,
};
use crate::device_database::{bus_of_number, BusType, DeviceEntry, DriverConfig};
use crate::device_file::{serving, texts_view, DeviceDb};
use crate::staging::{child_path, child_path_of, profile_path, profile_path_of};
use crate::text::{
    chars_of, find_char, find_from, parse_number, parse_unsigned, push_str, string_of,
};

verus! {

/// What the hotplug feed says.
#[derive(Debug, Clone, PartialEq, Eq)]
pub enum DeviceAction {
    /// A device arrived.
    Add { sysname: String, devnode: String, name: String, bustype: u16, vid: u16, pid: u16 },
    /// The device with this system name left.
    Remove { sysname: String },
}

/// The bus, the vendor and the product that a HID identifier such as
/// `0003:0000046D:0000C539` names: three hexadecimal numbers of at most 16
/// bits, separated by colons.
pub open spec fn hid_id_of(s: Seq<char>) -> Option<(u16, u16, u16)> {
    let n = s.len() as int;
    let a = find_from(s, ':', 0, n);
    let b = find_from(s, ':', a + 1, n);
    if a < n && b < n && find_from(s, ':', b + 1, n) == n {
        match (
            parse_unsigned(s.subrange(0, a), 16, 0xffff),
            parse_unsigned(s.subrange(a + 1, b), 16, 0xffff),
            parse_unsigned(s.subrange(b + 1, n), 16, 0xffff),
        ) {
            (Some(bus), Some(vid), Some(pid)) => Some((bus as u16, vid as u16, pid as u16)),
            _ => None,
        }
    } else {
        None
    }
}

/// Reads a HID identifier.
pub fn parse_hid_id(s: &str) -> (r: Option<(u16, u16, u16)>)
    ensures
        r == hid_id_of(s@),
{
    let v = chars_of(s);
    let n = v.len();
    let a = find_char(&v, ':', 0, n);
    if a >= n {
        return None;
    }
    let b = find_char(&v, ':', a + 1, n);
    if b >= n {
        return None;
    }
    if find_char(&v, ':', b + 1, n) < n {
        return None;
    }
    match (
        parse_number(&v, 0, a, 16, 0xffff),
        parse_number(&v, a + 1, b, 16, 0xffff),
        parse_number(&v, b + 1, n, 16, 0xffff),
    ) {
        (Some(bus), Some(vid), Some(pid)) => Some((bus as u16, vid as u16, pid as u16)),
        _ => None,
    }
}

/// The state of a device that a catalog entry serves, before anything was
/// read from the device.
pub open spec fn fresh_device(
    d: DeviceModel,
    e: DeviceEntry,
    sysname: Seq<char>,
    name: Seq<char>,
    bustype: u16,
    vid: u16,
    pid: u16,
) -> bool {
    &&& d.sysname == sysname
    &&& d.name == name
    &&& d.model == model_string(bustype, vid, pid)
    &&& d.firmware_version == Seq::<char>::empty()
    &&& d.driver_config == (match e.config_view() {
        Some(c) => c,
        None => DriverConfig::empty(),
    })
    &&& d.profiles == Seq::new(
        seeding_of(e.config_view()).profiles as nat,
        |k: int| seeded_profile(k, seeding_of(e.config_view())),
    )
}

impl DeviceDb {
    /// The catalog entry that serves a device which arrived, with the
    /// state of the device before anything was read from it; `None` for a
    /// device that no entry serves.
    pub fn match_device(&self, sysname: &str, name: &str, bustype: u16, vid: u16, pid: u16) -> (r:
        Option<(&DeviceEntry, DeviceInfo)>)
        ensures
            match serving(
                self.entries@,
                bus_of_number(bustype),
                vid,
                pid,
                self.entries@.len() as int,
            ) {
                Some(i) => match r {
                    Some((e, d)) => *e == self.entries@[i] && fresh_device(
                        d@,
                        self.entries@[i],
                        sysname@,
                        name@,
                        bustype,
                        vid,
                        pid,
                    ),
                    None => false,
                },
                None => r is None,
            },
    {
        let bus = BusType::from_u16(bustype);
        match self.lookup(&bus, vid, pid) {
            Some(entry) => {
                let info = DeviceInfo::from_entry(sysname, name, bustype, vid, pid, entry);
                Some((entry, info))
            },
            None => None,
        }
    }
}

/// The name of a device in an object path: its system name with `_` in
/// place of each `-`.
pub open spec fn object_name(sysname: Seq<char>) -> Seq<char> {
    Seq::new(
        sysname.len(),
        |i: int|
            if sysname[i] == '-' {
                '_'
            } else {
                sysname[i]
            },
    )
}

/// The object path of a device.
pub open spec fn device_object_path_of(sysname: Seq<char>) -> Seq<char> {
    "/org/freedesktop/ratbag1/device/"@ + object_name(sysname)
}

/// Builds the object path of a device.
pub fn device_object_path(sysname: &str) -> (r: String)
    ensures
        r@ == device_object_path_of(sysname@),
{
    let name = chars_of(sysname);
    let mut v: Vec<char> = Vec::new();
    push_str(&mut v, "/org/freedesktop/ratbag1/device/");
    let ghost head = v@;
    let mut i: usize = 0;
    while i < name.len()
        invariant
            i <= name@.len(),
            name@ == sysname@,
            head == "/org/freedesktop/ratbag1/device/"@,
            v@ == head + object_name(sysname@).subrange(0, i as int),
        decreases name@.len() - i,
    {
        let c = name[i];
        v.push(
            if c == '-' {
                '_'
            } else {
                c
            },
        );
        i += 1;
        assert(v@ =~= head + object_name(sysname@).subrange(0, i as int));
    }
    assert(object_name(sysname@).subrange(0, name@.len() as int) =~= object_name(sysname@));
    string_of(&v)
}

/// The object paths of a profile: its own, then those of its resolutions,
/// of its buttons and of its LEDs.
pub open spec fn profile_object_paths(dev: Seq<char>, p: ProfileModel) -> Seq<Seq<char>> {
    seq![profile_path_of(dev, p.index)] + Seq::new(
        p.resolutions.len(),
        |j: int| child_path_of(dev, p.index, 'r', p.resolutions[j].index),
    ) + Seq::new(p.buttons.len(), |j: int| child_path_of(dev, p.index, 'b', p.buttons[j].index))
        + Seq::new(p.leds.len(), |j: int| child_path_of(dev, p.index, 'l', p.leds[j].index))
}

/// The object paths of the first `n` profiles, in order.
pub open spec fn profiles_object_paths(dev: Seq<char>, ps: Seq<ProfileModel>, n: int) -> Seq<
    Seq<char>,
>
    decreases n,
{
    if n <= 0 || n > ps.len() {
        Seq::empty()
    } else {
        profiles_object_paths(dev, ps, n - 1) + profile_object_paths(dev, ps[n - 1])
    }
}

/// The object paths of a device: its own, then those of its profiles.
/// Objects are registered in this order and removed in the opposite one.
pub open spec fn device_object_paths(dev: Seq<char>, d: DeviceModel) -> Seq<Seq<char>> {
    seq![dev] + profiles_object_paths(dev, d.profiles, d.profiles.len() as int)
}

/// Lists the object paths of a device.
pub fn object_paths(device_path: &str, info: &DeviceInfo) -> (r: Vec<String>)
    ensures
        texts_view(r@) == device_object_paths(device_path@, info@),
{
    let ghost dev = device_path@;
    let mut out: Vec<String> = Vec::new();
    out.push(device_path.to_string());
    assert(texts_view(out@) =~= seq![dev]);
    let mut i: usize = 0;
    while i < info.profiles.len()
        invariant
            i <= info.profiles@.len(),
            dev == device_path@,
            texts_view(out@) == seq![dev] + profiles_object_paths(dev, info@.profiles, i as int),
        decreases info.profiles@.len() - i,
    {
        let p = &info.profiles[i];
        let ghost base = texts_view(out@);
        let ghost pm = info@.profiles[i as int];
        assert(pm == p@);
        out.push(profile_path(device_path, p.index));
        let ghost first = base + seq![profile_path_of(dev, pm.index)];
        assert(texts_view(out@) =~= first);
        let mut j: usize = 0;
        while j < p.resolutions.len()
            invariant
                j <= p.resolutions@.len(),
                dev == device_path@,
                pm == p@,
                texts_view(out@) == first + Seq::new(
                    j as nat,
                    |k: int| child_path_of(dev, pm.index, 'r', pm.resolutions[k].index),
                ),
            decreases p.resolutions@.len() - j,
        {
            assert(pm.resolutions[j as int] == p.resolutions@[j as int]@);
            let ghost before = texts_view(out@);
            let path = child_path(device_path, p.index, 'r', p.resolutions[j].index);
            let ghost text = path@;
            assert(text == child_path_of(dev, pm.index, 'r', pm.resolutions[j as int].index));
            out.push(path);
            assert(texts_view(out@) =~= before.push(text));
            j += 1;
            assert(texts_view(out@) =~= first + Seq::new(
                j as nat,
                |k: int| child_path_of(dev, pm.index, 'r', pm.resolutions[k].index),
            ));
        }
        let ghost second = texts_view(out@);
        let mut j: usize = 0;
        while j < p.buttons.len()
            invariant
                j <= p.buttons@.len(),
                dev == device_path@,
                pm == p@,
                texts_view(out@) == second + Seq::new(
                    j as nat,
                    |k: int| child_path_of(dev, pm.index, 'b', pm.buttons[k].index),
                ),
            decreases p.buttons@.len() - j,
        {
            assert(pm.buttons[j as int] == p.buttons@[j as int]@);
            let ghost before = texts_view(out@);
            let path = child_path(device_path, p.index, 'b', p.buttons[j].index);
            let ghost text = path@;
            assert(text == child_path_of(dev, pm.index, 'b', pm.buttons[j as int].index));
            out.push(path);
            assert(texts_view(out@) =~= before.push(text));
            j += 1;
            assert(texts_view(out@) =~= second + Seq::new(
                j as nat,
                |k: int| child_path_of(dev, pm.index, 'b', pm.buttons[k].index),
            ));
        }
        let ghost third = texts_view(out@);
        let mut j: usize = 0;
        while j < p.leds.len()
            invariant
                j <= p.leds@.len(),
                dev == device_path@,
                pm == p@,
                texts_view(out@) == third + Seq::new(
                    j as nat,
                    |k: int| child_path_of(dev, pm.index, 'l', pm.leds[k].index),
                ),
            decreases p.leds@.len() - j,
        {
            assert(pm.leds[j as int] == p.leds@[j as int]@);
            let ghost before = texts_view(out@);
            let path = child_path(device_path, p.index, 'l', p.leds[j].index);
            let ghost text = path@;
            assert(text == child_path_of(dev, pm.index, 'l', pm.leds[j as int].index));
            out.push(path);
            assert(texts_view(out@) =~= before.push(text));
            j += 1;
            assert(texts_view(out@) =~= third + Seq::new(
                j as nat,
                |k: int| child_path_of(dev, pm.index, 'l', pm.leds[k].index),
            ));
        }
        assert(texts_view(out@) =~= base + profile_object_paths(dev, pm));
        i += 1;
        assert(texts_view(out@) =~= seq![dev] + profiles_object_paths(
            dev,
            info@.profiles,
            i as int,
        ));
    }
    out
}

} // verus!
