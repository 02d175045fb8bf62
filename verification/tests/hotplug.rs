use ratbagd::device::DeviceInfo;
use ratbagd::device_database::{BusType, DeviceEntry, DeviceMatch, DriverConfig};
use ratbagd::device_file::DeviceDb;
use ratbagd::hotplug::{device_object_path, object_paths, parse_hid_id, DeviceAction};

#[test]
fn hid_identifiers() {
    assert_eq!(parse_hid_id("0003:0000046D:0000C539"), Some((3, 0x046d, 0xc539)));
    assert_eq!(parse_hid_id("0005:046d:b012"), Some((5, 0x046d, 0xb012)));
    assert_eq!(parse_hid_id("3:1:2"), Some((3, 1, 2)));
    assert_eq!(parse_hid_id("0003:0001046D:0000C539"), None);
    assert_eq!(parse_hid_id("0003:046d"), None);
    assert_eq!(parse_hid_id("0003:046d:c539:0"), None);
    assert_eq!(parse_hid_id("0003::c539"), None);
    assert_eq!(parse_hid_id("usb:046d:c539"), None);
    assert_eq!(parse_hid_id(""), None);
    assert_eq!(parse_hid_id("::"), None);
}

#[test]
fn object_path_of_a_device() {
    assert_eq!(device_object_path("hidraw0"), "/org/freedesktop/ratbag1/device/hidraw0");
    assert_eq!(device_object_path("test-device-1"), "/org/freedesktop/ratbag1/device/test_device_1");
    assert_eq!(device_object_path(""), "/org/freedesktop/ratbag1/device/");
}

fn catalog() -> DeviceDb {
    let mut db = DeviceDb::new();
    db.insert(DeviceEntry {
        name: "G Pro".to_string(),
        driver: "hidpp20".to_string(),
        matches: vec![DeviceMatch { bustype: BusType::Usb, vid: 0x046d, pid: 0xc088 }],
        driver_config: Some(DriverConfig {
            profiles: Some(2),
            buttons: Some(2),
            leds: Some(1),
            dpis: Some(2),
            ..DriverConfig::default()
        }),
    });
    db.insert(DeviceEntry {
        name: "Odd bus".to_string(),
        driver: "asus".to_string(),
        matches: vec![DeviceMatch { bustype: BusType::Other("0018".to_string()), vid: 1, pid: 2 }],
        driver_config: None,
    });
    db
}

#[test]
fn arriving_device_is_matched_to_its_entry() {
    let db = catalog();
    let (entry, info) = db.match_device("hidraw0", "Logitech G Pro", 3, 0x046d, 0xc088).unwrap();
    assert_eq!(entry.driver, "hidpp20");
    assert_eq!(info.sysname, "hidraw0");
    assert_eq!(info.name, "Logitech G Pro");
    assert_eq!(info.model, "usb:046d:c088:0");
    assert_eq!(info.profiles.len(), 2);
    let (entry, info) = db.match_device("hidraw1", "x", 0x18, 1, 2).unwrap();
    assert_eq!(entry.name, "Odd bus");
    assert_eq!(info.model, "0018:0001:0002:0");
    assert!(db.match_device("hidraw0", "x", 5, 0x046d, 0xc088).is_none());
    assert!(db.match_device("hidraw0", "x", 3, 0x046d, 0xc089).is_none());
}

#[test]
fn objects_of_a_device() {
    let db = catalog();
    let (_, info): (&DeviceEntry, DeviceInfo) =
        db.match_device("hidraw0", "Logitech G Pro", 3, 0x046d, 0xc088).unwrap();
    let paths = object_paths("/d", &info);
    assert_eq!(
        paths,
        vec![
            "/d", "/d/p0", "/d/p0/r0", "/d/p0/r1", "/d/p0/b0", "/d/p0/b1", "/d/p0/l0", "/d/p1",
            "/d/p1/r0", "/d/p1/r1", "/d/p1/b0", "/d/p1/b1", "/d/p1/l0",
        ]
    );
    let mut renumbered = info.clone();
    renumbered.profiles.truncate(1);
    renumbered.profiles[0].index = 7;
    renumbered.profiles[0].buttons[1].index = 30;
    renumbered.profiles[0].resolutions.clear();
    assert_eq!(object_paths("/d", &renumbered), vec!["/d", "/d/p7", "/d/p7/b0", "/d/p7/b30", "/d/p7/l0"]);
    renumbered.profiles.clear();
    assert_eq!(object_paths("/d", &renumbered), vec!["/d"]);
}

#[test]
fn hotplug_events_compare() {
    let add = DeviceAction::Add {
        sysname: "hidraw0".to_string(),
        devnode: "/dev/hidraw0".to_string(),
        name: "n".to_string(),
        bustype: 3,
        vid: 1,
        pid: 2,
    };
    assert_eq!(add.clone(), add);
    assert_ne!(add, DeviceAction::Remove { sysname: "hidraw0".to_string() });
}
