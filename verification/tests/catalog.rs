use ratbagd::device::{ActionType, Color, DeviceInfo, Dpi, LedMode};
use ratbagd::device_database::{
    parse_device_matches, BusType, DeviceEntry, DeviceMatch, DpiRange, DriverConfig,
};
use ratbagd::device_file::{
    entry_from_ini, parse_device_file, parse_driver_config, split_list, DeviceDb, IniData,
    IniEntry,
};

const G_PRO: &str = "# Logitech G Pro
[Device]
Name=Logitech G Pro Wireless
DeviceMatch=usb:046d:c088
Driver=hidpp20

[Driver/hidpp20]
Profiles=5
Buttons=8
Leds=2
Dpis=4
DpiRange=100:16000@50
Wireless=1
";

#[test]
fn device_file_is_read() {
    let e = parse_device_file(G_PRO).unwrap();
    assert_eq!(e.name, "Logitech G Pro Wireless");
    assert_eq!(e.driver, "hidpp20");
    assert_eq!(keys(&e.matches), vec![(BusType::Usb, 0x046d, 0xc088)]);
    let c = e.driver_config.unwrap();
    assert_eq!(c.profiles, Some(5));
    assert_eq!(c.buttons, Some(8));
    assert_eq!(c.leds, Some(2));
    assert_eq!(c.dpis, Some(4));
    assert_eq!(range(&c.dpi_range), Some((100, 16000, 50)));
    assert!(c.wireless);
    assert_eq!(c.device_version, None);
    assert!(c.quirks.is_empty());
    assert!(c.button_mapping.is_empty());
}

#[test]
fn device_file_without_driver_section() {
    let e = parse_device_file("[Device]\nName = A mouse\nDriver = etekcity\nDeviceMatch = bluetooth:1ea7:4011\n")
        .unwrap();
    assert_eq!(e.name, "A mouse");
    assert_eq!(e.driver, "etekcity");
    assert_eq!(e.matches[0].bustype, BusType::Bluetooth);
    assert!(e.driver_config.is_none());

    /* The section of another driver is not that of this one. */
    let e = parse_device_file(
        "[Device]\nName=A\nDriver=asus\nDeviceMatch=usb:0b05:1234\n[Driver/hidpp20]\nProfiles=3\n",
    )
    .unwrap();
    assert!(e.driver_config.is_none());
    /* An empty section gives a configuration without values. */
    let e = parse_device_file("[Device]\nName=A\nDriver=asus\nDeviceMatch=usb:0b05:1234\n[Driver/asus]\n")
        .unwrap();
    let c = e.driver_config.unwrap();
    assert_eq!(c.profiles, None);
    assert_eq!(range(&c.dpi_range), None);
    assert!(!c.wireless);
}

#[test]
fn device_file_errors() {
    assert_eq!(parse_device_file("").unwrap_err(), "Missing [Device] Name");
    assert_eq!(
        parse_device_file("[Device]\nDriver=hidpp20\nDeviceMatch=usb:046d:c088\n").unwrap_err(),
        "Missing [Device] Name"
    );
    assert_eq!(
        parse_device_file("[Device]\nName=x\nDeviceMatch=usb:046d:c088\n").unwrap_err(),
        "Missing [Device] Driver"
    );
    assert_eq!(
        parse_device_file("[Device]\nName=x\nDriver=hidpp20\n").unwrap_err(),
        "Missing [Device] DeviceMatch"
    );
    /* A key without a value counts as missing. */
    assert_eq!(
        parse_device_file("[Device]\nName\nDriver=hidpp20\nDeviceMatch=usb:046d:c088\n").unwrap_err(),
        "Missing [Device] Name"
    );
    assert_eq!(
        parse_device_file("[Device]\nName=x\nDriver=hidpp20\nDeviceMatch=usb:046d\n").unwrap_err(),
        "Invalid DeviceMatch pattern: usb:046d"
    );
    assert!(parse_device_file("[Device]\nName=x\nDriver=hidpp20\nDeviceMatch=usb:zz:c088\n")
        .unwrap_err()
        .starts_with("Invalid VID in 'usb:zz:c088'"));
    assert!(parse_device_file("[Device\nName=x\n").unwrap_err().starts_with("INI parse error: "));
    assert!(parse_device_file("[Device]\n=x\n").unwrap_err().starts_with("INI parse error: "));
}

#[test]
fn device_file_as_the_parser_sees_it() {
    /* Sections and keys are found whatever their case, values keep
     * theirs; what follows a `;` or a `#` on a line is a comment. */
    let e = parse_device_file(
        "[DEVICE]\nNAME = Some Mouse # the name\ndriver=SteelSeries\nDeviceMatch=usb:1038:1702;usb:1038:1710\n[driver/steelseries]\nDeviceVersion=2\n",
    )
    .unwrap();
    assert_eq!(e.name, "Some Mouse");
    assert_eq!(e.driver, "SteelSeries");
    assert_eq!(keys(&e.matches), vec![(BusType::Usb, 0x1038, 0x1702)]);
    /* The section name is looked up as the driver is written. */
    assert!(e.driver_config.is_none());
    /* The last of two values of a key stands. */
    let e = parse_device_file("[Device]\nName=a\nName=b\nDriver=d\nDeviceMatch=usb:0001:0002\n").unwrap();
    assert_eq!(e.name, "b");
}

fn keys(matches: &[DeviceMatch]) -> Vec<(BusType, u16, u16)> {
    matches.iter().map(|m| (m.bustype.clone(), m.vid, m.pid)).collect()
}

fn range(r: &Option<DpiRange>) -> Option<(u32, u32, u32)> {
    r.as_ref().map(|r| (r.min, r.max, r.step))
}

fn ini(entries: &[(&str, &str, Option<&str>)]) -> IniData {
    let mut data = IniData { sections: Vec::new(), entries: Vec::new() };
    for (section, key, value) in entries {
        if !data.sections.iter().any(|s| s == section) {
            data.sections.push(section.to_string());
        }
        data.entries.push(IniEntry {
            section: section.to_string(),
            key: key.to_string(),
            value: value.map(|v| v.to_string()),
        });
    }
    data
}

#[test]
fn driver_configuration_of_a_section() {
    let data = ini(&[
        ("driver/asus", "profiles", Some("3")),
        ("driver/asus", "buttons", Some("eight")),
        ("driver/asus", "leds", Some("4294967296")),
        ("driver/asus", "dpis", Some("4294967295")),
        ("driver/asus", "dpirange", Some("100:1000@100")),
        ("driver/asus", "wireless", Some("0")),
        ("driver/asus", "deviceversion", Some("2")),
        ("driver/asus", "quirks", Some(" DOUBLE_DPI ; ;STRIX_PROFILE;")),
        ("driver/asus", "buttonmapping", Some("f0;F1;zz;100;e4")),
        ("driver/asus", "buttonmappingsecondary", Some("d0")),
        ("driver/asus", "ledmodes", Some("ON;BREATHING")),
        ("driver/other", "profiles", Some("9")),
    ]);
    assert_eq!(data.get("driver/asus", "profiles"), Some("3".to_string()));
    assert_eq!(data.get("driver/asus", "nothing"), None);
    assert_eq!(data.get("driver", "profiles"), None);
    assert!(data.has_section("driver/other"));
    assert!(!data.has_section("driver"));
    let c = parse_driver_config(&data, "driver/asus");
    assert_eq!(c.profiles, Some(3));
    assert_eq!(c.buttons, None);
    assert_eq!(c.leds, None);
    assert_eq!(c.dpis, Some(4294967295));
    assert_eq!(range(&c.dpi_range), Some((100, 1000, 100)));
    assert!(!c.wireless);
    assert_eq!(c.device_version, Some(2));
    assert_eq!(c.quirks, vec!["DOUBLE_DPI", "STRIX_PROFILE"]);
    assert_eq!(c.button_mapping, vec![0xf0, 0xf1, 0xe4]);
    assert_eq!(c.button_mapping_secondary, vec![0xd0]);
    assert_eq!(c.led_modes, vec!["ON", "BREATHING"]);
    let none = parse_driver_config(&data, "driver/none");
    assert_eq!(none.profiles, None);
    assert!(none.quirks.is_empty());

    let data = ini(&[("s", "wireless", Some("7")), ("s", "dpirange", Some("100-200"))]);
    let c = parse_driver_config(&data, "s");
    assert!(c.wireless);
    assert_eq!(range(&c.dpi_range), None);
    let data = ini(&[("s", "wireless", Some("yes")), ("s", "profiles", None)]);
    let c = parse_driver_config(&data, "s");
    assert!(!c.wireless);
    assert_eq!(c.profiles, None);
}

#[test]
fn entry_of_parsed_data() {
    let data = ini(&[
        ("device", "name", Some("M")),
        ("device", "driver", Some("hidpp10")),
        ("device", "devicematch", Some("usb:046d:c068;bluetooth:046d:b012")),
        ("driver/hidpp10", "profiles", Some("5")),
    ]);
    let e = entry_from_ini(&data).unwrap();
    assert_eq!(e.matches.len(), 2);
    assert_eq!(keys(&e.matches)[1], (BusType::Bluetooth, 0x046d, 0xb012));
    assert_eq!(e.driver_config.unwrap().profiles, Some(5));
    let data = ini(&[("device", "name", Some("M")), ("device", "driver", Some("x")), ("device", "devicematch", Some(" ; "))]);
    assert_eq!(entry_from_ini(&data).unwrap_err(), "DeviceMatch is empty");
}

#[test]
fn lists_are_split_at_semicolons() {
    assert_eq!(split_list("a;b;c"), vec!["a", "b", "c"]);
    assert_eq!(split_list(" a ;; b\t;"), vec!["a", "b"]);
    assert_eq!(split_list("one two"), vec!["one two"]);
    assert!(split_list("").is_empty());
    assert!(split_list(" ; ;").is_empty());
}

fn entry(name: &str, matches: &[(BusType, u16, u16)]) -> DeviceEntry {
    DeviceEntry {
        name: name.to_string(),
        driver: "hidpp20".to_string(),
        matches: matches
            .iter()
            .map(|(b, v, p)| DeviceMatch { bustype: b.clone(), vid: *v, pid: *p })
            .collect(),
        driver_config: None,
    }
}

#[test]
fn catalog_lookup() {
    let mut db = DeviceDb::new();
    assert_eq!(db.len(), 0);
    assert!(db.lookup(&BusType::Usb, 1, 2).is_none());
    db.insert(entry("first", &[(BusType::Usb, 1, 2), (BusType::Bluetooth, 1, 2)]));
    db.insert(entry("second", &[(BusType::Usb, 1, 3), (BusType::Other("i2c".to_string()), 1, 2)]));
    assert_eq!(db.lookup(&BusType::Usb, 1, 2).unwrap().name, "first");
    assert_eq!(db.lookup(&BusType::Bluetooth, 1, 2).unwrap().name, "first");
    assert_eq!(db.lookup(&BusType::Usb, 1, 3).unwrap().name, "second");
    assert_eq!(db.lookup(&BusType::Other("i2c".to_string()), 1, 2).unwrap().name, "second");
    assert!(db.lookup(&BusType::Other("spi".to_string()), 1, 2).is_none());
    assert!(db.lookup(&BusType::Usb, 2, 1).is_none());
    /* A later entry takes the keys that it shares with an earlier one. */
    db.insert(entry("third", &[(BusType::Usb, 1, 2)]));
    assert_eq!(db.lookup(&BusType::Usb, 1, 2).unwrap().name, "third");
    assert_eq!(db.lookup(&BusType::Bluetooth, 1, 2).unwrap().name, "first");
}

#[test]
fn fresh_device_of_an_entry() {
    let e = parse_device_file(G_PRO).unwrap();
    let info = DeviceInfo::from_entry("hidraw0", "Logitech G Pro", 0x03, 0x046d, 0xc088, &e);
    assert_eq!(info.sysname, "hidraw0");
    assert_eq!(info.name, "Logitech G Pro");
    assert_eq!(info.model, "usb:046d:c088:0");
    assert_eq!(info.firmware_version, "");
    assert_eq!(info.driver_config.profiles, Some(5));
    assert_eq!(info.profiles.len(), 5);
    for (i, p) in info.profiles.iter().enumerate() {
        assert_eq!(p.index, i as u32);
        assert_eq!(p.name, "");
        assert_eq!(p.is_active, i == 0);
        assert!(p.is_enabled);
        assert!(!p.is_dirty);
        assert_eq!(p.report_rate, 1000);
        assert_eq!(p.report_rates, vec![125, 250, 500, 1000]);
        assert_eq!(p.angle_snapping, -1);
        assert_eq!(p.debounce, -1);
        assert!(p.debounces.is_empty());
        assert_eq!(p.resolutions.len(), 4);
        assert_eq!(p.buttons.len(), 8);
        assert_eq!(p.leds.len(), 2);
        for (j, r) in p.resolutions.iter().enumerate() {
            assert_eq!(r.index, j as u32);
            assert_eq!(r.dpi, Dpi::Unified(800));
            assert_eq!(r.dpi_list.len(), 319);
            assert_eq!(r.dpi_list[0], 100);
            assert_eq!(r.dpi_list[1], 150);
            assert_eq!(r.dpi_list[318], 16000);
            assert_eq!(r.is_active, j == 0);
            assert_eq!(r.is_default, j == 0);
            assert!(!r.is_disabled);
        }
        for (j, b) in p.buttons.iter().enumerate() {
            assert_eq!(b.index, j as u32);
            assert_eq!(b.action_type, ActionType::Button);
            assert_eq!(b.action_types, vec![0, 1, 2, 3, 4]);
            assert_eq!(b.mapping_value, j as u32);
        }
        for (j, l) in p.leds.iter().enumerate() {
            assert_eq!(l.index, j as u32);
            assert_eq!(l.mode, LedMode::Off);
            assert_eq!(l.modes, vec![LedMode::Off, LedMode::Solid, LedMode::Cycle, LedMode::ColorWave]);
            assert_eq!(l.color, Color { red: 0, green: 0, blue: 0 });
            assert_eq!(l.color_depth, 1);
            assert_eq!(l.brightness, 255);
        }
    }
}

#[test]
fn fresh_device_without_tunables() {
    let e = entry("plain", &[(BusType::Usb, 1, 2)]);
    let info = DeviceInfo::from_entry("hidraw9", "plain", 0x05, 0x1, 0xabcd, &e);
    assert_eq!(info.model, "bluetooth:0001:abcd:0");
    assert_eq!(info.profiles.len(), 1);
    assert_eq!(info.profiles[0].resolutions.len(), 1);
    assert_eq!(info.profiles[0].resolutions[0].dpi_list, vec![800, 1600]);
    assert!(info.profiles[0].buttons.is_empty());
    assert!(info.profiles[0].leds.is_empty());
    assert_eq!(info.driver_config.profiles, None);
    let info = DeviceInfo::from_entry("hidraw9", "plain", 0x18, 0xffff, 0, &e);
    assert_eq!(info.model, "0018:ffff:0000:0");
    assert_eq!(DeviceInfo::bustype_to_string(3), "usb");

    let mut e = entry("ranged", &[(BusType::Usb, 1, 2)]);
    e.driver_config = Some(DriverConfig {
        profiles: Some(0),
        dpi_range: Some(DpiRange { min: 400, max: 1000, step: 250 }),
        ..DriverConfig::default()
    });
    let info = DeviceInfo::from_entry("hidraw9", "ranged", 3, 1, 2, &e);
    assert!(info.profiles.is_empty());
    e.driver_config.as_mut().unwrap().profiles = Some(2);
    let info = DeviceInfo::from_entry("hidraw9", "ranged", 3, 1, 2, &e);
    assert_eq!(info.profiles.len(), 2);
    assert_eq!(info.profiles[1].resolutions[0].dpi_list, vec![400, 650, 900]);
    e.driver_config.as_mut().unwrap().dpi_range = Some(DpiRange { min: 400, max: 1000, step: 0 });
    let info = DeviceInfo::from_entry("hidraw9", "ranged", 3, 1, 2, &e);
    assert!(info.profiles[0].resolutions[0].dpi_list.is_empty());
}

#[test]
fn rejected_match_lists_say_what_is_wrong() {
    assert_eq!(
        parse_device_matches("usb:046d:zz").unwrap_err(),
        "Invalid PID in 'usb:046d:zz'"
    );
    assert_eq!(
        parse_device_matches("usb:zz:c088").unwrap_err(),
        "Invalid VID in 'usb:zz:c088'"
    );
    /* The first part that is no pattern is the one that is named. */
    assert_eq!(
        parse_device_matches("usb:046d:c539; bad ;usb:zz:1").unwrap_err(),
        "Invalid DeviceMatch pattern: bad"
    );
    assert_eq!(parse_device_matches(" ; ;").unwrap_err(), "DeviceMatch is empty");
    assert_eq!(parse_device_matches("").unwrap_err(), "DeviceMatch is empty");
}
