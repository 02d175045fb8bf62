use ratbagd::device::{DeviceInfo, ProfileInfo};
use ratbagd::device_database::DriverConfig;
use ratbagd::driver::hidpp10::{Hidpp10Driver, Hidpp10Stage};
use ratbagd::driver::registry::{create_driver, Driver};
use ratbagd::driver::{DeviceDriver, DriverAction, DriverError, DriverEvent, Expect, Reply};

fn device(profiles: u32) -> DeviceInfo {
    let mut info = DeviceInfo {
        sysname: "hidraw2".to_string(),
        name: "G500".to_string(),
        model: "usb:046d:c068:0".to_string(),
        firmware_version: String::new(),
        profiles: Vec::new(),
        driver_config: DriverConfig::default(),
    };
    for i in 0..profiles {
        info.profiles.push(ProfileInfo { index: i, is_active: i == 0, ..ProfileInfo::default() });
    }
    info
}

#[test]
fn hidpp10_probe() {
    let mut d = Hidpp10Driver::new();
    assert_eq!(
        d.probe_step(DriverEvent::Start),
        DriverAction::Request {
            report: vec![0x10, 0x00, 0x81, 0x00, 0x00, 0x00, 0x00],
            attempts: 3,
            expect: Expect::Register { device_index: 0, sub_id: 0x81 },
        }
    );
    assert_eq!(
        d.probe_step(DriverEvent::Matched(Reply::Register([1, 2, 0]))),
        DriverAction::Done
    );
    assert_eq!((d.version_major, d.version_minor), (1, 2));

    let mut d = Hidpp10Driver::new();
    d.probe_step(DriverEvent::Start);
    let r = d.probe_step(DriverEvent::Failed(DriverError::Timeout { attempts: 3 }));
    assert!(matches!(r, DriverAction::Failed(_)));
    assert_eq!(d.stage, Hidpp10Stage::Idle);
}

#[test]
fn hidpp10_load_marks_the_current_profile() {
    let mut info = device(3);
    let mut d = Hidpp10Driver::new();
    assert_eq!(
        d.load_step(&mut info, DriverEvent::Start),
        DriverAction::Request {
            report: vec![0x10, 0x00, 0x81, 0x0F, 0x00, 0x00, 0x00],
            attempts: 3,
            expect: Expect::Register { device_index: 0, sub_id: 0x81 },
        }
    );
    assert_eq!(
        d.load_step(&mut info, DriverEvent::Matched(Reply::Register([2, 0, 0]))),
        DriverAction::Done
    );
    assert_eq!(
        info.profiles.iter().map(|p| p.is_active).collect::<Vec<_>>(),
        vec![false, false, true]
    );
    /* A device that does not answer counts as being on profile 0. */
    d.load_step(&mut info, DriverEvent::Start);
    assert_eq!(
        d.load_step(&mut info, DriverEvent::Failed(DriverError::Timeout { attempts: 3 })),
        DriverAction::Done
    );
    assert_eq!(
        info.profiles.iter().map(|p| p.is_active).collect::<Vec<_>>(),
        vec![true, false, false]
    );
}

#[test]
fn hidpp10_commit_selects_the_active_profile() {
    let mut info = device(3);
    info.profiles[0].is_active = false;
    info.profiles[2].is_active = true;
    let mut d = Hidpp10Driver::new();
    assert_eq!(
        d.commit_step(&info, DriverEvent::Start),
        DriverAction::Request {
            report: vec![0x10, 0x00, 0x80, 0x0F, 0x02, 0x00, 0x00],
            attempts: 3,
            expect: Expect::Register { device_index: 0, sub_id: 0x80 },
        }
    );
    assert_eq!(
        d.commit_step(&info, DriverEvent::Matched(Reply::Register([2, 0, 0]))),
        DriverAction::Done
    );
    d.commit_step(&info, DriverEvent::Start);
    assert!(matches!(
        d.commit_step(&info, DriverEvent::Failed(DriverError::Timeout { attempts: 3 })),
        DriverAction::Failed(_)
    ));
    /* No active profile, or one whose index does not fit: nothing to do. */
    info.profiles[2].is_active = false;
    assert_eq!(d.commit_step(&info, DriverEvent::Start), DriverAction::Done);
    info.profiles[1].is_active = true;
    info.profiles[1].index = 256;
    assert_eq!(d.commit_step(&info, DriverEvent::Start), DriverAction::Done);
}

#[test]
fn registry_knows_the_drivers_by_name() {
    let names = [
        ("asus", "asus"),
        ("etekcity", "Etekcity"),
        ("gskill", "G.Skill"),
        ("hidpp10", "Logitech HID++ 1.0"),
        ("hidpp20", "Logitech HID++ 2.0"),
        ("logitech_g600", "Logitech G600"),
        ("marsgaming", "MarsGaming MM4"),
        ("openinput", "OpenInput"),
        ("sinowealth", "SinoWealth"),
        ("sinowealth-nubwo", "SinoWealth-Nubwo"),
        ("steelseries", "SteelSeries"),
    ];
    for (key, name) in names {
        let driver = create_driver(key).expect(key);
        assert_eq!(driver.name(), name);
    }
    assert!(matches!(create_driver("hidpp20"), Some(Driver::Hidpp20(_))));
    assert!(create_driver("").is_none());
    assert!(create_driver("HIDPP20").is_none());
    assert!(create_driver("hidpp2").is_none());
    assert!(create_driver("hidpp200").is_none());
}

#[test]
fn drivers_behind_one_interface() {
    let mut info = device(1);
    let mut driver = create_driver("hidpp10").unwrap();
    assert!(matches!(driver.probe(DriverEvent::Start), DriverAction::Request { .. }));
    assert_eq!(driver.probe(DriverEvent::Matched(Reply::Register([1, 0, 0]))), DriverAction::Done);
    assert!(matches!(
        driver.load_profiles(&mut info, DriverEvent::Start),
        DriverAction::Request { .. }
    ));
    let mut plain = create_driver("gskill").unwrap();
    assert!(matches!(plain.commit(&info, DriverEvent::Start), DriverAction::Failed(_)));
    assert!(matches!(plain.load_profiles(&mut info, DriverEvent::Start), DriverAction::Failed(_)));
}

#[test]
fn failures_say_which_register_access_failed() {
    let lost = || DriverEvent::Failed(DriverError::Timeout { attempts: 3 });
    let mut d = Hidpp10Driver::new();
    d.probe_step(DriverEvent::Start);
    assert_eq!(
        d.probe_step(lost()),
        DriverAction::Failed(
            "Protocol version query failed: HID++ 1.0 GET_REGISTER failed".to_string()
        )
    );
    assert_eq!(
        d.probe_step(lost()),
        DriverAction::Failed("HID++ 1.0 probe: unexpected event".to_string())
    );
    let mut info = DeviceInfo {
        sysname: String::new(),
        name: String::new(),
        model: String::new(),
        firmware_version: String::new(),
        profiles: vec![ProfileInfo::default()],
        driver_config: DriverConfig::default(),
    };
    assert_eq!(
        d.load_step(&mut info, lost()),
        DriverAction::Failed("HID++ 1.0 load: unexpected event".to_string())
    );
    info.profiles[0].is_active = true;
    info.profiles[0].is_dirty = true;
    assert!(matches!(d.commit_step(&info, DriverEvent::Start), DriverAction::Request { .. }));
    assert_eq!(
        d.commit_step(&info, lost()),
        DriverAction::Failed(
            "Failed to commit active profile: HID++ 1.0 SET_REGISTER failed".to_string()
        )
    );
}
