use ratbagd::actor::{ActorAction, ActorEvent, DeviceActor};
use ratbagd::device::{DeviceInfo, Dpi, ProfileInfo, ResolutionInfo};
use ratbagd::device_database::{BusType, DeviceEntry, DeviceMatch, DriverConfig};
use ratbagd::device_file::DeviceDb;
use ratbagd::driver::hidpp::PAGE_ADJUSTABLE_DPI;
use ratbagd::driver::hidpp::PAGE_ONBOARD_PROFILES;
use ratbagd::driver::hidpp20_driver::{Hidpp20Driver, Stage};
use ratbagd::driver::registry::{create_driver, Driver};
use ratbagd::driver::{DriverAction, DriverError, DriverEvent, Reply};

fn device(dirty: bool) -> DeviceInfo {
    let mut p = ProfileInfo::default();
    p.is_active = true;
    p.is_dirty = dirty;
    p.resolutions.push(ResolutionInfo {
        index: 0,
        dpi: Dpi::Unified(1600),
        dpi_list: Vec::new(),
        capabilities: Vec::new(),
        is_active: true,
        is_default: true,
        is_disabled: false,
    });
    DeviceInfo {
        sysname: "hidraw5".to_string(),
        name: "Mouse".to_string(),
        model: "usb:046d:c08b:0".to_string(),
        firmware_version: String::new(),
        profiles: vec![p],
        driver_config: DriverConfig::default(),
    }
}

#[test]
fn commit_writes_live_settings_of_a_dirty_profile_only() {
    let mut d = Hidpp20Driver::new();
    d.features.insert(PAGE_ADJUSTABLE_DPI, 4);

    /* Nothing is staged: nothing is written, and the commit is done. */
    assert_eq!(d.commit_step(&device(false), DriverEvent::Start), DriverAction::Done);

    /* The active profile is dirty: its DPI is written, high byte first. */
    match d.commit_step(&device(true), DriverEvent::Start) {
        DriverAction::Request { report, attempts, .. } => {
            assert_eq!(attempts, 3);
            assert_eq!(&report[..7], &[0x11, 0xFF, 4, 0x30 | (report[3] & 0x0F), 0, 0x06, 0x40]);
        }
        other => panic!("unexpected {:?}", other),
    }
    assert!(matches!(d.stage, Stage::CommitDpi { a: 0 }));
}

#[test]
fn sectors_without_size_leave_every_profile_enabled() {
    let mut d = Hidpp20Driver::new();
    d.features.insert(PAGE_ONBOARD_PROFILES, 7);
    let mut info = device(false);
    info.profiles[0].is_enabled = false;
    assert!(matches!(d.load_step(&mut info, DriverEvent::Start), DriverAction::Request { .. }));
    /* Three profiles, two buttons, sectors of no size. */
    let mut descr = [0u8; 16];
    descr[3] = 3;
    descr[5] = 2;
    let r = d.load_step(&mut info, DriverEvent::Matched(Reply::Payload(descr)));
    assert_eq!(r, DriverAction::Done);
    assert!(d.needs_eeprom_repair);
    assert_eq!(info.profiles.len(), 3);
    assert!(info.profiles.iter().all(|p| p.is_enabled));
    assert!(info.profiles.iter().all(|p| p.buttons.len() == 2));
    assert!(info.profiles[0].is_active);
}

#[test]
fn drivers_are_made_fresh() {
    match create_driver("hidpp20").unwrap() {
        Driver::Hidpp20(d) => {
            assert_eq!(d.device_index, 0xFF);
            assert_eq!((d.version.major, d.version.minor), (0, 0));
            assert!(d.features.onboard_profiles.is_none() && d.features.adjustable_dpi.is_none());
            assert!(d.cached_onboard_info.is_none());
            assert!(!d.needs_eeprom_repair && !d.any_written && !d.force_repair);
            assert!(d.last_error.is_none());
            assert!(matches!(d.stage, Stage::Idle));
        }
        _ => panic!("another driver"),
    }
    match create_driver("asus").unwrap() {
        Driver::Asus(d) => {
            assert!(!d.is_ready);
            assert!(d.plan.is_empty() && d.scratch.is_none() && d.failure.is_none());
        }
        _ => panic!("another driver"),
    }
    match create_driver("steelseries").unwrap() {
        Driver::Steelseries(d) => assert_eq!((d.version, d.next, d.plan.len()), (0, 0, 0)),
        _ => panic!("another driver"),
    }
}

#[test]
fn failed_probe_is_reported_in_context() {
    let mut info = device(false);
    let mut actor = DeviceActor::new(create_driver("hidpp10").unwrap());
    assert!(matches!(actor.start_step(&mut info, ActorEvent::Begin), ActorAction::Io(_)));
    let r = actor.start_step(
        &mut info,
        ActorEvent::Io(DriverEvent::Failed(DriverError::Timeout { attempts: 3 })),
    );
    assert_eq!(
        r,
        ActorAction::StartFailed(
            "Probing with Logitech HID++ 1.0: Protocol version query failed: HID++ 1.0 GET_REGISTER failed"
                .to_string()
        )
    );

    /* A load that fails is reported in its own context. */
    let mut actor = DeviceActor::new(create_driver("hidpp20").unwrap());
    let mut a = actor.start_step(&mut info, ActorEvent::Begin);
    /* The version query is answered, every feature but the onboard
     * profiles is absent. */
    a = match a {
        ActorAction::Io(_) => actor.start_step(
            &mut info,
            ActorEvent::Io(DriverEvent::Matched(Reply::Version { major: 4, minor: 2 })),
        ),
        other => panic!("unexpected {:?}", other),
    };
    let mut asked = 0;
    while let ActorAction::Io(DriverAction::Request { report, .. }) = &a {
        if report[2] != 0 {
            break;
        }
        let page = u16::from_be_bytes([report[4], report[5]]);
        let found = if page == PAGE_ONBOARD_PROFILES { Some(9) } else { None };
        a = actor.start_step(
            &mut info,
            ActorEvent::Io(DriverEvent::Matched(Reply::FeatureIndex(found))),
        );
        asked += 1;
        assert!(asked < 20);
    }
    /* The first request of the load asks for the description of the
     * memory; the device does not answer. */
    assert!(matches!(&a, ActorAction::Io(DriverAction::Request { report, .. }) if report[2] == 9));
    let r = actor.start_step(
        &mut info,
        ActorEvent::Io(DriverEvent::Failed(DriverError::Timeout { attempts: 3 })),
    );
    match r {
        ActorAction::StartFailed(text) => {
            assert!(text.starts_with("Loading profiles with Logitech HID++ 2.0: "), "{}", text);
            assert!(text.ends_with("Hardware timed out after 3 attempt(s)"), "{}", text);
        }
        other => panic!("unexpected {:?}", other),
    }
}

#[test]
fn arriving_device_takes_the_tunables_of_its_entry() {
    let mut db = DeviceDb::new();
    db.insert(DeviceEntry {
        name: "G Pro".to_string(),
        driver: "hidpp20".to_string(),
        matches: vec![DeviceMatch { bustype: BusType::Usb, vid: 0x046d, pid: 0xc088 }],
        driver_config: Some(DriverConfig {
            profiles: Some(2),
            wireless: true,
            quirks: vec!["Q".to_string()],
            ..DriverConfig::default()
        }),
    });
    db.insert(DeviceEntry {
        name: "Plain".to_string(),
        driver: "hidpp10".to_string(),
        matches: vec![DeviceMatch { bustype: BusType::Usb, vid: 1, pid: 2 }],
        driver_config: None,
    });
    let (_, info) = db.match_device("hidraw0", "n", 3, 0x046d, 0xc088).unwrap();
    assert_eq!(info.driver_config.profiles, Some(2));
    assert!(info.driver_config.wireless);
    assert_eq!(info.driver_config.quirks, vec!["Q"]);
    let (_, info) = db.match_device("hidraw0", "n", 3, 1, 2).unwrap();
    assert_eq!(info.driver_config.profiles, None);
    assert!(!info.driver_config.wireless);
    assert!(info.driver_config.quirks.is_empty());
}

#[test]
fn failed_load_says_which_call_failed() {
    /* The device answers the query for the description with an error. */
    let mut d = Hidpp20Driver::new();
    d.features.insert(PAGE_ONBOARD_PROFILES, 7);
    let mut info = device(false);
    assert!(matches!(d.load_step(&mut info, DriverEvent::Start), DriverAction::Request { .. }));
    assert_eq!(
        d.load_step(&mut info, DriverEvent::Matched(Reply::HidppError(2))),
        DriverAction::Failed(
            "Failed to get Onboard Profiles Description: HID++ error ERR_INVALID_ARGUMENT \
             (0x02) for feature 0x07 fn=0"
                .to_string()
        )
    );

    /* The query is never answered. */
    let mut d = Hidpp20Driver::new();
    d.features.insert(PAGE_ONBOARD_PROFILES, 7);
    assert!(matches!(d.load_step(&mut info, DriverEvent::Start), DriverAction::Request { .. }));
    assert_eq!(
        d.load_step(&mut info, DriverEvent::Failed(DriverError::Timeout { attempts: 3 })),
        DriverAction::Failed(
            "Failed to get Onboard Profiles Description: Feature request (idx=0x07, fn=0) \
             failed: Hardware timed out after 3 attempt(s)"
                .to_string()
        )
    );

    /* A step that belongs to no load. */
    let mut d = Hidpp20Driver::new();
    assert_eq!(
        d.load_step(&mut info, DriverEvent::Completed),
        DriverAction::Failed("HID++ 2.0 load: unexpected event".to_string())
    );
}

#[test]
fn failed_probe_says_which_addresses_it_tried() {
    let mut d = Hidpp20Driver::new();
    assert!(matches!(d.probe_step(DriverEvent::Start), DriverAction::Request { .. }));
    let lost = || DriverEvent::Failed(DriverError::Timeout { attempts: 3 });
    assert!(matches!(d.probe_step(lost()), DriverAction::Request { .. }));
    assert_eq!(
        d.probe_step(lost()),
        DriverAction::Failed(
            "HID++ 2.0 protocol version probe failed (tried indices: [FF, 00])".to_string()
        )
    );
    assert_eq!(
        d.probe_step(lost()),
        DriverAction::Failed("HID++ 2.0 probe: unexpected event".to_string())
    );
}

#[test]
fn step_outside_a_commit_fails_with_its_own_words() {
    let mut d = Hidpp20Driver::new();
    assert_eq!(
        d.commit_step(&device(false), DriverEvent::Completed),
        DriverAction::Failed("HID++ 2.0 commit: unexpected event".to_string())
    );
}
