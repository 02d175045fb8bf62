use ratbagd::device::{
    ActionType, ButtonInfo, Color, DeviceInfo, Dpi, LedInfo, LedMode, ProfileInfo, ResolutionInfo,
};
use ratbagd::device_database::DriverConfig;
use ratbagd::driver::steelseries::{
    SteelseriesButtonReport, SteelseriesDpiReportV1, SteelseriesDpiReportV2,
    SteelseriesDpiReportV3, SteelseriesDpiReportV4, SteelseriesFirmwareRequestV1,
    SteelseriesFirmwareRequestV2, SteelseriesLedColorReportV1, SteelseriesLedEffectReportV1,
    SteelseriesLedPoint, SteelseriesLedReportV2, SteelseriesLedReportV3, SteelseriesReportRateV1,
    SteelseriesReportRateV2, SteelseriesReportRateV4, SteelseriesSaveV1, SteelseriesSaveV2,
    SteelseriesSaveV3, SteelseriesSettingsRequest,
};
use ratbagd::driver::steelseries_driver::{
    apply_settings, build_button_report, build_skeleton_profile, firmware_from_reply, plan_commit,
    quirks_have_senseiraw, SteelseriesDriver, SteelseriesStage,
};
use ratbagd::driver::{DriverAction, DriverError, DriverEvent};

fn zeros_with(size: usize, head: &[u8]) -> Vec<u8> {
    let mut v = vec![0u8; size];
    v[..head.len()].copy_from_slice(head);
    v
}

#[test]
fn fixed_reports() {
    assert_eq!(SteelseriesDpiReportV1::new(1, 7).into_bytes().to_vec(), zeros_with(32, &[0x03, 1, 7]));
    assert_eq!(
        SteelseriesDpiReportV2::new(2, 31).into_bytes().to_vec(),
        zeros_with(64, &[0x53, 0, 2, 31, 0, 0, 0x42])
    );
    assert_eq!(
        SteelseriesDpiReportV3::new(2, 31).into_bytes().to_vec(),
        zeros_with(64, &[0x03, 0, 2, 31, 0, 0x42])
    );
    assert_eq!(SteelseriesDpiReportV4::new(1, 7).into_bytes().to_vec(), zeros_with(32, &[0x15, 1, 7]));
    assert_eq!(SteelseriesReportRateV1::new(4).into_bytes().to_vec(), zeros_with(32, &[0x04, 0, 4]));
    assert_eq!(SteelseriesReportRateV2::new(1).into_bytes().to_vec(), zeros_with(64, &[0x54, 0, 1]));
    assert_eq!(SteelseriesReportRateV4::new(2).into_bytes().to_vec(), zeros_with(32, &[0x17, 0, 2]));
    assert_eq!(SteelseriesSaveV1::new().into_bytes().to_vec(), zeros_with(32, &[0x09]));
    assert_eq!(SteelseriesSaveV2::new().into_bytes().to_vec(), zeros_with(64, &[0x59]));
    assert_eq!(SteelseriesSaveV3::new().into_bytes().to_vec(), zeros_with(64, &[0x09]));
    assert_eq!(SteelseriesFirmwareRequestV1::new().into_bytes().to_vec(), zeros_with(32, &[0x10]));
    assert_eq!(SteelseriesFirmwareRequestV2::new().into_bytes().to_vec(), zeros_with(64, &[0x90]));
    assert_eq!(
        SteelseriesLedEffectReportV1::new(2, 4).into_bytes().to_vec(),
        zeros_with(32, &[0x07, 2, 4])
    );
    assert_eq!(
        SteelseriesLedColorReportV1::new(2, 10, 20, 30).into_bytes().to_vec(),
        zeros_with(32, &[0x08, 2, 10, 20, 30])
    );
    assert!(SteelseriesSettingsRequest::new(1).is_none());
    assert!(SteelseriesSettingsRequest::new(4).is_none());
    assert_eq!(
        SteelseriesSettingsRequest::new(2).unwrap().into_bytes().to_vec(),
        zeros_with(64, &[0x92])
    );
    assert_eq!(
        SteelseriesSettingsRequest::new(3).unwrap().into_bytes().to_vec(),
        zeros_with(64, &[0x16])
    );
}

#[test]
fn led_report_layouts() {
    let mut v2 = SteelseriesLedReportV2::new();
    v2.led_id = 1;
    v2.duration = [0x34, 0x12];
    v2.disable_repeat = 1;
    v2.npoints = 2;
    v2.points[0] = SteelseriesLedPoint { r: 1, g: 2, b: 3, pos: 4 };
    v2.points[8] = SteelseriesLedPoint { r: 5, g: 6, b: 7, pos: 8 };
    let b = v2.into_bytes();
    assert_eq!(&b[..5], &[0x5b, 0, 1, 0x34, 0x12]);
    assert_eq!(b[19], 1);
    assert_eq!(b[27], 2);
    assert_eq!(&b[28..32], &[1, 2, 3, 4]);
    assert_eq!(&b[60..64], &[5, 6, 7, 8]);

    let mut v3 = SteelseriesLedReportV3::new();
    v3.led_id = 1;
    v3.led_id2 = 1;
    v3.duration = [0x34, 0x12];
    v3.npoints = 1;
    v3.points[7] = SteelseriesLedPoint { r: 5, g: 6, b: 7, pos: 8 };
    let b = v3.into_bytes();
    assert_eq!(&b[..10], &[0x05, 0, 1, 0, 0, 0, 0, 1, 0x34, 0x12]);
    assert_eq!(b[29], 1);
    assert_eq!(&b[58..62], &[5, 6, 7, 8]);
    assert_eq!(&b[62..], &[0, 0]);
}

#[test]
fn button_report_writes() {
    let mut r = SteelseriesButtonReport::new();
    r.write_idx(0, 9);
    r.write_idx(1, 9);
    r.write_idx(2, 7);
    r.write_idx(261, 8);
    r.write_idx(262, 9);
    let b = r.into_bytes();
    assert_eq!(b[0], 0x31);
    assert_eq!(b[1], 0);
    assert_eq!(b[2], 7);
    assert_eq!(b[261], 8);
}

fn button(index: u32, action_type: ActionType, value: u32, events: Vec<(u32, u32)>) -> ButtonInfo {
    ButtonInfo { index, action_type, action_types: Vec::new(), mapping_value: value, macro_entries: events }
}

#[test]
fn button_report_of_a_profile() {
    let mut p = ProfileInfo::default();
    p.buttons.push(button(0, ActionType::Button, 1, vec![]));
    p.buttons.push(button(1, ActionType::Key, 0x104, vec![]));
    p.buttons.push(button(
        2,
        ActionType::Macro,
        0,
        vec![(0, 224), (0, 225), (0, 226), (0, 227), (1, 40), (0, 30), (1, 30)],
    ));
    p.buttons.push(button(3, ActionType::Special, 2, vec![]));
    p.buttons.push(button(4, ActionType::Special, 9, vec![]));
    p.buttons.push(button(5, ActionType::NoAction, 9, vec![]));
    p.buttons.push(button(60, ActionType::Button, 1, vec![]));
    let b = build_button_report(&p, false).into_bytes();
    assert_eq!(&b[..2], &[0x31, 0]);
    assert_eq!(&b[2..7], &[1, 0, 0, 0, 0]);
    assert_eq!(&b[7..12], &[0x51, 4, 0, 0, 0]);
    /* Of four modifiers the first three are written, then the key. */
    assert_eq!(&b[12..17], &[0x51, 0xE0, 0xE1, 0xE2, 30]);
    assert_eq!(&b[17..22], &[0x31, 0, 0, 0, 0]);
    assert_eq!(&b[22..27], &[0, 0, 0, 0, 0]);
    assert_eq!(&b[27..32], &[0, 0, 0, 0, 0]);
    assert_eq!(&b[32..], &[0u8; 230][..]);

    let raw = build_button_report(&p, true).into_bytes();
    assert_eq!(&raw[2..5], &[1, 0, 0]);
    assert_eq!(&raw[5..8], &[0x10, 4, 0]);
    assert_eq!(&raw[8..11], &[0x10, 30, 0]);
    assert_eq!(&raw[11..14], &[0x31, 0, 0]);
}

#[test]
fn quirk_of_the_short_button_report() {
    assert!(!quirks_have_senseiraw(&vec![]));
    assert!(!quirks_have_senseiraw(&vec!["DOUBLE_DPI".to_string()]));
    assert!(quirks_have_senseiraw(&vec![
        "OTHER".to_string(),
        "STEELSERIES_QUIRK_SENSEIRAW".to_string()
    ]));
}

#[test]
fn skeleton() {
    let p = build_skeleton_profile(0);
    assert_eq!(p.name, "Profile 0");
    assert!(p.is_active);
    assert_eq!(p.report_rate, 1000);
    assert_eq!(p.report_rates, vec![125, 250, 500, 1000]);
    assert_eq!(p.resolutions.len(), 2);
    assert_eq!(p.resolutions[0].dpi, Dpi::Unified(800));
    assert_eq!(p.resolutions[1].dpi, Dpi::Unified(1600));
    assert!(p.resolutions[0].is_active && p.resolutions[0].is_default);
    assert!(!p.resolutions[1].is_active);
    assert_eq!(p.buttons.len(), 6);
    assert_eq!(p.buttons[5].mapping_value, 6);
    assert_eq!(p.leds.len(), 2);
    assert_eq!(p.leds[1].color, Color { red: 255, green: 0, blue: 0 });
    assert_eq!(p.leds[1].mode, LedMode::Solid);
    assert_eq!(build_skeleton_profile(12).name, "Profile 12");
}

#[test]
fn settings_of_protocol_two_and_three() {
    let mut p = build_skeleton_profile(0);
    let mut buf = vec![0u8; 12];
    buf[1] = 2; /* second resolution is active */
    buf[2] = 15; /* 1600 */
    buf[4] = 31; /* 3200 */
    buf[6] = 1;
    buf[7] = 2;
    buf[8] = 3;
    buf[9] = 4;
    buf[10] = 5;
    buf[11] = 6;
    apply_settings(&mut p, 2, &buf);
    assert!(!p.resolutions[0].is_active);
    assert!(p.resolutions[1].is_active);
    assert_eq!(p.resolutions[0].dpi, Dpi::Unified(1600));
    assert_eq!(p.resolutions[1].dpi, Dpi::Unified(3200));
    assert_eq!(p.leds[0].color, Color { red: 1, green: 2, blue: 3 });
    assert_eq!(p.leds[1].color, Color { red: 4, green: 5, blue: 6 });

    let mut p = build_skeleton_profile(0);
    apply_settings(&mut p, 2, &[0, 0, 9]);
    assert!(p.resolutions[0].is_active);
    assert_eq!(p.resolutions[0].dpi, Dpi::Unified(1000));
    assert_eq!(p.resolutions[1].dpi, Dpi::Unified(1600));
    assert_eq!(p.leds[0].color, Color { red: 255, green: 0, blue: 0 });

    let mut p = build_skeleton_profile(0);
    apply_settings(&mut p, 3, &[2, 0]);
    assert!(!p.resolutions[0].is_active);
    assert!(p.resolutions[1].is_active);
    assert_eq!(p.resolutions[0].dpi, Dpi::Unified(800));

    let mut p = build_skeleton_profile(0);
    apply_settings(&mut p, 2, &[2]);
    assert!(p.resolutions[0].is_active);
    let mut p = build_skeleton_profile(0);
    apply_settings(&mut p, 1, &[2, 2, 2, 2]);
    assert!(p.resolutions[0].is_active);
}

#[test]
fn firmware_version_text() {
    assert_eq!(firmware_from_reply(&[7, 1, 0, 0]), Some("1.7".to_string()));
    assert_eq!(firmware_from_reply(&[200, 100]), Some("100.200".to_string()));
    assert_eq!(firmware_from_reply(&[7]), None);
    assert_eq!(firmware_from_reply(&[]), None);
}

fn device(version: u32) -> DeviceInfo {
    DeviceInfo {
        sysname: "hidraw1".to_string(),
        name: "Rival".to_string(),
        model: "usb:1038:1702:0".to_string(),
        firmware_version: String::new(),
        profiles: Vec::new(),
        driver_config: DriverConfig { device_version: Some(version), ..DriverConfig::default() },
    }
}

#[test]
fn load_of_protocol_two() {
    let mut info = device(2);
    let mut d = SteelseriesDriver::new();
    assert_eq!(d.probe_step(DriverEvent::Start), DriverAction::Done);
    assert_eq!(d.load_step(&mut info, DriverEvent::Start), DriverAction::Sleep(10));
    assert_eq!(d.version, 2);
    assert_eq!(info.profiles.len(), 1);
    assert_eq!(
        d.load_step(&mut info, DriverEvent::Completed),
        DriverAction::WriteReport(zeros_with(64, &[0x92]))
    );
    assert_eq!(
        d.load_step(&mut info, DriverEvent::Completed),
        DriverAction::ReadReport { len: 64, timeout_ms: Some(500) }
    );
    let mut reply = vec![0u8; 64];
    reply[1] = 1;
    reply[2] = 3;
    assert_eq!(d.load_step(&mut info, DriverEvent::Data(reply)), DriverAction::Sleep(10));
    assert_eq!(info.profiles[0].resolutions[0].dpi, Dpi::Unified(400));
    assert_eq!(
        d.load_step(&mut info, DriverEvent::Completed),
        DriverAction::WriteReport(zeros_with(64, &[0x90]))
    );
    assert_eq!(
        d.load_step(&mut info, DriverEvent::Completed),
        DriverAction::ReadReport { len: 64, timeout_ms: Some(500) }
    );
    assert_eq!(d.load_step(&mut info, DriverEvent::Data(vec![3, 1])), DriverAction::Done);
    assert_eq!(info.firmware_version, "1.3");
    assert_eq!(d.stage, SteelseriesStage::Idle);
}

#[test]
fn load_goes_on_when_the_device_is_silent() {
    let mut info = device(3);
    let mut d = SteelseriesDriver::new();
    d.load_step(&mut info, DriverEvent::Start);
    d.load_step(&mut info, DriverEvent::Completed);
    d.load_step(&mut info, DriverEvent::Completed);
    let timeout = DriverEvent::Failed(DriverError::Timeout { attempts: 1 });
    assert_eq!(d.load_step(&mut info, timeout.clone()), DriverAction::Sleep(10));
    d.load_step(&mut info, DriverEvent::Completed);
    d.load_step(&mut info, DriverEvent::Completed);
    assert_eq!(d.load_step(&mut info, timeout), DriverAction::Done);
    assert_eq!(info.firmware_version, "");
    assert_eq!(info.profiles[0].resolutions[0].dpi, Dpi::Unified(800));

    /* Without a device version the first protocol is assumed, which has
     * no settings request. */
    let mut info = device(1);
    info.driver_config.device_version = None;
    let mut d = SteelseriesDriver::new();
    assert_eq!(d.load_step(&mut info, DriverEvent::Start), DriverAction::Sleep(10));
    assert_eq!(d.version, 1);
    assert_eq!(d.stage, SteelseriesStage::FirmwarePause);
    let mut info = device(4);
    let mut d = SteelseriesDriver::new();
    assert_eq!(d.load_step(&mut info, DriverEvent::Start), DriverAction::Done);
}

fn led(index: u32, mode: LedMode, duration: u32) -> LedInfo {
    LedInfo {
        index,
        mode,
        modes: Vec::new(),
        color: Color { red: 10, green: 20, blue: 30 },
        secondary_color: Color { red: 0, green: 0, blue: 0 },
        tertiary_color: Color { red: 0, green: 0, blue: 0 },
        color_depth: 3,
        effect_duration: duration,
        brightness: 255,
    }
}

fn committed(version: u32) -> DeviceInfo {
    let mut info = device(version);
    let mut p = ProfileInfo::default();
    p.is_active = true;
    p.report_rate = 500;
    p.resolutions.push(ResolutionInfo {
        index: 0,
        dpi: Dpi::Unified(800),
        dpi_list: Vec::new(),
        capabilities: Vec::new(),
        is_active: false,
        is_default: true,
        is_disabled: false,
    });
    p.resolutions.push(ResolutionInfo {
        index: 1,
        dpi: Dpi::Unified(3200),
        dpi_list: Vec::new(),
        capabilities: Vec::new(),
        is_active: true,
        is_default: false,
        is_disabled: false,
    });
    p.buttons.push(button(0, ActionType::Button, 1, vec![]));
    p.leds.push(led(0, LedMode::Breathing, 4000));
    p.leds.push(led(1, LedMode::Cycle, 4000));
    info.profiles.push(p);
    info
}

#[test]
fn commit_plan_of_protocol_one() {
    let info = committed(1);
    let plan = plan_commit(&info, 1).unwrap();
    let mut buttons = vec![0u8; 262];
    buttons[0] = 0x31;
    buttons[2] = 1;
    assert_eq!(
        plan,
        vec![
            DriverAction::Sleep(10),
            DriverAction::WriteReport(zeros_with(32, &[0x03, 2, 31])),
            DriverAction::Sleep(10),
            DriverAction::WriteReport(buttons),
            DriverAction::Sleep(10),
            DriverAction::WriteReport(zeros_with(32, &[0x07, 1, 0x03])),
            DriverAction::Sleep(10),
            DriverAction::WriteReport(zeros_with(32, &[0x08, 1, 10, 20, 30])),
            /* The second LED cycles, which the first protocol cannot show. */
            DriverAction::Sleep(10),
            DriverAction::WriteReport(zeros_with(32, &[0x04, 0, 2])),
            DriverAction::Sleep(20),
            DriverAction::WriteReport(zeros_with(32, &[0x09])),
        ]
    );
}

#[test]
fn commit_plan_of_protocol_three() {
    let info = committed(3);
    let plan = plan_commit(&info, 3).unwrap();
    assert_eq!(plan.len(), 12);
    assert_eq!(plan[1], DriverAction::WriteReport(zeros_with(64, &[0x03, 0, 2, 31, 0, 0x42])));
    assert!(matches!(&plan[3], DriverAction::SetFeatureReport(b) if b.len() == 262));
    match &plan[5] {
        DriverAction::SetFeatureReport(b) => {
            assert_eq!(b.len(), 64);
            assert_eq!(b[0], 0x05);
            assert_eq!(b[2], 0);
            assert_eq!(b[7], 0);
            /* 4000 ms, low byte first. */
            assert_eq!(&b[8..10], &[0xA0, 0x0F]);
            assert_eq!(b[24], 0);
            assert_eq!(b[29], 3);
            assert_eq!(&b[30..42], &[10, 20, 30, 0, 10, 20, 30, 0x7F, 0, 0, 0, 0x7F]);
        }
        other => panic!("unexpected {:?}", other),
    }
    match &plan[7] {
        DriverAction::SetFeatureReport(b) => {
            assert_eq!(b[2], 1);
            assert_eq!(b[29], 1);
            assert_eq!(&b[30..34], &[10, 20, 30, 0]);
        }
        other => panic!("unexpected {:?}", other),
    }
    assert_eq!(plan[9], DriverAction::WriteReport(zeros_with(64, &[0x04, 0, 2])));
    assert_eq!(plan[11], DriverAction::WriteReport(zeros_with(64, &[0x09])));
    assert_eq!(plan_commit(&info, 9).unwrap().len(), 2);
}

#[test]
fn commit_runs_the_plan_and_stops_at_a_failure() {
    let info = committed(2);
    let mut d = SteelseriesDriver::new();
    d.version = 2;
    let mut action = d.commit_step(&info, DriverEvent::Start);
    let mut performed = 0;
    loop {
        match action {
            DriverAction::Done => break,
            DriverAction::Failed(e) => panic!("failed: {}", e),
            _ => {
                performed += 1;
                action = d.commit_step(&info, DriverEvent::Completed);
            }
        }
    }
    assert_eq!(performed, 12);

    let mut d = SteelseriesDriver::new();
    d.version = 2;
    d.commit_step(&info, DriverEvent::Start);
    d.commit_step(&info, DriverEvent::Completed);
    let failure = DriverEvent::Failed(DriverError::Io {
        device: "hidraw1".to_string(),
        source: "unplugged".to_string(),
    });
    assert_eq!(
        d.commit_step(&info, failure),
        DriverAction::Failed("I/O failure on hidraw1: unplugged".to_string())
    );

    let empty = device(2);
    let mut d = SteelseriesDriver::new();
    assert!(matches!(d.commit_step(&empty, DriverEvent::Start), DriverAction::Failed(_)));
}

#[test]
fn commit_without_profiles_says_so() {
    let mut d = SteelseriesDriver::new();
    let mut info = device(1);
    info.profiles.clear();
    assert_eq!(
        d.commit_step(&info, DriverEvent::Start),
        DriverAction::Failed(
            "No profiles found in DeviceInfo (SteelSeries hardware requires at least 1)"
                .to_string()
        )
    );
    assert_eq!(
        d.commit_step(&info, DriverEvent::Completed),
        DriverAction::Failed("SteelSeries commit: unexpected event".to_string())
    );
}
