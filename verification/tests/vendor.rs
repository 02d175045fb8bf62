use ratbagd::driver::etekcity::{
    button_to_raw_index, configure_profile_report, raw_to_description, set_active_profile_report,
    EtekcityDriver,
};
use ratbagd::driver::gskill::{
    compute_checksum, dpi_to_raw as gskill_dpi_to_raw, raw_to_dpi as gskill_raw_to_dpi,
    ButtonFunctionType, GskillDriver, LedControlType, MacroExecMethod, RawDpiLevel,
};
use ratbagd::driver::logitech_g600::{
    dpi_to_raw as g600_dpi_to_raw, raw_to_dpi as g600_raw_to_dpi, raw_to_hz, report_id_of_profile,
    ActiveProfileReport, ButtonCode, LG600Driver,
};
use ratbagd::driver::marsgaming::{
    dpi_to_raw as mars_dpi_to_raw, raw_to_dpi as mars_raw_to_dpi, ButtonReport, MarsGamingDriver,
    ProbeStage, ReportType,
};
use ratbagd::driver::openinput::{build_request, page_name, OiReport, OpenInputDriver};
use ratbagd::driver::sinowealth::{
    build_cmd, dpi_to_raw as sino_dpi_to_raw, raw_to_dpi as sino_raw_to_dpi, CommandId, ReportId,
    RgbEffect, Sensor, SinowealhDriver,
};
use ratbagd::driver::sinowealth_nubwo::{
    build_dpi_cmd, build_rate_cmd, encode_dpi, encode_rate, ColorMode, SinowealhNubwoDriver,
};
use ratbagd::driver::{DriverAction, DriverError, DriverEvent};

#[test]
fn etekcity_reports() {
    assert_eq!(configure_profile_report(2, 0x10), [0x04, 2, 0x10]);
    assert_eq!(set_active_profile_report(3), [0x05, 0x03, 3]);
    assert_eq!(button_to_raw_index(0), 0);
    assert_eq!(button_to_raw_index(7), 7);
    assert_eq!(button_to_raw_index(8), 13);
    assert_eq!(button_to_raw_index(9), 14);
    assert_eq!(raw_to_description(1), Some("button(1)"));
    assert_eq!(raw_to_description(16), Some("macro"));
    assert_eq!(raw_to_description(42), Some("key(KEY_SEARCH)"));
    assert_eq!(raw_to_description(5), None);
    assert_eq!(raw_to_description(17), None);
    assert_eq!(raw_to_description(43), None);
}

#[test]
fn etekcity_probe_declines_the_device() {
    let mut d = EtekcityDriver::new();
    assert_eq!(
        d.probe_step(DriverEvent::Start),
        DriverAction::GetFeatureReport(vec![0x05, 0, 0])
    );
    let r = d.probe_step(DriverEvent::Data(vec![0x05, 0, 1]));
    assert!(matches!(r, DriverAction::Failed(_)));
    let data = d.data.as_ref().unwrap();
    assert_eq!(data.profiles.len(), 5);
    assert_eq!(data.settings.len(), 5);

    let mut d = EtekcityDriver::new();
    d.probe_step(DriverEvent::Start);
    let r = d.probe_step(DriverEvent::Failed(DriverError::IoctlFailed("gone".to_string())));
    assert_eq!(r, DriverAction::Failed("Feature report ioctl failed: gone".to_string()));
    assert!(d.data.is_none());
}

#[test]
fn gskill_conversions() {
    assert_eq!(gskill_raw_to_dpi(RawDpiLevel { x: 0, y: 1 }), (50, 100));
    assert_eq!(gskill_raw_to_dpi(RawDpiLevel { x: 163, y: 255 }), (8200, 12800));
    assert_eq!(gskill_dpi_to_raw(100), Some(1));
    assert_eq!(gskill_dpi_to_raw(8200), Some(163));
    assert_eq!(gskill_dpi_to_raw(50), None);
    assert_eq!(gskill_dpi_to_raw(8250), None);
    assert_eq!(gskill_dpi_to_raw(125), None);
    assert_eq!(compute_checksum(&[1, 2, 3, 4]), 0);
    assert_eq!(compute_checksum(&[1, 2, 3, 4, 0x0F, 0xF0, 0x01]), 0xFE);
    assert_eq!(LedControlType::Breathing.code(), 2);
    assert_eq!(ButtonFunctionType::Disable.code(), 0xff);
    assert_eq!(ButtonFunctionType::DirectDpiChange.code(), 0x16);
    assert_eq!(MacroExecMethod::ButtonPress.code(), 5);
}

#[test]
fn gskill_probe() {
    let mut d = GskillDriver::new();
    let first = d.probe_step(DriverEvent::Start);
    assert_eq!(first, DriverAction::GetFeatureReport(vec![0x03, 0, 0, 0, 0, 0, 0, 0, 0]));
    let r = d.probe_step(DriverEvent::Data(vec![0x03, 0xb0, 0x32, 0, 0, 0, 0, 0, 0]));
    assert!(matches!(r, DriverAction::Failed(_)));
    assert_eq!(d.data.as_ref().unwrap().active_profile, 2);

    let mut d = GskillDriver::new();
    d.probe_step(DriverEvent::Start);
    let r = d.probe_step(DriverEvent::Data(vec![0x03, 0xb2, 0x01, 0, 0, 0, 0, 0, 0]));
    assert!(matches!(r, DriverAction::Failed(_)));
    assert!(d.data.is_none());
}

#[test]
fn g600_fields() {
    let report = ActiveProfileReport { id: 0xF0, packed: 0b0010_0101, unknown3: 0, unknown4: 0 };
    assert_eq!(report.profile(), 2);
    assert_eq!(report.resolution(), 2);
    let report = ActiveProfileReport { id: 0xF0, packed: 0xFF, unknown3: 0, unknown4: 0 };
    assert_eq!(report.profile(), 15);
    assert_eq!(report.resolution(), 3);
    assert_eq!(g600_dpi_to_raw(200), Some(4));
    assert_eq!(g600_dpi_to_raw(8200), Some(0xa4));
    assert_eq!(g600_dpi_to_raw(150), None);
    assert_eq!(g600_dpi_to_raw(8250), None);
    assert_eq!(g600_dpi_to_raw(225), None);
    assert_eq!(g600_raw_to_dpi(0xa4), 8200);
    assert_eq!(raw_to_hz(0), 1000);
    assert_eq!(raw_to_hz(1), 500);
    assert_eq!(raw_to_hz(7), 125);
    assert_eq!(raw_to_hz(255), 3);
    assert_eq!(report_id_of_profile(0), 0xF3);
    assert_eq!(report_id_of_profile(2), 0xF5);
    assert_eq!(ButtonCode::Disabled.code(), 0x0f);
}

#[test]
fn g600_probe() {
    let mut d = LG600Driver::new();
    assert_eq!(d.probe_step(DriverEvent::Start), DriverAction::GetFeatureReport(vec![0xF0, 0, 0, 0]));
    let r = d.probe_step(DriverEvent::Data(vec![0xF0, 0x12, 3, 4]));
    assert!(matches!(r, DriverAction::Failed(_)));
    let data = d.data.as_ref().unwrap();
    assert_eq!(data.active.packed, 0x12);
    assert_eq!(data.active.profile(), 1);
    assert_eq!(data.profile_reports.len(), 3);
}

#[test]
fn marsgaming_conversions_and_probe() {
    assert_eq!(mars_dpi_to_raw(50), Some(1));
    assert_eq!(mars_dpi_to_raw(16400), Some(328));
    assert_eq!(mars_dpi_to_raw(0), None);
    assert_eq!(mars_dpi_to_raw(16450), None);
    assert_eq!(mars_dpi_to_raw(75), None);
    assert_eq!(mars_raw_to_dpi(328), 16400);
    assert_eq!(ReportType::Read.code(), 3);
    let buttons = ButtonReport::default();
    assert_eq!(buttons.buttons.len(), 253);

    let mut d = MarsGamingDriver::new();
    match d.probe_step(DriverEvent::Start) {
        DriverAction::WriteReport(buf) => {
            assert_eq!(buf.len(), 64);
            assert_eq!(&buf[..8], &[0x01, 0x03, 0x4f, 0x00, 0x2a, 0x00, 0xfa, 0xfa]);
            assert_eq!(&buf[8..], &[0u8; 56]);
        }
        other => panic!("unexpected {:?}", other),
    }
    assert_eq!(d.stage, ProbeStage::Writing);
    assert_eq!(
        d.probe_step(DriverEvent::Completed),
        DriverAction::ReadReport { len: 64, timeout_ms: None }
    );
    assert!(matches!(d.probe_step(DriverEvent::Data(vec![0; 64])), DriverAction::Failed(_)));
    assert_eq!(d.active_profile, Some(0));
}

#[test]
fn openinput_reports_and_probe() {
    let mut report = OiReport { id: 0x21, function_page: 2, function: 3, data: [0; 29] };
    for i in 0..29 {
        report.data[i] = 100 + i as u8;
    }
    assert_eq!(report.to_short_buf(), [0x21, 2, 3, 100, 101, 102, 103, 104]);
    let long = report.to_long_buf();
    assert_eq!(&long[..3], &[0x21, 2, 3]);
    assert_eq!(long[3], 100);
    assert_eq!(long[31], 128);
    let req = build_request(0x02, 0x05);
    assert_eq!(req.to_short_buf(), [0x20, 0x02, 0x05, 0, 0, 0, 0, 0]);
    assert_eq!(page_name(0x00), "INFO");
    assert_eq!(page_name(0x04), "LEDS");
    assert_eq!(page_name(0xFD), "GIMMICKS");
    assert_eq!(page_name(0x05), "UNKNOWN");

    let mut d = OpenInputDriver::new();
    assert_eq!(
        d.probe_step(DriverEvent::Start),
        DriverAction::WriteReport(vec![0x20, 0, 0, 0, 0, 0, 0, 0])
    );
    assert_eq!(
        d.probe_step(DriverEvent::Completed),
        DriverAction::ReadReport { len: 8, timeout_ms: None }
    );
    assert!(matches!(
        d.probe_step(DriverEvent::Data(vec![0x20, 0, 0, 1, 2, 3, 0, 0])),
        DriverAction::Failed(_)
    ));
    let data = d.data.unwrap();
    assert_eq!((data.fw_major, data.fw_minor, data.fw_patch), (1, 2, 3));

    let mut d = OpenInputDriver::new();
    d.probe_step(DriverEvent::Start);
    d.probe_step(DriverEvent::Completed);
    d.probe_step(DriverEvent::Data(vec![0x20, 0xFF, 0, 1, 0, 0, 0, 0]));
    assert!(d.data.is_none());
}

#[test]
fn sinowealth_conversions_and_probe() {
    assert_eq!(sino_raw_to_dpi(0), 100);
    assert_eq!(sino_raw_to_dpi(255), 25600);
    assert_eq!(sino_dpi_to_raw(100), Some(0));
    assert_eq!(sino_dpi_to_raw(2000), Some(19));
    assert_eq!(sino_dpi_to_raw(25600), Some(255));
    assert_eq!(sino_dpi_to_raw(25700), None);
    assert_eq!(sino_dpi_to_raw(99), None);
    assert_eq!(sino_dpi_to_raw(199), Some(0));
    assert_eq!(build_cmd(CommandId::FirmwareVersion), [0x05, 0x01, 0, 0, 0, 0]);
    assert_eq!(build_cmd(CommandId::Dfu), [0x05, 0x75, 0, 0, 0, 0]);
    assert_eq!(ReportId::ConfigLong.code(), 6);
    assert_eq!(Sensor::Pmw3389.code(), 0x0f);
    assert_eq!(RgbEffect::NotSupported.code(), 0xff);

    let mut d = SinowealhDriver::new();
    assert_eq!(
        d.probe_step(DriverEvent::Start),
        DriverAction::GetFeatureReport(vec![0x05, 0x01, 0, 0, 0, 0])
    );
    assert!(matches!(
        d.probe_step(DriverEvent::Data(vec![0x05, 0x01, 7, 9, 0, 0])),
        DriverAction::Failed(_)
    ));
    let data = d.data.as_ref().unwrap();
    assert_eq!(data.firmware_version, [7, 9]);
    assert_eq!(data.config_raw.len(), 520);
    assert_eq!(data.config_size, 167);
}

#[test]
fn nubwo_commands_and_probe() {
    assert_eq!(encode_dpi(1000), Some(0x04));
    assert_eq!(encode_dpi(15000), Some(0x00));
    assert_eq!(encode_dpi(4000), None);
    assert_eq!(encode_rate(125), Some(0x08));
    assert_eq!(encode_rate(333), Some(0x03));
    assert_eq!(encode_rate(1000), Some(0x01));
    assert_eq!(encode_rate(750), None);
    assert_eq!(build_dpi_cmd(3), [0x02, 0x06, 0xbb, 0xaa, 0x32, 0x00, 3, 0x00]);
    assert_eq!(build_rate_cmd(8), [0x02, 0x06, 0xbb, 0xaa, 0x28, 0x00, 8, 0x00]);
    assert_eq!(ColorMode::Marquee.code(), 5);

    let mut d = SinowealhNubwoDriver::new();
    match d.probe_step(DriverEvent::Start) {
        DriverAction::SetFeatureReport(buf) => {
            assert_eq!(buf, vec![0x02, 0x01, 0x49, 0, 0, 0, 0, 0, 0, 0, 0, 0, 0, 0, 0, 0]);
        }
        other => panic!("unexpected {:?}", other),
    }
    match d.probe_step(DriverEvent::Completed) {
        DriverAction::GetFeatureReport(buf) => {
            assert_eq!(buf.len(), 256);
            assert_eq!(buf[0], 0x04);
        }
        other => panic!("unexpected {:?}", other),
    }
    let mut reply = vec![0u8; 256];
    reply[48..53].copy_from_slice(b"V1.02");
    assert!(matches!(d.probe_step(DriverEvent::Data(reply)), DriverAction::Failed(_)));
    let data = d.data.as_ref().unwrap();
    assert_eq!(data.firmware, b"V1.02".to_vec());
    assert_eq!(data.current_dpi_encoded, 0x04);
    assert_eq!(data.current_rate_encoded, 0x01);
}

#[test]
fn declined_devices_are_told_why() {
    /* A device that answers is told that its profiles cannot be loaded. */
    let mut d = EtekcityDriver::new();
    d.probe_step(DriverEvent::Start);
    assert_eq!(
        d.probe_step(DriverEvent::Data(vec![0x05, 0, 1])),
        DriverAction::Failed("Etekcity driver: loading profiles is not supported".to_string())
    );
    /* A reply that no probe is waiting for. */
    assert_eq!(
        d.probe_step(DriverEvent::Data(vec![0x05, 0, 1])),
        DriverAction::Failed("Etekcity probe: unexpected event".to_string())
    );

    let mut d = GskillDriver::new();
    d.probe_step(DriverEvent::Start);
    assert_eq!(
        d.probe_step(DriverEvent::Data(vec![0x05, 0x55, 1])),
        DriverAction::Failed("G.Skill probe: unexpected status byte".to_string())
    );
    let mut d = GskillDriver::new();
    d.probe_step(DriverEvent::Start);
    assert_eq!(
        d.probe_step(DriverEvent::Data(vec![0x05, 0xb0, 1])),
        DriverAction::Failed("G.Skill driver: loading profiles is not supported".to_string())
    );

    let mut d = MarsGamingDriver::new();
    assert_eq!(
        d.probe_step(DriverEvent::Completed),
        DriverAction::Failed("MarsGaming probe: unexpected event".to_string())
    );
}
