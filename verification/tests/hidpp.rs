use ratbagd::driver::hidpp::{
    build_hidpp20_request, build_short_report, HidppReport, HIDPP10_ERROR, REPORT_ID_LONG,
};

#[test]
fn parse_short_report() {
    let buf = [0x10, 0x00, 0x01, 0xAA, 0xBB, 0xCC, 0x00];
    let report = HidppReport::parse(&buf).expect("valid short report");
    assert_eq!(
        report,
        HidppReport::Short {
            device_index: 0x00,
            sub_id: 0x01,
            params: [0xAA, 0xBB, 0xCC],
        }
    );
}

#[test]
fn parse_long_report() {
    let mut buf = [0u8; 20];
    buf[0] = REPORT_ID_LONG;
    buf[1] = 0x02;
    buf[2] = 0x03;
    buf[3] = 0xFF;
    let report = HidppReport::parse(&buf).expect("valid long report");
    match report {
        HidppReport::Long { device_index, sub_id, address, params } => {
            assert_eq!(device_index, 0x02);
            assert_eq!(sub_id, 0x03);
            assert_eq!(address, 0xFF);
            assert_eq!(params[0], 0x00);
        }
        _ => panic!("Expected Long report"),
    }
}

#[test]
fn parse_invalid_report_id() {
    let buf = [0x99, 0x00, 0x00, 0x00, 0x00, 0x00, 0x00];
    assert!(HidppReport::parse(&buf).is_none());
}

#[test]
fn parse_buffer_too_short() {
    assert!(HidppReport::parse(&[0x10, 0x00]).is_none());
    assert!(HidppReport::parse(&[]).is_none());
}

#[test]
fn build_short_roundtrip() {
    let report = build_short_report(0x00, 0x01, [0xAA, 0xBB, 0xCC]);
    let parsed = HidppReport::parse(&report).expect("roundtrip");
    match parsed {
        HidppReport::Short { device_index, sub_id, .. } => {
            assert_eq!(device_index, 0x00);
            assert_eq!(sub_id, 0x01);
        }
        _ => panic!("Expected Short report"),
    }
}

#[test]
fn build_hidpp20_request_encoding() {
    let req = build_hidpp20_request(0x00, 0x01, 0x02, 0x0A, &[0x11, 0x22]);
    assert_eq!(req[0], REPORT_ID_LONG);
    assert_eq!(req[1], 0x00);
    assert_eq!(req[2], 0x01);
    /* function=0x02, sw_id=0x0A: (0x02 << 4) | 0x0A = 0x2A */
    assert_eq!(req[3], 0x2A);
    assert_eq!(req[4], 0x11);
    assert_eq!(req[5], 0x22);
}

#[test]
fn error_detection() {
    let err_short = HidppReport::Short {
        device_index: 0,
        sub_id: HIDPP10_ERROR,
        params: [0; 3],
    };
    assert!(err_short.is_error());

    let ok_short = HidppReport::Short {
        device_index: 0,
        sub_id: 0x01,
        params: [0; 3],
    };
    assert!(!ok_short.is_error());
}

#[test]
fn matches_hidpp20_helper() {
    let report = HidppReport::Long {
        device_index: 0x00,
        sub_id: 0x05,
        address: 0x10,
        params: [0; 16],
    };
    assert!(report.matches_hidpp20(0x00, 0x05));
    assert!(!report.matches_hidpp20(0x00, 0x06));
    assert!(!report.matches_hidpp20(0x01, 0x05));
}
