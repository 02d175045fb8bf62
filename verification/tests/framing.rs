use ratbagd::device::{Color, LedInfo, LedMode};
use ratbagd::driver::hidpp::{
    build_hidpp20_request, build_led_payload, build_short_report, compute_ccitt_crc, crc_is_valid,
    hidpp20_error_name, seal_sector, u16_from_be, u16_hi, u16_lo, HidppReport,
};
use ratbagd::driver::{Expect, Reply};

#[test]
fn crc_of_the_check_string() {
    assert_eq!(compute_ccitt_crc(b"123456789"), 0x29B1);
    assert_eq!(compute_ccitt_crc(&[]), 0xFFFF);
    assert_eq!(compute_ccitt_crc(&[0x00]), 0xE1F0);
}

#[test]
fn crc_round_trips_and_detects_every_single_bit() {
    let payload: Vec<u8> = (0..40u8).map(|i| i.wrapping_mul(37).wrapping_add(11)).collect();
    let crc = compute_ccitt_crc(&payload);
    let mut sector = payload.clone();
    sector.push((crc >> 8) as u8);
    sector.push((crc & 0xff) as u8);
    assert!(crc_is_valid(&sector));
    for byte in 0..payload.len() {
        for bit in 0..8 {
            let mut damaged = sector.clone();
            damaged[byte] ^= 1 << bit;
            assert!(!crc_is_valid(&damaged), "byte {} bit {}", byte, bit);
        }
    }
}

#[test]
fn crc_of_short_sectors() {
    assert!(!crc_is_valid(&[]));
    assert!(!crc_is_valid(&[0xFF]));
    /* Two bytes hold the checksum of nothing. */
    assert!(crc_is_valid(&[0xFF, 0xFF]));
    assert!(!crc_is_valid(&[0xFF, 0xFE]));
}

#[test]
fn sealing_puts_the_checksum_high_byte_first() {
    let mut sector = b"123456789??".to_vec();
    seal_sector(&mut sector);
    assert_eq!(&sector[..9], b"123456789");
    assert_eq!(sector[9], 0x29);
    assert_eq!(sector[10], 0xB1);
    assert!(crc_is_valid(&sector));
}

#[test]
fn big_endian_words() {
    assert_eq!(u16_from_be(0x12, 0x34), 0x1234);
    assert_eq!(u16_hi(0xABCD), 0xAB);
    assert_eq!(u16_lo(0xABCD), 0xCD);
}

#[test]
fn long_report_needs_twenty_bytes() {
    let mut buf = vec![0u8; 19];
    buf[0] = 0x11;
    assert!(HidppReport::parse(&buf).is_none());
    buf.push(0x77);
    match HidppReport::parse(&buf) {
        Some(HidppReport::Long { params, .. }) => assert_eq!(params[15], 0x77),
        other => panic!("unexpected {:?}", other),
    }
    /* A short report in a long buffer is still short. */
    buf[0] = 0x10;
    assert!(matches!(HidppReport::parse(&buf), Some(HidppReport::Short { .. })));
}

#[test]
fn error_codes_of_replies() {
    let long = HidppReport::Long {
        device_index: 1,
        sub_id: 0xFF,
        address: 7,
        params: [0x24, 0x05, 0, 0, 0, 0, 0, 0, 0, 0, 0, 0, 0, 0, 0, 0],
    };
    assert!(long.is_error());
    assert_eq!(long.hidpp20_error_code(1, 7), Some(5));
    assert_eq!(long.hidpp20_error_code(1, 8), None);
    assert_eq!(long.hidpp20_error_code(2, 7), None);
    let short = HidppReport::Short { device_index: 1, sub_id: 0x8F, params: [7, 0x24, 9] };
    assert!(short.is_error());
    assert_eq!(short.hidpp20_error_code(1, 7), Some(9));
    assert_eq!(short.hidpp20_error_code(1, 6), None);
    let fine = HidppReport::Long { device_index: 1, sub_id: 7, address: 0, params: [0; 16] };
    assert!(!fine.is_error());
    assert_eq!(fine.hidpp20_error_code(1, 7), None);
}

#[test]
fn error_names() {
    assert_eq!(hidpp20_error_name(2), "ERR_INVALID_ARGUMENT");
    assert_eq!(hidpp20_error_name(8), "ERR_BUSY");
    assert_eq!(hidpp20_error_name(200), "ERR_UNRECOGNISED");
}

#[test]
fn request_drops_parameters_beyond_sixteen() {
    let params: Vec<u8> = (1..=20).collect();
    let req = build_hidpp20_request(0xFF, 3, 0x0F, 0xF4, &params);
    assert_eq!(req[0], 0x11);
    assert_eq!(req[3], 0xF4);
    assert_eq!(&req[4..20], &params[..16]);
    let empty = build_hidpp20_request(1, 2, 0x13, 4, &[]);
    assert_eq!(empty[3], 0x34);
    assert_eq!(&empty[4..], &[0u8; 16]);
}

#[test]
fn short_report_layout() {
    assert_eq!(build_short_report(2, 0x81, [0x0F, 1, 2]), [0x10, 2, 0x81, 0x0F, 1, 2, 0]);
}

#[test]
fn predicates() {
    let feature = Expect::Feature { device_index: 1, feature_index: 7 };
    let mut long = vec![0u8; 20];
    long[0] = 0x11;
    long[1] = 1;
    long[2] = 7;
    long[4] = 0xAA;
    long[19] = 0xBB;
    match feature.try_match(&long) {
        Some(Reply::Payload(p)) => {
            assert_eq!(p[0], 0xAA);
            assert_eq!(p[15], 0xBB);
        }
        other => panic!("unexpected {:?}", other),
    }
    /* A short acknowledgement is padded with zeros. */
    let short = [0x10u8, 1, 7, 9, 8, 7, 0];
    let mut padded = [0u8; 16];
    padded[0] = 9;
    padded[1] = 8;
    padded[2] = 7;
    assert_eq!(feature.try_match(&short), Some(Reply::Payload(padded)));
    /* Another feature, another device: no match. */
    long[2] = 8;
    assert_eq!(feature.try_match(&long), None);
    long[2] = 7;
    long[1] = 2;
    assert_eq!(feature.try_match(&long), None);
    assert_eq!(feature.try_match(&[0x02, 1, 7]), None);

    let root = Expect::RootFeature { device_index: 1 };
    let mut reply = vec![0u8; 20];
    reply[0] = 0x11;
    reply[1] = 1;
    reply[2] = 0;
    reply[4] = 0;
    assert_eq!(root.try_match(&reply), Some(Reply::FeatureIndex(None)));
    reply[4] = 9;
    assert_eq!(root.try_match(&reply), Some(Reply::FeatureIndex(Some(9))));
    /* An error reply counts as "not there". */
    reply[2] = 0xFF;
    assert_eq!(root.try_match(&reply), Some(Reply::FeatureIndex(None)));

    let register = Expect::Register { device_index: 0, sub_id: 0x81 };
    assert_eq!(
        register.try_match(&[0x10, 0, 0x81, 1, 2, 3, 0]),
        Some(Reply::Register([1, 2, 3]))
    );
    assert_eq!(register.try_match(&[0x10, 0, 0x8F, 0x81, 2, 3, 0]), None);
}

fn led(mode: LedMode) -> LedInfo {
    LedInfo {
        index: 1,
        mode,
        modes: Vec::new(),
        color: Color { red: 10, green: 20, blue: 300 },
        secondary_color: Color { red: 1, green: 2, blue: 3 },
        tertiary_color: Color { red: 4, green: 5, blue: 6 },
        color_depth: 3,
        effect_duration: 0x1234,
        brightness: 255,
    }
}

#[test]
fn led_payloads() {
    assert_eq!(build_led_payload(&led(LedMode::Off)), [0, 0, 0, 0, 0, 0, 0, 0, 0, 0, 0]);
    assert_eq!(build_led_payload(&led(LedMode::Solid)), [1, 10, 20, 255, 0, 0, 0, 0, 0, 0, 0]);
    assert_eq!(
        build_led_payload(&led(LedMode::Cycle)),
        [3, 0, 0, 0, 0, 0, 0x12, 0x34, 100, 0, 0]
    );
    assert_eq!(
        build_led_payload(&led(LedMode::ColorWave)),
        [4, 0, 0, 0, 0, 0, 0x12, 0x34, 100, 0, 0]
    );
    assert_eq!(
        build_led_payload(&led(LedMode::Starlight)),
        [5, 10, 20, 255, 1, 2, 3, 0, 0, 0, 0]
    );
    assert_eq!(
        build_led_payload(&led(LedMode::Breathing)),
        [10, 10, 20, 255, 0x12, 0x34, 0, 100, 0, 0, 0]
    );
    assert_eq!(
        build_led_payload(&led(LedMode::TriColor)),
        [10, 20, 255, 1, 2, 3, 4, 5, 6, 0, 0]
    );
    let mut dim = led(LedMode::Cycle);
    dim.brightness = 128;
    dim.effect_duration = 100_000;
    assert_eq!(build_led_payload(&dim), [3, 0, 0, 0, 0, 0, 0xFF, 0xFF, 50, 0, 0]);
}
