use ratbagd::device::ActionType;
use ratbagd::driver::asus::{
    brightness_to_asus, brightness_to_ratbag, debounce_index, dpi_from_stored, dpi_to_stored,
    find_button_by_action, find_button_by_code, find_key_code, get_linux_key_code,
    is_joystick_code, parse_quirks, polling_rate_index, AsusBindingData, AsusButtonKind,
    AsusDpi4Data, AsusLedData, AsusRequest, AsusResponse, ASUS_ACTION_TYPE_BUTTON,
    ASUS_CMD_GET_PROFILE_DATA, ASUS_CMD_SET_PROFILE, ASUS_POLLING_RATES, ASUS_QUIRK_BATTERY_V2,
    ASUS_QUIRK_DOUBLE_DPI, ASUS_QUIRK_RAW_BRIGHTNESS, ASUS_QUIRK_SEPARATE_LEDS,
    ASUS_QUIRK_STRIX_PROFILE, ASUS_STATUS_ERROR, KEY_A, SPECIAL_WHEEL_UP,
};

#[test]
fn test_dpi_from_stored_basic() {
    assert_eq!(dpi_from_stored(0, 0), 50);
    assert_eq!(dpi_from_stored(1, 0), 100);
    assert_eq!(dpi_from_stored(19, 0), 1000);   /* (19*50)+50 = 1000 */
    assert_eq!(dpi_from_stored(239, 0), 12000);  /* (239*50)+50 = 12000 */
}

#[test]
fn test_dpi_from_stored_double_dpi() {
    assert_eq!(dpi_from_stored(19, ASUS_QUIRK_DOUBLE_DPI), 2000);
    assert_eq!(dpi_from_stored(0,  ASUS_QUIRK_DOUBLE_DPI), 100);
}

#[test]
fn test_dpi_roundtrip() {
    for &dpi in &[100u32, 400, 800, 1600, 3200, 6400, 12000] {
        let stored = dpi_to_stored(dpi, 0);
        assert_eq!(dpi_from_stored(stored as u16, 0), dpi,
            "roundtrip failed for {} DPI", dpi);
    }
}

#[test]
fn test_dpi_roundtrip_double_dpi() {
    for &dpi in &[200u32, 800, 1600, 3200, 6400, 12800] {
        let stored = dpi_to_stored(dpi, ASUS_QUIRK_DOUBLE_DPI);
        assert_eq!(dpi_from_stored(stored as u16, ASUS_QUIRK_DOUBLE_DPI), dpi,
            "DOUBLE_DPI roundtrip failed for {} DPI", dpi);
    }
}

#[test]
fn test_find_button_by_code_left() {
    let e = find_button_by_code(0xf0).expect("left button must be in table");
    assert_eq!(e.kind, AsusButtonKind::Button(1));
}

#[test]
fn test_find_button_by_code_missing() {
    assert!(find_button_by_code(0x00).is_none());
}

#[test]
fn test_find_button_by_code_wheel_up() {
    let e = find_button_by_code(0xe8).expect("wheel-up must be in table");
    assert_eq!(e.kind, AsusButtonKind::Special(SPECIAL_WHEEL_UP));
}

#[test]
fn test_find_button_by_action_button() {
    let e = find_button_by_action(ActionType::Button, 1, false)
        .expect("left click action must be found");
    assert_eq!(e.asus_code, 0xf0);
}

#[test]
fn test_find_button_by_action_special() {
    let e = find_button_by_action(ActionType::Special, SPECIAL_WHEEL_UP, false)
        .expect("wheel-up special must be found");
    assert_eq!(e.asus_code, 0xe8);
}

#[test]
fn test_find_button_by_action_joystick() {
    /* Joystick wheel-up should use joystick axis code (0xd8). */
    let e = find_button_by_action(ActionType::Special, SPECIAL_WHEEL_UP, true)
        .expect("joystick wheel-up must be found");
    assert_eq!(e.asus_code, 0xd8);
}

#[test]
fn test_get_linux_key_code_a() {
    assert_eq!(get_linux_key_code(0x04), Some(KEY_A));
}

#[test]
fn test_get_linux_key_code_unmapped() {
    assert!(get_linux_key_code(0x00).is_none());
}

#[test]
fn test_find_key_code_roundtrip() {
    let asus = find_key_code(KEY_A).expect("KEY_A should have an ASUS code");
    assert_eq!(get_linux_key_code(asus), Some(KEY_A));
}

#[test]
fn test_is_joystick_code() {
    assert!(is_joystick_code(0xd0));
    assert!(is_joystick_code(0xdb));
    assert!(!is_joystick_code(0xf0));
    assert!(!is_joystick_code(0x00));
}

#[test]
fn test_polling_rate_index() {
    assert_eq!(polling_rate_index(125),  Some(0));
    assert_eq!(polling_rate_index(250),  Some(1));
    assert_eq!(polling_rate_index(500),  Some(2));
    assert_eq!(polling_rate_index(1000), Some(3));
    assert_eq!(polling_rate_index(333),  None);
}

#[test]
fn test_debounce_index() {
    assert_eq!(debounce_index(4),  Some(0));
    assert_eq!(debounce_index(32), Some(7));
    assert_eq!(debounce_index(5),  None);
}

#[test]
fn test_brightness_to_ratbag_normal() {
    assert_eq!(brightness_to_ratbag(0, 0), 0);
    assert_eq!(brightness_to_ratbag(4, 0), 256);
}

#[test]
fn test_brightness_to_ratbag_raw() {
    assert_eq!(brightness_to_ratbag(200, ASUS_QUIRK_RAW_BRIGHTNESS), 200);
}

#[test]
fn test_brightness_roundtrip() {
    for &b in &[0u32, 64, 128, 192] {
        let asus = brightness_to_asus(b, 0);
        let back = brightness_to_ratbag(asus, 0);
        assert!(
            (back as i64 - b as i64).abs() <= 32,
            "brightness {} -> hw {} -> {} (diff > 32)", b, asus, back
        );
    }
}

#[test]
fn test_parse_quirks_combined() {
    let q = parse_quirks(&[
        "DOUBLE_DPI".to_string(),
        "STRIX_PROFILE".to_string(),
        "SEPARATE_LEDS".to_string(),
    ]);
    assert!(q & ASUS_QUIRK_DOUBLE_DPI    != 0);
    assert!(q & ASUS_QUIRK_STRIX_PROFILE  != 0);
    assert!(q & ASUS_QUIRK_SEPARATE_LEDS  != 0);
    assert!(q & ASUS_QUIRK_BATTERY_V2     == 0);
}

#[test]
fn test_parse_quirks_empty() {
    assert_eq!(parse_quirks(&[]), 0);
}

#[test]
fn test_asus_request_cmd_le_encoding() {
    /* GET_PROFILE_DATA = 0x0012 -> LE bytes [0x12, 0x00] */
    let req = AsusRequest::new(ASUS_CMD_GET_PROFILE_DATA);
    assert_eq!(req.buf[0], 0x12);
    assert_eq!(req.buf[1], 0x00);
}

#[test]
fn test_asus_request_set_param() {
    let mut req = AsusRequest::new(ASUS_CMD_SET_PROFILE);
    req.set_param(0, 2u8);
    assert_eq!(req.buf[2], 2); /* params[0] = buf[2] */
}

#[test]
fn test_asus_response_status_error() {
    let mut resp = AsusResponse::default();
    resp.buf[0] = 0xff;
    resp.buf[1] = 0xaa;
    assert_eq!(resp.status_code(), ASUS_STATUS_ERROR);
}

#[test]
fn test_asus_response_result_offset() {
    let mut resp = AsusResponse::default();
    resp.buf[2] = 0xab; /* result(0) */
    resp.buf[9] = 0xcd; /* result(7) */
    assert_eq!(resp.result(0), 0xab);
    assert_eq!(resp.result(7), 0xcd);
}

#[test]
fn test_binding_data_from_response() {
    let mut resp = AsusResponse::default();
    /* binding[0]: action=0xf0, type=BUTTON at result(2),result(3) = buf[4],buf[5] */
    resp.buf[4] = 0xf0;
    resp.buf[5] = ASUS_ACTION_TYPE_BUTTON;
    /* binding[1]: action=0xe8, type=BUTTON at result(4),result(5) = buf[6],buf[7] */
    resp.buf[6] = 0xe8;
    resp.buf[7] = ASUS_ACTION_TYPE_BUTTON;

    let data = AsusBindingData::from_response(&resp);
    assert_eq!(data.bindings[0].action, 0xf0);
    assert_eq!(data.bindings[0].type_,  ASUS_ACTION_TYPE_BUTTON);
    assert_eq!(data.bindings[1].action, 0xe8);
}

#[test]
fn test_led_data_from_response() {
    let mut resp = AsusResponse::default();
    /* led[0]: mode=1, brightness=2, r=10, g=20, b=30
     * At result(2..6) = buf[4..8] */
    resp.buf[4] = 1;
    resp.buf[5] = 2;
    resp.buf[6] = 10;
    resp.buf[7] = 20;
    resp.buf[8] = 30;

    let data = AsusLedData::from_response(&resp);
    let led = &data.leds[0];
    assert_eq!(led.mode, 1);
    assert_eq!(led.brightness, 2);
    assert_eq!(led.r, 10);
    assert_eq!(led.g, 20);
    assert_eq!(led.b, 30);
}

#[test]
fn test_dpi4_from_response() {
    let mut resp = AsusResponse::default();
    /* dpi[0] = 0x000F (stored 15) at result(2..3) = buf[4..5] */
    resp.buf[4] = 0x0f;
    resp.buf[5] = 0x00;
    /* rate = 3 at result(10..11) = buf[12..13] */
    resp.buf[12] = 3;
    resp.buf[13] = 0;

    let data = AsusDpi4Data::from_response(&resp);
    assert_eq!(data.dpi[0], 15);
    assert_eq!(data.rate_idx, 3);
    assert_eq!(dpi_from_stored(data.dpi[0], 0), 800); /* 15*50+50 = 800 */
    assert_eq!(ASUS_POLLING_RATES[data.rate_idx as usize], 1000);
}
