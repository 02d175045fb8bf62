use ratbagd::device_database::{parse_device_matches, parse_dpi_range, BusType};

#[test]
fn test_parse_device_matches_single() {
    let matches = parse_device_matches("usb:046d:c539").unwrap();
    assert_eq!(matches.len(), 1);
    assert_eq!(matches[0].bustype, BusType::Usb);
    assert_eq!(matches[0].vid, 0x046d);
    assert_eq!(matches[0].pid, 0xc539);
}

#[test]
fn test_parse_device_matches_multiple() {
    let matches = parse_device_matches("usb:0b05:18e3;usb:0b05:18e5").unwrap();
    assert_eq!(matches.len(), 2);
    assert_eq!(matches[0].pid, 0x18e3);
    assert_eq!(matches[1].pid, 0x18e5);
}

#[test]
fn test_parse_device_matches_bluetooth() {
    let matches = parse_device_matches("bluetooth:046d:b025").unwrap();
    assert_eq!(matches[0].bustype, BusType::Bluetooth);
}

#[test]
fn test_parse_device_matches_mixed_bus() {
    let matches =
        parse_device_matches("usb:046d:4090;bluetooth:046d:b025").unwrap();
    assert_eq!(matches[0].bustype, BusType::Usb);
    assert_eq!(matches[1].bustype, BusType::Bluetooth);
}

#[test]
fn test_parse_dpi_range() {
    let range = parse_dpi_range("100:16000@100").unwrap();
    assert_eq!(range.min, 100);
    assert_eq!(range.max, 16000);
    assert_eq!(range.step, 100);
}

#[test]
fn test_parse_dpi_range_invalid() {
    assert!(parse_dpi_range("invalid").is_none());
}

#[test]
fn test_parse_dpi_range_zero_step() {
    assert!(parse_dpi_range("100:16000@0").is_none());
}

#[test]
fn test_parse_dpi_range_inverted_bounds() {
    assert!(parse_dpi_range("16000:100@100").is_none());
}

#[test]
fn test_parse_device_matches_invalid() {
    assert!(parse_device_matches("usb:046d").is_err());
}

#[test]
fn test_parse_device_matches_empty() {
    assert!(parse_device_matches("").is_err());
}

#[test]
fn test_bustype_from_u16() {
    assert_eq!(BusType::from_u16(0x03), BusType::Usb);
    assert_eq!(BusType::from_u16(0x05), BusType::Bluetooth);
    assert_eq!(BusType::from_u16(0x01), BusType::Other("0001".to_string()));
}

#[test]
fn test_bustype_display() {
    assert_eq!(BusType::Usb.to_string(), "usb");
    assert_eq!(BusType::Bluetooth.to_string(), "bluetooth");
    assert_eq!(BusType::Other("serial".to_string()).to_string(), "serial");
}
