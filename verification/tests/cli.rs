use ratbagd::cli::{
    action_type_name, color_depth_name, device_path_from_child, format_dpi, led_mode_name,
    parse_angle_snapping, parse_hex_color, parse_led_mode, parse_macro_events, resolution_flags,
    resolve_device, validate_brightness, validate_rgb,
};

#[test]
fn names_of_values() {
    let actions: Vec<&str> = (0..6).map(action_type_name).collect();
    assert_eq!(actions, vec!["none", "button", "special", "key", "macro", "unknown"]);
    assert_eq!(action_type_name(1000), "unknown");
    let modes: Vec<&str> = [0, 1, 2, 3, 4, 5, 10, 32, 33].iter().map(|m| led_mode_name(*m)).collect();
    assert_eq!(
        modes,
        vec!["off", "solid", "unknown", "cycle", "wave", "starlight", "breathing", "tricolor", "unknown"]
    );
    assert_eq!(color_depth_name(0), "monochrome");
    assert_eq!(color_depth_name(1), "rgb");
    assert_eq!(color_depth_name(2), "unknown");
}

#[test]
fn led_mode_words() {
    assert_eq!(parse_led_mode("off"), Ok(0));
    assert_eq!(parse_led_mode("Solid"), Ok(1));
    assert_eq!(parse_led_mode("CYCLE"), Ok(3));
    assert_eq!(parse_led_mode("wave"), Ok(4));
    assert_eq!(parse_led_mode("ColorWave"), Ok(4));
    assert_eq!(parse_led_mode("color-wave"), Ok(4));
    assert_eq!(parse_led_mode("starlight"), Ok(5));
    assert_eq!(parse_led_mode("breathing"), Ok(10));
    assert_eq!(parse_led_mode("Breathe"), Ok(10));
    assert_eq!(parse_led_mode("tricolor"), Ok(32));
    assert_eq!(parse_led_mode("TRI-COLOR"), Ok(32));
    assert_eq!(
        parse_led_mode("blink"),
        Err("Unknown LED mode 'blink'. Use: off, solid, cycle, wave, starlight, breathing, tricolor"
            .to_string())
    );
    assert!(parse_led_mode("").is_err());
    assert!(parse_led_mode(" off").is_err());
    /* Each word gives the number under which the mode is shown. */
    for m in [0u32, 1, 3, 4, 5, 10, 32] {
        assert_eq!(parse_led_mode(led_mode_name(m)), Ok(m));
    }
}

#[test]
fn hex_colors() {
    assert_eq!(parse_hex_color("ff8000"), Ok((255, 128, 0)));
    assert_eq!(parse_hex_color("#FF8000"), Ok((255, 128, 0)));
    assert_eq!(parse_hex_color("#000000"), Ok((0, 0, 0)));
    assert_eq!(parse_hex_color("0a0B0c"), Ok((10, 11, 12)));
    assert!(parse_hex_color("").is_err());
    assert!(parse_hex_color("#").is_err());
    assert!(parse_hex_color("ff800").is_err());
    assert!(parse_hex_color("ff80000").is_err());
    assert!(parse_hex_color("##ff800").is_err());
    assert!(parse_hex_color("gg8000").is_err());
    assert!(parse_hex_color("ff80 0").is_err());
    assert!(parse_hex_color("ÿÿÿ").is_err());
}

#[test]
fn macro_events() {
    let words = |w: &[&str]| w.iter().map(|s| s.to_string()).collect::<Vec<String>>();
    assert_eq!(parse_macro_events(&words(&[])), Ok(vec![]));
    assert_eq!(
        parse_macro_events(&words(&["30:1", "30:0", "4294967295:1"])),
        Ok(vec![(30, 1), (30, 0), (4294967295, 1)])
    );
    assert_eq!(
        parse_macro_events(&words(&["30:1", "30"])),
        Err("Invalid macro event '30'. Expected KEYCODE:DIRECTION (e.g. 30:1)".to_string())
    );
    assert_eq!(
        parse_macro_events(&words(&["30:1:0"])),
        Err("Invalid macro event '30:1:0'. Expected KEYCODE:DIRECTION (e.g. 30:1)".to_string())
    );
    assert_eq!(parse_macro_events(&words(&["a:1"])), Err("Invalid keycode in 'a:1'".to_string()));
    assert_eq!(parse_macro_events(&words(&[":1"])), Err("Invalid keycode in ':1'".to_string()));
    assert_eq!(
        parse_macro_events(&words(&["4294967296:1"])),
        Err("Invalid keycode in '4294967296:1'".to_string())
    );
    assert_eq!(parse_macro_events(&words(&["30:x"])), Err("Invalid direction in '30:x'".to_string()));
    assert_eq!(parse_macro_events(&words(&["30:"])), Err("Invalid direction in '30:'".to_string()));
    assert_eq!(
        parse_macro_events(&words(&["30:2"])),
        Err("Direction must be 0 (release) or 1 (press), got 2 in '30:2'".to_string())
    );
    /* The first word that is no event decides. */
    assert_eq!(
        parse_macro_events(&words(&["1:1", "x:1", "2:9"])),
        Err("Invalid keycode in 'x:1'".to_string())
    );
}

#[test]
fn colors_are_checked() {
    assert_eq!(validate_rgb(0, 0, 0), Ok(()));
    assert_eq!(validate_rgb(255, 255, 255), Ok(()));
    assert_eq!(validate_rgb(256, 0, 0), Err("Red component out of range: 256".to_string()));
    assert_eq!(validate_rgb(0, 300, 0), Err("Green component out of range: 300".to_string()));
    assert_eq!(validate_rgb(0, 0, 4294967295), Err("Blue component out of range: 4294967295".to_string()));
    assert_eq!(validate_rgb(256, 256, 256), Err("Red component out of range: 256".to_string()));
}

#[test]
fn device_path_of_a_child() {
    let dev = "/org/freedesktop/ratbag1/device/hidraw0";
    assert_eq!(device_path_from_child("/org/freedesktop/ratbag1/device/hidraw0/p0"), dev);
    assert_eq!(device_path_from_child("/org/freedesktop/ratbag1/device/hidraw0/p12/b3"), dev);
    assert_eq!(device_path_from_child("/org/freedesktop/ratbag1/device/hidraw0/p1/r0"), dev);
    assert_eq!(device_path_from_child(dev), dev);
    assert_eq!(device_path_from_child(""), "");
    assert_eq!(device_path_from_child("/p"), "");
    assert_eq!(device_path_from_child("/x/p/p"), "/x");
    assert_eq!(device_path_from_child("/x/"), "/x/");
}

#[test]
fn device_by_position_or_by_name() {
    let devices: Vec<String> = vec![
        "/org/freedesktop/ratbag1/device/hidraw0".to_string(),
        "/org/freedesktop/ratbag1/device/hidraw12".to_string(),
        "/org/freedesktop/ratbag1/device/hidraw1".to_string(),
    ];
    assert_eq!(resolve_device(&devices, "0"), Ok(devices[0].clone()));
    assert_eq!(resolve_device(&devices, "2"), Ok(devices[2].clone()));
    assert_eq!(resolve_device(&devices, "+1"), Ok(devices[1].clone()));
    assert_eq!(resolve_device(&devices, "003"), Err("Device index 3 out of range (0..3)".to_string()));
    assert_eq!(
        resolve_device(&devices, "18446744073709551615"),
        Err("Device index 18446744073709551615 out of range (0..3)".to_string())
    );
    /* A number that is too large for a position is looked for as a word. */
    assert_eq!(
        resolve_device(&devices, "18446744073709551616"),
        Err("No device matching '18446744073709551616' found".to_string())
    );
    assert_eq!(resolve_device(&devices, "hidraw1"), Ok(devices[1].clone()));
    assert_eq!(resolve_device(&devices, "hidraw0"), Ok(devices[0].clone()));
    assert_eq!(resolve_device(&devices, "raw12"), Ok(devices[1].clone()));
    assert_eq!(resolve_device(&devices, "/org"), Ok(devices[0].clone()));
    assert_eq!(resolve_device(&devices, ""), Ok(devices[0].clone()));
    assert_eq!(resolve_device(&devices, "hidraw2"), Err("No device matching 'hidraw2' found".to_string()));
    assert_eq!(resolve_device(&devices, "-1"), Err("No device matching '-1' found".to_string()));
    assert_eq!(resolve_device(&[], "0"), Err("No devices found".to_string()));
    assert_eq!(resolve_device(&[], "hidraw0"), Err("No devices found".to_string()));
}

#[test]
fn resolutions_as_text() {
    assert_eq!(format_dpi(800, 800), "800 DPI");
    assert_eq!(format_dpi(800, 1600), "800x1600 DPI");
    assert_eq!(format_dpi(0, 0), "0 DPI");
    assert_eq!(format_dpi(4294967295, 1), "4294967295x1 DPI");
    assert_eq!(resolution_flags(false, false, false), "");
    assert_eq!(resolution_flags(true, false, false), " [active]");
    assert_eq!(resolution_flags(true, true, true), " [active] [default] [disabled]");
    assert_eq!(resolution_flags(false, true, true), " [default] [disabled]");
}

#[test]
fn switches_and_brightness() {
    for word in ["on", "1", "true", "YES", "On"] {
        assert_eq!(parse_angle_snapping(word), Ok(1));
    }
    for word in ["off", "0", "False", "no"] {
        assert_eq!(parse_angle_snapping(word), Ok(0));
    }
    assert_eq!(
        parse_angle_snapping("maybe"),
        Err("Invalid angle-snapping value 'maybe'. Use: on, off".to_string())
    );
    assert!(parse_angle_snapping("").is_err());
    assert!(parse_angle_snapping("2").is_err());
    assert_eq!(validate_brightness(0), Ok(()));
    assert_eq!(validate_brightness(255), Ok(()));
    assert_eq!(
        validate_brightness(256),
        Err("Brightness out of range: 256 (expected 0..=255)".to_string())
    );
}
