use ratbagd::device::{
    ActionType, ButtonInfo, Color, DeviceInfo, Dpi, LedInfo, LedMode, ProfileInfo, ResolutionInfo,
};
use ratbagd::device_database::DriverConfig;
use ratbagd::staging::{
    child_path, profile_path, LedChange, MappingValue, ResolutionChange, ResolutionValue,
};

fn button(index: u32) -> ButtonInfo {
    ButtonInfo {
        index,
        action_type: ActionType::Button,
        action_types: vec![0, 1, 2, 3, 4],
        mapping_value: index,
        macro_entries: vec![(1, 1)],
    }
}

fn resolution(index: u32) -> ResolutionInfo {
    ResolutionInfo {
        index,
        dpi: Dpi::Unified(800),
        dpi_list: vec![800, 1600],
        capabilities: Vec::new(),
        is_active: index == 0,
        is_default: index == 0,
        is_disabled: false,
    }
}

fn led(index: u32) -> LedInfo {
    LedInfo {
        index,
        mode: LedMode::Solid,
        modes: Vec::new(),
        color: Color { red: 1, green: 2, blue: 3 },
        secondary_color: Color { red: 0, green: 0, blue: 0 },
        tertiary_color: Color { red: 0, green: 0, blue: 0 },
        color_depth: 1,
        effect_duration: 100,
        brightness: 255,
    }
}

fn profile(index: u32) -> ProfileInfo {
    let mut p = ProfileInfo::default();
    p.index = index;
    p.is_active = index == 0;
    p.is_enabled = true;
    for i in 0..3 {
        p.buttons.push(button(i));
        p.resolutions.push(resolution(i));
        p.leds.push(led(i));
    }
    p
}

fn device() -> DeviceInfo {
    DeviceInfo {
        sysname: "hidraw0".to_string(),
        name: "Mouse".to_string(),
        model: "usb:0001:0002:0".to_string(),
        firmware_version: String::new(),
        profiles: vec![profile(0), profile(1), profile(2)],
        driver_config: DriverConfig::default(),
    }
}

#[test]
fn profile_setters_mark_the_profile_dirty() {
    let mut p = profile(0);
    assert!(!p.is_dirty);
    p.set_name("gaming".to_string());
    assert_eq!(p.name, "gaming");
    assert!(p.is_dirty);

    let mut p = profile(0);
    p.set_disabled(true);
    assert!(!p.is_enabled && p.is_dirty);
    p.set_disabled(false);
    assert!(p.is_enabled);

    let mut p = profile(0);
    p.set_angle_snapping(1);
    assert_eq!(p.angle_snapping, 1);
    assert!(p.is_dirty);

    let mut p = profile(0);
    p.set_debounce(8);
    assert_eq!(p.debounce, 8);
    assert!(p.is_dirty);

    let mut p = profile(0);
    p.set_report_rate(500);
    assert_eq!(p.report_rate, 500);
    assert!(p.is_dirty);
}

#[test]
fn one_default_and_one_active_resolution() {
    let mut p = profile(0);
    p.set_default_resolution(2);
    assert_eq!(p.resolutions.iter().map(|r| r.is_default).collect::<Vec<_>>(), vec![false, false, true]);
    assert_eq!(p.resolutions.iter().map(|r| r.is_active).collect::<Vec<_>>(), vec![true, false, false]);
    assert!(p.is_dirty);
    let mut p = profile(0);
    p.set_default_resolution(3);
    assert!(p.resolutions[0].is_default);
    assert!(!p.is_dirty);

    let mut p = profile(0);
    p.resolutions[1].is_active = true;
    p.set_active_resolution(2);
    assert_eq!(p.resolutions.iter().map(|r| r.is_active).collect::<Vec<_>>(), vec![false, false, true]);
    assert!(p.resolutions[0].is_default);
    assert!(p.is_dirty);
    let mut p = profile(0);
    p.set_active_resolution(9);
    assert!(p.resolutions[0].is_active);
    assert!(!p.is_dirty);
}

#[test]
fn button_mapping_by_kind() {
    let mut b = button(1);
    b.set_mapping(3, MappingValue::Number(30));
    assert_eq!((b.action_type, b.mapping_value), (ActionType::Key, 30));
    assert_eq!(b.macro_entries, vec![(1, 1)]);
    b.set_mapping(4, MappingValue::Events(vec![(30, 1), (30, 0)]));
    assert_eq!(b.action_type, ActionType::Macro);
    assert_eq!(b.mapping_value, 30);
    assert_eq!(b.macro_entries, vec![(30, 1), (30, 0)]);
    /* A value of the wrong shape changes the kind alone. */
    b.set_mapping(4, MappingValue::Number(5));
    assert_eq!(b.mapping_value, 30);
    assert_eq!(b.macro_entries.len(), 2);
    b.set_mapping(1, MappingValue::Events(vec![]));
    assert_eq!((b.action_type, b.mapping_value), (ActionType::Button, 30));
    assert_eq!(b.macro_entries.len(), 2);
    b.set_mapping(2, MappingValue::Other);
    assert_eq!((b.action_type, b.mapping_value), (ActionType::Special, 30));
    b.set_mapping(0, MappingValue::Number(0));
    assert_eq!(b.action_type, ActionType::NoAction);
    b.set_mapping(77, MappingValue::Number(1));
    assert_eq!((b.action_type, b.mapping_value), (ActionType::Unknown, 1));
}

#[test]
fn changes_of_children_mark_the_profile_dirty() {
    let mut p = profile(0);
    p.stage_button(1, 2, MappingValue::Number(4));
    assert!(p.is_dirty);
    assert_eq!((p.buttons[1].action_type, p.buttons[1].mapping_value), (ActionType::Special, 4));
    assert_eq!((p.buttons[0].action_type, p.buttons[0].mapping_value), (ActionType::Button, 0));
    let mut p = profile(0);
    p.stage_button(3, 2, MappingValue::Number(4));
    assert!(!p.is_dirty);

    let mut p = profile(0);
    p.stage_resolution(2, ResolutionChange::Value(ResolutionValue::Single(1600)));
    assert!(p.is_dirty);
    assert_eq!(p.resolutions[2].dpi, Dpi::Unified(1600));
    assert_eq!(p.resolutions[1].dpi, Dpi::Unified(800));
    p.stage_resolution(1, ResolutionChange::Value(ResolutionValue::Pair(400, 450)));
    assert_eq!(p.resolutions[1].dpi, Dpi::Separate { x: 400, y: 450 });
    p.stage_resolution(1, ResolutionChange::Value(ResolutionValue::Other));
    assert_eq!(p.resolutions[1].dpi, Dpi::Separate { x: 400, y: 450 });
    p.stage_resolution(0, ResolutionChange::Disabled(true));
    assert!(p.resolutions[0].is_disabled);
    assert!(!p.resolutions[1].is_disabled);
    let mut p = profile(0);
    p.stage_resolution(3, ResolutionChange::Disabled(true));
    assert!(!p.is_dirty);

    let mut p = profile(0);
    p.stage_led(0, LedChange::Mode(10));
    assert!(p.is_dirty);
    assert_eq!(p.leds[0].mode, LedMode::Breathing);
    p.stage_led(0, LedChange::Mode(2));
    assert_eq!(p.leds[0].mode, LedMode::Breathing);
    p.stage_led(1, LedChange::Color(300, 0, 7));
    assert_eq!(p.leds[1].color, Color { red: 300, green: 0, blue: 7 });
    p.stage_led(2, LedChange::EffectDuration(5000));
    assert_eq!(p.leds[2].effect_duration, 5000);
    p.stage_led(2, LedChange::Brightness(17));
    assert_eq!(p.leds[2].brightness, 17);
    assert_eq!(p.leds[1].brightness, 255);
    let mut p = profile(0);
    p.stage_led(3, LedChange::Brightness(17));
    assert!(!p.is_dirty);
}

#[test]
fn plain_setters_of_children() {
    let mut r = resolution(0);
    r.set_resolution(ResolutionValue::Single(50));
    assert_eq!(r.dpi, Dpi::Unified(50));
    r.apply(ResolutionChange::Disabled(true));
    assert!(r.is_disabled);
    let mut l = led(0);
    l.set_color((9, 8, 7));
    assert_eq!(l.color, Color { red: 9, green: 8, blue: 7 });
    l.set_mode(0);
    assert_eq!(l.mode, LedMode::Off);
    l.set_mode(99);
    assert_eq!(l.mode, LedMode::Off);
    l.apply(LedChange::Mode(32));
    assert_eq!(l.mode, LedMode::TriColor);
}

#[test]
fn exactly_one_profile_is_active() {
    let mut info = device();
    info.profiles[1].is_active = true;
    info.set_active_profile(2);
    assert_eq!(info.profiles.iter().map(|p| p.is_active).collect::<Vec<_>>(), vec![false, false, true]);
    assert_eq!(info.profiles.iter().map(|p| p.is_dirty).collect::<Vec<_>>(), vec![false, false, true]);
    info.set_active_profile(0);
    assert_eq!(info.profiles.iter().map(|p| p.is_active).collect::<Vec<_>>(), vec![true, false, false]);
    assert_eq!(info.profiles.iter().map(|p| p.is_dirty).collect::<Vec<_>>(), vec![true, false, true]);
    info.set_active_profile(3);
    assert_eq!(info.profiles.iter().map(|p| p.is_active).collect::<Vec<_>>(), vec![true, false, false]);
}

#[test]
fn dirty_marks_after_a_commit() {
    let mut info = device();
    info.profiles[0].set_report_rate(125);
    info.profiles[2].set_name("x".to_string());
    info.commit_finished(false);
    assert_eq!(info.profiles.iter().map(|p| p.is_dirty).collect::<Vec<_>>(), vec![true, false, true]);
    info.commit_finished(true);
    assert!(info.profiles.iter().all(|p| !p.is_dirty));
    assert_eq!(info.profiles[0].report_rate, 125);
    assert_eq!(info.profiles[2].name, "x");
    info.profiles[1].set_debounce(4);
    info.mark_committed();
    assert!(info.profiles.iter().all(|p| !p.is_dirty));
}

#[test]
fn object_paths() {
    let dev = "/org/freedesktop/ratbag1/device/hidraw0";
    assert_eq!(profile_path(dev, 0), "/org/freedesktop/ratbag1/device/hidraw0/p0");
    assert_eq!(profile_path(dev, 4294967295), "/org/freedesktop/ratbag1/device/hidraw0/p4294967295");
    assert_eq!(child_path(dev, 1, 'r', 2), "/org/freedesktop/ratbag1/device/hidraw0/p1/r2");
    assert_eq!(child_path(dev, 10, 'b', 12), "/org/freedesktop/ratbag1/device/hidraw0/p10/b12");
    assert_eq!(child_path("", 0, 'l', 0), "/p0/l0");
}

#[test]
fn copies_hold_the_same() {
    let mut info = device();
    info.firmware_version = "1.2".to_string();
    info.profiles[1].name = "second".to_string();
    info.profiles[1].buttons[2].macro_entries = vec![(30, 1), (30, 0)];
    info.profiles[2].leds[0].modes = vec![LedMode::Off, LedMode::Breathing];
    info.profiles[0].resolutions[1].dpi = Dpi::Separate { x: 1, y: 2 };
    let copy = info.copy();
    assert_eq!(format!("{:?}", copy), format!("{:?}", info));
    let mut changed = info.copy();
    changed.profiles[0].set_report_rate(125);
    assert_ne!(format!("{:?}", changed), format!("{:?}", info));
    assert_eq!(format!("{:?}", info.profiles[1].copy()), format!("{:?}", info.profiles[1]));
    assert_eq!(
        format!("{:?}", info.profiles[1].buttons[2].copy()),
        format!("{:?}", info.profiles[1].buttons[2])
    );
    assert_eq!(
        format!("{:?}", info.profiles[2].leds[0].copy()),
        format!("{:?}", info.profiles[2].leds[0])
    );
    assert_eq!(
        format!("{:?}", info.profiles[0].resolutions[1].copy()),
        format!("{:?}", info.profiles[0].resolutions[1])
    );
}
