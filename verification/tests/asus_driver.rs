use ratbagd::device::{
    ActionType, ButtonInfo, Color, DeviceInfo, Dpi, LedInfo, LedMode, ProfileInfo, ResolutionInfo,
};
use ratbagd::device_database::DriverConfig;
use ratbagd::driver::asus::{
    AsusBinding, AsusBindingData, AsusDpiXyData, AsusLedEntry, ASUS_QUIRK_BUTTONS_SECONDARY,
    ASUS_QUIRK_DOUBLE_DPI, ASUS_QUIRK_RAW_BRIGHTNESS, ASUS_QUIRK_SEPARATE_LEDS,
};
use ratbagd::driver::asus_driver::{apply_bindings, apply_led, apply_settings, AsusTables};
use ratbagd::driver::asus_save::{
    binding_request, led_request, plan_save, profile_data_request, save_request,
    set_button_request, set_led_request, set_profile_request, set_setting_request,
    settings_request, SaveItem,
};
use ratbagd::driver::asus_steps::{AsusDriver, AsusStage, Pending};
use ratbagd::driver::{DriverAction, DriverError, DriverEvent};

fn packet(head: &[u8]) -> Vec<u8> {
    let mut v = vec![0u8; 64];
    v[..head.len()].copy_from_slice(head);
    v
}

fn button(index: u32) -> ButtonInfo {
    ButtonInfo {
        index,
        action_type: ActionType::Unknown,
        action_types: Vec::new(),
        mapping_value: 0,
        macro_entries: Vec::new(),
    }
}

fn resolution(index: u32) -> ResolutionInfo {
    ResolutionInfo {
        index,
        dpi: Dpi::Unknown,
        dpi_list: Vec::new(),
        capabilities: Vec::new(),
        is_active: index == 0,
        is_default: index == 0,
        is_disabled: false,
    }
}

fn led(index: u32) -> LedInfo {
    LedInfo {
        index,
        mode: LedMode::Off,
        modes: Vec::new(),
        color: Color { red: 0, green: 0, blue: 0 },
        secondary_color: Color { red: 0, green: 0, blue: 0 },
        tertiary_color: Color { red: 0, green: 0, blue: 0 },
        color_depth: 0,
        effect_duration: 0,
        brightness: 0,
    }
}

fn profile(index: u32, buttons: u32, resolutions: u32, leds: u32) -> ProfileInfo {
    let mut p = ProfileInfo::default();
    p.index = index;
    p.is_active = index == 0;
    for i in 0..buttons {
        p.buttons.push(button(i));
    }
    for i in 0..resolutions {
        p.resolutions.push(resolution(i));
    }
    for i in 0..leds {
        p.leds.push(led(i));
    }
    p
}

fn device(profiles: u32, quirks: &[&str]) -> DeviceInfo {
    let mut info = DeviceInfo {
        sysname: "hidraw3".to_string(),
        name: "ROG".to_string(),
        model: "usb:0b05:1234:0".to_string(),
        firmware_version: String::new(),
        profiles: Vec::new(),
        driver_config: DriverConfig {
            quirks: quirks.iter().map(|q| q.to_string()).collect(),
            ..DriverConfig::default()
        },
    };
    for i in 0..profiles {
        info.profiles.push(profile(i, 5, 2, 1));
    }
    info
}

#[test]
fn request_packets() {
    assert_eq!(profile_data_request().to_vec(), packet(&[0x12, 0x00]));
    assert_eq!(set_profile_request(2).to_vec(), packet(&[0x50, 0x02, 2]));
    assert_eq!(set_profile_request(258).to_vec(), packet(&[0x50, 0x02, 2]));
    assert_eq!(save_request().to_vec(), packet(&[0x50, 0x03]));
    assert_eq!(binding_request(1).to_vec(), packet(&[0x12, 0x05, 1]));
    assert_eq!(settings_request(false).to_vec(), packet(&[0x12, 0x04, 0]));
    assert_eq!(settings_request(true).to_vec(), packet(&[0x12, 0x04, 2]));
    assert_eq!(led_request(2).to_vec(), packet(&[0x12, 0x03, 2]));
    assert_eq!(
        set_button_request(0xf0, 0xe4, 1).to_vec(),
        packet(&[0x51, 0x21, 0, 0, 0xf0, 1, 0xe4, 1])
    );
    assert_eq!(set_setting_request(3, 7).to_vec(), packet(&[0x51, 0x31, 3, 0, 7]));
    assert_eq!(
        set_led_request(1, 2, 3, 4, 5, 6).to_vec(),
        packet(&[0x51, 0x28, 1, 0, 2, 3, 4, 5, 6])
    );
}

#[test]
fn tables_of_a_catalog_entry() {
    let t = AsusTables::new();
    assert_eq!(t.quirks, 0);
    assert!(t.button_mapping.iter().all(|m| m.is_none()));
    assert!(t.button_indices.iter().all(|m| m.is_none()));

    let t = AsusTables::from_config(&DriverConfig::default());
    assert_eq!(
        &t.button_mapping[..9],
        &[
            Some(0xf0),
            Some(0xf1),
            Some(0xf2),
            Some(0xe4),
            Some(0xe5),
            Some(0xe6),
            Some(0xe8),
            Some(0xe9),
            None
        ]
    );
    /* The buttons of the device state follow the order of the button
     * table: left, right, middle, wheel up, wheel down, DPI cycle,
     * backward, forward. */
    assert_eq!(
        &t.button_indices[..9],
        &[Some(0), Some(1), Some(2), Some(6), Some(7), Some(5), Some(3), Some(4), None]
    );
    assert_eq!(t.led_modes[1], LedMode::Breathing);
    assert!(!t.has_quirk(ASUS_QUIRK_DOUBLE_DPI));

    let config = DriverConfig {
        quirks: vec!["DOUBLE_DPI".to_string(), "BUTTONS_SECONDARY".to_string(), "NOPE".to_string()],
        button_mapping: vec![0xf1, 0xf0],
        button_mapping_secondary: vec![0xe1],
        led_modes: vec!["off".to_string(), "ColorWave".to_string(), "what".to_string()],
        ..DriverConfig::default()
    };
    let t = AsusTables::from_config(&config);
    assert_eq!(t.quirks, ASUS_QUIRK_DOUBLE_DPI | ASUS_QUIRK_BUTTONS_SECONDARY);
    assert!(t.has_quirk(ASUS_QUIRK_BUTTONS_SECONDARY));
    assert_eq!(&t.button_mapping[..3], &[Some(0xf1), Some(0xf0), Some(0xf2)]);
    assert_eq!(t.button_mapping[17], Some(0xe1));
    assert_eq!(t.button_mapping[18], None);
    assert_eq!(&t.button_indices[..3], &[Some(1), Some(0), Some(2)]);
    /* 0xe1 comes after 0xe4 and 0xe5 in the table. */
    assert_eq!(t.button_indices[8], Some(17));
    assert_eq!(t.button_indices[9], None);
    assert_eq!(
        t.led_modes.to_vec(),
        vec![
            LedMode::Off,
            LedMode::ColorWave,
            LedMode::Solid,
            LedMode::Solid,
            LedMode::Solid,
            LedMode::Solid,
            LedMode::Solid
        ]
    );

    /* Without the quirk the second group is not taken. */
    let config = DriverConfig { button_mapping_secondary: vec![0xe1], ..DriverConfig::default() };
    assert_eq!(AsusTables::from_config(&config).button_mapping[17], None);
}

#[test]
fn bindings_are_read_by_slot() {
    let t = AsusTables::from_config(&DriverConfig::default());
    let mut primary = AsusBindingData { bindings: [AsusBinding { action: 0, type_: 9 }; 17] };
    primary.bindings[0] = AsusBinding { action: 0xf1, type_: 1 };
    primary.bindings[1] = AsusBinding { action: 0xff, type_: 1 };
    primary.bindings[2] = AsusBinding { action: 0x04, type_: 0 };
    primary.bindings[6] = AsusBinding { action: 0xe6, type_: 1 };
    primary.bindings[7] = AsusBinding { action: 0xd0, type_: 1 };
    primary.bindings[5] = AsusBinding { action: 0xea, type_: 1 };
    primary.bindings[3] = AsusBinding { action: 0x01, type_: 0 };
    primary.bindings[4] = AsusBinding { action: 0x33, type_: 1 };
    let mut p = profile(0, 9, 0, 0);
    p.buttons[6].action_type = ActionType::Macro;
    p.buttons[6].mapping_value = 77;
    apply_bindings(&mut p, &t, &primary, None);
    let got: Vec<(ActionType, u32)> =
        p.buttons.iter().map(|b| (b.action_type, b.mapping_value)).collect();
    assert_eq!(
        got,
        vec![
            (ActionType::Button, 2),
            (ActionType::NoAction, 0),
            (ActionType::Key, 30),
            (ActionType::Special, 5),
            (ActionType::Special, 0),
            (ActionType::NoAction, 0),
            /* A key code and a button code that name nothing. */
            (ActionType::Macro, 77),
            (ActionType::Unknown, 0),
            /* A button without a slot. */
            (ActionType::Unknown, 0),
        ]
    );
}

#[test]
fn bindings_of_the_second_group() {
    let config = DriverConfig {
        quirks: vec!["BUTTONS_SECONDARY".to_string()],
        button_mapping: vec![0xf0, 0xe1],
        button_mapping_secondary: vec![0xd0, 0xf1],
        ..DriverConfig::default()
    };
    let t = AsusTables::from_config(&config);
    /* 0xf0 is slot 0, 0xf1 is slot 18, 0xf2 is slot 2 by default. */
    assert_eq!(t.button_mapping[1], Some(0xe1));
    assert_eq!(&t.button_indices[..3], &[Some(0), Some(18), Some(2)]);
    let primary = AsusBindingData { bindings: [AsusBinding { action: 0xf2, type_: 1 }; 17] };
    let mut secondary = AsusBindingData { bindings: [AsusBinding { action: 0xff, type_: 1 }; 17] };
    secondary.bindings[1] = AsusBinding { action: 0xe8, type_: 1 };
    let mut p = profile(0, 3, 0, 0);
    apply_bindings(&mut p, &t, &primary, Some(&secondary));
    assert_eq!(p.buttons[0].action_type, ActionType::Button);
    assert_eq!(p.buttons[0].mapping_value, 3);
    assert_eq!(p.buttons[1].action_type, ActionType::Special);
    assert_eq!(p.buttons[1].mapping_value, 1);
    let mut p = profile(0, 3, 0, 0);
    apply_bindings(&mut p, &t, &primary, None);
    assert_eq!(p.buttons[1].action_type, ActionType::Unknown);
}

#[test]
fn settings_are_read() {
    let mut p = profile(0, 0, 3, 0);
    p.debounce = 7;
    apply_settings(&mut p, &[15, 31], 2, 3, 1, None, Some(1), 0);
    assert_eq!(p.report_rate, 500);
    assert_eq!(p.debounce, 16);
    assert_eq!(p.angle_snapping, 1);
    assert_eq!(p.resolutions[0].dpi, Dpi::Unified(800));
    assert_eq!(p.resolutions[1].dpi, Dpi::Unified(1600));
    assert_eq!(p.resolutions[2].dpi, Dpi::Unified(50));
    assert_eq!(
        p.resolutions.iter().map(|r| r.is_active).collect::<Vec<_>>(),
        vec![false, true, false]
    );

    let mut p = profile(0, 0, 2, 0);
    p.debounce = 7;
    let xy = AsusDpiXyData { dpi: [(1, 2), (3, 4), (0, 0), (0, 0)] };
    apply_settings(&mut p, &[15, 31], 4, 8, 0, Some(&xy), None, ASUS_QUIRK_DOUBLE_DPI);
    assert_eq!(p.report_rate, 1000);
    assert_eq!(p.debounce, 7);
    assert_eq!(p.angle_snapping, 0);
    assert_eq!(p.resolutions[0].dpi, Dpi::Separate { x: 200, y: 300 });
    assert_eq!(p.resolutions[1].dpi, Dpi::Separate { x: 400, y: 500 });
    assert!(p.resolutions[0].is_active);
}

#[test]
fn led_is_read() {
    let t = AsusTables::from_config(&DriverConfig::default());
    let mut l = led(0);
    apply_led(&mut l, AsusLedEntry { mode: 1, brightness: 3, r: 1, g: 2, b: 3 }, &t);
    assert_eq!(l.mode, LedMode::Breathing);
    assert_eq!(l.brightness, 192);
    assert_eq!(l.color, Color { red: 1, green: 2, blue: 3 });
    apply_led(&mut l, AsusLedEntry { mode: 7, brightness: 4, r: 0, g: 0, b: 0 }, &t);
    assert_eq!(l.mode, LedMode::Solid);
    assert_eq!(l.brightness, 256);
    let raw = AsusTables::from_config(&DriverConfig {
        quirks: vec!["RAW_BRIGHTNESS".to_string()],
        ..DriverConfig::default()
    });
    assert!(raw.has_quirk(ASUS_QUIRK_RAW_BRIGHTNESS));
    apply_led(&mut l, AsusLedEntry { mode: 2, brightness: 200, r: 0, g: 0, b: 0 }, &raw);
    assert_eq!(l.mode, LedMode::Cycle);
    assert_eq!(l.brightness, 200);
}

fn sends(plan: &[SaveItem]) -> Vec<Vec<u8>> {
    plan.iter()
        .map(|item| match item {
            SaveItem::Send(bytes) => bytes.to_vec(),
            SaveItem::Abort(text) => panic!("abort: {}", text),
        })
        .collect()
}

fn written(info: &mut DeviceInfo, i: usize) {
    let p = &mut info.profiles[i];
    p.is_dirty = true;
    p.report_rate = 500;
    p.angle_snapping = 1;
    p.debounce = 12;
    p.buttons[0].action_type = ActionType::Button;
    p.buttons[0].mapping_value = 5;
    p.buttons[1].action_type = ActionType::NoAction;
    p.buttons[2].action_type = ActionType::Key;
    p.buttons[2].mapping_value = 30;
    p.buttons[3].action_type = ActionType::Special;
    p.buttons[3].mapping_value = 2;
    p.buttons[4].action_type = ActionType::Macro;
    p.resolutions[0].dpi = Dpi::Unified(800);
    p.resolutions[1].dpi = Dpi::Separate { x: 1600, y: 400 };
    p.leds[0].mode = LedMode::Cycle;
    p.leds[0].brightness = 256;
    p.leds[0].color = Color { red: 300, green: 20, blue: 30 };
}

fn profile_requests() -> Vec<Vec<u8>> {
    vec![
        set_button_request(0xf0, 0xe5, 1).to_vec(),
        set_button_request(0xf1, 0xff, 1).to_vec(),
        set_button_request(0xf2, 0x04, 0).to_vec(),
        set_button_request(0xe8, 0xe9, 1).to_vec(),
        set_setting_request(2, 2).to_vec(),
        set_setting_request(4, 1).to_vec(),
        set_setting_request(3, 2).to_vec(),
        set_setting_request(0, 15).to_vec(),
        set_setting_request(1, 31).to_vec(),
        set_led_request(0, 2, 4, 255, 20, 30).to_vec(),
        save_request().to_vec(),
    ]
}

#[test]
fn plan_of_one_profile() {
    let mut info = device(1, &[]);
    let t = AsusTables::from_config(&info.driver_config);
    assert!(plan_save(&info, &t, 0).is_empty());
    written(&mut info, 0);
    assert_eq!(sends(&plan_save(&info, &t, 0)), profile_requests());
    /* With one profile the device is never switched. */
    assert_eq!(sends(&plan_save(&info, &t, 3)), profile_requests());
}

#[test]
fn plan_of_several_profiles() {
    let mut info = device(3, &[]);
    let t = AsusTables::from_config(&info.driver_config);
    assert_eq!(sends(&plan_save(&info, &t, 1)), vec![set_profile_request(1).to_vec()]);
    written(&mut info, 1);
    written(&mut info, 2);
    let mut want = profile_requests();
    want.push(set_profile_request(2).to_vec());
    want.extend(profile_requests());
    want.push(set_profile_request(1).to_vec());
    assert_eq!(sends(&plan_save(&info, &t, 1)), want);
}

#[test]
fn plan_gives_up_on_what_the_device_does_not_know() {
    let mut info = device(1, &[]);
    let t = AsusTables::from_config(&info.driver_config);
    written(&mut info, 0);
    info.profiles[0].report_rate = 333;
    let plan = plan_save(&info, &t, 0);
    assert!(matches!(&plan[4], SaveItem::Abort(_)));
    info.profiles[0].report_rate = 0;
    info.profiles[0].angle_snapping = -1;
    info.profiles[0].debounce = 5;
    let plan = plan_save(&info, &t, 0);
    assert!(matches!(&plan[4], SaveItem::Abort(_)));
    info.profiles[0].debounce = 0;
    let plan = plan_save(&info, &t, 0);
    assert_eq!(plan.len(), 8);
    assert_eq!(sends(&plan)[4], set_setting_request(0, 15).to_vec());
}

/// A device with two profiles that answers as the driver expects.
struct FakeAsus {
    selected: u8,
    asleep: bool,
    log: Vec<Vec<u8>>,
}

impl FakeAsus {
    fn answer(&mut self, request: &[u8]) -> Vec<u8> {
        self.log.push(request.to_vec());
        let mut r = vec![0u8; 64];
        if self.asleep {
            r[0] = 0xff;
            r[1] = 0xaa;
            return r;
        }
        r[0] = request[0];
        r[1] = request[1];
        match (request[0], request[1]) {
            (0x12, 0x00) => {
                r[2 + 8] = self.selected;
                r[2 + 9] = 2;
                r[2 + 13] = 1;
                r[2 + 12] = 2;
                r[2 + 11] = 0x2a;
            }
            (0x50, 0x02) => self.selected = request[2],
            (0x12, 0x05) => {
                for k in 0..17 {
                    r[4 + 2 * k] = 0xff;
                    r[5 + 2 * k] = 1;
                }
                r[4] = 0xf0 + self.selected;
                r[4 + 2 * 2] = 0x05;
                r[5 + 2 * 2] = 0;
            }
            (0x12, 0x04) => {
                r[4] = 15 + self.selected;
                r[6] = 31;
                r[8] = 1;
                r[10] = 2;
                r[12] = 1;
            }
            (0x12, 0x03) => {
                r[4] = 1;
                r[5] = 2;
                r[6] = 10 + self.selected;
                r[7] = 20;
                r[8] = 30;
            }
            _ => {}
        }
        r
    }
}

fn run(
    dev: &mut FakeAsus,
    mut step: impl FnMut(DriverEvent) -> DriverAction,
) -> Result<(), String> {
    let mut action = step(DriverEvent::Start);
    let mut last: Vec<u8> = Vec::new();
    for _ in 0..1000 {
        action = match action {
            DriverAction::Done => return Ok(()),
            DriverAction::Failed(e) => return Err(e),
            DriverAction::WriteReport(bytes) => {
                last = bytes;
                step(DriverEvent::Completed)
            }
            DriverAction::ReadReport { len, timeout_ms } => {
                assert_eq!((len, timeout_ms), (64, None));
                let reply = dev.answer(&last);
                step(DriverEvent::Data(reply))
            }
            other => panic!("unexpected {:?}", other),
        };
    }
    panic!("no end");
}

#[test]
fn probe_load_and_commit_against_a_device() {
    let mut dev = FakeAsus { selected: 0, asleep: false, log: Vec::new() };
    let mut info = device(2, &[]);
    let mut d = AsusDriver::new();
    assert!(!d.is_ready);
    run(&mut dev, |e| d.probe_step(e)).unwrap();
    assert!(d.is_ready);
    assert_eq!(dev.log, vec![profile_data_request().to_vec()]);

    dev.log.clear();
    run(&mut dev, |e| d.load_step(&mut info, e)).unwrap();
    assert!(d.is_ready);
    assert_eq!(d.stage, AsusStage::Idle);
    assert_eq!(
        dev.log,
        vec![
            profile_data_request().to_vec(),
            binding_request(0).to_vec(),
            settings_request(false).to_vec(),
            led_request(0).to_vec(),
            set_profile_request(1).to_vec(),
            binding_request(0).to_vec(),
            settings_request(false).to_vec(),
            led_request(0).to_vec(),
            set_profile_request(0).to_vec(),
        ]
    );
    assert_eq!(dev.selected, 0);
    assert_eq!(info.firmware_version, "01.02.2A");
    assert_eq!(info.profiles.len(), 2);
    assert!(info.profiles[0].is_active);
    assert!(!info.profiles[1].is_active);
    for (i, p) in info.profiles.iter().enumerate() {
        assert_eq!(p.report_rates, vec![125, 250, 500, 1000]);
        assert_eq!(p.debounces, vec![4, 8, 12, 16, 20, 24, 28, 32]);
        assert_eq!(p.report_rate, 250);
        assert_eq!(p.debounce, 12);
        assert_eq!(p.angle_snapping, 1);
        assert_eq!(p.buttons[0].action_type, ActionType::Button);
        assert_eq!(p.buttons[0].mapping_value, 1 + i as u32);
        assert_eq!(p.buttons[1].action_type, ActionType::NoAction);
        assert_eq!(p.buttons[2].action_type, ActionType::Key);
        assert_eq!(p.buttons[2].mapping_value, 48);
        assert_eq!(p.resolutions[0].dpi, Dpi::Unified(800 + 50 * i as u32));
        assert_eq!(p.resolutions[1].dpi, Dpi::Unified(1600));
        assert!(!p.resolutions[0].is_active);
        assert!(p.resolutions[1].is_active);
        assert_eq!(p.leds[0].mode, LedMode::Breathing);
        assert_eq!(p.leds[0].brightness, 128);
        assert_eq!(p.leds[0].color, Color { red: 10 + i as u32, green: 20, blue: 30 });
        assert_eq!(p.leds[0].color_depth, 3);
        assert_eq!(p.leds[0].modes.len(), 7);
    }

    /* Nothing is dirty: the device is asked which profile is selected
     * and is put back on it. */
    dev.log.clear();
    run(&mut dev, |e| d.commit_step(&info, e)).unwrap();
    assert_eq!(dev.log, vec![profile_data_request().to_vec(), set_profile_request(0).to_vec()]);

    written(&mut info, 1);
    dev.log.clear();
    run(&mut dev, |e| d.commit_step(&info, e)).unwrap();
    let mut want = vec![profile_data_request().to_vec(), set_profile_request(1).to_vec()];
    want.extend(profile_requests());
    want.push(set_profile_request(0).to_vec());
    assert_eq!(dev.log, want);
    assert_eq!(dev.selected, 0);
}

#[test]
fn leds_one_by_one() {
    let mut dev = FakeAsus { selected: 0, asleep: false, log: Vec::new() };
    let mut info = device(1, &["SEPARATE_LEDS"]);
    info.profiles[0].leds.push(led(1));
    info.profiles[0].leds.push(led(2));
    let mut d = AsusDriver::new();
    run(&mut dev, |e| d.load_step(&mut info, e)).unwrap();
    assert!(d.has_quirk(ASUS_QUIRK_SEPARATE_LEDS));
    assert_eq!(
        dev.log,
        vec![
            profile_data_request().to_vec(),
            binding_request(0).to_vec(),
            settings_request(false).to_vec(),
            led_request(0).to_vec(),
            led_request(1).to_vec(),
            led_request(2).to_vec(),
        ]
    );
    assert!(info.profiles[0].leds.iter().all(|l| l.mode == LedMode::Breathing));
}

#[test]
fn a_sleeping_device_is_loaded_as_far_as_it_goes() {
    let mut dev = FakeAsus { selected: 0, asleep: true, log: Vec::new() };
    let mut info = device(2, &[]);
    let mut d = AsusDriver::new();
    run(&mut dev, |e| d.probe_step(e)).unwrap();
    assert!(!d.is_ready);
    run(&mut dev, |e| d.load_step(&mut info, e)).unwrap();
    assert!(!d.is_ready);
    assert_eq!(info.firmware_version, "");
    assert_eq!(info.profiles[0].buttons[0].action_type, ActionType::Unknown);
    assert_eq!(info.profiles[0].report_rates, vec![125, 250, 500, 1000]);

    /* A commit while the device sleeps fails. */
    written(&mut info, 0);
    dev.log.clear();
    let e = run(&mut dev, |e| d.commit_step(&info, e)).unwrap_err();
    assert_eq!(e, "ASUS: device not ready and recovery failed; commit aborted");
    assert!(!d.is_ready);
    assert_eq!(dev.log, vec![profile_data_request().to_vec()]);

    /* Once it is awake the next commit reads the device anew, writes
     * nothing and fails; the one after that writes. */
    dev.asleep = false;
    dev.log.clear();
    let e = run(&mut dev, |e| d.commit_step(&info, e)).unwrap_err();
    assert_eq!(e, "ASUS: device was not ready; commit aborted after recovery reload");
    assert!(d.is_ready);
    assert!(dev.log.iter().all(|r| r[0] != 0x51));
    assert_eq!(dev.log.len(), 9);

    dev.log.clear();
    run(&mut dev, |e| d.commit_step(&info, e)).unwrap();
    assert!(dev.log.iter().any(|r| r[0] == 0x51));
}

#[test]
fn step_by_step() {
    let mut d = AsusDriver::new();
    let mut info = device(1, &[]);
    assert_eq!(
        d.probe_step(DriverEvent::Start),
        DriverAction::WriteReport(profile_data_request().to_vec())
    );
    assert_eq!(d.stage, AsusStage::Writing(Pending::Probe));
    assert_eq!(
        d.probe_step(DriverEvent::Completed),
        DriverAction::ReadReport { len: 64, timeout_ms: None }
    );
    assert_eq!(d.stage, AsusStage::Reading(Pending::Probe));
    assert_eq!(
        d.probe_step(DriverEvent::Failed(DriverError::Timeout { attempts: 1 })),
        DriverAction::Done
    );
    assert!(!d.is_ready);
    d.is_ready = true;
    d.init_from_config(&info.driver_config);

    /* A write that fails ends a commit. */
    written(&mut info, 0);
    assert_eq!(
        d.commit_step(&info, DriverEvent::Start),
        DriverAction::WriteReport(set_button_request(0xf0, 0xe5, 1).to_vec())
    );
    assert_eq!(d.stage, AsusStage::Writing(Pending::SaveItem { k: 0 }));
    let r = d.commit_step(
        &info,
        DriverEvent::Failed(DriverError::Io { device: "hidraw3".to_string(), source: "gone".to_string() }),
    );
    assert_eq!(r, DriverAction::Failed("I/O failure on hidraw3: gone".to_string()));
    assert_eq!(d.stage, AsusStage::Idle);

    /* An empty device state commits at once. */
    let empty = device(0, &[]);
    assert_eq!(d.commit_step(&empty, DriverEvent::Start), DriverAction::Done);

    /* A plan that gives up fails the commit where it stands. */
    info.profiles[0].buttons.clear();
    info.profiles[0].report_rate = 333;
    assert!(matches!(d.commit_step(&info, DriverEvent::Start), DriverAction::Failed(_)));
}

#[test]
fn failed_commit_puts_the_device_back() {
    let mut dev = FakeAsus { selected: 0, asleep: false, log: Vec::new() };
    let mut info = device(2, &[]);
    let mut d = AsusDriver::new();
    run(&mut dev, |e| d.probe_step(e)).unwrap();
    run(&mut dev, |e| d.load_step(&mut info, e)).unwrap();
    written(&mut info, 1);

    /* The device is asked which profile is selected, is switched to the
     * dirty profile, and stops answering in the middle of the writes. */
    let mut action = d.commit_step(&info, DriverEvent::Start);
    let mut last: Vec<u8> = Vec::new();
    let mut writes = 0;
    let failure = loop {
        action = match action {
            DriverAction::WriteReport(bytes) => {
                last = bytes;
                writes += 1;
                d.commit_step(&info, DriverEvent::Completed)
            }
            DriverAction::ReadReport { .. } => {
                if writes == 5 {
                    break d.commit_step(
                        &info,
                        DriverEvent::Failed(DriverError::Timeout { attempts: 1 }),
                    );
                }
                let reply = dev.answer(&last);
                d.commit_step(&info, DriverEvent::Data(reply))
            }
            other => panic!("unexpected {:?}", other),
        };
    };
    assert_eq!(dev.selected, 1);
    /* The commit does not fail yet: the device is put back first. */
    assert_eq!(failure, DriverAction::WriteReport(set_profile_request(0).to_vec()));
    assert_eq!(d.stage, AsusStage::Writing(Pending::SaveRestore));
    assert_eq!(
        d.commit_step(&info, DriverEvent::Completed),
        DriverAction::ReadReport { len: 64, timeout_ms: None }
    );
    let reply = dev.answer(&set_profile_request(0));
    assert_eq!(dev.selected, 0);
    assert_eq!(
        d.commit_step(&info, DriverEvent::Data(reply)),
        DriverAction::Failed("Hardware timed out after 1 attempt(s)".to_string())
    );
    assert_eq!(d.stage, AsusStage::Idle);

    /* A restore that cannot be written fails the commit with the first
     * failure all the same. */
    let mut action = d.commit_step(&info, DriverEvent::Start);
    let mut written_so_far = 0;
    loop {
        action = match action {
            DriverAction::WriteReport(bytes) => {
                if written_so_far == 2 {
                    break;
                }
                last = bytes;
                written_so_far += 1;
                d.commit_step(&info, DriverEvent::Completed)
            }
            DriverAction::ReadReport { .. } => {
                let reply = dev.answer(&last);
                d.commit_step(&info, DriverEvent::Data(reply))
            }
            other => panic!("unexpected {:?}", other),
        };
    }
    let action = d.commit_step(&info, DriverEvent::Completed);
    assert_eq!(action, DriverAction::ReadReport { len: 64, timeout_ms: None });
    let action = d.commit_step(&info, DriverEvent::Data(vec![0u8; 64]));
    assert!(matches!(action, DriverAction::WriteReport(_)));
    let gone = DriverError::Io { device: "hidraw3".to_string(), source: "gone".to_string() };
    assert_eq!(
        d.commit_step(&info, DriverEvent::Failed(gone.clone())),
        DriverAction::WriteReport(set_profile_request(0).to_vec())
    );
    assert_eq!(
        d.commit_step(&info, DriverEvent::Failed(gone)),
        DriverAction::Failed("I/O failure on hidraw3: gone".to_string())
    );
}

#[test]
fn plan_says_why_it_gives_up() {
    let mut info = device(1, &[]);
    let t = AsusTables::from_config(&info.driver_config);
    written(&mut info, 0);
    info.profiles[0].report_rate = 333;
    match &plan_save(&info, &t, 0)[4] {
        SaveItem::Abort(text) => assert_eq!(text, "ASUS: unsupported polling rate"),
        other => panic!("unexpected {:?}", other),
    }
    info.profiles[0].report_rate = 0;
    info.profiles[0].angle_snapping = -1;
    info.profiles[0].debounce = 5;
    match &plan_save(&info, &t, 0)[4] {
        SaveItem::Abort(text) => assert_eq!(text, "ASUS: unsupported debounce time"),
        other => panic!("unexpected {:?}", other),
    }
}
