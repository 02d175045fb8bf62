use ratbagd::device::{ActionType, Color, Dpi, LedMode};
use ratbagd::test_device::{
    build_device_info, default_button, default_profile, default_resolution, TestButtonSpec,
    TestDeviceSpec, TestLedSpec, TestProfileSpec, TestResolutionSpec,
};

#[test]
fn description_without_profiles() {
    let spec = TestDeviceSpec::default();
    assert!(spec.profiles.is_empty());
    assert!(spec.check_fits());
    let info = build_device_info("test0", spec);
    assert_eq!(info.sysname, "test0");
    assert_eq!(info.name, "Test Device (test0)");
    assert_eq!(info.model, "test:0000:0000:0");
    assert_eq!(info.firmware_version, "");
    assert_eq!(info.profiles.len(), 1);
    let p = &info.profiles[0];
    assert_eq!(p.index, 0);
    assert!(p.is_active && p.is_enabled && !p.is_dirty);
    assert_eq!(p.report_rate, 1000);
    assert_eq!(p.report_rates, vec![125, 250, 500, 1000]);
    assert_eq!(p.angle_snapping, -1);
    assert_eq!(p.debounce, -1);
    assert_eq!(p.resolutions.len(), 1);
    assert_eq!(p.resolutions[0].dpi, Dpi::Unified(1000));
    assert_eq!(p.resolutions[0].dpi_list, vec![1000]);
    assert!(p.resolutions[0].is_active && p.resolutions[0].is_default);
    assert_eq!(p.buttons.len(), 1);
    assert_eq!(p.buttons[0].action_type, ActionType::Button);
    assert_eq!(p.buttons[0].mapping_value, 0);
    assert_eq!(p.buttons[0].action_types, vec![0, 1, 2, 3, 4]);
    assert!(p.leds.is_empty());
}

#[test]
fn defaults_of_a_description() {
    let r = default_resolution();
    assert_eq!((r.xres, r.yres, r.dpi_min, r.dpi_max), (1000, 1000, Some(1000), Some(1000)));
    assert!(r.is_active && r.is_default && !r.is_disabled);
    let b = default_button();
    assert_eq!(b.action_type, "button");
    assert_eq!((b.button, b.key), (0, 0));
    let p = default_profile();
    assert!(p.is_active && p.is_default && !p.is_disabled);
    assert_eq!(p.rate, 1000);
    assert_eq!(p.report_rates, vec![125, 250, 500, 1000]);
    assert_eq!((p.resolutions.len(), p.buttons.len(), p.leds.len()), (1, 1, 0));
}

fn word_button(word: &str, button: u32) -> TestButtonSpec {
    TestButtonSpec { action_type: word.to_string(), button, key: 0 }
}

#[test]
fn described_device() {
    let first = TestProfileSpec {
        is_active: false,
        is_default: false,
        is_disabled: true,
        rate: 500,
        report_rates: vec![500, 1000],
        resolutions: vec![
            TestResolutionSpec {
                xres: 400,
                yres: 400,
                dpi_min: Some(400),
                dpi_max: Some(650),
                is_active: false,
                is_default: true,
                is_disabled: false,
                capabilities: vec![1],
            },
            TestResolutionSpec {
                xres: 800,
                yres: 900,
                dpi_min: None,
                dpi_max: Some(5000),
                is_active: true,
                is_default: false,
                is_disabled: true,
                capabilities: vec![],
            },
        ],
        buttons: vec![
            word_button("none", 1),
            word_button("button", 2),
            word_button("special", 3),
            word_button("key", 4),
            word_button("macro", 5),
            word_button("Button", 6),
        ],
        leds: vec![
            TestLedSpec { mode: 10, duration: 1000, brightness: 100, color: Some(vec![1, 2, 3, 4]) },
            TestLedSpec { mode: 2, duration: 0, brightness: 0, color: Some(vec![1, 2]) },
            TestLedSpec { mode: 1, duration: 0, brightness: 0, color: None },
        ],
    };
    let second = TestProfileSpec {
        is_active: true,
        is_default: true,
        is_disabled: false,
        rate: 1000,
        report_rates: vec![],
        resolutions: vec![],
        buttons: vec![],
        leds: vec![],
    };
    let spec = TestDeviceSpec { profiles: vec![first, second] };
    assert!(spec.check_fits());
    let info = build_device_info("test1", spec);
    assert_eq!(info.profiles.len(), 2);
    let p = &info.profiles[0];
    assert!(!p.is_active && !p.is_enabled);
    assert_eq!(p.report_rate, 500);
    assert_eq!(p.report_rates, vec![500, 1000]);
    assert_eq!(p.resolutions[0].dpi, Dpi::Unified(400));
    assert_eq!(p.resolutions[0].dpi_list, vec![400, 500, 600]);
    assert_eq!(p.resolutions[0].capabilities, vec![1]);
    assert!(p.resolutions[0].is_default && !p.resolutions[0].is_active);
    assert_eq!(p.resolutions[1].index, 1);
    assert_eq!(p.resolutions[1].dpi, Dpi::Separate { x: 800, y: 900 });
    assert_eq!(p.resolutions[1].dpi_list, vec![800]);
    assert!(p.resolutions[1].is_disabled);
    let kinds: Vec<(ActionType, u32, u32)> =
        p.buttons.iter().map(|b| (b.action_type, b.mapping_value, b.index)).collect();
    assert_eq!(
        kinds,
        vec![
            (ActionType::NoAction, 1, 0),
            (ActionType::Button, 2, 1),
            (ActionType::Special, 3, 2),
            (ActionType::Key, 4, 3),
            (ActionType::Macro, 5, 4),
            (ActionType::Unknown, 6, 5),
        ]
    );
    assert_eq!(p.leds[0].mode, LedMode::Breathing);
    assert_eq!(p.leds[0].color, Color { red: 1, green: 2, blue: 3 });
    assert_eq!(p.leds[0].effect_duration, 1000);
    assert_eq!(p.leds[0].brightness, 100);
    assert_eq!(p.leds[0].modes.len(), 5);
    assert_eq!(p.leds[1].mode, LedMode::Off);
    assert_eq!(p.leds[1].color, Color { red: 0, green: 0, blue: 0 });
    assert_eq!(p.leds[2].mode, LedMode::Solid);
    assert_eq!(p.leds[2].index, 2);
    /* A profile that describes no resolution and no button gets one of each. */
    let q = &info.profiles[1];
    assert_eq!(q.index, 1);
    assert!(q.is_active && q.is_enabled);
    assert!(q.report_rates.is_empty());
    assert_eq!(q.resolutions.len(), 1);
    assert_eq!(q.resolutions[0].dpi, Dpi::Unified(1000));
    assert_eq!(q.buttons.len(), 1);
    assert_eq!(q.buttons[0].action_type, ActionType::Button);
    assert!(q.leds.is_empty());
}
