use ratbagd::device::{ActionType, ButtonInfo, Dpi, ProfileInfo, ResolutionInfo};
use ratbagd::driver::hidpp::crc_is_valid;
use ratbagd::driver::hidpp20_profile::{apply_profile_sector, patch_profile_sector};

fn button(index: u32, action_type: ActionType, value: u32) -> ButtonInfo {
    ButtonInfo { index, action_type, mapping_value: value, ..ButtonInfo::default() }
}

fn resolution(index: u32, dpi: Dpi, is_default: bool) -> ResolutionInfo {
    ResolutionInfo {
        index,
        dpi,
        dpi_list: Vec::new(),
        capabilities: Vec::new(),
        is_active: false,
        is_default,
        is_disabled: false,
    }
}

#[test]
fn sector_is_read_into_a_profile() {
    let mut data = vec![0u8; 64];
    data[0] = 2; /* 500 Hz */
    data[1] = 1; /* second resolution is the default */
    data[3] = 0x20;
    data[4] = 0x03; /* 800 */
    data[5] = 0x00;
    data[6] = 0x00; /* empty */
    data[7] = 0xFF;
    data[8] = 0xFF; /* empty */
    data[9] = 0x40;
    data[10] = 0x06; /* 1600 */
    data[32..36].copy_from_slice(&[0x80, 0x01, 0x00, 0x04]); /* button 3 */
    data[36..40].copy_from_slice(&[0x80, 0x02, 0x00, 0x1E]); /* key 30 */
    data[40..44].copy_from_slice(&[0xFF, 0x00, 0x00, 0x00]);

    let mut p = ProfileInfo::default();
    p.report_rate = 1000;
    p.resolutions.push(resolution(0, Dpi::Unified(50), true));
    for i in 0..4 {
        p.buttons.push(button(i, ActionType::Unknown, 99));
    }
    apply_profile_sector(&mut p, &data, true, 3);

    assert!(p.is_enabled);
    assert_eq!(p.report_rate, 500);
    assert_eq!(p.resolutions.len(), 2);
    assert_eq!(p.resolutions[0].dpi, Dpi::Unified(800));
    assert_eq!(p.resolutions[1].dpi, Dpi::Unified(1600));
    assert_eq!(p.resolutions[0].index, 0);
    assert_eq!(p.resolutions[1].index, 1);
    assert!(!p.resolutions[0].is_default);
    assert!(p.resolutions[1].is_default);
    assert!(p.resolutions[1].is_active);
    assert_eq!(p.buttons[0].action_type, ActionType::Button);
    assert_eq!(p.buttons[0].mapping_value, 3);
    assert_eq!(p.buttons[1].action_type, ActionType::Key);
    assert_eq!(p.buttons[1].mapping_value, 30);
    assert_eq!(p.buttons[2].action_type, ActionType::NoAction);
    /* The device states three buttons: the fourth is left alone. */
    assert_eq!(p.buttons[3].action_type, ActionType::Unknown);
    assert_eq!(p.buttons[3].mapping_value, 99);
}

#[test]
fn short_or_empty_sector_leaves_defaults() {
    let mut p = ProfileInfo::default();
    p.report_rate = 250;
    p.resolutions.push(resolution(0, Dpi::Unified(50), true));
    p.buttons.push(button(0, ActionType::Button, 1));
    apply_profile_sector(&mut p, &[], false, 16);
    assert!(!p.is_enabled);
    assert_eq!(p.report_rate, 250);
    assert_eq!(p.resolutions.len(), 1);
    assert_eq!(p.resolutions[0].dpi, Dpi::Unified(50));
    assert_eq!(p.buttons[0].action_type, ActionType::Button);

    /* An interval of 0 and no DPI value. */
    apply_profile_sector(&mut p, &[0u8; 34], true, 16);
    assert_eq!(p.report_rate, 250);
    assert_eq!(p.resolutions.len(), 1);
    assert_eq!(p.buttons[0].mapping_value, 1);
}

#[test]
fn profile_is_written_into_its_sector() {
    let mut p = ProfileInfo::default();
    p.report_rate = 500;
    p.resolutions.push(resolution(0, Dpi::Unified(800), false));
    p.resolutions.push(resolution(1, Dpi::Unified(3200), true));
    p.resolutions.push(resolution(2, Dpi::Separate { x: 1, y: 2 }, false));
    p.buttons.push(button(0, ActionType::Button, 2));
    p.buttons.push(button(1, ActionType::Special, 0x0102));
    p.buttons.push(button(20, ActionType::Button, 1));
    let mut data = vec![0xEEu8; 64];
    patch_profile_sector(&mut data, &p, 16);
    assert_eq!(data.len(), 64);
    assert_eq!(data[0], 2);
    assert_eq!(data[1], 1);
    assert_eq!(data[2], 0xEE);
    assert_eq!(&data[3..7], &[0x20, 0x03, 0x80, 0x0C]);
    /* A resolution with a value for each axis is not written. */
    assert_eq!(&data[7..13], &[0xEE; 6]);
    assert_eq!(&data[32..36], &[0x80, 0x01, 0x00, 0x02]);
    assert_eq!(&data[36..40], &[0x90, 0x00, 0x02, 0x01]);
    assert_eq!(&data[40..62], &[0xEE; 22]);
    assert!(crc_is_valid(&data));
}

#[test]
fn written_profile_reads_back() {
    let mut p = ProfileInfo::default();
    p.report_rate = 250;
    for (i, dpi) in [400u32, 800, 1600, 3200, 6400].iter().enumerate() {
        p.resolutions.push(resolution(i as u32, Dpi::Unified(*dpi), i == 3));
    }
    for n in 0..16u32 {
        p.buttons.push(button(n, ActionType::Button, n + 1));
    }
    let mut data = vec![0xFFu8; 255];
    patch_profile_sector(&mut data, &p, 16);
    assert!(crc_is_valid(&data));

    let mut q = ProfileInfo::default();
    for n in 0..16u32 {
        q.buttons.push(button(n, ActionType::Unknown, 0));
    }
    apply_profile_sector(&mut q, &data, true, 16);
    assert_eq!(q.report_rate, 250);
    assert_eq!(q.resolutions.len(), 5);
    for i in 0..5 {
        assert_eq!(q.resolutions[i].dpi, p.resolutions[i].dpi);
        assert_eq!(q.resolutions[i].is_default, i == 3);
    }
    for n in 0..16usize {
        assert_eq!(q.buttons[n].action_type, ActionType::Button);
        assert_eq!(q.buttons[n].mapping_value, n as u32 + 1);
    }
}

#[test]
fn tiny_sectors_are_patched_as_far_as_they_reach() {
    let mut p = ProfileInfo::default();
    p.report_rate = 1000;
    p.resolutions.push(resolution(0, Dpi::Unified(800), true));
    p.buttons.push(button(0, ActionType::Button, 1));
    let mut empty: Vec<u8> = Vec::new();
    patch_profile_sector(&mut empty, &p, 16);
    assert!(empty.is_empty());
    let mut one = vec![9u8];
    patch_profile_sector(&mut one, &p, 16);
    assert_eq!(one, vec![1]);
    let mut four = vec![9u8; 4];
    patch_profile_sector(&mut four, &p, 16);
    assert_eq!(&four[..2], &[1, 0]);
    assert!(crc_is_valid(&four));
}
