use ratbagd::device::{ActionType, Color, LedInfo, LedMode, ProfileInfo};
use ratbagd::driver::hidpp::crc_is_valid;
use ratbagd::driver::hidpp20::{
    apply_led_zone, button_from_mask, feature_index_of, feature_page, interval_from_rate,
    parse_dpi_list, rate_from_interval, report_rates_from_bitmap, FeatureMap,
    Hidpp20ButtonBinding, Hidpp20DpiPayload, Hidpp20LedGetZonePayload, Hidpp20LedSetZonePayload,
    Hidpp20OnboardProfilesInfo, Hidpp20ReportRatePayload,
};
use ratbagd::driver::hidpp20_memory::{
    build_directory, read_directory, SectorRead, SectorWrite, WriteCall, WritePhase, WriteStep,
};

fn memory(size: usize) -> Vec<u8> {
    (0..size).map(|i| (i * 7 + 3) as u8).collect()
}

/* Reads a range as the driver does, from a device that rejects a read that
 * reaches past the end of the sector. */
fn read_range(mem: &[u8], offset: u16, size: u16) -> (Vec<u8>, Vec<usize>) {
    let mut read = SectorRead::new(1, offset, size);
    let mut offsets = Vec::new();
    while !read.is_done() {
        assert!(read.is_valid());
        let params = read.next_request();
        assert_eq!(params[0], 0);
        assert_eq!(params[1], 1);
        let at = ((params[2] as usize) << 8) | params[3] as usize;
        assert!(at + 16 <= mem.len(), "read at {} overruns the sector", at);
        offsets.push(at);
        let mut response = [0u8; 16];
        response.copy_from_slice(&mem[at..at + 16]);
        read.accept(&response);
    }
    (read.data, offsets)
}

#[test]
fn sector_read_rewinds_the_last_chunk() {
    let mem = memory(40);
    let (data, offsets) = read_range(&mem, 0, 40);
    assert_eq!(offsets, vec![0, 16, 24]);
    assert_eq!(data, mem);
}

#[test]
fn sector_read_of_whole_chunks() {
    let mem = memory(64);
    let (data, offsets) = read_range(&mem, 0, 64);
    assert_eq!(offsets, vec![0, 16, 32, 48]);
    assert_eq!(data, mem);
}

#[test]
fn sector_read_from_an_offset() {
    let mem = memory(255);
    let (data, offsets) = read_range(&mem, 230, 25);
    assert_eq!(offsets, vec![230, 239]);
    assert_eq!(data, &mem[230..255]);
    for size in [16usize, 17, 31, 32, 33, 100, 255] {
        let mem = memory(size);
        let (data, _) = read_range(&mem, 0, size as u16);
        assert_eq!(data, mem, "sector of {} bytes", size);
    }
}

#[test]
fn sector_read_of_a_short_range_at_the_start() {
    let mem = memory(32);
    let (data, offsets) = read_range(&mem, 0, 5);
    assert_eq!(offsets, vec![0]);
    assert_eq!(data, &mem[..5]);
}

#[test]
fn sector_read_of_nothing() {
    let read = SectorRead::new(3, 0, 0);
    assert!(read.is_done());
    assert!(read.data.is_empty());
}

#[test]
fn sector_write_sequence() {
    let data = memory(40);
    let mut write = SectorWrite::new(0x0102, 0, data.clone());
    assert!(write.is_valid());
    assert_eq!(write.next_call(), WriteCall::Announce);
    assert_eq!(write.next_params(), [1, 2, 0, 0, 0, 40, 0, 0, 0, 0, 0, 0, 0, 0, 0, 0]);
    assert_eq!(write.on_result(true), WriteStep::Call);
    let mut sent = Vec::new();
    while write.next_call() == WriteCall::Data {
        sent.extend_from_slice(&write.next_params());
        assert_eq!(write.on_result(true), WriteStep::Call);
    }
    assert_eq!(sent.len(), 48);
    assert_eq!(&sent[..40], &data[..]);
    assert_eq!(&sent[40..], &[0u8; 8]);
    assert_eq!(write.next_call(), WriteCall::End);
    assert_eq!(write.next_params(), [0u8; 16]);
    assert_eq!(write.on_result(true), WriteStep::Done);
}

#[test]
fn sector_write_backs_off_and_gives_up() {
    let mut write = SectorWrite::new(1, 0, memory(16));
    assert_eq!(write.on_result(true), WriteStep::Call);
    assert_eq!(write.phase, WritePhase::Chunk(0));
    /* A failure in the middle starts the whole sequence again. */
    assert_eq!(write.on_result(false), WriteStep::Backoff { ms: 15 });
    assert_eq!(write.phase, WritePhase::Announce);
    assert_eq!(write.on_result(false), WriteStep::Backoff { ms: 30 });
    assert_eq!(write.on_result(false), WriteStep::Failed);
}

#[test]
fn sector_write_of_nothing() {
    let mut write = SectorWrite::new(1, 0, Vec::new());
    assert_eq!(write.on_result(true), WriteStep::Call);
    assert_eq!(write.next_call(), WriteCall::End);
    assert_eq!(write.on_result(true), WriteStep::Done);
}

fn profile(index: u32, enabled: bool) -> ProfileInfo {
    ProfileInfo { index, is_enabled: enabled, ..ProfileInfo::default() }
}

#[test]
fn directory_layout_and_round_trip() {
    let profiles = vec![profile(0, true), profile(1, false), profile(2, true)];
    let dir = build_directory(&profiles, 32);
    assert_eq!(dir.len(), 32);
    assert_eq!(&dir[..16], &[0, 1, 1, 0, 0, 2, 0, 0, 0, 3, 1, 0, 0xFF, 0xFF, 0, 0]);
    assert_eq!(&dir[16..30], &[0xFFu8; 14]);
    assert!(crc_is_valid(&dir));
    let read = read_directory(&dir, 3);
    assert_eq!(read.addrs, vec![1, 2, 3]);
    assert_eq!(read.enabled, vec![true, false, true]);
}

#[test]
fn directory_with_wrong_checksum_is_not_used() {
    let profiles = vec![profile(4, false), profile(7, false)];
    let mut dir = build_directory(&profiles, 32);
    assert_eq!(read_directory(&dir, 2).addrs, vec![5, 8]);
    dir[31] ^= 0x10;
    let read = read_directory(&dir, 2);
    assert_eq!(read.addrs, vec![1, 2]);
    assert_eq!(read.enabled, vec![true, true]);
}

#[test]
fn directory_stops_at_the_end_marker() {
    let profiles = vec![profile(0, false)];
    let dir = build_directory(&profiles, 64);
    /* The device states three profiles; the directory holds one. */
    let read = read_directory(&dir, 3);
    assert_eq!(read.addrs, vec![1, 2, 3]);
    assert_eq!(read.enabled, vec![false, true, true]);
}

#[test]
fn directory_that_is_too_small() {
    let profiles = vec![profile(0, true), profile(1, true), profile(2, true)];
    let dir = build_directory(&profiles, 10);
    assert_eq!(&dir[..8], &[0, 1, 1, 0, 0, 2, 1, 0]);
    assert!(crc_is_valid(&dir));
    assert_eq!(build_directory(&profiles, 1), vec![0xFF]);
    assert_eq!(build_directory(&profiles, 0), Vec::<u8>::new());
}

#[test]
fn button_mask_round_trip() {
    for n in 1..=16u32 {
        let binding = Hidpp20ButtonBinding::from_action(ActionType::Button, n);
        assert_eq!(binding.button_type, 0x80);
        assert_eq!(binding.subtype, 0x01);
        let mask = ((binding.control_id_or_macro_id[0] as u16) << 8)
            | binding.control_id_or_macro_id[1] as u16;
        assert_eq!(mask, 1 << (n - 1));
        let back = Hidpp20ButtonBinding::from_bytes(&binding.into_bytes());
        assert_eq!(back.to_action(), ActionType::Button);
        assert_eq!(back.mapping_value(), n);
    }
    assert_eq!(Hidpp20ButtonBinding::from_action(ActionType::Button, 0).mapping_value(), 0);
    assert_eq!(Hidpp20ButtonBinding::from_action(ActionType::Button, 17).mapping_value(), 0);
    /* The lowest bit counts, not the value. */
    assert_eq!(button_from_mask(0x0018), 4);
    assert_eq!(button_from_mask(0x8000), 16);
    assert_eq!(button_from_mask(0), 0);
}

#[test]
fn bindings_of_other_actions() {
    let key = Hidpp20ButtonBinding::from_action(ActionType::Key, 0x1234);
    assert_eq!(key.into_bytes(), [0x80, 0x02, 0x34, 0x12]);
    assert_eq!(key.to_action(), ActionType::Key);
    let special = Hidpp20ButtonBinding::from_action(ActionType::Special, 5);
    assert_eq!(special.into_bytes(), [0x90, 0x00, 5, 0]);
    assert_eq!(special.to_action(), ActionType::Special);
    let makro = Hidpp20ButtonBinding::from_action(ActionType::Macro, 0x1_0002);
    assert_eq!(makro.into_bytes(), [0x00, 0x00, 2, 0]);
    assert_eq!(makro.to_action(), ActionType::Macro);
    let none = Hidpp20ButtonBinding::from_action(ActionType::NoAction, 9);
    assert_eq!(none.into_bytes(), [0xFF, 0, 0, 0]);
    assert_eq!(none.to_action(), ActionType::NoAction);
    let unknown = Hidpp20ButtonBinding::from_action(ActionType::Unknown, 9);
    assert_eq!(unknown.into_bytes(), [0xFF, 0, 0, 0]);
    assert_eq!(Hidpp20ButtonBinding::from_bytes(&[0x80, 0x03, 0, 7]).to_action(), ActionType::Special);
    assert_eq!(Hidpp20ButtonBinding::from_bytes(&[0x80, 0x09, 0, 7]).to_action(), ActionType::Unknown);
    assert_eq!(Hidpp20ButtonBinding::from_bytes(&[0x42, 0, 0, 7]).to_action(), ActionType::Unknown);
    assert_eq!(Hidpp20ButtonBinding::from_bytes(&[0x90, 0, 1, 7]).mapping_value(), 0x0107);
}

#[test]
fn dpi_list_of_single_values_and_ranges() {
    let mut data = [0u8; 16];
    data[0] = 0; /* sensor */
    for (k, w) in [400u16, 800, 1600, 0, 3200].iter().enumerate() {
        data[1 + 2 * k] = (w >> 8) as u8;
        data[2 + 2 * k] = (w & 0xff) as u8;
    }
    assert_eq!(parse_dpi_list(&data), vec![400, 800, 1600]);

    let mut range = [0u8; 16];
    for (k, w) in [200u16, 0xE000 | 50, 400].iter().enumerate() {
        range[1 + 2 * k] = (w >> 8) as u8;
        range[2 + 2 * k] = (w & 0xff) as u8;
    }
    assert_eq!(parse_dpi_list(&range), vec![200, 250, 300, 350, 400]);

    /* A range without a value before it starts at 200. */
    let mut bare = [0u8; 16];
    for (k, w) in [0xE000u16 | 100, 500].iter().enumerate() {
        bare[1 + 2 * k] = (w >> 8) as u8;
        bare[2 + 2 * k] = (w & 0xff) as u8;
    }
    assert_eq!(parse_dpi_list(&bare), vec![200, 300, 400, 500]);
    assert_eq!(parse_dpi_list(&[0u8; 16]), Vec::<u32>::new());
}

#[test]
fn report_rates() {
    assert_eq!(report_rates_from_bitmap(0b1000_1011), vec![1000, 500, 250, 125]);
    assert_eq!(report_rates_from_bitmap(0xFF), vec![1000, 500, 333, 250, 200, 166, 142, 125]);
    assert_eq!(report_rates_from_bitmap(0), Vec::<u32>::new());
    assert_eq!(rate_from_interval(0), None);
    assert_eq!(rate_from_interval(1), Some(1000));
    assert_eq!(rate_from_interval(8), Some(125));
    assert_eq!(interval_from_rate(1000), 1);
    assert_eq!(interval_from_rate(125), 8);
    assert_eq!(interval_from_rate(1), 232);
}

#[test]
fn payloads() {
    let bytes: [u8; 16] = [1, 2, 3, 4, 5, 6, 7, 8, 9, 10, 11, 12, 13, 14, 15, 16];
    let mut dpi = Hidpp20DpiPayload::from_bytes(&bytes);
    assert_eq!(dpi.sensor_index, 1);
    assert_eq!(dpi.current_dpi(), 0x0203);
    assert_eq!(dpi.default_dpi(), 0x0405);
    assert_eq!(dpi.into_bytes(), bytes);
    dpi.set_current_dpi(3200);
    assert_eq!(dpi.current_dpi(), 3200);
    assert_eq!(&dpi.into_bytes()[..3], &[1, 0x0C, 0x80]);

    let rate = Hidpp20ReportRatePayload::from_bytes(&bytes);
    assert_eq!(rate.data, 1);
    assert_eq!(rate.padding[14], 16);

    let zone = Hidpp20LedGetZonePayload::from_bytes(&bytes);
    assert_eq!(zone.zone_index, 1);
    assert_eq!(zone.payload, [2, 3, 4, 5, 6, 7, 8, 9, 10, 11, 12]);
    assert_eq!(zone.padding, [13, 14, 15, 16]);

    let set = Hidpp20LedSetZonePayload {
        zone_index: 2,
        payload: [1, 2, 3, 4, 5, 6, 7, 8, 9, 10, 11],
        persist: 1,
        padding: [7, 8, 9],
    };
    assert_eq!(set.into_bytes(), [2, 1, 2, 3, 4, 5, 6, 7, 8, 9, 10, 11, 1, 7, 8, 9]);

    let info = Hidpp20OnboardProfilesInfo::from_bytes(&bytes);
    assert_eq!(info.profile_count, 4);
    assert_eq!(info.button_count, 6);
    assert_eq!(info.sector_size(), 0x0809);
    assert_eq!(info.effective_profile_count(), 4);
    let mut odd = bytes;
    odd[3] = 1;
    odd[4] = 3;
    assert_eq!(Hidpp20OnboardProfilesInfo::from_bytes(&odd).effective_profile_count(), 3);
    odd[3] = 0;
    odd[4] = 0;
    assert_eq!(Hidpp20OnboardProfilesInfo::from_bytes(&odd).effective_profile_count(), 1);
}

#[test]
fn feature_map() {
    let mut map = FeatureMap::new();
    for k in 0..7 {
        let page = feature_page(k);
        assert_eq!(feature_index_of(0), None);
        map.insert(page, (k + 1) as u8);
    }
    assert_eq!(map.adjustable_dpi, Some(1));
    assert_eq!(map.special_keys, Some(2));
    assert_eq!(map.onboard_profiles, Some(3));
    assert_eq!(map.color_led_effects, Some(4));
    assert_eq!(map.rgb_effects, Some(5));
    assert_eq!(map.report_rate, Some(6));
    assert_eq!(map.device_name, Some(7));
    map.insert(0x1234, 9);
    assert_eq!(map.device_name, Some(7));
    assert_eq!(feature_index_of(3), Some(3));
    assert_eq!(feature_page(2), 0x8100);
}

fn blank_led() -> LedInfo {
    LedInfo {
        index: 0,
        mode: LedMode::Off,
        modes: Vec::new(),
        color: Color { red: 9, green: 9, blue: 9 },
        secondary_color: Color { red: 0, green: 0, blue: 0 },
        tertiary_color: Color { red: 0, green: 0, blue: 0 },
        color_depth: 3,
        effect_duration: 77,
        brightness: 5,
    }
}

#[test]
fn led_zone_effects() {
    let mut led = blank_led();
    apply_led_zone(&mut led, &[1, 10, 20, 30, 0, 0, 0, 0, 0, 0, 0]);
    assert_eq!(led.mode, LedMode::Solid);
    assert_eq!(led.color, Color { red: 10, green: 20, blue: 30 });
    assert_eq!(led.effect_duration, 77);

    let mut led = blank_led();
    apply_led_zone(&mut led, &[3, 0, 0, 0, 0, 0, 0x13, 0x88, 50, 0, 0]);
    assert_eq!(led.mode, LedMode::Cycle);
    assert_eq!(led.effect_duration, 5000);
    assert_eq!(led.brightness, 127);
    assert_eq!(led.color, Color { red: 9, green: 9, blue: 9 });

    let mut led = blank_led();
    apply_led_zone(&mut led, &[10, 1, 2, 3, 0x03, 0xE8, 0, 100, 0, 0, 0]);
    assert_eq!(led.mode, LedMode::Breathing);
    assert_eq!(led.effect_duration, 1000);
    assert_eq!(led.brightness, 255);

    let mut led = blank_led();
    apply_led_zone(&mut led, &[5, 1, 2, 3, 4, 5, 6, 0, 0, 0, 0]);
    assert_eq!(led.mode, LedMode::Starlight);
    assert_eq!(led.secondary_color, Color { red: 4, green: 5, blue: 6 });

    let mut led = blank_led();
    led.mode = LedMode::Solid;
    apply_led_zone(&mut led, &[0x42, 1, 2, 3, 4, 5, 6, 0, 0, 0, 0]);
    assert_eq!(led.mode, LedMode::Solid);
    assert_eq!(led.color, Color { red: 9, green: 9, blue: 9 });
    apply_led_zone(&mut led, &[0, 1, 2, 3, 4, 5, 6, 0, 0, 0, 0]);
    assert_eq!(led.mode, LedMode::Off);
}
