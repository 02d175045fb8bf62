use ratbagd::device::{DeviceInfo, Dpi};
use ratbagd::device_database::{DeviceEntry, DriverConfig};
use ratbagd::driver::hidpp::{compute_ccitt_crc, crc_is_valid};
use ratbagd::driver::hidpp20_driver::{Hidpp20Driver, Stage};
use ratbagd::driver::{
    DriverAction, DriverError, DriverEvent, Expect, IoEvent, Reply, RequestAction, RequestState,
};
use ratbagd::staging::ResolutionValue;

const SECTOR_SIZE: usize = 64;
const ONBOARD_INDEX: u8 = 5;

/* A device with onboard memory that answers HID++ 2.0 requests. */
struct FakeDevice {
    device_index: u8,
    sectors: Vec<Vec<u8>>,
    host_mode: bool,
    pending: Option<(usize, usize, usize)>,
    staged: Vec<u8>,
    log: Vec<(u8, u8)>,
    fail_writes: usize,
    noise_frames: usize,
}

fn seal(sector: &mut Vec<u8>) {
    let n = sector.len() - 2;
    let crc = compute_ccitt_crc(&sector[..n]);
    sector[n] = (crc >> 8) as u8;
    sector[n + 1] = (crc & 0xff) as u8;
}

fn profile_sector(dpis: &[u16]) -> Vec<u8> {
    let mut s = vec![0xFFu8; SECTOR_SIZE];
    s[0] = 1; /* interval of 1 ms: 1000 Hz */
    s[1] = 0; /* the first resolution is the default */
    s[2] = 0;
    for d in 0..5 {
        let v = if d < dpis.len() { dpis[d] } else { 0 };
        s[3 + 2 * d] = (v & 0xff) as u8;
        s[4 + 2 * d] = (v >> 8) as u8;
    }
    /* one button, disabled */
    s[32] = 0xFF;
    s[33] = 0;
    s[34] = 0;
    s[35] = 0;
    seal(&mut s);
    s
}

fn directory_sector(count: usize) -> Vec<u8> {
    let mut s = vec![0xFFu8; SECTOR_SIZE];
    for i in 0..count {
        s[4 * i] = 0;
        s[4 * i + 1] = (i + 1) as u8;
        s[4 * i + 2] = 1;
        s[4 * i + 3] = 0;
    }
    s[4 * count] = 0xFF;
    s[4 * count + 1] = 0xFF;
    s[4 * count + 2] = 0;
    s[4 * count + 3] = 0;
    seal(&mut s);
    s
}

impl FakeDevice {
    fn new(device_index: u8) -> Self {
        FakeDevice {
            device_index,
            sectors: vec![
                directory_sector(2),
                profile_sector(&[800, 1600]),
                profile_sector(&[800, 1600]),
            ],
            host_mode: false,
            pending: None,
            staged: Vec::new(),
            log: Vec::new(),
            fail_writes: 0,
            noise_frames: 0,
        }
    }

    fn long_reply(&self, feature: u8, function: u8, params: &[u8]) -> Vec<u8> {
        let mut r = vec![0u8; 20];
        r[0] = 0x11;
        r[1] = self.device_index;
        r[2] = feature;
        r[3] = function;
        for (i, b) in params.iter().enumerate() {
            r[4 + i] = *b;
        }
        r
    }

    fn error_reply(&self, feature: u8, function: u8, code: u8) -> Vec<u8> {
        let mut r = vec![0u8; 20];
        r[0] = 0x11;
        r[1] = self.device_index;
        r[2] = 0xFF;
        r[3] = feature;
        r[4] = function;
        r[5] = code;
        r
    }

    /* The reply to a request, or silence. */
    fn handle(&mut self, report: &[u8]) -> Option<Vec<u8>> {
        if report.len() < 20 || report[0] != 0x11 || report[1] != self.device_index {
            return None;
        }
        let feature = report[2];
        let function = report[3] >> 4;
        let fbyte = report[3];
        let params = &report[4..20];
        self.log.push((feature, function));
        if feature == 0 {
            if function == 1 {
                return Some(self.long_reply(0, fbyte, &[4, 2]));
            }
            let page = ((params[0] as u16) << 8) | params[1] as u16;
            let index = if page == 0x8100 { ONBOARD_INDEX } else { 0 };
            return Some(self.long_reply(0, fbyte, &[index]));
        }
        if feature != ONBOARD_INDEX {
            return Some(self.error_reply(feature, fbyte, 6));
        }
        match function {
            0 => {
                let mut d = [0u8; 16];
                d[3] = 2; /* profiles */
                d[4] = 2;
                d[5] = 1; /* buttons */
                d[6] = 3; /* sectors */
                d[7] = (SECTOR_SIZE >> 8) as u8;
                d[8] = (SECTOR_SIZE & 0xff) as u8;
                Some(self.long_reply(feature, fbyte, &d))
            }
            1 => {
                self.host_mode = params[0] == 2;
                Some(self.long_reply(feature, fbyte, &[]))
            }
            4 => {
                let sector = ((params[0] as usize) << 8) | params[1] as usize;
                let offset = ((params[2] as usize) << 8) | params[3] as usize;
                if sector >= self.sectors.len() || offset + 16 > SECTOR_SIZE {
                    return Some(self.error_reply(feature, fbyte, 2));
                }
                let data = self.sectors[sector][offset..offset + 16].to_vec();
                Some(self.long_reply(feature, fbyte, &data))
            }
            5 => {
                if !self.host_mode {
                    return Some(self.error_reply(feature, fbyte, 2));
                }
                if self.fail_writes > 0 {
                    self.fail_writes -= 1;
                    return Some(self.error_reply(feature, fbyte, 8));
                }
                let sector = ((params[0] as usize) << 8) | params[1] as usize;
                let offset = ((params[2] as usize) << 8) | params[3] as usize;
                let len = ((params[4] as usize) << 8) | params[5] as usize;
                self.pending = Some((sector, offset, len));
                self.staged.clear();
                Some(self.long_reply(feature, fbyte, &[]))
            }
            6 => {
                if self.pending.is_none() {
                    return Some(self.error_reply(feature, fbyte, 2));
                }
                self.staged.extend_from_slice(params);
                Some(self.long_reply(feature, fbyte, &[]))
            }
            7 => {
                match self.pending.take() {
                    Some((sector, offset, len)) => {
                        if sector >= self.sectors.len() || offset + len > SECTOR_SIZE
                            || self.staged.len() < len
                        {
                            return Some(self.error_reply(feature, fbyte, 2));
                        }
                        for i in 0..len {
                            self.sectors[sector][offset + i] = self.staged[i];
                        }
                        /* Acknowledge with a short report, as some firmware does. */
                        Some(vec![0x10, self.device_index, feature, fbyte, 0, 0, 0])
                    }
                    None => Some(self.error_reply(feature, fbyte, 2)),
                }
            }
            _ => Some(self.error_reply(feature, fbyte, 7)),
        }
    }
}

/* Runs one request against the device: the report is written, and what
 * comes in is read until the predicate matches or the budget is used up. */
fn exchange(dev: &mut FakeDevice, report: &[u8], attempts: u8, expect: Expect) -> DriverEvent {
    let mut state = RequestState::new(attempts);
    let mut now: u64 = 1000;
    let mut inbox: Vec<Vec<u8>> = Vec::new();
    let mut action = state.step(IoEvent::Begin, now, |b: &[u8]| expect.try_match(b));
    loop {
        match action {
            RequestAction::Write => {
                for k in 0..dev.noise_frames {
                    /* A mouse movement report: no protocol marker. */
                    inbox.push(vec![0x02, k as u8, 0x01, 0xFF, 0x00, 0x00, 0x00, 0x00]);
                }
                if let Some(reply) = dev.handle(report) {
                    inbox.push(reply);
                }
                action = state.step(IoEvent::Written, now, |b: &[u8]| expect.try_match(b));
            }
            RequestAction::Read { timeout_ms } => {
                assert!(timeout_ms > 0 && timeout_ms <= 500);
                if inbox.is_empty() {
                    now += timeout_ms;
                    action = state.step(IoEvent::ReadTimeout, now, |b: &[u8]| expect.try_match(b));
                } else {
                    let frame = inbox.remove(0);
                    now += 1;
                    action =
                        state.step(IoEvent::Report(&frame), now, |b: &[u8]| expect.try_match(b));
                }
            }
            RequestAction::Matched(reply) => return DriverEvent::Matched(reply),
            RequestAction::TimedOut { attempts } => {
                return DriverEvent::Failed(DriverError::Timeout { attempts })
            }
            RequestAction::Aborted => {
                return DriverEvent::Failed(DriverError::Io {
                    device: "fake".to_string(),
                    source: "write failed".to_string(),
                })
            }
        }
    }
}

fn perform(dev: &mut FakeDevice, action: &DriverAction, sleeps: &mut Vec<u64>) -> DriverEvent {
    match action {
        DriverAction::Request { report, attempts, expect } => {
            exchange(dev, report, *attempts, *expect)
        }
        DriverAction::Sleep(ms) => {
            sleeps.push(*ms);
            DriverEvent::Completed
        }
        other => panic!("the driver asked for {:?}", other),
    }
}

fn run_probe(driver: &mut Hidpp20Driver, dev: &mut FakeDevice) -> Result<(), String> {
    let mut sleeps = Vec::new();
    let mut action = driver.probe_step(DriverEvent::Start);
    loop {
        match action {
            DriverAction::Done => return Ok(()),
            DriverAction::Failed(e) => return Err(e),
            other => {
                let ev = perform(dev, &other, &mut sleeps);
                action = driver.probe_step(ev);
            }
        }
    }
}

fn run_load(
    driver: &mut Hidpp20Driver,
    dev: &mut FakeDevice,
    info: &mut DeviceInfo,
) -> Result<(), String> {
    let mut sleeps = Vec::new();
    let mut action = driver.load_step(info, DriverEvent::Start);
    loop {
        match action {
            DriverAction::Done => return Ok(()),
            DriverAction::Failed(e) => return Err(e),
            other => {
                let ev = perform(dev, &other, &mut sleeps);
                action = driver.load_step(info, ev);
            }
        }
    }
}

fn run_commit(
    driver: &mut Hidpp20Driver,
    dev: &mut FakeDevice,
    info: &DeviceInfo,
    sleeps: &mut Vec<u64>,
) -> Result<(), String> {
    let mut action = driver.commit_step(info, DriverEvent::Start);
    loop {
        match action {
            DriverAction::Done => return Ok(()),
            DriverAction::Failed(e) => return Err(e),
            other => {
                let ev = perform(dev, &other, sleeps);
                action = driver.commit_step(info, ev);
            }
        }
    }
}

fn fresh_info() -> DeviceInfo {
    let entry = DeviceEntry {
        name: "Fake Mouse".to_string(),
        driver: "hidpp20".to_string(),
        matches: Vec::new(),
        driver_config: Some(DriverConfig { profiles: Some(2), dpis: Some(2), ..DriverConfig::default() }),
    };
    DeviceInfo::from_entry("hidraw0", "Fake Mouse", 0x03, 0x046d, 0xc539, &entry)
}

#[test]
fn probe_finds_wireless_device_and_features() {
    let mut dev = FakeDevice::new(0xFF);
    let mut driver = Hidpp20Driver::new();
    assert_eq!(run_probe(&mut driver, &mut dev), Ok(()));
    assert_eq!(driver.device_index, 0xFF);
    assert_eq!(driver.version.major, 4);
    assert_eq!(driver.version.minor, 2);
    assert_eq!(driver.features.onboard_profiles, Some(ONBOARD_INDEX));
    /* An index of 0 stands for a page that the device does not have. */
    assert_eq!(driver.features.adjustable_dpi, None);
    assert_eq!(driver.features.special_keys, None);
    assert_eq!(driver.features.color_led_effects, None);
    assert_eq!(driver.features.rgb_effects, None);
    assert_eq!(driver.features.report_rate, None);
    assert_eq!(driver.features.device_name, None);
}

#[test]
fn probe_falls_back_to_wired_address() {
    let mut dev = FakeDevice::new(0x00);
    let mut driver = Hidpp20Driver::new();
    assert_eq!(run_probe(&mut driver, &mut dev), Ok(()));
    assert_eq!(driver.device_index, 0x00);
    /* The receiver address was tried twice before the wired one. */
    assert_eq!(dev.log[0], (0, 1));
}

#[test]
fn probe_fails_when_nothing_answers() {
    let mut dev = FakeDevice::new(0x07);
    let mut driver = Hidpp20Driver::new();
    assert!(run_probe(&mut driver, &mut dev).is_err());
    assert!(matches!(driver.stage, Stage::Idle));
}

#[test]
fn probe_under_noise_still_finds_the_device() {
    let mut dev = FakeDevice::new(0xFF);
    dev.noise_frames = 200;
    let mut driver = Hidpp20Driver::new();
    assert_eq!(run_probe(&mut driver, &mut dev), Ok(()));
    assert_eq!(driver.features.onboard_profiles, Some(ONBOARD_INDEX));
}

#[test]
fn load_commit_and_load_again() {
    let mut dev = FakeDevice::new(0xFF);
    let mut driver = Hidpp20Driver::new();
    let mut info = fresh_info();
    run_probe(&mut driver, &mut dev).unwrap();
    assert_eq!(run_load(&mut driver, &mut dev, &mut info), Ok(()));

    assert_eq!(info.profiles.len(), 2);
    assert!(info.profiles[0].is_active);
    assert!(!info.profiles[1].is_active);
    assert_eq!(info.profiles[0].report_rate, 1000);
    assert_eq!(info.profiles[0].resolutions.len(), 2);
    assert!(info.profiles[0].resolutions[0].is_active);
    assert!(info.profiles[0].resolutions[0].is_default);
    assert_eq!(info.profiles[0].resolutions[0].dpi, Dpi::Unified(800));
    assert_eq!(info.profiles[0].resolutions[1].dpi, Dpi::Unified(1600));
    assert!(!info.profiles[0].resolutions[1].is_default);
    assert_eq!(info.profiles[0].buttons.len(), 1);
    assert_eq!(info.profiles[0].buttons[0].action_type, ratbagd::device::ActionType::NoAction);
    assert!(!driver.needs_eeprom_repair);

    info.profiles[0].resolutions[1].set_resolution(ResolutionValue::Single(3200));
    info.profiles[0].is_dirty = true;
    let before = dev.sectors[2].clone();
    let mut sleeps = Vec::new();
    assert_eq!(run_commit(&mut driver, &mut dev, &info, &mut sleeps), Ok(()));
    assert!(sleeps.is_empty());
    assert!(!dev.host_mode);
    assert!(crc_is_valid(&dev.sectors[0]));
    assert!(crc_is_valid(&dev.sectors[1]));
    /* The profile that is not dirty was not written. */
    assert_eq!(dev.sectors[2], before);
    assert_eq!(dev.sectors[1][5], 0x80);
    assert_eq!(dev.sectors[1][6], 0x0C);

    let mut again = fresh_info();
    assert_eq!(run_load(&mut driver, &mut dev, &mut again), Ok(()));
    assert_eq!(again.profiles[0].resolutions[1].dpi, Dpi::Unified(3200));
    assert_eq!(again.profiles[0].resolutions[0].dpi, Dpi::Unified(800));
    assert_eq!(again.profiles[1].resolutions[1].dpi, Dpi::Unified(1600));
}

#[test]
fn corrupt_directory_degrades_and_is_repaired() {
    let mut dev = FakeDevice::new(0xFF);
    /* Addresses that would be wrong, under a checksum that is wrong. */
    dev.sectors[0][1] = 2;
    dev.sectors[0][5] = 1;
    let last = SECTOR_SIZE - 1;
    dev.sectors[0][last] ^= 0x01;
    dev.sectors[2] = profile_sector(&[400, 1200]);
    assert!(!crc_is_valid(&dev.sectors[0]));

    let mut driver = Hidpp20Driver::new();
    let mut info = fresh_info();
    run_probe(&mut driver, &mut dev).unwrap();
    assert_eq!(run_load(&mut driver, &mut dev, &mut info), Ok(()));
    assert!(driver.needs_eeprom_repair);
    /* Profile i was read from sector i + 1. */
    assert_eq!(info.profiles.len(), 2);
    assert_eq!(info.profiles[0].resolutions[0].dpi, Dpi::Unified(800));
    assert_eq!(info.profiles[1].resolutions[0].dpi, Dpi::Unified(400));
    assert_eq!(info.profiles[1].resolutions[1].dpi, Dpi::Unified(1200));
    assert!(info.profiles[0].is_enabled);
    assert!(info.profiles[1].is_enabled);

    /* Nothing is dirty, yet the commit writes everything. */
    let mut sleeps = Vec::new();
    assert_eq!(run_commit(&mut driver, &mut dev, &info, &mut sleeps), Ok(()));
    assert!(!driver.needs_eeprom_repair);
    assert!(crc_is_valid(&dev.sectors[0]));
    assert_eq!(dev.sectors[0], directory_sector(2));
    assert!(!dev.host_mode);
}

#[test]
fn corrupt_profile_sector_is_used_and_raises_the_flag() {
    let mut dev = FakeDevice::new(0xFF);
    dev.sectors[1][SECTOR_SIZE - 2] ^= 0x80;
    let mut driver = Hidpp20Driver::new();
    let mut info = fresh_info();
    run_probe(&mut driver, &mut dev).unwrap();
    assert_eq!(run_load(&mut driver, &mut dev, &mut info), Ok(()));
    assert!(driver.needs_eeprom_repair);
    assert_eq!(info.profiles[0].resolutions[1].dpi, Dpi::Unified(1600));
}

#[test]
fn failed_write_is_retried_with_growing_pauses() {
    let mut dev = FakeDevice::new(0xFF);
    let mut driver = Hidpp20Driver::new();
    let mut info = fresh_info();
    run_probe(&mut driver, &mut dev).unwrap();
    run_load(&mut driver, &mut dev, &mut info).unwrap();
    info.profiles[1].is_dirty = true;
    dev.fail_writes = 2;
    let mut sleeps = Vec::new();
    assert_eq!(run_commit(&mut driver, &mut dev, &info, &mut sleeps), Ok(()));
    assert_eq!(sleeps, vec![15, 30]);
    assert!(!dev.host_mode);
    assert!(!driver.needs_eeprom_repair);
}

#[test]
fn commit_that_cannot_write_fails_and_leaves_host_mode() {
    let mut dev = FakeDevice::new(0xFF);
    let mut driver = Hidpp20Driver::new();
    let mut info = fresh_info();
    run_probe(&mut driver, &mut dev).unwrap();
    run_load(&mut driver, &mut dev, &mut info).unwrap();
    info.profiles[0].is_dirty = true;
    dev.fail_writes = 3;
    let mut sleeps = Vec::new();
    let result = run_commit(&mut driver, &mut dev, &info, &mut sleeps);
    assert!(result.is_err());
    assert!(result.unwrap_err().contains("ERR_BUSY"));
    assert_eq!(sleeps, vec![15, 30]);
    /* The device was switched back to onboard mode all the same. */
    assert!(!dev.host_mode);
    assert_eq!(dev.log.last(), Some(&(ONBOARD_INDEX, 1)));
    /* The flag makes the next commit write everything. */
    assert!(driver.needs_eeprom_repair);
    let mut sleeps = Vec::new();
    let mut clean = fresh_info();
    run_load(&mut driver, &mut dev, &mut clean).unwrap();
    assert_eq!(run_commit(&mut driver, &mut dev, &clean, &mut sleeps), Ok(()));
    assert!(!driver.needs_eeprom_repair);
}

#[test]
fn device_error_is_reported_at_once() {
    let mut dev = FakeDevice::new(0xFF);
    let mut report = vec![0u8; 20];
    report[0] = 0x11;
    report[1] = 0xFF;
    report[2] = 9; /* a feature that the device does not have */
    report[3] = 0x04;
    let ev = exchange(
        &mut dev,
        &report,
        3,
        Expect::Feature { device_index: 0xFF, feature_index: 9 },
    );
    assert_eq!(ev, DriverEvent::Matched(Reply::HidppError(6)));
    /* One request was sent, not three. */
    assert_eq!(dev.log.len(), 1);
}

#[test]
fn commit_that_cannot_write_says_which_call_failed() {
    let mut dev = FakeDevice::new(0xFF);
    let mut driver = Hidpp20Driver::new();
    let mut info = fresh_info();
    run_probe(&mut driver, &mut dev).unwrap();
    run_load(&mut driver, &mut dev, &mut info).unwrap();
    info.profiles[0].is_dirty = true;
    dev.fail_writes = 3;
    let mut sleeps = Vec::new();
    /* The announcement of the write is refused three times. */
    assert_eq!(
        run_commit(&mut driver, &mut dev, &info, &mut sleeps),
        Err("Failed to write sector: HID++ error ERR_BUSY (0x08) for feature 0x05 fn=5".to_string())
    );
}
