use std::cell::Cell;

use ratbagd::driver::{
    buffer_is_noise, hid_get_feature_req, hid_set_feature_req, DriverError, Expect, IoEvent, Reply,
    RequestAction, RequestPhase, RequestState,
};

fn version_reply(device_index: u8) -> Vec<u8> {
    let mut r = vec![0u8; 20];
    r[0] = 0x11;
    r[1] = device_index;
    r[2] = 0x00;
    r[3] = 0x14;
    r[4] = 4;
    r[5] = 5;
    r
}

#[test]
fn match_is_found_behind_any_amount_of_noise() {
    let expect = Expect::ProtocolVersion { device_index: 1 };
    let mut state = RequestState::new(3);
    let mut now = 10u64;
    assert_eq!(
        state.step(IoEvent::Begin, now, |b: &[u8]| expect.try_match(b)),
        RequestAction::Write
    );
    assert_eq!(
        state.step(IoEvent::Written, now, |b: &[u8]| expect.try_match(b)),
        RequestAction::Read { timeout_ms: 500 }
    );
    /* A thousand input reports within one second. */
    let noise = [0x02u8, 0x00, 0x05, 0xFB, 0x00, 0x00, 0x00, 0x00];
    for _ in 0..1000 {
        now += 1;
        let action = state.step(IoEvent::Report(&noise), now, |b: &[u8]| expect.try_match(b));
        assert!(matches!(action, RequestAction::Read { .. }));
        assert_eq!(state.attempt, 1);
    }
    /* A report of the protocol that answers something else. */
    let other = version_reply(2);
    now += 1;
    let action = state.step(IoEvent::Report(&other), now, |b: &[u8]| expect.try_match(b));
    assert!(matches!(action, RequestAction::Read { .. }));
    let reply = version_reply(1);
    now += 1;
    let action = state.step(IoEvent::Report(&reply), now, |b: &[u8]| expect.try_match(b));
    assert_eq!(action, RequestAction::Matched(Reply::Version { major: 4, minor: 5 }));
    assert_eq!(state.phase, RequestPhase::Finished);
    assert_eq!(state.attempt, 1);
}

#[test]
fn silence_times_out_after_every_attempt() {
    let expect = Expect::ProtocolVersion { device_index: 1 };
    let mut state = RequestState::new(3);
    let mut now = 0u64;
    let mut writes = 0;
    let mut reads = 0;
    let mut action = state.step(IoEvent::Begin, now, |b: &[u8]| expect.try_match(b));
    loop {
        match action {
            RequestAction::Write => {
                writes += 1;
                action = state.step(IoEvent::Written, now, |b: &[u8]| expect.try_match(b));
            }
            RequestAction::Read { timeout_ms } => {
                reads += 1;
                now += timeout_ms;
                action = state.step(IoEvent::ReadTimeout, now, |b: &[u8]| expect.try_match(b));
            }
            RequestAction::TimedOut { attempts } => {
                assert_eq!(attempts, 3);
                break;
            }
            other => panic!("unexpected action {:?}", other),
        }
    }
    assert_eq!(writes, 3);
    /* A read that times out ends its attempt. */
    assert_eq!(reads, 3);
    assert_eq!(state.phase, RequestPhase::Finished);
}

#[test]
fn endless_noise_times_out_by_the_clock() {
    let expect = Expect::ProtocolVersion { device_index: 1 };
    let mut state = RequestState::new(2);
    let mut now = 0u64;
    let noise = [0x01u8, 0x02, 0x03];
    let mut writes = 0;
    let mut steps = 0;
    let mut action = state.step(IoEvent::Begin, now, |b: &[u8]| expect.try_match(b));
    loop {
        steps += 1;
        assert!(steps < 100_000);
        match action {
            RequestAction::Write => {
                writes += 1;
                action = state.step(IoEvent::Written, now, |b: &[u8]| expect.try_match(b));
            }
            RequestAction::Read { timeout_ms } => {
                assert!(timeout_ms <= 500);
                now += 1;
                action = state.step(IoEvent::Report(&noise), now, |b: &[u8]| expect.try_match(b));
            }
            RequestAction::TimedOut { attempts } => {
                assert_eq!(attempts, 2);
                break;
            }
            other => panic!("unexpected action {:?}", other),
        }
    }
    assert_eq!(writes, 2);
    /* Two budgets of two seconds were used. */
    assert_eq!(now, 4000);
}

#[test]
fn read_timeout_is_cut_to_what_is_left_of_the_budget() {
    let expect = Expect::ProtocolVersion { device_index: 1 };
    let mut state = RequestState::new(1);
    state.step(IoEvent::Begin, 100, |b: &[u8]| expect.try_match(b));
    state.step(IoEvent::Written, 100, |b: &[u8]| expect.try_match(b));
    assert_eq!(state.deadline_ms, 2100);
    let noise = [0x55u8];
    assert_eq!(
        state.step(IoEvent::Report(&noise), 1900, |b: &[u8]| expect.try_match(b)),
        RequestAction::Read { timeout_ms: 200 }
    );
    assert_eq!(
        state.step(IoEvent::Report(&noise), 2100, |b: &[u8]| expect.try_match(b)),
        RequestAction::TimedOut { attempts: 1 }
    );
}

#[test]
fn no_attempts_means_timeout_at_once() {
    let mut state = RequestState::new(0);
    let action = state.step(IoEvent::Begin, 0, |_b: &[u8]| Some(1u8));
    assert_eq!(action, RequestAction::TimedOut { attempts: 0 });
}

#[test]
fn failed_write_aborts_the_request() {
    let mut state = RequestState::new(3);
    state.step(IoEvent::Begin, 0, |_b: &[u8]| Some(1u8));
    let action = state.step(IoEvent::WriteFailed, 0, |_b: &[u8]| Some(1u8));
    assert_eq!(action, RequestAction::Aborted);
    assert_eq!(state.phase, RequestPhase::Finished);
}

#[test]
fn failed_read_starts_the_next_attempt() {
    let mut state = RequestState::new(2);
    state.step(IoEvent::Begin, 0, |_b: &[u8]| None::<u8>);
    state.step(IoEvent::Written, 0, |_b: &[u8]| None::<u8>);
    assert_eq!(state.step(IoEvent::ReadFailed, 5, |_b: &[u8]| None::<u8>), RequestAction::Write);
    assert_eq!(state.attempt, 2);
    state.step(IoEvent::Written, 5, |_b: &[u8]| None::<u8>);
    assert_eq!(
        state.step(IoEvent::ReadFailed, 9, |_b: &[u8]| None::<u8>),
        RequestAction::TimedOut { attempts: 2 }
    );
}

#[test]
fn noise_never_reaches_the_predicate() {
    let calls = Cell::new(0u32);
    let mut state = RequestState::new(1);
    let matcher = |_b: &[u8]| {
        calls.set(calls.get() + 1);
        None::<u8>
    };
    state.step(IoEvent::Begin, 0, &matcher);
    state.step(IoEvent::Written, 0, &matcher);
    state.step(IoEvent::Report(&[0x02, 0x00]), 1, &matcher);
    state.step(IoEvent::Report(&[0x99]), 2, &matcher);
    assert_eq!(calls.get(), 0);
    state.step(IoEvent::Report(&[0x10, 0, 0, 0, 0, 0, 0]), 3, &matcher);
    assert_eq!(calls.get(), 1);
    state.step(IoEvent::Report(&[0x11]), 4, &matcher);
    assert_eq!(calls.get(), 2);
    /* An empty buffer is no noise. */
    state.step(IoEvent::Report(&[]), 5, &matcher);
    assert_eq!(calls.get(), 3);
    assert!(buffer_is_noise(&[0x12]));
    assert!(!buffer_is_noise(&[0x10]));
    assert!(!buffer_is_noise(&[0x11]));
    assert!(!buffer_is_noise(&[]));
}

#[test]
fn event_out_of_turn_ends_the_request() {
    let mut state = RequestState::new(3);
    let action = state.step(IoEvent::Written, 0, |_b: &[u8]| Some(1u8));
    assert_eq!(action, RequestAction::Aborted);
}

#[test]
fn error_texts() {
    assert_eq!(
        DriverError::Timeout { attempts: 3 }.to_string(),
        "Hardware timed out after 3 attempt(s)"
    );
    assert_eq!(
        DriverError::ChecksumMismatch { computed: 0x29b1, received: 0x00ff }.to_string(),
        "Checksum mismatch: computed 0x29b1, received 0x00ff"
    );
    assert_eq!(
        DriverError::ProtocolError { sub_id: 0xff, error: 0x0a }.to_string(),
        "Device reported protocol error (sub_id=0xff, error=0x0a)"
    );
    assert_eq!(
        DriverError::BufferTooSmall { expected: 20, actual: 7 }.to_string(),
        "Invalid buffer size: expected at least 20, got 7"
    );
    assert_eq!(
        DriverError::Io { device: "/dev/hidraw3".to_string(), source: "broken pipe".to_string() }
            .to_string(),
        "I/O failure on /dev/hidraw3: broken pipe"
    );
    assert_eq!(
        DriverError::IoctlFailed("no such device".to_string()).to_string(),
        "Feature report ioctl failed: no such device"
    );
}

#[test]
fn feature_report_request_numbers() {
    assert_eq!(hid_get_feature_req(64), 0xC040_4807);
    assert_eq!(hid_set_feature_req(64), 0xC040_4806);
    assert_eq!(hid_get_feature_req(3), 0xC003_4807);
    assert_eq!(hid_get_feature_req(0), 0xC000_4807);
}
