use ratbagd::actor::{
    ActorAction, ActorEvent, ActorMessage, ActorPhase, DeviceActor, ACTOR_QUEUE_CAPACITY,
};
use ratbagd::device::{DeviceInfo, ProfileInfo};
use ratbagd::device_database::DriverConfig;
use ratbagd::driver::registry::create_driver;
use ratbagd::driver::{DriverAction, DriverError, DriverEvent, Reply};

fn device(profiles: u32) -> DeviceInfo {
    let mut info = DeviceInfo {
        sysname: "hidraw4".to_string(),
        name: "G500".to_string(),
        model: "usb:046d:c068:0".to_string(),
        firmware_version: String::new(),
        profiles: Vec::new(),
        driver_config: DriverConfig::default(),
    };
    for i in 0..profiles {
        info.profiles.push(ProfileInfo { index: i, is_active: i == 1, ..ProfileInfo::default() });
    }
    info
}

fn answered(regs: [u8; 3]) -> ActorEvent {
    ActorEvent::Io(DriverEvent::Matched(Reply::Register(regs)))
}

fn timed_out() -> ActorEvent {
    ActorEvent::Io(DriverEvent::Failed(DriverError::Timeout { attempts: 3 }))
}

fn started() -> (DeviceActor, DeviceInfo) {
    let mut info = device(3);
    let mut actor = DeviceActor::new(create_driver("hidpp10").unwrap());
    assert!(matches!(actor.start_step(&mut info, ActorEvent::Begin), ActorAction::Io(_)));
    assert!(matches!(actor.start_step(&mut info, answered([1, 0, 0])), ActorAction::Io(_)));
    assert_eq!(actor.start_step(&mut info, answered([2, 0, 0])), ActorAction::Started);
    (actor, info)
}

#[test]
fn queue_capacity() {
    assert_eq!(ACTOR_QUEUE_CAPACITY, 16);
}

#[test]
fn actor_probes_then_loads() {
    let mut info = device(3);
    let mut actor = DeviceActor::new(create_driver("hidpp10").unwrap());
    assert_eq!(actor.phase, ActorPhase::Created);
    let a = actor.start_step(&mut info, ActorEvent::Begin);
    assert!(matches!(a, ActorAction::Io(DriverAction::Request { .. })));
    assert_eq!(actor.phase, ActorPhase::Probing);
    /* The probe ends and the load begins in the same step. */
    let a = actor.start_step(&mut info, answered([1, 0, 0]));
    assert!(matches!(a, ActorAction::Io(DriverAction::Request { .. })));
    assert_eq!(actor.phase, ActorPhase::Loading);
    assert!(info.profiles[1].is_active);
    let a = actor.start_step(&mut info, answered([2, 0, 0]));
    assert_eq!(a, ActorAction::Started);
    assert_eq!(actor.phase, ActorPhase::Waiting);
    assert!(info.profiles[2].is_active);
    assert!(!info.profiles[1].is_active);
    /* A started actor does not start again. */
    assert_eq!(actor.start_step(&mut info, ActorEvent::Begin), ActorAction::Refused);
    assert_eq!(actor.phase, ActorPhase::Waiting);
}

#[test]
fn actor_that_cannot_probe_never_serves() {
    let mut info = device(1);
    let mut actor = DeviceActor::new(create_driver("hidpp10").unwrap());
    actor.start_step(&mut info, ActorEvent::Begin);
    let a = actor.start_step(&mut info, timed_out());
    match a {
        ActorAction::StartFailed(text) => {
            assert!(text.starts_with("Probing with Logitech HID++ 1.0: "), "{}", text)
        }
        other => panic!("unexpected {:?}", other),
    }
    assert_eq!(actor.phase, ActorPhase::Stopped);
    let commit = ActorEvent::Message(ActorMessage::Commit { ticket: 1 });
    assert_eq!(actor.run_step(&info, commit), ActorAction::Refused);
    assert_eq!(actor.start_step(&mut info, ActorEvent::Begin), ActorAction::Refused);
}

#[test]
fn actor_that_cannot_load_never_serves() {
    let mut info = device(1);
    let mut actor = DeviceActor::new(create_driver("etekcity").unwrap());
    let mut a = actor.start_step(&mut info, ActorEvent::Begin);
    let mut steps = 0;
    while let ActorAction::Io(io) = a {
        let event = match io {
            DriverAction::ReadReport { .. } => DriverEvent::Data(vec![0u8; 64]),
            DriverAction::GetFeatureReport(buf) => DriverEvent::Data(buf),
            _ => DriverEvent::Completed,
        };
        a = actor.start_step(&mut info, ActorEvent::Io(event));
        steps += 1;
        assert!(steps < 100);
    }
    assert!(matches!(a, ActorAction::StartFailed(_)));
    assert_eq!(actor.phase, ActorPhase::Stopped);
}

#[test]
fn actor_serves_one_commit_at_a_time() {
    let (mut actor, info) = started();
    let a = actor.run_step(&info, ActorEvent::Message(ActorMessage::Commit { ticket: 7 }));
    assert!(matches!(a, ActorAction::Io(DriverAction::Request { .. })));
    assert_eq!(actor.phase, ActorPhase::Committing { ticket: 7 });
    /* While the commit is under way no message is taken. */
    let a = actor.run_step(&info, ActorEvent::Message(ActorMessage::Commit { ticket: 8 }));
    assert_eq!(a, ActorAction::Refused);
    assert_eq!(actor.run_step(&info, ActorEvent::Message(ActorMessage::Shutdown)), ActorAction::Refused);
    assert_eq!(actor.run_step(&info, ActorEvent::QueueClosed), ActorAction::Refused);
    assert_eq!(actor.phase, ActorPhase::Committing { ticket: 7 });
    let a = actor.run_step(&info, answered([2, 0, 0]));
    assert_eq!(a, ActorAction::Reply { ticket: 7, result: Ok(()) });
    assert_eq!(actor.phase, ActorPhase::Waiting);
    /* The next request is served after the first has been answered. */
    let a = actor.run_step(&info, ActorEvent::Message(ActorMessage::Commit { ticket: 8 }));
    assert!(matches!(a, ActorAction::Io(_)));
    assert_eq!(actor.phase, ActorPhase::Committing { ticket: 8 });
}

#[test]
fn actor_reports_a_failed_commit_and_goes_on() {
    let (mut actor, info) = started();
    actor.run_step(&info, ActorEvent::Message(ActorMessage::Commit { ticket: 1 }));
    let a = actor.run_step(&info, timed_out());
    match a {
        ActorAction::Reply { ticket, result } => {
            assert_eq!(ticket, 1);
            assert!(result.is_err());
        }
        other => panic!("unexpected {:?}", other),
    }
    assert_eq!(actor.phase, ActorPhase::Waiting);
    actor.run_step(&info, ActorEvent::Message(ActorMessage::Commit { ticket: 2 }));
    assert_eq!(
        actor.run_step(&info, answered([2, 0, 0])),
        ActorAction::Reply { ticket: 2, result: Ok(()) }
    );
}

#[test]
fn actor_replies_at_once_where_nothing_is_to_do() {
    let (mut actor, mut info) = started();
    for p in info.profiles.iter_mut() {
        p.is_active = false;
    }
    assert_eq!(
        actor.run_step(&info, ActorEvent::Message(ActorMessage::Commit { ticket: 3 })),
        ActorAction::Reply { ticket: 3, result: Ok(()) }
    );
    assert_eq!(actor.phase, ActorPhase::Waiting);
}

#[test]
fn actor_stops_on_shutdown_and_on_a_closed_queue() {
    let (mut actor, info) = started();
    assert_eq!(actor.run_step(&info, ActorEvent::Io(DriverEvent::Completed)), ActorAction::Refused);
    assert_eq!(actor.run_step(&info, ActorEvent::Begin), ActorAction::Refused);
    assert_eq!(actor.run_step(&info, ActorEvent::Message(ActorMessage::Shutdown)), ActorAction::Exit);
    assert_eq!(actor.phase, ActorPhase::Stopped);
    assert_eq!(
        actor.run_step(&info, ActorEvent::Message(ActorMessage::Commit { ticket: 1 })),
        ActorAction::Refused
    );
    let (mut actor, info) = started();
    assert_eq!(actor.run_step(&info, ActorEvent::QueueClosed), ActorAction::Exit);
    assert_eq!(actor.phase, ActorPhase::Stopped);
}
