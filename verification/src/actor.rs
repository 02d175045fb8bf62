//! The device actor: the one place through which all hardware access of a
//! device goes.
//!
//! An actor owns the driver of its device. It starts by probing the device
//! and loading its profiles, and then serves the messages of its queue one
//! at a time: while a commit is under way it takes no message, so that the
//! transport actions of two commits never mix.

use vstd::prelude::*;
use crate::device::{DeviceInfo, DeviceModel};
use crate::driver::{ActionModel, DeviceDriver, DriverAction, DriverEvent, DriverEventModel};
use crate::driver::registry::{committed, loaded, name_of_kind, probed, Driver};
use crate::text::{push_str, string_of};

verus! {

/// How many messages the queue of an actor holds.
pub const ACTOR_QUEUE_CAPACITY: usize = 16;

/// What a client asks of an actor.
#[derive(Debug, Clone, Copy, PartialEq, Eq, Structural)]
pub enum ActorMessage {
    /// Commit the staged changes to the hardware and report the result to
    /// the reply channel of this request, which `ticket` names.
    Commit { ticket: u64 },
    /// Stop.
    Shutdown,
}

/// What an actor is doing.
#[derive(Debug, Clone, Copy, PartialEq, Eq, Structural)]
pub enum ActorPhase {
    /// The actor was made and has not begun.
    Created,
    /// The probe is under way.
    Probing,
    /// The load of the profiles is under way.
    Loading,
    /// The actor waits for the next message of its queue.
    Waiting,
    /// The commit of the request with this ticket is under way.
    Committing { ticket: u64 },
    /// The actor has stopped, or never started.
    Stopped,
}

/// What happened since the last step of an actor.
#[derive(Debug, Clone, PartialEq, Eq)]
pub enum ActorEvent {
    /// The actor begins.
    Begin,
    /// The transport action of the last step gave this.
    Io(DriverEvent),
    /// The queue gave this message.
    Message(ActorMessage),
    /// The queue is closed: no sender is left.
    QueueClosed,
}

/// What is to be done for an actor next.
#[derive(Debug, PartialEq, Eq)]
pub enum ActorAction {
    /// Perform this transport action and hand back what it gave.
    Io(DriverAction),
    /// The actor has started: hand out its handle.
    Started,
    /// Take the next message from the queue and hand it over.
    Receive,
    /// Send this result to the reply channel of the request with this
    /// ticket, then take the next message from the queue.
    Reply { ticket: u64, result: Result<(), String> },
    /// The actor could not start; the text says why.
    StartFailed(String),
    /// The actor has stopped: drop it.
    Exit,
    /// The event does not belong to what the actor is doing; nothing has
    /// changed.
    Refused,
}

/// The actor of one device.
pub struct DeviceActor {
    pub driver: Driver,
    pub phase: ActorPhase,
}

/// What one step of starting an actor may do, as a relation between the
/// phase before it, the event, the phase after it and the action.
pub open spec fn starts(before: ActorPhase, event: ActorEvent, after: ActorPhase, action: ActorAction) -> bool {
    let probing = before == ActorPhase::Created && event is Begin || before == ActorPhase::Probing
        && event is Io;
    let loading = before == ActorPhase::Loading && event is Io;
    if probing || loading {
        ||| action is Io && after == ActorPhase::Probing && probing
        ||| action is Io && after == ActorPhase::Loading
        ||| action is Started && after == ActorPhase::Waiting
        ||| action is StartFailed && after == ActorPhase::Stopped
    } else {
        action is Refused && after == before
    }
}

/// What one step of serving the queue may do, as a relation between the
/// phase before it, the event, the phase after it and the action.
pub open spec fn serves(before: ActorPhase, event: ActorEvent, after: ActorPhase, action: ActorAction) -> bool {
    match (before, event) {
        (ActorPhase::Waiting, ActorEvent::Message(ActorMessage::Commit { ticket })) => {
            ||| action is Io && after == (ActorPhase::Committing { ticket })
            ||| action is Reply && action->Reply_ticket == ticket && after == ActorPhase::Waiting
        },
        (ActorPhase::Waiting, ActorEvent::Message(ActorMessage::Shutdown)) => action is Exit && after
            == ActorPhase::Stopped,
        (ActorPhase::Waiting, ActorEvent::QueueClosed) => action is Exit && after
            == ActorPhase::Stopped,
        (ActorPhase::Committing { ticket }, ActorEvent::Io(_)) => {
            ||| action is Io && after == (ActorPhase::Committing { ticket })
            ||| action is Reply && action->Reply_ticket == ticket && after == ActorPhase::Waiting
        },
        _ => action is Refused && after == before,
    }
}

/// A run of an actor: the phase before each step, the event and the action
/// of each step, where each step does what serving the queue may do and
/// starts in the phase that the step before ended in.
pub open spec fn is_run(phases: Seq<ActorPhase>, events: Seq<ActorEvent>, actions: Seq<ActorAction>) -> bool {
    &&& phases.len() == events.len() + 1
    &&& actions.len() == events.len()
    &&& forall|i: int|
        0 <= i < events.len() ==> serves(
            #[trigger] phases[i],
            events[i],
            phases[i + 1],
            actions[i],
        )
}

/// The action of the driver that an action of the actor passes on, or
/// whose end it reports to the caller: a transport action goes to the
/// transport as it is, success is reported as success, and a failure is
/// reported with its text.
pub open spec fn driver_action(r: ActorAction) -> Option<ActionModel> {
    match r {
        ActorAction::Io(a) => Some(a@),
        ActorAction::Reply { ticket, result } => Some(
            match result {
                Ok(_) => ActionModel::Done,
                Err(e) => ActionModel::Failed(e@),
            },
        ),
        _ => None,
    }
}

/// What a step of serving the queue asks of the driver: a commit request
/// starts a commit of the driver, and what a transport action of a commit
/// gave goes to the next step of that commit. What the driver answers is
/// passed on or reported as it is. No other step touches the driver.
pub open spec fn drives(
    pre: DeviceActor,
    info: DeviceModel,
    event: ActorEvent,
    post: DeviceActor,
    r: ActorAction,
) -> bool {
    match (pre.phase, event) {
        (ActorPhase::Waiting, ActorEvent::Message(ActorMessage::Commit { ticket })) => {
            &&& driver_action(r) is Some
            &&& committed(
                pre.driver,
                info,
                DriverEventModel::Start,
                post.driver,
                driver_action(r)->0,
            )
        },
        (ActorPhase::Committing { ticket }, ActorEvent::Io(ev)) => {
            &&& driver_action(r) is Some
            &&& committed(pre.driver, info, ev@, post.driver, driver_action(r)->0)
        },
        _ => post.driver == pre.driver,
    }
}

/// The event that a step of starting hands to the probe of the driver.
pub open spec fn probe_event(event: ActorEvent) -> DriverEventModel {
    match event {
        ActorEvent::Io(ev) => ev@,
        _ => DriverEventModel::Start,
    }
}

/// How the end of a step of a load is passed on: a transport action goes to
/// the transport as it is, and the load goes on; success starts the actor;
/// a failure stops it, and is reported with the name of the driver.
pub open spec fn load_reported(r: ActorAction, b: ActionModel, after: ActorPhase, driver: Driver) -> bool {
    match r {
        ActorAction::Io(x) => x@ == b && !b.ends() && after == ActorPhase::Loading,
        ActorAction::Started => b is Done && after == ActorPhase::Waiting,
        ActorAction::StartFailed(text) => b is Failed && after == ActorPhase::Stopped && text@
            == in_context("Loading profiles with "@, name_of_kind(driver.kind()), b->Failed_0),
        _ => false,
    }
}

/// What a step of starting does with the probe: the driver makes a step of
/// its probe, which leaves it as `mid` and answers `a`. A transport action
/// is passed on as it is, and the probe goes on. A failure stops the
/// actor, and is reported with the name of the driver. In both cases the
/// device state stays as it is. Where the probe has succeeded, the driver
/// makes the first step of its load in the same step of the actor, and the
/// end of that step is passed on as [`load_reported`] says.
pub open spec fn probe_went(
    pre: DeviceActor,
    before: DeviceModel,
    event: ActorEvent,
    mid: Driver,
    a: ActionModel,
    post: DeviceActor,
    after: DeviceModel,
    r: ActorAction,
) -> bool {
    &&& probed(pre.driver, probe_event(event), mid, a)
    &&& !a.ends() ==> {
        &&& r is Io
        &&& r->Io_0@ == a
        &&& post.driver == mid
        &&& post.phase == ActorPhase::Probing
        &&& after == before
    }
    &&& a is Failed ==> {
        &&& r is StartFailed
        &&& post.driver == mid
        &&& post.phase == ActorPhase::Stopped
        &&& r->StartFailed_0@ == in_context(
            "Probing with "@,
            name_of_kind(mid.kind()),
            a->Failed_0,
        )
        &&& after == before
    }
    &&& a is Done ==> exists|b: ActionModel|
        {
            &&& #[trigger] loaded(mid, before, DriverEventModel::Start, post.driver, after, b)
            &&& load_reported(r, b, post.phase, post.driver)
        }
}

/// What a step of starting asks of the driver. A step before the load has
/// begun makes a step of the probe, as [`probe_went`] says. What a
/// transport action of the load gave goes to the next step of the load,
/// and the end of that step is passed on as [`load_reported`] says.
pub open spec fn boots(
    pre: DeviceActor,
    before: DeviceModel,
    event: ActorEvent,
    post: DeviceActor,
    after: DeviceModel,
    r: ActorAction,
) -> bool {
    &&& (pre.phase == ActorPhase::Created && event is Begin) || (pre.phase == ActorPhase::Probing
        && event is Io) ==> exists|mid: Driver, a: ActionModel| #[trigger]
        probe_went(pre, before, event, mid, a, post, after, r)
    &&& pre.phase == ActorPhase::Loading && event is Io ==> exists|b: ActionModel|
        {
            &&& #[trigger] loaded(pre.driver, before, event->Io_0@, post.driver, after, b)
            &&& load_reported(r, b, post.phase, post.driver)
        }
}

/// The text of a failure with the context in which it happened: the
/// context, the name of the driver, a colon and the cause.
pub open spec fn in_context(context: Seq<char>, driver: Seq<char>, cause: Seq<char>) -> Seq<char> {
    context + driver + ": "@ + cause
}

/// Puts a failure into the context in which it happened.
fn with_context(context: &str, driver: &str, cause: &String) -> (r: String)
    ensures
        r@ == in_context(context@, driver@, cause@),
{
    let mut v: Vec<char> = Vec::new();
    push_str(&mut v, context);
    push_str(&mut v, driver);
    push_str(&mut v, ": ");
    push_str(&mut v, cause.as_str());
    string_of(&v)
}

impl DeviceActor {
    /// An actor for a device with the given driver.
    pub fn new(driver: Driver) -> (r: Self)
        ensures
            r.phase == ActorPhase::Created,
            r.driver == driver,
    {
        DeviceActor { driver, phase: ActorPhase::Created }
    }

    /// One step of starting the actor: the device is probed, then its
    /// profiles are loaded into `info`. The actor starts where both
    /// succeed; where one fails the actor stops and never serves a message.
    /// The probe leaves `info` alone.
    pub fn start_step(&mut self, info: &mut DeviceInfo, event: ActorEvent) -> (r: ActorAction)
        ensures
            final(self).driver.kind() == old(self).driver.kind(),
            final(info)@.sysname == old(info)@.sysname,
            final(info)@.name == old(info)@.name,
            final(info)@.model == old(info)@.model,
            final(info)@.driver_config == old(info)@.driver_config,
            starts(old(self).phase, event, final(self).phase, r),
            boots(*old(self), old(info)@, event, *final(self), final(info)@, r),
            r is Refused ==> *final(self) == *old(self) && *final(info) == *old(info),
            // The probe leaves the device state alone.
            final(self).phase == ActorPhase::Probing ==> *final(info) == *old(info),
            r is Io ==> !r->Io_0@.ends(),
    {
        match (self.phase, event) {
            (ActorPhase::Created, ActorEvent::Begin) => {
                let a = self.driver.probe(DriverEvent::Start);
                let ghost mid = self.driver;
                let ghost answer = a@;
                let r = self.after_probe(info, a);
                assert(probe_went(*old(self), old(info)@, event, mid, answer, *self, info@, r));
                r
            },
            (ActorPhase::Probing, ActorEvent::Io(ev)) => {
                let a = self.driver.probe(ev);
                let ghost mid = self.driver;
                let ghost answer = a@;
                let r = self.after_probe(info, a);
                assert(probe_went(*old(self), old(info)@, event, mid, answer, *self, info@, r));
                r
            },
            (ActorPhase::Loading, ActorEvent::Io(ev)) => {
                let a = self.driver.load_profiles(info, ev);
                let ghost answer = a@;
                let r = self.after_load(a);
                assert(loaded(
                    old(self).driver,
                    old(info)@,
                    event->Io_0@,
                    self.driver,
                    info@,
                    answer,
                ) && load_reported(r, answer, self.phase, self.driver));
                r
            },
            _ => ActorAction::Refused,
        }
    }

    /// Passes the end of a step of the probe on; where the probe has
    /// succeeded, the load begins.
    fn after_probe(&mut self, info: &mut DeviceInfo, a: DriverAction) -> (r: ActorAction)
        ensures
            final(self).driver.kind() == old(self).driver.kind(),
            final(info)@.sysname == old(info)@.sysname,
            final(info)@.name == old(info)@.name,
            final(info)@.model == old(info)@.model,
            final(info)@.driver_config == old(info)@.driver_config,
            (r is Io && final(self).phase == ActorPhase::Probing && *final(info) == *old(info))
                || (r is Io && final(self).phase == ActorPhase::Loading) || (r is Started
                && final(self).phase == ActorPhase::Waiting) || (r is StartFailed
                && final(self).phase == ActorPhase::Stopped),
            r is Io ==> !r->Io_0@.ends(),
            !a@.ends() ==> {
                &&& r is Io
                &&& r->Io_0@ == a@
                &&& final(self).driver == old(self).driver
                &&& final(self).phase == ActorPhase::Probing
                &&& *final(info) == *old(info)
            },
            a is Failed ==> {
                &&& r is StartFailed
                &&& final(self).driver == old(self).driver
                &&& final(self).phase == ActorPhase::Stopped
                &&& r->StartFailed_0@ == in_context(
                    "Probing with "@,
                    name_of_kind(old(self).driver.kind()),
                    a@->Failed_0,
                )
                &&& *final(info) == *old(info)
            },
            a is Done ==> exists|b: ActionModel|
                {
                    &&& #[trigger] loaded(
                        old(self).driver,
                        old(info)@,
                        DriverEventModel::Start,
                        final(self).driver,
                        final(info)@,
                        b,
                    )
                    &&& load_reported(r, b, final(self).phase, final(self).driver)
                },
            final(self).phase == ActorPhase::Probing ==> !a@.ends(),
    {
        match a {
            DriverAction::Done => {
                let b = self.driver.load_profiles(info, DriverEvent::Start);
                let ghost answer = b@;
                let r = self.after_load(b);
                assert(loaded(
                    old(self).driver,
                    old(info)@,
                    DriverEventModel::Start,
                    self.driver,
                    info@,
                    answer,
                ) && load_reported(r, answer, self.phase, self.driver));
                r
            },
            DriverAction::Failed(e) => {
                self.phase = ActorPhase::Stopped;
                ActorAction::StartFailed(with_context("Probing with ", self.driver.name(), &e))
            },
            other => {
                self.phase = ActorPhase::Probing;
                ActorAction::Io(other)
            },
        }
    }

    /// Passes the end of a step of the load on.
    fn after_load(&mut self, a: DriverAction) -> (r: ActorAction)
        ensures
            final(self).driver == old(self).driver,
            load_reported(r, a@, final(self).phase, old(self).driver),
            r is Io ==> !r->Io_0@.ends(),
    {
        match a {
            DriverAction::Done => {
                self.phase = ActorPhase::Waiting;
                ActorAction::Started
            },
            DriverAction::Failed(e) => {
                self.phase = ActorPhase::Stopped;
                ActorAction::StartFailed(
                    with_context("Loading profiles with ", self.driver.name(), &e),
                )
            },
            other => {
                self.phase = ActorPhase::Loading;
                ActorAction::Io(other)
            },
        }
    }

    fn after_commit(&mut self, ticket: u64, a: DriverAction) -> (r: ActorAction)
        ensures
            final(self).driver == old(self).driver,
            driver_action(r) == Some(a@),
            a@.ends() ==> final(self).phase == ActorPhase::Waiting && r is Reply && r->Reply_ticket
                == ticket && (r->Reply_result is Ok <==> a is Done),
            !a@.ends() ==> final(self).phase == (ActorPhase::Committing { ticket }) && r
                == ActorAction::Io(a),
    {
        match a {
            DriverAction::Done => {
                self.phase = ActorPhase::Waiting;
                ActorAction::Reply { ticket, result: Ok(()) }
            },
            DriverAction::Failed(e) => {
                self.phase = ActorPhase::Waiting;
                ActorAction::Reply { ticket, result: Err(e) }
            },
            other => {
                self.phase = ActorPhase::Committing { ticket };
                ActorAction::Io(other)
            },
        }
    }

    /// One step of serving the queue.
    ///
    /// A message is taken in the waiting phase alone. A commit request
    /// starts a commit; from then on every step answers with a transport
    /// action of that commit, until the commit ends and its result is
    /// reported to the reply channel of that request: no request is touched
    /// while another is under way, and no transport action is made for
    /// anything but the request under way. A shutdown message and a closed
    /// queue stop the actor. Whatever a commit does, the actor keeps
    /// waiting for messages after it.
    pub fn run_step(&mut self, info: &DeviceInfo, event: ActorEvent) -> (r: ActorAction)
        ensures
            final(self).driver.kind() == old(self).driver.kind(),
            serves(old(self).phase, event, final(self).phase, r),
            drives(*old(self), info@, event, *final(self), r),
            r is Refused ==> *final(self) == *old(self),
            r is Io ==> !r->Io_0@.ends() && final(self).phase is Committing,
    {
        match (self.phase, event) {
            (ActorPhase::Waiting, ActorEvent::Message(ActorMessage::Commit { ticket })) => {
                let a = self.driver.commit(info, DriverEvent::Start);
                self.after_commit(ticket, a)
            },
            (ActorPhase::Waiting, ActorEvent::Message(ActorMessage::Shutdown)) => {
                self.phase = ActorPhase::Stopped;
                ActorAction::Exit
            },
            (ActorPhase::Waiting, ActorEvent::QueueClosed) => {
                self.phase = ActorPhase::Stopped;
                ActorAction::Exit
            },
            (ActorPhase::Committing { ticket }, ActorEvent::Io(ev)) => {
                let a = self.driver.commit(info, ev);
                self.after_commit(ticket, a)
            },
            _ => ActorAction::Refused,
        }
    }
}

/// In every run of an actor, the transport actions of two commits never
/// mix: when the request with ticket `second` is taken at step `j` after a
/// transport action was made for the request with ticket `first` at step
/// `i`, the result of `first` was reported at a step in between, and no
/// transport action is made for `first` from step `j` on until it is
/// requested anew.
pub proof fn lemma_commits_never_interleave(
    phases: Seq<ActorPhase>,
    events: Seq<ActorEvent>,
    actions: Seq<ActorAction>,
    i: int,
    j: int,
    first: u64,
)
    requires
        is_run(phases, events, actions),
        0 <= i < j < events.len(),
        // A transport action for `first` at step `i`.
        actions[i] is Io,
        phases[i + 1] == (ActorPhase::Committing { ticket: first }),
        // Another request is taken at step `j`.
        events[j] is Message,
        !(actions[j] is Refused),
    ensures
        exists|k: int|
            i < k < j && actions[k] is Reply && actions[k]->Reply_ticket == first && phases[k]
                == (ActorPhase::Committing { ticket: first }),
{
    lemma_stays_committing(phases, events, actions, i + 1, j, first);
}

/// From a step that starts in the commit of `first`, a later step that
/// takes a message comes after the report of the result of `first`.
proof fn lemma_stays_committing(
    phases: Seq<ActorPhase>,
    events: Seq<ActorEvent>,
    actions: Seq<ActorAction>,
    k: int,
    j: int,
    first: u64,
)
    requires
        is_run(phases, events, actions),
        0 <= k <= j < events.len(),
        phases[k] == (ActorPhase::Committing { ticket: first }),
        events[j] is Message,
        !(actions[j] is Refused),
    ensures
        exists|m: int|
            k <= m < j && actions[m] is Reply && actions[m]->Reply_ticket == first && phases[m]
                == (ActorPhase::Committing { ticket: first }),
    decreases j - k,
{
    assert(serves(phases[k], events[k], phases[k + 1], actions[k]));
    if k == j {
        assert(actions[j] is Refused);
    } else if actions[k] is Reply {
        assert(actions[k]->Reply_ticket == first);
    } else {
        assert(phases[k + 1] == (ActorPhase::Committing { ticket: first }));
        lemma_stays_committing(phases, events, actions, k + 1, j, first);
    }
}

} // verus!
