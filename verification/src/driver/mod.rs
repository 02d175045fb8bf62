//! The driver framework: the errors of driver operations, the matching
//! primitive of the transport, the uniform interface of the protocol
//! drivers and the registry that picks a driver by name.
//!
//! Nothing here touches a device. A driver operation is a sequence of
//! steps: each step takes what the last transport action gave and says
//! which transport action comes next. Whoever owns the device node performs
//! the actions.

pub mod asus;
pub mod asus_driver;
pub mod asus_save;
pub mod asus_steps;
pub mod etekcity;
pub mod gskill;
pub mod hidpp;
pub mod hidpp10;
pub mod hidpp20;
pub mod hidpp20_commit;
pub mod hidpp20_driver;
pub mod hidpp20_load;
pub mod hidpp20_memory;
pub mod hidpp20_memory_runs;
pub mod hidpp20_profile;
pub mod hidpp20_runs;
pub mod logitech_g600;
pub mod marsgaming;
pub mod openinput;
pub mod registry;
pub mod sinowealth;
pub mod steelseries;
pub mod steelseries_driver;
pub mod sinowealth_nubwo;

use vstd::prelude::*;
use crate::device::DeviceInfo;
use crate::text::{
    decimal, hex2_lower, hex4_lower, push_decimal, push_hex2, push_hex4, push_str, string_of,
};

verus! {

/// The largest report of any supported device fits in this many bytes.
pub const MAX_REPORT_LEN: usize = 4096;

/// Time budget of the read loop of one attempt, in milliseconds.
pub const READ_TIMEOUT_PER_ATTEMPT_MS: u64 = 2000;

/// Timeout of a single read inside the loop, in milliseconds.
pub const SINGLE_READ_TIMEOUT_MS: u64 = 500;

/// What can go wrong in a driver operation.
#[derive(Debug, Clone, PartialEq, Eq)]
pub enum DriverError {
    /// Reading or writing the device node failed.
    Io { device: String, source: String },
    /// A feature-report ioctl failed.
    IoctlFailed(String),
    /// No matching reply within the budget of every attempt.
    Timeout { attempts: u8 },
    /// A sector checksum did not match.
    ChecksumMismatch { computed: u16, received: u16 },
    /// The device answered with an in-protocol error.
    ProtocolError { sub_id: u8, error: u8 },
    /// A reply was shorter than its format.
    BufferTooSmall { expected: usize, actual: usize },
}

/// The mathematical value of a [`DriverError`].
pub enum ErrorModel {
    Io { device: Seq<char>, source: Seq<char> },
    IoctlFailed(Seq<char>),
    Timeout { attempts: u8 },
    ChecksumMismatch { computed: u16, received: u16 },
    ProtocolError { sub_id: u8, error: u8 },
    BufferTooSmall { expected: usize, actual: usize },
}

impl View for DriverError {
    type V = ErrorModel;

    open spec fn view(&self) -> ErrorModel {
        match self {
            DriverError::Io { device, source } => ErrorModel::Io {
                device: device@,
                source: source@,
            },
            DriverError::IoctlFailed(s) => ErrorModel::IoctlFailed(s@),
            DriverError::Timeout { attempts } => ErrorModel::Timeout { attempts: *attempts },
            DriverError::ChecksumMismatch { computed, received } => ErrorModel::ChecksumMismatch {
                computed: *computed,
                received: *received,
            },
            DriverError::ProtocolError { sub_id, error } => ErrorModel::ProtocolError {
                sub_id: *sub_id,
                error: *error,
            },
            DriverError::BufferTooSmall { expected, actual } => ErrorModel::BufferTooSmall {
                expected: *expected,
                actual: *actual,
            },
        }
    }
}

/// The text that describes an error.
pub open spec fn error_text(e: ErrorModel) -> Seq<char> {
    match e {
        ErrorModel::Io { device, source } => "I/O failure on "@ + device + ": "@ + source,
        ErrorModel::IoctlFailed(s) => "Feature report ioctl failed: "@ + s,
        ErrorModel::Timeout { attempts } => "Hardware timed out after "@ + decimal(attempts as nat)
            + " attempt(s)"@,
        ErrorModel::ChecksumMismatch { computed, received } => "Checksum mismatch: computed 0x"@
            + hex4_lower(computed) + ", received 0x"@ + hex4_lower(received),
        ErrorModel::ProtocolError { sub_id, error } =>
            "Device reported protocol error (sub_id=0x"@ + hex2_lower(sub_id) + ", error=0x"@
            + hex2_lower(error) + ")"@,
        ErrorModel::BufferTooSmall { expected, actual } =>
            "Invalid buffer size: expected at least "@ + decimal(expected as nat) + ", got "@
            + decimal(actual as nat),
    }
}

impl DriverError {
    /// The text that describes the error.
    pub fn to_string(&self) -> (r: String)
        ensures
            r@ == error_text(self@),
    {
        let mut v: Vec<char> = Vec::new();
        match self {
            DriverError::Io { device, source } => {
                push_str(&mut v, "I/O failure on ");
                push_str(&mut v, device.as_str());
                push_str(&mut v, ": ");
                push_str(&mut v, source.as_str());
            },
            DriverError::IoctlFailed(s) => {
                push_str(&mut v, "Feature report ioctl failed: ");
                push_str(&mut v, s.as_str());
            },
            DriverError::Timeout { attempts } => {
                push_str(&mut v, "Hardware timed out after ");
                push_decimal(&mut v, *attempts as u64);
                push_str(&mut v, " attempt(s)");
            },
            DriverError::ChecksumMismatch { computed, received } => {
                push_str(&mut v, "Checksum mismatch: computed 0x");
                push_hex4(&mut v, *computed);
                push_str(&mut v, ", received 0x");
                push_hex4(&mut v, *received);
            },
            DriverError::ProtocolError { sub_id, error } => {
                push_str(&mut v, "Device reported protocol error (sub_id=0x");
                push_hex2(&mut v, *sub_id, false);
                push_str(&mut v, ", error=0x");
                push_hex2(&mut v, *error, false);
                push_str(&mut v, ")");
            },
            DriverError::BufferTooSmall { expected, actual } => {
                push_str(&mut v, "Invalid buffer size: expected at least ");
                push_decimal(&mut v, *expected as u64);
                push_str(&mut v, ", got ");
                push_decimal(&mut v, *actual as u64);
            },
        }
        assert(v@ =~= error_text(self@));
        string_of(&v)
    }
}

/// The request number of the ioctl that reads a feature report of `len`
/// bytes: direction read and write in bits 30 and 31, the length from bit
/// 16 on, type `H` in bits 8 to 15 and number 7.
pub open spec fn get_feature_request(len: usize) -> u64 {
    (3u64 << 30) | (0x48u64 << 8) | 0x07u64 | ((len as u64) << 16)
}

/// The request number of the ioctl that writes a feature report of `len`
/// bytes: as for reading, with number 6.
pub open spec fn set_feature_request(len: usize) -> u64 {
    (3u64 << 30) | (0x48u64 << 8) | 0x06u64 | ((len as u64) << 16)
}

pub fn hid_get_feature_req(len: usize) -> (r: u64)
    ensures
        r == get_feature_request(len),
{
    let ioc_readwrite: u64 = 3;
    let ioc_type: u64 = 0x48;
    let ioc_nr: u64 = 0x07;
    (ioc_readwrite << 30) | (ioc_type << 8) | ioc_nr | ((len as u64) << 16)
}

pub fn hid_set_feature_req(len: usize) -> (r: u64)
    ensures
        r == set_feature_request(len),
{
    let ioc_readwrite: u64 = 3;
    let ioc_type: u64 = 0x48;
    let ioc_nr: u64 = 0x06;
    (ioc_readwrite << 30) | (ioc_type << 8) | ioc_nr | ((len as u64) << 16)
}

/// For a length that fits the 14 bits of the size field, the request
/// number is a sum of its parts.
pub proof fn lemma_feature_request_value(len: usize)
    requires
        len < 0x4000,
    ensures
        get_feature_request(len) == 0xC000_4807 + len * 0x1_0000,
        set_feature_request(len) == 0xC000_4806 + len * 0x1_0000,
{
    let l = len as u64;
    assert(l < 0x4000 ==> (3u64 << 30) | (0x48u64 << 8) | 0x07u64 | (l << 16) == 0xC000_4807u64
        + l * 0x1_0000u64) by (bit_vector);
    assert(l < 0x4000 ==> (3u64 << 30) | (0x48u64 << 8) | 0x06u64 | (l << 16) == 0xC000_4806u64
        + l * 0x1_0000u64) by (bit_vector);
}

/// Inbound traffic that is no protocol report: a buffer that is not empty
/// and starts with neither report marker. Such a buffer never reaches the
/// predicate.
pub open spec fn is_noise(buf: Seq<u8>) -> bool {
    buf.len() > 0 && buf[0] != hidpp::REPORT_ID_SHORT && buf[0] != hidpp::REPORT_ID_LONG
}

pub fn buffer_is_noise(buf: &[u8]) -> (r: bool)
    ensures
        r == is_noise(buf@),
{
    buf.len() > 0 && buf[0] != hidpp::REPORT_ID_SHORT && buf[0] != hidpp::REPORT_ID_LONG
}

/// Where one "send and match" request stands.
#[derive(Debug, Clone, Copy, PartialEq, Eq, Structural)]
pub enum RequestPhase {
    /// Nothing was sent yet.
    Idle,
    /// The report of the current attempt is being written.
    Writing,
    /// Replies to the current attempt are being read.
    Reading,
    /// The request has ended.
    Finished,
}

/// The progress of one "send and match" request: up to `max_attempts`
/// times, the report is written and replies are read until one matches or
/// the time budget of the attempt is used up.
#[derive(Debug, Clone, Copy, PartialEq, Eq, Structural)]
pub struct RequestState {
    /// How many attempts have been started.
    pub attempt: u8,
    pub max_attempts: u8,
    /// When the read loop of the current attempt ends.
    pub deadline_ms: u64,
    pub phase: RequestPhase,
}

/// What happened on the transport since the last step.
pub enum IoEvent<'a> {
    /// The request begins.
    Begin,
    /// The report was written.
    Written,
    /// Writing the report failed.
    WriteFailed,
    /// A read returned these bytes.
    Report(&'a [u8]),
    /// A read failed.
    ReadFailed,
    /// A read returned nothing within its timeout.
    ReadTimeout,
}

/// The mathematical value of an [`IoEvent`].
pub enum EventModel {
    Begin,
    Written,
    WriteFailed,
    Report(Seq<u8>),
    ReadFailed,
    ReadTimeout,
}

impl<'a> View for IoEvent<'a> {
    type V = EventModel;

    open spec fn view(&self) -> EventModel {
        match self {
            IoEvent::Begin => EventModel::Begin,
            IoEvent::Written => EventModel::Written,
            IoEvent::WriteFailed => EventModel::WriteFailed,
            IoEvent::Report(b) => EventModel::Report(b@),
            IoEvent::ReadFailed => EventModel::ReadFailed,
            IoEvent::ReadTimeout => EventModel::ReadTimeout,
        }
    }
}

/// What the transport is to do next, or how the request ended.
#[derive(Debug, Clone, PartialEq, Eq)]
pub enum RequestAction<T> {
    /// Write the report.
    Write,
    /// Read one report, waiting no longer than this many milliseconds.
    Read { timeout_ms: u64 },
    /// The predicate matched: the request succeeded with this result.
    Matched(T),
    /// Every attempt used up its budget: the request failed.
    TimedOut { attempts: u8 },
    /// Writing failed: the request failed with that error.
    Aborted,
}

impl RequestState {
    /// The state of a request that has not begun.
    pub open spec fn initial(max_attempts: u8) -> RequestState {
        RequestState { attempt: 0, max_attempts, deadline_ms: 0, phase: RequestPhase::Idle }
    }

    pub open spec fn wf(self) -> bool {
        self.attempt <= self.max_attempts
    }

    /// Starting the next attempt: the report is written once more, unless
    /// all attempts were made, in which case the request times out.
    pub open spec fn start_attempt<T>(self) -> (RequestState, RequestAction<T>) {
        if self.attempt >= self.max_attempts {
            (
                RequestState { phase: RequestPhase::Finished, ..self },
                RequestAction::TimedOut { attempts: self.max_attempts },
            )
        } else {
            (
                RequestState {
                    attempt: (self.attempt + 1) as u8,
                    phase: RequestPhase::Writing,
                    ..self
                },
                RequestAction::Write,
            )
        }
    }

    /// Going on reading at time `now`: one more read, cut to what is left
    /// of the budget, or the next attempt where nothing is left.
    pub open spec fn keep_reading<T>(self, now: u64) -> (RequestState, RequestAction<T>) {
        if now >= self.deadline_ms {
            self.start_attempt()
        } else {
            let left = (self.deadline_ms - now) as u64;
            (
                self,
                RequestAction::Read {
                    timeout_ms: if left < SINGLE_READ_TIMEOUT_MS {
                        left
                    } else {
                        SINGLE_READ_TIMEOUT_MS
                    },
                },
            )
        }
    }

    /// The step that an event at time `now` leads to, where `verdict` is
    /// what the predicate said of the report of the event; it counts for a
    /// report that is no noise only.
    pub open spec fn next<T>(self, event: EventModel, now: u64, verdict: Option<T>) -> (
        RequestState,
        RequestAction<T>,
    ) {
        match (self.phase, event) {
            (RequestPhase::Idle, EventModel::Begin) => self.start_attempt(),
            (RequestPhase::Writing, EventModel::Written) => {
                let deadline = if now > u64::MAX - READ_TIMEOUT_PER_ATTEMPT_MS {
                    u64::MAX
                } else {
                    (now + READ_TIMEOUT_PER_ATTEMPT_MS) as u64
                };
                RequestState {
                    deadline_ms: deadline,
                    phase: RequestPhase::Reading,
                    ..self
                }.keep_reading(now)
            },
            (RequestPhase::Writing, EventModel::WriteFailed) => (
                RequestState { phase: RequestPhase::Finished, ..self },
                RequestAction::Aborted,
            ),
            (RequestPhase::Reading, EventModel::Report(buf)) => {
                if is_noise(buf) {
                    self.keep_reading(now)
                } else {
                    match verdict {
                        Some(r) => (
                            RequestState { phase: RequestPhase::Finished, ..self },
                            RequestAction::Matched(r),
                        ),
                        None => self.keep_reading(now),
                    }
                }
            },
            (RequestPhase::Reading, EventModel::ReadFailed) => self.start_attempt(),
            (RequestPhase::Reading, EventModel::ReadTimeout) => self.start_attempt(),
            // An event that does not belong to the phase ends the request.
            _ => (RequestState { phase: RequestPhase::Finished, ..self }, RequestAction::Aborted),
        }
    }

    /// The step that an event leads to under the predicate `matcher`.
    pub open spec fn next_under<T>(
        self,
        event: EventModel,
        now: u64,
        matcher: spec_fn(Seq<u8>) -> Option<T>,
    ) -> (RequestState, RequestAction<T>) {
        match event {
            EventModel::Report(buf) => self.next(event, now, matcher(buf)),
            _ => self.next(event, now, None),
        }
    }

    /// A request that has not begun.
    pub fn new(max_attempts: u8) -> (r: Self)
        ensures
            r == Self::initial(max_attempts),
            r.wf(),
    {
        RequestState { attempt: 0, max_attempts, deadline_ms: 0, phase: RequestPhase::Idle }
    }

    fn begin_attempt<T>(&mut self) -> (r: RequestAction<T>)
        requires
            old(self).wf(),
        ensures
            (*final(self), r) == old(self).start_attempt::<T>(),
            final(self).wf(),
    {
        if self.attempt >= self.max_attempts {
            self.phase = RequestPhase::Finished;
            RequestAction::TimedOut { attempts: self.max_attempts }
        } else {
            self.attempt = self.attempt + 1;
            self.phase = RequestPhase::Writing;
            RequestAction::Write
        }
    }

    fn read_on<T>(&mut self, now: u64) -> (r: RequestAction<T>)
        requires
            old(self).wf(),
        ensures
            (*final(self), r) == old(self).keep_reading::<T>(now),
            final(self).wf(),
    {
        if now >= self.deadline_ms {
            self.begin_attempt()
        } else {
            let left = self.deadline_ms - now;
            RequestAction::Read {
                timeout_ms: if left < SINGLE_READ_TIMEOUT_MS {
                    left
                } else {
                    SINGLE_READ_TIMEOUT_MS
                },
            }
        }
    }

    /// Takes one event at time `now_ms` (milliseconds on a clock that never
    /// runs backwards) and says what comes next.
    ///
    /// The predicate is called on a report that is no noise, and on nothing
    /// else. Its first match ends the request.
    pub fn step<T, F: Fn(&[u8]) -> Option<T>>(
        &mut self,
        event: IoEvent<'_>,
        now_ms: u64,
        matcher: F,
    ) -> (r: RequestAction<T>)
        requires
            old(self).wf(),
            forall|b: &[u8]| matcher.requires((b,)),
        ensures
            final(self).wf(),
            match event@ {
                EventModel::Report(buf) => old(self).phase == RequestPhase::Reading && !is_noise(
                    buf,
                ) ==> exists|verdict: Option<T>|
                    matcher.ensures((event->Report_0,), verdict) && (*final(self), r) == old(
                        self,
                    ).next(event@, now_ms, verdict),
                _ => true,
            },
            !(event is Report && old(self).phase == RequestPhase::Reading && !is_noise(
                event->Report_0@,
            )) ==> (*final(self), r) == old(self).next(event@, now_ms, None::<T>),
    {
        match (self.phase, event) {
            (RequestPhase::Idle, IoEvent::Begin) => self.begin_attempt(),
            (RequestPhase::Writing, IoEvent::Written) => {
                self.deadline_ms = if now_ms > u64::MAX - READ_TIMEOUT_PER_ATTEMPT_MS {
                    u64::MAX
                } else {
                    now_ms + READ_TIMEOUT_PER_ATTEMPT_MS
                };
                self.phase = RequestPhase::Reading;
                self.read_on(now_ms)
            },
            (RequestPhase::Writing, IoEvent::WriteFailed) => {
                self.phase = RequestPhase::Finished;
                RequestAction::Aborted
            },
            (RequestPhase::Reading, IoEvent::Report(buf)) => {
                if buffer_is_noise(buf) {
                    self.read_on(now_ms)
                } else {
                    let verdict = matcher(buf);
                    match verdict {
                        Some(x) => {
                            self.phase = RequestPhase::Finished;
                            let r = RequestAction::Matched(x);
                            assert(matcher.ensures((buf,), Some(x)) && (*self, r) == old(self).next(
                                event@,
                                now_ms,
                                Some(x),
                            ));
                            r
                        },
                        None => {
                            let r = self.read_on(now_ms);
                            assert(matcher.ensures((buf,), None::<T>) && (*self, r) == old(
                                self,
                            ).next(event@, now_ms, None::<T>));
                            r
                        },
                    }
                }
            },
            (RequestPhase::Reading, IoEvent::ReadFailed) => self.begin_attempt(),
            (RequestPhase::Reading, IoEvent::ReadTimeout) => self.begin_attempt(),
            _ => {
                self.phase = RequestPhase::Finished;
                RequestAction::Aborted
            },
        }
    }
}

/// One inbound report and the time at which it arrived.
pub struct Arrival {
    pub bytes: Seq<u8>,
    pub at: u64,
}

/// The state of a request after the reports `arrivals` came in, in order,
/// while it was reading: the state in which the request ended, or the last
/// state where it goes on.
pub open spec fn after_arrivals<T>(
    s: RequestState,
    arrivals: Seq<Arrival>,
    matcher: spec_fn(Seq<u8>) -> Option<T>,
) -> (RequestState, RequestAction<T>)
    decreases arrivals.len(),
{
    if arrivals.len() == 0 {
        (s, RequestAction::Read { timeout_ms: 0 })
    } else {
        let before = after_arrivals(s, arrivals.drop_last(), matcher);
        if before.0.phase == RequestPhase::Reading {
            before.0.next_under(EventModel::Report(arrivals.last().bytes), arrivals.last().at, matcher)
        } else {
            before
        }
    }
}

/// However many reports that are noise, or that the predicate does not
/// match, arrive within the time budget of an attempt, the request keeps
/// reading in the same state: unrelated traffic uses up no attempt.
pub proof fn lemma_unmatched_traffic_is_skipped<T>(
    s: RequestState,
    arrivals: Seq<Arrival>,
    matcher: spec_fn(Seq<u8>) -> Option<T>,
)
    requires
        s.phase == RequestPhase::Reading,
        arrivals.len() > 0,
        forall|i: int|
            0 <= i < arrivals.len() ==> (#[trigger] arrivals[i]).at < s.deadline_ms && (is_noise(
                arrivals[i].bytes,
            ) || matcher(arrivals[i].bytes) is None),
    ensures
        after_arrivals(s, arrivals, matcher).0 == s,
        after_arrivals(s, arrivals, matcher).1 is Read,
    decreases arrivals.len(),
{
    let head = arrivals.drop_last();
    let last = arrivals[arrivals.len() - 1];
    if arrivals.len() > 1 {
        assert forall|i: int| 0 <= i < head.len() implies (#[trigger] head[i]).at < s.deadline_ms
            && (is_noise(head[i].bytes) || matcher(head[i].bytes) is None) by {
            assert(head[i] == arrivals[i]);
        }
        lemma_unmatched_traffic_is_skipped(s, head, matcher);
    } else {
        assert(head.len() == 0);
    }
    assert(after_arrivals(s, head, matcher).0 == s);
    assert(arrivals.last() == last);
    assert(last.at < s.deadline_ms);
    assert(s.keep_reading::<T>(last.at).0 == s);
}

/// After any amount of unmatched traffic within the budget, the first
/// report that the predicate matches ends the request with its result.
pub proof fn lemma_match_found_under_noise<T>(
    s: RequestState,
    noise: Seq<Arrival>,
    reply: Arrival,
    matcher: spec_fn(Seq<u8>) -> Option<T>,
)
    requires
        s.phase == RequestPhase::Reading,
        forall|i: int|
            0 <= i < noise.len() ==> (#[trigger] noise[i]).at < s.deadline_ms && (is_noise(
                noise[i].bytes,
            ) || matcher(noise[i].bytes) is None),
        !is_noise(reply.bytes),
        matcher(reply.bytes) is Some,
    ensures
        after_arrivals(s, noise.push(reply), matcher).1 == RequestAction::Matched(
            matcher(reply.bytes)->0,
        ),
        after_arrivals(s, noise.push(reply), matcher).0.phase == RequestPhase::Finished,
{
    let all = noise.push(reply);
    assert(all.drop_last() =~= noise);
    if noise.len() > 0 {
        lemma_unmatched_traffic_is_skipped(s, noise, matcher);
    }
}

/// A request never reports a match that the predicate did not make, and
/// never starts more attempts than it was given.
pub proof fn lemma_step_is_bounded<T>(s: RequestState, event: EventModel, now: u64, verdict: Option<T>)
    requires
        s.wf(),
    ensures
        s.next(event, now, verdict).0.wf(),
        s.next(event, now, verdict).0.attempt >= s.attempt,
        s.next(event, now, verdict).1 is Write ==> s.next(event, now, verdict).0.attempt
            == s.attempt + 1,
        s.next(event, now, verdict).1 is Matched ==> verdict == Some(
            s.next(event, now, verdict).1->Matched_0,
        ) && event is Report && !is_noise(event->Report_0),
{
}

/// Once the budget of the last attempt is used up, whatever arrives that
/// is no match ends the request with a timeout that names the number of
/// attempts.
pub proof fn lemma_times_out<T>(s: RequestState, event: EventModel, now: u64)
    requires
        s.phase == RequestPhase::Reading,
        s.attempt == s.max_attempts,
        now >= s.deadline_ms || event is ReadTimeout || event is ReadFailed,
        event is Report || event is ReadTimeout || event is ReadFailed,
    ensures
        s.next(event, now, None::<T>).1 == (RequestAction::<T>::TimedOut {
            attempts: s.max_attempts,
        }),
        s.next(event, now, None::<T>).0.phase == RequestPhase::Finished,
{
}

/// One thing that happens to a request on the transport: an event, and the
/// time of it.
pub struct Happening {
    pub event: EventModel,
    pub at: u64,
}

/// Where a request of up to `k` attempts stands after the transport has
/// handed it `steps`, in order, and what it asks of the transport then. The
/// request begins before the first of them; once it has ended, nothing
/// changes it.
pub open spec fn run_of<T>(k: u8, steps: Seq<Happening>, matcher: spec_fn(Seq<u8>) -> Option<T>) -> (
    RequestState,
    RequestAction<T>,
)
    decreases steps.len(),
{
    if steps.len() == 0 {
        RequestState::initial(k).next_under(EventModel::Begin, 0, matcher)
    } else {
        let before = run_of(k, steps.drop_last(), matcher);
        if before.0.phase == RequestPhase::Finished {
            before
        } else {
            before.0.next_under(steps.last().event, steps.last().at, matcher)
        }
    }
}

/// How many times the run asked for the report to be written.
pub open spec fn times_written<T>(
    k: u8,
    steps: Seq<Happening>,
    matcher: spec_fn(Seq<u8>) -> Option<T>,
) -> nat
    decreases steps.len(),
{
    let now: nat = if run_of(k, steps, matcher).1 is Write {
        1
    } else {
        0
    };
    if steps.len() == 0 {
        now
    } else if run_of(k, steps.drop_last(), matcher).0.phase == RequestPhase::Finished {
        times_written(k, steps.drop_last(), matcher)
    } else {
        times_written(k, steps.drop_last(), matcher) + now
    }
}

/// Whether the transport answered the request as a transport does, and
/// with nothing that the predicate matches: every write succeeded, every
/// read gave a report, failed or ran into its timeout, every report was
/// noise or no match, and nothing happened after the request had ended.
pub open spec fn unanswered<T>(
    k: u8,
    steps: Seq<Happening>,
    matcher: spec_fn(Seq<u8>) -> Option<T>,
) -> bool
    decreases steps.len(),
{
    steps.len() == 0 || {
        let before = run_of(k, steps.drop_last(), matcher);
        let event = steps.last().event;
        &&& unanswered(k, steps.drop_last(), matcher)
        &&& match before.1 {
            RequestAction::Write => event is Written,
            RequestAction::Read { timeout_ms } => match event {
                EventModel::Report(buf) => is_noise(buf) || matcher(buf) is None,
                EventModel::ReadTimeout => true,
                EventModel::ReadFailed => true,
                _ => false,
            },
            _ => false,
        }
    }
}

/// A request that is never answered times out. However the reads of the
/// attempts go, and however much unrelated traffic arrives at whatever
/// rate, a request of `k` attempts whose writes succeed and whose
/// predicate matches nothing only ever asks for the report to be written
/// or for a read that does not outlast the budget of the attempt; it never
/// reports a match; and when it has ended, it has ended with a timeout
/// that names `k` attempts, after the report was written exactly `k`
/// times.
pub proof fn lemma_unanswered_request_times_out<T>(
    k: u8,
    steps: Seq<Happening>,
    matcher: spec_fn(Seq<u8>) -> Option<T>,
)
    requires
        unanswered(k, steps, matcher),
    ensures
        run_of(k, steps, matcher).0.wf(),
        run_of(k, steps, matcher).0.max_attempts == k,
        times_written(k, steps, matcher) == run_of(k, steps, matcher).0.attempt,
        match run_of(k, steps, matcher).1 {
            RequestAction::Write => run_of(k, steps, matcher).0.phase == RequestPhase::Writing,
            RequestAction::Read { timeout_ms } => run_of(k, steps, matcher).0.phase
                == RequestPhase::Reading && steps.len() > 0 && timeout_ms <= SINGLE_READ_TIMEOUT_MS
                && steps.last().at + timeout_ms <= run_of(k, steps, matcher).0.deadline_ms,
            RequestAction::TimedOut { attempts } => attempts == k && run_of(
                k,
                steps,
                matcher,
            ).0.phase == RequestPhase::Finished && times_written(k, steps, matcher) == k,
            _ => false,
        },
    decreases steps.len(),
{
    if steps.len() > 0 {
        lemma_unanswered_request_times_out(k, steps.drop_last(), matcher);
    }
}

// ---------------------------------------------------------------------------
// Reply predicates
// ---------------------------------------------------------------------------

/// Which predicate recognises the reply to a request.
#[derive(Debug, Clone, Copy, PartialEq, Eq, Structural)]
pub enum Expect {
    /// The reply to the protocol version query of HID++ 2.0.
    ProtocolVersion { device_index: u8 },
    /// The reply of the root feature to "which index implements this page".
    RootFeature { device_index: u8 },
    /// The reply to a call of a feature, or the error that answers it.
    Feature { device_index: u8, feature_index: u8 },
    /// The reply to a register access of HID++ 1.0.
    Register { device_index: u8, sub_id: u8 },
}

/// What a predicate found in a reply.
#[derive(Debug, Clone, Copy, PartialEq, Eq)]
pub enum Reply {
    Version { major: u8, minor: u8 },
    /// The index of a feature, or `None` where the device does not have it.
    FeatureIndex(Option<u8>),
    /// The sixteen parameter bytes of a reply to a feature call.
    Payload([u8; 16]),
    /// The code of an in-protocol error.
    HidppError(u8),
    /// The three parameter bytes of a reply to a register access.
    Register([u8; 3]),
}

/// The mathematical value of a [`Reply`].
pub enum ReplyModel {
    Version { major: u8, minor: u8 },
    FeatureIndex(Option<u8>),
    Payload(Seq<u8>),
    HidppError(u8),
    Register(Seq<u8>),
}

impl View for Reply {
    type V = ReplyModel;

    open spec fn view(&self) -> ReplyModel {
        match self {
            Reply::Version { major, minor } => ReplyModel::Version { major: *major, minor: *minor },
            Reply::FeatureIndex(i) => ReplyModel::FeatureIndex(*i),
            Reply::Payload(p) => ReplyModel::Payload(p@),
            Reply::HidppError(c) => ReplyModel::HidppError(*c),
            Reply::Register(p) => ReplyModel::Register(p@),
        }
    }
}

/// The view of what a predicate returned.
pub open spec fn reply_view(r: Option<Reply>) -> Option<ReplyModel> {
    match r {
        Some(x) => Some(x@),
        None => None,
    }
}

impl Expect {
    /// What the predicate says of a parsed report.
    pub open spec fn matching_report(self, report: hidpp::ReportModel) -> Option<ReplyModel> {
        match self {
            Expect::ProtocolVersion { device_index } => match report {
                hidpp::ReportModel::Long { device_index: d, sub_id, params, .. } => if sub_id
                    != hidpp::HIDPP20_ERROR && d == device_index && sub_id
                    == hidpp::ROOT_FEATURE_INDEX {
                    Some(ReplyModel::Version { major: params[0], minor: params[1] })
                } else {
                    None
                },
                _ => None,
            },
            Expect::RootFeature { device_index } => if report.is_error() {
                Some(ReplyModel::FeatureIndex(None))
            } else {
                match report {
                    hidpp::ReportModel::Long { device_index: d, sub_id, params, .. } => if d
                        == device_index && sub_id == hidpp::ROOT_FEATURE_INDEX {
                        Some(ReplyModel::FeatureIndex(hidpp20::index_of_reply(params[0])))
                    } else {
                        None
                    },
                    hidpp::ReportModel::Short { device_index: d, sub_id, params } => if d
                        == device_index && sub_id == hidpp::ROOT_FEATURE_INDEX {
                        Some(ReplyModel::FeatureIndex(hidpp20::index_of_reply(params[0])))
                    } else {
                        None
                    },
                }
            },
            Expect::Feature { device_index, feature_index } => match report.error_code(
                device_index,
                feature_index,
            ) {
                Some(code) => Some(ReplyModel::HidppError(code)),
                None => match report {
                    hidpp::ReportModel::Long { device_index: d, sub_id, params, .. } => if d
                        == device_index && sub_id == feature_index {
                        Some(ReplyModel::Payload(params))
                    } else {
                        None
                    },
                    hidpp::ReportModel::Short { device_index: d, sub_id, params } => if d
                        == device_index && sub_id == feature_index {
                        Some(ReplyModel::Payload(hidpp20_memory::padded16(params)))
                    } else {
                        None
                    },
                },
            },
            Expect::Register { device_index, sub_id } => match report {
                hidpp::ReportModel::Short { device_index: d, sub_id: s, params } => if s
                    != hidpp::HIDPP10_ERROR && d == device_index && s == sub_id {
                    Some(ReplyModel::Register(params))
                } else {
                    None
                },
                _ => None,
            },
        }
    }

    /// What the predicate says of an inbound buffer: `None` for anything
    /// that is not the awaited reply.
    pub open spec fn matching(self, buf: Seq<u8>) -> Option<ReplyModel> {
        match hidpp::parse_report(buf) {
            Some(report) => self.matching_report(report),
            None => None,
        }
    }

    /// Applies the predicate to an inbound buffer.
    pub fn try_match(&self, buf: &[u8]) -> (r: Option<Reply>)
        ensures
            reply_view(r) == self.matching(buf@),
    {
        let report = match hidpp::HidppReport::parse(buf) {
            Some(r) => r,
            None => {
                return None;
            },
        };
        match *self {
            Expect::ProtocolVersion { device_index } => {
                if report.is_error() {
                    return None;
                }
                if !report.matches_hidpp20(device_index, hidpp::ROOT_FEATURE_INDEX) {
                    return None;
                }
                match report {
                    hidpp::HidppReport::Long { params, .. } => Some(
                        Reply::Version { major: params[0], minor: params[1] },
                    ),
                    _ => None,
                }
            },
            Expect::RootFeature { device_index } => {
                if report.is_error() {
                    return Some(Reply::FeatureIndex(None));
                }
                match report {
                    hidpp::HidppReport::Long { device_index: d, sub_id, params, .. } => {
                        if d == device_index && sub_id == hidpp::ROOT_FEATURE_INDEX {
                            Some(Reply::FeatureIndex(hidpp20::feature_index_of(params[0])))
                        } else {
                            None
                        }
                    },
                    hidpp::HidppReport::Short { device_index: d, sub_id, params } => {
                        if d == device_index && sub_id == hidpp::ROOT_FEATURE_INDEX {
                            Some(Reply::FeatureIndex(hidpp20::feature_index_of(params[0])))
                        } else {
                            None
                        }
                    },
                }
            },
            Expect::Feature { device_index, feature_index } => {
                match report.hidpp20_error_code(device_index, feature_index) {
                    Some(code) => {
                        return Some(Reply::HidppError(code));
                    },
                    None => {},
                }
                match report {
                    hidpp::HidppReport::Long { device_index: d, sub_id, params, .. } => {
                        if d == device_index && sub_id == feature_index {
                            Some(Reply::Payload(params))
                        } else {
                            None
                        }
                    },
                    hidpp::HidppReport::Short { device_index: d, sub_id, params } => {
                        if d == device_index && sub_id == feature_index {
                            let mut long_params = [0u8; 16];
                            long_params[0] = params[0];
                            long_params[1] = params[1];
                            long_params[2] = params[2];
                            assert(long_params@ =~= hidpp20_memory::padded16(params@));
                            Some(Reply::Payload(long_params))
                        } else {
                            None
                        }
                    },
                }
            },
            Expect::Register { device_index, sub_id } => {
                if report.is_error() {
                    return None;
                }
                match report {
                    hidpp::HidppReport::Short { device_index: d, sub_id: s, params } => {
                        if d == device_index && s == sub_id {
                            Some(Reply::Register(params))
                        } else {
                            None
                        }
                    },
                    _ => None,
                }
            },
        }
    }
}

/// An error reply to a feature call is a match: the request ends at once
/// with the error code and is never tried again.
pub proof fn lemma_error_reply_ends_request(
    s: RequestState,
    buf: Seq<u8>,
    now: u64,
    device_index: u8,
    feature_index: u8,
)
    requires
        s.phase == RequestPhase::Reading,
        hidpp::parse_report(buf) is Some,
        hidpp::parse_report(buf)->0.error_code(device_index, feature_index) is Some,
    ensures
        !is_noise(buf),
        s.next_under(
            EventModel::Report(buf),
            now,
            |b: Seq<u8>| (Expect::Feature { device_index, feature_index }).matching(b),
        ).1 == RequestAction::Matched(
            ReplyModel::HidppError(
                hidpp::parse_report(buf)->0.error_code(device_index, feature_index)->0,
            ),
        ),
{
}

/// A reply of the root feature that carries index 0 says that the device
/// does not have the page: the predicate reports the feature as absent.
pub proof fn lemma_root_index_zero_is_absent(buf: Seq<u8>, device_index: u8)
    requires
        buf.len() >= 20,
        buf[0] == hidpp::REPORT_ID_LONG,
        buf[1] == device_index,
        buf[2] == hidpp::ROOT_FEATURE_INDEX,
        buf[4] == 0,
    ensures
        (Expect::RootFeature { device_index }).matching(buf) == Some(
            ReplyModel::FeatureIndex(None),
        ),
{
    assert(buf.subrange(4, 20)[0] == buf[4]);
}

// ---------------------------------------------------------------------------
// Driver steps
// ---------------------------------------------------------------------------

/// What a driver asks of the transport next, or how its operation ended.
#[derive(Debug, Clone, PartialEq, Eq)]
pub enum DriverAction {
    /// Send the report and wait for the reply that the predicate matches,
    /// in up to `attempts` attempts.
    Request { report: Vec<u8>, attempts: u8, expect: Expect },
    /// Write the report.
    WriteReport(Vec<u8>),
    /// Read one report of up to `len` bytes; with a timeout, wait no longer
    /// than that many milliseconds.
    ReadReport { len: usize, timeout_ms: Option<u64> },
    /// Get the feature report whose number is the first byte of the buffer.
    GetFeatureReport(Vec<u8>),
    /// Set a feature report.
    SetFeatureReport(Vec<u8>),
    /// Pause for this many milliseconds.
    Sleep(u64),
    /// The operation succeeded.
    Done,
    /// The operation failed; the text says why.
    Failed(String),
}

/// The mathematical value of a [`DriverAction`].
pub enum ActionModel {
    Request { report: Seq<u8>, attempts: u8, expect: Expect },
    WriteReport(Seq<u8>),
    ReadReport { len: usize, timeout_ms: Option<u64> },
    GetFeatureReport(Seq<u8>),
    SetFeatureReport(Seq<u8>),
    Sleep(u64),
    Done,
    Failed(Seq<char>),
}

impl View for DriverAction {
    type V = ActionModel;

    open spec fn view(&self) -> ActionModel {
        match self {
            DriverAction::Request { report, attempts, expect } => ActionModel::Request {
                report: report@,
                attempts: *attempts,
                expect: *expect,
            },
            DriverAction::WriteReport(r) => ActionModel::WriteReport(r@),
            DriverAction::ReadReport { len, timeout_ms } => ActionModel::ReadReport {
                len: *len,
                timeout_ms: *timeout_ms,
            },
            DriverAction::GetFeatureReport(b) => ActionModel::GetFeatureReport(b@),
            DriverAction::SetFeatureReport(b) => ActionModel::SetFeatureReport(b@),
            DriverAction::Sleep(ms) => ActionModel::Sleep(*ms),
            DriverAction::Done => ActionModel::Done,
            DriverAction::Failed(s) => ActionModel::Failed(s@),
        }
    }
}

impl ActionModel {
    /// Whether the action ends the operation.
    pub open spec fn ends(self) -> bool {
        self is Done || self is Failed
    }
}

/// What the last action of a driver gave.
#[derive(Debug, Clone, PartialEq, Eq)]
pub enum DriverEvent {
    /// The operation begins; no action went before.
    Start,
    /// The request was answered by this reply.
    Matched(Reply),
    /// The write, the pause or the setting of a feature report was done.
    Completed,
    /// The read, or the getting of a feature report, returned these bytes.
    Data(Vec<u8>),
    /// The action failed.
    Failed(DriverError),
}

/// The mathematical value of a [`DriverEvent`].
pub enum DriverEventModel {
    Start,
    Matched(ReplyModel),
    Completed,
    Data(Seq<u8>),
    Failed(ErrorModel),
}

impl View for DriverEvent {
    type V = DriverEventModel;

    open spec fn view(&self) -> DriverEventModel {
        match self {
            DriverEvent::Start => DriverEventModel::Start,
            DriverEvent::Matched(r) => DriverEventModel::Matched(r@),
            DriverEvent::Completed => DriverEventModel::Completed,
            DriverEvent::Data(d) => DriverEventModel::Data(d@),
            DriverEvent::Failed(e) => DriverEventModel::Failed(e@),
        }
    }
}

/// The uniform interface of the protocol drivers: three operations, each
/// carried out in steps. The first step of an operation takes the event
/// [`DriverEvent::Start`]; every further step takes what the action of the
/// step before gave, until a step answers with [`DriverAction::Done`] or
/// [`DriverAction::Failed`].
pub trait DeviceDriver {
    /// The name of the driver, for messages.
    fn name(&self) -> &'static str;

    /// Confirms that the device speaks the protocol. The device state is
    /// out of its reach.
    fn probe(&mut self, event: DriverEvent) -> DriverAction;

    /// Reads the device state from the hardware into `info`.
    fn load_profiles(&mut self, info: &mut DeviceInfo, event: DriverEvent) -> DriverAction;

    /// Writes the staged changes of `info` to the hardware.
    fn commit(&mut self, info: &DeviceInfo, event: DriverEvent) -> DriverAction;
}

} // verus!
