//! The consumer loop as a state machine. The host performs each action (read
//! the cursor, probe, connect, receive, store, sleep) and hands the outcome
//! back as the next input; the machine decides what comes next. The loop
//! runs until the host cancels it.
use crate::backoff::{backoff_delay, is_healthy, saturating_inc, RetryState};
use crate::decimal::decimal;
use crate::extract::{event_rkey, event_slugs, event_time, post_records, rows_for, FeedEvent, NewPost};
use crate::identity::{ConfigError, ListenerIdentity};
use crate::probe::{ProbeError, PROBE_TIMEOUT_MS};
use vstd::prelude::*;

verus! {

/// Where the loop stands.
#[derive(PartialEq, Eq, Structural, Debug, Clone, Copy)]
pub enum Phase {
    ResolvingCursor,
    Probing,
    Connecting,
    Streaming,
    Backoff,
    /// Asked to stop: nothing more is done.
    Stopped,
}

/// The outcome of the last action, as the host reports it.
pub enum Input {
    /// The cursor read from the store: see `resolve_cursor`.
    CursorResolved(Option<i64>),
    /// The outcome of the probe.
    Probed(Result<(), ProbeError>),
    /// Building the connector or the handshake failed.
    ConnectFailed,
    /// The feed is open.
    Connected,
    /// The feed delivered an event.
    Received(FeedEvent),
    /// The feed closed, this many seconds after it opened.
    Closed { elapsed_secs: u64 },
    /// The backoff delay has passed.
    Slept,
    /// The host asks the loop to stop.
    Cancel,
}

/// What the host is to do next.
pub enum Action {
    /// Read the latest stored time and resolve the cursor from it.
    ResolveCursor,
    /// Try a plain connection to the endpoint's host and port.
    Probe { endpoint: String, timeout_ms: u64 },
    /// Open the feed on the endpoint, resuming at the cursor if there is one.
    Connect { endpoint: String, cursor: Option<i64> },
    /// Store these rows, in order, each with conflicts ignored; then receive.
    Store(Vec<NewPost>),
    /// Wait for the next event or the end of the feed.
    Receive,
    /// Wait this long before starting over.
    Sleep { delay_ms: u64 },
    /// Leave the loop.
    Stop,
}

pub struct ConsumerView {
    pub endpoints: Seq<Seq<char>>,
    pub marker: Seq<char>,
    pub retry: RetryState,
    pub phase: Phase,
    pub cursor: Option<i64>,
    pub saw_event: bool,
    pub delay_ms: u64,
}

impl ConsumerView {
    pub open spec fn wf(&self) -> bool {
        &&& self.retry.wf()
        &&& self.retry.endpoint_count == self.endpoints.len()
    }

    pub open spec fn endpoint(&self) -> Seq<char> {
        self.endpoints[self.retry.endpoint_index as int]
    }
}

/// A failed probe or connection: on to the next endpoint, after the delay
/// of the current attempt.
pub open spec fn after_failure(c: ConsumerView) -> ConsumerView {
    ConsumerView {
        retry: RetryState {
            endpoint_index: c.retry.next_index(),
            attempt: saturating_inc(c.retry.attempt),
            ..c.retry
        },
        phase: Phase::Backoff,
        delay_ms: backoff_delay(c.retry.attempt as nat) as u64,
        ..c
    }
}

/// The feed closed: on to the next endpoint; the count starts again after a
/// healthy session.
pub open spec fn after_session(c: ConsumerView, elapsed_secs: u64) -> ConsumerView {
    let attempt = if is_healthy(c.saw_event, elapsed_secs) {
        0
    } else {
        saturating_inc(c.retry.attempt)
    };
    ConsumerView {
        retry: RetryState { endpoint_index: c.retry.next_index(), attempt, ..c.retry },
        phase: Phase::Backoff,
        delay_ms: backoff_delay(attempt as nat) as u64,
        ..c
    }
}

/// The state after `input`: a cancellation stops the loop from any phase;
/// any other input that does not answer the pending action changes nothing.
pub open spec fn next_state(c: ConsumerView, input: Input) -> ConsumerView {
    match (c.phase, input) {
        (_, Input::Cancel) => ConsumerView { phase: Phase::Stopped, ..c },
        (Phase::ResolvingCursor, Input::CursorResolved(cursor)) => ConsumerView {
            phase: Phase::Probing,
            cursor,
            ..c
        },
        (Phase::Probing, Input::Probed(outcome)) => if outcome is Ok {
            ConsumerView { phase: Phase::Connecting, ..c }
        } else {
            after_failure(c)
        },
        (Phase::Connecting, Input::ConnectFailed) => after_failure(c),
        (Phase::Connecting, Input::Connected) => ConsumerView {
            phase: Phase::Streaming,
            saw_event: false,
            ..c
        },
        (Phase::Streaming, Input::Received(_)) => ConsumerView { saw_event: true, ..c },
        (Phase::Streaming, Input::Closed { elapsed_secs }) => after_session(c, elapsed_secs),
        (Phase::Backoff, Input::Slept) => ConsumerView { phase: Phase::ResolvingCursor, ..c },
        _ => c,
    }
}

/// `a` is the action that the phase of `c` waits on.
pub open spec fn is_pending_action(a: Action, c: ConsumerView) -> bool {
    match c.phase {
        Phase::ResolvingCursor => a is ResolveCursor,
        Phase::Probing => a matches Action::Probe { endpoint, timeout_ms } && endpoint@ == c.endpoint()
            && timeout_ms == PROBE_TIMEOUT_MS,
        Phase::Connecting => a matches Action::Connect { endpoint, cursor } && endpoint@ == c.endpoint()
            && cursor == c.cursor,
        Phase::Streaming => a is Receive,
        Phase::Backoff => a matches Action::Sleep { delay_ms } && delay_ms == c.delay_ms,
        Phase::Stopped => a is Stop,
    }
}

/// The action for `input` in `c`: the rows of a received event while
/// streaming, else what the next state waits on.
pub open spec fn is_step_action(a: Action, c: ConsumerView, input: Input) -> bool {
    if c.phase == Phase::Streaming && input is Received {
        let e = input->Received_0;
        a matches Action::Store(rows) && rows_for(
            rows@,
            event_slugs(e, c.marker),
            event_rkey(e),
            decimal(event_time(e)),
        )
    } else {
        is_pending_action(a, next_state(c, input))
    }
}

/// The consumer loop's state.
pub struct Consumer {
    pub identity: ListenerIdentity,
    pub endpoints: Vec<String>,
    pub retry: RetryState,
    pub phase: Phase,
    pub cursor: Option<i64>,
    pub saw_event: bool,
    pub delay_ms: u64,
}

impl View for Consumer {
    type V = ConsumerView;

    open spec fn view(&self) -> ConsumerView {
        ConsumerView {
            endpoints: self.endpoints@.map_values(|s: String| s@),
            marker: self.identity.marker@,
            retry: self.retry,
            phase: self.phase,
            cursor: self.cursor,
            saw_event: self.saw_event,
            delay_ms: self.delay_ms,
        }
    }
}

impl Consumer {
    /// A consumer about to resolve its cursor, on the first endpoint, with
    /// no failed attempts; an error without endpoints.
    pub fn new(identity: ListenerIdentity, endpoints: Vec<String>) -> (r: Result<Consumer, ConfigError>)
        ensures
            r is Err <==> endpoints@.len() == 0,
            r is Err ==> r == Err::<Consumer, ConfigError>(ConfigError::NoEndpoints),
            r matches Ok(c) ==> c@.wf() && c@.phase == Phase::ResolvingCursor && c@.retry.endpoint_index
                == 0 && c@.retry.attempt == 0 && c@.cursor.is_none() && !c@.saw_event
                && c@.endpoints == endpoints@.map_values(|s: String| s@) && c@.marker
                == identity.marker@,
    {
        match RetryState::new(endpoints.len()) {
            None => Err(ConfigError::NoEndpoints),
            Some(retry) => Ok(
                Consumer {
                    identity,
                    endpoints,
                    retry,
                    phase: Phase::ResolvingCursor,
                    cursor: None,
                    saw_event: false,
                    delay_ms: 0,
                },
            ),
        }
    }

    fn current_endpoint(&self) -> (r: String)
        requires
            self@.wf(),
        ensures
            r@ == self@.endpoint(),
    {
        self.endpoints[self.retry.endpoint_index].clone()
    }

    /// The action that the current phase waits on.
    pub fn pending_action(&self) -> (a: Action)
        requires
            self@.wf(),
        ensures
            is_pending_action(a, self@),
    {
        match self.phase {
            Phase::ResolvingCursor => Action::ResolveCursor,
            Phase::Probing => Action::Probe {
                endpoint: self.current_endpoint(),
                timeout_ms: PROBE_TIMEOUT_MS,
            },
            Phase::Connecting => Action::Connect {
                endpoint: self.current_endpoint(),
                cursor: self.cursor,
            },
            Phase::Streaming => Action::Receive,
            Phase::Backoff => Action::Sleep { delay_ms: self.delay_ms },
            Phase::Stopped => Action::Stop,
        }
    }

    /// Takes the outcome of the last action and returns the next one.
    pub fn step(&mut self, input: Input) -> (a: Action)
        requires
            old(self)@.wf(),
        ensures
            final(self)@ == next_state(old(self)@, input),
            final(self)@.wf(),
            is_step_action(a, old(self)@, input),
    {
        let ghost c = self@;
        match (self.phase, input) {
            (_, Input::Cancel) => {
                self.phase = Phase::Stopped;
            },
            (Phase::ResolvingCursor, Input::CursorResolved(cursor)) => {
                self.cursor = cursor;
                self.phase = Phase::Probing;
            },
            (Phase::Probing, Input::Probed(outcome)) => {
                match outcome {
                    Ok(()) => {
                        self.phase = Phase::Connecting;
                    },
                    Err(_) => {
                        self.delay_ms = self.retry.record_failure();
                        self.phase = Phase::Backoff;
                    },
                }
            },
            (Phase::Connecting, Input::ConnectFailed) => {
                self.delay_ms = self.retry.record_failure();
                self.phase = Phase::Backoff;
            },
            (Phase::Connecting, Input::Connected) => {
                self.saw_event = false;
                self.phase = Phase::Streaming;
            },
            (Phase::Streaming, Input::Received(event)) => {
                self.saw_event = true;
                let rows = post_records(&event, self.identity.marker.as_str());
                return Action::Store(rows);
            },
            (Phase::Streaming, Input::Closed { elapsed_secs }) => {
                self.delay_ms = self.retry.record_session_end(self.saw_event, elapsed_secs);
                self.phase = Phase::Backoff;
            },
            (Phase::Backoff, Input::Slept) => {
                self.phase = Phase::ResolvingCursor;
            },
            _ => {},
        }
        self.pending_action()
    }
}

/// A session that delivered an event and then closed starts the attempt
/// count again, whatever it was, and waits only the base delay.
pub proof fn lemma_event_then_close_resets(c: ConsumerView, e: FeedEvent, elapsed_secs: u64)
    requires
        c.wf(),
        c.phase == Phase::Streaming,
    ensures
        ({
            let c2 = next_state(next_state(c, Input::Received(e)), Input::Closed { elapsed_secs });
            &&& c2.retry.attempt == 0
            &&& c2.delay_ms == backoff_delay(0)
            &&& c2.phase == Phase::Backoff
            &&& c2.retry.endpoint_index == c.retry.next_index()
        }),
{
}

} // verus!
