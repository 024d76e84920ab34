//! One callback session: how it starts, what each arrival at its listener leads
//! to, and when it ends.

use crate::callback::{
    entries_after, handle_post, outcome_model, read_of, CallbackEvent, EventView,
};
use crate::nonce::{generate_nonce, nonce_text};
use crate::ports::{in_port_range, PortScan, StartError};
use crate::registry::NonceRegistry;
use crate::reply::{preflight_model, preflight_reply, Reply, ReplyView};
use vstd::prelude::*;

verus! {

/// The number of arrivals that a session takes before it gives up.
pub const ATTEMPT_CEILING: u8 = 10;

/// How long the connection is held after the reply of success, in milliseconds,
/// so that the reply is out before the listener goes.
pub const FLUSH_DELAY_MS: u64 = 500;

/// What came in at the listener.
pub enum Arrival {
    /// Accepting a connection failed.
    AcceptFailed,
    /// A preflight request.
    Options,
    /// A delivery; `body` is its text, `None` where it could not be read.
    Post { body: Option<String> },
    /// A request of any other method.
    Other,
}

/// An arrival in specifications.
pub enum ArrivalView {
    AcceptFailed,
    Options,
    Post { body: Option<Seq<char>> },
    Other,
}

impl View for Arrival {
    type V = ArrivalView;

    open spec fn view(&self) -> ArrivalView {
        match *self {
            Arrival::AcceptFailed => ArrivalView::AcceptFailed,
            Arrival::Options => ArrivalView::Options,
            Arrival::Post { body } => ArrivalView::Post {
                body: match body {
                    Some(text) => Some(text@),
                    None => None,
                },
            },
            Arrival::Other => ArrivalView::Other,
        }
    }
}

/// What the worker does for one arrival, in this order: publish `event`, send
/// `reply`, wait `linger_ms`, and stop listening where `closed`.
pub struct Step {
    pub reply: Option<Reply>,
    pub event: Option<CallbackEvent>,
    pub linger_ms: u64,
    pub closed: bool,
}

/// A step in specifications.
pub struct StepView {
    pub reply: Option<ReplyView>,
    pub event: Option<EventView>,
    pub linger_ms: u64,
    pub closed: bool,
}

impl View for Step {
    type V = StepView;

    open spec fn view(&self) -> StepView {
        StepView {
            reply: match self.reply {
                Some(reply) => Some(reply@),
                None => None,
            },
            event: match self.event {
                Some(event) => Some(event@),
                None => None,
            },
            linger_ms: self.linger_ms,
            closed: self.closed,
        }
    }
}

/// A session in specifications.
pub struct SessionView {
    pub port: u16,
    /// The arrivals that the session still takes.
    pub remaining: nat,
    /// Whether a delivery has been accepted.
    pub validated: bool,
}

/// A session as it starts on `port`: all attempts left, nothing accepted.
pub open spec fn fresh_session(port: u16) -> SessionView {
    SessionView { port, remaining: ATTEMPT_CEILING as nat, validated: false }
}

/// Whether a session has ended: a delivery was accepted, or no attempt is left.
pub open spec fn is_closed(session: SessionView) -> bool {
    session.validated || session.remaining == 0
}

/// The step of a session that has ended: nothing is sent, nothing published.
pub open spec fn idle_step() -> StepView {
    StepView { reply: None, event: None, linger_ms: 0, closed: true }
}

/// A session, the registry and the step after one arrival.
pub struct Transition {
    pub session: SessionView,
    pub entries: Map<u16, Seq<char>>,
    pub step: StepView,
}

/// What one arrival leads to. A session that has ended takes nothing. An open
/// one spends an attempt on every arrival; a preflight request is answered, a
/// delivery is judged against the registry and answered, and anything else gets
/// no reply. The session ends with the delivery that is accepted, or with its
/// last attempt.
pub open spec fn transition(
    session: SessionView,
    entries: Map<u16, Seq<char>>,
    arrival: ArrivalView,
) -> Transition {
    if is_closed(session) {
        Transition { session, entries, step: idle_step() }
    } else {
        let spent = SessionView {
            port: session.port,
            remaining: (session.remaining - 1) as nat,
            validated: false,
        };
        match arrival {
            ArrivalView::Post { body } => {
                let outcome = outcome_model(entries, session.port, read_of(body));
                let accepted = outcome.event is Some;
                let next = SessionView { validated: accepted, ..spent };
                Transition {
                    session: next,
                    entries: entries_after(entries, session.port, read_of(body)),
                    step: StepView {
                        reply: Some(outcome.reply),
                        event: outcome.event,
                        linger_ms: if accepted {
                            FLUSH_DELAY_MS
                        } else {
                            0
                        },
                        closed: is_closed(next),
                    },
                }
            },
            ArrivalView::Options => Transition {
                session: spent,
                entries,
                step: StepView {
                    reply: Some(preflight_model()),
                    event: None,
                    linger_ms: 0,
                    closed: is_closed(spent),
                },
            },
            _ => Transition {
                session: spent,
                entries,
                step: StepView { reply: None, event: None, linger_ms: 0, closed: is_closed(spent) },
            },
        }
    }
}

/// The state of one session's worker.
pub struct Session {
    port: u16,
    remaining: u8,
    validated: bool,
}

impl View for Session {
    type V = SessionView;

    closed spec fn view(&self) -> SessionView {
        SessionView {
            port: self.port,
            remaining: self.remaining as nat,
            validated: self.validated,
        }
    }
}

impl Session {
    /// A session that listens on `port`, with all its attempts left.
    pub fn open(port: u16) -> (session: Session)
        ensures
            session@ == fresh_session(port),
    {
        Session { port, remaining: ATTEMPT_CEILING, validated: false }
    }

    /// The port that the session listens on.
    pub fn port(&self) -> (port: u16)
        ensures
            port == self@.port,
    {
        self.port
    }

    /// The arrivals that the session still takes.
    pub fn remaining_attempts(&self) -> (remaining: u8)
        ensures
            remaining == self@.remaining,
    {
        self.remaining
    }

    /// Whether the session has ended.
    pub fn is_closed(&self) -> (closed: bool)
        ensures
            closed == is_closed(self@),
    {
        self.validated || self.remaining == 0
    }

    /// Takes one arrival: moves the session and the registry on as `transition`
    /// says, and returns what the worker has to do.
    pub fn process(&mut self, registry: &mut NonceRegistry, arrival: &Arrival) -> (step: Step)
        ensures
            transition(old(self)@, old(registry)@, arrival@) == (Transition {
                session: final(self)@,
                entries: final(registry)@,
                step: step@,
            }),
    {
        if self.is_closed() {
            return Step { reply: None, event: None, linger_ms: 0, closed: true };
        }
        self.remaining = self.remaining - 1;
        match arrival {
            Arrival::Post { body } => {
                let text = match body {
                    Some(text) => Some(text.as_str()),
                    None => None,
                };
                let outcome = handle_post(registry, self.port, text);
                let accepted = outcome.event.is_some();
                self.validated = accepted;
                Step {
                    reply: Some(outcome.reply),
                    event: outcome.event,
                    linger_ms: if accepted {
                        FLUSH_DELAY_MS
                    } else {
                        0
                    },
                    closed: self.is_closed(),
                }
            },
            Arrival::Options => Step {
                reply: Some(preflight_reply()),
                event: None,
                linger_ms: 0,
                closed: self.is_closed(),
            },
            _ => Step { reply: None, event: None, linger_ms: 0, closed: self.is_closed() },
        }
    }
}

/// A session that has started: its state for the worker, and the port and the
/// nonce for the caller.
pub struct Started {
    pub session: Session,
    pub port: u16,
    pub nonce: String,
}

/// Starts a session on the port that `scan` ended on. A nonce is made from
/// `timestamp_nanos` and `thread_tag_len` and registered under the port, and the
/// session begins with all its attempts. Where the scan is exhausted, nothing is
/// registered and the error is `NoAvailablePort`.
pub fn start_oauth_server(
    registry: &mut NonceRegistry,
    scan: &PortScan,
    timestamp_nanos: u128,
    thread_tag_len: usize,
) -> (started: Result<Started, StartError>)
    ensures
        match scan.standing() {
            Some(port) => {
                &&& started matches Ok(s)
                &&& s.port == port
                &&& in_port_range(port)
                &&& s.nonce@ == nonce_text(timestamp_nanos, thread_tag_len)
                &&& s.session@ == fresh_session(port)
                &&& final(registry)@ == old(registry)@.insert(port, s.nonce@)
            },
            None => {
                &&& started matches Err(error)
                &&& error == StartError::NoAvailablePort
                &&& final(registry)@ == old(registry)@
            },
        },
{
    let port: u16 = match scan.bound() {
        Ok(port) => port,
        Err(error) => {
            return Err(error);
        },
    };
    let nonce = generate_nonce(timestamp_nanos, thread_tag_len);
    registry.register(port, nonce.clone());
    Ok(Started { session: Session::open(port), port, nonce })
}

} // verus!
