//! The judgement on one delivery: the nonce against the registry, and what is
//! answered and published.

use crate::json::{body_fields, parse_fields, CallbackFields, FieldsView};
use crate::registry::{token_matches, NonceRegistry};
use crate::reply::{
    error_model, error_reply, success_model, success_reply, Reply, ReplyView, RequestError,
};
use crate::url::{callback_url, callback_url_text};
use vstd::prelude::*;
use vstd::string::*;

verus! {

/// The name under which an accepted delivery is published.
pub open spec fn event_name() -> Seq<char> {
    "oauth-callback"@
}

/// What is published when a delivery is accepted.
pub struct CallbackEvent {
    pub name: String,
    /// The callback URL.
    pub payload: String,
}

/// An event in specifications.
pub struct EventView {
    pub name: Seq<char>,
    pub payload: Seq<char>,
}

impl View for CallbackEvent {
    type V = EventView;

    open spec fn view(&self) -> EventView {
        EventView { name: self.name@, payload: self.payload@ }
    }
}

/// What a delivery leads to: the reply, and the event if it was accepted.
pub struct Outcome {
    pub reply: Reply,
    pub event: Option<CallbackEvent>,
}

/// An outcome in specifications.
pub struct OutcomeView {
    pub reply: ReplyView,
    pub event: Option<EventView>,
}

impl View for Outcome {
    type V = OutcomeView;

    open spec fn view(&self) -> OutcomeView {
        OutcomeView {
            reply: self.reply@,
            event: match self.event {
                Some(event) => Some(event@),
                None => None,
            },
        }
    }
}

/// Whether `code`, `nonce` and `state` are all there.
pub open spec fn fields_complete(fields: FieldsView) -> bool {
    fields.code is Some && fields.nonce is Some && fields.state is Some
}

/// Why the members of a delivery are turned down, `None` where they are accepted.
/// Completeness is judged first: a delivery that lacks a member is reported as
/// such, whatever its nonce.
pub open spec fn refusal(entries: Map<u16, Seq<char>>, port: u16, fields: FieldsView) -> Option<
    RequestError,
> {
    if !fields_complete(fields) {
        Some(RequestError::MissingFields)
    } else if !token_matches(entries, port, fields.nonce->0) {
        Some(RequestError::NonceMismatch)
    } else {
        None
    }
}

/// Why a delivery is turned down, from what was read of its body.
pub open spec fn verdict(
    entries: Map<u16, Seq<char>>,
    port: u16,
    read: Result<FieldsView, RequestError>,
) -> Option<RequestError> {
    match read {
        Ok(fields) => refusal(entries, port, fields),
        Err(error) => Some(error),
    }
}

/// The registry after a delivery: without the entry of `port` where the delivery
/// was accepted, unchanged where it was not.
pub open spec fn entries_after(
    entries: Map<u16, Seq<char>>,
    port: u16,
    read: Result<FieldsView, RequestError>,
) -> Map<u16, Seq<char>> {
    if verdict(entries, port, read) is None {
        entries.remove(port)
    } else {
        entries
    }
}

/// The event that an accepted delivery is published as.
pub open spec fn accepted_event(port: u16, fields: FieldsView) -> EventView {
    EventView {
        name: event_name(),
        payload: callback_url_text(port, fields.code->0, fields.state->0),
    }
}

/// What a delivery leads to: the reply of success and the event where it is
/// accepted, the reply that names the reason where it is not.
pub open spec fn outcome_model(
    entries: Map<u16, Seq<char>>,
    port: u16,
    read: Result<FieldsView, RequestError>,
) -> OutcomeView {
    match verdict(entries, port, read) {
        Some(error) => OutcomeView { reply: error_model(error), event: None },
        None => OutcomeView {
            reply: success_model(),
            event: Some(accepted_event(port, read->Ok_0)),
        },
    }
}

/// What the body of a delivery amounts to, `None` standing for a body that could
/// not be read.
pub open spec fn read_of(body: Option<Seq<char>>) -> Result<FieldsView, RequestError> {
    match body {
        Some(text) => body_fields(text),
        None => Err(RequestError::BodyReadFailure),
    }
}

/// The outcome that turns a delivery down.
fn turned_down(error: RequestError) -> (outcome: Outcome)
    ensures
        outcome@ == (OutcomeView { reply: error_model(error), event: None }),
{
    Outcome { reply: error_reply(error), event: None }
}

/// Judges the members of a delivery on `port`. Where all three are there and the
/// nonce is the one that the registry holds for `port`, the entry is consumed,
/// and the outcome is the reply of success with the event that carries the
/// callback URL. Otherwise the registry is left as it is and the outcome is the
/// reply that names the reason.
pub fn settle(registry: &mut NonceRegistry, port: u16, fields: &CallbackFields) -> (outcome:
    Outcome)
    ensures
        outcome@ == outcome_model(old(registry)@, port, Ok(fields@)),
        final(registry)@ == entries_after(old(registry)@, port, Ok(fields@)),
{
    match (&fields.code, &fields.nonce, &fields.state) {
        (Some(code), Some(nonce), Some(state)) => {
            if registry.validate_and_consume(port, nonce.as_str()) {
                let event = CallbackEvent {
                    name: String::from_str("oauth-callback"),
                    payload: callback_url(port, code.as_str(), state.as_str()),
                };
                Outcome { reply: success_reply(), event: Some(event) }
            } else {
                turned_down(RequestError::NonceMismatch)
            }
        },
        _ => turned_down(RequestError::MissingFields),
    }
}

/// Handles one delivery on `port`; `body` is its text, `None` where it could not
/// be read. The body is parsed, its members are judged as `settle` does, and the
/// registry loses the entry of `port` exactly where the delivery is accepted.
pub fn handle_post(registry: &mut NonceRegistry, port: u16, body: Option<&str>) -> (outcome:
    Outcome)
    ensures
        outcome@ == outcome_model(
            old(registry)@,
            port,
            read_of(
                match body {
                    Some(text) => Some(text@),
                    None => None,
                },
            ),
        ),
        final(registry)@ == entries_after(
            old(registry)@,
            port,
            read_of(
                match body {
                    Some(text) => Some(text@),
                    None => None,
                },
            ),
        ),
{
    match body {
        None => turned_down(RequestError::BodyReadFailure),
        Some(text) => match parse_fields(text) {
            Ok(fields) => settle(registry, port, &fields),
            Err(error) => turned_down(error),
        },
    }
}

} // verus!
