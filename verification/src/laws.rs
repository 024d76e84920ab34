//! What holds of every session, whatever arrives.

use crate::callback::{
    accepted_event, entries_after, fields_complete, outcome_model, read_of, refusal, verdict,
};
use crate::json::{fields_of, json_text_members, FieldsView};
use crate::registry::token_matches;
use crate::reply::{
    carries_cors, error_model, lemma_replies_carry_cors, success_model, RequestError,
};
use crate::session::{
    fresh_session, is_closed, transition, ArrivalView, SessionView, ATTEMPT_CEILING,
};
use vstd::prelude::*;

verus! {

/// A session, the registry and the number of events published after a run of
/// arrivals.
pub struct RunView {
    pub session: SessionView,
    pub entries: Map<u16, Seq<char>>,
    pub events: nat,
}

/// Where a session and the registry stand after the arrivals have been taken one
/// by one, in order, and how many events that has published.
pub open spec fn run(
    session: SessionView,
    entries: Map<u16, Seq<char>>,
    arrivals: Seq<ArrivalView>,
) -> RunView
    decreases arrivals.len(),
{
    if arrivals.len() == 0 {
        RunView { session, entries, events: 0 }
    } else {
        let before = run(session, entries, arrivals.drop_last());
        let last = transition(before.session, before.entries, arrivals.last());
        RunView {
            session: last.session,
            entries: last.entries,
            events: if last.step.event is Some {
                before.events + 1
            } else {
                before.events
            },
        }
    }
}

/// Right after a start the registry holds the session's nonce under its port, so
/// a complete delivery with that nonce is accepted, and one with any other nonce
/// is not.
pub proof fn lemma_started_session_is_registered(
    entries: Map<u16, Seq<char>>,
    port: u16,
    nonce: Seq<char>,
    fields: FieldsView,
)
    requires
        fields_complete(fields),
    ensures
        entries.insert(port, nonce).contains_key(port),
        entries.insert(port, nonce)[port] == nonce,
        refusal(entries.insert(port, nonce), port, fields) is None <==> fields.nonce->0 == nonce,
{
}

/// A complete delivery whose nonce is the registered one, character for
/// character, gets the reply of success and one event with the callback URL, and
/// the entry of its port is gone afterwards.
pub proof fn lemma_matching_delivery_is_accepted(
    entries: Map<u16, Seq<char>>,
    port: u16,
    fields: FieldsView,
)
    requires
        fields_complete(fields),
        token_matches(entries, port, fields.nonce->0),
    ensures
        outcome_model(entries, port, Ok(fields)).reply == success_model(),
        outcome_model(entries, port, Ok(fields)).reply.status == 200,
        outcome_model(entries, port, Ok(fields)).event == Some(accepted_event(port, fields)),
        !entries_after(entries, port, Ok(fields)).contains_key(port),
{
}

/// Success comes at most once: after a delivery has been accepted, no later
/// delivery on that port is, whatever it holds. One that is complete is turned
/// down with 403, and nothing is published.
pub proof fn lemma_accepted_at_most_once(
    entries: Map<u16, Seq<char>>,
    port: u16,
    first: Result<FieldsView, RequestError>,
    second: Result<FieldsView, RequestError>,
)
    requires
        verdict(entries, port, first) is None,
    ensures
        verdict(entries_after(entries, port, first), port, second) is Some,
        outcome_model(entries_after(entries, port, first), port, second).event is None,
        second matches Ok(fields) && fields_complete(fields) ==> outcome_model(
            entries_after(entries, port, first),
            port,
            second,
        ).reply == error_model(RequestError::NonceMismatch),
        error_model(RequestError::NonceMismatch).status == 403,
{
}

/// A delivery that is not accepted publishes nothing and leaves the registry as
/// it was; in particular one with a wrong nonce, which is answered with 403.
pub proof fn lemma_refused_delivery_changes_nothing(
    entries: Map<u16, Seq<char>>,
    port: u16,
    read: Result<FieldsView, RequestError>,
)
    requires
        verdict(entries, port, read) is Some,
    ensures
        outcome_model(entries, port, read).event is None,
        entries_after(entries, port, read) == entries,
        read matches Ok(fields) && fields_complete(fields) ==> outcome_model(
            entries,
            port,
            read,
        ).reply == error_model(RequestError::NonceMismatch),
{
}

/// What a delivery is answered with, case by case. A body that cannot be read,
/// one that is no JSON, and one that lacks a member are each answered with 400
/// and the body that names the reason; a complete one with a wrong nonce with
/// 403; and only a complete one with the registered nonce with 200.
pub proof fn lemma_each_delivery_has_its_reply(
    entries: Map<u16, Seq<char>>,
    port: u16,
    body: Option<Seq<char>>,
)
    ensures
        outcome_model(entries, port, read_of(body)).reply == match body {
            None => error_model(RequestError::BodyReadFailure),
            Some(text) => match json_text_members(text) {
                None => error_model(RequestError::InvalidJson),
                Some(members) => if !fields_complete(fields_of(members)) {
                    error_model(RequestError::MissingFields)
                } else if !token_matches(entries, port, fields_of(members).nonce->0) {
                    error_model(RequestError::NonceMismatch)
                } else {
                    success_model()
                },
            },
        },
        error_model(RequestError::BodyReadFailure).status == 400,
        error_model(RequestError::InvalidJson).status == 400,
        error_model(RequestError::MissingFields).status == 400,
        error_model(RequestError::NonceMismatch).status == 403,
        success_model().status == 200,
{
}

/// Whatever arrives, a reply that goes out carries the CORS lines.
pub proof fn lemma_every_reply_carries_cors(
    session: SessionView,
    entries: Map<u16, Seq<char>>,
    arrival: ArrivalView,
)
    ensures
        transition(session, entries, arrival).step.reply matches Some(reply) ==> carries_cors(
            reply.headers,
        ),
{
    let step = transition(session, entries, arrival).step;
    if step.reply is Some && !is_closed(session) {
        match arrival {
            ArrivalView::Post { body } => {
                match verdict(entries, session.port, read_of(body)) {
                    Some(error) => lemma_replies_carry_cors(error),
                    None => lemma_replies_carry_cors(RequestError::InvalidJson),
                }
            },
            _ => lemma_replies_carry_cors(RequestError::InvalidJson),
        }
    }
}

/// One arrival publishes an event only where it is the delivery that the session
/// accepts: the session was open, it is closed afterwards, and the entry of its
/// port is gone. Every other arrival leaves the registry as it was.
pub proof fn lemma_event_only_on_acceptance(
    session: SessionView,
    entries: Map<u16, Seq<char>>,
    arrival: ArrivalView,
)
    ensures
        transition(session, entries, arrival).step.event is Some ==> {
            &&& !is_closed(session)
            &&& transition(session, entries, arrival).session.validated
            &&& transition(session, entries, arrival).step.closed
            &&& !transition(session, entries, arrival).entries.contains_key(session.port)
        },
        transition(session, entries, arrival).step.event is None ==> transition(
            session,
            entries,
            arrival,
        ).entries == entries,
{
}

/// While nothing has been accepted, every arrival costs a session one attempt,
/// so a session ends with its tenth arrival at the latest: after fewer than ten
/// arrivals without an event it is still open, and after ten it is closed.
pub proof fn lemma_session_ends_after_ten(
    port: u16,
    entries: Map<u16, Seq<char>>,
    arrivals: Seq<ArrivalView>,
)
    ensures
        run(fresh_session(port), entries, arrivals).session.port == port,
        run(fresh_session(port), entries, arrivals).events == 0 && arrivals.len()
            <= ATTEMPT_CEILING ==> run(fresh_session(port), entries, arrivals).session.remaining
            == ATTEMPT_CEILING - arrivals.len(),
        run(fresh_session(port), entries, arrivals).events == 0 && arrivals.len()
            < ATTEMPT_CEILING ==> !is_closed(run(fresh_session(port), entries, arrivals).session),
        arrivals.len() >= ATTEMPT_CEILING ==> is_closed(
            run(fresh_session(port), entries, arrivals).session,
        ),
    decreases arrivals.len(),
{
    if arrivals.len() > 0 {
        lemma_session_ends_after_ten(port, entries, arrivals.drop_last());
        lemma_run_counts(port, entries, arrivals.drop_last());
    }
}

/// Over its whole life a session publishes at most one event, and it has
/// published one exactly when it has accepted a delivery.
pub proof fn lemma_run_counts(port: u16, entries: Map<u16, Seq<char>>, arrivals: Seq<ArrivalView>)
    ensures
        run(fresh_session(port), entries, arrivals).events <= 1,
        run(fresh_session(port), entries, arrivals).events == 1 <==> run(
            fresh_session(port),
            entries,
            arrivals,
        ).session.validated,
        run(fresh_session(port), entries, arrivals).session.remaining <= ATTEMPT_CEILING,
        run(fresh_session(port), entries, arrivals).session.remaining + arrivals.len()
            >= ATTEMPT_CEILING,
    decreases arrivals.len(),
{
    if arrivals.len() > 0 {
        lemma_run_counts(port, entries, arrivals.drop_last());
    }
}

} // verus!
