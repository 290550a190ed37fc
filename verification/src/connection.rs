//! The life of a connection: it is accepted, read once, answered once and
//! closed, and then the next one is accepted.
//!
//! Accepting, reading and writing are done by whoever runs the server. What is
//! to be done next is decided here: one step takes what just happened and
//! answers what to do now.

use vstd::prelude::*;
use vstd::string::StringExecFns;
use crate::service::{response_of, Failure, OutcomeView, INTERNAL_SERVER_ERROR};

verus! {

/// Where the server stands.
#[derive(Clone, Copy, Debug, PartialEq, Eq, Structural)]
pub enum Phase {
    /// It waits for a connection.
    Listening,
    /// It has a connection and reads from it.
    Reading,
    /// It writes its answer to the connection.
    Writing,
}

/// What just happened.
#[derive(Clone, Copy, Debug, PartialEq, Eq, Structural)]
pub enum Event {
    /// A connection was accepted.
    Accepted,
    /// No connection could be accepted.
    AcceptFailed,
    /// Something was read from the connection.
    Received,
    /// Nothing could be read from the connection.
    ReadFailed,
    /// The answer was written.
    Written,
    /// The answer could not be written.
    WriteFailed,
}

/// What to do now.
#[derive(Clone, Copy, Debug, PartialEq, Eq, Structural)]
pub enum Action {
    /// Accept the next connection.
    Accept,
    /// Read once from the connection.
    Read,
    /// Write the response to what was read.
    Answer,
    /// Write the response that reports a failure of the service.
    AnswerFailure,
    /// Close the connection, then accept the next.
    Close,
}

/// Whether an event can happen in a phase.
pub open spec fn fits(phase: Phase, event: Event) -> bool {
    match phase {
        Phase::Listening => event == Event::Accepted || event == Event::AcceptFailed,
        Phase::Reading => event == Event::Received || event == Event::ReadFailed,
        Phase::Writing => event == Event::Written || event == Event::WriteFailed,
    }
}

/// Whether an action writes a response.
pub open spec fn answers(action: Action) -> bool {
    action == Action::Answer || action == Action::AnswerFailure
}

/// The phase that follows an event, and what to do in it.
///
/// A connection that cannot be accepted is passed over, and the server goes
/// on listening. What cannot be read is answered as a failure of the service.
/// Whether the answer could be written or not, the connection is closed. An
/// event that cannot happen in a phase ends the connection as well.
pub open spec fn transition(phase: Phase, event: Event) -> (Phase, Action) {
    match (phase, event) {
        (Phase::Listening, Event::Accepted) => (Phase::Reading, Action::Read),
        (Phase::Listening, Event::AcceptFailed) => (Phase::Listening, Action::Accept),
        (Phase::Reading, Event::Received) => (Phase::Writing, Action::Answer),
        (Phase::Reading, Event::ReadFailed) => (Phase::Writing, Action::AnswerFailure),
        _ => (Phase::Listening, Action::Close),
    }
}

/// Decides what to do after an event.
pub fn advance(phase: Phase, event: Event) -> (next: (Phase, Action))
    ensures
        next == transition(phase, event),
{
    match (phase, event) {
        (Phase::Listening, Event::Accepted) => (Phase::Reading, Action::Read),
        (Phase::Listening, Event::AcceptFailed) => (Phase::Listening, Action::Accept),
        (Phase::Reading, Event::Received) => (Phase::Writing, Action::Answer),
        (Phase::Reading, Event::ReadFailed) => (Phase::Writing, Action::AnswerFailure),
        _ => (Phase::Listening, Action::Close),
    }
}

/// The response that reports a failure of the service, as it goes over the
/// connection.
pub fn failure_text() -> (text: String)
    ensures
        text@ == response_of(OutcomeView::Failed(Failure::InternalFailure)).0 + response_of(
            OutcomeView::Failed(Failure::InternalFailure),
        ).1,
{
    let text = String::from_str(INTERNAL_SERVER_ERROR);
    assert(text@ =~= text@ + Seq::<char>::empty());
    text
}

/// The phase that the server is in after a row of events.
pub open spec fn phase_after(phase: Phase, events: Seq<Event>) -> Phase
    decreases events.len(),
{
    if events.len() == 0 {
        phase
    } else {
        transition(phase_after(phase, events.drop_last()), events.last()).0
    }
}

/// Whether each event of a row happens in a phase in which it can happen.
pub open spec fn in_turn(phase: Phase, events: Seq<Event>) -> bool
    decreases events.len(),
{
    events.len() == 0 || (in_turn(phase, events.drop_last()) && fits(
        phase_after(phase, events.drop_last()),
        events.last(),
    ))
}

/// How many connections are accepted in a row of events.
pub open spec fn accepted(events: Seq<Event>) -> nat
    decreases events.len(),
{
    if events.len() == 0 {
        0
    } else {
        accepted(events.drop_last()) + if events.last() == Event::Accepted {
            1nat
        } else {
            0nat
        }
    }
}

/// How many responses are written in a row of events that begins in a phase.
pub open spec fn answered(phase: Phase, events: Seq<Event>) -> nat
    decreases events.len(),
{
    if events.len() == 0 {
        0
    } else {
        answered(phase, events.drop_last()) + if answers(
            transition(phase_after(phase, events.drop_last()), events.last()).1,
        ) {
            1nat
        } else {
            0nat
        }
    }
}

/// Each connection that is accepted is answered once. Whatever happens, as
/// long as each event comes in its turn: when the server listens again, it
/// has written as many responses as it has accepted connections, and while it
/// has a connection, one less when it still reads and as many when it writes.
pub proof fn law_one_answer_for_each_connection(events: Seq<Event>)
    requires
        in_turn(Phase::Listening, events),
    ensures
        accepted(events) == answered(Phase::Listening, events) + if phase_after(
            Phase::Listening,
            events,
        ) == Phase::Reading {
            1nat
        } else {
            0nat
        },
    decreases events.len(),
{
    if events.len() > 0 {
        law_one_answer_for_each_connection(events.drop_last());
    }
}

} // verus!
