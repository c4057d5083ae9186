//! The connection acceptor: what happens at start-up and after each attempt
//! to accept a connection.

use vstd::prelude::*;

verus! {

/// How far the acceptor has come.
#[derive(Clone, Copy, Debug, PartialEq, Eq, Structural)]
pub enum AcceptorState {
    /// The access list is being loaded.
    Loading,
    /// The listen address is being bound.
    Binding,
    /// Connections are accepted.
    Serving,
    /// Start-up failed. Nothing follows.
    Failed,
}

/// What the acceptor's loop reports.
#[derive(Clone, Copy, Debug, PartialEq, Eq, Structural)]
pub enum AcceptorEvent {
    /// The access list has been read.
    ListLoaded,
    /// The source of the access list could not be read.
    ListMissing,
    /// The listen address has been bound.
    Bound,
    /// The listen address could not be bound.
    BindFailed,
    /// A connection has been accepted.
    Accepted,
    /// An attempt to accept a connection failed.
    AcceptFailed,
}

/// What the acceptor's loop is to do next.
#[derive(Clone, Copy, Debug, PartialEq, Eq, Structural)]
pub enum AcceptorAction {
    /// Bind the listen address.
    Bind,
    /// Wait for a connection.
    Accept,
    /// Hand the accepted connection to a handling unit of its own, without
    /// waiting for it, and wait for the next connection.
    Serve,
    /// Put the failure on record and wait for the next connection.
    Report,
    /// Give up: the process cannot serve.
    Abort,
}

/// The state reached and the work asked for when an event is reported in a
/// state, or `None` where the event cannot occur in that state.
pub open spec fn transition(state: AcceptorState, event: AcceptorEvent) -> Option<
    (AcceptorState, AcceptorAction),
> {
    match (state, event) {
        (AcceptorState::Loading, AcceptorEvent::ListLoaded) => Some(
            (AcceptorState::Binding, AcceptorAction::Bind),
        ),
        (AcceptorState::Loading, AcceptorEvent::ListMissing) => Some(
            (AcceptorState::Failed, AcceptorAction::Abort),
        ),
        (AcceptorState::Binding, AcceptorEvent::Bound) => Some(
            (AcceptorState::Serving, AcceptorAction::Accept),
        ),
        (AcceptorState::Binding, AcceptorEvent::BindFailed) => Some(
            (AcceptorState::Failed, AcceptorAction::Abort),
        ),
        (AcceptorState::Serving, AcceptorEvent::Accepted) => Some(
            (AcceptorState::Serving, AcceptorAction::Serve),
        ),
        (AcceptorState::Serving, AcceptorEvent::AcceptFailed) => Some(
            (AcceptorState::Serving, AcceptorAction::Report),
        ),
        _ => None,
    }
}

/// Takes one step of the acceptor.
pub fn step(state: AcceptorState, event: AcceptorEvent) -> (next: Option<
    (AcceptorState, AcceptorAction),
>)
    ensures
        next == transition(state, event),
{
    match (state, event) {
        (AcceptorState::Loading, AcceptorEvent::ListLoaded) => Some(
            (AcceptorState::Binding, AcceptorAction::Bind),
        ),
        (AcceptorState::Loading, AcceptorEvent::ListMissing) => Some(
            (AcceptorState::Failed, AcceptorAction::Abort),
        ),
        (AcceptorState::Binding, AcceptorEvent::Bound) => Some(
            (AcceptorState::Serving, AcceptorAction::Accept),
        ),
        (AcceptorState::Binding, AcceptorEvent::BindFailed) => Some(
            (AcceptorState::Failed, AcceptorAction::Abort),
        ),
        (AcceptorState::Serving, AcceptorEvent::Accepted) => Some(
            (AcceptorState::Serving, AcceptorAction::Serve),
        ),
        (AcceptorState::Serving, AcceptorEvent::AcceptFailed) => Some(
            (AcceptorState::Serving, AcceptorAction::Report),
        ),
        _ => None,
    }
}

/// The state reached and the work asked for, in order, when the events are
/// reported one after the other from a state; `None` where one of them
/// cannot occur when its turn comes.
pub open spec fn run(state: AcceptorState, events: Seq<AcceptorEvent>) -> Option<
    (AcceptorState, Seq<AcceptorAction>),
>
    decreases events.len(),
{
    if events.len() == 0 {
        Some((state, Seq::empty()))
    } else {
        match transition(state, events[0]) {
            None => None,
            Some((next, action)) => match run(next, events.drop_first()) {
                None => None,
                Some((last, actions)) => Some((last, seq![action] + actions)),
            },
        }
    }
}

/// Once the acceptor serves, it serves for good: whatever is reported, it
/// never gives up. Each accepted connection gets its handling unit, each
/// failed attempt is put on record, and the next connection is waited for.
pub proof fn lemma_serving_never_stops(events: Seq<AcceptorEvent>, i: int)
    requires
        run(AcceptorState::Serving, events) is Some,
        0 <= i < events.len(),
    ensures
        ({
            let (last, actions) = run(AcceptorState::Serving, events).unwrap();
            &&& last == AcceptorState::Serving
            &&& actions.len() == events.len()
            &&& events[i] == AcceptorEvent::Accepted ==> actions[i] == AcceptorAction::Serve
            &&& events[i] == AcceptorEvent::AcceptFailed ==> actions[i] == AcceptorAction::Report
            &&& events[i] == AcceptorEvent::Accepted || events[i] == AcceptorEvent::AcceptFailed
        }),
    decreases events.len(),
{
    let (next, action) = transition(AcceptorState::Serving, events[0]).unwrap();
    let rest = events.drop_first();
    let (last, actions) = run(next, rest).unwrap();
    assert(run(AcceptorState::Serving, events).unwrap().1 == seq![action] + actions);
    if rest.len() > 0 {
        if i > 0 {
            lemma_serving_never_stops(rest, i - 1);
            assert(rest[i - 1] == events[i]);
        } else {
            lemma_serving_never_stops(rest, 0);
        }
    }
}

/// The acceptor gives up only at start-up: where the access list cannot be
/// read, or where the listen address cannot be bound.
pub proof fn lemma_only_startup_is_fatal(state: AcceptorState, event: AcceptorEvent)
    ensures
        transition(state, event) matches Some((next, action)) ==> (action == AcceptorAction::Abort
            <==> next == AcceptorState::Failed),
        transition(state, event) matches Some((next, _)) ==> (next == AcceptorState::Failed <==> (
        state == AcceptorState::Loading && event == AcceptorEvent::ListMissing) || (state
            == AcceptorState::Binding && event == AcceptorEvent::BindFailed)),
        transition(AcceptorState::Failed, event) is None,
{
}

} // verus!
