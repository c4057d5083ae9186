//! The life cycle of a connection that asks for a tunnel.
//!
//! The connection's handler performs the outside work: it dials, writes
//! responses and copies bytes. After each piece of work it reports what
//! happened as a `TunnelEvent`; `step` answers with the state reached and
//! the next piece of work, a `TunnelAction`.

use crate::classify::{ProxyDecision, RejectReason};
use crate::response::{
    create_response, rejection_status, response_view, status_only, Response, ResponseView,
    BAD_GATEWAY, OK,
};
use vstd::prelude::*;

verus! {

/// How far the handling of the connection has come.
#[derive(Clone, Copy, Debug, PartialEq, Eq, Structural)]
pub enum TunnelState {
    /// The request has been read.
    Received,
    /// The request has been classified; `granted` tells whether it may have
    /// its tunnel.
    AccessChecked { granted: bool },
    /// The target has been dialed; `connected` tells whether that succeeded.
    UpstreamDialed { connected: bool },
    /// The client has been told that its tunnel is open.
    Upgraded,
    /// Bytes are copied between client and upstream.
    Relaying,
    /// Both sockets are closed. Nothing follows.
    Closed,
}

/// Why the relay stopped.
#[derive(Clone, Copy, Debug, PartialEq, Eq, Structural)]
pub enum RelayEnd {
    /// The client's side reached the end of its stream.
    ClientClosed,
    /// The upstream's side reached the end of its stream.
    UpstreamClosed,
    /// A read or a write failed.
    Failed,
}

/// What the handler reports.
#[derive(Clone, Copy, Debug, PartialEq, Eq, Structural)]
pub enum TunnelEvent {
    /// The classifier gave its verdict on the request.
    Decided(ProxyDecision),
    /// The dial ended.
    Dialed { connected: bool },
    /// The response asked for has been written to the client.
    ResponseWritten,
    /// The copying has begun.
    RelayStarted,
    /// The copying has stopped.
    RelayEnded(RelayEnd),
}

/// What the handler is to do next.
#[derive(Clone, Copy, Debug, PartialEq, Eq, Structural)]
pub enum TunnelAction {
    /// Write a response with this status and no body, then report
    /// `ResponseWritten`.
    Respond(u16),
    /// Dial the target's authority, then report `Dialed`.
    Dial,
    /// Write the response that opens the tunnel, then report
    /// `ResponseWritten`. No response is written after it.
    Upgrade,
    /// Start copying bytes in both directions, then report `RelayStarted`.
    Relay,
    /// Wait for either direction to end, then report `RelayEnded`.
    Await,
    /// Close both sockets; with `report`, put the failure on record.
    Close { report: bool },
}

/// The state reached and the work asked for when an event is reported in a
/// state, or `None` where the event cannot occur in that state.
pub open spec fn transition(state: TunnelState, event: TunnelEvent) -> Option<
    (TunnelState, TunnelAction),
> {
    match (state, event) {
        (TunnelState::Received, TunnelEvent::Decided(ProxyDecision::Tunnel)) => Some(
            (TunnelState::AccessChecked { granted: true }, TunnelAction::Dial),
        ),
        (TunnelState::Received, TunnelEvent::Decided(ProxyDecision::Reject(reason))) => Some(
            (
                TunnelState::AccessChecked { granted: false },
                TunnelAction::Respond(rejection_status(reason)),
            ),
        ),
        (TunnelState::AccessChecked { granted: false }, TunnelEvent::ResponseWritten) => Some(
            (TunnelState::Closed, TunnelAction::Close { report: false }),
        ),
        (TunnelState::AccessChecked { granted: true }, TunnelEvent::Dialed { connected }) => Some(
            (
                TunnelState::UpstreamDialed { connected },
                if connected {
                    TunnelAction::Upgrade
                } else {
                    TunnelAction::Respond(BAD_GATEWAY)
                },
            ),
        ),
        (TunnelState::UpstreamDialed { connected: false }, TunnelEvent::ResponseWritten) => Some(
            (TunnelState::Closed, TunnelAction::Close { report: false }),
        ),
        (TunnelState::UpstreamDialed { connected: true }, TunnelEvent::ResponseWritten) => Some(
            (TunnelState::Upgraded, TunnelAction::Relay),
        ),
        (TunnelState::Upgraded, TunnelEvent::RelayStarted) => Some(
            (TunnelState::Relaying, TunnelAction::Await),
        ),
        (TunnelState::Relaying, TunnelEvent::RelayEnded(end)) => Some(
            (TunnelState::Closed, TunnelAction::Close { report: end == RelayEnd::Failed }),
        ),
        _ => None,
    }
}

/// Takes one step of the life cycle.
pub fn step(state: TunnelState, event: TunnelEvent) -> (next: Option<(TunnelState, TunnelAction)>)
    ensures
        next == transition(state, event),
{
    match (state, event) {
        (TunnelState::Received, TunnelEvent::Decided(ProxyDecision::Tunnel)) => Some(
            (TunnelState::AccessChecked { granted: true }, TunnelAction::Dial),
        ),
        (TunnelState::Received, TunnelEvent::Decided(ProxyDecision::Reject(reason))) => Some(
            (TunnelState::AccessChecked { granted: false }, TunnelAction::Respond(reason.status())),
        ),
        (TunnelState::AccessChecked { granted: false }, TunnelEvent::ResponseWritten) => Some(
            (TunnelState::Closed, TunnelAction::Close { report: false }),
        ),
        (TunnelState::AccessChecked { granted: true }, TunnelEvent::Dialed { connected }) => {
            let action = if connected {
                TunnelAction::Upgrade
            } else {
                TunnelAction::Respond(BAD_GATEWAY)
            };
            Some((TunnelState::UpstreamDialed { connected }, action))
        },
        (TunnelState::UpstreamDialed { connected: false }, TunnelEvent::ResponseWritten) => Some(
            (TunnelState::Closed, TunnelAction::Close { report: false }),
        ),
        (TunnelState::UpstreamDialed { connected: true }, TunnelEvent::ResponseWritten) => Some(
            (TunnelState::Upgraded, TunnelAction::Relay),
        ),
        (TunnelState::Upgraded, TunnelEvent::RelayStarted) => Some(
            (TunnelState::Relaying, TunnelAction::Await),
        ),
        (TunnelState::Relaying, TunnelEvent::RelayEnded(end)) => {
            let report = match end {
                RelayEnd::Failed => true,
                _ => false,
            };
            Some((TunnelState::Closed, TunnelAction::Close { report }))
        },
        _ => None,
    }
}

/// The response that an action puts on the wire, if it puts one there: the
/// status asked for, or the status that opens the tunnel; in both cases
/// without header lines or body.
pub open spec fn response_of(action: TunnelAction) -> Option<ResponseView> {
    match action {
        TunnelAction::Respond(status) => Some(status_only(status)),
        TunnelAction::Upgrade => Some(status_only(OK)),
        _ => None,
    }
}

/// The response to write for an action, if it asks for one.
pub fn response_for(action: TunnelAction) -> (resp: Option<Response>)
    ensures
        response_view(resp) == response_of(action),
{
    match action {
        TunnelAction::Respond(status) => Some(create_response(Vec::new(), status)),
        TunnelAction::Upgrade => Some(create_response(Vec::new(), OK)),
        _ => None,
    }
}

/// The arrows of the life cycle: `Received`, `AccessChecked`,
/// `UpstreamDialed`, `Upgraded`, `Relaying`, `Closed` follow each other in
/// this order; besides, `Closed` follows `AccessChecked` on a rejection and
/// `UpstreamDialed` on a failed dial.
pub open spec fn follows(from: TunnelState, to: TunnelState) -> bool {
    match (from, to) {
        (TunnelState::Received, TunnelState::AccessChecked { .. }) => true,
        (TunnelState::AccessChecked { granted: true }, TunnelState::UpstreamDialed { .. }) => true,
        (TunnelState::AccessChecked { granted: false }, TunnelState::Closed) => true,
        (TunnelState::UpstreamDialed { connected: true }, TunnelState::Upgraded) => true,
        (TunnelState::UpstreamDialed { connected: false }, TunnelState::Closed) => true,
        (TunnelState::Upgraded, TunnelState::Relaying) => true,
        (TunnelState::Relaying, TunnelState::Closed) => true,
        _ => false,
    }
}

/// The most events that can still be reported in a state.
pub open spec fn steps_left(state: TunnelState) -> nat {
    match state {
        TunnelState::Received => 5,
        TunnelState::AccessChecked { .. } => 4,
        TunnelState::UpstreamDialed { .. } => 3,
        TunnelState::Upgraded => 2,
        TunnelState::Relaying => 1,
        TunnelState::Closed => 0,
    }
}

/// The state reached and the work asked for, in order, when the events are
/// reported one after the other from a state; `None` where one of them
/// cannot occur when its turn comes.
pub open spec fn run(state: TunnelState, events: Seq<TunnelEvent>) -> Option<
    (TunnelState, Seq<TunnelAction>),
>
    decreases events.len(),
{
    if events.len() == 0 {
        Some((state, Seq::empty()))
    } else {
        match transition(state, events[0]) {
            None => None,
            Some((next, action)) => match run(next, events.drop_first()) {
                None => None,
                Some((last, actions)) => Some((last, seq![action] + actions)),
            },
        }
    }
}

/// The action writes a response to the client.
pub open spec fn writes_response(action: TunnelAction) -> bool {
    action is Respond || action is Upgrade
}

/// Every step goes along an arrow of the life cycle, and uses up one of the
/// steps left.
pub proof fn lemma_step_follows_life_cycle(state: TunnelState, event: TunnelEvent)
    ensures
        transition(state, event) matches Some((next, _)) ==> follows(state, next) && steps_left(
            next,
        ) < steps_left(state),
{
}

/// Nothing happens on a closed connection.
pub proof fn lemma_closed_is_final(event: TunnelEvent)
    ensures
        transition(TunnelState::Closed, event) is None,
{
}

/// When the copying stops, for whatever reason, the next state is `Closed`
/// and both sockets are closed; the end is put on record exactly if a read or
/// write failed.
pub proof fn lemma_relay_end_closes(end: RelayEnd)
    ensures
        transition(TunnelState::Relaying, TunnelEvent::RelayEnded(end)) == Some(
            (TunnelState::Closed, TunnelAction::Close { report: end == RelayEnd::Failed }),
        ),
{
}

/// A run yields one action for each event.
pub proof fn lemma_run_actions(state: TunnelState, events: Seq<TunnelEvent>)
    ensures
        run(state, events) matches Some((_, actions)) ==> actions.len() == events.len(),
    decreases events.len(),
{
    if events.len() > 0 {
        if let Some((next, _)) = transition(state, events[0]) {
            lemma_run_actions(next, events.drop_first());
        }
    }
}

/// No run is longer than the steps left in the state it starts from: the
/// handling of a connection ends after at most five events.
pub proof fn lemma_run_is_bounded(state: TunnelState, events: Seq<TunnelEvent>)
    ensures
        run(state, events) matches Some((last, _)) ==> events.len() + steps_left(last)
            <= steps_left(state),
    decreases events.len(),
{
    if events.len() > 0 {
        if let Some((next, _)) = transition(state, events[0]) {
            lemma_run_is_bounded(next, events.drop_first());
        }
    }
}

/// What a run from `Received` can look like: it is the beginning of the
/// handling of a rejected request, of one whose dial failed, or of one whose
/// tunnel was opened.
spec fn on_a_path(events: Seq<TunnelEvent>, last: TunnelState, actions: Seq<TunnelAction>) -> bool {
    let n = events.len();
    &&& actions.len() == n
    &&& n <= 5
    &&& n == 0 ==> last == TunnelState::Received
    &&& n >= 1 ==> {
        ||| events[0] matches TunnelEvent::Decided(ProxyDecision::Reject(reason)) && {
            &&& actions[0] == TunnelAction::Respond(rejection_status(reason))
            &&& n <= 2
            &&& n == 1 ==> last == (TunnelState::AccessChecked { granted: false })
            &&& n == 2 ==> last == TunnelState::Closed
            &&& n >= 2 ==> events[1] == TunnelEvent::ResponseWritten && actions[1]
                == (TunnelAction::Close { report: false })
        }
        ||| events[0] == TunnelEvent::Decided(ProxyDecision::Tunnel) && {
            &&& actions[0] == TunnelAction::Dial
            &&& n == 1 ==> last == (TunnelState::AccessChecked { granted: true })
            &&& n >= 2 ==> {
                ||| events[1] == (TunnelEvent::Dialed { connected: false }) && {
                    &&& actions[1] == TunnelAction::Respond(BAD_GATEWAY)
                    &&& n <= 3
                    &&& n == 2 ==> last == (TunnelState::UpstreamDialed { connected: false })
                    &&& n == 3 ==> last == TunnelState::Closed
                    &&& n >= 3 ==> events[2] == TunnelEvent::ResponseWritten && actions[2]
                        == (TunnelAction::Close { report: false })
                }
                ||| events[1] == (TunnelEvent::Dialed { connected: true }) && {
                    &&& actions[1] == TunnelAction::Upgrade
                    &&& n == 2 ==> last == (TunnelState::UpstreamDialed { connected: true })
                    &&& n == 3 ==> last == TunnelState::Upgraded
                    &&& n == 4 ==> last == TunnelState::Relaying
                    &&& n == 5 ==> last == TunnelState::Closed
                    &&& n >= 3 ==> events[2] == TunnelEvent::ResponseWritten && actions[2]
                        == TunnelAction::Relay
                    &&& n >= 4 ==> events[3] == TunnelEvent::RelayStarted && actions[3]
                        == TunnelAction::Await
                    &&& n >= 5 ==> (events[4] matches TunnelEvent::RelayEnded(end) && actions[4]
                        == (TunnelAction::Close { report: end == RelayEnd::Failed }))
                }
            }
        }
    }
}

proof fn lemma_run_from_received(events: Seq<TunnelEvent>)
    ensures
        run(TunnelState::Received, events) matches Some((last, actions)) ==> on_a_path(
            events,
            last,
            actions,
        ),
{
    if let Some((last, actions)) = run(TunnelState::Received, events) {
        lemma_run_actions(TunnelState::Received, events);
        lemma_run_is_bounded(TunnelState::Received, events);
        let e1 = events.drop_first();
        let e2 = e1.drop_first();
        let e3 = e2.drop_first();
        let e4 = e3.drop_first();
        if events.len() >= 1 {
            let (s1, a0) = transition(TunnelState::Received, events[0]).unwrap();
            let (_, r1) = run(s1, e1).unwrap();
            assert(actions == seq![a0] + r1);
            assert(actions[0] == a0);
            if events.len() >= 2 {
                assert(e1[0] == events[1]);
                let (s2, a1) = transition(s1, e1[0]).unwrap();
                let (_, r2) = run(s2, e2).unwrap();
                assert(r1 == seq![a1] + r2);
                assert(actions[1] == a1);
                if events.len() >= 3 {
                    assert(e2[0] == events[2]);
                    let (s3, a2) = transition(s2, e2[0]).unwrap();
                    let (_, r3) = run(s3, e3).unwrap();
                    assert(r2 == seq![a2] + r3);
                    assert(actions[2] == a2);
                    if events.len() >= 4 {
                        assert(e3[0] == events[3]);
                        let (s4, a3) = transition(s3, e3[0]).unwrap();
                        let (_, r4) = run(s4, e4).unwrap();
                        assert(r3 == seq![a3] + r4);
                        assert(actions[3] == a3);
                        if events.len() >= 5 {
                            assert(e4[0] == events[4]);
                            let (s5, a4) = transition(s4, e4[0]).unwrap();
                            let (_, r5) = run(s5, e4.drop_first()).unwrap();
                            assert(r4 == seq![a4] + r5);
                            assert(actions[4] == a4);
                        }
                    }
                }
            }
        }
    }
}

/// In the handling of a connection at most one response is written to the
/// client: a rejection, a 502, or the response that opens the tunnel. Once
/// the tunnel is open, no response follows.
pub proof fn lemma_one_response(events: Seq<TunnelEvent>, i: int, j: int)
    requires
        run(TunnelState::Received, events) is Some,
        0 <= i < j < events.len(),
    ensures
        ({
            let actions = run(TunnelState::Received, events).unwrap().1;
            !(writes_response(actions[i]) && writes_response(actions[j]))
        }),
{
    lemma_run_from_received(events);
}

/// The handling of a connection that has come to its end has written exactly
/// one response: a rejection, a 502, or the response that opened the tunnel.
/// The sockets are closed by the last action, and by no other.
pub proof fn lemma_closed_run_has_one_outcome(events: Seq<TunnelEvent>)
    requires
        run(TunnelState::Received, events) matches Some((last, _)) && last == TunnelState::Closed,
    ensures
        ({
            let actions = run(TunnelState::Received, events).unwrap().1;
            &&& events.len() >= 2
            &&& exists|i: int|
                0 <= i < events.len() && #[trigger] writes_response(actions[i]) && forall|j: int|
                    0 <= j < events.len() && j != i ==> !writes_response(#[trigger] actions[j])
            &&& actions.last() is Close
            &&& forall|j: int| 0 <= j < events.len() - 1 ==> !(#[trigger] actions[j] is Close)
        }),
{
    lemma_run_from_received(events);
    let actions = run(TunnelState::Received, events).unwrap().1;
    let i = if events[0] is Decided && events[0]->Decided_0 is Reject {
        0int
    } else {
        1int
    };
    assert(writes_response(actions[i]));
}

/// The target is dialed at most once, and only as the first action for a
/// request that was granted its tunnel.
pub proof fn lemma_one_dial(events: Seq<TunnelEvent>, i: int)
    requires
        run(TunnelState::Received, events) is Some,
        0 <= i < events.len(),
    ensures
        ({
            let actions = run(TunnelState::Received, events).unwrap().1;
            actions[i] is Dial ==> i == 0 && events[0] == TunnelEvent::Decided(
                ProxyDecision::Tunnel,
            )
        }),
{
    lemma_run_from_received(events);
}

/// A rejected request is answered with the status of its rejection, and
/// nothing else is done for it but to close: no dial, no tunnel, no relay.
pub proof fn lemma_rejection_dials_nothing(
    events: Seq<TunnelEvent>,
    reason: RejectReason,
    i: int,
)
    requires
        run(TunnelState::Received, events) is Some,
        0 <= i < events.len(),
        events[0] == TunnelEvent::Decided(ProxyDecision::Reject(reason)),
    ensures
        ({
            let actions = run(TunnelState::Received, events).unwrap().1;
            &&& actions[0] == TunnelAction::Respond(rejection_status(reason))
            &&& !(actions[i] is Dial)
            &&& !(actions[i] is Upgrade)
            &&& !(actions[i] is Relay)
            &&& i > 0 ==> actions[i] == (TunnelAction::Close { report: false })
        }),
{
    lemma_run_from_received(events);
}

/// Where the dial fails, the client is answered with status 502, and the
/// tunnel is never opened: no opening response, no relay.
pub proof fn lemma_failed_dial_is_bad_gateway(events: Seq<TunnelEvent>, i: int)
    requires
        run(TunnelState::Received, events) is Some,
        0 <= i < events.len(),
        events.len() >= 2,
        events[1] == (TunnelEvent::Dialed { connected: false }),
    ensures
        ({
            let actions = run(TunnelState::Received, events).unwrap().1;
            &&& actions[1] == TunnelAction::Respond(BAD_GATEWAY)
            &&& !(actions[i] is Upgrade)
            &&& !(actions[i] is Relay)
        }),
{
    lemma_run_from_received(events);
}

/// Bytes are relayed only on a connection whose request was granted its
/// tunnel, whose dial succeeded and whose client has been told so, in this
/// order.
pub proof fn lemma_relay_needs_open_tunnel(events: Seq<TunnelEvent>, i: int)
    requires
        run(TunnelState::Received, events) is Some,
        0 <= i < events.len(),
        run(TunnelState::Received, events).unwrap().1[i] is Relay,
    ensures
        ({
            let actions = run(TunnelState::Received, events).unwrap().1;
            &&& i == 2
            &&& events[0] == TunnelEvent::Decided(ProxyDecision::Tunnel)
            &&& events[1] == (TunnelEvent::Dialed { connected: true })
            &&& events[2] == TunnelEvent::ResponseWritten
            &&& actions[0] == TunnelAction::Dial
            &&& actions[1] == TunnelAction::Upgrade
        }),
{
    lemma_run_from_received(events);
}

} // verus!
