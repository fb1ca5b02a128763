//! The forwarding loop and the life of one connection.
//!
//! The loop takes connections from the tunnel one at a time, in the order
//! in which the tunnel yields them, and ends only when the tunnel does.
//! What happens to a connection after it was taken never reaches the loop:
//! each connection runs through its own life,
//!
//! ```text
//! Accepted -> Dialing -> Relaying | Degraded -> Closed
//! ```
//!
//! and a dial that fails ends that life, not the loop.

use vstd::prelude::*;

use crate::error::{source_unavailable, FailureKind, ForwardError, ForwardErrorView};
use crate::gateway::{
    carries_http,
    degraded,
    gateway_error_for,
    on_err,
    Degradation,
    DegradationView,
    GatewayError,
    GatewayErrorView,
};
use crate::relay::{RelayOutcome, RelayOutcomeView};

verus! {

/// What the tunnel gave when it was asked for the next connection.
#[derive(Clone, Debug, PartialEq, Eq)]
pub enum SourceEvent {
    /// A connection.
    Connection,
    /// Nothing more: the tunnel has ended.
    Exhausted,
    /// An error of its own, with its text.
    Failed { message: String },
}

/// The mathematical value of a [`SourceEvent`].
pub enum SourceEventView {
    Connection,
    Exhausted,
    Failed { message: Seq<char> },
}

impl View for SourceEvent {
    type V = SourceEventView;

    open spec fn view(&self) -> SourceEventView {
        match self {
            SourceEvent::Connection => SourceEventView::Connection,
            SourceEvent::Exhausted => SourceEventView::Exhausted,
            SourceEvent::Failed { message } => SourceEventView::Failed { message: message@ },
        }
    }
}

/// What the loop does after it has asked the tunnel.
#[derive(Clone, Debug, PartialEq, Eq)]
pub enum Turn {
    /// Hand the connection to a unit of work of its own and ask again.
    Handle,
    /// Return successfully.
    Finish,
    /// Return the failure.
    Fail(ForwardError),
}

/// The mathematical value of a [`Turn`].
pub enum TurnView {
    Handle,
    Finish,
    Fail(ForwardErrorView),
}

impl View for Turn {
    type V = TurnView;

    open spec fn view(&self) -> TurnView {
        match self {
            Turn::Handle => TurnView::Handle,
            Turn::Finish => TurnView::Finish,
            Turn::Fail(e) => TurnView::Fail(e@),
        }
    }
}

/// The turn that follows an answer of the tunnel.
pub open spec fn turn_for(event: SourceEventView) -> TurnView {
    match event {
        SourceEventView::Connection => TurnView::Handle,
        SourceEventView::Exhausted => TurnView::Finish,
        SourceEventView::Failed { message } => TurnView::Fail(source_unavailable(message)),
    }
}

/// Decides the turn that follows an answer of the tunnel.
pub fn on_source(event: SourceEvent) -> (turn: Turn)
    ensures
        turn@ == turn_for(event@),
{
    match event {
        SourceEvent::Connection => Turn::Handle,
        SourceEvent::Exhausted => Turn::Finish,
        SourceEvent::Failed { message } => Turn::Fail(
            ForwardError { kind: FailureKind::SourceUnavailable, message },
        ),
    }
}

/// What the loop has come to after a row of answers of the tunnel.
pub struct LoopRun {
    /// What the loop has returned, if it has: `Ok` or the failure.
    pub returned: Option<Result<(), ForwardErrorView>>,
    /// The number of connections that were handed on.
    pub handled: nat,
}

/// Runs the loop on the answers of the tunnel, one after another, until it
/// returns. Answers that are left over then are not looked at.
pub open spec fn loop_run(events: Seq<SourceEventView>) -> LoopRun
    decreases events.len(),
{
    if events.len() == 0 {
        LoopRun { returned: None, handled: 0 }
    } else {
        match turn_for(events[0]) {
            TurnView::Handle => {
                let rest = loop_run(events.drop_first());
                LoopRun { returned: rest.returned, handled: rest.handled + 1 }
            },
            TurnView::Finish => LoopRun { returned: Some(Ok(())), handled: 0 },
            TurnView::Fail(e) => LoopRun { returned: Some(Err(e)), handled: 0 },
        }
    }
}

/// Whether the tunnel gave a connection each time.
pub open spec fn all_connections(events: Seq<SourceEventView>) -> bool {
    forall|i: int| 0 <= i < events.len() ==> events[i] is Connection
}

/// The loop goes on for as long as the tunnel gives connections, and hands
/// on every one of them. It returns when the tunnel has ended, with
/// success, or has failed, with that failure as `SourceUnavailable`.
/// Nothing else makes it return: what becomes of a connection is no input
/// of the loop.
pub proof fn law_loop_ends_with_the_tunnel(connections: Seq<SourceEventView>, last: SourceEventView)
    requires
        all_connections(connections),
    ensures
        loop_run(connections) == (LoopRun { returned: None, handled: connections.len() }),
        loop_run(connections.push(last)) == (LoopRun {
            returned: match last {
                SourceEventView::Connection => None,
                SourceEventView::Exhausted => Some(Ok(())),
                SourceEventView::Failed { message } => Some(Err(source_unavailable(message))),
            },
            handled: connections.len() + if last is Connection {
                1nat
            } else {
                0nat
            },
        }),
    decreases connections.len(),
{
    let events = connections.push(last);
    if connections.len() == 0 {
        assert(events[0] == last);
        assert(loop_run(events.drop_first()) == (LoopRun { returned: None, handled: 0 }));
    } else {
        let rest = connections.drop_first();
        assert(events[0] == connections[0]);
        assert(events.drop_first() =~= rest.push(last));
        law_loop_ends_with_the_tunnel(rest, last);
    }
}

/// Where a connection stands in its life.
#[derive(Clone, Copy, Debug, PartialEq, Eq, Structural)]
pub enum ConnState {
    /// Taken from the tunnel.
    Accepted,
    /// The destination is being dialed.
    Dialing,
    /// Bytes are relayed between the two legs.
    Relaying,
    /// The dial failed and the response that says so is being served.
    Degraded,
    /// Both legs are closed.
    Closed,
}

/// What happened to a connection.
#[derive(Clone, Debug, PartialEq, Eq)]
pub enum ConnEvent {
    /// Its unit of work has started.
    Started,
    /// The dial has established the local connection.
    Dialed,
    /// The destination could not be resolved or dialed.
    DialFailed(ForwardError),
    /// The relay has ended.
    RelayEnded(RelayOutcome),
    /// The response was served.
    Responded,
}

/// The mathematical value of a [`ConnEvent`].
pub enum ConnEventView {
    Started,
    Dialed,
    DialFailed(ForwardErrorView),
    RelayEnded(RelayOutcomeView),
    Responded,
}

impl View for ConnEvent {
    type V = ConnEventView;

    open spec fn view(&self) -> ConnEventView {
        match self {
            ConnEvent::Started => ConnEventView::Started,
            ConnEvent::Dialed => ConnEventView::Dialed,
            ConnEvent::DialFailed(e) => ConnEventView::DialFailed(e@),
            ConnEvent::RelayEnded(o) => ConnEventView::RelayEnded(o@),
            ConnEvent::Responded => ConnEventView::Responded,
        }
    }
}

/// What is done for a connection next.
#[derive(Clone, Debug, PartialEq, Eq)]
pub enum ConnAction {
    /// Resolve the destination and dial it.
    Dial,
    /// Relay between the tunnel leg and the local leg.
    Relay,
    /// Serve the response on the tunnel leg.
    Respond(GatewayError),
    /// Close what is open.
    Close,
}

/// The mathematical value of a [`ConnAction`].
pub enum ConnActionView {
    Dial,
    Relay,
    Respond(GatewayErrorView),
    Close,
}

impl View for ConnAction {
    type V = ConnActionView;

    open spec fn view(&self) -> ConnActionView {
        match self {
            ConnAction::Dial => ConnActionView::Dial,
            ConnAction::Relay => ConnActionView::Relay,
            ConnAction::Respond(r) => ConnActionView::Respond(r@),
            ConnAction::Close => ConnActionView::Close,
        }
    }
}

/// A step in the life of a connection: the state it is in now, and what is
/// done next.
#[derive(Clone, Debug, PartialEq, Eq)]
pub struct Transition {
    pub state: ConnState,
    pub action: ConnAction,
}

/// The mathematical value of a [`Transition`].
pub struct TransitionView {
    pub state: ConnState,
    pub action: ConnActionView,
}

impl View for Transition {
    type V = TransitionView;

    open spec fn view(&self) -> TransitionView {
        TransitionView { state: self.state, action: self.action@ }
    }
}

/// The step that `event` makes a connection of protocol `proto` take from
/// `state`; `None` where the event has no place in that state.
pub open spec fn advanced(state: ConnState, proto: Seq<char>, event: ConnEventView) -> Option<
    TransitionView,
> {
    match (state, event) {
        (ConnState::Accepted, ConnEventView::Started) => Some(
            TransitionView { state: ConnState::Dialing, action: ConnActionView::Dial },
        ),
        (ConnState::Dialing, ConnEventView::Dialed) => Some(
            TransitionView { state: ConnState::Relaying, action: ConnActionView::Relay },
        ),
        (ConnState::Dialing, ConnEventView::DialFailed(error)) => match degraded(proto, error) {
            DegradationView::Respond(response) => Some(
                TransitionView {
                    state: ConnState::Degraded,
                    action: ConnActionView::Respond(response),
                },
            ),
            DegradationView::Drop => Some(
                TransitionView { state: ConnState::Closed, action: ConnActionView::Close },
            ),
        },
        (ConnState::Relaying, ConnEventView::RelayEnded(_)) => Some(
            TransitionView { state: ConnState::Closed, action: ConnActionView::Close },
        ),
        (ConnState::Degraded, ConnEventView::Responded) => Some(
            TransitionView { state: ConnState::Closed, action: ConnActionView::Close },
        ),
        _ => None,
    }
}

/// How far a connection has come: the number of steps that lie behind a
/// state at the least.
pub open spec fn rank(state: ConnState) -> nat {
    match state {
        ConnState::Accepted => 0,
        ConnState::Dialing => 1,
        ConnState::Relaying => 2,
        ConnState::Degraded => 2,
        ConnState::Closed => 3,
    }
}

/// The state of a connection of protocol `proto` that was in `state` and
/// to which `events` happened in that order; `None` where one of them had
/// no place in the state that the connection was in when it came.
pub open spec fn lifecycle(state: ConnState, proto: Seq<char>, events: Seq<ConnEventView>) -> Option<
    ConnState,
>
    decreases events.len(),
{
    if events.len() == 0 {
        Some(state)
    } else {
        match advanced(state, proto, events[0]) {
            Some(step) => lifecycle(step.state, proto, events.drop_first()),
            None => None,
        }
    }
}

/// No step returns to an earlier state, nor stays in the same: every step
/// takes the connection further.
pub proof fn law_steps_move_forward(state: ConnState, proto: Seq<char>, event: ConnEventView)
    requires
        advanced(state, proto, event) is Some,
    ensures
        rank(advanced(state, proto, event)->0.state) > rank(state),
{
}

/// A closed connection stays closed: no event has a place in that state.
pub proof fn law_closed_is_final(proto: Seq<char>, event: ConnEventView)
    ensures
        advanced(ConnState::Closed, proto, event) is None,
{
}

/// A connection that is not closed can always take a step.
pub proof fn law_open_connection_proceeds(state: ConnState, proto: Seq<char>)
    requires
        state != ConnState::Closed,
    ensures
        exists|event: ConnEventView| advanced(state, proto, event) is Some,
{
    let event = match state {
        ConnState::Accepted => ConnEventView::Started,
        ConnState::Dialing => ConnEventView::Dialed,
        ConnState::Relaying => ConnEventView::RelayEnded(
            RelayOutcomeView::Closed { from_tunnel: 0, from_local: 0 },
        ),
        _ => ConnEventView::Responded,
    };
    assert(advanced(state, proto, event) is Some);
}

/// Every path ends in `Closed`: a life has three steps at the most, and
/// one of three steps from `Accepted` has arrived there.
pub proof fn law_life_ends_closed(state: ConnState, proto: Seq<char>, events: Seq<ConnEventView>)
    requires
        lifecycle(state, proto, events) is Some,
    ensures
        rank(lifecycle(state, proto, events)->0) >= rank(state) + events.len(),
        rank(state) + events.len() <= 3,
        rank(state) + events.len() == 3 ==> lifecycle(state, proto, events)->0
            == ConnState::Closed,
    decreases events.len(),
{
    if events.len() > 0 {
        let step = advanced(state, proto, events[0])->0;
        law_steps_move_forward(state, proto, events[0]);
        law_life_ends_closed(step.state, proto, events.drop_first());
    }
}

/// A dial that fails is the end of the connection and of nothing else. A
/// connection that carries HTTP is answered with the one response, whose
/// status is 502 and whose body tells the failure; any other is closed at
/// once.
pub proof fn law_failed_dial_degrades(proto: Seq<char>, error: ForwardErrorView)
    ensures
        carries_http(proto) ==> advanced(ConnState::Dialing, proto, ConnEventView::DialFailed(error))
            == Some(
            TransitionView {
                state: ConnState::Degraded,
                action: ConnActionView::Respond(gateway_error_for(error)),
            },
        ),
        !carries_http(proto) ==> advanced(
            ConnState::Dialing,
            proto,
            ConnEventView::DialFailed(error),
        ) == Some(TransitionView { state: ConnState::Closed, action: ConnActionView::Close }),
        gateway_error_for(error).status == 502,
        !gateway_error_for(error).keep_alive,
        gateway_error_for(error).body == "failed to dial backend: "@ + error.message,
{
}

/// A relay that has ended closes the connection, whether it ran to its end
/// or failed: its failure goes no further.
pub proof fn law_relay_end_closes(proto: Seq<char>, outcome: RelayOutcomeView)
    ensures
        advanced(ConnState::Relaying, proto, ConnEventView::RelayEnded(outcome)) == Some(
            TransitionView { state: ConnState::Closed, action: ConnActionView::Close },
        ),
{
}

/// Moves a connection of protocol `proto` from `state` by `event`.
pub fn advance(state: ConnState, proto: &str, event: ConnEvent) -> (step: Option<Transition>)
    ensures
        match step {
            Some(t) => advanced(state, proto@, event@) == Some(t@),
            None => advanced(state, proto@, event@) is None,
        },
{
    match state {
        ConnState::Accepted => match event {
            ConnEvent::Started => Some(
                Transition { state: ConnState::Dialing, action: ConnAction::Dial },
            ),
            _ => None,
        },
        ConnState::Dialing => match event {
            ConnEvent::Dialed => Some(
                Transition { state: ConnState::Relaying, action: ConnAction::Relay },
            ),
            ConnEvent::DialFailed(error) => match on_err(proto, &error) {
                Degradation::Respond(response) => Some(
                    Transition { state: ConnState::Degraded, action: ConnAction::Respond(response) },
                ),
                Degradation::Drop => Some(
                    Transition { state: ConnState::Closed, action: ConnAction::Close },
                ),
            },
            _ => None,
        },
        ConnState::Relaying => match event {
            ConnEvent::RelayEnded(_) => Some(
                Transition { state: ConnState::Closed, action: ConnAction::Close },
            ),
            _ => None,
        },
        ConnState::Degraded => match event {
            ConnEvent::Responded => Some(
                Transition { state: ConnState::Closed, action: ConnAction::Close },
            ),
            _ => None,
        },
        ConnState::Closed => None,
    }
}

} // verus!
