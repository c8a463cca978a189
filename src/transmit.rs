use vstd::prelude::*;

verus! {

/// Pause before the socket is set up again after a failure, in milliseconds.
pub const RETRY_DELAY_MS: u64 = 1000;

/// Where the socket to the lighting controller stands.
#[derive(Debug, Clone, Copy, PartialEq, Eq)]
pub enum LinkState {
    /// No socket yet, or the last one was given up.
    Unbound,
    /// Bound to the local endpoint, not yet connected.
    Bound,
    /// Connected: packets can be sent.
    Connected,
}

/// The outcome of the step the transmission layer last took.
#[derive(Debug, Clone, Copy, PartialEq, Eq)]
pub enum LinkEvent {
    BindSucceeded,
    BindFailed,
    ConnectSucceeded,
    ConnectFailed,
    SendSucceeded,
    SendFailed,
}

/// What the transmission layer does next.
#[derive(Debug, Clone, Copy, PartialEq, Eq)]
pub enum LinkAction {
    /// Bind a socket to the local endpoint.
    Bind,
    /// Connect the bound socket to the controller.
    Connect,
    /// Wait `RETRY_DELAY_MS`, then bind and connect again from the start.
    RetryLater,
    /// Send the packets of the current frame.
    Transmit,
}

/// The step the transmission layer takes in `state` when nothing new happened.
pub open spec fn resume(state: LinkState) -> LinkAction {
    match state {
        LinkState::Unbound => LinkAction::Bind,
        LinkState::Bound => LinkAction::Connect,
        LinkState::Connected => LinkAction::Transmit,
    }
}

/// Bind and connect are retried as one unit after a fixed delay, forever; a
/// failed send is transient and leaves the connection as it is. An event that
/// does not belong to the state changes nothing.
pub open spec fn link_next(state: LinkState, event: LinkEvent) -> (LinkState, LinkAction) {
    match (state, event) {
        (LinkState::Unbound, LinkEvent::BindSucceeded) => (LinkState::Bound, LinkAction::Connect),
        (LinkState::Unbound, LinkEvent::BindFailed) => (LinkState::Unbound, LinkAction::RetryLater),
        (LinkState::Bound, LinkEvent::ConnectSucceeded) => (
            LinkState::Connected,
            LinkAction::Transmit,
        ),
        (LinkState::Bound, LinkEvent::ConnectFailed) => (LinkState::Unbound, LinkAction::RetryLater),
        (LinkState::Connected, LinkEvent::SendSucceeded) => (
            LinkState::Connected,
            LinkAction::Transmit,
        ),
        (LinkState::Connected, LinkEvent::SendFailed) => (
            LinkState::Connected,
            LinkAction::Transmit,
        ),
        _ => (state, resume(state)),
    }
}

/// The next state and action of the transmission layer after `event`.
pub fn link_step(state: LinkState, event: LinkEvent) -> (r: (LinkState, LinkAction))
    ensures
        r == link_next(state, event),
{
    match (state, event) {
        (LinkState::Unbound, LinkEvent::BindSucceeded) => (LinkState::Bound, LinkAction::Connect),
        (LinkState::Unbound, LinkEvent::BindFailed) => (LinkState::Unbound, LinkAction::RetryLater),
        (LinkState::Bound, LinkEvent::ConnectSucceeded) => (
            LinkState::Connected,
            LinkAction::Transmit,
        ),
        (LinkState::Bound, LinkEvent::ConnectFailed) => (LinkState::Unbound, LinkAction::RetryLater),
        (LinkState::Connected, LinkEvent::SendSucceeded) => (
            LinkState::Connected,
            LinkAction::Transmit,
        ),
        (LinkState::Connected, LinkEvent::SendFailed) => (
            LinkState::Connected,
            LinkAction::Transmit,
        ),
        (LinkState::Unbound, _) => (LinkState::Unbound, LinkAction::Bind),
        (LinkState::Bound, _) => (LinkState::Bound, LinkAction::Connect),
        (LinkState::Connected, _) => (LinkState::Connected, LinkAction::Transmit),
    }
}

} // verus!
