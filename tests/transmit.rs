use led_matrix::transmit::{link_step, LinkAction, LinkEvent, LinkState};

#[test]
fn bind_then_connect_then_transmit() {
    let (s, a) = link_step(LinkState::Unbound, LinkEvent::BindSucceeded);
    assert_eq!((s, a), (LinkState::Bound, LinkAction::Connect));
    let (s, a) = link_step(s, LinkEvent::ConnectSucceeded);
    assert_eq!((s, a), (LinkState::Connected, LinkAction::Transmit));
}

#[test]
fn failures_retry_from_bind() {
    assert_eq!(
        link_step(LinkState::Unbound, LinkEvent::BindFailed),
        (LinkState::Unbound, LinkAction::RetryLater)
    );
    assert_eq!(
        link_step(LinkState::Bound, LinkEvent::ConnectFailed),
        (LinkState::Unbound, LinkAction::RetryLater)
    );
}

#[test]
fn send_failure_is_transient() {
    assert_eq!(
        link_step(LinkState::Connected, LinkEvent::SendFailed),
        (LinkState::Connected, LinkAction::Transmit)
    );
    assert_eq!(
        link_step(LinkState::Connected, LinkEvent::BindFailed),
        (LinkState::Connected, LinkAction::Transmit)
    );
    assert_eq!(
        link_step(LinkState::Bound, LinkEvent::SendSucceeded),
        (LinkState::Bound, LinkAction::Connect)
    );
}
