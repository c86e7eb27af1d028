use firmware::driver::{listen_port, poll_outcome_needs_log, tick, PollOutcome};
use firmware::session::{Session, SocketStatus, State};

fn status(is_open: bool, may_recv: bool, may_send: bool) -> SocketStatus {
    SocketStatus { is_open, may_recv, may_send }
}

#[test]
fn fixed_listen_port() {
    assert_eq!(listen_port(), 1550);
}

#[test]
fn tick_asks_for_listen_on_closed_socket() {
    let mut s = Session::new();
    let a = tick(&mut s, 0, status(false, false, false), false);
    assert!(a.listen);
    assert!(!a.close);
    assert!(a.message.is_none());
}

#[test]
fn tick_prepares_greeting_after_receive() {
    let mut s = Session::new();
    let a = tick(&mut s, 1234, status(true, true, true), true);
    assert!(!a.listen);
    assert!(!a.close);
    let message = a.message.expect("a send is pending");
    assert_eq!(message, b"Hello! Current timestamp: 1234".to_vec());
    assert_eq!(s.state(), State::SendingMessage);

    let close = s.finish_send(true);
    assert!(!close);
    assert_eq!(s.state(), State::Idle);
}

#[test]
fn tick_on_disconnect_closes_without_message() {
    let mut s = Session::new();
    let a = tick(&mut s, 50, status(true, false, true), false);
    assert!(a.close);
    assert!(a.message.is_none());
    assert_eq!(s.state(), State::Idle);
}

#[test]
fn only_real_poll_failures_are_logged() {
    assert!(!poll_outcome_needs_log(PollOutcome::Handled));
    assert!(!poll_outcome_needs_log(PollOutcome::Unrecognized));
    assert!(poll_outcome_needs_log(PollOutcome::Failed));
}
