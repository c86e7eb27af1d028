//! Decision logic of the polling driver loop. Each iteration the unverified
//! shell samples the timer and the socket readiness, hands both in here, and
//! gets back the session transition plus the socket actions it owes: listen,
//! close, and at most one send of the greeting. The shell then reports the
//! send outcome and runs the network stack's poll step.

use vstd::prelude::*;
use crate::message::{greeting, greeting_bytes};
use crate::session::{next_state, recv_phase, Event, Session, SocketStatus, State};

verus! {

/// The session state at the end of one whole loop iteration: the receive
/// phase first, then, when a send became pending, the send attempt with
/// outcome `send_ok`.
pub open spec fn tick_state(
    s: State,
    st: SocketStatus,
    recv_nonempty: bool,
    send_ok: bool,
) -> State {
    let mid = recv_phase(s, st, recv_nonempty);
    if mid is SendingMessage {
        next_state(mid, Event::SendAttempted { ok: send_ok })
    } else {
        mid
    }
}

/// Every completed iteration parks the machine in `Idle`, whatever the
/// socket signalled and however the send went: the machine never carries
/// `SendingMessage` from one completed iteration into the next.
pub proof fn lemma_iteration_ends_idle(s: State, st: SocketStatus, recv_nonempty: bool, send_ok: bool)
    ensures
        tick_state(s, st, recv_nonempty, send_ok) is Idle,
{
}

/// What the shell must do to the socket after the receive phase of one
/// iteration.
pub struct TickActions {
    /// The socket was not open: put it back into listening mode on the
    /// fixed port.
    pub listen: bool,
    /// The peer disconnected: close the socket.
    pub close: bool,
    /// The greeting to send, present exactly when the machine entered the
    /// send phase; its outcome is reported through `Session::finish_send`.
    pub message: Option<Vec<u8>>,
}

/// The TCP port the session listens on.
pub fn listen_port() -> (p: u16)
    ensures
        p == 1550u16,
{
    1550
}

/// The receive phase of one iteration, with the greeting prepared for the
/// send phase. `recv_nonempty` is the outcome of the shell's non-blocking
/// receive, consulted only when the socket may receive; `now_ms` is the
/// timestamp sampled at the top of the iteration.
pub fn tick(session: &mut Session, now_ms: u64, status: SocketStatus, recv_nonempty: bool) -> (a:
    TickActions)
    ensures
        final(session)@ == recv_phase(old(session)@, status, recv_nonempty),
        a.listen == !status.is_open,
        a.close == (!status.may_recv && status.may_send),
        (a.message is Some) == (final(session)@ is SendingMessage),
        a.message matches Some(m) ==> m@ == greeting_bytes(now_ms as nat),
{
    let actions = session.on_socket_poll(status, recv_nonempty);
    let message = if actions.send_pending {
        Some(greeting(now_ms))
    } else {
        None
    };
    TickActions { listen: actions.listen, close: actions.close, message }
}

/// Outcome of the network stack's poll step, as the loop classifies it.
#[derive(Clone, Copy, PartialEq, Eq, Structural, Debug)]
pub enum PollOutcome {
    /// The poll step completed (whether or not it moved any frames).
    Handled,
    /// The stack saw a frame of a protocol it does not speak; informational
    /// only, ignored entirely.
    Unrecognized,
    /// Any other poll error; worth a log line, never fatal.
    Failed,
}

/// The loop's error policy for the poll step: only a genuine failure is
/// logged; success and unrecognized-protocol frames are passed over, and the
/// loop always continues.
pub fn poll_outcome_needs_log(o: PollOutcome) -> (b: bool)
    ensures
        b == (o is Failed),
{
    o == PollOutcome::Failed
}

} // verus!
