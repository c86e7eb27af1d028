//! Connection state machine for the single TCP session. The machine tracks
//! one logical session through two states, `Idle` and `SendingMessage`,
//! driven once per polling-loop iteration by the socket's readiness signals.
//! The socket itself, and the byte transport, belong to the network stack;
//! the machine only decides, from plain readiness values, which transition to
//! take and which socket actions the caller must perform.

use vstd::prelude::*;

verus! {

/// The two states of the session.
#[derive(Clone, Copy, PartialEq, Eq, Structural, Debug)]
pub enum State {
    /// Waiting for inbound data.
    Idle,
    /// A greeting must be sent before the iteration completes.
    SendingMessage,
}

/// One observable event the socket can hand the machine.
#[derive(Clone, Copy, PartialEq, Eq, Structural, Debug)]
pub enum Event {
    /// A non-blocking receive completed; `nonempty` says whether any bytes
    /// were available. The received content itself is discarded.
    Received { nonempty: bool },
    /// The peer is gone: the socket may send but may no longer receive.
    PeerGone,
    /// A send of the greeting was attempted; `ok` says whether the whole
    /// message was accepted by the transmit buffer.
    SendAttempted { ok: bool },
}

/// The transition relation, one event at a time:
/// a non-empty receive while `Idle` starts a send; a peer disconnect resets
/// to `Idle`; a send attempt, successful or not, always ends in `Idle`.
pub open spec fn next_state(s: State, e: Event) -> State {
    match e {
        Event::Received { nonempty } => if nonempty && s is Idle {
            State::SendingMessage
        } else {
            s
        },
        Event::PeerGone => State::Idle,
        Event::SendAttempted { ok: _ } => State::Idle,
    }
}

/// The state after feeding a whole sequence of events, in order, into the
/// machine starting from `s`.
pub open spec fn run(s: State, evs: Seq<Event>) -> State
    decreases evs.len(),
{
    if evs.len() == 0 {
        s
    } else {
        next_state(run(s, evs.drop_last()), evs.last())
    }
}

/// One step cannot conjure a send: a machine that was not already sending
/// enters `SendingMessage` only through a non-empty receive in `Idle`.
pub proof fn lemma_step_into_sending(s: State, e: Event)
    requires
        !(s is SendingMessage),
        next_state(s, e) is SendingMessage,
    ensures
        s is Idle,
        e == (Event::Received { nonempty: true }),
{
}

/// Over any whole event history: the machine never reaches `SendingMessage`
/// without having first observed a non-empty receive at a moment when it was
/// `Idle`.
pub proof fn lemma_sending_needs_prior_receive(evs: Seq<Event>)
    requires
        run(State::Idle, evs) is SendingMessage,
    ensures
        exists|i: int|
            0 <= i < evs.len() && run(State::Idle, #[trigger] evs.take(i)) is Idle && evs[i]
                == (Event::Received { nonempty: true }),
    decreases evs.len(),
{
    if evs.len() == 0 {
        assert(run(State::Idle, evs) is Idle);
    } else {
        let prefix = evs.drop_last();
        let last = evs.last();
        if run(State::Idle, prefix) is SendingMessage {
            lemma_sending_needs_prior_receive(prefix);
            let i = choose|i: int|
                0 <= i < prefix.len() && run(State::Idle, #[trigger] prefix.take(i)) is Idle
                    && prefix[i] == (Event::Received { nonempty: true });
            assert(evs.take(i) =~= prefix.take(i));
            assert(run(State::Idle, evs.take(i)) is Idle);
            assert(evs[i] == prefix[i]);
        } else {
            lemma_step_into_sending(run(State::Idle, prefix), last);
            let i = evs.len() - 1;
            assert(evs.take(i) =~= prefix);
            assert(run(State::Idle, evs.take(i)) is Idle);
            assert(evs[i] == last);
        }
    }
}

/// After any send attempt, successful or failed, the machine is `Idle`: it
/// never stays in `SendingMessage` once the send has been tried.
pub proof fn lemma_idle_after_send_attempt(s: State, ok: bool)
    ensures
        next_state(s, Event::SendAttempted { ok }) is Idle,
{
}

/// The socket readiness signals sampled at the top of one loop iteration.
#[derive(Clone, Copy, PartialEq, Eq, Structural, Debug)]
pub struct SocketStatus {
    /// The socket is open (listening or connected).
    pub is_open: bool,
    /// A receive can make progress without blocking.
    pub may_recv: bool,
    /// A send can make progress without blocking.
    pub may_send: bool,
}

/// State after the receive phase of one iteration: when the socket may
/// receive, the receive outcome is the event; otherwise, when it may still
/// send, the peer is gone; otherwise nothing observable happened.
pub open spec fn recv_phase(s: State, st: SocketStatus, recv_nonempty: bool) -> State {
    if st.may_recv {
        next_state(s, Event::Received { nonempty: recv_nonempty })
    } else if st.may_send {
        next_state(s, Event::PeerGone)
    } else {
        s
    }
}

/// Socket actions the caller must perform after the receive phase.
#[derive(Clone, Copy, PartialEq, Eq, Structural, Debug)]
pub struct PollActions {
    /// The socket was not open: put it back into listening mode.
    pub listen: bool,
    /// The peer disconnected: close the socket.
    pub close: bool,
    /// The machine is in `SendingMessage`: a send of the greeting must be
    /// attempted, and its outcome reported through `finish_send`.
    pub send_pending: bool,
}

/// The session state machine. Exactly one instance exists, owned by the
/// polling driver loop.
pub struct Session {
    state: State,
}

impl View for Session {
    type V = State;

    closed spec fn view(&self) -> State {
        self.state
    }
}

impl Session {
    /// A fresh session, `Idle`.
    pub fn new() -> (s: Session)
        ensures
            s@ is Idle,
    {
        Session { state: State::Idle }
    }

    /// Current state.
    pub fn state(&self) -> (s: State)
        ensures
            s == self@,
    {
        self.state
    }

    /// The receive phase of one iteration. `recv_nonempty` is the outcome of
    /// the caller's non-blocking receive and is consulted only when the
    /// socket may receive. Returns the socket actions the caller owes.
    pub fn on_socket_poll(&mut self, status: SocketStatus, recv_nonempty: bool) -> (a: PollActions)
        ensures
            final(self)@ == recv_phase(old(self)@, status, recv_nonempty),
            a.listen == !status.is_open,
            a.close == (!status.may_recv && status.may_send),
            a.send_pending == (final(self)@ is SendingMessage),
    {
        if status.may_recv {
            if recv_nonempty && self.state == State::Idle {
                self.state = State::SendingMessage;
            }
        } else if status.may_send {
            self.state = State::Idle;
        }
        PollActions {
            listen: !status.is_open,
            close: !status.may_recv && status.may_send,
            send_pending: self.state == State::SendingMessage,
        }
    }

    /// Reports the outcome of the send the machine asked for. The machine
    /// returns to `Idle` either way; on failure the caller must also close
    /// the socket.
    pub fn finish_send(&mut self, ok: bool) -> (close: bool)
        requires
            old(self)@ is SendingMessage,
        ensures
            final(self)@ == next_state(old(self)@, Event::SendAttempted { ok }),
            final(self)@ is Idle,
            close == !ok,
    {
        self.state = State::Idle;
        !ok
    }
}

} // verus!
