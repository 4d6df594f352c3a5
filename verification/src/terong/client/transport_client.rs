//! Decisions of the client transport: the states of a session, the ping
//! exchange that keeps it alive, and when to give up reconnecting.

use crate::transport::protocol::{InputEvent, Ping, Pong, ServerMessage};
use vstd::prelude::*;

verus! {

/// Seconds the client waits for a connection to the server.
pub const CONNECT_TIMEOUT_SECS: u64 = 10;

/// Seconds between two ticks of the ping ticker.
pub const PING_INTERVAL_SECS: u64 = 15;

/// Number of failed attempts retried before the client gives up.
pub const MAX_RETRIES: u8 = 5;

/// Seconds to wait before retrying a failed attempt.
pub const RETRY_DELAY_SECS: u64 = 10;

/// State of a session with the server.
#[derive(Clone, Copy, PartialEq, Eq, Debug, Structural)]
pub enum SessionState {
    /// Upgrading the transport to TLS.
    Handshaking,
    /// Waiting for a message from the server or for the ping ticker.
    Idle,
    /// An input event was received and is handed to the input sink.
    EventRelayed { event: InputEvent },
}

impl Default for SessionState {
    fn default() -> (r: Self)
        ensures
            r == SessionState::Handshaking,
    {
        SessionState::Handshaking
    }
}

/// The state once the transport is upgraded.
pub fn after_handshake() -> (r: SessionState)
    ensures
        r == SessionState::Idle,
{
    SessionState::Idle
}

/// The state after the relayed event was handed to the input sink.
pub fn after_relay(state: SessionState) -> (r: SessionState)
    requires
        state is EventRelayed,
    ensures
        r == SessionState::Idle,
{
    SessionState::Idle
}

/// What a tick of the ping ticker does, given the local ping counter: an odd
/// counter sends a ping carrying it; an even one means the previous ping was
/// not answered, and the session ends (`None`).
pub open spec fn tick_outcome(counter: u16) -> Option<Ping> {
    if counter % 2 == 1 {
        Some(Ping { counter })
    } else {
        None
    }
}

/// What a message from the server does, given the local ping counter: the
/// new counter, and the next state (`None` ends the session). An input event
/// is relayed; a pong carrying the local counter is accepted and advances
/// it; any other pong ends the session.
pub open spec fn message_outcome(counter: u16, msg: ServerMessage) -> (u16, Option<SessionState>) {
    match msg {
        ServerMessage::Event(event) => (counter, Some(SessionState::EventRelayed { event })),
        ServerMessage::Pong(Pong { counter: c }) => if c == counter {
            ((counter + 1) as u16, Some(SessionState::Idle))
        } else {
            (counter, None)
        },
    }
}

/// The client's side of the ping exchange.
#[derive(Clone, Copy, PartialEq, Eq, Debug, Structural)]
pub struct Heartbeat {
    /// Odd while no ping is outstanding; even while waiting for a pong.
    pub local_ping_counter: u16,
}

impl Heartbeat {
    pub fn new() -> (r: Self)
        ensures
            r.local_ping_counter == 1,
    {
        Heartbeat { local_ping_counter: 1 }
    }

    /// Handles a tick of the ping ticker: the ping to send, or `None` when
    /// the session ends.
    pub fn on_tick(&self) -> (r: Option<Ping>)
        ensures
            r == tick_outcome(self.local_ping_counter),
    {
        if self.local_ping_counter % 2 == 1 {
            Some(Ping { counter: self.local_ping_counter })
        } else {
            None
        }
    }

    /// Records that the ping was sent.
    pub fn on_ping_sent(&mut self)
        requires
            old(self).local_ping_counter < u16::MAX,
        ensures
            final(self).local_ping_counter == old(self).local_ping_counter + 1,
    {
        self.local_ping_counter = self.local_ping_counter + 1;
    }

    /// Handles a message from the server: the next state, or `None` when the
    /// session ends.
    pub fn on_message(&mut self, msg: ServerMessage) -> (r: Option<SessionState>)
        requires
            !(msg matches ServerMessage::Pong(p) && p.counter == old(self).local_ping_counter
                && p.counter == u16::MAX),
        ensures
            (final(self).local_ping_counter, r) == message_outcome(
                old(self).local_ping_counter,
                msg,
            ),
    {
        match msg {
            ServerMessage::Event(event) => Some(SessionState::EventRelayed { event }),
            ServerMessage::Pong(Pong { counter }) => {
                if counter == self.local_ping_counter {
                    self.local_ping_counter = self.local_ping_counter + 1;
                    Some(SessionState::Idle)
                } else {
                    None
                }
            },
        }
    }
}

/// A ping answered in time keeps the session alive: the tick sends a ping
/// carrying the (odd) counter `c`, the pong that answers it carries `c + 1`
/// and is accepted, and the next tick sends a ping again.
pub proof fn lemma_answered_ping_keeps_session(c: u16)
    requires
        c % 2 == 1,
        c + 2 <= u16::MAX,
    ensures
        tick_outcome(c) == Some(Ping { counter: c }),
        message_outcome((c + 1) as u16, ServerMessage::Pong(Pong { counter: (c + 1) as u16 })) == (
            (c + 2) as u16,
            Some(SessionState::Idle),
        ),
        tick_outcome((c + 2) as u16) == Some(Ping { counter: (c + 2) as u16 }),
{
}

/// A ping left unanswered ends the session at the next tick.
pub proof fn lemma_unanswered_ping_ends_session(c: u16)
    requires
        c % 2 == 1,
        c < u16::MAX,
    ensures
        tick_outcome(c) == Some(Ping { counter: c }),
        tick_outcome((c + 1) as u16) is None,
{
}

/// What an idle session observes: a tick of the ping ticker, or a message
/// from the server.
#[derive(Clone, Copy, PartialEq, Eq, Debug, Structural)]
pub enum HeartbeatInput {
    Tick,
    Message(ServerMessage),
}

/// The pings an idle session sends while it observes `inputs` one after
/// another, from the local ping counter `counter`, up to the end of the
/// session.
pub open spec fn pings_sent(counter: u16, inputs: Seq<HeartbeatInput>) -> Seq<Ping>
    decreases inputs.len(),
{
    if inputs.len() == 0 {
        Seq::empty()
    } else {
        match inputs[0] {
            HeartbeatInput::Tick => match tick_outcome(counter) {
                Some(ping) => seq![ping] + pings_sent((counter + 1) as u16, inputs.drop_first()),
                None => Seq::empty(),
            },
            HeartbeatInput::Message(msg) => {
                let (c, next) = message_outcome(counter, msg);
                if next is Some {
                    pings_sent(c, inputs.drop_first())
                } else {
                    Seq::empty()
                }
            },
        }
    }
}

/// Whatever the server sends, the pings a session sends carry odd counters,
/// each at least the starting counter, and each at least two more than the
/// previous one.
pub proof fn lemma_pings_carry_increasing_odd_counters(counter: u16, inputs: Seq<HeartbeatInput>)
    requires
        counter + inputs.len() < u16::MAX,
    ensures
        forall|i: int|
            0 <= i < pings_sent(counter, inputs).len() ==> {
                &&& #[trigger] pings_sent(counter, inputs)[i].counter % 2 == 1
                &&& pings_sent(counter, inputs)[i].counter >= counter
            },
        forall|i: int, j: int|
            0 <= i < j < pings_sent(counter, inputs).len() ==> #[trigger] pings_sent(
                counter,
                inputs,
            )[i].counter + 2 <= #[trigger] pings_sent(counter, inputs)[j].counter,
    decreases inputs.len(),
{
    if inputs.len() > 0 {
        let rest = inputs.drop_first();
        match inputs[0] {
            HeartbeatInput::Tick => {
                if counter % 2 == 1 {
                    let c1 = (counter + 1) as u16;
                    lemma_pings_carry_increasing_odd_counters(c1, rest);
                    let tail = pings_sent(c1, rest);
                    let all = pings_sent(counter, inputs);
                    assert(all == seq![Ping { counter }] + tail);
                    assert forall|i: int| 0 <= i < all.len() implies {
                        &&& #[trigger] all[i].counter % 2 == 1
                        &&& all[i].counter >= counter
                    } by {
                        if i > 0 {
                            assert(all[i] == tail[i - 1]);
                        }
                    }
                    assert forall|i: int, j: int| 0 <= i < j < all.len() implies #[trigger] all[i].counter
                        + 2 <= #[trigger] all[j].counter by {
                        assert(all[j] == tail[j - 1]);
                        if i > 0 {
                            assert(all[i] == tail[i - 1]);
                        } else {
                            assert(tail[j - 1].counter % 2 == 1 && tail[j - 1].counter >= c1);
                        }
                    }
                }
            },
            HeartbeatInput::Message(msg) => {
                let (c, next) = message_outcome(counter, msg);
                if next is Some {
                    lemma_pings_carry_increasing_odd_counters(c, rest);
                    assert(pings_sent(counter, inputs) == pings_sent(c, rest));
                }
            },
        }
    }
}

/// The first odd number from `c` on.
pub open spec fn first_odd(c: u16) -> int {
    if c % 2 == 1 {
        c as int
    } else {
        c + 1
    }
}

/// While the server answers pings with pongs (a pong carries the ping's
/// counter plus one, an even number), the pings a session sends carry the
/// odd counters in order: from a new session, 1, 3, 5, and so on. A pong
/// that answers no ping breaks the sequence: from a new session, `Pong(1)`,
/// `Pong(2)` and a tick send a first ping carrying 3.
pub proof fn lemma_pings_carry_odd_counters(counter: u16, inputs: Seq<HeartbeatInput>)
    requires
        counter + inputs.len() < u16::MAX,
        forall|i: int|
            0 <= i < inputs.len() ==> (#[trigger] inputs[i] matches HeartbeatInput::Message(
                ServerMessage::Pong(p),
            ) ==> p.counter % 2 == 0),
    ensures
        forall|i: int|
            0 <= i < pings_sent(counter, inputs).len() ==> #[trigger] pings_sent(
                counter,
                inputs,
            )[i].counter == first_odd(counter) + 2 * i,
    decreases inputs.len(),
{
    if inputs.len() > 0 {
        let rest = inputs.drop_first();
        assert forall|i: int|
            0 <= i < rest.len() implies (#[trigger] rest[i] matches HeartbeatInput::Message(
            ServerMessage::Pong(p),
        ) ==> p.counter % 2 == 0) by {
            assert(rest[i] == inputs[i + 1]);
        }
        match inputs[0] {
            HeartbeatInput::Tick => {
                if counter % 2 == 1 {
                    lemma_pings_carry_odd_counters((counter + 1) as u16, rest);
                    let tail = pings_sent((counter + 1) as u16, rest);
                    assert(pings_sent(counter, inputs) == seq![Ping { counter }] + tail);
                    assert forall|i: int|
                        0 <= i < pings_sent(counter, inputs).len() implies #[trigger] pings_sent(
                        counter,
                        inputs,
                    )[i].counter == first_odd(counter) + 2 * i by {
                        if i > 0 {
                            assert(pings_sent(counter, inputs)[i] == tail[i - 1]);
                        }
                    }
                }
            },
            HeartbeatInput::Message(msg) => {
                let (c, next) = message_outcome(counter, msg);
                if next is Some {
                    lemma_pings_carry_odd_counters(c, rest);
                    assert(pings_sent(counter, inputs) == pings_sent(c, rest));
                    if let ServerMessage::Pong(p) = msg {
                        assert(inputs[0] matches HeartbeatInput::Message(ServerMessage::Pong(q))
                            ==> q.counter % 2 == 0);
                        assert(first_odd(c) == first_odd(counter));
                    }
                }
            },
        }
    }
}

/// Reconnection after failed attempts.
#[derive(Clone, Copy, PartialEq, Eq, Debug, Structural)]
pub struct RetryPolicy {
    /// Failed attempts since the last successful connection.
    pub retry_count: u8,
}

/// What a failed attempt does, given the retry count: the new count, and
/// the delay before the next attempt (`None`: give up).
pub open spec fn failure_outcome(retry_count: u8) -> (u8, Option<u64>) {
    if retry_count >= MAX_RETRIES {
        (retry_count, None)
    } else {
        ((retry_count + 1) as u8, Some(RETRY_DELAY_SECS))
    }
}

impl RetryPolicy {
    pub fn new() -> (r: Self)
        ensures
            r.retry_count == 0,
    {
        RetryPolicy { retry_count: 0 }
    }

    /// Records a successful connection to the server.
    pub fn on_connected(&mut self)
        ensures
            final(self).retry_count == 0,
    {
        self.retry_count = 0;
    }

    /// Records a failed attempt: the delay before the next one, or `None`
    /// when the client gives up.
    pub fn on_failure(&mut self) -> (delay: Option<u64>)
        ensures
            (final(self).retry_count, delay) == failure_outcome(old(self).retry_count),
    {
        if self.retry_count >= MAX_RETRIES {
            None
        } else {
            self.retry_count = self.retry_count + 1;
            Some(RETRY_DELAY_SECS)
        }
    }
}

/// The delays that `n` failed attempts in a row yield, from the retry count
/// `retry_count`.
pub open spec fn delays_after_failures(retry_count: u8, n: nat) -> Seq<Option<u64>>
    decreases n,
{
    if n == 0 {
        Seq::empty()
    } else {
        let (c, d) = failure_outcome(retry_count);
        seq![d] + delays_after_failures(c, (n - 1) as nat)
    }
}

/// From a successful connection, [`MAX_RETRIES`] failed attempts in a row
/// are each retried after [`RETRY_DELAY_SECS`]; the next one gives up.
pub proof fn lemma_gives_up_after_max_retries()
    ensures
        delays_after_failures(0, (MAX_RETRIES + 1) as nat) == seq![
            Some(RETRY_DELAY_SECS),
            Some(RETRY_DELAY_SECS),
            Some(RETRY_DELAY_SECS),
            Some(RETRY_DELAY_SECS),
            Some(RETRY_DELAY_SECS),
            None::<u64>,
        ],
{
    reveal_with_fuel(delays_after_failures, 7);
    assert(delays_after_failures(5, 1) =~= seq![None::<u64>]);
    assert(delays_after_failures(4, 2) =~= seq![Some(RETRY_DELAY_SECS), None::<u64>]);
    assert(delays_after_failures(3, 3) =~= seq![Some(RETRY_DELAY_SECS), Some(RETRY_DELAY_SECS), None::<u64>]);
    assert(delays_after_failures(2, 4) =~= seq![
        Some(RETRY_DELAY_SECS),
        Some(RETRY_DELAY_SECS),
        Some(RETRY_DELAY_SECS),
        None::<u64>,
    ]);
    assert(delays_after_failures(1, 5) =~= seq![
        Some(RETRY_DELAY_SECS),
        Some(RETRY_DELAY_SECS),
        Some(RETRY_DELAY_SECS),
        Some(RETRY_DELAY_SECS),
        None::<u64>,
    ]);
    assert(delays_after_failures(0, 6) =~= seq![
        Some(RETRY_DELAY_SECS),
        Some(RETRY_DELAY_SECS),
        Some(RETRY_DELAY_SECS),
        Some(RETRY_DELAY_SECS),
        Some(RETRY_DELAY_SECS),
        None::<u64>,
    ]);
}

} // verus!
