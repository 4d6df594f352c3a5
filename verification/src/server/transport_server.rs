//! Decisions of the server transport: the handshake of a session, the states
//! of a session, and what happens to input events and incoming connections.

use crate::protocol::{
    ClientMessage, HelloMessage, HelloReply, HelloReplyError, Sha256, UpgradeTransportRequest,
    UpgradeTransportResponse, sha256,
};
use crate::protocol::inbox::versions_match;
use crate::transport::Certificate;
use crate::transport::protocol::InputEvent;
use vstd::prelude::*;
use vstd::string::StrSliceExecFns;

verus! {

/// State of a session.
#[derive(Clone, Copy, PartialEq, Eq, Debug, Structural)]
pub enum State {
    /// Waiting for the client's hello and the TLS upgrade.
    Handshaking,
    /// Waiting for an input event to relay.
    Idle,
    /// Sending an input event to the client.
    RelayingEvent { event: InputEvent },
}

impl State {
    /// The session has completed its handshake.
    pub fn is_connected(&self) -> (r: bool)
        ensures
            r == !(*self is Handshaking),
    {
        match self {
            State::Handshaking => false,
            State::Idle => true,
            State::RelayingEvent { .. } => true,
        }
    }
}

/// Why a session fails.
#[derive(Clone, Copy, PartialEq, Eq, Debug, Structural)]
pub enum SessionError {
    /// The client's first message is not a hello message.
    ExpectingHello,
    /// The client's second message is not an upgrade transport reply.
    ExpectingUpgradeTransport,
}

/// Answer to the client's first message.
#[derive(Clone, Debug)]
pub struct HelloOutcome {
    /// Reply to send to the client.
    pub reply: HelloReply,
    /// The handshake goes on (with the TLS upgrade); otherwise the session
    /// ends once the reply is sent.
    pub proceed: bool,
}

/// `o` answers a hello message of version `client_version`: a client of the
/// server's own version is asked to upgrade the transport, with the hash of
/// the server's certificate `cert`; another version is refused.
pub open spec fn answers_hello(
    o: HelloOutcome,
    client_version: Seq<char>,
    server_version: Seq<char>,
    cert: Seq<u8>,
) -> bool {
    if client_version == server_version {
        &&& o.proceed
        &&& o.reply matches HelloReply::Accepted(req) && req.server_tls_cert_hash.0@ == sha256(cert)
    } else {
        &&& !o.proceed
        &&& o.reply matches HelloReply::Rejected(e) && e == HelloReplyError::VersionMismatch
    }
}

/// Handles the client's first message: a hello message of the server's own
/// version is answered by a request to upgrade the transport, carrying the
/// hash of the server's TLS certificate; another version is refused.
pub fn on_hello_message(msg: ClientMessage, server_version: &str, server_tls_cert: &Certificate) -> (r:
    Result<HelloOutcome, SessionError>)
    ensures
        match msg {
            ClientMessage::Hello(HelloMessage { client_version }) => r matches Ok(o) && answers_hello(
                o,
                client_version@,
                server_version@,
                server_tls_cert.0@,
            ),
            _ => r == Err::<HelloOutcome, SessionError>(SessionError::ExpectingHello),
        },
{
    let client_version = match msg {
        ClientMessage::Hello(HelloMessage { client_version }) => client_version,
        _ => return Err(SessionError::ExpectingHello),
    };
    // check version
    if !versions_match(client_version.as_str(), server_version) {
        return Ok(HelloOutcome { reply: HelloReply::Rejected(HelloReplyError::VersionMismatch), proceed: false });
    }
    // request upgrade transport
    let server_tls_cert_hash = Sha256::from_bytes(server_tls_cert.0.as_slice());
    Ok(
        HelloOutcome {
            reply: HelloReply::Accepted(UpgradeTransportRequest { server_tls_cert_hash }),
            proceed: true,
        },
    )
}

/// Handles the client's second message: the hash of the client's TLS
/// certificate, from its upgrade transport reply.
pub fn on_upgrade_transport_reply(msg: ClientMessage) -> (r: Result<Sha256, SessionError>)
    ensures
        match msg {
            ClientMessage::UpgradeTransportReply(resp) => r == Ok::<Sha256, SessionError>(
                resp.client_tls_cert_hash,
            ),
            _ => r == Err::<Sha256, SessionError>(SessionError::ExpectingUpgradeTransport),
        },
{
    match msg {
        ClientMessage::UpgradeTransportReply(UpgradeTransportResponse { client_tls_cert_hash }) => Ok(
            client_tls_cert_hash,
        ),
        _ => Err(SessionError::ExpectingUpgradeTransport),
    }
}

/// The state after the handshake: idle once the client is accepted (and the
/// transport upgraded); `None` ends the session.
pub fn after_handshake(client_accepted: bool) -> (r: Option<State>)
    ensures
        r == after_handshake_state(client_accepted),
{
    if client_accepted {
        Some(State::Idle)
    } else {
        None
    }
}

/// What an idle session observed.
#[derive(Clone, Copy, PartialEq, Eq, Debug, Structural)]
pub enum IdleInput {
    /// An input event arrived from the server, or the event channel was
    /// closed (`None`).
    Event(Option<InputEvent>),
    /// The periodic check of the connection, and whether it is closed.
    Tick { closed: bool },
}

/// The state after an idle session observed `input`; `None` ends the session.
pub open spec fn idle_next(input: IdleInput) -> Option<State> {
    match input {
        IdleInput::Event(Some(event)) => Some(State::RelayingEvent { event }),
        IdleInput::Event(None) => None,
        IdleInput::Tick { closed } => if closed {
            None
        } else {
            Some(State::Idle)
        },
    }
}

pub fn on_idle(input: IdleInput) -> (r: Option<State>)
    ensures
        r == idle_next(input),
{
    match input {
        IdleInput::Event(event) => match event {
            Some(event) => Some(State::RelayingEvent { event }),
            None => None,
        },
        IdleInput::Tick { closed } => {
            if closed {
                None
            } else {
                Some(State::Idle)
            }
        },
    }
}

/// The state after the event of a relaying session was sent.
pub fn after_relay(state: State) -> (r: State)
    requires
        state is RelayingEvent,
    ensures
        r == State::Idle,
{
    State::Idle
}

/// The events an idle session sends to the client while it observes
/// `inputs` one after another: each step goes by [`idle_next`], and a
/// relaying session sends its event and is idle again ([`after_relay`]).
pub open spec fn events_relayed(inputs: Seq<IdleInput>) -> Seq<InputEvent>
    decreases inputs.len(),
{
    if inputs.len() == 0 {
        Seq::empty()
    } else {
        match idle_next(inputs[0]) {
            Some(State::RelayingEvent { event }) => seq![event] + events_relayed(inputs.drop_first()),
            Some(_) => events_relayed(inputs.drop_first()),
            None => Seq::empty(),
        }
    }
}

/// The input ends the session: the event channel was closed, or the
/// connection was.
pub open spec fn ends_session(input: IdleInput) -> bool {
    input matches IdleInput::Event(None) || input matches IdleInput::Tick { closed: true }
}

/// The input events among `inputs`, in order.
pub open spec fn events_received(inputs: Seq<IdleInput>) -> Seq<InputEvent>
    decreases inputs.len(),
{
    if inputs.len() == 0 {
        Seq::empty()
    } else {
        let rest = events_received(inputs.drop_first());
        match inputs[0] {
            IdleInput::Event(Some(e)) => seq![e] + rest,
            _ => rest,
        }
    }
}

/// A session sends the events taken from the event channel to the client in
/// the order they were received, each exactly once, up to the first input
/// that ends the session (all of them when none does).
pub proof fn lemma_events_relayed_in_order(inputs: Seq<IdleInput>, k: int)
    requires
        0 <= k <= inputs.len(),
        k < inputs.len() ==> ends_session(inputs[k]),
        forall|i: int| 0 <= i < k ==> !ends_session(#[trigger] inputs[i]),
    ensures
        events_relayed(inputs) == events_received(inputs.take(k)),
    decreases inputs.len(),
{
    if inputs.len() > 0 {
        let rest = inputs.drop_first();
        if k == 0 {
            assert(inputs.take(0) =~= Seq::<IdleInput>::empty());
        } else {
            assert forall|i: int| 0 <= i < k - 1 implies !ends_session(#[trigger] rest[i]) by {
                assert(rest[i] == inputs[i + 1]);
                assert(!ends_session(inputs[i + 1]));
            }
            if k - 1 < rest.len() {
                assert(rest[k - 1] == inputs[k]);
            }
            lemma_events_relayed_in_order(rest, k - 1);
            assert(inputs.take(k).drop_first() =~= rest.take(k - 1));
            assert(inputs.take(k)[0] == inputs[0]);
            assert(!ends_session(inputs[0]));
        }
    }
}

/// No event reaches a client before its handshake succeeded: a session
/// relays events only if the client's hello carried the server's version,
/// its second message was an upgrade transport reply, and the operator
/// accepted it; then it relays the events received, as
/// [`lemma_events_relayed_in_order`] states.
pub open spec fn session_events(
    hello: ClientMessage,
    upgrade: ClientMessage,
    operator_accepted: bool,
    server_version: Seq<char>,
    inputs: Seq<IdleInput>,
) -> Seq<InputEvent> {
    let version_accepted = hello matches ClientMessage::Hello(h) && h.client_version@ == server_version;
    if version_accepted && upgrade is UpgradeTransportReply && after_handshake_state(operator_accepted)
        == Some(State::Idle) {
        events_relayed(inputs)
    } else {
        Seq::empty()
    }
}

/// The state after the handshake, as [`after_handshake`] returns it.
pub open spec fn after_handshake_state(client_accepted: bool) -> Option<State> {
    if client_accepted {
        Some(State::Idle)
    } else {
        None
    }
}

/// Events are sent only to a client whose handshake succeeded.
pub proof fn lemma_events_only_after_handshake(
    hello: ClientMessage,
    upgrade: ClientMessage,
    operator_accepted: bool,
    server_version: Seq<char>,
    inputs: Seq<IdleInput>,
)
    ensures
        session_events(hello, upgrade, operator_accepted, server_version, inputs).len() > 0 ==> {
            &&& hello matches ClientMessage::Hello(h) && h.client_version@ == server_version
            &&& upgrade is UpgradeTransportReply
            &&& operator_accepted
        },
{
}

/// What the server does with an input event from the input source.
#[derive(Clone, Copy, PartialEq, Eq, Debug, Structural)]
pub enum EventRoute {
    /// Propagate the event to the session.
    Forward(InputEvent),
    /// Drop the event: there is no connected session.
    Drop,
    /// Stop the server: the event channel is closed.
    Stop,
}

/// Routes an input event (`None`: the channel is closed), given whether there
/// is a session and whether it is connected.
pub fn route_event(event: Option<InputEvent>, session_connected: Option<bool>) -> (r: EventRoute)
    ensures
        r == (match event {
            None => EventRoute::Stop,
            Some(e) => if session_connected == Some(true) {
                EventRoute::Forward(e)
            } else {
                EventRoute::Drop
            },
        }),
{
    match (event, session_connected) {
        (Some(event), Some(true)) => EventRoute::Forward(event),
        (None, _) => EventRoute::Stop,
        _ => EventRoute::Drop,
    }
}

/// An incoming connection starts a session only if there is none; otherwise
/// it is dropped.
pub fn accept_incoming_connection(has_session: bool) -> (r: bool)
    ensures
        r == !has_session,
{
    !has_session
}

/// A white space character, as `char::is_whitespace` has it (the Unicode
/// `White_Space` property).
pub open spec fn is_white_space(c: char) -> bool {
    let n = c as u32;
    ||| 0x09 <= n <= 0x0D
    ||| n == 0x20
    ||| n == 0x85
    ||| n == 0xA0
    ||| n == 0x1680
    ||| 0x2000 <= n <= 0x200A
    ||| n == 0x2028
    ||| n == 0x2029
    ||| n == 0x202F
    ||| n == 0x205F
    ||| n == 0x3000
}

fn white_space(c: char) -> (b: bool)
    ensures
        b == is_white_space(c),
{
    let n = c as u32;
    (0x09 <= n && n <= 0x0D) || n == 0x20 || n == 0x85 || n == 0xA0 || n == 0x1680 || (0x2000 <= n
        && n <= 0x200A) || n == 0x2028 || n == 0x2029 || n == 0x202F || n == 0x205F || n == 0x3000
}

/// `s` without its leading white space.
pub open spec fn trim_start(s: Seq<char>) -> Seq<char>
    decreases s.len(),
{
    if s.len() > 0 && is_white_space(s[0]) {
        trim_start(s.drop_first())
    } else {
        s
    }
}

/// `s` without its trailing white space.
pub open spec fn trim_end(s: Seq<char>) -> Seq<char>
    decreases s.len(),
{
    if s.len() > 0 && is_white_space(s.last()) {
        trim_end(s.drop_last())
    } else {
        s
    }
}

/// `s` without its leading and trailing white space (`str::trim`).
pub open spec fn trim(s: Seq<char>) -> Seq<char> {
    trim_end(trim_start(s))
}

/// The operator's answer to whether a client is accepted: `y` or `Y`,
/// around which white space is ignored.
pub fn operator_accepts(line: &str) -> (b: bool)
    ensures
        b == (trim(line@) == seq!['y'] || trim(line@) == seq!['Y']),
{
    let n = line.unicode_len();
    let ghost s = line@;
    let mut start: usize = 0;
    assert(s.subrange(0, n as int) =~= s);
    while start < n && white_space(line.get_char(start))
        invariant
            s == line@,
            n == s.len(),
            start <= n,
            trim_start(s.subrange(start as int, n as int)) == trim_start(s),
        decreases n - start,
    {
        assert(s.subrange(start as int, n as int).drop_first() =~= s.subrange(start + 1, n as int));
        start = start + 1;
    }
    let ghost t = s.subrange(start as int, n as int);
    assert(trim_start(s) == t);
    let mut end: usize = n;
    assert(t =~= s.subrange(start as int, end as int));
    while end > start && white_space(line.get_char(end - 1))
        invariant
            s == line@,
            n == s.len(),
            start <= end <= n,
            t == s.subrange(start as int, n as int),
            trim_end(s.subrange(start as int, end as int)) == trim_end(t),
        decreases end - start,
    {
        assert(s.subrange(start as int, end as int).drop_last() =~= s.subrange(
            start as int,
            end - 1,
        ));
        end = end - 1;
    }
    let ghost r = s.subrange(start as int, end as int);
    assert(trim(s) == r);
    if end - start != 1 {
        assert(r.len() != 1);
        assert(r != seq!['y'] && r != seq!['Y']) by {
            if r == seq!['y'] || r == seq!['Y'] {
                assert(r.len() == 1);
            }
        }
        return false;
    }
    let c = line.get_char(start);
    assert(r =~= seq![c]);
    c == 'y' || c == 'Y'
}

} // verus!
