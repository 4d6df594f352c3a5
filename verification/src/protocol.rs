//! Handshake messages between client and server, and the hash that pins a
//! TLS certificate.

pub mod inbox;
pub mod input_event;

pub use self::input_event::{InputEvent, KeyCode, MouseButton, KEY_CODE_COUNT, MOUSE_BUTTON_COUNT};
use vstd::prelude::*;

verus! {

/// Client to server message.
#[derive(Clone, Debug)]
pub enum ClientMessage {
    /// Handshake initiation message.
    Hello(HelloMessage),
    /// Reply to server's upgrade transport request.
    UpgradeTransportReply(UpgradeTransportResponse),
}

impl From<HelloMessage> for ClientMessage {
    fn from(x: HelloMessage) -> (r: Self) {
        ClientMessage::Hello(x)
    }
}

impl vstd::std_specs::convert::FromSpecImpl<HelloMessage> for ClientMessage {
    open spec fn obeys_from_spec() -> bool {
        true
    }

    open spec fn from_spec(x: HelloMessage) -> Self {
        ClientMessage::Hello(x)
    }
}

impl From<UpgradeTransportResponse> for ClientMessage {
    fn from(x: UpgradeTransportResponse) -> (r: Self) {
        ClientMessage::UpgradeTransportReply(x)
    }
}

impl vstd::std_specs::convert::FromSpecImpl<UpgradeTransportResponse> for ClientMessage {
    open spec fn obeys_from_spec() -> bool {
        true
    }

    open spec fn from_spec(x: UpgradeTransportResponse) -> Self {
        ClientMessage::UpgradeTransportReply(x)
    }
}

/// Server to client message.
#[derive(Clone, Debug)]
pub enum ServerMessage {
    /// Handshake response message.
    HelloReply(HelloReply),
    /// Propagated event from the server host machine.
    Event(InputEvent),
}

impl From<HelloReply> for ServerMessage {
    fn from(x: HelloReply) -> (r: Self) {
        ServerMessage::HelloReply(x)
    }
}

impl vstd::std_specs::convert::FromSpecImpl<HelloReply> for ServerMessage {
    open spec fn obeys_from_spec() -> bool {
        true
    }

    open spec fn from_spec(x: HelloReply) -> Self {
        ServerMessage::HelloReply(x)
    }
}

impl From<InputEvent> for ServerMessage {
    fn from(x: InputEvent) -> (r: Self) {
        ServerMessage::Event(x)
    }
}

impl vstd::std_specs::convert::FromSpecImpl<InputEvent> for ServerMessage {
    open spec fn obeys_from_spec() -> bool {
        true
    }

    open spec fn from_spec(x: InputEvent) -> Self {
        ServerMessage::Event(x)
    }
}

/// Client's hello message.
///
/// After sending this message client will wait for [HelloReply] response.
#[derive(Clone, Debug)]
pub struct HelloMessage {
    /// Client app version.
    pub client_version: String,
}

/// Client's [HelloMessage] reply.
#[derive(Clone, Debug)]
pub enum HelloReply {
    /// The hello message processed sucessfully, request to upgrade transport to
    /// TLS.
    Accepted(UpgradeTransportRequest),
    /// Unrecoverable failure while processing the hello message.
    Rejected(HelloReplyError),
}

impl From<UpgradeTransportRequest> for HelloReply {
    fn from(x: UpgradeTransportRequest) -> (r: Self) {
        HelloReply::Accepted(x)
    }
}

impl vstd::std_specs::convert::FromSpecImpl<UpgradeTransportRequest> for HelloReply {
    open spec fn obeys_from_spec() -> bool {
        true
    }

    open spec fn from_spec(x: UpgradeTransportRequest) -> Self {
        HelloReply::Accepted(x)
    }
}

impl From<HelloReplyError> for HelloReply {
    fn from(x: HelloReplyError) -> (r: Self) {
        HelloReply::Rejected(x)
    }
}

impl vstd::std_specs::convert::FromSpecImpl<HelloReplyError> for HelloReply {
    open spec fn obeys_from_spec() -> bool {
        true
    }

    open spec fn from_spec(x: HelloReplyError) -> Self {
        HelloReply::Rejected(x)
    }
}

/// Error for [HelloMessage].
#[derive(Clone, Copy, PartialEq, Eq, Debug, Structural)]
pub enum HelloReplyError {
    /// Server and client are in different version.
    ///
    /// We doesn't have protocol version. Instead we require the server and the
    /// client to have an identical version. In other words, we always assume
    /// different protocol version on each revision.
    VersionMismatch,
}

/// Successful response for [HelloMessage].
#[derive(Clone, Copy, Debug)]
pub struct UpgradeTransportRequest {
    /// Hash of server TLS certificate.
    ///
    /// The client will inspect this value before upgrading connection to TLS.
    pub server_tls_cert_hash: Sha256,
}

#[derive(Clone, Copy, Debug)]
pub struct UpgradeTransportResponse {
    /// Hash of client TLS certificate.
    ///
    /// The server will inspect this value before upgrading connection to TLS.
    pub client_tls_cert_hash: Sha256,
}

/// The SHA-256 digest of `data`.
pub uninterp spec fn sha256(data: Seq<u8>) -> Seq<u8>;

/// `ring::digest::digest` with `SHA256`: the SHA-256 digest of `data`, whose
/// 32 bytes are copied out.
#[verifier::external_body]
fn sha256_digest(data: &[u8]) -> (r: [u8; 32])
    ensures
        r@ == sha256(data@),
{
    let out = ring::digest::digest(&ring::digest::SHA256, data);
    let mut hash = [0u8; 32];
    hash.copy_from_slice(out.as_ref());
    hash
}

/// Lowercase hexadecimal digit of `n`, for `n < 16`.
pub open spec fn hex_digit(n: u8) -> char {
    if n < 10 {
        (n + 48) as char
    } else {
        (n + 87) as char
    }
}

/// Lowercase hexadecimal encoding of `bytes`: two digits per byte, high
/// nibble first.
pub open spec fn hex_string(bytes: Seq<u8>) -> Seq<char>
    decreases bytes.len(),
{
    if bytes.len() == 0 {
        Seq::empty()
    } else {
        seq![hex_digit(bytes[0] / 16), hex_digit(bytes[0] % 16)] + hex_string(bytes.drop_first())
    }
}

/// `hex::encode`: the lowercase hexadecimal encoding of `data`.
#[verifier::external_body]
fn hex_encode(data: &[u8]) -> (s: String)
    ensures
        s@ == hex_string(data@),
{
    hex::encode(data)
}

/// Container for SHA-256.
#[derive(Clone, Copy, Debug)]
pub struct Sha256(pub [u8; 32]);

impl Sha256 {
    /// SHA-256 digest of `bytes`.
    pub fn from_bytes(bytes: &[u8]) -> (r: Self)
        ensures
            r.0@ == sha256(bytes@),
    {
        let hash = sha256_digest(bytes);
        Sha256(hash)
    }

    /// The digest in lowercase hexadecimal.
    pub fn to_string(&self) -> (s: String)
        ensures
            s@ == hex_string(self.0@),
    {
        hex_encode(&self.0)
    }

    /// The two digests are equal.
    pub fn eq(&self, other: &Self) -> (b: bool)
        ensures
            b == (self.0@ == other.0@),
    {
        let mut i: usize = 0;
        while i < 32
            invariant
                i <= 32,
                forall|j: int| 0 <= j < i ==> self.0@[j] == other.0@[j],
            decreases 32 - i,
        {
            if self.0[i] != other.0[i] {
                assert(self.0@[i as int] != other.0@[i as int]);
                return false;
            }
            i = i + 1;
        }
        assert(self.0@ =~= other.0@);
        true
    }
}

/// The certificate a client presents during the TLS handshake is the one
/// whose hash it announced: its SHA-256 digest is `pinned`.
pub fn client_cert_matches(pinned: &Sha256, cert: &[u8]) -> (ok: bool)
    ensures
        ok == (pinned.0@ == sha256(cert@)),
{
    Sha256::from_bytes(cert).eq(pinned)
}

} // verus!
