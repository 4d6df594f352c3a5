//! Message framing, the read buffer of a transport, and certificate pinning.
//!
//! A message travels as a frame: its length as a big-endian `u16`, then the
//! message bytes.

pub mod protocol;

use bytes::BytesMut;
use vstd::prelude::*;

verus! {

#[verifier::external_type_specification]
#[verifier::external_body]
pub struct ExBytesMut(BytesMut);

/// The bytes held by a `BytesMut`, front first.
pub uninterp spec fn bytes_mut_contents(b: BytesMut) -> Seq<u8>;

/// `BytesMut::new`: an empty buffer.
#[verifier::external_body]
fn bytes_mut_new() -> (b: BytesMut)
    ensures
        bytes_mut_contents(b) == Seq::<u8>::empty(),
{
    BytesMut::new()
}

/// `BytesMut::len`: the number of bytes held.
#[verifier::external_body]
fn bytes_mut_len(b: &BytesMut) -> (n: usize)
    ensures
        n == bytes_mut_contents(*b).len(),
{
    b.len()
}

/// `BytesMut::extend_from_slice`: appends `data` at the back. It panics when
/// the length would exceed `isize::MAX`.
#[verifier::external_body]
fn bytes_mut_extend_from_slice(b: &mut BytesMut, data: &[u8])
    requires
        bytes_mut_contents(*old(b)).len() + data@.len() <= isize::MAX,
    ensures
        bytes_mut_contents(*final(b)) == bytes_mut_contents(*old(b)) + data@,
{
    b.extend_from_slice(data)
}

/// `Buf::get_u16` on a `BytesMut`: removes the two front bytes and reads them
/// as a big-endian `u16`. It panics when fewer than two bytes are held.
#[verifier::external_body]
fn bytes_mut_get_u16(b: &mut BytesMut) -> (v: u16)
    requires
        bytes_mut_contents(*old(b)).len() >= 2,
    ensures
        v == be_u16(bytes_mut_contents(*old(b))[0], bytes_mut_contents(*old(b))[1]),
        bytes_mut_contents(*final(b)) == bytes_mut_contents(*old(b)).skip(2),
{
    bytes::Buf::get_u16(b)
}

/// `Buf::copy_to_bytes` on a `BytesMut`: removes the `len` front bytes and
/// returns them. It panics when fewer than `len` bytes are held.
#[verifier::external_body]
fn bytes_mut_copy_to_bytes(b: &mut BytesMut, len: usize) -> (r: Vec<u8>)
    requires
        len <= bytes_mut_contents(*old(b)).len(),
    ensures
        r@ == bytes_mut_contents(*old(b)).take(len as int),
        bytes_mut_contents(*final(b)) == bytes_mut_contents(*old(b)).skip(len as int),
{
    bytes::Buf::copy_to_bytes(b, len).to_vec()
}

/// The `u16` whose big-endian bytes are `hi` and `lo`.
pub open spec fn be_u16(hi: u8, lo: u8) -> u16 {
    (hi as int * 256 + lo as int) as u16
}

/// The big-endian bytes of `n`.
pub open spec fn be_bytes(n: u16) -> Seq<u8> {
    seq![(n / 256) as u8, (n % 256) as u8]
}

/// The frame that carries `payload`: its length, then the payload.
pub open spec fn frame(payload: Seq<u8>) -> Seq<u8> {
    be_bytes(payload.len() as u16) + payload
}

/// The first frame of `s`: its payload and what follows the frame; `None`
/// while `s` holds no complete frame.
pub open spec fn decode_frame(s: Seq<u8>) -> Option<(Seq<u8>, Seq<u8>)> {
    if s.len() < 2 {
        None
    } else {
        let len = be_u16(s[0], s[1]) as int;
        if s.len() - 2 < len {
            None
        } else {
            Some((s.subrange(2, 2 + len), s.skip(2 + len)))
        }
    }
}

/// Reading back a frame gives the payload that was framed, and leaves what
/// followed it.
pub proof fn lemma_frame_roundtrip(payload: Seq<u8>, rest: Seq<u8>)
    requires
        payload.len() <= u16::MAX,
    ensures
        decode_frame(frame(payload) + rest) == Some((payload, rest)),
{
    let n = payload.len() as u16;
    let s = frame(payload) + rest;
    assert(be_u16((n / 256) as u8, (n % 256) as u8) == n);
    assert(s.subrange(2, 2 + payload.len() as int) =~= payload);
    assert(s.skip(2 + payload.len() as int) =~= rest);
}

/// Errors while framing a message.
#[derive(Clone, Copy, PartialEq, Eq, Debug, Structural)]
pub enum FrameError {
    /// The message is longer than a frame can carry.
    MessageTooLong,
}

/// Frames a serialized message for sending.
pub fn encode_frame(payload: &[u8]) -> (r: Result<Vec<u8>, FrameError>)
    ensures
        r is Ok <==> payload@.len() <= u16::MAX,
        r matches Ok(v) ==> v@ == frame(payload@),
        r matches Err(e) ==> e == FrameError::MessageTooLong,
{
    if payload.len() > 0xffff {
        return Err(FrameError::MessageTooLong);
    }
    let msg_len = payload.len() as u16;
    let mut buf: Vec<u8> = Vec::new();
    buf.push((msg_len / 256) as u8);
    buf.push((msg_len % 256) as u8);
    let mut i: usize = 0;
    while i < payload.len()
        invariant
            i <= payload@.len(),
            msg_len == payload@.len(),
            buf@ == be_bytes(msg_len) + payload@.take(i as int),
        decreases payload@.len() - i,
    {
        buf.push(payload[i]);
        assert(payload@.take(i + 1) =~= payload@.take(i as int).push(payload@[i as int]));
        i = i + 1;
    }
    assert(payload@.take(i as int) =~= payload@);
    Ok(buf)
}

/// What a [`MessageReader`] needs or has.
#[derive(Debug)]
pub enum ReadProgress {
    /// At least this many bytes must be buffered before reading can go on.
    NeedBytes(usize),
    /// The payload of the next frame.
    Message(Vec<u8>),
}

/// Reads frames from the bytes received so far.
#[derive(Debug)]
pub struct MessageReader {
    buf: BytesMut,
    /// Length of the frame being read, once its length prefix has been taken
    /// from the buffer.
    msg_len: Option<u16>,
}

impl MessageReader {
    /// The bytes received and not yet read as frames, including a length
    /// prefix already taken from the buffer.
    pub closed spec fn unread(&self) -> Seq<u8> {
        match self.msg_len {
            Some(n) => be_bytes(n) + bytes_mut_contents(self.buf),
            None => bytes_mut_contents(self.buf),
        }
    }

    /// Number of bytes held in the buffer.
    pub closed spec fn buffered(&self) -> nat {
        bytes_mut_contents(self.buf).len()
    }

    pub fn new() -> (r: Self)
        ensures
            r.unread() == Seq::<u8>::empty(),
            r.buffered() == 0,
    {
        MessageReader { buf: bytes_mut_new(), msg_len: None }
    }

    /// Number of bytes held in the buffer.
    pub fn buffered_len(&self) -> (n: usize)
        ensures
            n == self.buffered(),
    {
        bytes_mut_len(&self.buf)
    }

    /// Appends received bytes.
    pub fn fill(&mut self, data: &[u8])
        requires
            old(self).buffered() + data@.len() <= isize::MAX,
        ensures
            final(self).unread() == old(self).unread() + data@,
            final(self).buffered() == old(self).buffered() + data@.len(),
    {
        bytes_mut_extend_from_slice(&mut self.buf, data);
        proof {
            if let Some(n) = self.msg_len {
                assert(be_bytes(n) + bytes_mut_contents(self.buf) =~= be_bytes(n) + (
                bytes_mut_contents(old(self).buf)) + data@);
            }
        }
    }

    /// Reads the next frame if it has been received in full; otherwise tells
    /// how many bytes the buffer must hold before trying again: the two bytes
    /// of the length prefix, then the length it gives. What is not read stays
    /// unread, so a later call picks up where this one stopped.
    pub fn recv_msg(&mut self) -> (r: ReadProgress)
        ensures
            match decode_frame(old(self).unread()) {
                Some((payload, rest)) => r matches ReadProgress::Message(m) && m@ == payload
                    && final(self).unread() == rest,
                None => r matches ReadProgress::NeedBytes(n) && n == (if old(self).unread().len()
                    < 2 {
                    2
                } else {
                    be_u16(old(self).unread()[0], old(self).unread()[1]) as int
                }) && n > final(self).buffered() && final(self).unread() == old(self).unread(),
            },
    {
        let len = match self.msg_len {
            Some(n) => n,
            None => {
                if bytes_mut_len(&self.buf) < 2 {
                    return ReadProgress::NeedBytes(2);
                }
                let ghost c = bytes_mut_contents(self.buf);
                let n = bytes_mut_get_u16(&mut self.buf);
                proof {
                    assert(be_bytes(be_u16(c[0], c[1])) =~= c.take(2));
                    assert(c =~= be_bytes(n) + bytes_mut_contents(self.buf));
                }
                self.msg_len = Some(n);
                n
            },
        };
        let ghost u = self.unread();
        let ghost c = bytes_mut_contents(self.buf);
        proof {
            assert(u =~= be_bytes(len) + c);
            assert(be_u16((len / 256) as u8, (len % 256) as u8) == len);
        }
        if bytes_mut_len(&self.buf) < len as usize {
            return ReadProgress::NeedBytes(len as usize);
        }
        let msg = bytes_mut_copy_to_bytes(&mut self.buf, len as usize);
        self.msg_len = None;
        proof {
            assert(u.subrange(2, 2 + len) =~= c.take(len as int));
            assert(u.skip(2 + len) =~= c.skip(len as int));
        }
        ReadProgress::Message(msg)
    }
}

/// Marker for the messages exchanged over a transport.
pub trait Message {

}

impl Message for protocol::ServerMessage {

}

impl Message for protocol::ClientMessage {

}

/// TLS certificate (DER bytes).
#[derive(Clone, Debug)]
pub struct Certificate(pub Vec<u8>);

impl From<Vec<u8>> for Certificate {
    fn from(x: Vec<u8>) -> (r: Self) {
        Certificate(x)
    }
}

impl vstd::std_specs::convert::FromSpecImpl<Vec<u8>> for Certificate {
    open spec fn obeys_from_spec() -> bool {
        true
    }

    open spec fn from_spec(x: Vec<u8>) -> Self {
        Certificate(x)
    }
}

/// TLS private key (DER bytes).
#[derive(Clone, Debug)]
pub struct PrivateKey(pub Vec<u8>);

impl From<Vec<u8>> for PrivateKey {
    fn from(x: Vec<u8>) -> (r: Self) {
        PrivateKey(x)
    }
}

impl vstd::std_specs::convert::FromSpecImpl<Vec<u8>> for PrivateKey {
    open spec fn obeys_from_spec() -> bool {
        true
    }

    open spec fn from_spec(x: Vec<u8>) -> Self {
        PrivateKey(x)
    }
}

/// Certifier for a single known certificate.
#[derive(Clone, Debug)]
pub struct SingleCertVerifier {
    cert: Certificate,
}

impl SingleCertVerifier {
    /// The bytes of the only certificate accepted.
    pub closed spec fn pinned(&self) -> Seq<u8> {
        self.cert.0@
    }

    pub fn new(cert: Certificate) -> (r: Self)
        ensures
            r.pinned() == cert.0@,
    {
        SingleCertVerifier { cert }
    }

    /// The presented end-entity certificate is the pinned certificate.
    pub fn verify_cert(&self, end_entity: &[u8]) -> (ok: bool)
        ensures
            ok == (end_entity@ == self.pinned()),
    {
        let cert = &self.cert.0;
        if end_entity.len() != cert.len() {
            return false;
        }
        let mut i: usize = 0;
        while i < cert.len()
            invariant
                i <= cert@.len(),
                end_entity@.len() == cert@.len(),
                cert@ == self.pinned(),
                forall|j: int| 0 <= j < i ==> end_entity@[j] == cert@[j],
            decreases cert@.len() - i,
        {
            if end_entity[i] != cert[i] {
                assert(end_entity@[i as int] != self.pinned()[i as int]);
                assert(end_entity@ != self.pinned());
                return false;
            }
            i = i + 1;
        }
        assert(end_entity@ =~= cert@);
        true
    }
}

} // verus!
