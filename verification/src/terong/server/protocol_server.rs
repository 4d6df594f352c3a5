//! Framing of the messages the server sends to its clients.

use vstd::prelude::*;

verus! {

/// The eight bytes of `n`, most significant first.
pub open spec fn be_u64_bytes(n: u64) -> Seq<u8> {
    seq![
        (n >> 56u64) as u8,
        (n >> 48u64) as u8,
        (n >> 40u64) as u8,
        (n >> 32u64) as u8,
        (n >> 24u64) as u8,
        (n >> 16u64) as u8,
        (n >> 8u64) as u8,
        n as u8,
    ]
}

/// A serialized message as written to a client: its length in eight
/// big-endian bytes, then the message.
pub fn frame_message(msg: &[u8]) -> (r: Vec<u8>)
    ensures
        r@ == be_u64_bytes(msg@.len() as u64) + msg@,
{
    let n = msg.len() as u64;
    let mut r: Vec<u8> = Vec::new();
    r.push((n >> 56u64) as u8);
    r.push((n >> 48u64) as u8);
    r.push((n >> 40u64) as u8);
    r.push((n >> 32u64) as u8);
    r.push((n >> 24u64) as u8);
    r.push((n >> 16u64) as u8);
    r.push((n >> 8u64) as u8);
    r.push(n as u8);
    let ghost head = r@;
    let mut i: usize = 0;
    while i < msg.len()
        invariant
            i <= msg@.len(),
            head == be_u64_bytes(msg@.len() as u64),
            r@ == head + msg@.subrange(0, i as int),
        decreases msg@.len() - i,
    {
        r.push(msg[i]);
        i = i + 1;
        assert(r@ =~= head + msg@.subrange(0, i as int));
    }
    assert(msg@.subrange(0, msg@.len() as int) =~= msg@);
    r
}

} // verus!
