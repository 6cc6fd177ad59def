//! DNS-over-TCP framing: each message on the TCP uplink is preceded by a
//! two-byte big-endian length field. A declared length that the peer does
//! not back with as many bytes is a failure, never a short valid answer.

use vstd::prelude::*;

verus! {

/// Largest payload a two-byte length prefix can describe.
pub const MAX_FRAME_PAYLOAD: usize = 65535;

/// The two-byte big-endian encoding of a payload length.
pub open spec fn len_prefix(n: nat) -> Seq<u8> {
    seq![(n / 256) as u8, (n % 256) as u8]
}

/// A framed message: the length prefix followed by the payload itself.
pub open spec fn framed(payload: Seq<u8>) -> Seq<u8> {
    len_prefix(payload.len()) + payload
}

/// The payload length a frame header declares.
pub open spec fn declared_len(hi: u8, lo: u8) -> nat {
    hi as nat * 256 + lo as nat
}

/// What reading one frame out of `buf` yields: the declared number of
/// payload bytes if the buffer carries at least that many after the
/// two-byte header, and failure otherwise.
pub open spec fn unframed(buf: Seq<u8>) -> Option<Seq<u8>> {
    if buf.len() < 2 {
        None
    } else {
        let l = declared_len(buf[0], buf[1]);
        if buf.len() < 2 + l {
            None
        } else {
            Some(buf.subrange(2, 2 + l as int))
        }
    }
}

/// Wrap a payload for the TCP uplink: two big-endian length bytes, then the
/// payload unchanged.
pub fn encode_frame(payload: &Vec<u8>) -> (r: Vec<u8>)
    requires
        payload@.len() <= MAX_FRAME_PAYLOAD,
    ensures
        r@ == framed(payload@),
{
    let n: usize = payload.len();
    let mut r: Vec<u8> = Vec::new();
    r.push((n / 256) as u8);
    r.push((n % 256) as u8);
    proof {
        assert(r@ =~= len_prefix(payload@.len()) + payload@.subrange(0, 0));
    }
    let mut i: usize = 0;
    while i < payload.len()
        invariant
            i <= payload@.len(),
            r@ == len_prefix(payload@.len()) + payload@.subrange(0, i as int),
        decreases payload@.len() - i,
    {
        r.push(payload[i]);
        proof {
            assert(r@ =~= len_prefix(payload@.len()) + payload@.subrange(0, i as int + 1));
        }
        i = i + 1;
    }
    proof {
        assert(payload@.subrange(0, payload@.len() as int) =~= payload@);
    }
    r
}

/// Reconstruct the payload length a frame header declares.
pub fn read_declared_len(hi: u8, lo: u8) -> (n: u16)
    ensures
        n == declared_len(hi, lo),
{
    hi as u16 * 256 + lo as u16
}

/// Read one frame out of a buffer: the payload if the buffer backs the
/// declared length, `None` on a missing header or a short body.
pub fn decode_frame(buf: &Vec<u8>) -> (r: Option<Vec<u8>>)
    ensures
        match r {
            Some(p) => unframed(buf@) == Some(p@),
            None => unframed(buf@) is None,
        },
{
    if buf.len() < 2 {
        return None;
    }
    let l: usize = buf[0] as usize * 256 + buf[1] as usize;
    if buf.len() - 2 < l {
        return None;
    }
    let mut p: Vec<u8> = Vec::new();
    let mut i: usize = 0;
    while i < l
        invariant
            i <= l,
            buf@.len() >= 2 + l,
            l == declared_len(buf@[0], buf@[1]),
            p@ == buf@.subrange(2, 2 + i as int),
        decreases l - i,
    {
        p.push(buf[2 + i]);
        proof {
            assert(p@ =~= buf@.subrange(2, 2 + (i + 1)));
        }
        i = i + 1;
    }
    proof {
        assert(unframed(buf@) == Some(buf@.subrange(2, 2 + l as int)));
    }
    Some(p)
}

/// Law: framing round-trips. For any payload that fits the two-byte prefix,
/// reading a frame out of its encoding yields exactly that payload.
pub proof fn lemma_frame_round_trip(payload: Seq<u8>)
    requires
        payload.len() <= MAX_FRAME_PAYLOAD,
    ensures
        unframed(framed(payload)) == Some(payload),
{
    let b = framed(payload);
    assert(declared_len(b[0], b[1]) == payload.len());
    assert(b.subrange(2, 2 + payload.len() as int) =~= payload);
}

/// Law: a peer that declares a length it does not back with as many bytes
/// is rejected; a short body is never taken as a valid answer.
pub proof fn lemma_short_body_rejected(buf: Seq<u8>)
    requires
        buf.len() >= 2,
        buf.len() - 2 < declared_len(buf[0], buf[1]),
    ensures
        unframed(buf) is None,
{
}

} // verus!
