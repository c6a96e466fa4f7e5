//! Length-prefixed framing of messages on a byte stream.
//!
//! A frame is a four-byte big-endian length followed by that many payload
//! bytes, so that a reader can cut exactly one message out of the stream.
use vstd::prelude::*;

verus! {

/// Number of bytes of the length prefix that starts every frame.
pub const PREFIX_LEN: usize = 4;

/// The four big-endian bytes that encode `n`.
pub open spec fn length_prefix(n: u32) -> Seq<u8> {
    seq![(n >> 24u32) as u8, (n >> 16u32) as u8, (n >> 8u32) as u8, n as u8]
}

/// The value of four big-endian bytes.
pub open spec fn prefix_value(b0: u8, b1: u8, b2: u8, b3: u8) -> u32 {
    ((b0 as u32) << 24u32) | ((b1 as u32) << 16u32) | ((b2 as u32) << 8u32) | (b3 as u32)
}

/// The length declared by the prefix at the start of `buf` (at least four bytes long).
pub open spec fn declared_len(buf: Seq<u8>) -> u32 {
    prefix_value(buf[0], buf[1], buf[2], buf[3])
}

/// The bytes that carry `payload` on the stream.
pub open spec fn frame(payload: Seq<u8>) -> Seq<u8> {
    length_prefix(payload.len() as u32) + payload
}

/// What a reader finds at the start of its buffer.
pub enum FrameParse {
    /// Not yet a whole frame.
    Incomplete,
    /// The prefix declares a frame longer than the reader may hold.
    TooLarge,
    /// One whole frame: its payload, and the bytes that follow it.
    Complete(Seq<u8>, Seq<u8>),
}

/// Cuts the first frame out of `buf` for a reader that holds at most `capacity` bytes.
pub open spec fn parse_frame(buf: Seq<u8>, capacity: nat) -> FrameParse {
    if buf.len() < PREFIX_LEN {
        FrameParse::Incomplete
    } else {
        let end = PREFIX_LEN + declared_len(buf);
        if end > capacity {
            FrameParse::TooLarge
        } else if buf.len() < end {
            FrameParse::Incomplete
        } else {
            FrameParse::Complete(buf.subrange(PREFIX_LEN as int, end), buf.subrange(end, buf.len() as int))
        }
    }
}

/// Decoding the four bytes of a length prefix gives back the length.
pub proof fn lemma_prefix_round_trip(n: u32)
    ensures
        prefix_value(length_prefix(n)[0], length_prefix(n)[1], length_prefix(n)[2], length_prefix(n)[3]) == n,
{
    let b0 = (n >> 24u32) as u8;
    let b1 = (n >> 16u32) as u8;
    let b2 = (n >> 8u32) as u8;
    let b3 = n as u8;
    assert(((b0 as u32) << 24u32) | ((b1 as u32) << 16u32) | ((b2 as u32) << 8u32) | (b3 as u32) == n) by (bit_vector)
        requires
            b0 == (n >> 24u32) as u8,
            b1 == (n >> 16u32) as u8,
            b2 == (n >> 8u32) as u8,
            b3 == n as u8,
    ;
}

/// A frame read back by a reader whose capacity holds it yields the payload
/// that was framed, and leaves whatever followed it untouched.
pub proof fn lemma_frame_round_trip(payload: Seq<u8>, rest: Seq<u8>, capacity: nat)
    requires
        payload.len() <= u32::MAX,
        PREFIX_LEN + payload.len() <= capacity,
    ensures
        parse_frame(frame(payload) + rest, capacity) == FrameParse::Complete(payload, rest),
{
    let n = payload.len() as u32;
    let buf = frame(payload) + rest;
    lemma_prefix_round_trip(n);
    assert(buf[0] == length_prefix(n)[0]);
    assert(buf[1] == length_prefix(n)[1]);
    assert(buf[2] == length_prefix(n)[2]);
    assert(buf[3] == length_prefix(n)[3]);
    assert(declared_len(buf) == n);
    assert(buf.subrange(PREFIX_LEN as int, PREFIX_LEN + n) =~= payload);
    assert(buf.subrange(PREFIX_LEN + n, buf.len() as int) =~= rest);
}

/// Appends the frame that carries `payload` to `out`.
pub fn push_frame(out: &mut Vec<u8>, payload: &[u8])
    requires
        payload@.len() <= u32::MAX,
    ensures
        final(out)@ == old(out)@ + frame(payload@),
{
    let n = payload.len() as u32;
    out.push((n >> 24u32) as u8);
    out.push((n >> 16u32) as u8);
    out.push((n >> 8u32) as u8);
    out.push(n as u8);
    push_bytes(out, payload);
    assert(length_prefix(n) + payload@ =~= frame(payload@));
    assert(old(out)@ + length_prefix(n) + payload@ =~= old(out)@ + frame(payload@));
}

/// Appends `data` to `out`.
pub fn push_bytes(out: &mut Vec<u8>, data: &[u8])
    ensures
        final(out)@ == old(out)@ + data@,
{
    let mut i: usize = 0;
    while i < data.len()
        invariant
            i <= data@.len(),
            out@ == old(out)@ + data@.subrange(0, i as int),
        decreases data@.len() - i,
    {
        out.push(data[i]);
        i = i + 1;
        assert(data@.subrange(0, i as int) =~= data@.subrange(0, i - 1) + seq![data@[i - 1]]);
    }
    assert(data@.subrange(0, i as int) =~= data@);
}

/// Reads the length declared by the prefix at the start of `buf`.
pub fn read_declared_len(buf: &[u8]) -> (r: u32)
    requires
        buf@.len() >= PREFIX_LEN,
    ensures
        r == declared_len(buf@),
{
    ((buf[0] as u32) << 24u32) | ((buf[1] as u32) << 16u32) | ((buf[2] as u32) << 8u32) | (buf[3] as u32)
}

} // verus!
