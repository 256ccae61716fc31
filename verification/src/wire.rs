//! Wire encodings.
//!
//! Identifiers that cross the control socket travel as big-endian `u32`
//! payloads; kernel map keys carry file descriptors and flow ids as
//! little-endian words, the order in which the kernel-side programs read
//! them.  Control-socket frames are a 4-byte big-endian length prefix
//! followed by that many payload bytes.

use vstd::prelude::*;

verus! {

/// The four big-endian bytes of `x`, most significant first.
pub open spec fn spec_u32_to_be_bytes(x: u32) -> Seq<u8> {
    seq![
        ((x >> 24) & 0xff) as u8,
        ((x >> 16) & 0xff) as u8,
        ((x >> 8) & 0xff) as u8,
        (x & 0xff) as u8,
    ]
}

/// The `u32` read big-endian from the first four bytes of `s`.
pub open spec fn spec_u32_from_be_bytes(s: Seq<u8>) -> u32
    recommends
        s.len() >= 4,
{
    ((s[0] as u32) << 24) | ((s[1] as u32) << 16) | ((s[2] as u32) << 8) | (s[3] as u32)
}

/// Encoding then decoding a `u32` big-endian gives the word back.
pub proof fn lemma_u32_be_round_trip(x: u32)
    ensures
        spec_u32_from_be_bytes(spec_u32_to_be_bytes(x)) == x,
{
    let b0 = ((x >> 24) & 0xff) as u8;
    let b1 = ((x >> 16) & 0xff) as u8;
    let b2 = ((x >> 8) & 0xff) as u8;
    let b3 = (x & 0xff) as u8;
    assert(((b0 as u32) << 24) | ((b1 as u32) << 16) | ((b2 as u32) << 8) | (b3 as u32) == x)
        by (bit_vector)
        requires
            b0 == ((x >> 24) & 0xff) as u8,
            b1 == ((x >> 16) & 0xff) as u8,
            b2 == ((x >> 8) & 0xff) as u8,
            b3 == (x & 0xff) as u8,
    ;
}

/// Big-endian encoding of a `u32`, as sent in `Load` and `Connect`
/// responses.
pub fn u32_to_be_bytes(x: u32) -> (r: Vec<u8>)
    ensures
        r@ == spec_u32_to_be_bytes(x),
{
    let mut r: Vec<u8> = Vec::new();
    r.push(((x >> 24) & 0xff) as u8);
    r.push(((x >> 16) & 0xff) as u8);
    r.push(((x >> 8) & 0xff) as u8);
    r.push((x & 0xff) as u8);
    assert(r@ =~= spec_u32_to_be_bytes(x));
    r
}

/// Reads a big-endian `u32` from the head of `input`.
pub fn read_be_u32(input: &[u8]) -> (x: u32)
    requires
        input@.len() >= 4,
    ensures
        x == spec_u32_from_be_bytes(input@),
{
    ((input[0] as u32) << 24) | ((input[1] as u32) << 16) | ((input[2] as u32) << 8) | (
    input[3] as u32)
}

/// The four little-endian bytes of `x`, least significant first: the order
/// kernel map keys are written in.
pub open spec fn spec_u32_to_le_bytes(x: u32) -> Seq<u8> {
    seq![
        (x & 0xff) as u8,
        ((x >> 8) & 0xff) as u8,
        ((x >> 16) & 0xff) as u8,
        ((x >> 24) & 0xff) as u8,
    ]
}

/// Little-endian encoding of a `u32` map key.
pub fn u32_to_le_bytes(x: u32) -> (r: Vec<u8>)
    ensures
        r@ == spec_u32_to_le_bytes(x),
{
    let mut r: Vec<u8> = Vec::new();
    r.push((x & 0xff) as u8);
    r.push(((x >> 8) & 0xff) as u8);
    r.push(((x >> 16) & 0xff) as u8);
    r.push(((x >> 24) & 0xff) as u8);
    assert(r@ =~= spec_u32_to_le_bytes(x));
    r
}

/// The little-endian bytes of an `i32`, written through its `u32` bit
/// pattern; socket file descriptors are keyed this way.
pub open spec fn spec_i32_to_le_bytes(x: i32) -> Seq<u8> {
    spec_u32_to_le_bytes(x as u32)
}

/// Little-endian encoding of an `i32` map key (a file descriptor).
pub fn i32_to_le_bytes(x: i32) -> (r: Vec<u8>)
    ensures
        r@ == spec_i32_to_le_bytes(x),
{
    #[verifier::truncate]
    let u: u32 = x as u32;
    u32_to_le_bytes(u)
}

/// The `u32` read little-endian from the first four bytes of `s`.
pub open spec fn spec_u32_from_le_bytes(s: Seq<u8>) -> u32
    recommends
        s.len() >= 4,
{
    (s[0] as u32) | ((s[1] as u32) << 8) | ((s[2] as u32) << 16) | ((s[3] as u32) << 24)
}

/// Encoding then decoding a `u32` little-endian gives the word back.
pub proof fn lemma_u32_le_round_trip(x: u32)
    ensures
        spec_u32_from_le_bytes(spec_u32_to_le_bytes(x)) == x,
{
    let b0 = (x & 0xff) as u8;
    let b1 = ((x >> 8) & 0xff) as u8;
    let b2 = ((x >> 16) & 0xff) as u8;
    let b3 = ((x >> 24) & 0xff) as u8;
    assert((b0 as u32) | ((b1 as u32) << 8) | ((b2 as u32) << 16) | ((b3 as u32) << 24) == x)
        by (bit_vector)
        requires
            b0 == (x & 0xff) as u8,
            b1 == ((x >> 8) & 0xff) as u8,
            b2 == ((x >> 16) & 0xff) as u8,
            b3 == ((x >> 24) & 0xff) as u8,
    ;
}

/// Reads a little-endian `u32` starting at `offset`.
pub fn read_le_u32(input: &[u8], offset: usize) -> (x: u32)
    requires
        offset + 4 <= input@.len(),
    ensures
        x == spec_u32_from_le_bytes(input@.skip(offset as int)),
{
    let x = (input[offset] as u32) | ((input[offset + 1] as u32) << 8) | ((input[offset
        + 2] as u32) << 16) | ((input[offset + 3] as u32) << 24);
    proof {
        let s = input@.skip(offset as int);
        assert(s[0] == input@[offset as int]);
        assert(s[1] == input@[offset + 1]);
        assert(s[2] == input@[offset + 2]);
        assert(s[3] == input@[offset + 3]);
    }
    x
}

/// The two little-endian bytes of `x`, least significant first.
pub open spec fn spec_u16_to_le_bytes(x: u16) -> Seq<u8> {
    seq![(x & 0xff) as u8, ((x >> 8) & 0xff) as u8]
}

/// The `u16` read little-endian from the first two bytes of `s`.
pub open spec fn spec_u16_from_le_bytes(s: Seq<u8>) -> u16
    recommends
        s.len() >= 2,
{
    (s[0] as u16) | ((s[1] as u16) << 8)
}

/// Encoding then decoding a `u16` little-endian gives the word back.
pub proof fn lemma_u16_le_round_trip(x: u16)
    ensures
        spec_u16_from_le_bytes(spec_u16_to_le_bytes(x)) == x,
{
    let b0 = (x & 0xff) as u8;
    let b1 = ((x >> 8) & 0xff) as u8;
    assert((b0 as u16) | ((b1 as u16) << 8) == x) by (bit_vector)
        requires
            b0 == (x & 0xff) as u8,
            b1 == ((x >> 8) & 0xff) as u8,
    ;
}

/// Little-endian encoding of a `u16`.
pub fn u16_to_le_bytes(x: u16) -> (r: Vec<u8>)
    ensures
        r@ == spec_u16_to_le_bytes(x),
{
    let mut r: Vec<u8> = Vec::new();
    r.push((x & 0xff) as u8);
    r.push(((x >> 8) & 0xff) as u8);
    assert(r@ =~= spec_u16_to_le_bytes(x));
    r
}

/// Reads a little-endian `u16` starting at `offset`.
pub fn read_le_u16(input: &[u8], offset: usize) -> (x: u16)
    requires
        offset + 2 <= input@.len(),
    ensures
        x == spec_u16_from_le_bytes(input@.skip(offset as int)),
{
    let x = (input[offset] as u16) | ((input[offset + 1] as u16) << 8);
    proof {
        let s = input@.skip(offset as int);
        assert(s[0] == input@[offset as int]);
        assert(s[1] == input@[offset + 1]);
    }
    x
}

/// The eight little-endian bytes of `x`, least significant first.
pub open spec fn spec_u64_to_le_bytes(x: u64) -> Seq<u8> {
    seq![
        (x & 0xff) as u8,
        ((x >> 8) & 0xff) as u8,
        ((x >> 16) & 0xff) as u8,
        ((x >> 24) & 0xff) as u8,
        ((x >> 32) & 0xff) as u8,
        ((x >> 40) & 0xff) as u8,
        ((x >> 48) & 0xff) as u8,
        ((x >> 56) & 0xff) as u8,
    ]
}

/// The `u64` read little-endian from the first eight bytes of `s`.
pub open spec fn spec_u64_from_le_bytes(s: Seq<u8>) -> u64
    recommends
        s.len() >= 8,
{
    (s[0] as u64) | ((s[1] as u64) << 8) | ((s[2] as u64) << 16) | ((s[3] as u64) << 24) | ((
    s[4] as u64) << 32) | ((s[5] as u64) << 40) | ((s[6] as u64) << 48) | ((s[7] as u64) << 56)
}

/// Encoding then decoding a `u64` little-endian gives the word back.
pub proof fn lemma_u64_le_round_trip(x: u64)
    ensures
        spec_u64_from_le_bytes(spec_u64_to_le_bytes(x)) == x,
{
    let b0 = (x & 0xff) as u8;
    let b1 = ((x >> 8) & 0xff) as u8;
    let b2 = ((x >> 16) & 0xff) as u8;
    let b3 = ((x >> 24) & 0xff) as u8;
    let b4 = ((x >> 32) & 0xff) as u8;
    let b5 = ((x >> 40) & 0xff) as u8;
    let b6 = ((x >> 48) & 0xff) as u8;
    let b7 = ((x >> 56) & 0xff) as u8;
    assert((b0 as u64) | ((b1 as u64) << 8) | ((b2 as u64) << 16) | ((b3 as u64) << 24) | ((
    b4 as u64) << 32) | ((b5 as u64) << 40) | ((b6 as u64) << 48) | ((b7 as u64) << 56) == x)
        by (bit_vector)
        requires
            b0 == (x & 0xff) as u8,
            b1 == ((x >> 8) & 0xff) as u8,
            b2 == ((x >> 16) & 0xff) as u8,
            b3 == ((x >> 24) & 0xff) as u8,
            b4 == ((x >> 32) & 0xff) as u8,
            b5 == ((x >> 40) & 0xff) as u8,
            b6 == ((x >> 48) & 0xff) as u8,
            b7 == ((x >> 56) & 0xff) as u8,
    ;
}

/// Little-endian encoding of a `u64`, used inside kernel map values.
pub fn u64_to_le_bytes(x: u64) -> (r: Vec<u8>)
    ensures
        r@ == spec_u64_to_le_bytes(x),
{
    let mut r: Vec<u8> = Vec::new();
    r.push((x & 0xff) as u8);
    r.push(((x >> 8) & 0xff) as u8);
    r.push(((x >> 16) & 0xff) as u8);
    r.push(((x >> 24) & 0xff) as u8);
    r.push(((x >> 32) & 0xff) as u8);
    r.push(((x >> 40) & 0xff) as u8);
    r.push(((x >> 48) & 0xff) as u8);
    r.push(((x >> 56) & 0xff) as u8);
    assert(r@ =~= spec_u64_to_le_bytes(x));
    r
}

/// Reads a little-endian `u64` starting at `offset`.
pub fn read_le_u64(input: &[u8], offset: usize) -> (x: u64)
    requires
        offset + 8 <= input@.len(),
    ensures
        x == spec_u64_from_le_bytes(input@.skip(offset as int)),
{
    let x = (input[offset] as u64) | ((input[offset + 1] as u64) << 8) | ((input[offset
        + 2] as u64) << 16) | ((input[offset + 3] as u64) << 24) | ((input[offset + 4] as u64)
        << 32) | ((input[offset + 5] as u64) << 40) | ((input[offset + 6] as u64) << 48) | ((
    input[offset + 7] as u64) << 56);
    proof {
        let s = input@.skip(offset as int);
        assert(s[0] == input@[offset as int]);
        assert(s[1] == input@[offset + 1]);
        assert(s[2] == input@[offset + 2]);
        assert(s[3] == input@[offset + 3]);
        assert(s[4] == input@[offset + 4]);
        assert(s[5] == input@[offset + 5]);
        assert(s[6] == input@[offset + 6]);
        assert(s[7] == input@[offset + 7]);
    }
    x
}

/// A control-socket frame: the payload length as four big-endian bytes,
/// then the payload itself.
pub open spec fn spec_frame(payload: Seq<u8>) -> Seq<u8>
    recommends
        payload.len() <= u32::MAX,
{
    spec_u32_to_be_bytes(payload.len() as u32) + payload
}

/// Wraps a payload in a length-delimited frame.
pub fn frame_encode(payload: &[u8]) -> (r: Vec<u8>)
    requires
        payload@.len() <= u32::MAX,
    ensures
        r@ == spec_frame(payload@),
{
    let mut r = u32_to_be_bytes(payload.len() as u32);
    r.extend_from_slice(payload);
    assert(r@ =~= spec_frame(payload@));
    r
}

/// Takes one frame off the head of `buf`: the payload and the number of
/// bytes consumed.  `None` when the buffer does not yet hold a whole frame.
pub fn frame_extract(buf: &[u8]) -> (r: Option<(Vec<u8>, usize)>)
    ensures
        match r {
            Some(pair) => {
                &&& buf@.len() >= 4
                &&& pair.1 == 4 + spec_u32_from_be_bytes(buf@)
                &&& pair.1 <= buf@.len()
                &&& pair.0@ == buf@.subrange(4, pair.1 as int)
            },
            None => buf@.len() < 4 || 4 + spec_u32_from_be_bytes(buf@) > buf@.len(),
        },
{
    if buf.len() < 4 {
        return None;
    }
    let len = read_be_u32(buf);
    if len as usize > buf.len() - 4 {
        return None;
    }
    let consumed = 4 + len as usize;
    let mut payload: Vec<u8> = Vec::new();
    let mut i: usize = 4;
    while i < consumed
        invariant
            4 <= i <= consumed,
            consumed <= buf@.len(),
            payload@ == buf@.subrange(4, i as int),
        decreases consumed - i,
    {
        payload.push(buf[i]);
        assert(payload@ =~= buf@.subrange(4, i + 1));
        i = i + 1;
    }
    Some((payload, consumed))
}

/// A frame written at the head of a stream is read back whole: the length
/// prefix recovers the payload length, and the payload bytes follow it
/// unchanged, whatever bytes come after the frame.
pub proof fn lemma_frame_round_trip(payload: Seq<u8>, rest: Seq<u8>)
    requires
        payload.len() <= u32::MAX,
    ensures
        spec_u32_from_be_bytes(spec_frame(payload) + rest) == payload.len(),
        (spec_frame(payload) + rest).subrange(4, 4 + payload.len() as int) == payload,
{
    let full = spec_frame(payload) + rest;
    lemma_u32_be_round_trip(payload.len() as u32);
    assert(full[0] == spec_u32_to_be_bytes(payload.len() as u32)[0]);
    assert(full[1] == spec_u32_to_be_bytes(payload.len() as u32)[1]);
    assert(full[2] == spec_u32_to_be_bytes(payload.len() as u32)[2]);
    assert(full[3] == spec_u32_to_be_bytes(payload.len() as u32)[3]);
    assert(full.subrange(4, 4 + payload.len() as int) =~= payload);
}

} // verus!
