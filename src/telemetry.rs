//! Length-prefixed framing of telemetry messages: a four-byte little-endian
//! length, then the encoded message. A datagram whose length prefix does not
//! match its size is malformed and is discarded.
use vstd::prelude::*;

verus! {

/// Size of the length prefix.
pub const PREFIX_LEN: usize = 4;

/// The number that four little-endian bytes hold.
pub open spec fn le32(b: Seq<u8>) -> int {
    b[0] + 256 * b[1] + 65536 * b[2] + 16777216 * b[3]
}

/// The frame of `payload`.
pub open spec fn spec_frame(payload: Seq<u8>) -> Seq<u8> {
    let n = payload.len() as u32;
    seq![(n & 0xff) as u8, ((n >> 8) & 0xff) as u8, ((n >> 16) & 0xff) as u8, (n >> 24) as u8] + payload
}

/// Whether `bytes` is a well-formed frame.
pub open spec fn is_frame(bytes: Seq<u8>) -> bool {
    bytes.len() >= PREFIX_LEN && le32(bytes) == bytes.len() - PREFIX_LEN
}

/// Frames a payload.
pub fn encode_frame(payload: &Vec<u8>) -> (r: Vec<u8>)
    requires
        payload@.len() <= u32::MAX,
    ensures
        r@ == spec_frame(payload@),
        is_frame(r@),
        r@.subrange(PREFIX_LEN as int, r@.len() as int) == payload@,
{
    let n = payload.len() as u32;
    let b0 = (n & 0xff) as u8;
    let b1 = ((n >> 8) & 0xff) as u8;
    let b2 = ((n >> 16) & 0xff) as u8;
    let b3 = (n >> 24) as u8;
    assert(b0 as int + 256 * b1 as int + 65536 * b2 as int + 16777216 * b3 as int == n as int) by (bit_vector)
        requires
            b0 == (n & 0xff) as u8,
            b1 == ((n >> 8) & 0xff) as u8,
            b2 == ((n >> 16) & 0xff) as u8,
            b3 == (n >> 24) as u8,
    ;
    let mut out: Vec<u8> = vec![b0, b1, b2, b3];
    let mut i: usize = 0;
    while i < payload.len()
        invariant
            i <= payload@.len(),
            out@ == seq![b0, b1, b2, b3] + payload@.subrange(0, i as int),
        decreases payload@.len() - i,
    {
        out.push(payload[i]);
        i = i + 1;
        assert(out@ =~= seq![b0, b1, b2, b3] + payload@.subrange(0, i as int));
    }
    assert(payload@.subrange(0, payload@.len() as int) =~= payload@);
    assert(out@.subrange(4, out@.len() as int) =~= payload@);
    out
}

/// Takes the payload out of a frame; `None` when `bytes` is not a
/// well-formed frame.
pub fn decode_frame(bytes: &Vec<u8>) -> (r: Option<Vec<u8>>)
    ensures
        r.is_some() == is_frame(bytes@),
        r.is_some() ==> r.unwrap()@ == bytes@.subrange(PREFIX_LEN as int, bytes@.len() as int),
{
    if bytes.len() < PREFIX_LEN {
        return None;
    }
    let n: u64 = bytes[0] as u64 + 256 * (bytes[1] as u64) + 65536 * (bytes[2] as u64) + 16777216 * (bytes[3] as u64);
    if n != (bytes.len() - PREFIX_LEN) as u64 {
        return None;
    }
    let mut out: Vec<u8> = Vec::new();
    let mut i: usize = PREFIX_LEN;
    while i < bytes.len()
        invariant
            PREFIX_LEN <= i <= bytes@.len(),
            out@ == bytes@.subrange(PREFIX_LEN as int, i as int),
        decreases bytes@.len() - i,
    {
        out.push(bytes[i]);
        i = i + 1;
        assert(out@ =~= bytes@.subrange(PREFIX_LEN as int, i as int));
    }
    Some(out)
}

/// Decoding the frame of a payload gives the payload back.
pub proof fn lemma_frame_round_trip(payload: Seq<u8>)
    requires
        payload.len() <= u32::MAX,
    ensures
        is_frame(spec_frame(payload)),
        spec_frame(payload).subrange(PREFIX_LEN as int, spec_frame(payload).len() as int) == payload,
{
    let n = payload.len() as u32;
    let f = spec_frame(payload);
    let (b0, b1, b2, b3) = ((n & 0xff) as u8, ((n >> 8) & 0xff) as u8, ((n >> 16) & 0xff) as u8, (n >> 24) as u8);
    assert(b0 as int + 256 * b1 as int + 65536 * b2 as int + 16777216 * b3 as int == n as int) by (bit_vector)
        requires
            b0 == (n & 0xff) as u8,
            b1 == ((n >> 8) & 0xff) as u8,
            b2 == ((n >> 16) & 0xff) as u8,
            b3 == (n >> 24) as u8,
    ;
    assert(f[0] == b0 && f[1] == b1 && f[2] == b2 && f[3] == b3);
    assert(f.subrange(4, f.len() as int) =~= payload);
}

} // verus!
