//! On-disk record codec. A stored record is `[kind][checksum][payload]`:
//! one kind byte, a little-endian CRC-32 over the kind byte and the payload
//! (never over the checksum field itself), then the payload. Decoding
//! recomputes the checksum over what was actually read and reports a
//! mismatch as corruption, never as silently wrong data.

use vstd::prelude::*;
use vstd::slice::{slice_subrange, slice_to_vec};

use crate::error::HeapError;

verus! {

/// The IEEE CRC-32 of a byte sequence, as crc32fast computes it.
pub uninterp spec fn crc32_of(bytes: Seq<u8>) -> u32;

/// Relies on crc32fast::Hasher (new, update, finalize): the IEEE CRC-32 of
/// all updated bytes in order, a function of those bytes alone.
#[verifier::external_body]
fn crc32_byte_then(first: u8, rest: &[u8]) -> (r: u32)
    ensures
        r == crc32_of(seq![first] + rest@),
{
    let mut hasher = crc32fast::Hasher::new();
    hasher.update(&[first]);
    hasher.update(rest);
    hasher.finalize()
}

/// The four little-endian bytes of a 32-bit checksum.
pub open spec fn spec_le32(x: u32) -> Seq<u8> {
    seq![
        (x & 0xff) as u8,
        ((x >> 8) & 0xff) as u8,
        ((x >> 16) & 0xff) as u8,
        ((x >> 24) & 0xff) as u8,
    ]
}

/// The record bytes stored for `kind` and `payload`.
pub open spec fn spec_encode(kind: u8, payload: Seq<u8>) -> Seq<u8> {
    seq![kind] + spec_le32(crc32_of(seq![kind] + payload)) + payload
}

/// What decoding a slot buffer yields: the kind byte and the trailing
/// payload when the stored checksum matches one recomputed over the kind
/// byte and that payload; nothing (corruption) otherwise.
pub open spec fn spec_decode(buf: Seq<u8>) -> Option<(u8, Seq<u8>)>
    recommends
        buf.len() >= 5,
{
    if buf.subrange(1, 5) == spec_le32(crc32_of(seq![buf[0]] + buf.skip(5))) {
        Some((buf[0], buf.skip(5)))
    } else {
        None
    }
}

/// Reading four little-endian bytes back as a 32-bit value returns `x`
/// exactly when the bytes are the little-endian encoding of `x`.
proof fn lemma_le32_read(b1: u8, b2: u8, b3: u8, b4: u8, x: u32)
    ensures
        ((b1 as u32) | ((b2 as u32) << 8) | ((b3 as u32) << 16) | ((b4 as u32) << 24)) == x
            <==> seq![b1, b2, b3, b4] == spec_le32(x),
{
    assert(((b1 as u32) | ((b2 as u32) << 8) | ((b3 as u32) << 16) | ((b4 as u32) << 24)) == x
        <==> (b1 == (x & 0xff) as u8 && b2 == ((x >> 8) & 0xff) as u8 && b3 == ((x >> 16)
        & 0xff) as u8 && b4 == ((x >> 24) & 0xff) as u8)) by (bit_vector);
    if b1 == (x & 0xff) as u8 && b2 == ((x >> 8) & 0xff) as u8 && b3 == ((x >> 16) & 0xff) as u8
        && b4 == ((x >> 24) & 0xff) as u8 {
        assert(seq![b1, b2, b3, b4] =~= spec_le32(x));
    }
    if seq![b1, b2, b3, b4] == spec_le32(x) {
        assert(b1 == spec_le32(x)[0]);
        assert(b2 == spec_le32(x)[1]);
        assert(b3 == spec_le32(x)[2]);
        assert(b4 == spec_le32(x)[3]);
    }
}

/// Build the record bytes for `kind` and `payload`: the kind byte, the
/// little-endian CRC-32 of the kind byte followed by the payload, then the
/// payload itself. Padding to the slot size is the caller's concern.
pub fn encode_record(kind: u8, payload: &Vec<u8>) -> (r: Vec<u8>)
    requires
        payload@.len() + 5 <= usize::MAX,
    ensures
        r@ == spec_encode(kind, payload@),
        r@.len() == payload@.len() + 5,
{
    let crc = crc32_byte_then(kind, payload.as_slice());
    let mut r: Vec<u8> = Vec::new();
    r.push(kind);
    r.push((crc & 0xff) as u8);
    r.push(((crc >> 8) & 0xff) as u8);
    r.push(((crc >> 16) & 0xff) as u8);
    r.push(((crc >> 24) & 0xff) as u8);
    proof {
        assert(r@ =~= seq![kind] + spec_le32(crc) + payload@.subrange(0, 0));
    }
    let mut i: usize = 0;
    while i < payload.len()
        invariant
            i <= payload@.len(),
            payload@.len() + 5 <= usize::MAX,
            crc == crc32_of(seq![kind] + payload@),
            r@ == seq![kind] + spec_le32(crc) + payload@.subrange(0, i as int),
        decreases payload@.len() - i,
    {
        r.push(payload[i]);
        proof {
            assert(r@ =~= seq![kind] + spec_le32(crc) + payload@.subrange(0, i + 1));
        }
        i = i + 1;
    }
    proof {
        assert(payload@.subrange(0, payload@.len() as int) =~= payload@);
    }
    r
}

/// Decode a slot buffer read back from a slab file: check the stored
/// checksum against one recomputed over the kind byte and the payload that
/// was actually read, and hand back the kind and payload on a match. A
/// mismatch is corruption; the buffer is never partially recovered.
pub fn decode_record(buf: &Vec<u8>) -> (r: Result<(u8, Vec<u8>), HeapError>)
    requires
        buf@.len() >= 5,
    ensures
        match r {
            Ok(kp) => spec_decode(buf@) == Some((kp.0, kp.1@)),
            Err(e) => e == HeapError::Corruption && spec_decode(buf@) is None,
        },
{
    let kind = buf[0];
    let stored: u32 = (buf[1] as u32) | ((buf[2] as u32) << 8) | ((buf[3] as u32) << 16) | ((
    buf[4] as u32) << 24);
    let tail = slice_subrange(buf.as_slice(), 5, buf.len());
    let actual = crc32_byte_then(kind, tail);
    proof {
        assert(tail@ =~= buf@.skip(5));
        lemma_le32_read(buf@[1], buf@[2], buf@[3], buf@[4], actual);
        assert(seq![buf@[1], buf@[2], buf@[3], buf@[4]] =~= buf@.subrange(1, 5));
    }
    if stored == actual {
        Ok((kind, slice_to_vec(tail)))
    } else {
        Err(HeapError::Corruption)
    }
}

/// Round trip: decoding an unaltered record yields exactly the kind and
/// payload it was encoded from.
pub proof fn lemma_record_round_trip(kind: u8, payload: Seq<u8>)
    ensures
        spec_decode(spec_encode(kind, payload)) == Some((kind, payload)),
{
    let e = spec_encode(kind, payload);
    assert(e[0] == kind);
    assert(e.skip(5) =~= payload);
    assert(e.subrange(1, 5) =~= spec_le32(crc32_of(seq![kind] + payload)));
}

/// Corruption detection: a buffer that decodes successfully is exactly the
/// encoding of what it decodes to. So altering any byte of a stored record
/// either makes decoding fail with corruption or changes the checksum
/// relation itself (a checksum collision); it can never yield the original
/// kind and payload from different bytes.
pub proof fn lemma_decode_pins_record(buf: Seq<u8>, kind: u8, payload: Seq<u8>)
    requires
        buf.len() >= 5,
        spec_decode(buf) == Some((kind, payload)),
    ensures
        buf == spec_encode(kind, payload),
{
    let e = spec_encode(kind, payload);
    assert(buf[0] == kind);
    assert(buf.skip(5) == payload);
    assert(buf.subrange(1, 5) == spec_le32(crc32_of(seq![kind] + payload)));
    assert forall|i: int| 0 <= i < buf.len() implies buf[i] == e[i] by {
        if 1 <= i < 5 {
            assert(buf[i] == buf.subrange(1, 5)[i - 1]);
        } else if i >= 5 {
            assert(buf[i] == buf.skip(5)[i - 5]);
        }
    }
    assert(buf =~= e);
}

} // verus!
