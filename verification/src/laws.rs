//! Laws of the decoder, stated and proved against the byte-layout model.
//!
//! The encoding functions here are ghost mathematics only: they state what
//! byte pattern a platform's rule assigns to a logical record, so that the
//! decode laws (round trip, platform isolation) can be written down. The
//! library itself never re-encodes; it is read-only.

use vstd::prelude::*;

use crate::codec::big_endian;
use crate::codec::record_fields;
use crate::codec::u16_field;
use crate::codec::u32_field;
use crate::codec::PlatformVariant;
use crate::codec::SceneObject;
use crate::codec::RECORD_SIZE;
use crate::decoder::record_span;
use crate::decoder::stream_count;
use crate::decoder::stream_records;
use crate::decoder::stream_well_formed;
use crate::decoder::SceneObjectCollection;

verus! {

/// The two-byte encoding of a 16-bit value under the given byte order.
pub open spec fn encode_u16(x: u16, big: bool) -> Seq<u8> {
    if big {
        seq![((x >> 8) & 0xff) as u8, (x & 0xff) as u8]
    } else {
        seq![(x & 0xff) as u8, ((x >> 8) & 0xff) as u8]
    }
}

/// The four-byte encoding of a 32-bit value under the given byte order.
pub open spec fn encode_u32(x: u32, big: bool) -> Seq<u8> {
    if big {
        seq![
            ((x >> 24) & 0xff) as u8,
            ((x >> 16) & 0xff) as u8,
            ((x >> 8) & 0xff) as u8,
            (x & 0xff) as u8,
        ]
    } else {
        seq![
            (x & 0xff) as u8,
            ((x >> 8) & 0xff) as u8,
            ((x >> 16) & 0xff) as u8,
            ((x >> 24) & 0xff) as u8,
        ]
    }
}

/// The `RECORD_SIZE`-byte encoding of one logical record under the given
/// byte order: each field in record order, each in the platform's byte
/// order.
pub open spec fn encode_record(o: SceneObject, big: bool) -> Seq<u8> {
    encode_u16(o.object.0, big) + encode_u16(o.rotation.x, big) + encode_u16(o.rotation.y, big)
        + encode_u16(o.rotation.z, big) + encode_u32(o.position.x, big) + encode_u32(
        o.position.y,
        big,
    ) + encode_u32(o.position.z, big) + encode_u32(o.attr1, big) + encode_u32(o.attr2, big)
        + encode_u32(o.attr3, big)
}

/// Decoding undoes encoding for one 16-bit field, in either byte order.
pub proof fn lemma_u16_round_trip(x: u16, big: bool)
    ensures
        u16_field(encode_u16(x, big), 0, big) == x,
{
    let lo = (x & 0xff) as u8;
    let hi = ((x >> 8) & 0xff) as u8;
    assert(((x & 0xff) as u8 as u16) | (((x >> 8) & 0xff) as u8 as u16) << 8 == x)
        by (bit_vector);
    assert((lo as u16) | (hi as u16) << 8 == x);
}

/// Decoding undoes encoding for one 32-bit field, in either byte order.
pub proof fn lemma_u32_round_trip(x: u32, big: bool)
    ensures
        u32_field(encode_u32(x, big), 0, big) == x,
{
    let b0 = (x & 0xff) as u8;
    let b1 = ((x >> 8) & 0xff) as u8;
    let b2 = ((x >> 16) & 0xff) as u8;
    let b3 = ((x >> 24) & 0xff) as u8;
    assert(((x & 0xff) as u8 as u32) | (((x >> 8) & 0xff) as u8 as u32) << 8 | (((x >> 16)
        & 0xff) as u8 as u32) << 16 | (((x >> 24) & 0xff) as u8 as u32) << 24 == x)
        by (bit_vector);
    assert((b0 as u32) | (b1 as u32) << 8 | (b2 as u32) << 16 | (b3 as u32) << 24 == x);
}

/// Round trip for a whole record: decoding the platform encoding of any
/// logical record gives that record back, field for field, in either byte
/// order.
pub proof fn lemma_record_round_trip(o: SceneObject, big: bool)
    ensures
        encode_record(o, big).len() == RECORD_SIZE,
        record_fields(encode_record(o, big), big) == o,
{
    let s = encode_record(o, big);
    assert(s.len() == RECORD_SIZE);
    lemma_field_at(s, encode_u16(o.object.0, big), 0, big);
    lemma_field_at(s, encode_u16(o.rotation.x, big), 2, big);
    lemma_field_at(s, encode_u16(o.rotation.y, big), 4, big);
    lemma_field_at(s, encode_u16(o.rotation.z, big), 6, big);
    lemma_field_at(s, encode_u32(o.position.x, big), 8, big);
    lemma_field_at(s, encode_u32(o.position.y, big), 12, big);
    lemma_field_at(s, encode_u32(o.position.z, big), 16, big);
    lemma_field_at(s, encode_u32(o.attr1, big), 20, big);
    lemma_field_at(s, encode_u32(o.attr2, big), 24, big);
    lemma_field_at(s, encode_u32(o.attr3, big), 28, big);
    lemma_u16_round_trip(o.object.0, big);
    lemma_u16_round_trip(o.rotation.x, big);
    lemma_u16_round_trip(o.rotation.y, big);
    lemma_u16_round_trip(o.rotation.z, big);
    lemma_u32_round_trip(o.position.x, big);
    lemma_u32_round_trip(o.position.y, big);
    lemma_u32_round_trip(o.position.z, big);
    lemma_u32_round_trip(o.attr1, big);
    lemma_u32_round_trip(o.attr2, big);
    lemma_u32_round_trip(o.attr3, big);
}

/// Within an encoded record, the field beginning at `off` reads the same as
/// the lone encoding `piece` of that field: the bytes of `s` at
/// `off .. off + piece.len()` are exactly `piece`.
proof fn lemma_field_at(s: Seq<u8>, piece: Seq<u8>, off: int, big: bool)
    requires
        0 <= off,
        off + piece.len() <= s.len(),
        forall|k: int| 0 <= k < piece.len() ==> s[off + k] == piece[k],
        piece.len() == 2 || piece.len() == 4,
    ensures
        piece.len() == 2 ==> u16_field(s, off, big) == u16_field(piece, 0, big),
        piece.len() == 4 ==> u32_field(s, off, big) == u32_field(piece, 0, big),
{
    assert(s[off + 0] == piece[0]);
    assert(s[off + 1] == piece[1]);
    if piece.len() == 4 {
        assert(s[off + 2] == piece[2]);
        assert(s[off + 3] == piece[3]);
    }
}

/// Platform isolation: one logical record, encoded under any two platform
/// rules and decoded under the matching rule each time, yields identical
/// logical field values, whatever the raw bytes looked like.
pub proof fn lemma_platform_isolation(o: SceneObject, v1: PlatformVariant, v2: PlatformVariant)
    ensures
        record_fields(encode_record(o, big_endian(v1)), big_endian(v1)) == record_fields(
            encode_record(o, big_endian(v2)),
            big_endian(v2),
        ),
        record_fields(encode_record(o, big_endian(v1)), big_endian(v1)) == o,
{
    lemma_record_round_trip(o, big_endian(v1));
    lemma_record_round_trip(o, big_endian(v2));
}

/// Round-trip determinism: two decode results of the same byte stream under
/// the same variant hold bit-identical contents. (`decode` promises each
/// result equals `stream_records` of its input, a function of the stream
/// and variant alone.)
pub proof fn lemma_decode_deterministic(
    c1: SceneObjectCollection,
    c2: SceneObjectCollection,
    bytes: Seq<u8>,
    v: PlatformVariant,
)
    requires
        c1@ == stream_records(bytes, big_endian(v)),
        c2@ == stream_records(bytes, big_endian(v)),
    ensures
        c1@ == c2@,
{
}

/// Order preservation: element `i` of a decode result is decoded from the
/// `i`-th record span of the source stream, so records come out in exactly
/// the order they appear in the file.
pub proof fn lemma_order_preserved(bytes: Seq<u8>, v: PlatformVariant, i: int)
    requires
        stream_well_formed(bytes, big_endian(v)),
        0 <= i < stream_count(bytes, big_endian(v)),
    ensures
        stream_records(bytes, big_endian(v))[i] == record_fields(
            record_span(bytes, i),
            big_endian(v),
        ),
{
}

/// Boundary correctness, size half: a decode result holds exactly as many
/// records as the stream's header announces. (The index half stands in the
/// contract of `SceneObjectCollection::get`.)
pub proof fn lemma_decode_size(bytes: Seq<u8>, v: PlatformVariant)
    requires
        stream_well_formed(bytes, big_endian(v)),
    ensures
        stream_records(bytes, big_endian(v)).len() == stream_count(bytes, big_endian(v)),
{
}

} // verus!
