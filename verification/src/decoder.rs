//! Set decoder: drives the platform codec over a whole byte stream.
//!
//! A SET stream opens with a `HEADER_SIZE`-byte header whose first four bytes
//! hold the record count, in the platform's byte order; the rest of the
//! header is padding and is ignored. `count` records of `RECORD_SIZE` bytes
//! follow. Trailing bytes beyond the expected total are neither consumed nor
//! validated.

use vstd::prelude::*;

use crate::codec::big_endian;
use crate::codec::decode_record;
use crate::codec::record_fields;
use crate::codec::u32_field;
use crate::codec::PlatformVariant;
use crate::codec::SceneObject;
use crate::codec::RECORD_SIZE;

verus! {

/// Width in bytes of the leading file header. Its first four bytes hold the
/// record count; the remainder is padding.
pub const HEADER_SIZE: usize = 32;

/// Why a decode failed. Every failure is terminal for the decode call that
/// produced it: decoding never partially succeeds.
#[derive(Clone, Copy, Debug, PartialEq, Eq, Structural)]
pub enum DecodeError {
    /// The stream ended before the count field or the expected number of
    /// record bytes was available: a corrupt or wrong-platform file.
    TruncatedInput,
    /// The platform code lies outside the closed set of three variants: a
    /// caller programming error.
    UnsupportedPlatform,
}

/// The record count announced by the header of `bytes`.
pub open spec fn stream_count(bytes: Seq<u8>, big: bool) -> u32
    recommends
        bytes.len() >= HEADER_SIZE,
{
    u32_field(bytes, 0, big)
}

/// True when `bytes` holds a full header and as many whole records as the
/// header announces: exactly the streams that decode successfully.
pub open spec fn stream_well_formed(bytes: Seq<u8>, big: bool) -> bool {
    &&& bytes.len() >= HEADER_SIZE
    &&& bytes.len() >= HEADER_SIZE + RECORD_SIZE * stream_count(bytes, big)
}

/// The byte span of record `i`: the `RECORD_SIZE` bytes starting at
/// `HEADER_SIZE + RECORD_SIZE * i`.
pub open spec fn record_span(bytes: Seq<u8>, i: int) -> Seq<u8> {
    bytes.subrange(
        HEADER_SIZE + RECORD_SIZE * i,
        HEADER_SIZE + RECORD_SIZE * i + RECORD_SIZE,
    )
}

/// The decoded records of a well-formed stream, in stream order: record `i`
/// of the result is decoded from the `i`-th record span of `bytes`.
pub open spec fn stream_records(bytes: Seq<u8>, big: bool) -> Seq<SceneObject>
    recommends
        stream_well_formed(bytes, big),
{
    Seq::new(
        stream_count(bytes, big) as nat,
        |i: int| record_fields(record_span(bytes, i), big),
    )
}

/// An ordered, index-addressable sequence of decoded scene objects,
/// immutable after construction; its length is fixed at decode time.
pub struct SceneObjectCollection {
    objects: Vec<SceneObject>,
}

impl View for SceneObjectCollection {
    type V = Seq<SceneObject>;

    closed spec fn view(&self) -> Seq<SceneObject> {
        self.objects@
    }
}

impl SceneObjectCollection {
    /// Number of decoded records.
    pub fn size(&self) -> (n: usize)
        ensures
            n == self@.len(),
    {
        self.objects.len()
    }

    /// The record at `index` (0-based), or `None` when `index` is at or past
    /// the end. Never panics, never reads out of bounds.
    pub fn get(&self, index: usize) -> (r: Option<SceneObject>)
        ensures
            index < self@.len() ==> r == Some(self@[index as int]),
            index >= self@.len() ==> r is None,
    {
        if index < self.objects.len() {
            Some(self.objects[index])
        } else {
            None
        }
    }
}

/// Decodes one SET byte stream under the given platform variant.
///
/// Succeeds if and only if the stream is well formed: it holds a full header
/// and as many whole records as the header's count field announces. The
/// result then holds exactly those records, decoded per the platform's byte
/// order, in stream order. Any shorter stream fails with `TruncatedInput`;
/// no other validation is performed.
pub fn decode(bytes: &[u8], variant: PlatformVariant) -> (r: Result<
    SceneObjectCollection,
    DecodeError,
>)
    ensures
        stream_well_formed(bytes@, big_endian(variant)) ==> (r matches Ok(c) && c@
            == stream_records(bytes@, big_endian(variant))),
        !stream_well_formed(bytes@, big_endian(variant)) ==> r == Err::<
            SceneObjectCollection,
            DecodeError,
        >(DecodeError::TruncatedInput),
{
    let ghost big = big_endian(variant);
    if bytes.len() < HEADER_SIZE {
        return Err(DecodeError::TruncatedInput);
    }
    let count_field = crate::codec::read_u32(bytes, 0, variant);
    let count = count_field as usize;
    if (bytes.len() - HEADER_SIZE) / RECORD_SIZE < count {
        proof {
            lemma_room_for_records(bytes@.len() as int, count as int);
        }
        return Err(DecodeError::TruncatedInput);
    }
    proof {
        lemma_room_for_records(bytes@.len() as int, count as int);
    }
    let mut objects: Vec<SceneObject> = Vec::new();
    let mut i: usize = 0;
    while i < count
        invariant
            i <= count,
            bytes@.len() <= usize::MAX,
            count == stream_count(bytes@, big),
            big == big_endian(variant),
            HEADER_SIZE + RECORD_SIZE * count <= bytes@.len(),
            objects@.len() == i,
            forall|j: int|
                0 <= j < i ==> objects@[j] == record_fields(record_span(bytes@, j), big),
        decreases count - i,
    {
        let obj = decode_record(bytes, HEADER_SIZE + RECORD_SIZE * i, variant);
        objects.push(obj);
        i = i + 1;
    }
    let c = SceneObjectCollection { objects };
    proof {
        assert(c@ =~= stream_records(bytes@, big));
    }
    Ok(c)
}

/// The division test in `decode` agrees with the mathematical bound of
/// `stream_well_formed`: the tail past the header holds `count` whole
/// records exactly when `count` is at most the tail's length in records.
proof fn lemma_room_for_records(len: int, count: int)
    requires
        len >= HEADER_SIZE,
        count >= 0,
    ensures
        (len - HEADER_SIZE) / (RECORD_SIZE as int) >= count <==> len >= HEADER_SIZE + RECORD_SIZE
            * count,
{
    let tail = len - HEADER_SIZE;
    let q = tail / 32;
    vstd::arithmetic::div_mod::lemma_fundamental_div_mod(tail, 32);
    vstd::arithmetic::div_mod::lemma_mod_bound(tail, 32);
    assert(tail == 32 * q + tail % 32);
    assert(q >= count ==> 32 * q >= 32 * count);
    assert(q <= count - 1 ==> 32 * q <= 32 * count - 32);
}

/// Maps a caller-supplied integer platform code to its variant: 0 is
/// ConsoleA, 1 is ConsoleB, 2 is DesktopPC; any other code is refused.
pub fn variant_from_code(code: u32) -> (r: Result<PlatformVariant, DecodeError>)
    ensures
        code == 0 ==> r == Ok::<PlatformVariant, DecodeError>(PlatformVariant::ConsoleA),
        code == 1 ==> r == Ok::<PlatformVariant, DecodeError>(PlatformVariant::ConsoleB),
        code == 2 ==> r == Ok::<PlatformVariant, DecodeError>(PlatformVariant::DesktopPC),
        code > 2 ==> r == Err::<PlatformVariant, DecodeError>(DecodeError::UnsupportedPlatform),
{
    match code {
        0 => Ok(PlatformVariant::ConsoleA),
        1 => Ok(PlatformVariant::ConsoleB),
        2 => Ok(PlatformVariant::DesktopPC),
        _ => Err(DecodeError::UnsupportedPlatform),
    }
}

/// Decodes one SET byte stream under an integer platform code, as the
/// external boundary supplies it. A code outside the closed set fails with
/// `UnsupportedPlatform` before any byte of the stream is examined; a
/// supported code decodes exactly as `decode` does.
pub fn decode_with_code(bytes: &[u8], code: u32) -> (r: Result<
    SceneObjectCollection,
    DecodeError,
>)
    ensures
        code > 2 ==> r == Err::<SceneObjectCollection, DecodeError>(
            DecodeError::UnsupportedPlatform,
        ),
        code <= 2 ==> {
            let big = big_endian(code_variant(code));
            &&& stream_well_formed(bytes@, big) ==> (r matches Ok(c) && c@ == stream_records(
                bytes@,
                big,
            ))
            &&& !stream_well_formed(bytes@, big) ==> r == Err::<
                SceneObjectCollection,
                DecodeError,
            >(DecodeError::TruncatedInput)
        },
{
    match variant_from_code(code) {
        Ok(variant) => decode(bytes, variant),
        Err(e) => Err(e),
    }
}

/// The variant a supported platform code selects.
pub open spec fn code_variant(code: u32) -> PlatformVariant
    recommends
        code <= 2,
{
    if code == 0 {
        PlatformVariant::ConsoleA
    } else if code == 1 {
        PlatformVariant::ConsoleB
    } else {
        PlatformVariant::DesktopPC
    }
}

} // verus!
