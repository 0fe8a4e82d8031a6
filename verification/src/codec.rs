//! Platform codec: the per-platform byte layout of one scene-object record.
//!
//! All three platforms share one logical schema. A record is `RECORD_SIZE`
//! bytes, laid out as
//!
//! | offset | field        | width |
//! |--------|--------------|-------|
//! | 0      | object id    | u16   |
//! | 2      | rotation x   | u16   |
//! | 4      | rotation y   | u16   |
//! | 6      | rotation z   | u16   |
//! | 8      | position x   | u32 (IEEE-754 bits) |
//! | 12     | position y   | u32 (IEEE-754 bits) |
//! | 16     | position z   | u32 (IEEE-754 bits) |
//! | 20     | attribute 1  | u32 (IEEE-754 bits) |
//! | 24     | attribute 2  | u32 (IEEE-754 bits) |
//! | 28     | attribute 3  | u32 (IEEE-754 bits) |
//!
//! The platforms differ only in the byte order of the multi-byte fields: the
//! two console variants store them big-endian, the desktop build
//! little-endian. Decoding a field is a pure byte reinterpretation; position
//! and attribute values are carried as raw IEEE-754 bit patterns, so any byte
//! pattern (NaN, infinity) passes through unchanged.

use vstd::prelude::*;

verus! {

/// Width in bytes of one serialized scene-object record.
pub const RECORD_SIZE: usize = 32;

/// The closed set of supported platform encodings.
#[derive(Clone, Copy, Debug, PartialEq, Eq, Structural)]
pub enum PlatformVariant {
    /// Dreamcast-class console build.
    ConsoleA,
    /// GameCube-class console build.
    ConsoleB,
    /// PC build.
    DesktopPC,
}

/// True for the variants whose multi-byte fields are stored big-endian.
pub open spec fn big_endian(v: PlatformVariant) -> bool {
    match v {
        PlatformVariant::ConsoleA => true,
        PlatformVariant::ConsoleB => true,
        PlatformVariant::DesktopPC => false,
    }
}

/// An opaque 16-bit object template id. Any value is legal.
#[derive(Clone, Copy, Debug, PartialEq, Eq, Structural)]
pub struct CObject(pub u16);

/// A rotation: three 16-bit fixed-point angular values. Values wrap; no
/// range invariant beyond the integer's natural bounds.
#[derive(Clone, Copy, Debug, PartialEq, Eq, Structural)]
pub struct CRotation {
    pub x: u16,
    pub y: u16,
    pub z: u16,
}

/// A world-space position: three 32-bit IEEE-754 values, carried as their
/// raw bit patterns.
#[derive(Clone, Copy, Debug, PartialEq, Eq, Structural)]
pub struct PositionBits {
    pub x: u32,
    pub y: u32,
    pub z: u32,
}

/// One decoded scene-object record, platform-independent. The three
/// attributes are opaque per-object IEEE-754 parameters, carried as raw bit
/// patterns.
#[derive(Clone, Copy, Debug, PartialEq, Eq, Structural)]
pub struct SceneObject {
    pub object: CObject,
    pub rotation: CRotation,
    pub position: PositionBits,
    pub attr1: u32,
    pub attr2: u32,
    pub attr3: u32,
}

/// The 16-bit value whose little-endian encoding is the byte pair `b0, b1`.
pub open spec fn u16_le(b0: u8, b1: u8) -> u16 {
    (b0 as u16) | (b1 as u16) << 8
}

/// The 16-bit value whose big-endian encoding is the byte pair `b0, b1`.
pub open spec fn u16_be(b0: u8, b1: u8) -> u16 {
    (b1 as u16) | (b0 as u16) << 8
}

/// The 32-bit value whose little-endian encoding is `b0, b1, b2, b3`.
pub open spec fn u32_le(b0: u8, b1: u8, b2: u8, b3: u8) -> u32 {
    (b0 as u32) | (b1 as u32) << 8 | (b2 as u32) << 16 | (b3 as u32) << 24
}

/// The 32-bit value whose big-endian encoding is `b0, b1, b2, b3`.
pub open spec fn u32_be(b0: u8, b1: u8, b2: u8, b3: u8) -> u32 {
    (b3 as u32) | (b2 as u32) << 8 | (b1 as u32) << 16 | (b0 as u32) << 24
}

/// The 16-bit field stored at byte offset `off` of `s`, in the given byte
/// order.
pub open spec fn u16_field(s: Seq<u8>, off: int, big: bool) -> u16
    recommends
        0 <= off,
        off + 2 <= s.len(),
{
    if big {
        u16_be(s[off], s[off + 1])
    } else {
        u16_le(s[off], s[off + 1])
    }
}

/// The 32-bit field stored at byte offset `off` of `s`, in the given byte
/// order.
pub open spec fn u32_field(s: Seq<u8>, off: int, big: bool) -> u32
    recommends
        0 <= off,
        off + 4 <= s.len(),
{
    if big {
        u32_be(s[off], s[off + 1], s[off + 2], s[off + 3])
    } else {
        u32_le(s[off], s[off + 1], s[off + 2], s[off + 3])
    }
}

/// The scene object encoded by the `RECORD_SIZE`-byte record `s` under the
/// given byte order. Total over any byte pattern: no record content is ever
/// rejected.
pub open spec fn record_fields(s: Seq<u8>, big: bool) -> SceneObject
    recommends
        s.len() == RECORD_SIZE,
{
    SceneObject {
        object: CObject(u16_field(s, 0, big)),
        rotation: CRotation {
            x: u16_field(s, 2, big),
            y: u16_field(s, 4, big),
            z: u16_field(s, 6, big),
        },
        position: PositionBits {
            x: u32_field(s, 8, big),
            y: u32_field(s, 12, big),
            z: u32_field(s, 16, big),
        },
        attr1: u32_field(s, 20, big),
        attr2: u32_field(s, 24, big),
        attr3: u32_field(s, 28, big),
    }
}

/// Reads the 16-bit field at byte offset `off` of `bytes` in the byte order
/// of `variant`.
pub fn read_u16(bytes: &[u8], off: usize, variant: PlatformVariant) -> (r: u16)
    requires
        off + 2 <= bytes@.len(),
    ensures
        r == u16_field(bytes@, off as int, big_endian(variant)),
{
    let n = bytes.len();
    assert(off + 2 <= n);
    let b0 = bytes[off];
    let b1 = bytes[off + 1];
    match variant {
        PlatformVariant::ConsoleA | PlatformVariant::ConsoleB => (b1 as u16) | (b0 as u16) << 8,
        PlatformVariant::DesktopPC => (b0 as u16) | (b1 as u16) << 8,
    }
}

/// Reads the 32-bit field at byte offset `off` of `bytes` in the byte order
/// of `variant`.
pub fn read_u32(bytes: &[u8], off: usize, variant: PlatformVariant) -> (r: u32)
    requires
        off + 4 <= bytes@.len(),
    ensures
        r == u32_field(bytes@, off as int, big_endian(variant)),
{
    let n = bytes.len();
    assert(off + 4 <= n);
    let b0 = bytes[off];
    let b1 = bytes[off + 1];
    let b2 = bytes[off + 2];
    let b3 = bytes[off + 3];
    match variant {
        PlatformVariant::ConsoleA | PlatformVariant::ConsoleB => {
            (b3 as u32) | (b2 as u32) << 8 | (b1 as u32) << 16 | (b0 as u32) << 24
        },
        PlatformVariant::DesktopPC => {
            (b0 as u32) | (b1 as u32) << 8 | (b2 as u32) << 16 | (b3 as u32) << 24
        },
    }
}

/// Decodes the one record that starts at byte offset `off` of `bytes`,
/// reinterpreting its bytes per the byte order of `variant`.
pub fn decode_record(bytes: &[u8], off: usize, variant: PlatformVariant) -> (r: SceneObject)
    requires
        off + RECORD_SIZE <= bytes@.len(),
    ensures
        r == record_fields(
            bytes@.subrange(off as int, off + RECORD_SIZE as int),
            big_endian(variant),
        ),
{
    let n = bytes.len();
    assert(off + RECORD_SIZE <= n);
    let r = SceneObject {
        object: CObject(read_u16(bytes, off, variant)),
        rotation: CRotation {
            x: read_u16(bytes, off + 2, variant),
            y: read_u16(bytes, off + 4, variant),
            z: read_u16(bytes, off + 6, variant),
        },
        position: PositionBits {
            x: read_u32(bytes, off + 8, variant),
            y: read_u32(bytes, off + 12, variant),
            z: read_u32(bytes, off + 16, variant),
        },
        attr1: read_u32(bytes, off + 20, variant),
        attr2: read_u32(bytes, off + 24, variant),
        attr3: read_u32(bytes, off + 28, variant),
    };
    proof {
        let rec = bytes@.subrange(off as int, off + RECORD_SIZE as int);
        assert forall|k: int| 0 <= k < RECORD_SIZE implies rec[k] == bytes@[off + k] by {}
    }
    r
}

} // verus!
