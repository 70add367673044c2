//! Numeric primitives of the Nintendo DS: little-endian integers, signed fixed-point numbers,
//! 3-dimensional vectors and RGB colors.

use vstd::prelude::*;

verus! {

/// The size of a 32-bit fixed-point number.
pub const DS_FIXED_32_SIZE: usize = 4;

/// The size of a 3D vector of 32-bit fixed-point elements.
pub const DS_VEC_FIXED_32_SIZE: usize = 12;

/// The raw value of `1.0` in both fixed-point formats (12 fractional bits).
pub const DS_FIXED_ONE_BITS: i16 = 4096;

/// The unsigned 16-bit integer stored little-endian at `off`.
pub open spec fn le_u16(b: Seq<u8>, off: int) -> u16 {
    (b[off] as int + 256 * (b[off + 1] as int)) as u16
}

/// The unsigned 32-bit integer stored little-endian at `off`.
pub open spec fn le_u32(b: Seq<u8>, off: int) -> u32 {
    (b[off] as int + 256 * (b[off + 1] as int) + 65536 * (b[off + 2] as int) + 16777216 * (
    b[off + 3] as int)) as u32
}

/// The two's-complement signed 32-bit integer stored little-endian at `off`.
pub open spec fn le_i32(b: Seq<u8>, off: int) -> i32 {
    let u = le_u32(b, off) as int;
    if u < 0x8000_0000 {
        u as i32
    } else {
        (u - 0x1_0000_0000) as i32
    }
}

/// Reads a little-endian `u16` at `off`.
pub fn read_u16_le(b: &[u8], off: usize) -> (r: u16)
    requires
        off + 2 <= b.len(),
    ensures
        r == le_u16(b@, off as int),
{
    b[off] as u16 + 256 * (b[off + 1] as u16)
}

/// Reads a little-endian `u32` at `off`.
pub fn read_u32_le(b: &[u8], off: usize) -> (r: u32)
    requires
        off + 4 <= b.len(),
    ensures
        r == le_u32(b@, off as int),
{
    b[off] as u32 + 256 * (b[off + 1] as u32) + 65536 * (b[off + 2] as u32) + 16777216 * (b[off
        + 3] as u32)
}

/// Reads a little-endian two's-complement `i32` at `off`.
pub fn read_i32_le(b: &[u8], off: usize) -> (r: i32)
    requires
        off + 4 <= b.len(),
    ensures
        r == le_i32(b@, off as int),
{
    let u = read_u32_le(b, off);
    if u < 0x8000_0000 {
        u as i32
    } else {
        (u as i64 - 0x1_0000_0000i64) as i32
    }
}

/// Represents an RGB color.
///
/// Each color component should be 5-bit to follow what the Nintendo DS uses, but the full byte
/// is kept.
#[derive(Debug, Default, Clone, Copy, PartialEq, Eq, Structural)]
pub struct DsRgb {
    /// The red color component.
    pub red: u8,
    /// The green color component.
    pub green: u8,
    /// The blue color component.
    pub blue: u8,
}

/// A 16-bit signed fixed-point number with 1 sign bit, 3 integer bits and 12 fractional bits.
///
/// The number is `bits / 4096`.
#[derive(Debug, Default, Clone, Copy, PartialEq, Eq, Structural)]
pub struct DsFixed16 {
    /// The raw two's-complement bit pattern.
    pub bits: i16,
}

/// A 32-bit signed fixed-point number with 1 sign bit, 19 integer bits and 12 fractional bits.
///
/// The number is `bits / 4096`.
#[derive(Debug, Default, Clone, Copy, PartialEq, Eq, Structural)]
pub struct DsFixed32 {
    /// The raw two's-complement bit pattern.
    pub bits: i32,
}

/// A 3-dimensional vector of 16-bit signed fixed-point numbers.
#[derive(Debug, Default, Clone, Copy, PartialEq, Eq, Structural)]
pub struct DsVecFixed16 {
    pub x: DsFixed16,
    pub y: DsFixed16,
    pub z: DsFixed16,
}

/// A 3-dimensional vector of 32-bit signed fixed-point numbers.
#[derive(Debug, Default, Clone, Copy, PartialEq, Eq, Structural)]
pub struct DsVecFixed32 {
    pub x: DsFixed32,
    pub y: DsFixed32,
    pub z: DsFixed32,
}

/// The raw value clamped to the range `[-1.0, +1.0]` of the fixed-point domain.
pub open spec fn clamp_unit_bits(bits: i16) -> i16 {
    if bits < -4096 {
        -4096i16
    } else if bits > 4096 {
        4096i16
    } else {
        bits
    }
}

/// The 32-bit fixed-point number stored little-endian at `off`.
pub open spec fn le_fixed32(b: Seq<u8>, off: int) -> DsFixed32 {
    DsFixed32 { bits: le_i32(b, off) }
}

/// The vector of three 32-bit fixed-point numbers stored little-endian at `off`.
pub open spec fn le_vec_fixed32(b: Seq<u8>, off: int) -> DsVecFixed32 {
    DsVecFixed32 {
        x: le_fixed32(b, off),
        y: le_fixed32(b, off + 4),
        z: le_fixed32(b, off + 8),
    }
}

impl DsFixed16 {
    /// Builds a number from its raw bit pattern.
    pub fn from_bits(bits: i16) -> (r: Self)
        ensures
            r.bits == bits,
    {
        DsFixed16 { bits }
    }

    /// Returns the raw bit pattern.
    pub fn to_bits(&self) -> (r: i16)
        ensures
            r == self.bits,
    {
        self.bits
    }

    /// Clamps the number to `[-1.0, +1.0]`.
    pub fn clamp_unit(&self) -> (r: Self)
        ensures
            r.bits == clamp_unit_bits(self.bits),
    {
        if self.bits < -DS_FIXED_ONE_BITS {
            DsFixed16 { bits: -DS_FIXED_ONE_BITS }
        } else if self.bits > DS_FIXED_ONE_BITS {
            DsFixed16 { bits: DS_FIXED_ONE_BITS }
        } else {
            *self
        }
    }
}

impl DsFixed32 {
    /// Builds a number from its raw bit pattern.
    pub fn from_bits(bits: i32) -> (r: Self)
        ensures
            r.bits == bits,
    {
        DsFixed32 { bits }
    }

    /// Returns the raw bit pattern.
    pub fn to_bits(&self) -> (r: i32)
        ensures
            r == self.bits,
    {
        self.bits
    }

    /// Builds a number from its 4 little-endian bytes.
    pub fn from_le_bytes(bytes: [u8; 4]) -> (r: Self)
        ensures
            r == le_fixed32(bytes@, 0),
    {
        DsFixed32 { bits: read_i32_le(bytes.as_slice(), 0) }
    }

    /// Reads a number stored little-endian at `off`.
    pub fn read_le(b: &[u8], off: usize) -> (r: Self)
        requires
            off + 4 <= b.len(),
        ensures
            r == le_fixed32(b@, off as int),
    {
        DsFixed32 { bits: read_i32_le(b, off) }
    }
}

impl DsVecFixed32 {
    /// Reads a vector stored as three consecutive little-endian numbers at `off`.
    pub fn read_le(b: &[u8], off: usize) -> (r: Self)
        requires
            off + 12 <= b.len(),
        ensures
            r == le_vec_fixed32(b@, off as int),
    {
        DsVecFixed32 {
            x: DsFixed32::read_le(b, off),
            y: DsFixed32::read_le(b, off + 4),
            z: DsFixed32::read_le(b, off + 8),
        }
    }
}

} // verus!
