//! Data structure and parser for BDHC data, the collision and altitude mesh embedded in land data.

use vstd::prelude::*;

use crate::nds::{
    DsFixed32, DsVecFixed32, le_fixed32, le_u16, le_u32, le_vec_fixed32, read_u16_le,
    read_u32_le,
};

verus! {

/// The magic number at the beginning of BDHC data. Corresponds to "BDHC" in little-endian.
pub const BDHC_MAGIC: u32 = 0x43484442;

/// The size of the BDHC header.
pub const BDHC_HEADER_SIZE: usize = 12;

/// The size of a BDHC point.
pub const BDHC_POINT_SIZE: usize = 8;

/// The size of a BDHC plate.
pub const BDHC_PLATE_SIZE: usize = 8;

/// The size of a BDHC strip.
pub const BDHC_STRIP_SIZE: usize = 8;

/// The header of BDHC data: the element counts of its six sections.
#[derive(Debug, Clone, Copy, PartialEq, Eq, Structural)]
pub struct BdhcHeader {
    /// The number of points.
    pub points_count: u16,
    /// The number of normals.
    pub normals_count: u16,
    /// The number of constants.
    pub constants_count: u16,
    /// The number of plates.
    pub plates_count: u16,
    /// The number of strips.
    pub strips_count: u16,
    /// The number of elements in the access list.
    pub access_list_count: u16,
}

/// A point of the plate boundaries, on the horizontal plane.
#[derive(Debug, Clone, Copy, PartialEq, Eq, Structural)]
pub struct BdhcPoint {
    /// The X coordinate.
    pub x: DsFixed32,
    /// The Z coordinate.
    pub z: DsFixed32,
}

/// A plate: a half-plane at a given altitude, described by indices into the other sections.
#[derive(Debug, Clone, Copy, PartialEq, Eq, Structural)]
pub struct BdhcPlate {
    /// The index of the first point in the point list.
    pub first_point_index: u16,
    /// The index of the second point in the point list.
    pub second_point_index: u16,
    /// The index of the normal in the normal list.
    pub normal_index: u16,
    /// The index of the constant in the constant list.
    pub constant_index: u16,
}

/// A strip: binds a horizontal scanline to a contiguous window of the access list.
#[derive(Debug, Clone, Copy, PartialEq, Eq, Structural)]
pub struct BdhcStrip {
    /// The scanline that all the plates of this strip pass through.
    pub scanline: DsFixed32,
    /// The number of elements of the access list in this strip.
    pub access_list_element_count: u16,
    /// The index of the first element of the access list in this strip.
    pub access_list_start_index: u16,
}

/// Error type for BDHC parsing.
#[derive(Debug, Clone, Copy, PartialEq, Eq, Structural)]
pub enum BdhcError {
    /// The data ends before all the declared elements were read.
    ReadError,
    /// The BDHC magic number is wrong; holds the number found.
    WrongBdhcMagic(u32),
}

/// BDHC data.
#[derive(Debug, Clone)]
pub struct Bdhc {
    /// The points, used to define the plate boundaries.
    pub points: Vec<BdhcPoint>,
    /// The normal vectors of the planes that the plates define.
    pub normals: Vec<DsVecFixed32>,
    /// The constant terms of the planes that the plates define.
    pub constants: Vec<DsFixed32>,
    /// The plates.
    pub plates: Vec<BdhcPlate>,
    /// The strips.
    pub strips: Vec<BdhcStrip>,
    /// The access list: indices of the plates referenced by the strips.
    pub access_list: Vec<u16>,
}

pub open spec fn spec_bdhc_header(b: Seq<u8>, off: int) -> BdhcHeader {
    BdhcHeader {
        points_count: le_u16(b, off),
        normals_count: le_u16(b, off + 2),
        constants_count: le_u16(b, off + 4),
        plates_count: le_u16(b, off + 6),
        strips_count: le_u16(b, off + 8),
        access_list_count: le_u16(b, off + 10),
    }
}

pub open spec fn spec_bdhc_point(b: Seq<u8>, off: int) -> BdhcPoint {
    BdhcPoint { x: le_fixed32(b, off), z: le_fixed32(b, off + 4) }
}

pub open spec fn spec_bdhc_plate(b: Seq<u8>, off: int) -> BdhcPlate {
    BdhcPlate {
        first_point_index: le_u16(b, off),
        second_point_index: le_u16(b, off + 2),
        normal_index: le_u16(b, off + 4),
        constant_index: le_u16(b, off + 6),
    }
}

pub open spec fn spec_bdhc_strip(b: Seq<u8>, off: int) -> BdhcStrip {
    BdhcStrip {
        scanline: le_fixed32(b, off),
        access_list_element_count: le_u16(b, off + 4),
        access_list_start_index: le_u16(b, off + 6),
    }
}

/// Offset of the point section: after the magic and the header.
pub open spec fn points_offset() -> int {
    16
}

pub open spec fn normals_offset(h: BdhcHeader) -> int {
    points_offset() + 8 * h.points_count
}

pub open spec fn constants_offset(h: BdhcHeader) -> int {
    normals_offset(h) + 12 * h.normals_count
}

pub open spec fn plates_offset(h: BdhcHeader) -> int {
    constants_offset(h) + 4 * h.constants_count
}

pub open spec fn strips_offset(h: BdhcHeader) -> int {
    plates_offset(h) + 8 * h.plates_count
}

pub open spec fn access_list_offset(h: BdhcHeader) -> int {
    strips_offset(h) + 8 * h.strips_count
}

/// The number of bytes that BDHC data with header `h` spans.
pub open spec fn bdhc_size(h: BdhcHeader) -> int {
    access_list_offset(h) + 2 * h.access_list_count
}

/// The error that parsing `b` as BDHC data gives, if any.
pub open spec fn bdhc_error(b: Seq<u8>) -> Option<BdhcError> {
    if b.len() < 4 {
        Some(BdhcError::ReadError)
    } else if le_u32(b, 0) != BDHC_MAGIC {
        Some(BdhcError::WrongBdhcMagic(le_u32(b, 0)))
    } else if b.len() < 16 || b.len() < bdhc_size(spec_bdhc_header(b, 4)) {
        Some(BdhcError::ReadError)
    } else {
        None
    }
}

/// `d` holds exactly the six sections that the header of `b` declares, decoded in order.
pub open spec fn bdhc_decodes(b: Seq<u8>, d: Bdhc) -> bool {
    let h = spec_bdhc_header(b, 4);
    &&& d.points@.len() == h.points_count
    &&& forall|i: int|
        0 <= i < d.points@.len() ==> d.points@[i] == spec_bdhc_point(b, points_offset() + 8 * i)
    &&& d.normals@.len() == h.normals_count
    &&& forall|i: int|
        0 <= i < d.normals@.len() ==> d.normals@[i] == le_vec_fixed32(
            b,
            normals_offset(h) + 12 * i,
        )
    &&& d.constants@.len() == h.constants_count
    &&& forall|i: int|
        0 <= i < d.constants@.len() ==> d.constants@[i] == le_fixed32(
            b,
            constants_offset(h) + 4 * i,
        )
    &&& d.plates@.len() == h.plates_count
    &&& forall|i: int|
        0 <= i < d.plates@.len() ==> d.plates@[i] == spec_bdhc_plate(b, plates_offset(h) + 8 * i)
    &&& d.strips@.len() == h.strips_count
    &&& forall|i: int|
        0 <= i < d.strips@.len() ==> d.strips@[i] == spec_bdhc_strip(b, strips_offset(h) + 8 * i)
    &&& d.access_list@.len() == h.access_list_count
    &&& forall|i: int|
        0 <= i < d.access_list@.len() ==> d.access_list@[i] == le_u16(
            b,
            access_list_offset(h) + 2 * i,
        )
}

impl BdhcHeader {
    /// Parses a [`BdhcHeader`] from its 12 bytes: six little-endian `u16` counts.
    pub fn from_bytes(bytes: &[u8; BDHC_HEADER_SIZE]) -> (r: Self)
        ensures
            r == spec_bdhc_header(bytes@, 0),
    {
        Self::read(bytes.as_slice(), 0)
    }

    fn read(b: &[u8], off: usize) -> (r: Self)
        requires
            off + 12 <= b.len(),
        ensures
            r == spec_bdhc_header(b@, off as int),
    {
        BdhcHeader {
            points_count: read_u16_le(b, off),
            normals_count: read_u16_le(b, off + 2),
            constants_count: read_u16_le(b, off + 4),
            plates_count: read_u16_le(b, off + 6),
            strips_count: read_u16_le(b, off + 8),
            access_list_count: read_u16_le(b, off + 10),
        }
    }
}

impl BdhcPoint {
    /// Parses a [`BdhcPoint`] from its 8 bytes: X then Z, 32-bit fixed-point.
    pub fn from_bytes(bytes: &[u8; BDHC_POINT_SIZE]) -> (r: Self)
        ensures
            r == spec_bdhc_point(bytes@, 0),
    {
        Self::read(bytes.as_slice(), 0)
    }

    fn read(b: &[u8], off: usize) -> (r: Self)
        requires
            off + 8 <= b.len(),
        ensures
            r == spec_bdhc_point(b@, off as int),
    {
        BdhcPoint { x: DsFixed32::read_le(b, off), z: DsFixed32::read_le(b, off + 4) }
    }
}

impl BdhcPlate {
    /// Parses a [`BdhcPlate`] from its 8 bytes: four little-endian `u16` indices.
    pub fn from_bytes(bytes: &[u8; BDHC_PLATE_SIZE]) -> (r: Self)
        ensures
            r == spec_bdhc_plate(bytes@, 0),
    {
        Self::read(bytes.as_slice(), 0)
    }

    fn read(b: &[u8], off: usize) -> (r: Self)
        requires
            off + 8 <= b.len(),
        ensures
            r == spec_bdhc_plate(b@, off as int),
    {
        BdhcPlate {
            first_point_index: read_u16_le(b, off),
            second_point_index: read_u16_le(b, off + 2),
            normal_index: read_u16_le(b, off + 4),
            constant_index: read_u16_le(b, off + 6),
        }
    }
}

impl BdhcStrip {
    /// Parses a [`BdhcStrip`] from its 8 bytes: the scanline, then two little-endian `u16`.
    pub fn from_bytes(bytes: &[u8; BDHC_STRIP_SIZE]) -> (r: Self)
        ensures
            r == spec_bdhc_strip(bytes@, 0),
    {
        Self::read(bytes.as_slice(), 0)
    }

    fn read(b: &[u8], off: usize) -> (r: Self)
        requires
            off + 8 <= b.len(),
        ensures
            r == spec_bdhc_strip(b@, off as int),
    {
        BdhcStrip {
            scanline: DsFixed32::read_le(b, off),
            access_list_element_count: read_u16_le(b, off + 4),
            access_list_start_index: read_u16_le(b, off + 6),
        }
    }
}

fn read_points(b: &[u8], off: usize, count: u16) -> (r: Vec<BdhcPoint>)
    requires
        off + 8 * count <= b.len(),
    ensures
        r@.len() == count,
        forall|i: int| 0 <= i < count ==> r@[i] == spec_bdhc_point(b@, off + 8 * i),
{
    let mut v: Vec<BdhcPoint> = Vec::new();
    let n = b.len();
    let mut i: u16 = 0;
    while i < count
        invariant
            n == b@.len(),
            off + 8 * count <= b.len(),
            i <= count,
            v@.len() == i,
            forall|j: int| 0 <= j < i ==> v@[j] == spec_bdhc_point(b@, off + 8 * j),
        decreases count - i,
    {
        v.push(BdhcPoint::read(b, off + 8 * (i as usize)));
        i = i + 1;
    }
    v
}

fn read_normals(b: &[u8], off: usize, count: u16) -> (r: Vec<DsVecFixed32>)
    requires
        off + 12 * count <= b.len(),
    ensures
        r@.len() == count,
        forall|i: int| 0 <= i < count ==> r@[i] == le_vec_fixed32(b@, off + 12 * i),
{
    let mut v: Vec<DsVecFixed32> = Vec::new();
    let n = b.len();
    let mut i: u16 = 0;
    while i < count
        invariant
            n == b@.len(),
            off + 12 * count <= b.len(),
            i <= count,
            v@.len() == i,
            forall|j: int| 0 <= j < i ==> v@[j] == le_vec_fixed32(b@, off + 12 * j),
        decreases count - i,
    {
        v.push(DsVecFixed32::read_le(b, off + 12 * (i as usize)));
        i = i + 1;
    }
    v
}

fn read_constants(b: &[u8], off: usize, count: u16) -> (r: Vec<DsFixed32>)
    requires
        off + 4 * count <= b.len(),
    ensures
        r@.len() == count,
        forall|i: int| 0 <= i < count ==> r@[i] == le_fixed32(b@, off + 4 * i),
{
    let mut v: Vec<DsFixed32> = Vec::new();
    let n = b.len();
    let mut i: u16 = 0;
    while i < count
        invariant
            n == b@.len(),
            off + 4 * count <= b.len(),
            i <= count,
            v@.len() == i,
            forall|j: int| 0 <= j < i ==> v@[j] == le_fixed32(b@, off + 4 * j),
        decreases count - i,
    {
        v.push(DsFixed32::read_le(b, off + 4 * (i as usize)));
        i = i + 1;
    }
    v
}

fn read_plates(b: &[u8], off: usize, count: u16) -> (r: Vec<BdhcPlate>)
    requires
        off + 8 * count <= b.len(),
    ensures
        r@.len() == count,
        forall|i: int| 0 <= i < count ==> r@[i] == spec_bdhc_plate(b@, off + 8 * i),
{
    let mut v: Vec<BdhcPlate> = Vec::new();
    let n = b.len();
    let mut i: u16 = 0;
    while i < count
        invariant
            n == b@.len(),
            off + 8 * count <= b.len(),
            i <= count,
            v@.len() == i,
            forall|j: int| 0 <= j < i ==> v@[j] == spec_bdhc_plate(b@, off + 8 * j),
        decreases count - i,
    {
        v.push(BdhcPlate::read(b, off + 8 * (i as usize)));
        i = i + 1;
    }
    v
}

fn read_strips(b: &[u8], off: usize, count: u16) -> (r: Vec<BdhcStrip>)
    requires
        off + 8 * count <= b.len(),
    ensures
        r@.len() == count,
        forall|i: int| 0 <= i < count ==> r@[i] == spec_bdhc_strip(b@, off + 8 * i),
{
    let mut v: Vec<BdhcStrip> = Vec::new();
    let n = b.len();
    let mut i: u16 = 0;
    while i < count
        invariant
            n == b@.len(),
            off + 8 * count <= b.len(),
            i <= count,
            v@.len() == i,
            forall|j: int| 0 <= j < i ==> v@[j] == spec_bdhc_strip(b@, off + 8 * j),
        decreases count - i,
    {
        v.push(BdhcStrip::read(b, off + 8 * (i as usize)));
        i = i + 1;
    }
    v
}

/// Reads `count` little-endian `u16` values from `off` on.
pub fn read_u16_array(b: &[u8], off: usize, count: usize) -> (r: Vec<u16>)
    requires
        off + 2 * count <= b.len(),
    ensures
        r@.len() == count,
        forall|i: int| 0 <= i < count ==> r@[i] == le_u16(b@, off + 2 * i),
{
    let mut v: Vec<u16> = Vec::new();
    let n = b.len();
    let mut i: usize = 0;
    while i < count
        invariant
            n == b@.len(),
            off + 2 * count <= b.len(),
            i <= count,
            v@.len() == i,
            forall|j: int| 0 <= j < i ==> v@[j] == le_u16(b@, off + 2 * j),
        decreases count - i,
    {
        v.push(read_u16_le(b, off + 2 * i));
        i = i + 1;
    }
    v
}

impl Bdhc {
    /// Parses [`Bdhc`] data from a byte slice: the magic, the header, then the six sections.
    ///
    /// Indices are not validated.
    pub fn parse_bytes(bytes: &[u8]) -> (r: Result<Self, BdhcError>)
        ensures
            match r {
                Ok(d) => bdhc_error(bytes@) is None && bdhc_decodes(bytes@, d),
                Err(e) => bdhc_error(bytes@) == Some(e),
            },
    {
        let len = bytes.len();
        if len < 4 {
            return Err(BdhcError::ReadError);
        }
        let magic = read_u32_le(bytes, 0);
        if magic != BDHC_MAGIC {
            return Err(BdhcError::WrongBdhcMagic(magic));
        }
        if len < 16 {
            return Err(BdhcError::ReadError);
        }
        let header = BdhcHeader::read(bytes, 4);
        let normals_off: usize = 16 + 8 * (header.points_count as usize);
        let constants_off: usize = normals_off + 12 * (header.normals_count as usize);
        let plates_off: usize = constants_off + 4 * (header.constants_count as usize);
        let strips_off: usize = plates_off + 8 * (header.plates_count as usize);
        let access_off: usize = strips_off + 8 * (header.strips_count as usize);
        let end: usize = access_off + 2 * (header.access_list_count as usize);
        if len < end {
            return Err(BdhcError::ReadError);
        }
        let points = read_points(bytes, 16, header.points_count);
        let normals = read_normals(bytes, normals_off, header.normals_count);
        let constants = read_constants(bytes, constants_off, header.constants_count);
        let plates = read_plates(bytes, plates_off, header.plates_count);
        let strips = read_strips(bytes, strips_off, header.strips_count);
        let access_list = read_u16_array(bytes, access_off, header.access_list_count as usize);
        Ok(Bdhc { points, normals, constants, plates, strips, access_list })
    }
}

} // verus!
