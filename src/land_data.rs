//! Data structure and parser for land data files: the tiles, props, model and collision of a map.

use vstd::prelude::*;
use vstd::slice::{slice_subrange, slice_to_vec};

use crate::bdhc::{Bdhc, BdhcError, bdhc_decodes, bdhc_error};
use crate::nds::{DsVecFixed32, le_u16, le_u32, le_vec_fixed32, read_u16_le, read_u32_le};

verus! {

/// The size of a terrain attributes element.
pub const TERRAIN_ATTRIBUTES_ELEM_SIZE: usize = 2;

/// The size of a map props element.
pub const MAP_PROPS_ELEM_SIZE: usize = 48;

/// The mask to get the tile behavior from a terrain attributes element.
pub const TERRAIN_ATTRIBUTES_ELEM_TILE_BEHAVIOR_MASK: u16 = 0x00FF;

/// The mask to get the collision boolean from a terrain attributes element.
pub const TERRAIN_ATTRIBUTES_ELEM_COLLISION_MASK: u16 = 0x8000;

/// The size of the land data header, that contains the section sizes.
pub const LAND_DATA_HEADER_SIZE: usize = 16;

/// The width of a single map, in tiles.
pub const MAP_TILES_COUNT_X: u32 = 32;

/// The height of a single map, in tiles.
pub const MAP_TILES_COUNT_Y: u32 = 32;

/// The amount of tiles in a map.
pub const MAP_TILES_COUNT: u32 = 1024;

/// The attributes of a terrain tile.
#[derive(Debug, Clone, Copy, PartialEq, Eq, Structural)]
pub struct TerrainAttributes {
    /// The behavior of the tile (tall grass, water, a trash can, ...).
    pub tile_behavior: u16,
    /// Whether the tile blocks movement.
    pub has_collision: bool,
}

/// An instance of a map prop placed on a map.
#[derive(Debug, Clone, Copy)]
pub struct MapPropInstance {
    /// The ID of the map prop model.
    pub map_prop_model_id: u32,
    /// Position of the map prop on the map.
    pub position: DsVecFixed32,
    /// Rotation of the map prop, where each angle is between 0 and 65535.
    pub rotation: DsVecFixed32,
    /// Scale of the map prop, where 1.0 is the original size.
    pub scale: DsVecFixed32,
    /// Unknown, seemingly always zero.
    pub dummy: [u32; 2],
}

/// Error type for land data parsing.
#[derive(Debug, Clone, Copy, PartialEq, Eq, Structural)]
pub enum LandDataError {
    /// The data ends before a section that the header declares.
    ReadError,
    /// The BDHC section could not be parsed.
    BdhcParseError(BdhcError),
    /// The tile index is greater or equal than the tile count of a map.
    TileIndexTooBig(u32),
}

/// A land data file.
#[derive(Debug, Clone)]
pub struct LandData {
    /// The attributes of the terrain tiles, in row-major order (normally 32x32).
    pub terrain_attributes: Vec<TerrainAttributes>,
    /// The map prop instances placed on the map.
    pub map_props: Vec<MapPropInstance>,
    /// The map model, an opaque blob.
    pub map_model: Vec<u8>,
    /// The BDHC data.
    pub bdhc: Bdhc,
}

/// The attributes that a raw 16-bit terrain element packs: the low byte is the behavior, the
/// highest bit is the collision.
pub open spec fn spec_terrain_attributes(raw: u16) -> TerrainAttributes {
    TerrainAttributes { tile_behavior: (raw % 256) as u16, has_collision: raw >= 0x8000 }
}

pub open spec fn spec_map_prop_instance(b: Seq<u8>, off: int) -> MapPropInstance {
    MapPropInstance {
        map_prop_model_id: le_u32(b, off),
        position: le_vec_fixed32(b, off + 4),
        rotation: le_vec_fixed32(b, off + 16),
        scale: le_vec_fixed32(b, off + 28),
        dummy: [le_u32(b, off + 40), le_u32(b, off + 44)],
    }
}

/// The four section sizes of the header of `b`.
pub open spec fn terrain_size(b: Seq<u8>) -> int {
    le_u32(b, 0) as int
}

pub open spec fn props_size(b: Seq<u8>) -> int {
    le_u32(b, 4) as int
}

pub open spec fn model_size(b: Seq<u8>) -> int {
    le_u32(b, 8) as int
}

pub open spec fn bdhc_section_size(b: Seq<u8>) -> int {
    le_u32(b, 12) as int
}

pub open spec fn props_offset(b: Seq<u8>) -> int {
    16 + terrain_size(b)
}

pub open spec fn model_offset(b: Seq<u8>) -> int {
    props_offset(b) + props_size(b)
}

pub open spec fn bdhc_offset(b: Seq<u8>) -> int {
    model_offset(b) + model_size(b)
}

pub open spec fn land_data_end(b: Seq<u8>) -> int {
    bdhc_offset(b) + bdhc_section_size(b)
}

/// The error that parsing `b` as land data gives, if any.
///
/// A section is read only where it is not empty; an empty BDHC section fails to parse.
pub open spec fn land_data_error(b: Seq<u8>) -> Option<LandDataError> {
    let tc = terrain_size(b) / 2;
    let pc = props_size(b) / 48;
    if b.len() < 16 {
        Some(LandDataError::ReadError)
    } else if tc > 0 && 16 + 2 * tc > b.len() {
        Some(LandDataError::ReadError)
    } else if pc > 0 && props_offset(b) + 48 * pc > b.len() {
        Some(LandDataError::ReadError)
    } else if model_size(b) > 0 && bdhc_offset(b) > b.len() {
        Some(LandDataError::ReadError)
    } else if bdhc_section_size(b) == 0 {
        Some(LandDataError::BdhcParseError(BdhcError::ReadError))
    } else if land_data_end(b) > b.len() {
        Some(LandDataError::ReadError)
    } else {
        match bdhc_error(b.subrange(bdhc_offset(b), land_data_end(b))) {
            Some(e) => Some(LandDataError::BdhcParseError(e)),
            None => None,
        }
    }
}

/// `d` holds the four sections of `b` as its header declares them.
pub open spec fn land_data_decodes(b: Seq<u8>, d: LandData) -> bool {
    &&& d.terrain_attributes@.len() == terrain_size(b) / 2
    &&& forall|i: int|
        0 <= i < d.terrain_attributes@.len() ==> d.terrain_attributes@[i]
            == spec_terrain_attributes(le_u16(b, 16 + 2 * i))
    &&& d.map_props@.len() == props_size(b) / 48
    &&& forall|i: int|
        0 <= i < d.map_props@.len() ==> d.map_props@[i] == spec_map_prop_instance(
            b,
            props_offset(b) + 48 * i,
        )
    &&& d.map_model@ == b.subrange(model_offset(b), bdhc_offset(b))
    &&& bdhc_decodes(b.subrange(bdhc_offset(b), land_data_end(b)), d.bdhc)
}

/// The coordinates of a tile of a map from its row-major index.
pub open spec fn tile_coords(index: int) -> (u32, u32) {
    ((index % 32) as u32, (index / 32) as u32)
}

impl TerrainAttributes {
    /// Parses [`TerrainAttributes`] from a raw value: the lower 8 bits are the tile behavior,
    /// the highest bit is the collision.
    pub fn from_raw(raw_value: u16) -> (r: Self)
        ensures
            r == spec_terrain_attributes(raw_value),
    {
        let tile_behavior = raw_value & TERRAIN_ATTRIBUTES_ELEM_TILE_BEHAVIOR_MASK;
        let has_collision = (raw_value & TERRAIN_ATTRIBUTES_ELEM_COLLISION_MASK) != 0;
        assert(raw_value & 0x00FF == raw_value % 256) by (bit_vector);
        assert((raw_value & 0x8000 != 0) == (raw_value >= 0x8000)) by (bit_vector);
        TerrainAttributes { tile_behavior, has_collision }
    }
}

impl MapPropInstance {
    /// Parses a [`MapPropInstance`] from its 48 bytes: the model id, the position, rotation
    /// and scale vectors, and two dummy words.
    pub fn from_bytes(bytes: [u8; MAP_PROPS_ELEM_SIZE]) -> (r: Self)
        ensures
            r == spec_map_prop_instance(bytes@, 0),
    {
        Self::read(bytes.as_slice(), 0)
    }

    fn read(b: &[u8], off: usize) -> (r: Self)
        requires
            off + 48 <= b.len(),
        ensures
            r == spec_map_prop_instance(b@, off as int),
    {
        MapPropInstance {
            map_prop_model_id: read_u32_le(b, off),
            position: DsVecFixed32::read_le(b, off + 4),
            rotation: DsVecFixed32::read_le(b, off + 16),
            scale: DsVecFixed32::read_le(b, off + 28),
            dummy: [read_u32_le(b, off + 40), read_u32_le(b, off + 44)],
        }
    }
}

impl LandData {
    /// Parses a [`LandData`] from a byte slice: a header of four `u32` section sizes, then the
    /// terrain attributes, the map props, the map model and the BDHC data.
    pub fn parse_bytes(bytes: &[u8]) -> (r: Result<Self, LandDataError>)
        ensures
            match r {
                Ok(d) => land_data_error(bytes@) is None && land_data_decodes(bytes@, d),
                Err(e) => land_data_error(bytes@) == Some(e),
            },
    {
        let len = bytes.len();
        if len < 16 {
            return Err(LandDataError::ReadError);
        }
        let terrain_attributes_size = read_u32_le(bytes, 0);
        let map_props_size = read_u32_le(bytes, 4);
        let map_model_size = read_u32_le(bytes, 8);
        let bdhc_size = read_u32_le(bytes, 12);
        let terrain_attributes_count = terrain_attributes_size / 2;
        let map_props_count = map_props_size / 48;
        let props_off: u64 = 16 + terrain_attributes_size as u64;
        let model_off: u64 = props_off + map_props_size as u64;
        let bdhc_off: u64 = model_off + map_model_size as u64;
        let end: u64 = bdhc_off + bdhc_size as u64;

        // Read the terrain attributes
        if terrain_attributes_count > 0 && 16 + 2 * (terrain_attributes_count as u64) > len as u64 {
            return Err(LandDataError::ReadError);
        }
        let terrain_attributes = Self::parse_terrain_attributes(
            bytes,
            terrain_attributes_count as usize,
        );

        // Read the map props
        if map_props_count > 0 && props_off + 48 * (map_props_count as u64) > len as u64 {
            return Err(LandDataError::ReadError);
        }
        let map_props = if map_props_count > 0 {
            Self::parse_map_props(bytes, props_off as usize, map_props_count as usize)
        } else {
            Vec::new()
        };

        // Read the map model
        if map_model_size > 0 && bdhc_off > len as u64 {
            return Err(LandDataError::ReadError);
        }
        let map_model = if map_model_size > 0 {
            slice_to_vec(slice_subrange(bytes, model_off as usize, bdhc_off as usize))
        } else {
            Vec::new()
        };

        // Read the BDHC data
        if bdhc_size == 0 {
            return Err(LandDataError::BdhcParseError(BdhcError::ReadError));
        }
        if end > len as u64 {
            return Err(LandDataError::ReadError);
        }
        let raw_bdhc = slice_subrange(bytes, bdhc_off as usize, end as usize);
        let bdhc = match Bdhc::parse_bytes(raw_bdhc) {
            Ok(bdhc) => bdhc,
            Err(e) => {
                return Err(LandDataError::BdhcParseError(e));
            },
        };
        proof {
            assert(map_model@ =~= bytes@.subrange(model_offset(bytes@), bdhc_offset(bytes@)));
        }
        Ok(LandData { terrain_attributes, map_props, map_model, bdhc })
    }

    /// Parses `count` terrain attributes from offset 16 on.
    fn parse_terrain_attributes(b: &[u8], count: usize) -> (r: Vec<TerrainAttributes>)
        requires
            16 + 2 * count <= b.len(),
        ensures
            r@.len() == count,
            forall|i: int|
                0 <= i < count ==> r@[i] == spec_terrain_attributes(le_u16(b@, 16 + 2 * i)),
    {
        let n = b.len();
        let mut v: Vec<TerrainAttributes> = Vec::new();
        let mut i: usize = 0;
        while i < count
            invariant
                n == b@.len(),
                16 + 2 * count <= n,
                i <= count,
                v@.len() == i,
                forall|j: int|
                    0 <= j < i ==> v@[j] == spec_terrain_attributes(le_u16(b@, 16 + 2 * j)),
            decreases count - i,
        {
            v.push(TerrainAttributes::from_raw(read_u16_le(b, 16 + 2 * i)));
            i = i + 1;
        }
        v
    }

    /// Parses `count` map prop instances from `off` on.
    fn parse_map_props(b: &[u8], off: usize, count: usize) -> (r: Vec<MapPropInstance>)
        requires
            off + 48 * count <= b.len(),
        ensures
            r@.len() == count,
            forall|i: int| 0 <= i < count ==> r@[i] == spec_map_prop_instance(b@, off + 48 * i),
    {
        let n = b.len();
        let mut v: Vec<MapPropInstance> = Vec::new();
        let mut i: usize = 0;
        while i < count
            invariant
                n == b@.len(),
                off + 48 * count <= n,
                i <= count,
                v@.len() == i,
                forall|j: int| 0 <= j < i ==> v@[j] == spec_map_prop_instance(b@, off + 48 * j),
            decreases count - i,
        {
            v.push(MapPropInstance::read(b, off + 48 * i));
            i = i + 1;
        }
        v
    }

    /// Transforms a tile index into its `(x, y)` coordinates on the 32x32 grid.
    pub fn tile_index_to_coords(index: u32) -> (r: Result<(u32, u32), LandDataError>)
        ensures
            index < 1024 ==> r == Ok::<(u32, u32), LandDataError>(tile_coords(index as int)),
            index >= 1024 ==> r == Err::<(u32, u32), LandDataError>(
                LandDataError::TileIndexTooBig(index),
            ),
    {
        if index < MAP_TILES_COUNT {
            Ok((index % MAP_TILES_COUNT_X, index / MAP_TILES_COUNT_X))
        } else {
            Err(LandDataError::TileIndexTooBig(index))
        }
    }
}

} // verus!
