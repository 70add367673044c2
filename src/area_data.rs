//! Data structure and parser for area data files.
//!
//! Areas group maps that share a prop set, textures and lighting.

use vstd::prelude::*;

use crate::nds::{le_u16, read_u16_le};

verus! {

/// An area data record.
#[derive(Debug, Clone, Copy, PartialEq, Eq, Structural)]
pub struct AreaData {
    /// Index of the associated map prop archives.
    pub map_prop_archives_id: u16,
    /// Index of the associated map texture archive.
    pub map_texture_archive_id: u16,
    /// Index of the associated area light archive.
    pub area_light_archive_id: u16,
    /// Unknown: varies between records but is unused.
    pub dummy: u16,
}

/// The record that 8 bytes encode: four little-endian `u16` in the order prop archive,
/// texture archive, dummy, light archive.
pub open spec fn spec_area_data(b: Seq<u8>) -> AreaData {
    AreaData {
        map_prop_archives_id: le_u16(b, 0),
        map_texture_archive_id: le_u16(b, 2),
        area_light_archive_id: le_u16(b, 6),
        dummy: le_u16(b, 4),
    }
}

impl AreaData {
    /// Parses an [`AreaData`] from its 8 bytes.
    pub fn from_bytes(bytes: [u8; 8]) -> (r: Self)
        ensures
            r == spec_area_data(bytes@),
    {
        let b = bytes.as_slice();
        AreaData {
            map_prop_archives_id: read_u16_le(b, 0),
            map_texture_archive_id: read_u16_le(b, 2),
            area_light_archive_id: read_u16_le(b, 6),
            dummy: read_u16_le(b, 4),
        }
    }
}

} // verus!
