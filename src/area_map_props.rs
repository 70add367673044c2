//! Data structure and parser for area map props files: the props that an area loads.

use vstd::prelude::*;

use crate::bdhc::read_u16_array;
use crate::nds::{le_u16, read_u16_le};

verus! {

/// Error type for area map props parsing.
#[derive(Debug, Clone, Copy, PartialEq, Eq, Structural)]
pub enum AreaMapPropsError {
    /// The data ends before the declared number of ids.
    ReadError,
}

/// An area map props record.
#[derive(Debug, Clone)]
pub struct AreaMapProps {
    /// IDs of the map props that are loaded when the player is in a map of this area.
    pub map_props_ids: Vec<u16>,
}

/// The bytes hold a `u16` count and that many `u16` ids.
pub open spec fn area_map_props_fits(b: Seq<u8>) -> bool {
    b.len() >= 2 && b.len() >= 2 + 2 * le_u16(b, 0)
}

impl AreaMapProps {
    /// Parses an [`AreaMapProps`]: a little-endian `u16` count, then that many `u16` ids.
    pub fn parse_bytes(bytes: &[u8]) -> (r: Result<Self, AreaMapPropsError>)
        ensures
            match r {
                Ok(p) => area_map_props_fits(bytes@) && p.map_props_ids@.len() == le_u16(bytes@, 0)
                    && forall|i: int|
                    0 <= i < p.map_props_ids@.len() ==> p.map_props_ids@[i] == le_u16(
                        bytes@,
                        2 + 2 * i,
                    ),
                Err(e) => !area_map_props_fits(bytes@) && e == AreaMapPropsError::ReadError,
            },
    {
        let len = bytes.len();
        if len < 2 {
            return Err(AreaMapPropsError::ReadError);
        }
        let count = read_u16_le(bytes, 0);
        if len < 2 + 2 * (count as usize) {
            return Err(AreaMapPropsError::ReadError);
        }
        let map_props_ids = read_u16_array(bytes, 2, count as usize);
        Ok(AreaMapProps { map_props_ids })
    }
}

} // verus!
