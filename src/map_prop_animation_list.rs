//! Data structure and parser for map prop animation lists.

use vstd::prelude::*;

use crate::nds::{le_u32, read_u32_le};

verus! {

/// The mask to get the deferred loading flag from the raw flags.
pub const FLAG_DEFERRED_LOADING_MASK: u8 = 0x01;

/// The mask to get the deferred add to render object flag from the raw flags.
pub const FLAG_DEFERRED_ADD_TO_RENDER_OBJECT_MASK: u8 = 0x02;

/// The maximum number of animations of a map prop.
pub const MAX_MAP_PROP_ANIMATIONS: u8 = 4;

/// The ID that ends the animation list.
pub const INVALID_MAP_PROP_ANIMATION_ID: u32 = 0xFFFFFFFF;

/// Error type for map prop animation list parsing.
#[derive(Debug, Clone, Copy, PartialEq, Eq, Structural)]
pub enum MapPropAnimationListError {
    /// The data ends before a field that is read.
    ReadError,
}

/// A map prop animation list.
#[derive(Debug, Clone)]
pub struct MapPropAnimationList {
    /// IDs of the animations of the map prop, at most 4.
    pub map_prop_animation_ids: Vec<u32>,
    /// Whether loading the animations is deferred.
    pub deferred_loading: bool,
    /// Whether adding the animations to the render object is deferred.
    pub deferred_add_to_render_object: bool,
    /// Whether the map prop model is a slope for the bicycle.
    pub is_bicycle_slope: bool,
}

/// The number of animation ids before the sentinel, looking at the slots `k..4`.
pub open spec fn animation_count_from(b: Seq<u8>, k: int) -> int
    decreases 4 - k,
{
    if k >= 4 || le_u32(b, 4 + 4 * k) == INVALID_MAP_PROP_ANIMATION_ID {
        k
    } else {
        animation_count_from(b, k + 1)
    }
}

/// The number of bytes that the list in `b` needs: a slot that is read must be there.
pub open spec fn animation_list_fits(b: Seq<u8>) -> bool {
    let c = animation_count_from(b, 0);
    b.len() >= 4 && if c < 4 {
        b.len() >= 4 + 4 * (c + 1)
    } else {
        b.len() >= 20
    }
}

pub proof fn lemma_animation_count_bounds(b: Seq<u8>, k: int)
    requires
        0 <= k <= 4,
    ensures
        k <= animation_count_from(b, k) <= 4,
    decreases 4 - k,
{
    if k < 4 && le_u32(b, 4 + 4 * k) != INVALID_MAP_PROP_ANIMATION_ID {
        lemma_animation_count_bounds(b, k + 1);
    }
}

/// The list that `b` holds: ids before the sentinel, and the flags of bytes 1 and 2.
pub open spec fn animation_list_decodes(b: Seq<u8>, l: MapPropAnimationList) -> bool {
    &&& l.map_prop_animation_ids@.len() == animation_count_from(b, 0)
    &&& forall|i: int|
        0 <= i < l.map_prop_animation_ids@.len() ==> l.map_prop_animation_ids@[i] == le_u32(
            b,
            4 + 4 * i,
        )
    &&& l.deferred_loading == (b[1] % 2 == 1)
    &&& l.deferred_add_to_render_object == ((b[1] / 2) % 2 == 1)
    &&& l.is_bicycle_slope == (b[2] != 0)
}

impl MapPropAnimationList {
    /// Parses a [`MapPropAnimationList`]: a skipped byte, the flags byte, the bicycle slope
    /// byte, a skipped byte, then up to four `u32` animation ids ended by `0xFFFFFFFF`.
    pub fn parse_bytes(bytes: &[u8]) -> (r: Result<Self, MapPropAnimationListError>)
        ensures
            match r {
                Ok(l) => animation_list_fits(bytes@) && animation_list_decodes(bytes@, l),
                Err(e) => !animation_list_fits(bytes@) && e
                    == MapPropAnimationListError::ReadError,
            },
    {
        let len = bytes.len();
        if len < 4 {
            return Err(MapPropAnimationListError::ReadError);
        }
        let (deferred_loading, deferred_add_to_render_object) = Self::parse_flags(bytes[1]);
        let raw_is_bicycle_slope = bytes[2];
        let mut ids: Vec<u32> = Vec::new();
        let mut k: usize = 0;
        let mut done = false;
        while k < 4 && !done
            invariant
                len == bytes@.len(),
                len >= 4,
                k <= 4,
                k > 0 || done ==> len >= 4 + 4 * (k + if done { 1int } else { 0int }),
                done ==> animation_count_from(bytes@, 0) == k,
                ids@.len() == k,
                animation_count_from(bytes@, 0) == animation_count_from(bytes@, k as int),
                forall|i: int| 0 <= i < k ==> ids@[i] == le_u32(bytes@, 4 + 4 * i),
            decreases 4 - k + if done { 0int } else { 1int },
        {
            if len < 4 + 4 * (k + 1) {
                proof {
                    lemma_animation_count_bounds(bytes@, k as int);
                }
                return Err(MapPropAnimationListError::ReadError);
            }
            let id = read_u32_le(bytes, 4 + 4 * k);
            if id == INVALID_MAP_PROP_ANIMATION_ID {
                done = true;
            } else {
                ids.push(id);
                k = k + 1;
            }
        }
        Ok(
            MapPropAnimationList {
                map_prop_animation_ids: ids,
                deferred_loading,
                deferred_add_to_render_object,
                is_bicycle_slope: raw_is_bicycle_slope != 0,
            },
        )
    }

    /// Reads the deferred loading (bit 0) and deferred add to render object (bit 1) flags.
    pub fn parse_flags(raw_flags: u8) -> (r: (bool, bool))
        ensures
            r.0 == (raw_flags % 2 == 1),
            r.1 == ((raw_flags / 2) % 2 == 1),
    {
        let deferred_loading_flag = raw_flags & FLAG_DEFERRED_LOADING_MASK;
        let deferred_add_to_render_object_flag = raw_flags & FLAG_DEFERRED_ADD_TO_RENDER_OBJECT_MASK;
        assert((raw_flags & 0x01 != 0) == (raw_flags % 2 == 1)) by (bit_vector);
        assert((raw_flags & 0x02 != 0) == ((raw_flags / 2) % 2 == 1)) by (bit_vector);
        (deferred_loading_flag != 0, deferred_add_to_render_object_flag != 0)
    }
}

} // verus!
