//! Data structure and parser for map prop material and shapes data: a table of locators into a
//! flat table of (material, shape) id pairs.

use vstd::prelude::*;

use crate::nds::{le_u16, read_u16_le};

verus! {

/// Locates the material and shape ids of a map prop in the flat id table.
#[derive(Debug, Clone, Copy, PartialEq, Eq, Structural)]
pub struct MapPropMaterialShapesLocators {
    /// Number of ids in the list.
    pub ids_count: u16,
    /// Index of the first id in the flat table.
    pub ids_index: u16,
}

/// A material and a shape id.
#[derive(Debug, Clone, Copy, PartialEq, Eq, Structural)]
pub struct MapPropMaterialShapesIDs {
    /// ID of the material.
    pub material_id: u16,
    /// ID of the shape (mesh).
    pub shape_id: u16,
}

/// Error type for map prop material and shapes parsing.
#[derive(Debug, Clone, Copy, PartialEq, Eq, Structural)]
pub enum MapPropMaterialShapesError {
    /// The data ends before the declared tables.
    ReadError,
    /// The locator at this position points past the end of the id table.
    LocatorOutOfRange(u16),
}

/// The material and shapes of a map prop.
#[derive(Debug, Clone)]
pub struct MapPropMaterialShapes {
    /// Index of the first ids in the flat id table.
    pub ids_index: u16,
    /// The material and shape ids of the map prop.
    pub ids: Vec<MapPropMaterialShapesIDs>,
}

pub open spec fn locators_count(b: Seq<u8>) -> int {
    le_u16(b, 0) as int
}

pub open spec fn ids_count(b: Seq<u8>) -> int {
    le_u16(b, 2) as int
}

pub open spec fn spec_locator(b: Seq<u8>, i: int) -> MapPropMaterialShapesLocators {
    MapPropMaterialShapesLocators { ids_count: le_u16(b, 4 + 4 * i), ids_index: le_u16(b, 6 + 4 * i) }
}

/// The id pair at position `j` of the flat table.
pub open spec fn spec_ids(b: Seq<u8>, j: int) -> MapPropMaterialShapesIDs {
    let off = 4 + 4 * locators_count(b) + 4 * j;
    MapPropMaterialShapesIDs { material_id: le_u16(b, off), shape_id: le_u16(b, off + 2) }
}

/// The flat id table of `b`.
pub open spec fn flat_ids(b: Seq<u8>) -> Seq<MapPropMaterialShapesIDs> {
    Seq::new(ids_count(b) as nat, |j: int| spec_ids(b, j))
}

/// A non-empty locator that points past the end of the id table.
pub open spec fn locator_out_of_range(b: Seq<u8>, i: int) -> bool {
    spec_locator(b, i).ids_count > 0 && spec_locator(b, i).ids_index + spec_locator(b, i).ids_count
        > ids_count(b)
}

pub open spec fn material_shapes_fit(b: Seq<u8>) -> bool {
    b.len() >= 4 && b.len() >= 4 + 4 * locators_count(b) + 4 * ids_count(b)
}

/// The error that parsing `b` gives, if any: the first locator out of range.
pub open spec fn material_shapes_error(b: Seq<u8>) -> Option<MapPropMaterialShapesError> {
    if !material_shapes_fit(b) {
        Some(MapPropMaterialShapesError::ReadError)
    } else if exists|i: int| 0 <= i < locators_count(b) && locator_out_of_range(b, i) {
        let i = choose|i: int|
            0 <= i < locators_count(b) && locator_out_of_range(b, i) && forall|k: int|
                0 <= k < i ==> !locator_out_of_range(b, k);
        Some(MapPropMaterialShapesError::LocatorOutOfRange(i as u16))
    } else {
        None
    }
}

/// Slot `i` of the output: nothing for an empty locator, else the window of the flat table
/// that the locator gives.
pub open spec fn slot_decodes(b: Seq<u8>, i: int, s: Option<MapPropMaterialShapes>) -> bool {
    let l = spec_locator(b, i);
    if l.ids_count == 0 {
        s is None
    } else {
        &&& s is Some
        &&& s->0.ids_index == l.ids_index
        &&& s->0.ids@ == flat_ids(b).subrange(l.ids_index as int, l.ids_index + l.ids_count)
    }
}

pub proof fn lemma_first_out_of_range(b: Seq<u8>, i: int)
    requires
        0 <= i < locators_count(b),
        locator_out_of_range(b, i),
    ensures
        exists|j: int|
            0 <= j < locators_count(b) && locator_out_of_range(b, j) && forall|k: int|
                0 <= k < j ==> !locator_out_of_range(b, k),
    decreases i,
{
    if exists|k: int| 0 <= k < i && locator_out_of_range(b, k) {
        let k = choose|k: int| 0 <= k < i && locator_out_of_range(b, k);
        lemma_first_out_of_range(b, k);
    }
}

impl MapPropMaterialShapes {
    /// Parses the material and shapes of all map props: a `u16` locator count, a `u16` id
    /// count, the locators, then the id pairs. An empty locator gives `None`.
    pub fn parse_bytes(bytes: &[u8]) -> (r: Result<Vec<Option<Self>>, MapPropMaterialShapesError>)
        ensures
            match r {
                Ok(v) => material_shapes_error(bytes@) is None && v@.len() == locators_count(bytes@)
                    && forall|i: int| 0 <= i < v@.len() ==> slot_decodes(bytes@, i, #[trigger] v@[i]),
                Err(e) => material_shapes_error(bytes@) == Some(e),
            },
    {
        let len = bytes.len();
        if len < 4 {
            return Err(MapPropMaterialShapesError::ReadError);
        }
        let locators_count = read_u16_le(bytes, 0);
        let ids_count = read_u16_le(bytes, 2);
        if len < 4 + 4 * (locators_count as usize) + 4 * (ids_count as usize) {
            return Err(MapPropMaterialShapesError::ReadError);
        }
        let locators = Self::parse_locators(bytes, locators_count);
        let ids = Self::parse_ids(bytes, 4 + 4 * (locators_count as usize), ids_count);
        assert(ids@ == flat_ids(bytes@));

        let mut out: Vec<Option<Self>> = Vec::new();
        let mut i: usize = 0;
        while i < locators.len()
            invariant
                locators@.len() == locators_count,
                locators_count == crate::map_prop_material_shapes::locators_count(bytes@),
                ids_count == crate::map_prop_material_shapes::ids_count(bytes@),
                material_shapes_fit(bytes@),
                forall|k: int| 0 <= k < locators_count ==> locators@[k] == spec_locator(bytes@, k),
                ids@ == flat_ids(bytes@),
                i <= locators@.len(),
                out@.len() == i,
                forall|k: int| 0 <= k < i ==> !locator_out_of_range(bytes@, k),
                forall|k: int| 0 <= k < i ==> slot_decodes(bytes@, k, #[trigger] out@[k]),
            decreases locators@.len() - i,
        {
            let locator = locators[i];
            if locator.ids_count > 0 {
                let start = locator.ids_index as usize;
                let end = start + locator.ids_count as usize;
                if end > ids.len() {
                    proof {
                        lemma_first_out_of_range(bytes@, i as int);
                        let j = choose|j: int|
                            0 <= j < locators_count && locator_out_of_range(bytes@, j) && forall|
                                k: int,
                            |
                                0 <= k < j ==> !locator_out_of_range(bytes@, k);
                        assert(j == i) by {
                            if j < i {
                                assert(!locator_out_of_range(bytes@, j));
                            }
                            if j > i {
                                assert(!locator_out_of_range(bytes@, i as int));
                            }
                        }
                    }
                    return Err(MapPropMaterialShapesError::LocatorOutOfRange(i as u16));
                }
                let mut window: Vec<MapPropMaterialShapesIDs> = Vec::new();
                let mut k: usize = start;
                while k < end
                    invariant
                        start <= k <= end <= ids@.len(),
                        window@ == ids@.subrange(start as int, k as int),
                    decreases end - k,
                {
                    window.push(ids[k]);
                    proof {
                        assert(ids@.subrange(start as int, k + 1) =~= ids@.subrange(
                            start as int,
                            k as int,
                        ).push(ids@[k as int]));
                    }
                    k = k + 1;
                }
                out.push(Some(MapPropMaterialShapes { ids_index: locator.ids_index, ids: window }));
            } else {
                out.push(None);
            }
            i = i + 1;
        }
        Ok(out)
    }

    /// Parses `count` locators from offset 4 on.
    fn parse_locators(b: &[u8], count: u16) -> (r: Vec<MapPropMaterialShapesLocators>)
        requires
            4 + 4 * count <= b.len(),
        ensures
            r@.len() == count,
            forall|i: int| 0 <= i < count ==> r@[i] == spec_locator(b@, i),
    {
        let n = b.len();
        let mut v: Vec<MapPropMaterialShapesLocators> = Vec::new();
        let mut i: u16 = 0;
        while i < count
            invariant
                n == b@.len(),
                4 + 4 * count <= n,
                i <= count,
                v@.len() == i,
                forall|j: int| 0 <= j < i ==> v@[j] == spec_locator(b@, j),
            decreases count - i,
        {
            let off = 4 + 4 * (i as usize);
            v.push(
                MapPropMaterialShapesLocators {
                    ids_count: read_u16_le(b, off),
                    ids_index: read_u16_le(b, off + 2),
                },
            );
            i = i + 1;
        }
        v
    }

    /// Parses `count` id pairs from `off` on.
    fn parse_ids(b: &[u8], off: usize, count: u16) -> (r: Vec<MapPropMaterialShapesIDs>)
        requires
            off == 4 + 4 * locators_count(b@),
            off + 4 * count <= b.len(),
            b@.len() >= 4,
            count == ids_count(b@),
        ensures
            r@ == flat_ids(b@),
    {
        let n = b.len();
        let mut v: Vec<MapPropMaterialShapesIDs> = Vec::new();
        let mut i: u16 = 0;
        while i < count
            invariant
                n == b@.len(),
                b@.len() >= 4,
                off == 4 + 4 * locators_count(b@),
                off + 4 * count <= n,
                i <= count,
                v@.len() == i,
                forall|j: int| 0 <= j < i ==> v@[j] == spec_ids(b@, j),
            decreases count - i,
        {
            let o = off + 4 * (i as usize);
            v.push(
                MapPropMaterialShapesIDs {
                    material_id: read_u16_le(b, o),
                    shape_id: read_u16_le(b, o + 2),
                },
            );
            i = i + 1;
        }
        assert(v@ =~= flat_ids(b@));
        v
    }
}

} // verus!
