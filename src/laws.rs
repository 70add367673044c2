//! Properties that hold of every input, stated over the models of the decoders and of the
//! relational projection.

use vstd::prelude::*;

use crate::area_light::{AreaLight, AreaLightBlock};
use crate::land_data::{LandData, land_data_decodes, land_data_error, terrain_size, tile_coords};
use crate::map_matrix::{MapMatrix, map_matrix_wf};
use crate::map_prop_material_shapes::{
    MapPropMaterialShapes, MapPropMaterialShapesIDs, flat_ids, ids_count, locators_count,
    material_shapes_error, slot_decodes, spec_locator,
};
use crate::narc::{NarcReader, NarcReaderError, spec_get_file, spec_number_of_files, narc_reader_wf};
use crate::tables::{
    LandDataChildRow, group_rows, land_data_child_rows_of,
    AreaLightTables, MapMatrixSection, MapMatrixTables, MapPropMaterialShapeTables, all_blocks,
    animation_id_rows, block_color_rows, block_light_rows, block_row, cell_rows, slot_shape_row, MapPropMaterialShapeRow, color_rows,
    light_rows, section_rows, shape_ids_rows, shape_rows, slot_ids_rows,
};

verus! {

/// Reading member `i < count` of an archive gives `end - start` bytes of its FAT entry, and
/// reading it twice gives the same bytes.
pub proof fn lemma_member_size_and_repeat(r: NarcReader, i: u16, a: Seq<u8>, b: Seq<u8>)
    requires
        narc_reader_wf(r),
        i < spec_number_of_files(r),
        spec_get_file(r, i) == Ok::<Seq<u8>, NarcReaderError>(a),
        spec_get_file(r, i) == Ok::<Seq<u8>, NarcReaderError>(b),
    ensures
        a.len() == r.narc_header.fat->0.files@[i as int].end_address
            - r.narc_header.fat->0.files@[i as int].start_address,
        a == b,
{
}

/// A tile index below 1024 maps to coordinates on the 32x32 grid from which `y * 32 + x` gives
/// the index back.
pub proof fn lemma_tile_index_round_trip(i: int)
    requires
        0 <= i < 1024,
    ensures
        tile_coords(i).0 < 32,
        tile_coords(i).1 < 32,
        tile_coords(i).1 * 32 + tile_coords(i).0 == i,
{
}

/// Coordinates on the 32x32 grid map to the index `y * 32 + x`, whose coordinates they are.
pub proof fn lemma_coords_round_trip(x: u32, y: u32)
    requires
        x < 32,
        y < 32,
    ensures
        tile_coords(y * 32 + x) == (x, y),
{
}

/// Land data whose terrain section spans a whole map (2048 bytes) holds 1024 tiles.
pub proof fn lemma_full_map_terrain(b: Seq<u8>, d: LandData)
    requires
        land_data_error(b) is None,
        land_data_decodes(b, d),
        terrain_size(b) == 2048,
    ensures
        d.terrain_attributes@.len() == 1024,
{
}

/// The number of lights that a block has.
pub open spec fn present_lights(b: AreaLightBlock) -> nat {
    (if b.light_0 is Some { 1nat } else { 0nat }) + (if b.light_1 is Some { 1nat } else { 0nat })
        + (if b.light_2 is Some { 1nat } else { 0nat }) + (if b.light_3 is Some { 1nat } else { 0nat })
}

/// The number of lights of all the blocks.
pub open spec fn total_present_lights(fb: Seq<(usize, AreaLightBlock)>) -> nat
    decreases fb.len(),
{
    if fb.len() == 0 {
        0
    } else {
        total_present_lights(fb.drop_last()) + present_lights(fb.last().1)
    }
}

/// Each block has as many `area_light_properties` rows as present lights, and four
/// `area_light_color` rows; over all blocks, `area_light` has one row per block,
/// `area_light_properties` one per present light and `area_light_color` four per block.
pub proof fn lemma_area_light_row_counts(fb: Seq<(usize, AreaLightBlock)>)
    ensures
        forall|k: int|
            0 <= k < fb.len() ==> #[trigger] block_light_rows(fb[k].0, fb[k].1).len()
                == present_lights(fb[k].1) && block_color_rows(fb[k].0, fb[k].1).len() == 4,
        fb.map_values(|p: (usize, AreaLightBlock)| block_row(p)).len() == fb.len(),
        light_rows(fb).len() == total_present_lights(fb),
        color_rows(fb).len() == 4 * fb.len(),
    decreases fb.len(),
{
    if fb.len() > 0 {
        lemma_area_light_row_counts(fb.drop_last());
    }
}

/// In a well-formed map matrix, `map_matrix_land_data_id` gets `height * width` rows, and
/// `map_matrix_header_id` and `map_matrix_altitude` get that many when their section is present
/// and none otherwise.
pub proof fn lemma_map_matrix_row_counts(id: usize, m: MapMatrix)
    requires
        map_matrix_wf(m),
    ensures
        cell_rows(id, m, MapMatrixSection::LandDataIds).len() == m.height * m.width,
        cell_rows(id, m, MapMatrixSection::HeaderIds).len() == if m.map_header_ids is Some {
            m.height * m.width
        } else {
            0
        },
        cell_rows(id, m, MapMatrixSection::Altitudes).len() == if m.altitudes is Some {
            m.height * m.width
        } else {
            0
        },
{
}

/// The id pairs held by the present slots of `v`.
pub open spec fn slot_ids_union(v: Seq<Option<MapPropMaterialShapes>>) -> Set<MapPropMaterialShapesIDs> {
    Set::new(
        |x: MapPropMaterialShapesIDs|
            exists|i: int, k: int|
                0 <= i < v.len() && v[i] is Some && 0 <= k < v[i]->0.ids@.len() && v[i]->0.ids@[k]
                    == x,
    )
}

/// Position `j` of the flat id table lies in the window of a non-empty locator.
pub open spec fn flat_position_covered(b: Seq<u8>, j: int) -> bool {
    exists|i: int|
        0 <= i < locators_count(b) && spec_locator(b, i).ids_count > 0 && spec_locator(b, i).ids_index
            <= j < spec_locator(b, i).ids_index + spec_locator(b, i).ids_count
}

/// The id pairs of the non-empty locators come from the flat id table, and where the locators
/// cover the whole table their union is the table; an absent slot gives no row.
pub proof fn lemma_material_shapes_union(b: Seq<u8>, v: Seq<Option<MapPropMaterialShapes>>)
    requires
        material_shapes_error(b) is None,
        v.len() == locators_count(b),
        forall|i: int| 0 <= i < v.len() ==> slot_decodes(b, i, #[trigger] v[i]),
    ensures
        slot_ids_union(v).subset_of(flat_ids(b).to_set()),
        (forall|j: int| 0 <= j < ids_count(b) ==> flat_position_covered(b, j)) ==> slot_ids_union(v)
            == flat_ids(b).to_set(),
        forall|i: int| 0 <= i < v.len() && v[i] is None ==> #[trigger] slot_ids_rows(i as usize, v[i]).len() == 0,
{
    let flat = flat_ids(b);
    assert forall|x: MapPropMaterialShapesIDs| slot_ids_union(v).contains(x) implies flat.to_set().contains(x) by {
        let (i, k) = choose|i: int, k: int|
            0 <= i < v.len() && v[i] is Some && 0 <= k < v[i]->0.ids@.len() && v[i]->0.ids@[k] == x;
        assert(slot_decodes(b, i, v[i]));
        let l = spec_locator(b, i);
        assert(!crate::map_prop_material_shapes::locator_out_of_range(b, i));
        assert(v[i]->0.ids@[k] == flat[l.ids_index + k]);
        assert(flat.contains(x));
    }
    if forall|j: int| 0 <= j < ids_count(b) ==> flat_position_covered(b, j) {
        assert forall|x: MapPropMaterialShapesIDs| flat.to_set().contains(x) implies slot_ids_union(v).contains(x) by {
            let j = choose|j: int| 0 <= j < flat.len() && flat[j] == x;
            assert(flat_position_covered(b, j));
            let i = choose|i: int|
                0 <= i < locators_count(b) && spec_locator(b, i).ids_count > 0 && spec_locator(b, i).ids_index
                    <= j < spec_locator(b, i).ids_index + spec_locator(b, i).ids_count;
            assert(slot_decodes(b, i, v[i]));
            assert(!crate::map_prop_material_shapes::locator_out_of_range(b, i));
            let k = j - spec_locator(b, i).ids_index;
            assert(v[i]->0.ids@[k] == x);
        }
        assert(slot_ids_union(v) =~= flat.to_set());
    }
}

/// Every `area_light_properties` and `area_light_color` row refers to an `area_light` row.
pub proof fn lemma_area_light_foreign_keys(fb: Seq<(usize, AreaLightBlock)>)
    ensures
        forall|r: int|
            0 <= r < light_rows(fb).len() ==> exists|k: int|
                0 <= k < fb.len() && #[trigger] light_rows(fb)[r].area_light_id == fb[k].0
                    && light_rows(fb)[r].area_light_end_time == fb[k].1.end_time,
        forall|r: int|
            0 <= r < color_rows(fb).len() ==> exists|k: int|
                0 <= k < fb.len() && #[trigger] color_rows(fb)[r].area_light_id == fb[k].0
                    && color_rows(fb)[r].area_light_end_time == fb[k].1.end_time,
    decreases fb.len(),
{
    if fb.len() > 0 {
        let prev = fb.drop_last();
        lemma_area_light_foreign_keys(prev);
        let last = fb.len() - 1;
        assert forall|r: int| 0 <= r < light_rows(fb).len() implies exists|k: int|
            0 <= k < fb.len() && #[trigger] light_rows(fb)[r].area_light_id == fb[k].0
                && light_rows(fb)[r].area_light_end_time == fb[k].1.end_time by {
            if r < light_rows(prev).len() {
                let k = choose|k: int|
                    0 <= k < prev.len() && #[trigger] light_rows(prev)[r].area_light_id == prev[k].0
                        && light_rows(prev)[r].area_light_end_time == prev[k].1.end_time;
                assert(fb[k] == prev[k]);
            } else {
                assert(fb[last] == fb.last());
            }
        }
        assert forall|r: int| 0 <= r < color_rows(fb).len() implies exists|k: int|
            0 <= k < fb.len() && #[trigger] color_rows(fb)[r].area_light_id == fb[k].0
                && color_rows(fb)[r].area_light_end_time == fb[k].1.end_time by {
            if r < color_rows(prev).len() {
                let k = choose|k: int|
                    0 <= k < prev.len() && #[trigger] color_rows(prev)[r].area_light_id == prev[k].0
                        && color_rows(prev)[r].area_light_end_time == prev[k].1.end_time;
                assert(fb[k] == prev[k]);
            } else {
                assert(fb[last] == fb.last());
            }
        }
    }
}

/// Every row of the table of a map matrix section refers to a `map_matrix` row.
pub proof fn lemma_map_matrix_foreign_keys(ms: Seq<MapMatrix>, s: MapMatrixSection)
    ensures
        forall|r: int|
            0 <= r < section_rows(ms, s).len() ==> #[trigger] section_rows(ms, s)[r].map_matrix_id
                < ms.len(),
    decreases ms.len(),
{
    if ms.len() > 0 {
        let prev = ms.drop_last();
        lemma_map_matrix_foreign_keys(prev, s);
        assert forall|r: int| 0 <= r < section_rows(ms, s).len() implies #[trigger] section_rows(
            ms,
            s,
        )[r].map_matrix_id < ms.len() by {
            if r < section_rows(prev, s).len() {
                assert(section_rows(ms, s)[r] == section_rows(prev, s)[r]);
            } else {
                let c = cell_rows((ms.len() - 1) as usize, ms.last(), s);
                assert(section_rows(ms, s)[r] == c[r - section_rows(prev, s).len()]);
            }
        }
    }
}

/// Some row of `rows` has the id `id`.
pub open spec fn has_shape_row(rows: Seq<MapPropMaterialShapeRow>, id: usize) -> bool {
    exists|k: int| 0 <= k < rows.len() && rows[k].id == id
}

/// Every `map_prop_material_shape_ids` row refers to a `map_prop_material_shape` row.
pub proof fn lemma_material_shape_foreign_keys(slots: Seq<Option<MapPropMaterialShapes>>)
    ensures
        forall|r: int|
            0 <= r < shape_ids_rows(slots).len() ==> has_shape_row(
                shape_rows(slots),
                (#[trigger] shape_ids_rows(slots)[r]).map_prop_material_shape_id,
            ),
    decreases slots.len(),
{
    if slots.len() > 0 {
        let prev = slots.drop_last();
        lemma_material_shape_foreign_keys(prev);
        let last_shape = slot_shape_row((slots.len() - 1) as usize, slots.last());
        let last_rows = slot_ids_rows((slots.len() - 1) as usize, slots.last());
        assert(shape_rows(slots) == shape_rows(prev) + last_shape);
        assert(shape_ids_rows(slots) == shape_ids_rows(prev) + last_rows);
        assert forall|r: int| 0 <= r < shape_ids_rows(slots).len() implies has_shape_row(
            shape_rows(slots),
            (#[trigger] shape_ids_rows(slots)[r]).map_prop_material_shape_id,
        ) by {
            let id = shape_ids_rows(slots)[r].map_prop_material_shape_id;
            if r < shape_ids_rows(prev).len() {
                assert(shape_ids_rows(slots)[r] == shape_ids_rows(prev)[r]);
                assert(has_shape_row(shape_rows(prev), id));
                let k = choose|k: int| 0 <= k < shape_rows(prev).len() && shape_rows(prev)[k].id == id;
                assert(shape_rows(slots)[k] == shape_rows(prev)[k]);
            } else {
                let k = shape_rows(prev).len() as int;
                assert(slots.last() is Some);
                assert(last_shape.len() == 1);
                assert(shape_rows(slots)[k] == last_shape[0]);
                assert(shape_ids_rows(slots)[r] == last_rows[r - shape_ids_rows(prev).len()]);
            }
        }
    }
}

/// Every `map_prop_animation_list_ids` row refers to a `map_prop_animation_list` row.
pub proof fn lemma_animation_list_foreign_keys(ls: Seq<crate::map_prop_animation_list::MapPropAnimationList>)
    ensures
        forall|r: int|
            0 <= r < animation_id_rows(ls).len() ==> #[trigger] animation_id_rows(ls)[r].map_prop_animation_list_id
                < ls.len(),
    decreases ls.len(),
{
    if ls.len() > 0 {
        let prev = ls.drop_last();
        lemma_animation_list_foreign_keys(prev);
        assert forall|r: int| 0 <= r < animation_id_rows(ls).len() implies #[trigger] animation_id_rows(
            ls,
        )[r].map_prop_animation_list_id < ls.len() by {
            if r < animation_id_rows(prev).len() {
                assert(animation_id_rows(ls)[r] == animation_id_rows(prev)[r]);
            }
        }
    }
}

/// Some row of `rows` is element `i` of the list of land data record `d`.
pub open spec fn has_child_row<T>(rows: Seq<LandDataChildRow<T>>, i: int, d: int) -> bool {
    exists|k: int| 0 <= k < rows.len() && rows[k].idx == i && rows[k].land_data_id == d
}

/// Each element of each list of land data children has a row: an index that a BDHC plate or
/// strip holds, where it is within the list it points into, refers to a row of that table.
pub proof fn lemma_land_data_child_row_exists<T>(gs: Seq<Vec<T>>, d: int, i: int)
    requires
        0 <= d < gs.len() <= usize::MAX,
        0 <= i < gs[d]@.len() <= usize::MAX,
    ensures
        has_child_row(land_data_child_rows_of(gs), i, d),
    decreases gs.len(),
{
    let prev = gs.drop_last();
    let rows = land_data_child_rows_of(gs);
    let last = group_rows((gs.len() - 1) as usize, gs.last()@);
    assert(rows == land_data_child_rows_of(prev) + last);
    if d < gs.len() - 1 {
        assert(prev[d] == gs[d]);
        lemma_land_data_child_row_exists(prev, d, i);
        let k = choose|k: int|
            0 <= k < land_data_child_rows_of(prev).len() && land_data_child_rows_of(prev)[k].idx == i
                && land_data_child_rows_of(prev)[k].land_data_id == d;
        assert(rows[k] == land_data_child_rows_of(prev)[k]);
    } else {
        let k = land_data_child_rows_of(prev).len() + i;
        assert(rows[k] == last[i]);
    }
}

/// Projecting the same area lights twice gives the same rows in each of their tables.
pub proof fn lemma_area_light_projection_repeats(
    lights: Seq<AreaLight>,
    t1: AreaLightTables,
    t2: AreaLightTables,
)
    requires
        t1.area_light@ == all_blocks(lights).map_values(|p: (usize, AreaLightBlock)| block_row(p)),
        t1.area_light_properties@ == light_rows(all_blocks(lights)),
        t1.area_light_color@ == color_rows(all_blocks(lights)),
        t2.area_light@ == all_blocks(lights).map_values(|p: (usize, AreaLightBlock)| block_row(p)),
        t2.area_light_properties@ == light_rows(all_blocks(lights)),
        t2.area_light_color@ == color_rows(all_blocks(lights)),
    ensures
        t1.area_light@ == t2.area_light@,
        t1.area_light_properties@ == t2.area_light_properties@,
        t1.area_light_color@ == t2.area_light_color@,
{
}

/// Projecting the same map matrices twice gives the same rows in each section table.
pub proof fn lemma_map_matrix_projection_repeats(ms: Seq<MapMatrix>, t1: MapMatrixTables, t2: MapMatrixTables)
    requires
        t1.map_matrix_header_id@ == section_rows(ms, MapMatrixSection::HeaderIds),
        t1.map_matrix_altitude@ == section_rows(ms, MapMatrixSection::Altitudes),
        t1.map_matrix_land_data_id@ == section_rows(ms, MapMatrixSection::LandDataIds),
        t2.map_matrix_header_id@ == section_rows(ms, MapMatrixSection::HeaderIds),
        t2.map_matrix_altitude@ == section_rows(ms, MapMatrixSection::Altitudes),
        t2.map_matrix_land_data_id@ == section_rows(ms, MapMatrixSection::LandDataIds),
    ensures
        t1.map_matrix_header_id@ == t2.map_matrix_header_id@,
        t1.map_matrix_altitude@ == t2.map_matrix_altitude@,
        t1.map_matrix_land_data_id@ == t2.map_matrix_land_data_id@,
{
}

/// Projecting the same material and shapes slots twice gives the same rows.
pub proof fn lemma_material_shape_projection_repeats(
    slots: Seq<Option<MapPropMaterialShapes>>,
    t1: MapPropMaterialShapeTables,
    t2: MapPropMaterialShapeTables,
)
    requires
        t1.map_prop_material_shape@ == shape_rows(slots),
        t1.map_prop_material_shape_ids@ == shape_ids_rows(slots),
        t2.map_prop_material_shape@ == shape_rows(slots),
        t2.map_prop_material_shape_ids@ == shape_ids_rows(slots),
    ensures
        t1.map_prop_material_shape@ == t2.map_prop_material_shape@,
        t1.map_prop_material_shape_ids@ == t2.map_prop_material_shape_ids@,
{
}

} // verus!
