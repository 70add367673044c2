//! The relational projection: the rows that the decoded records give in each table.
//!
//! Ids are positional: a record's id is its index in the list it comes from.

use vstd::prelude::*;

use crate::area_light::{AreaLight, AreaLightBlock, AreaLightProperties};
use crate::map_matrix::{MapMatrix, cell_coords, map_matrix_wf};
use crate::map_prop_material_shapes::{MapPropMaterialShapes, MapPropMaterialShapesIDs};
use crate::area_map_props::AreaMapProps;
use crate::land_data::{LandData, LandDataError, TerrainAttributes, tile_coords};
use crate::map_prop_animation_list::MapPropAnimationList;
use crate::nds::{DsRgb, DsVecFixed16};

verus! {

/// The kinds of reflection and emission colors of an area light block.
#[derive(Debug, Clone, Copy, PartialEq, Eq, Structural)]
pub enum AreaLightColorKind {
    Diffuse,
    Ambient,
    Specular,
    Emission,
}

pub open spec fn spec_color_kind_str(k: AreaLightColorKind) -> Seq<char> {
    match k {
        AreaLightColorKind::Diffuse => seq!['d', 'i', 'f', 'f', 'u', 's', 'e'],
        AreaLightColorKind::Ambient => seq!['a', 'm', 'b', 'i', 'e', 'n', 't'],
        AreaLightColorKind::Specular => seq!['s', 'p', 'e', 'c', 'u', 'l', 'a', 'r'],
        AreaLightColorKind::Emission => seq!['e', 'm', 'i', 's', 's', 'i', 'o', 'n'],
    }
}

impl AreaLightColorKind {
    /// The name of the kind, as the `kind` column holds it.
    pub fn as_str(&self) -> (r: &'static str)
        ensures
            r@ == spec_color_kind_str(*self),
    {
        match self {
            AreaLightColorKind::Diffuse => {
                proof {
                    reveal_strlit("diffuse");
                }
                "diffuse"
            },
            AreaLightColorKind::Ambient => {
                proof {
                    reveal_strlit("ambient");
                }
                "ambient"
            },
            AreaLightColorKind::Specular => {
                proof {
                    reveal_strlit("specular");
                }
                "specular"
            },
            AreaLightColorKind::Emission => {
                proof {
                    reveal_strlit("emission");
                }
                "emission"
            },
        }
    }
}

/// A row of `area_light`.
#[derive(Debug, Clone, Copy, PartialEq, Eq, Structural)]
pub struct AreaLightRow {
    pub id: usize,
    pub end_time: u32,
}

/// A row of `area_light_properties`.
#[derive(Debug, Clone, Copy, PartialEq, Eq, Structural)]
pub struct AreaLightPropertiesRow {
    pub light_id: u32,
    pub area_light_id: usize,
    pub area_light_end_time: u32,
    pub color: DsRgb,
    pub direction: DsVecFixed16,
}

/// A row of `area_light_color`.
#[derive(Debug, Clone, Copy, PartialEq, Eq, Structural)]
pub struct AreaLightColorRow {
    pub kind: AreaLightColorKind,
    pub area_light_id: usize,
    pub area_light_end_time: u32,
    pub color: DsRgb,
}

/// The rows of the three area light tables.
#[derive(Debug, Clone)]
pub struct AreaLightTables {
    pub area_light: Vec<AreaLightRow>,
    pub area_light_properties: Vec<AreaLightPropertiesRow>,
    pub area_light_color: Vec<AreaLightColorRow>,
}

/// The blocks of all area lights, each with the index of its area light.
pub open spec fn all_blocks(ls: Seq<AreaLight>) -> Seq<(usize, AreaLightBlock)>
    decreases ls.len(),
{
    if ls.len() == 0 {
        seq![]
    } else {
        all_blocks(ls.drop_last()) + ls.last().blocks@.map_values(
            |b: AreaLightBlock| ((ls.len() - 1) as usize, b),
        )
    }
}

/// The row of light `light_id` of a block, if the light is present.
pub open spec fn light_row(
    light_id: u32,
    id: usize,
    end_time: u32,
    p: Option<AreaLightProperties>,
) -> Seq<AreaLightPropertiesRow> {
    match p {
        Some(l) => seq![
            AreaLightPropertiesRow {
                light_id,
                area_light_id: id,
                area_light_end_time: end_time,
                color: l.color,
                direction: l.direction,
            },
        ],
        None => seq![],
    }
}

/// The `area_light_properties` rows of a block: one for each present light, in light order.
pub open spec fn block_light_rows(id: usize, b: AreaLightBlock) -> Seq<AreaLightPropertiesRow> {
    light_row(0, id, b.end_time, b.light_0) + light_row(1, id, b.end_time, b.light_1) + light_row(
        2,
        id,
        b.end_time,
        b.light_2,
    ) + light_row(3, id, b.end_time, b.light_3)
}

pub open spec fn color_row(
    kind: AreaLightColorKind,
    id: usize,
    end_time: u32,
    color: DsRgb,
) -> AreaLightColorRow {
    AreaLightColorRow { kind, area_light_id: id, area_light_end_time: end_time, color }
}

/// The four `area_light_color` rows of a block.
pub open spec fn block_color_rows(id: usize, b: AreaLightBlock) -> Seq<AreaLightColorRow> {
    seq![
        color_row(AreaLightColorKind::Diffuse, id, b.end_time, b.diffuse_reflect_color),
        color_row(AreaLightColorKind::Ambient, id, b.end_time, b.ambient_reflect_color),
        color_row(AreaLightColorKind::Specular, id, b.end_time, b.specular_reflect_color),
        color_row(AreaLightColorKind::Emission, id, b.end_time, b.emission_color),
    ]
}

pub open spec fn light_rows(fb: Seq<(usize, AreaLightBlock)>) -> Seq<AreaLightPropertiesRow>
    decreases fb.len(),
{
    if fb.len() == 0 {
        seq![]
    } else {
        light_rows(fb.drop_last()) + block_light_rows(fb.last().0, fb.last().1)
    }
}

pub open spec fn color_rows(fb: Seq<(usize, AreaLightBlock)>) -> Seq<AreaLightColorRow>
    decreases fb.len(),
{
    if fb.len() == 0 {
        seq![]
    } else {
        color_rows(fb.drop_last()) + block_color_rows(fb.last().0, fb.last().1)
    }
}

/// The `area_light` row of a block.
pub open spec fn block_row(p: (usize, AreaLightBlock)) -> AreaLightRow {
    AreaLightRow { id: p.0, end_time: p.1.end_time }
}

/// The blocks of all area lights, in order, each with the index of its area light.
fn flat_blocks(lights: &Vec<AreaLight>) -> (r: Vec<(usize, AreaLightBlock)>)
    ensures
        r@ == all_blocks(lights@),
{
    let mut r: Vec<(usize, AreaLightBlock)> = Vec::new();
    let mut i: usize = 0;
    while i < lights.len()
        invariant
            i <= lights@.len(),
            r@ == all_blocks(lights@.take(i as int)),
        decreases lights@.len() - i,
    {
        let blocks = &lights[i].blocks;
        let ghost before = r@;
        let mut j: usize = 0;
        while j < blocks.len()
            invariant
                i < lights@.len(),
                *blocks == lights@[i as int].blocks,
                j <= blocks@.len(),
                before == all_blocks(lights@.take(i as int)),
                r@ == before + blocks@.take(j as int).map_values(
                    |b: AreaLightBlock| (i, b),
                ),
            decreases blocks@.len() - j,
        {
            r.push((i, blocks[j]));
            proof {
                assert(blocks@.take(j + 1).map_values(|b: AreaLightBlock| (i, b))
                    =~= blocks@.take(j as int).map_values(|b: AreaLightBlock| (i, b)).push(
                    (i, blocks@[j as int]),
                ));
            }
            j = j + 1;
        }
        proof {
            let t = lights@.take(i + 1);
            assert(t.drop_last() =~= lights@.take(i as int));
            assert(blocks@.take(j as int) =~= blocks@);
            assert(t.last() == lights@[i as int]);
        }
        i = i + 1;
    }
    proof {
        assert(lights@.take(i as int) =~= lights@);
    }
    r
}

fn push_light_row(
    rows: &mut Vec<AreaLightPropertiesRow>,
    light_id: u32,
    id: usize,
    end_time: u32,
    p: Option<AreaLightProperties>,
)
    ensures
        final(rows)@ == old(rows)@ + light_row(light_id, id, end_time, p),
{
    if let Some(l) = p {
        rows.push(
            AreaLightPropertiesRow {
                light_id,
                area_light_id: id,
                area_light_end_time: end_time,
                color: l.color,
                direction: l.direction,
            },
        );
        proof {
            assert(final(rows)@ =~= old(rows)@ + light_row(light_id, id, end_time, p));
        }
    } else {
        assert(rows@ =~= old(rows)@ + light_row(light_id, id, end_time, p));
    }
}

/// The rows of `area_light`, `area_light_properties` and `area_light_color` for the area lights
/// `lights`: a row per block, a row per present light of a block, and four color rows per
/// block.
pub fn area_light_tables(lights: &Vec<AreaLight>) -> (r: AreaLightTables)
    ensures
        r.area_light@ == all_blocks(lights@).map_values(|p: (usize, AreaLightBlock)| block_row(p)),
        r.area_light_properties@ == light_rows(all_blocks(lights@)),
        r.area_light_color@ == color_rows(all_blocks(lights@)),
{
    let fb = flat_blocks(lights);
    let mut area_light: Vec<AreaLightRow> = Vec::new();
    let mut props: Vec<AreaLightPropertiesRow> = Vec::new();
    let mut colors: Vec<AreaLightColorRow> = Vec::new();
    let mut k: usize = 0;
    while k < fb.len()
        invariant
            k <= fb@.len(),
            area_light@ == fb@.take(k as int).map_values(|p: (usize, AreaLightBlock)| block_row(p)),
            props@ == light_rows(fb@.take(k as int)),
            colors@ == color_rows(fb@.take(k as int)),
        decreases fb@.len() - k,
    {
        let (id, block) = fb[k];
        let ghost t = fb@.take(k + 1);
        proof {
            assert(t.drop_last() =~= fb@.take(k as int));
            assert(t.last() == fb@[k as int]);
        }
        area_light.push(AreaLightRow { id, end_time: block.end_time });
        proof {
            assert(area_light@ =~= t.map_values(|p: (usize, AreaLightBlock)| block_row(p)));
        }
        let ghost props_before = props@;
        push_light_row(&mut props, 0, id, block.end_time, block.light_0);
        push_light_row(&mut props, 1, id, block.end_time, block.light_1);
        push_light_row(&mut props, 2, id, block.end_time, block.light_2);
        push_light_row(&mut props, 3, id, block.end_time, block.light_3);
        proof {
            assert(props@ =~= props_before + block_light_rows(id, block));
        }
        let ghost colors_before = colors@;
        colors.push(AreaLightColorRow { kind: AreaLightColorKind::Diffuse, area_light_id: id, area_light_end_time: block.end_time, color: block.diffuse_reflect_color });
        colors.push(AreaLightColorRow { kind: AreaLightColorKind::Ambient, area_light_id: id, area_light_end_time: block.end_time, color: block.ambient_reflect_color });
        colors.push(AreaLightColorRow { kind: AreaLightColorKind::Specular, area_light_id: id, area_light_end_time: block.end_time, color: block.specular_reflect_color });
        colors.push(AreaLightColorRow { kind: AreaLightColorKind::Emission, area_light_id: id, area_light_end_time: block.end_time, color: block.emission_color });
        proof {
            assert(colors@ =~= colors_before + block_color_rows(id, block));
        }
        k = k + 1;
    }
    proof {
        assert(fb@.take(k as int) =~= fb@);
    }
    AreaLightTables { area_light, area_light_properties: props, area_light_color: colors }
}

/// A row of `map_matrix`.
#[derive(Debug, Clone)]
pub struct MapMatrixRow {
    pub id: usize,
    pub height: u8,
    pub width: u8,
    pub model_name_prefix: String,
}

/// A row of `map_matrix_header_id`, `map_matrix_altitude` or `map_matrix_land_data_id`: the
/// value of a cell of a matrix.
#[derive(Debug, Clone, Copy, PartialEq, Eq, Structural)]
pub struct MapMatrixCellRow {
    pub map_matrix_id: usize,
    pub x: u16,
    pub y: u16,
    pub value: u16,
}

/// The sections of a map matrix that have a table of their own.
#[derive(Debug, Clone, Copy, PartialEq, Eq, Structural)]
pub enum MapMatrixSection {
    HeaderIds,
    Altitudes,
    LandDataIds,
}

/// The rows of the four map matrix tables.
#[derive(Debug, Clone)]
pub struct MapMatrixTables {
    pub map_matrix: Vec<MapMatrixRow>,
    pub map_matrix_header_id: Vec<MapMatrixCellRow>,
    pub map_matrix_altitude: Vec<MapMatrixCellRow>,
    pub map_matrix_land_data_id: Vec<MapMatrixCellRow>,
}

/// The values of a section of `m`, empty where the section is absent.
pub open spec fn section_values(m: MapMatrix, s: MapMatrixSection) -> Seq<u16> {
    match s {
        MapMatrixSection::HeaderIds => match m.map_header_ids {
            Some(h) => h@,
            None => seq![],
        },
        MapMatrixSection::Altitudes => match m.altitudes {
            Some(a) => a@.map_values(|x: u8| x as u16),
            None => seq![],
        },
        MapMatrixSection::LandDataIds => m.land_data_ids@,
    }
}

/// The rows of a section of matrix `id`: one per cell, at its coordinates.
pub open spec fn cell_rows(id: usize, m: MapMatrix, s: MapMatrixSection) -> Seq<MapMatrixCellRow> {
    let v = section_values(m, s);
    Seq::new(
        v.len(),
        |i: int|
            MapMatrixCellRow {
                map_matrix_id: id,
                x: cell_coords(i, m.width as int).0,
                y: cell_coords(i, m.width as int).1,
                value: v[i],
            },
    )
}

/// The rows of the table of section `s` for the matrices `ms`.
pub open spec fn section_rows(ms: Seq<MapMatrix>, s: MapMatrixSection) -> Seq<MapMatrixCellRow>
    decreases ms.len(),
{
    if ms.len() == 0 {
        seq![]
    } else {
        section_rows(ms.drop_last(), s) + cell_rows((ms.len() - 1) as usize, ms.last(), s)
    }
}

fn section_len(m: &MapMatrix, s: MapMatrixSection) -> (r: usize)
    ensures
        r == section_values(*m, s).len(),
{
    match s {
        MapMatrixSection::HeaderIds => match &m.map_header_ids {
            Some(h) => h.len(),
            None => 0,
        },
        MapMatrixSection::Altitudes => match &m.altitudes {
            Some(a) => a.len(),
            None => 0,
        },
        MapMatrixSection::LandDataIds => m.land_data_ids.len(),
    }
}

fn section_value(m: &MapMatrix, s: MapMatrixSection, j: usize) -> (r: u16)
    requires
        j < section_values(*m, s).len(),
    ensures
        r == section_values(*m, s)[j as int],
{
    match s {
        MapMatrixSection::HeaderIds => match &m.map_header_ids {
            Some(h) => h[j],
            None => 0,
        },
        MapMatrixSection::Altitudes => match &m.altitudes {
            Some(a) => a[j] as u16,
            None => 0,
        },
        MapMatrixSection::LandDataIds => m.land_data_ids[j],
    }
}

/// The rows of the table of section `s` for the matrices `ms`.
fn section_table(ms: &Vec<MapMatrix>, s: MapMatrixSection) -> (r: Vec<MapMatrixCellRow>)
    requires
        forall|i: int| 0 <= i < ms@.len() ==> map_matrix_wf(#[trigger] ms@[i]),
    ensures
        r@ == section_rows(ms@, s),
{
    let mut r: Vec<MapMatrixCellRow> = Vec::new();
    let mut i: usize = 0;
    while i < ms.len()
        invariant
            i <= ms@.len(),
            forall|k: int| 0 <= k < ms@.len() ==> map_matrix_wf(#[trigger] ms@[k]),
            r@ == section_rows(ms@.take(i as int), s),
        decreases ms@.len() - i,
    {
        let m = &ms[i];
        assert(map_matrix_wf(*m));
        let ghost before = r@;
        let ghost cells = cell_rows(i, *m, s);
        let n = section_len(m, s);
        let mut j: usize = 0;
        while j < n
            invariant
                i < ms@.len(),
                *m == ms@[i as int],
                map_matrix_wf(*m),
                n == section_values(*m, s).len(),
                cells == cell_rows(i, *m, s),
                j <= n,
                r@ == before + cells.take(j as int),
            decreases n - j,
        {
            assert(j < m.width * m.height) by {
                assert(m.height * m.width == m.width * m.height) by (nonlinear_arith);
                assert(0 <= m.height * m.width) by (nonlinear_arith);
                match s {
                    MapMatrixSection::Altitudes => {
                        if let Some(a) = m.altitudes {
                            assert(section_values(*m, s).len() == a@.len());
                        }
                    },
                    _ => {},
                }
            }
            assert(m.width as int * m.height as int <= 255 * 255) by (nonlinear_arith)
                requires
                    m.width <= 255,
                    m.height <= 255,
            ;
            let (x, y) = match m.map_index_to_coords(j as u16) {
                Ok(c) => c,
                Err(_) => (0, 0),
            };
            r.push(MapMatrixCellRow { map_matrix_id: i, x, y, value: section_value(m, s, j) });
            proof {
                assert(cells.take(j + 1) =~= cells.take(j as int).push(cells[j as int]));
            }
            j = j + 1;
        }
        proof {
            let t = ms@.take(i + 1);
            assert(t.drop_last() =~= ms@.take(i as int));
            assert(cells.take(j as int) =~= cells);
        }
        i = i + 1;
    }
    proof {
        assert(ms@.take(i as int) =~= ms@);
    }
    r
}

/// The rows of `map_matrix` and of the tables of its three sections, for the well-formed
/// matrices `ms`: a row per matrix, and a row per cell of each present section.
pub fn map_matrix_tables(ms: &Vec<MapMatrix>) -> (r: MapMatrixTables)
    requires
        forall|i: int| 0 <= i < ms@.len() ==> map_matrix_wf(#[trigger] ms@[i]),
    ensures
        r.map_matrix@.len() == ms@.len(),
        forall|i: int|
            0 <= i < ms@.len() ==> {
                &&& (#[trigger] r.map_matrix@[i]).id == i
                &&& r.map_matrix@[i].height == ms@[i].height
                &&& r.map_matrix@[i].width == ms@[i].width
                &&& r.map_matrix@[i].model_name_prefix@ == ms@[i].model_name_prefix@
            },
        r.map_matrix_header_id@ == section_rows(ms@, MapMatrixSection::HeaderIds),
        r.map_matrix_altitude@ == section_rows(ms@, MapMatrixSection::Altitudes),
        r.map_matrix_land_data_id@ == section_rows(ms@, MapMatrixSection::LandDataIds),
{
    let mut rows: Vec<MapMatrixRow> = Vec::new();
    let mut i: usize = 0;
    while i < ms.len()
        invariant
            i <= ms@.len(),
            rows@.len() == i,
            forall|k: int|
                0 <= k < i ==> {
                    &&& (#[trigger] rows@[k]).id == k
                    &&& rows@[k].height == ms@[k].height
                    &&& rows@[k].width == ms@[k].width
                    &&& rows@[k].model_name_prefix@ == ms@[k].model_name_prefix@
                },
        decreases ms@.len() - i,
    {
        let m = &ms[i];
        rows.push(
            MapMatrixRow {
                id: i,
                height: m.height,
                width: m.width,
                model_name_prefix: m.model_name_prefix.clone(),
            },
        );
        i = i + 1;
    }
    MapMatrixTables {
        map_matrix: rows,
        map_matrix_header_id: section_table(ms, MapMatrixSection::HeaderIds),
        map_matrix_altitude: section_table(ms, MapMatrixSection::Altitudes),
        map_matrix_land_data_id: section_table(ms, MapMatrixSection::LandDataIds),
    }
}

/// A row of `map_prop_material_shape`.
#[derive(Debug, Clone, Copy, PartialEq, Eq, Structural)]
pub struct MapPropMaterialShapeRow {
    pub id: usize,
    pub material_shape_ids_index: u16,
}

/// A row of `map_prop_material_shape_ids`.
#[derive(Debug, Clone, Copy, PartialEq, Eq, Structural)]
pub struct MapPropMaterialShapeIdsRow {
    pub map_prop_material_shape_id: usize,
    pub material_id: u16,
    pub shape_id: u16,
}

/// The rows of the two material and shapes tables.
#[derive(Debug, Clone)]
pub struct MapPropMaterialShapeTables {
    pub map_prop_material_shape: Vec<MapPropMaterialShapeRow>,
    pub map_prop_material_shape_ids: Vec<MapPropMaterialShapeIdsRow>,
}

pub open spec fn slot_shape_row(id: usize, s: Option<MapPropMaterialShapes>) -> Seq<MapPropMaterialShapeRow> {
    match s {
        Some(m) => seq![MapPropMaterialShapeRow { id, material_shape_ids_index: m.ids_index }],
        None => seq![],
    }
}

pub open spec fn ids_row(id: usize, x: MapPropMaterialShapesIDs) -> MapPropMaterialShapeIdsRow {
    MapPropMaterialShapeIdsRow {
        map_prop_material_shape_id: id,
        material_id: x.material_id,
        shape_id: x.shape_id,
    }
}

pub open spec fn slot_ids_rows(id: usize, s: Option<MapPropMaterialShapes>) -> Seq<MapPropMaterialShapeIdsRow> {
    match s {
        Some(m) => m.ids@.map_values(|x: MapPropMaterialShapesIDs| ids_row(id, x)),
        None => seq![],
    }
}

/// The `map_prop_material_shape` rows: one per present slot.
pub open spec fn shape_rows(slots: Seq<Option<MapPropMaterialShapes>>) -> Seq<MapPropMaterialShapeRow>
    decreases slots.len(),
{
    if slots.len() == 0 {
        seq![]
    } else {
        shape_rows(slots.drop_last()) + slot_shape_row((slots.len() - 1) as usize, slots.last())
    }
}

/// The `map_prop_material_shape_ids` rows: one per id pair of each present slot.
pub open spec fn shape_ids_rows(slots: Seq<Option<MapPropMaterialShapes>>) -> Seq<MapPropMaterialShapeIdsRow>
    decreases slots.len(),
{
    if slots.len() == 0 {
        seq![]
    } else {
        shape_ids_rows(slots.drop_last()) + slot_ids_rows((slots.len() - 1) as usize, slots.last())
    }
}

/// The rows of the material and shapes tables: absent slots give no row.
pub fn map_prop_material_shape_tables(slots: &Vec<Option<MapPropMaterialShapes>>) -> (r: MapPropMaterialShapeTables)
    ensures
        r.map_prop_material_shape@ == shape_rows(slots@),
        r.map_prop_material_shape_ids@ == shape_ids_rows(slots@),
{
    let mut shapes: Vec<MapPropMaterialShapeRow> = Vec::new();
    let mut ids: Vec<MapPropMaterialShapeIdsRow> = Vec::new();
    let mut i: usize = 0;
    while i < slots.len()
        invariant
            i <= slots@.len(),
            shapes@ == shape_rows(slots@.take(i as int)),
            ids@ == shape_ids_rows(slots@.take(i as int)),
        decreases slots@.len() - i,
    {
        let ghost t = slots@.take(i + 1);
        proof {
            assert(t.drop_last() =~= slots@.take(i as int));
            assert(t.last() == slots@[i as int]);
        }
        match &slots[i] {
            Some(m) => {
                shapes.push(MapPropMaterialShapeRow { id: i, material_shape_ids_index: m.ids_index });
                let ghost before = ids@;
                let ghost all = slot_ids_rows(i, Some(*m));
                let mut k: usize = 0;
                while k < m.ids.len()
                    invariant
                        k <= m.ids@.len(),
                        all == m.ids@.map_values(|x: MapPropMaterialShapesIDs| ids_row(i, x)),
                        ids@ == before + all.take(k as int),
                    decreases m.ids@.len() - k,
                {
                    let x = m.ids[k];
                    ids.push(MapPropMaterialShapeIdsRow { map_prop_material_shape_id: i, material_id: x.material_id, shape_id: x.shape_id });
                    proof {
                        assert(all.take(k + 1) =~= all.take(k as int).push(all[k as int]));
                    }
                    k = k + 1;
                }
                proof {
                    assert(all.take(k as int) =~= all);
                    assert(shapes@ =~= shape_rows(t));
                }
            },
            None => {
                proof {
                    assert(shapes@ =~= shape_rows(t));
                    assert(ids@ =~= shape_ids_rows(t));
                }
            },
        }
        i = i + 1;
    }
    proof {
        assert(slots@.take(i as int) =~= slots@);
    }
    MapPropMaterialShapeTables { map_prop_material_shape: shapes, map_prop_material_shape_ids: ids }
}

/// A row of `land_data_terrain_attributes`.
#[derive(Debug, Clone, Copy, PartialEq, Eq, Structural)]
pub struct TerrainAttributesRow {
    pub land_data_id: usize,
    pub x: u32,
    pub y: u32,
    pub tile_behavior: u16,
    pub has_collision: bool,
}

pub open spec fn tile_rows(id: usize, ts: Seq<TerrainAttributes>) -> Seq<TerrainAttributesRow> {
    Seq::new(
        ts.len(),
        |i: int|
            TerrainAttributesRow {
                land_data_id: id,
                x: tile_coords(i).0,
                y: tile_coords(i).1,
                tile_behavior: ts[i].tile_behavior,
                has_collision: ts[i].has_collision,
            },
    )
}

/// The `land_data_terrain_attributes` rows: one per tile, at its coordinates.
pub open spec fn terrain_rows(ls: Seq<LandData>) -> Seq<TerrainAttributesRow>
    decreases ls.len(),
{
    if ls.len() == 0 {
        seq![]
    } else {
        terrain_rows(ls.drop_last()) + tile_rows((ls.len() - 1) as usize, ls.last().terrain_attributes@)
    }
}

/// The rows of `land_data_terrain_attributes`; a land data with more tiles than a map has
/// fails with the first index past the grid.
pub fn land_data_terrain_rows(ls: &Vec<LandData>) -> (r: Result<Vec<TerrainAttributesRow>, LandDataError>)
    ensures
        match r {
            Ok(v) => v@ == terrain_rows(ls@) && forall|d: int|
                0 <= d < ls@.len() ==> (#[trigger] ls@[d]).terrain_attributes@.len() <= 1024,
            Err(e) => e == LandDataError::TileIndexTooBig(1024) && exists|d: int|
                0 <= d < ls@.len() && (#[trigger] ls@[d]).terrain_attributes@.len() > 1024,
        },
{
    let mut r: Vec<TerrainAttributesRow> = Vec::new();
    let mut i: usize = 0;
    while i < ls.len()
        invariant
            i <= ls@.len(),
            r@ == terrain_rows(ls@.take(i as int)),
            forall|d: int| 0 <= d < i ==> (#[trigger] ls@[d]).terrain_attributes@.len() <= 1024,
        decreases ls@.len() - i,
    {
        let ts = &ls[i].terrain_attributes;
        let ghost before = r@;
        let ghost all = tile_rows(i, ts@);
        let mut j: usize = 0;
        while j < ts.len()
            invariant
                i < ls@.len(),
                *ts == ls@[i as int].terrain_attributes,
                all == tile_rows(i, ts@),
                j <= ts@.len(),
                j <= 1024,
                r@ == before + all.take(j as int),
            decreases ts@.len() - j,
        {
            if j >= 1024 {
                assert(ls@[i as int].terrain_attributes@.len() > 1024);
                return Err(LandDataError::TileIndexTooBig(1024));
            }
            let (x, y) = match LandData::tile_index_to_coords(j as u32) {
                Ok(c) => c,
                Err(e) => {
                    return Err(e);
                },
            };
            let t = ts[j];
            r.push(TerrainAttributesRow { land_data_id: i, x, y, tile_behavior: t.tile_behavior, has_collision: t.has_collision });
            proof {
                assert(all.take(j + 1) =~= all.take(j as int).push(all[j as int]));
            }
            j = j + 1;
        }
        proof {
            let t = ls@.take(i + 1);
            assert(t.drop_last() =~= ls@.take(i as int));
            assert(all.take(j as int) =~= all);
        }
        i = i + 1;
    }
    proof {
        assert(ls@.take(i as int) =~= ls@);
    }
    Ok(r)
}

/// A row of `map_prop_animation_list`.
#[derive(Debug, Clone, Copy, PartialEq, Eq, Structural)]
pub struct MapPropAnimationListRow {
    pub id: usize,
    pub deferred_loading: bool,
    pub deferred_add_to_render_object: bool,
    pub is_bicycle_slope: bool,
}

/// A row of `map_prop_animation_list_ids`.
#[derive(Debug, Clone, Copy, PartialEq, Eq, Structural)]
pub struct MapPropAnimationListIdsRow {
    pub animation_id: u32,
    pub map_prop_animation_list_id: usize,
}

/// The rows of the two animation list tables.
#[derive(Debug, Clone)]
pub struct MapPropAnimationListTables {
    pub map_prop_animation_list: Vec<MapPropAnimationListRow>,
    pub map_prop_animation_list_ids: Vec<MapPropAnimationListIdsRow>,
}

pub open spec fn list_row(id: usize, l: MapPropAnimationList) -> MapPropAnimationListRow {
    MapPropAnimationListRow {
        id,
        deferred_loading: l.deferred_loading,
        deferred_add_to_render_object: l.deferred_add_to_render_object,
        is_bicycle_slope: l.is_bicycle_slope,
    }
}

pub open spec fn list_id_rows(id: usize, l: MapPropAnimationList) -> Seq<MapPropAnimationListIdsRow> {
    l.map_prop_animation_ids@.map_values(
        |a: u32| MapPropAnimationListIdsRow { animation_id: a, map_prop_animation_list_id: id },
    )
}

/// The `map_prop_animation_list_ids` rows: one per animation id of each list.
pub open spec fn animation_id_rows(ls: Seq<MapPropAnimationList>) -> Seq<MapPropAnimationListIdsRow>
    decreases ls.len(),
{
    if ls.len() == 0 {
        seq![]
    } else {
        animation_id_rows(ls.drop_last()) + list_id_rows((ls.len() - 1) as usize, ls.last())
    }
}

/// The rows of the animation list tables: a row per list, a row per animation id.
pub fn map_prop_animation_list_tables(ls: &Vec<MapPropAnimationList>) -> (r: MapPropAnimationListTables)
    ensures
        r.map_prop_animation_list@.len() == ls@.len(),
        forall|i: int| 0 <= i < ls@.len() ==> #[trigger] r.map_prop_animation_list@[i] == list_row(i as usize, ls@[i]),
        r.map_prop_animation_list_ids@ == animation_id_rows(ls@),
{
    let mut lists: Vec<MapPropAnimationListRow> = Vec::new();
    let mut ids: Vec<MapPropAnimationListIdsRow> = Vec::new();
    let mut i: usize = 0;
    while i < ls.len()
        invariant
            i <= ls@.len(),
            lists@.len() == i,
            forall|k: int| 0 <= k < i ==> #[trigger] lists@[k] == list_row(k as usize, ls@[k]),
            ids@ == animation_id_rows(ls@.take(i as int)),
        decreases ls@.len() - i,
    {
        let l = &ls[i];
        lists.push(MapPropAnimationListRow { id: i, deferred_loading: l.deferred_loading, deferred_add_to_render_object: l.deferred_add_to_render_object, is_bicycle_slope: l.is_bicycle_slope });
        let ghost before = ids@;
        let ghost all = list_id_rows(i, *l);
        let mut k: usize = 0;
        while k < l.map_prop_animation_ids.len()
            invariant
                i < ls@.len(),
                *l == ls@[i as int],
                all == list_id_rows(i, *l),
                k <= l.map_prop_animation_ids@.len(),
                ids@ == before + all.take(k as int),
            decreases l.map_prop_animation_ids@.len() - k,
        {
            ids.push(MapPropAnimationListIdsRow { animation_id: l.map_prop_animation_ids[k], map_prop_animation_list_id: i });
            proof {
                assert(all.take(k + 1) =~= all.take(k as int).push(all[k as int]));
            }
            k = k + 1;
        }
        proof {
            let t = ls@.take(i + 1);
            assert(t.drop_last() =~= ls@.take(i as int));
            assert(all.take(k as int) =~= all);
        }
        i = i + 1;
    }
    proof {
        assert(ls@.take(i as int) =~= ls@);
    }
    MapPropAnimationListTables { map_prop_animation_list: lists, map_prop_animation_list_ids: ids }
}

/// A row of `area_map_prop`.
#[derive(Debug, Clone, Copy, PartialEq, Eq, Structural)]
pub struct AreaMapPropRow {
    pub id: usize,
    pub map_prop_id: u16,
}

pub open spec fn props_rows_of(id: usize, p: AreaMapProps) -> Seq<AreaMapPropRow> {
    p.map_props_ids@.map_values(|m: u16| AreaMapPropRow { id, map_prop_id: m })
}

/// The `area_map_prop` rows: one per prop id of each record.
pub open spec fn area_map_prop_rows(ps: Seq<AreaMapProps>) -> Seq<AreaMapPropRow>
    decreases ps.len(),
{
    if ps.len() == 0 {
        seq![]
    } else {
        area_map_prop_rows(ps.drop_last()) + props_rows_of((ps.len() - 1) as usize, ps.last())
    }
}

/// The rows of `area_map_prop`.
pub fn area_map_prop_table(ps: &Vec<AreaMapProps>) -> (r: Vec<AreaMapPropRow>)
    ensures
        r@ == area_map_prop_rows(ps@),
{
    let mut r: Vec<AreaMapPropRow> = Vec::new();
    let mut i: usize = 0;
    while i < ps.len()
        invariant
            i <= ps@.len(),
            r@ == area_map_prop_rows(ps@.take(i as int)),
        decreases ps@.len() - i,
    {
        let p = &ps[i];
        let ghost before = r@;
        let ghost all = props_rows_of(i, *p);
        let mut k: usize = 0;
        while k < p.map_props_ids.len()
            invariant
                i < ps@.len(),
                *p == ps@[i as int],
                all == props_rows_of(i, *p),
                k <= p.map_props_ids@.len(),
                r@ == before + all.take(k as int),
            decreases p.map_props_ids@.len() - k,
        {
            r.push(AreaMapPropRow { id: i, map_prop_id: p.map_props_ids[k] });
            proof {
                assert(all.take(k + 1) =~= all.take(k as int).push(all[k as int]));
            }
            k = k + 1;
        }
        proof {
            let t = ps@.take(i + 1);
            assert(t.drop_last() =~= ps@.take(i as int));
            assert(all.take(k as int) =~= all);
        }
        i = i + 1;
    }
    proof {
        assert(ps@.take(i as int) =~= ps@);
    }
    r
}

/// A row of a table whose rows are the elements of a list that a land data record holds
/// (`land_data_map_prop`, `bdhc_point`, `bdhc_normal`, `bdhc_constant`, `bdhc_plate`,
/// `bdhc_access_list`, `bdhc_strip`): the element, its index in the list, and the index of the
/// land data record.
#[derive(Debug, Clone, Copy)]
pub struct LandDataChildRow<T> {
    pub idx: usize,
    pub land_data_id: usize,
    pub value: T,
}

pub open spec fn group_rows<T>(id: usize, g: Seq<T>) -> Seq<LandDataChildRow<T>> {
    Seq::new(g.len(), |i: int| LandDataChildRow { idx: i as usize, land_data_id: id, value: g[i] })
}

/// The rows of the lists `gs`, list `d` being that of land data record `d`.
pub open spec fn land_data_child_rows_of<T>(gs: Seq<Vec<T>>) -> Seq<LandDataChildRow<T>>
    decreases gs.len(),
{
    if gs.len() == 0 {
        seq![]
    } else {
        land_data_child_rows_of(gs.drop_last()) + group_rows((gs.len() - 1) as usize, gs.last()@)
    }
}

/// The rows of a table of land data children: one per element of each list, in order.
pub fn land_data_child_rows<T: Copy>(gs: &Vec<Vec<T>>) -> (r: Vec<LandDataChildRow<T>>)
    ensures
        r@ == land_data_child_rows_of(gs@),
{
    let mut r: Vec<LandDataChildRow<T>> = Vec::new();
    let mut d: usize = 0;
    while d < gs.len()
        invariant
            d <= gs@.len(),
            r@ == land_data_child_rows_of(gs@.take(d as int)),
        decreases gs@.len() - d,
    {
        let g = &gs[d];
        let ghost before = r@;
        let ghost all = group_rows(d, g@);
        let mut i: usize = 0;
        while i < g.len()
            invariant
                d < gs@.len(),
                *g == gs@[d as int],
                all == group_rows(d, g@),
                i <= g@.len(),
                r@ == before + all.take(i as int),
            decreases g@.len() - i,
        {
            r.push(LandDataChildRow { idx: i, land_data_id: d, value: g[i] });
            proof {
                assert(all.take(i + 1) =~= all.take(i as int).push(all[i as int]));
            }
            i = i + 1;
        }
        proof {
            let t = gs@.take(d + 1);
            assert(t.drop_last() =~= gs@.take(d as int));
            assert(all.take(i as int) =~= all);
        }
        d = d + 1;
    }
    proof {
        assert(gs@.take(d as int) =~= gs@);
    }
    r
}

} // verus!
