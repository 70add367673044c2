use sinjoh::area_light::AreaLight;
use sinjoh::map_matrix::MapMatrix;
use sinjoh::map_prop_animation_list::MapPropAnimationList;
use sinjoh::area_map_props::AreaMapProps;
use sinjoh::land_data::{LandData, LandDataError, TerrainAttributes};
use sinjoh::bdhc::Bdhc;
use sinjoh::tables::{
    AreaLightColorKind, area_light_tables, area_map_prop_table, land_data_terrain_rows,
    map_matrix_tables, map_prop_animation_list_tables,
};

const TWO_BLOCKS: &str = "100\n1,1,2,3,0,0,4096\n0,0,0,0,0,0,0\n1,9,9,9,1,1,1\n0\n1,1,1\n2,2,2\n3,3,3\n4,4,4\n\n200\n0\n0\n0\n1,7,7,7,0,0,0\n5,5,5\n6,6,6\n7,7,7\n8,8,8\nEOF\n";

#[test]
fn area_light_row_counts() {
    let lights = vec![AreaLight::parse_string(TWO_BLOCKS).unwrap(), AreaLight::parse_string("").unwrap()];
    let t = area_light_tables(&lights);
    assert_eq!(t.area_light.len(), 2);
    assert_eq!(t.area_light_properties.len(), 3);
    assert_eq!(t.area_light_color.len(), 8);
    assert_eq!((t.area_light[0].id, t.area_light[0].end_time), (0, 100));
    assert_eq!((t.area_light[1].id, t.area_light[1].end_time), (0, 200));
    let ids: Vec<(u32, u32)> = t
        .area_light_properties
        .iter()
        .map(|r| (r.light_id, r.area_light_end_time))
        .collect();
    assert_eq!(ids, vec![(0, 100), (2, 100), (3, 200)]);
    assert_eq!(t.area_light_color[4].kind, AreaLightColorKind::Diffuse);
    assert_eq!(t.area_light_color[7].kind.as_str(), "emission");
    assert_eq!(t.area_light_color[7].color.red, 8);
    // every property and color row refers to an area light row
    for r in &t.area_light_properties {
        assert!(t.area_light.iter().any(|a| a.id == r.area_light_id && a.end_time == r.area_light_end_time));
    }
    for r in &t.area_light_color {
        assert!(t.area_light.iter().any(|a| a.id == r.area_light_id && a.end_time == r.area_light_end_time));
    }
}

#[test]
fn color_kind_names() {
    assert_eq!(AreaLightColorKind::Diffuse.as_str(), "diffuse");
    assert_eq!(AreaLightColorKind::Ambient.as_str(), "ambient");
    assert_eq!(AreaLightColorKind::Specular.as_str(), "specular");
    assert_eq!(AreaLightColorKind::Emission.as_str(), "emission");
}

#[test]
fn map_matrix_row_counts() {
    let with_all = MapMatrix::parse_bytes(&[2, 3, 1, 1, 0, 1, 0, 2, 0, 3, 0, 4, 0, 5, 0, 6, 0, 9, 9, 9, 9, 9, 9, 1, 0, 2, 0, 3, 0, 4, 0, 5, 0, 6, 0]).unwrap();
    let plain = MapMatrix::parse_bytes(&[1, 2, 0, 0, 1, b'x', 7, 0, 8, 0]).unwrap();
    let ms = vec![with_all, plain];
    let t = map_matrix_tables(&ms);
    assert_eq!(t.map_matrix.len(), 2);
    assert_eq!(t.map_matrix[1].model_name_prefix, "x");
    assert_eq!(t.map_matrix_land_data_id.len(), 6 + 2);
    assert_eq!(t.map_matrix_header_id.len(), 6);
    assert_eq!(t.map_matrix_altitude.len(), 6);
    let last = t.map_matrix_land_data_id[7];
    assert_eq!((last.map_matrix_id, last.x, last.y, last.value), (1, 1, 0, 8));
    let fifth = t.map_matrix_header_id[4];
    assert_eq!((fifth.x, fifth.y, fifth.value), (1, 1, 5));
    for r in t.map_matrix_land_data_id.iter().chain(&t.map_matrix_header_id).chain(&t.map_matrix_altitude) {
        assert!(r.map_matrix_id < ms.len());
    }
    let again = map_matrix_tables(&ms);
    assert_eq!(again.map_matrix_land_data_id, t.map_matrix_land_data_id);
    assert_eq!(again.map_matrix_header_id, t.map_matrix_header_id);
}

#[test]
fn animation_list_and_area_map_prop_rows() {
    let mut bytes = vec![1, 1, 0, 0];
    for id in [4u32, 0xFFFF_FFFF, 0, 0] {
        bytes.extend_from_slice(&id.to_le_bytes());
    }
    let lists = vec![MapPropAnimationList::parse_bytes(&bytes).unwrap(); 2];
    let t = map_prop_animation_list_tables(&lists);
    assert_eq!(t.map_prop_animation_list.len(), 2);
    assert!(t.map_prop_animation_list[1].deferred_loading);
    assert_eq!(t.map_prop_animation_list_ids.len(), 2);
    assert_eq!(t.map_prop_animation_list_ids[1].map_prop_animation_list_id, 1);
    assert_eq!(t.map_prop_animation_list_ids[1].animation_id, 4);

    let props = vec![
        AreaMapProps::parse_bytes(&[2, 0, 5, 0, 6, 0]).unwrap(),
        AreaMapProps::parse_bytes(&[1, 0, 7, 0]).unwrap(),
    ];
    let rows = area_map_prop_table(&props);
    let pairs: Vec<(usize, u16)> = rows.iter().map(|r| (r.id, r.map_prop_id)).collect();
    assert_eq!(pairs, vec![(0, 5), (0, 6), (1, 7)]);
}

fn land(tiles: usize) -> LandData {
    LandData {
        terrain_attributes: vec![TerrainAttributes { tile_behavior: 3, has_collision: false }; tiles],
        map_props: Vec::new(),
        map_model: Vec::new(),
        bdhc: Bdhc {
            points: Vec::new(),
            normals: Vec::new(),
            constants: Vec::new(),
            plates: Vec::new(),
            strips: Vec::new(),
            access_list: Vec::new(),
        },
    }
}

#[test]
fn terrain_rows() {
    let rows = land_data_terrain_rows(&vec![land(1024), land(40)]).unwrap();
    assert_eq!(rows.len(), 1064);
    assert_eq!((rows[33].x, rows[33].y), (1, 1));
    assert_eq!((rows[1024 + 39].land_data_id, rows[1024 + 39].x, rows[1024 + 39].y), (1, 7, 1));
    assert_eq!(
        land_data_terrain_rows(&vec![land(2), land(1025)]).err(),
        Some(LandDataError::TileIndexTooBig(1024))
    );
}

#[test]
fn land_data_child_rows_index_each_list() {
    let groups = vec![vec![10u16, 11], vec![], vec![12]];
    let rows = sinjoh::tables::land_data_child_rows(&groups);
    let triples: Vec<(usize, usize, u16)> = rows.iter().map(|r| (r.idx, r.land_data_id, r.value)).collect();
    assert_eq!(triples, vec![(0, 0, 10), (1, 0, 11), (0, 2, 12)]);
}
