use sinjoh::area_data::AreaData;
use sinjoh::area_light::{AreaLight, AreaLightBlockLine, AreaLightError};
use sinjoh::area_map_props::{AreaMapProps, AreaMapPropsError};
use sinjoh::bdhc::{Bdhc, BdhcError, BdhcHeader, BdhcPlate, BdhcPoint, BdhcStrip};
use sinjoh::decimal::{IntErrorKind, parse_i16, parse_unsigned};
use sinjoh::land_data::{LandData, LandDataError, MapPropInstance, TerrainAttributes};
use sinjoh::map_matrix::{MapMatrix, MapMatrixError};
use sinjoh::map_prop_animation_list::{MapPropAnimationList, MapPropAnimationListError};
use sinjoh::map_prop_material_shapes::{MapPropMaterialShapes, MapPropMaterialShapesError};
use sinjoh::nds::{DsFixed16, DsFixed32, DsRgb};

fn push_u16(v: &mut Vec<u8>, x: u16) {
    v.extend_from_slice(&x.to_le_bytes());
}

fn push_u32(v: &mut Vec<u8>, x: u32) {
    v.extend_from_slice(&x.to_le_bytes());
}

fn small_bdhc() -> Vec<u8> {
    let mut v = vec![0x42, 0x44, 0x48, 0x43];
    v.extend_from_slice(&[0x02, 0x00, 0x01, 0x00, 0x01, 0x00, 0x01, 0x00, 0x01, 0x00, 0x01, 0x00]);
    // points
    push_u32(&mut v, 0x1000);
    push_u32(&mut v, 0xFFFF_F000);
    push_u32(&mut v, 0x2000);
    push_u32(&mut v, 0x3000);
    // normal
    push_u32(&mut v, 0);
    push_u32(&mut v, 0x1000);
    push_u32(&mut v, 0);
    // constant
    push_u32(&mut v, 0xFFFF_8000);
    // plate
    push_u16(&mut v, 0);
    push_u16(&mut v, 1);
    push_u16(&mut v, 0);
    push_u16(&mut v, 0);
    // strip
    push_u32(&mut v, 0x0800);
    push_u16(&mut v, 1);
    push_u16(&mut v, 0);
    // access list
    push_u16(&mut v, 0);
    v
}

#[test]
fn area_data_decoding() {
    let d = AreaData::from_bytes([0x01, 0x00, 0x02, 0x00, 0xFF, 0xFF, 0x03, 0x00]);
    assert_eq!(d.map_prop_archives_id, 1);
    assert_eq!(d.map_texture_archive_id, 2);
    assert_eq!(d.dummy, 0xFFFF);
    assert_eq!(d.area_light_archive_id, 3);
}

#[test]
fn terrain_attributes_bit_packing() {
    let t = TerrainAttributes::from_raw(0x80FF);
    assert_eq!(t.tile_behavior, 0xFF);
    assert!(t.has_collision);
    let t = TerrainAttributes::from_raw(0x007F);
    assert_eq!(t.tile_behavior, 0x7F);
    assert!(!t.has_collision);
    // bits 8 to 14 are ignored
    let t = TerrainAttributes::from_raw(0x7F12);
    assert_eq!(t.tile_behavior, 0x12);
    assert!(!t.has_collision);
}

#[test]
fn area_light_block() {
    let text = "43200\n1,31,31,31,1000,0,0\n0,0,0,0,0,0,0\n0,0,0,0,0,0,0\n0,0,0,0,0,0,0\n10,10,10\n5,5,5\n0,0,0\n0,0,0\nEOF";
    let mut light = AreaLight::parse_bytes(text.as_bytes()).unwrap();
    assert_eq!(light.blocks.len(), 1);
    assert_eq!(light.blocks[0].light_0.unwrap().direction.x.to_bits(), 1000);
    light.fix();
    let block = light.blocks[0];
    assert_eq!(block.end_time, 43200);
    let l0 = block.light_0.unwrap();
    assert_eq!(l0.color, DsRgb { red: 31, green: 31, blue: 31 });
    // 1000 is the raw bit pattern of 1000 / 4096, inside [-1, 1]: clamping keeps it
    assert_eq!(l0.direction.x, DsFixed16::from_bits(1000));
    assert_eq!(l0.direction.y, DsFixed16::from_bits(0));
    assert_eq!(l0.direction.z, DsFixed16::from_bits(0));
    assert!(block.light_1.is_none());
    assert!(block.light_2.is_none());
    assert!(block.light_3.is_none());
    assert_eq!(block.diffuse_reflect_color, DsRgb { red: 10, green: 10, blue: 10 });
    assert_eq!(block.ambient_reflect_color, DsRgb { red: 5, green: 5, blue: 5 });
    assert_eq!(block.specular_reflect_color, DsRgb { red: 0, green: 0, blue: 0 });
    assert_eq!(block.emission_color, DsRgb { red: 0, green: 0, blue: 0 });
}

#[test]
fn area_light_fix_clamps_to_one() {
    let text = "43200\n1,31,31,31,10000,0,0\n0,0,0,0,0,0,0\n0,0,0,0,0,0,0\n0,0,0,0,0,0,0\n10,10,10\n5,5,5\n0,0,0\n0,0,0\nEOF";
    let mut light = AreaLight::parse_string(text).unwrap();
    light.fix();
    let d = light.blocks[0].light_0.unwrap().direction;
    assert_eq!((d.x.to_bits(), d.y.to_bits(), d.z.to_bits()), (4096, 0, 0));
}

#[test]
fn area_light_fix_clamps_negative_directions() {
    let text = "1\n1,1,2,3,-5000,-4096,100\n0\n0\n0\n0,0,0\n0,0,0\n0,0,0\n0,0,0\n";
    let mut light = AreaLight::parse_string(text).unwrap();
    light.fix();
    let d = light.blocks[0].light_0.unwrap().direction;
    assert_eq!(d.x.to_bits(), -4096);
    assert_eq!(d.y.to_bits(), -4096);
    assert_eq!(d.z.to_bits(), 100);
}

#[test]
fn area_light_blank_lines_crlf_and_unfinished_block() {
    let text = "\r\n\n7,ignored\r\n0\r\n0\r\n0\r\n0\r\n1,2,3\r\n4,5,6\r\n7,8,9\r\n10,11,12\r\n\n99\n0\n";
    let light = AreaLight::parse_string(text).unwrap();
    assert_eq!(light.blocks.len(), 1);
    assert_eq!(light.blocks[0].end_time, 7);
    assert_eq!(light.blocks[0].emission_color, DsRgb { red: 10, green: 11, blue: 12 });
    let empty = AreaLight::parse_string("").unwrap();
    assert!(empty.blocks.is_empty());
}

#[test]
fn area_light_errors() {
    assert_eq!(AreaLight::parse_bytes(&[0xFF, 0xFE]).err(), Some(AreaLightError::ConversionError));
    assert_eq!(
        AreaLight::parse_string("1\n\n").err(),
        Some(AreaLightError::EarlyEmptyLine(1))
    );
    assert_eq!(
        AreaLight::parse_string("x\n").err(),
        Some(AreaLightError::MalformedLineParameter(
            AreaLightBlockLine::EndTime,
            0,
            0,
            IntErrorKind::InvalidDigit
        ))
    );
    assert_eq!(
        AreaLight::parse_string("1\n1,2,3\n").err(),
        Some(AreaLightError::NotEnoughParameters(AreaLightBlockLine::Light0, 1))
    );
    assert_eq!(
        AreaLight::parse_string("1\n1,2,3,256,0,0,0\n").err(),
        Some(AreaLightError::MalformedLineParameter(
            AreaLightBlockLine::Light0,
            1,
            3,
            IntErrorKind::PosOverflow
        ))
    );
    assert_eq!(
        AreaLight::parse_string("1\n1,2,3,4,0,0\n").err(),
        Some(AreaLightError::NotEnoughParameters(AreaLightBlockLine::Light0, 1))
    );
    assert_eq!(
        AreaLight::parse_string("1\n0\n0\n0\n0\n1,2\n").err(),
        Some(AreaLightError::NotEnoughParameters(AreaLightBlockLine::DiffuseReflectColor, 5))
    );
    assert_eq!(
        AreaLight::parse_string("1\n1,1,1,1,0,-40000,0\n").err(),
        Some(AreaLightError::MalformedLineParameter(
            AreaLightBlockLine::Light0,
            1,
            5,
            IntErrorKind::NegOverflow
        ))
    );
}

#[test]
fn area_light_block_line_next() {
    let mut l = AreaLightBlockLine::EndTime;
    let order = [
        AreaLightBlockLine::Light0,
        AreaLightBlockLine::Light1,
        AreaLightBlockLine::Light2,
        AreaLightBlockLine::Light3,
        AreaLightBlockLine::DiffuseReflectColor,
        AreaLightBlockLine::AmbientReflectColor,
        AreaLightBlockLine::SpecularReflectColor,
        AreaLightBlockLine::EmissionColor,
        AreaLightBlockLine::End,
        AreaLightBlockLine::End,
    ];
    for expected in order {
        l.next();
        assert_eq!(l, expected);
    }
}

#[test]
fn decimal_parsing() {
    let t = b"+12|-7|-|+||abc|4294967296|65536|-32768|32768|99999999999x";
    let p = |s: usize, e: usize| parse_unsigned(t, s, e, 0xFFFF_FFFF);
    assert_eq!(p(0, 3), Ok(12));
    assert_eq!(p(4, 6), Err(IntErrorKind::InvalidDigit));
    assert_eq!(p(7, 8), Err(IntErrorKind::InvalidDigit));
    assert_eq!(p(9, 10), Err(IntErrorKind::InvalidDigit));
    assert_eq!(p(11, 11), Err(IntErrorKind::Empty));
    assert_eq!(p(12, 15), Err(IntErrorKind::InvalidDigit));
    assert_eq!(p(16, 26), Err(IntErrorKind::PosOverflow));
    assert_eq!(parse_unsigned(t, 27, 32, 255), Err(IntErrorKind::PosOverflow));
    assert_eq!(parse_i16(t, 4, 6), Ok(-7));
    assert_eq!(parse_i16(t, 33, 39), Ok(-32768));
    assert_eq!(parse_i16(t, 40, 45), Err(IntErrorKind::PosOverflow));
    assert_eq!(p(46, 58), Err(IntErrorKind::PosOverflow));
    for (s, e) in [(0, 3), (4, 6), (11, 11), (12, 15), (33, 39), (40, 45)] {
        let text = std::str::from_utf8(&t[s..e]).unwrap();
        assert_eq!(parse_i16(t, s, e).ok(), text.parse::<i16>().ok());
    }
}

#[test]
fn bdhc_header() {
    let bytes = [0x02, 0x00, 0x01, 0x00, 0x01, 0x00, 0x01, 0x00, 0x01, 0x00, 0x01, 0x00];
    let h = BdhcHeader::from_bytes(&bytes);
    assert_eq!(h.points_count, 2);
    assert_eq!(h.normals_count, 1);
    assert_eq!(h.constants_count, 1);
    assert_eq!(h.plates_count, 1);
    assert_eq!(h.strips_count, 1);
    assert_eq!(h.access_list_count, 1);
}

#[test]
fn bdhc_full_parse() {
    let b = Bdhc::parse_bytes(&small_bdhc()).unwrap();
    assert_eq!(b.points.len(), 2);
    assert_eq!(b.points[0], BdhcPoint { x: DsFixed32::from_bits(0x1000), z: DsFixed32::from_bits(-0x1000) });
    assert_eq!(b.normals[0].y, DsFixed32::from_bits(0x1000));
    assert_eq!(b.constants, vec![DsFixed32::from_bits(-0x8000)]);
    assert_eq!(b.plates, vec![BdhcPlate { first_point_index: 0, second_point_index: 1, normal_index: 0, constant_index: 0 }]);
    assert_eq!(b.strips, vec![BdhcStrip { scanline: DsFixed32::from_bits(0x800), access_list_element_count: 1, access_list_start_index: 0 }]);
    assert_eq!(b.access_list, vec![0]);
    assert_eq!(BdhcPoint::from_bytes(&[0, 0x10, 0, 0, 1, 0, 0, 0]).x.to_bits(), 0x1000);
    assert_eq!(BdhcPlate::from_bytes(&[1, 0, 2, 0, 3, 0, 4, 0]).constant_index, 4);
    assert_eq!(BdhcStrip::from_bytes(&[0, 0, 0, 0x80, 5, 0, 6, 0]).scanline.to_bits(), i32::MIN);
}

#[test]
fn bdhc_errors() {
    let mut bad = small_bdhc();
    bad[0] = 0;
    assert_eq!(Bdhc::parse_bytes(&bad).err(), Some(BdhcError::WrongBdhcMagic(0x43484400)));
    let good = small_bdhc();
    assert_eq!(Bdhc::parse_bytes(&good[..good.len() - 1]).err(), Some(BdhcError::ReadError));
    assert_eq!(Bdhc::parse_bytes(&good[..3]).err(), Some(BdhcError::ReadError));
    assert_eq!(Bdhc::parse_bytes(&good[..10]).err(), Some(BdhcError::ReadError));
}

fn land_data_bytes(tiles: usize, props: usize, model: &[u8], bdhc: &[u8]) -> Vec<u8> {
    let mut v = Vec::new();
    push_u32(&mut v, (tiles * 2) as u32);
    push_u32(&mut v, (props * 48) as u32);
    push_u32(&mut v, model.len() as u32);
    push_u32(&mut v, bdhc.len() as u32);
    for i in 0..tiles {
        push_u16(&mut v, if i % 2 == 0 { 0x8001 } else { 0x0002 });
    }
    for i in 0..props {
        push_u32(&mut v, 100 + i as u32);
        for k in 0..9 {
            push_u32(&mut v, 0x1000 * k);
        }
        push_u32(&mut v, 7);
        push_u32(&mut v, 8);
    }
    v.extend_from_slice(model);
    v.extend_from_slice(bdhc);
    v
}

#[test]
fn land_data_full_map() {
    let bytes = land_data_bytes(1024, 2, &[1, 2, 3], &small_bdhc());
    let d = LandData::parse_bytes(&bytes).unwrap();
    assert_eq!(d.terrain_attributes.len(), 1024);
    assert_eq!(d.terrain_attributes[0], TerrainAttributes { tile_behavior: 1, has_collision: true });
    assert_eq!(d.terrain_attributes[1], TerrainAttributes { tile_behavior: 2, has_collision: false });
    assert_eq!(d.map_props.len(), 2);
    assert_eq!(d.map_props[1].map_prop_model_id, 101);
    assert_eq!(d.map_props[1].rotation.x.to_bits(), 0x3000);
    assert_eq!(d.map_props[1].scale.z.to_bits(), 0x8000);
    assert_eq!(d.map_props[1].dummy, [7, 8]);
    assert_eq!(d.map_model, vec![1, 2, 3]);
    assert_eq!(d.bdhc.points.len(), 2);
    let mut raw = [0u8; 48];
    raw[0] = 9;
    raw[4] = 0x10;
    assert_eq!(MapPropInstance::from_bytes(raw).position.x.to_bits(), 0x10);
}

#[test]
fn land_data_errors() {
    let short = land_data_bytes(4, 0, &[], &small_bdhc());
    assert_eq!(LandData::parse_bytes(&short[..10]).err(), Some(LandDataError::ReadError));
    assert_eq!(LandData::parse_bytes(&short[..short.len() - 1]).err(), Some(LandDataError::ReadError));
    let no_bdhc = land_data_bytes(4, 0, &[], &[]);
    assert_eq!(
        LandData::parse_bytes(&no_bdhc).err(),
        Some(LandDataError::BdhcParseError(BdhcError::ReadError))
    );
    let bad_bdhc = land_data_bytes(4, 0, &[], &[1, 2, 3, 4]);
    assert_eq!(
        LandData::parse_bytes(&bad_bdhc).err(),
        Some(LandDataError::BdhcParseError(BdhcError::WrongBdhcMagic(0x04030201)))
    );
}

#[test]
fn tile_index_round_trip() {
    for i in 0..1024u32 {
        let (x, y) = LandData::tile_index_to_coords(i).unwrap();
        assert!(x < 32 && y < 32);
        assert_eq!(y * 32 + x, i);
    }
    assert_eq!(LandData::tile_index_to_coords(33), Ok((1, 1)));
    assert_eq!(LandData::tile_index_to_coords(1024), Err(LandDataError::TileIndexTooBig(1024)));
}

#[test]
fn fixed_point_to_float() {
    for raw in [0i32, 1, -1, 4096, -4096, 6144, 0x7FFF_FFFF, i32::MIN, 123456789] {
        let v = DsFixed32::from_bits(raw);
        let f = fixed::types::I20F12::from_bits(v.to_bits()).to_num::<f32>();
        assert_eq!(f, raw as f32 / 4096.0);
    }
    let v = DsFixed32::from_le_bytes([0x00, 0x18, 0x00, 0x00]);
    assert_eq!(fixed::types::I20F12::from_bits(v.to_bits()).to_num::<f32>(), 1.5);
}

#[test]
fn map_matrix_parsing() {
    let mut v = vec![2, 3, 1, 1, 2, b'a', b'b'];
    for i in 0..6u16 {
        push_u16(&mut v, 10 + i);
    }
    v.extend_from_slice(&[20, 21, 22, 23, 24, 25]);
    for i in 0..6u16 {
        push_u16(&mut v, 30 + i);
    }
    let m = MapMatrix::parse_bytes(&v).unwrap();
    assert_eq!(m.height, 2);
    assert_eq!(m.width, 3);
    assert_eq!(m.model_name_prefix, "ab");
    assert_eq!(m.map_header_ids, Some(vec![10, 11, 12, 13, 14, 15]));
    assert_eq!(m.altitudes, Some(vec![20, 21, 22, 23, 24, 25]));
    assert_eq!(m.land_data_ids, vec![30, 31, 32, 33, 34, 35]);
    assert!(m.is_well_formed());
    assert_eq!(m.map_index_to_coords(4), Ok((1, 1)));
    assert_eq!(m.map_index_to_coords(6), Err(MapMatrixError::MapIndexTooBig(6, 6)));

    let plain = vec![1, 1, 0, 0, 0, 5, 0];
    let m = MapMatrix::parse_bytes(&plain).unwrap();
    assert_eq!(m.map_header_ids, None);
    assert_eq!(m.altitudes, None);
    assert_eq!(m.land_data_ids, vec![5]);
}

#[test]
fn map_matrix_errors() {
    assert_eq!(MapMatrix::parse_bytes(&[1, 1, 0]).err(), Some(MapMatrixError::ReadError));
    assert_eq!(MapMatrix::parse_bytes(&[1, 1, 0, 0, 3, b'a']).err(), Some(MapMatrixError::ReadError));
    assert_eq!(
        MapMatrix::parse_bytes(&[1, 1, 0, 0, 1, 0xC3, 5, 0]).err(),
        Some(MapMatrixError::ModelNamePrefixConversion)
    );
    assert_eq!(MapMatrix::parse_bytes(&[1, 1, 0, 0, 0, 5]).err(), Some(MapMatrixError::ReadError));
    let m = MapMatrix::parse_bytes(&[1, 1, 0, 0, 2, 0xC3, 0xA9, 5, 0]).unwrap();
    assert_eq!(m.model_name_prefix, "é");
}

#[test]
fn animation_list_parsing() {
    let mut v = vec![1, 0x03, 1, 0];
    push_u32(&mut v, 5);
    push_u32(&mut v, 6);
    push_u32(&mut v, 0xFFFF_FFFF);
    push_u32(&mut v, 9);
    let l = MapPropAnimationList::parse_bytes(&v).unwrap();
    assert_eq!(l.map_prop_animation_ids, vec![5, 6]);
    assert!(l.deferred_loading);
    assert!(l.deferred_add_to_render_object);
    assert!(l.is_bicycle_slope);
    // the sentinel ends the list, what follows is not read
    let l = MapPropAnimationList::parse_bytes(&v[..16]).unwrap();
    assert_eq!(l.map_prop_animation_ids, vec![5, 6]);
    let mut full = vec![0, 0x02, 0, 0];
    for i in 0..4 {
        push_u32(&mut full, i);
    }
    let l = MapPropAnimationList::parse_bytes(&full).unwrap();
    assert_eq!(l.map_prop_animation_ids, vec![0, 1, 2, 3]);
    assert!(!l.deferred_loading);
    assert!(l.deferred_add_to_render_object);
    assert!(!l.is_bicycle_slope);
    assert_eq!(MapPropAnimationList::parse_flags(0x01), (true, false));
    assert_eq!(
        MapPropAnimationList::parse_bytes(&v[..10]).err(),
        Some(MapPropAnimationListError::ReadError)
    );
    assert_eq!(
        MapPropAnimationList::parse_bytes(&[0, 0]).err(),
        Some(MapPropAnimationListError::ReadError)
    );
}

#[test]
fn area_map_props_parsing() {
    let p = AreaMapProps::parse_bytes(&[3, 0, 1, 0, 2, 0, 0xFF, 0xFF]).unwrap();
    assert_eq!(p.map_props_ids, vec![1, 2, 0xFFFF]);
    assert_eq!(AreaMapProps::parse_bytes(&[3, 0, 1, 0]).err(), Some(AreaMapPropsError::ReadError));
    assert_eq!(AreaMapProps::parse_bytes(&[]).err(), Some(AreaMapPropsError::ReadError));
    assert!(AreaMapProps::parse_bytes(&[0, 0]).unwrap().map_props_ids.is_empty());
}

fn material_shapes_bytes(locators: &[(u16, u16)], ids: &[(u16, u16)]) -> Vec<u8> {
    let mut v = Vec::new();
    push_u16(&mut v, locators.len() as u16);
    push_u16(&mut v, ids.len() as u16);
    for &(c, i) in locators {
        push_u16(&mut v, c);
        push_u16(&mut v, i);
    }
    for &(m, s) in ids {
        push_u16(&mut v, m);
        push_u16(&mut v, s);
    }
    v
}

#[test]
fn material_shapes_projection() {
    let bytes = material_shapes_bytes(&[(0, 0), (2, 0), (1, 2)], &[(5, 6), (7, 8), (9, 10)]);
    let slots = MapPropMaterialShapes::parse_bytes(&bytes).unwrap();
    assert_eq!(slots.len(), 3);
    assert!(slots[0].is_none());
    let s1 = slots[1].as_ref().unwrap();
    assert_eq!(s1.ids_index, 0);
    assert_eq!(
        s1.ids.iter().map(|x| (x.material_id, x.shape_id)).collect::<Vec<_>>(),
        vec![(5, 6), (7, 8)]
    );
    let s2 = slots[2].as_ref().unwrap();
    assert_eq!(s2.ids_index, 2);
    assert_eq!(
        s2.ids.iter().map(|x| (x.material_id, x.shape_id)).collect::<Vec<_>>(),
        vec![(9, 10)]
    );
    let t = sinjoh::tables::map_prop_material_shape_tables(&slots);
    assert_eq!(t.map_prop_material_shape.len(), 2);
    assert!(t.map_prop_material_shape.iter().all(|r| r.id != 0));
    assert_eq!(t.map_prop_material_shape_ids.len(), 3);
}

#[test]
fn material_shapes_errors() {
    let bytes = material_shapes_bytes(&[(1, 0), (2, 2)], &[(5, 6), (7, 8), (9, 10)]);
    assert_eq!(
        MapPropMaterialShapes::parse_bytes(&bytes).err(),
        Some(MapPropMaterialShapesError::LocatorOutOfRange(1))
    );
    assert_eq!(
        MapPropMaterialShapes::parse_bytes(&bytes[..bytes.len() - 1]).err(),
        Some(MapPropMaterialShapesError::ReadError)
    );
    assert_eq!(
        MapPropMaterialShapes::parse_bytes(&[1]).err(),
        Some(MapPropMaterialShapesError::ReadError)
    );
}

#[test]
fn material_shapes_union_is_flat_table() {
    let flat = [(5, 6), (7, 8), (9, 10), (11, 12)];
    let bytes = material_shapes_bytes(&[(2, 0), (0, 3), (2, 2)], &flat);
    let slots = MapPropMaterialShapes::parse_bytes(&bytes).unwrap();
    let mut union: Vec<(u16, u16)> = slots
        .iter()
        .flatten()
        .flat_map(|s| s.ids.iter().map(|x| (x.material_id, x.shape_id)))
        .collect();
    union.sort();
    assert_eq!(union, flat.to_vec());
    let t = sinjoh::tables::map_prop_material_shape_tables(&slots);
    assert!(t.map_prop_material_shape_ids.iter().all(|r| r.map_prop_material_shape_id != 1));
    for r in &t.map_prop_material_shape_ids {
        assert!(t.map_prop_material_shape.iter().any(|s| s.id == r.map_prop_material_shape_id));
    }
}
