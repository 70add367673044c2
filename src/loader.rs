//! Decoding every member of the archives of the game into records.

use vstd::prelude::*;
use vstd::utf8::valid_utf8;

use crate::area_data::{AreaData, spec_area_data};
use crate::area_light::{AreaLight, AreaLightBlock, AreaLightError, spec_fix_block, spec_parse_area_light};
use crate::area_map_props::{AreaMapProps, AreaMapPropsError, area_map_props_fits};
use crate::land_data::{LandData, LandDataError, land_data_decodes, land_data_error};
use crate::map_matrix::{
    MapMatrix, MapMatrixError, map_matrix_decodes, map_matrix_error, map_matrix_wf,
};
use crate::map_prop_animation_list::{
    MapPropAnimationList, MapPropAnimationListError, animation_list_decodes, animation_list_fits,
};
use crate::map_prop_material_shapes::{
    MapPropMaterialShapes, MapPropMaterialShapesError, locators_count, material_shapes_error,
    slot_decodes,
};
use crate::narc::{NarcReader, NarcReaderError, spec_get_file, spec_number_of_files};
use crate::nds::le_u16;

verus! {

/// Error type for loading the records of the game.
#[derive(Debug, Clone, Copy, PartialEq, Eq)]
pub enum PlatLoaderError {
    /// A member file could not be read from its archive.
    Narc(NarcReaderError),
    /// An area data member does not have 8 bytes; holds its size.
    AreaDataSize(usize),
    /// An area light member could not be parsed.
    AreaLight(AreaLightError),
    /// An area map props member could not be parsed.
    AreaMapProps(AreaMapPropsError),
    /// A map prop animation list member could not be parsed.
    MapPropAnimationList(MapPropAnimationListError),
    /// The map prop material and shapes data could not be parsed.
    MapPropMaterialShapes(MapPropMaterialShapesError),
    /// A map matrix member could not be parsed.
    MapMatrix(MapMatrixError),
    /// A land data member could not be parsed.
    LandData(LandDataError),
}

/// All the decoded records.
#[derive(Debug, Clone)]
pub struct PlatResources {
    pub area_data: Vec<AreaData>,
    pub area_lights: Vec<AreaLight>,
    pub area_map_props: Vec<AreaMapProps>,
    pub map_prop_animation_lists: Vec<MapPropAnimationList>,
    pub map_prop_material_shapes: Vec<Option<MapPropMaterialShapes>>,
    pub map_matrices: Vec<MapMatrix>,
    pub land_data: Vec<LandData>,
}

/// Reads the records of each kind from the archive that holds them.
pub struct PlatLoader {}

/// Member `i` of `r` can be read, and its bytes satisfy `decodes` with `t`.
pub open spec fn member_decodes<T>(r: NarcReader, i: int, t: T, decodes: spec_fn(Seq<u8>, T) -> bool) -> bool {
    match spec_get_file(r, i as u16) {
        Ok(b) => decodes(b, t),
        Err(_) => false,
    }
}

/// The kinds of records that the archives hold.
#[derive(Debug, Clone, Copy, PartialEq, Eq, Structural)]
pub enum MemberKind {
    AreaData,
    AreaLight,
    AreaMapProps,
    MapPropAnimationList,
    MapMatrix,
    LandData,
}

/// The error that parsing `b` as a record of kind `k` gives, if any.
pub open spec fn parse_error(k: MemberKind, b: Seq<u8>) -> Option<PlatLoaderError> {
    match k {
        MemberKind::AreaData => area_data_error(b),
        MemberKind::AreaLight => area_light_error(b),
        MemberKind::AreaMapProps => area_map_props_error(b),
        MemberKind::MapPropAnimationList => animation_list_error(b),
        MemberKind::MapMatrix => matrix_error(b),
        MemberKind::LandData => land_error(b),
    }
}

/// The error that reading member `i` of `r` and parsing it as kind `k` gives, if any.
pub open spec fn member_error(r: NarcReader, i: int, k: MemberKind) -> Option<PlatLoaderError> {
    match spec_get_file(r, i as u16) {
        Err(e) => Some(PlatLoaderError::Narc(e)),
        Ok(b) => parse_error(k, b),
    }
}

/// The first failing member of `r` is `i`, and it fails with `e`.
pub open spec fn first_member_error(r: NarcReader, i: int, e: PlatLoaderError, k: MemberKind) -> bool {
    &&& 0 <= i < spec_number_of_files(r)
    &&& forall|j: int| 0 <= j < i ==> (#[trigger] member_error(r, j, k)) is None
    &&& member_error(r, i, k) == Some(e)
}

pub open spec fn area_data_error(b: Seq<u8>) -> Option<PlatLoaderError> {
    if b.len() != 8 {
        Some(PlatLoaderError::AreaDataSize(b.len() as usize))
    } else {
        None
    }
}

pub open spec fn area_light_error(b: Seq<u8>) -> Option<PlatLoaderError> {
    if !valid_utf8(b) {
        Some(PlatLoaderError::AreaLight(AreaLightError::ConversionError))
    } else {
        match spec_parse_area_light(b) {
            Err(e) => Some(PlatLoaderError::AreaLight(e)),
            Ok(_) => None,
        }
    }
}

pub open spec fn area_map_props_error(b: Seq<u8>) -> Option<PlatLoaderError> {
    if !area_map_props_fits(b) {
        Some(PlatLoaderError::AreaMapProps(AreaMapPropsError::ReadError))
    } else {
        None
    }
}

pub open spec fn animation_list_error(b: Seq<u8>) -> Option<PlatLoaderError> {
    if !animation_list_fits(b) {
        Some(PlatLoaderError::MapPropAnimationList(MapPropAnimationListError::ReadError))
    } else {
        None
    }
}

pub open spec fn matrix_error(b: Seq<u8>) -> Option<PlatLoaderError> {
    match map_matrix_error(b) {
        Some(e) => Some(PlatLoaderError::MapMatrix(e)),
        None => None,
    }
}

pub open spec fn land_error(b: Seq<u8>) -> Option<PlatLoaderError> {
    match land_data_error(b) {
        Some(e) => Some(PlatLoaderError::LandData(e)),
        None => None,
    }
}

pub open spec fn area_data_decodes(b: Seq<u8>, d: AreaData) -> bool {
    b.len() == 8 && d == spec_area_data(b)
}

pub open spec fn area_light_decodes(b: Seq<u8>, a: AreaLight) -> bool {
    &&& valid_utf8(b)
    &&& (spec_parse_area_light(b) matches Ok(blocks) && a.blocks@ == blocks.map_values(
        |k: AreaLightBlock| spec_fix_block(k),
    ))
}

pub open spec fn area_map_props_decodes(b: Seq<u8>, p: AreaMapProps) -> bool {
    area_map_props_fits(b) && p.map_props_ids@.len() == le_u16(b, 0) && forall|i: int|
        0 <= i < p.map_props_ids@.len() ==> p.map_props_ids@[i] == le_u16(b, 2 + 2 * i)
}

pub open spec fn animation_list_member(b: Seq<u8>, l: MapPropAnimationList) -> bool {
    animation_list_fits(b) && animation_list_decodes(b, l)
}

pub open spec fn map_matrix_member(b: Seq<u8>, m: MapMatrix) -> bool {
    map_matrix_error(b) is None && map_matrix_decodes(b, m) && map_matrix_wf(m)
}

pub open spec fn land_data_member(b: Seq<u8>, d: LandData) -> bool {
    land_data_error(b) is None && land_data_decodes(b, d)
}

impl PlatLoader {
    /// Reads every area data record of the archive.
    pub fn read_area_data(reader: &NarcReader) -> (r: Result<Vec<AreaData>, PlatLoaderError>)
        ensures
            r matches Ok(v) ==> v@.len() == spec_number_of_files(*reader) && forall|i: int|
                0 <= i < v@.len() ==> member_decodes(*reader, i, #[trigger] v@[i], |b: Seq<u8>, d: AreaData| area_data_decodes(b, d)),
            r matches Err(e) ==> exists|i: int| #[trigger] first_member_error(*reader, i, e, MemberKind::AreaData),
            r is Ok ==> forall|i: int| 0 <= i < spec_number_of_files(*reader) ==> (#[trigger] member_error(*reader, i, MemberKind::AreaData)) is None,
    {
        let n = reader.number_of_files();
        let mut out: Vec<AreaData> = Vec::new();
        let mut i: u16 = 0;
        while i < n
            invariant
                n == spec_number_of_files(*reader),
                i <= n,
                out@.len() == i,
                forall|k: int| 0 <= k < i ==> member_decodes(*reader, k, #[trigger] out@[k], |b: Seq<u8>, t| area_data_decodes(b, t)),
                forall|k: int| 0 <= k < i ==> (#[trigger] member_error(*reader, k, MemberKind::AreaData)) is None,
            decreases n - i,
        {
            let file = match reader.get_file(i) {
                Ok(f) => f,
                Err(e) => {
                    assert(first_member_error(*reader, i as int, PlatLoaderError::Narc(e), MemberKind::AreaData));
                    return Err(PlatLoaderError::Narc(e));
                },
            };
            if file.len() != 8 {
                let e = PlatLoaderError::AreaDataSize(file.len());
                assert(first_member_error(*reader, i as int, e, MemberKind::AreaData));
                return Err(e);
            }
            let bytes: [u8; 8] = [file[0], file[1], file[2], file[3], file[4], file[5], file[6], file[7]];
            assert(bytes@ =~= file@);
            out.push(AreaData::from_bytes(bytes));
            i = i + 1;
        }
        Ok(out)
    }

    /// Reads every area light of the archive, with the directions of its lights clamped.
    pub fn read_area_lights(reader: &NarcReader) -> (r: Result<Vec<AreaLight>, PlatLoaderError>)
        ensures
            r matches Ok(v) ==> v@.len() == spec_number_of_files(*reader) && forall|i: int|
                0 <= i < v@.len() ==> member_decodes(*reader, i, #[trigger] v@[i], |b: Seq<u8>, a: AreaLight| area_light_decodes(b, a)),
            r matches Err(e) ==> exists|i: int| #[trigger] first_member_error(*reader, i, e, MemberKind::AreaLight),
            r is Ok ==> forall|i: int| 0 <= i < spec_number_of_files(*reader) ==> (#[trigger] member_error(*reader, i, MemberKind::AreaLight)) is None,
    {
        let n = reader.number_of_files();
        let mut out: Vec<AreaLight> = Vec::new();
        let mut i: u16 = 0;
        while i < n
            invariant
                n == spec_number_of_files(*reader),
                i <= n,
                out@.len() == i,
                forall|k: int| 0 <= k < i ==> member_decodes(*reader, k, #[trigger] out@[k], |b: Seq<u8>, t| area_light_decodes(b, t)),
                forall|k: int| 0 <= k < i ==> (#[trigger] member_error(*reader, k, MemberKind::AreaLight)) is None,
            decreases n - i,
        {
            let file = match reader.get_file(i) {
                Ok(f) => f,
                Err(e) => {
                    assert(first_member_error(*reader, i as int, PlatLoaderError::Narc(e), MemberKind::AreaLight));
                    return Err(PlatLoaderError::Narc(e));
                },
            };
            let mut area_light = match AreaLight::parse_bytes(file.as_slice()) {
                Ok(a) => a,
                Err(e) => {
                    assert(first_member_error(*reader, i as int, PlatLoaderError::AreaLight(e), MemberKind::AreaLight));
                    return Err(PlatLoaderError::AreaLight(e));
                },
            };
            let ghost parsed = area_light.blocks@;
            area_light.fix();
            assert(area_light.blocks@ =~= parsed.map_values(|k: AreaLightBlock| spec_fix_block(k)));
            out.push(area_light);
            i = i + 1;
        }
        Ok(out)
    }

    /// Reads every area map props record of the archive.
    pub fn read_area_map_props(reader: &NarcReader) -> (r: Result<Vec<AreaMapProps>, PlatLoaderError>)
        ensures
            r matches Ok(v) ==> v@.len() == spec_number_of_files(*reader) && forall|i: int|
                0 <= i < v@.len() ==> member_decodes(*reader, i, #[trigger] v@[i], |b: Seq<u8>, p: AreaMapProps| area_map_props_decodes(b, p)),
            r matches Err(e) ==> exists|i: int| #[trigger] first_member_error(*reader, i, e, MemberKind::AreaMapProps),
            r is Ok ==> forall|i: int| 0 <= i < spec_number_of_files(*reader) ==> (#[trigger] member_error(*reader, i, MemberKind::AreaMapProps)) is None,
    {
        let n = reader.number_of_files();
        let mut out: Vec<AreaMapProps> = Vec::new();
        let mut i: u16 = 0;
        while i < n
            invariant
                n == spec_number_of_files(*reader),
                i <= n,
                out@.len() == i,
                forall|k: int| 0 <= k < i ==> member_decodes(*reader, k, #[trigger] out@[k], |b: Seq<u8>, t| area_map_props_decodes(b, t)),
                forall|k: int| 0 <= k < i ==> (#[trigger] member_error(*reader, k, MemberKind::AreaMapProps)) is None,
            decreases n - i,
        {
            let file = match reader.get_file(i) {
                Ok(f) => f,
                Err(e) => {
                    assert(first_member_error(*reader, i as int, PlatLoaderError::Narc(e), MemberKind::AreaMapProps));
                    return Err(PlatLoaderError::Narc(e));
                },
            };
            let p = match AreaMapProps::parse_bytes(file.as_slice()) {
                Ok(p) => p,
                Err(e) => {
                    assert(first_member_error(*reader, i as int, PlatLoaderError::AreaMapProps(e), MemberKind::AreaMapProps));
                    return Err(PlatLoaderError::AreaMapProps(e));
                },
            };
            out.push(p);
            i = i + 1;
        }
        Ok(out)
    }

    /// Reads every map prop animation list of the archive.
    pub fn read_area_map_prop_animation_lists(reader: &NarcReader) -> (r: Result<Vec<MapPropAnimationList>, PlatLoaderError>)
        ensures
            r matches Ok(v) ==> v@.len() == spec_number_of_files(*reader) && forall|i: int|
                0 <= i < v@.len() ==> member_decodes(*reader, i, #[trigger] v@[i], |b: Seq<u8>, l: MapPropAnimationList| animation_list_member(b, l)),
            r matches Err(e) ==> exists|i: int| #[trigger] first_member_error(*reader, i, e, MemberKind::MapPropAnimationList),
            r is Ok ==> forall|i: int| 0 <= i < spec_number_of_files(*reader) ==> (#[trigger] member_error(*reader, i, MemberKind::MapPropAnimationList)) is None,
    {
        let n = reader.number_of_files();
        let mut out: Vec<MapPropAnimationList> = Vec::new();
        let mut i: u16 = 0;
        while i < n
            invariant
                n == spec_number_of_files(*reader),
                i <= n,
                out@.len() == i,
                forall|k: int| 0 <= k < i ==> member_decodes(*reader, k, #[trigger] out@[k], |b: Seq<u8>, t| animation_list_member(b, t)),
                forall|k: int| 0 <= k < i ==> (#[trigger] member_error(*reader, k, MemberKind::MapPropAnimationList)) is None,
            decreases n - i,
        {
            let file = match reader.get_file(i) {
                Ok(f) => f,
                Err(e) => {
                    assert(first_member_error(*reader, i as int, PlatLoaderError::Narc(e), MemberKind::MapPropAnimationList));
                    return Err(PlatLoaderError::Narc(e));
                },
            };
            let l = match MapPropAnimationList::parse_bytes(file.as_slice()) {
                Ok(l) => l,
                Err(e) => {
                    assert(first_member_error(*reader, i as int, PlatLoaderError::MapPropAnimationList(e), MemberKind::MapPropAnimationList));
                    return Err(PlatLoaderError::MapPropAnimationList(e));
                },
            };
            out.push(l);
            i = i + 1;
        }
        Ok(out)
    }

    /// Reads every map matrix of the archive.
    pub fn read_map_matrices(reader: &NarcReader) -> (r: Result<Vec<MapMatrix>, PlatLoaderError>)
        ensures
            r matches Ok(v) ==> v@.len() == spec_number_of_files(*reader) && forall|i: int|
                0 <= i < v@.len() ==> member_decodes(*reader, i, #[trigger] v@[i], |b: Seq<u8>, m: MapMatrix| map_matrix_member(b, m)),
            r matches Err(e) ==> exists|i: int| #[trigger] first_member_error(*reader, i, e, MemberKind::MapMatrix),
            r is Ok ==> forall|i: int| 0 <= i < spec_number_of_files(*reader) ==> (#[trigger] member_error(*reader, i, MemberKind::MapMatrix)) is None,
    {
        let n = reader.number_of_files();
        let mut out: Vec<MapMatrix> = Vec::new();
        let mut i: u16 = 0;
        while i < n
            invariant
                n == spec_number_of_files(*reader),
                i <= n,
                out@.len() == i,
                forall|k: int| 0 <= k < i ==> member_decodes(*reader, k, #[trigger] out@[k], |b: Seq<u8>, t| map_matrix_member(b, t)),
                forall|k: int| 0 <= k < i ==> (#[trigger] member_error(*reader, k, MemberKind::MapMatrix)) is None,
            decreases n - i,
        {
            let file = match reader.get_file(i) {
                Ok(f) => f,
                Err(e) => {
                    assert(first_member_error(*reader, i as int, PlatLoaderError::Narc(e), MemberKind::MapMatrix));
                    return Err(PlatLoaderError::Narc(e));
                },
            };
            let m = match MapMatrix::parse_bytes(file.as_slice()) {
                Ok(m) => m,
                Err(e) => {
                    assert(first_member_error(*reader, i as int, PlatLoaderError::MapMatrix(e), MemberKind::MapMatrix));
                    return Err(PlatLoaderError::MapMatrix(e));
                },
            };
            out.push(m);
            i = i + 1;
        }
        Ok(out)
    }

    /// Reads every land data record of the archive.
    pub fn read_land_data(reader: &NarcReader) -> (r: Result<Vec<LandData>, PlatLoaderError>)
        ensures
            r matches Ok(v) ==> v@.len() == spec_number_of_files(*reader) && forall|i: int|
                0 <= i < v@.len() ==> member_decodes(*reader, i, #[trigger] v@[i], |b: Seq<u8>, d: LandData| land_data_member(b, d)),
            r matches Err(e) ==> exists|i: int| #[trigger] first_member_error(*reader, i, e, MemberKind::LandData),
            r is Ok ==> forall|i: int| 0 <= i < spec_number_of_files(*reader) ==> (#[trigger] member_error(*reader, i, MemberKind::LandData)) is None,
    {
        let n = reader.number_of_files();
        let mut out: Vec<LandData> = Vec::new();
        let mut i: u16 = 0;
        while i < n
            invariant
                n == spec_number_of_files(*reader),
                i <= n,
                out@.len() == i,
                forall|k: int| 0 <= k < i ==> member_decodes(*reader, k, #[trigger] out@[k], |b: Seq<u8>, t| land_data_member(b, t)),
                forall|k: int| 0 <= k < i ==> (#[trigger] member_error(*reader, k, MemberKind::LandData)) is None,
            decreases n - i,
        {
            let file = match reader.get_file(i) {
                Ok(f) => f,
                Err(e) => {
                    assert(first_member_error(*reader, i as int, PlatLoaderError::Narc(e), MemberKind::LandData));
                    return Err(PlatLoaderError::Narc(e));
                },
            };
            let d = match LandData::parse_bytes(file.as_slice()) {
                Ok(d) => d,
                Err(e) => {
                    assert(first_member_error(*reader, i as int, PlatLoaderError::LandData(e), MemberKind::LandData));
                    return Err(PlatLoaderError::LandData(e));
                },
            };
            out.push(d);
            i = i + 1;
        }
        Ok(out)
    }

    /// Parses the map prop material and shapes data.
    pub fn read_map_prop_material_shapes(bytes: &[u8]) -> (r: Result<Vec<Option<MapPropMaterialShapes>>, PlatLoaderError>)
        ensures
            match r {
                Ok(v) => material_shapes_error(bytes@) is None && v@.len() == locators_count(bytes@)
                    && forall|i: int| 0 <= i < v@.len() ==> slot_decodes(bytes@, i, #[trigger] v@[i]),
                Err(PlatLoaderError::MapPropMaterialShapes(e)) => material_shapes_error(bytes@) == Some(e),
                Err(_) => false,
            },
    {
        match MapPropMaterialShapes::parse_bytes(bytes) {
            Ok(v) => Ok(v),
            Err(e) => Err(PlatLoaderError::MapPropMaterialShapes(e)),
        }
    }
}

} // verus!
