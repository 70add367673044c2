//! Data structure and parser for map matrix files: a grid of maps.

use vstd::prelude::*;
use vstd::slice::{slice_subrange, slice_to_vec};
use vstd::string::StringSliceAdditionalSpecFns;
use vstd::utf8::{encode_utf8, valid_utf8};

use crate::bdhc::read_u16_array;
use crate::nds::le_u16;
use crate::text::utf8_str;

verus! {

/// Error type for map matrix parsing.
#[derive(Debug, Clone, Copy, PartialEq, Eq, Structural)]
pub enum MapMatrixError {
    /// The data ends before a section that the header declares.
    ReadError,
    /// The model name prefix is not valid UTF-8.
    ModelNamePrefixConversion,
    /// The map index is greater or equal than the number of maps: the index and the number.
    MapIndexTooBig(u16, u16),
}

/// A map matrix.
#[derive(Debug, Clone)]
pub struct MapMatrix {
    /// The number of maps in the vertical direction.
    pub height: u8,
    /// The number of maps in the horizontal direction.
    pub width: u8,
    /// Prefix of the names of the map models.
    pub model_name_prefix: String,
    /// IDs of the map headers, in row-major order, if the section is present.
    pub map_header_ids: Option<Vec<u16>>,
    /// Altitudes of the maps, in row-major order, if the section is present.
    pub altitudes: Option<Vec<u8>>,
    /// IDs of the land data of the maps, in row-major order.
    pub land_data_ids: Vec<u16>,
}

/// The number of cells of the matrix in `b`.
pub open spec fn matrix_cells(b: Seq<u8>) -> int {
    b[0] as int * b[1] as int
}

pub open spec fn header_ids_offset(b: Seq<u8>) -> int {
    5 + b[4] as int
}

pub open spec fn altitudes_offset(b: Seq<u8>) -> int {
    header_ids_offset(b) + if b[2] != 0 {
        2 * matrix_cells(b)
    } else {
        0
    }
}

pub open spec fn land_data_ids_offset(b: Seq<u8>) -> int {
    altitudes_offset(b) + if b[3] != 0 {
        matrix_cells(b)
    } else {
        0
    }
}

pub open spec fn map_matrix_end(b: Seq<u8>) -> int {
    land_data_ids_offset(b) + 2 * matrix_cells(b)
}

/// The error that parsing `b` as a map matrix gives, if any.
pub open spec fn map_matrix_error(b: Seq<u8>) -> Option<MapMatrixError> {
    if b.len() < 5 || b.len() < 5 + b[4] {
        Some(MapMatrixError::ReadError)
    } else if !valid_utf8(b.subrange(5, 5 + b[4])) {
        Some(MapMatrixError::ModelNamePrefixConversion)
    } else if b.len() < map_matrix_end(b) {
        Some(MapMatrixError::ReadError)
    } else {
        None
    }
}

pub open spec fn u16_section(b: Seq<u8>, off: int, v: Seq<u16>, count: int) -> bool {
    &&& v.len() == count
    &&& forall|i: int| 0 <= i < count ==> v[i] == le_u16(b, off + 2 * i)
}

/// `m` holds the header of `b`, its prefix, and its sections, those that the flags announce.
pub open spec fn map_matrix_decodes(b: Seq<u8>, m: MapMatrix) -> bool {
    &&& m.height == b[0]
    &&& m.width == b[1]
    &&& encode_utf8(m.model_name_prefix@) == b.subrange(5, 5 + b[4])
    &&& (b[2] != 0) == (m.map_header_ids is Some)
    &&& (m.map_header_ids matches Some(h) ==> u16_section(
        b,
        header_ids_offset(b),
        h@,
        matrix_cells(b),
    ))
    &&& (b[3] != 0) == (m.altitudes is Some)
    &&& (m.altitudes matches Some(a) ==> a@ == b.subrange(
        altitudes_offset(b),
        altitudes_offset(b) + matrix_cells(b),
    ))
    &&& u16_section(b, land_data_ids_offset(b), m.land_data_ids@, matrix_cells(b))
}

/// Every present section of `m` has exactly `height * width` entries.
pub open spec fn map_matrix_wf(m: MapMatrix) -> bool {
    let n = m.height * m.width;
    &&& m.land_data_ids@.len() == n
    &&& (m.map_header_ids matches Some(h) ==> h@.len() == n)
    &&& (m.altitudes matches Some(a) ==> a@.len() == n)
}

/// The coordinates of cell `index` in a grid of the given width.
pub open spec fn cell_coords(index: int, width: int) -> (u16, u16) {
    ((index % width) as u16, (index / width) as u16)
}

impl MapMatrix {
    /// Parses a [`MapMatrix`]: height, width, two section flags, the prefix length and the
    /// prefix, then the header ids (if flagged), the altitudes (if flagged) and the land data
    /// ids.
    pub fn parse_bytes(bytes: &[u8]) -> (r: Result<Self, MapMatrixError>)
        ensures
            match r {
                Ok(m) => map_matrix_error(bytes@) is None && map_matrix_decodes(bytes@, m)
                    && map_matrix_wf(m),
                Err(e) => map_matrix_error(bytes@) == Some(e),
            },
    {
        let len = bytes.len();
        if len < 5 {
            return Err(MapMatrixError::ReadError);
        }
        let height = bytes[0];
        let width = bytes[1];
        let raw_has_map_header_ids_section = bytes[2];
        let raw_has_altitudes_section = bytes[3];
        let model_name_prefix_length = bytes[4] as usize;
        if len < 5 + model_name_prefix_length {
            return Err(MapMatrixError::ReadError);
        }
        let raw_prefix = slice_subrange(bytes, 5, 5 + model_name_prefix_length);
        let model_name_prefix = match utf8_str(raw_prefix) {
            Some(s) => s.to_owned(),
            None => {
                return Err(MapMatrixError::ModelNamePrefixConversion);
            },
        };
        assert(height as int * width as int <= 255 * 255) by (nonlinear_arith)
            requires
                height <= 255,
                width <= 255,
        ;
        let matrix_size: usize = height as usize * width as usize;
        let headers_off: usize = 5 + model_name_prefix_length;
        let altitudes_off: usize = if raw_has_map_header_ids_section != 0 {
            headers_off + 2 * matrix_size
        } else {
            headers_off
        };
        let land_off: usize = if raw_has_altitudes_section != 0 {
            altitudes_off + matrix_size
        } else {
            altitudes_off
        };
        if len < land_off + 2 * matrix_size {
            return Err(MapMatrixError::ReadError);
        }
        let map_header_ids = if raw_has_map_header_ids_section != 0 {
            Some(read_u16_array(bytes, headers_off, matrix_size))
        } else {
            None
        };
        let altitudes = if raw_has_altitudes_section != 0 {
            Some(slice_to_vec(slice_subrange(bytes, altitudes_off, altitudes_off + matrix_size)))
        } else {
            None
        };
        let land_data_ids = read_u16_array(bytes, land_off, matrix_size);
        Ok(
            MapMatrix {
                height,
                width,
                model_name_prefix,
                map_header_ids,
                altitudes,
                land_data_ids,
            },
        )
    }

    /// Transforms a map index into its `(x, y)` coordinates in the matrix.
    pub fn map_index_to_coords(&self, index: u16) -> (r: Result<(u16, u16), MapMatrixError>)
        ensures
            index < self.width * self.height ==> r == Ok::<(u16, u16), MapMatrixError>(
                cell_coords(index as int, self.width as int),
            ),
            index >= self.width * self.height ==> r == Err::<(u16, u16), MapMatrixError>(
                MapMatrixError::MapIndexTooBig(index, (self.width * self.height) as u16),
            ),
    {
        let map_width = self.width as u16;
        let map_height = self.height as u16;
        assert(map_width * map_height <= 255 * 255) by (nonlinear_arith)
            requires
                map_width <= 255,
                map_height <= 255,
        ;
        let map_count = map_width * map_height;
        if index < map_count {
            assert(map_width > 0) by (nonlinear_arith)
                requires
                    index < map_width * map_height,
            ;
            Ok((index % map_width, index / map_width))
        } else {
            Err(MapMatrixError::MapIndexTooBig(index, map_count))
        }
    }
}

impl MapMatrix {
    /// Whether every present section has exactly `height * width` entries.
    pub fn is_well_formed(&self) -> (r: bool)
        ensures
            r == map_matrix_wf(*self),
    {
        assert(self.height as int * self.width as int <= 255 * 255) by (nonlinear_arith)
            requires
                self.height <= 255,
                self.width <= 255,
        ;
        let n = self.height as usize * self.width as usize;
        let headers_ok = match &self.map_header_ids {
            Some(h) => h.len() == n,
            None => true,
        };
        let altitudes_ok = match &self.altitudes {
            Some(a) => a.len() == n,
            None => true,
        };
        self.land_data_ids.len() == n && headers_ok && altitudes_ok
    }
}

} // verus!
