//! Data structure and parser for area light files: a lighting schedule written as text blocks of
//! nine lines.

use vstd::prelude::*;
use vstd::utf8::valid_utf8;
use vstd::string::StringSliceAdditionalSpecFns;

use crate::text::utf8_str;

use crate::decimal::{
    IntErrorKind, parse_i16, parse_unsigned, spec_parse_i16, spec_parse_unsigned,
};
use crate::nds::{DsFixed16, DsRgb, DsVecFixed16, clamp_unit_bits};

verus! {

/// The lines of an area light block, in the order in which they come.
#[derive(Debug, Clone, Copy, PartialEq, Eq, Structural)]
pub enum AreaLightBlockLine {
    /// The end time at which this light is no longer active (in seconds divided by 2, since
    /// midnight).
    EndTime,
    /// Properties for the first light.
    Light0,
    /// Properties for the second light.
    Light1,
    /// Properties for the third light.
    Light2,
    /// Properties for the fourth light.
    Light3,
    /// The color of the diffuse reflection.
    DiffuseReflectColor,
    /// The color of the ambient reflection.
    AmbientReflectColor,
    /// The color of the specular reflection.
    SpecularReflectColor,
    /// The color of the emitted light.
    EmissionColor,
    /// The end of the block.
    End,
}

/// The line that follows `l` in a block.
pub open spec fn spec_next_line(l: AreaLightBlockLine) -> AreaLightBlockLine {
    match l {
        AreaLightBlockLine::EndTime => AreaLightBlockLine::Light0,
        AreaLightBlockLine::Light0 => AreaLightBlockLine::Light1,
        AreaLightBlockLine::Light1 => AreaLightBlockLine::Light2,
        AreaLightBlockLine::Light2 => AreaLightBlockLine::Light3,
        AreaLightBlockLine::Light3 => AreaLightBlockLine::DiffuseReflectColor,
        AreaLightBlockLine::DiffuseReflectColor => AreaLightBlockLine::AmbientReflectColor,
        AreaLightBlockLine::AmbientReflectColor => AreaLightBlockLine::SpecularReflectColor,
        AreaLightBlockLine::SpecularReflectColor => AreaLightBlockLine::EmissionColor,
        AreaLightBlockLine::EmissionColor => AreaLightBlockLine::End,
        AreaLightBlockLine::End => AreaLightBlockLine::End,
    }
}

impl AreaLightBlockLine {
    /// Moves the line to the next one; `End` stays.
    pub fn next(&mut self)
        ensures
            *final(self) == spec_next_line(*old(self)),
    {
        match self {
            Self::EndTime => *self = Self::Light0,
            Self::Light0 => *self = Self::Light1,
            Self::Light1 => *self = Self::Light2,
            Self::Light2 => *self = Self::Light3,
            Self::Light3 => *self = Self::DiffuseReflectColor,
            Self::DiffuseReflectColor => *self = Self::AmbientReflectColor,
            Self::AmbientReflectColor => *self = Self::SpecularReflectColor,
            Self::SpecularReflectColor => *self = Self::EmissionColor,
            Self::EmissionColor => *self = Self::End,
            Self::End => *self = Self::End,
        }
    }
}

/// Error type for area light parsing.
#[derive(Debug, Clone, Copy, PartialEq, Eq, Structural)]
pub enum AreaLightError {
    /// The bytes are not valid UTF-8.
    ConversionError,
    /// An empty line inside a block; holds the line number (from 0).
    EarlyEmptyLine(usize),
    /// The parser went past the end of a block.
    BlockParseOverrun,
    /// A parameter of a line is not a valid number: the line kind, the line number, the index of
    /// the parameter on the line, and why.
    MalformedLineParameter(AreaLightBlockLine, usize, usize, IntErrorKind),
    /// A line has fewer parameters than its kind needs: the line kind and the line number.
    NotEnoughParameters(AreaLightBlockLine, usize),
}

/// The properties of a light.
#[derive(Debug, Clone, Copy, PartialEq, Eq, Structural)]
pub struct AreaLightProperties {
    /// The color of the light.
    pub color: DsRgb,
    /// The direction vector of the light.
    pub direction: DsVecFixed16,
}

/// An area light block.
#[derive(Debug, Clone, Copy, PartialEq, Eq, Structural)]
pub struct AreaLightBlock {
    /// The end time at which this block is no longer active (in seconds divided by 2, since
    /// midnight).
    pub end_time: u32,
    /// The first light, if valid: 2D sprites, the map model and most map props.
    pub light_0: Option<AreaLightProperties>,
    /// The second light, if valid: seemingly unused.
    pub light_1: Option<AreaLightProperties>,
    /// The third light, if valid: building windows.
    pub light_2: Option<AreaLightProperties>,
    /// The fourth light, if valid: lamp posts, building lights and doors.
    pub light_3: Option<AreaLightProperties>,
    /// The color of the diffuse reflection.
    pub diffuse_reflect_color: DsRgb,
    /// The color of the ambient reflection.
    pub ambient_reflect_color: DsRgb,
    /// The color of the specular reflection.
    pub specular_reflect_color: DsRgb,
    /// The color of the emitted light.
    pub emission_color: DsRgb,
}

/// An area light file.
#[derive(Debug, Clone)]
pub struct AreaLight {
    /// The blocks of the file, in order.
    pub blocks: Vec<AreaLightBlock>,
}

pub open spec fn black() -> DsRgb {
    DsRgb { red: 0, green: 0, blue: 0 }
}

/// The block that parsing starts from: all zero, no light.
pub open spec fn empty_block() -> AreaLightBlock {
    AreaLightBlock {
        end_time: 0,
        light_0: None,
        light_1: None,
        light_2: None,
        light_3: None,
        diffuse_reflect_color: black(),
        ambient_reflect_color: black(),
        specular_reflect_color: black(),
        emission_color: black(),
    }
}

/// The number of bytes from `pos` up to the next newline or the end of `t`.
pub open spec fn line_len(t: Seq<u8>, pos: int) -> nat
    decreases t.len() - pos,
{
    if pos < 0 || pos >= t.len() || t[pos] == 10 {
        0
    } else {
        1 + line_len(t, pos + 1)
    }
}

/// The end of the content of the line that starts at `pos`: before the newline, and before a
/// carriage return that the newline follows.
pub open spec fn line_content_end(t: Seq<u8>, pos: int) -> int {
    let nl = pos + line_len(t, pos);
    if nl < t.len() && nl > pos && t[nl - 1] == 13 {
        nl - 1
    } else {
        nl
    }
}

/// Where the line after the one that starts at `pos` starts (the length of `t` if there is
/// none).
pub open spec fn next_line_start(t: Seq<u8>, pos: int) -> int {
    let nl = pos + line_len(t, pos);
    if nl + 1 > t.len() {
        t.len() as int
    } else {
        nl + 1
    }
}

/// The number of bytes from `pos` up to the next comma or `end`.
pub open spec fn field_len(t: Seq<u8>, pos: int, end: int) -> nat
    decreases end - pos,
{
    if pos < 0 || pos >= end || t[pos] == 44 {
        0
    } else {
        1 + field_len(t, pos + 1, end)
    }
}

/// The comma-separated fields of `t[pos..end)`, as ranges; there is always at least one.
pub open spec fn fields_from(t: Seq<u8>, pos: int, end: int) -> Seq<(int, int)>
    decreases end - pos,
{
    let c = pos + field_len(t, pos, end);
    if c >= end {
        seq![(pos, end)]
    } else {
        seq![(pos, c)] + fields_from(t, c + 1, end)
    }
}

/// The `u8` in field `k` of `f`, or the error that reports it.
pub open spec fn spec_u8_field(
    t: Seq<u8>,
    f: Seq<(int, int)>,
    k: int,
    line: AreaLightBlockLine,
    n: int,
) -> Result<u8, AreaLightError> {
    match spec_parse_unsigned(t, f[k].0, f[k].1, 255) {
        Ok(v) => Ok(v as u8),
        Err(e) => Err(AreaLightError::MalformedLineParameter(line, n as usize, k as usize, e)),
    }
}

pub open spec fn spec_i16_field(
    t: Seq<u8>,
    f: Seq<(int, int)>,
    k: int,
    line: AreaLightBlockLine,
    n: int,
) -> Result<i16, AreaLightError> {
    match spec_parse_i16(t, f[k].0, f[k].1) {
        Ok(v) => Ok(v),
        Err(e) => Err(AreaLightError::MalformedLineParameter(line, n as usize, k as usize, e)),
    }
}

/// The color in fields `base..base + 3` of `f`: first the three fields must be there, then each
/// must be a `u8`.
pub open spec fn spec_rgb(
    t: Seq<u8>,
    f: Seq<(int, int)>,
    base: int,
    line: AreaLightBlockLine,
    n: int,
) -> Result<DsRgb, AreaLightError> {
    if f.len() < base + 3 {
        Err(AreaLightError::NotEnoughParameters(line, n as usize))
    } else {
        match spec_u8_field(t, f, base, line, n) {
            Err(e) => Err(e),
            Ok(red) => match spec_u8_field(t, f, base + 1, line, n) {
                Err(e) => Err(e),
                Ok(green) => match spec_u8_field(t, f, base + 2, line, n) {
                    Err(e) => Err(e),
                    Ok(blue) => Ok(DsRgb { red, green, blue }),
                },
            },
        }
    }
}

/// The direction in fields `base..base + 3` of `f`, each an `i16` bit pattern.
pub open spec fn spec_direction(
    t: Seq<u8>,
    f: Seq<(int, int)>,
    base: int,
    line: AreaLightBlockLine,
    n: int,
) -> Result<DsVecFixed16, AreaLightError> {
    if f.len() < base + 3 {
        Err(AreaLightError::NotEnoughParameters(line, n as usize))
    } else {
        match spec_i16_field(t, f, base, line, n) {
            Err(e) => Err(e),
            Ok(x) => match spec_i16_field(t, f, base + 1, line, n) {
                Err(e) => Err(e),
                Ok(y) => match spec_i16_field(t, f, base + 2, line, n) {
                    Err(e) => Err(e),
                    Ok(z) => Ok(
                        DsVecFixed16 {
                            x: DsFixed16 { bits: x },
                            y: DsFixed16 { bits: y },
                            z: DsFixed16 { bits: z },
                        },
                    ),
                },
            },
        }
    }
}

/// A light line: absent unless its first field is exactly `1`; else a color and a direction.
pub open spec fn spec_light(
    t: Seq<u8>,
    f: Seq<(int, int)>,
    line: AreaLightBlockLine,
    n: int,
) -> Result<Option<AreaLightProperties>, AreaLightError> {
    if !(f[0].1 == f[0].0 + 1 && t[f[0].0] == 49) {
        Ok(None)
    } else {
        match spec_rgb(t, f, 1, line, n) {
            Err(e) => Err(e),
            Ok(color) => match spec_direction(t, f, 4, line, n) {
                Err(e) => Err(e),
                Ok(direction) => Ok(Some(AreaLightProperties { color, direction })),
            },
        }
    }
}

/// The block after the line `t[start..end)`, numbered `n`, is read in state `line`.
pub open spec fn spec_apply_line(
    t: Seq<u8>,
    start: int,
    end: int,
    n: int,
    line: AreaLightBlockLine,
    block: AreaLightBlock,
) -> Result<AreaLightBlock, AreaLightError> {
    let f = fields_from(t, start, end);
    match line {
        AreaLightBlockLine::EndTime => match spec_parse_unsigned(t, f[0].0, f[0].1, 0xFFFF_FFFF) {
            Ok(v) => Ok(AreaLightBlock { end_time: v as u32, ..block }),
            Err(e) => Err(AreaLightError::MalformedLineParameter(line, n as usize, 0, e)),
        },
        AreaLightBlockLine::Light0 => match spec_light(t, f, line, n) {
            Ok(l) => Ok(AreaLightBlock { light_0: l, ..block }),
            Err(e) => Err(e),
        },
        AreaLightBlockLine::Light1 => match spec_light(t, f, line, n) {
            Ok(l) => Ok(AreaLightBlock { light_1: l, ..block }),
            Err(e) => Err(e),
        },
        AreaLightBlockLine::Light2 => match spec_light(t, f, line, n) {
            Ok(l) => Ok(AreaLightBlock { light_2: l, ..block }),
            Err(e) => Err(e),
        },
        AreaLightBlockLine::Light3 => match spec_light(t, f, line, n) {
            Ok(l) => Ok(AreaLightBlock { light_3: l, ..block }),
            Err(e) => Err(e),
        },
        AreaLightBlockLine::DiffuseReflectColor => match spec_rgb(t, f, 0, line, n) {
            Ok(c) => Ok(AreaLightBlock { diffuse_reflect_color: c, ..block }),
            Err(e) => Err(e),
        },
        AreaLightBlockLine::AmbientReflectColor => match spec_rgb(t, f, 0, line, n) {
            Ok(c) => Ok(AreaLightBlock { ambient_reflect_color: c, ..block }),
            Err(e) => Err(e),
        },
        AreaLightBlockLine::SpecularReflectColor => match spec_rgb(t, f, 0, line, n) {
            Ok(c) => Ok(AreaLightBlock { specular_reflect_color: c, ..block }),
            Err(e) => Err(e),
        },
        AreaLightBlockLine::EmissionColor => match spec_rgb(t, f, 0, line, n) {
            Ok(c) => Ok(AreaLightBlock { emission_color: c, ..block }),
            Err(e) => Err(e),
        },
        AreaLightBlockLine::End => Err(AreaLightError::BlockParseOverrun),
    }
}

/// `t[start..end)` is the line `EOF`.
pub open spec fn is_eof_line(t: Seq<u8>, start: int, end: int) -> bool {
    end == start + 3 && t[start] == 69 && t[start + 1] == 79 && t[start + 2] == 70
}

/// The blocks of the text `t` read from the line that starts at `pos`, numbered `n`, in state
/// `line`, with `block` read so far and `blocks` complete.
pub open spec fn spec_parse_from(
    t: Seq<u8>,
    pos: int,
    n: int,
    line: AreaLightBlockLine,
    block: AreaLightBlock,
    blocks: Seq<AreaLightBlock>,
) -> Result<Seq<AreaLightBlock>, AreaLightError>
    decreases t.len() - pos,
{
    if pos < 0 || pos >= t.len() {
        Ok(blocks)
    } else {
        let next = next_line_start(t, pos);
        let end = line_content_end(t, pos);
        if end == pos {
            if line == AreaLightBlockLine::EndTime {
                spec_parse_from(t, next, n + 1, line, block, blocks)
            } else {
                Err(AreaLightError::EarlyEmptyLine(n as usize))
            }
        } else if is_eof_line(t, pos, end) {
            Ok(blocks)
        } else {
            match spec_apply_line(t, pos, end, n, line, block) {
                Err(e) => Err(e),
                Ok(b) => if spec_next_line(line) == AreaLightBlockLine::End {
                    spec_parse_from(
                        t,
                        next,
                        n + 1,
                        AreaLightBlockLine::EndTime,
                        empty_block(),
                        blocks.push(b),
                    )
                } else {
                    spec_parse_from(t, next, n + 1, spec_next_line(line), b, blocks)
                },
            }
        }
    }
}

/// The blocks that the text `t` holds, or the first error in it.
pub open spec fn spec_parse_area_light(t: Seq<u8>) -> Result<Seq<AreaLightBlock>, AreaLightError> {
    spec_parse_from(t, 0, 0, AreaLightBlockLine::EndTime, empty_block(), seq![])
}

/// A light with each direction component clamped to `[-1.0, +1.0]`.
pub open spec fn spec_fix_light(l: AreaLightProperties) -> AreaLightProperties {
    AreaLightProperties {
        color: l.color,
        direction: DsVecFixed16 {
            x: DsFixed16 { bits: clamp_unit_bits(l.direction.x.bits) },
            y: DsFixed16 { bits: clamp_unit_bits(l.direction.y.bits) },
            z: DsFixed16 { bits: clamp_unit_bits(l.direction.z.bits) },
        },
    }
}

pub open spec fn spec_fix_opt_light(l: Option<AreaLightProperties>) -> Option<
    AreaLightProperties,
> {
    match l {
        Some(p) => Some(spec_fix_light(p)),
        None => None,
    }
}

/// A block with each present light fixed.
pub open spec fn spec_fix_block(b: AreaLightBlock) -> AreaLightBlock {
    AreaLightBlock {
        light_0: spec_fix_opt_light(b.light_0),
        light_1: spec_fix_opt_light(b.light_1),
        light_2: spec_fix_opt_light(b.light_2),
        light_3: spec_fix_opt_light(b.light_3),
        ..b
    }
}

fn default_block() -> (r: AreaLightBlock)
    ensures
        r == empty_block(),
{
    let black = DsRgb { red: 0, green: 0, blue: 0 };
    AreaLightBlock {
        end_time: 0,
        light_0: None,
        light_1: None,
        light_2: None,
        light_3: None,
        diffuse_reflect_color: black,
        ambient_reflect_color: black,
        specular_reflect_color: black,
        emission_color: black,
    }
}

/// Ranges held as machine integers, seen as mathematical ones.
pub open spec fn field_view(f: Seq<(usize, usize)>) -> Seq<(int, int)> {
    Seq::new(f.len(), |i: int| (f[i].0 as int, f[i].1 as int))
}

/// The fields of `t[start..end)`, as ranges.
fn split_fields(t: &[u8], start: usize, end: usize) -> (r: Vec<(usize, usize)>)
    requires
        start <= end <= t.len(),
    ensures
        field_view(r@) == fields_from(t@, start as int, end as int),
        r@.len() >= 1,
        forall|i: int| 0 <= i < r@.len() ==> (#[trigger] r@[i]).0 <= r@[i].1 && r@[i].1 <= end,
{
    let ghost all = fields_from(t@, start as int, end as int);
    let mut r: Vec<(usize, usize)> = Vec::new();
    let mut pos: usize = start;
    loop
        invariant
            start <= pos <= end <= t.len(),
            all == fields_from(t@, start as int, end as int),
            all.len() == r@.len() + fields_from(t@, pos as int, end as int).len(),
            forall|i: int|
                0 <= i < r@.len() ==> (#[trigger] r@[i]).0 == all[i].0 && r@[i].1 == all[i].1
                    && r@[i].0 <= r@[i].1 <= end,
            forall|i: int|
                0 <= i < fields_from(t@, pos as int, end as int).len() ==> all[r@.len() + i]
                    == fields_from(t@, pos as int, end as int)[i],
        decreases end - pos,
    {
        let mut c: usize = pos;
        while c < end && t[c] != 44
            invariant
                pos <= c <= end <= t.len(),
                pos + field_len(t@, pos as int, end as int) == c + field_len(
                    t@,
                    c as int,
                    end as int,
                ),
            decreases end - c,
        {
            c = c + 1;
        }
        let ghost rest = fields_from(t@, pos as int, end as int);
        if c >= end {
            r.push((pos, end));
            assert(rest.len() == 1);
            assert(all[r@.len() - 1] == rest[0]);
            assert(forall|i: int|
                0 <= i < r@.len() ==> r@[i].0 == all[i].0 && r@[i].1 == all[i].1 && r@[i].0
                    <= r@[i].1 <= end);
            assert(field_view(r@) =~= all);
            return r;
        }
        r.push((pos, c));
        assert(all[r@.len() - 1] == rest[0]);
        let ghost later = fields_from(t@, c + 1, end as int);
        assert(rest == seq![(pos as int, c as int)] + later);
        assert forall|i: int| 0 <= i < later.len() implies all[r@.len() + i] == later[i] by {
            assert(rest[i + 1] == later[i]);
        }
        pos = c + 1;
    }
}

fn u8_field(
    t: &[u8],
    f: &Vec<(usize, usize)>,
    k: usize,
    line: AreaLightBlockLine,
    n: usize,
) -> (r: Result<u8, AreaLightError>)
    requires
        k < f@.len(),
        forall|i: int| 0 <= i < f@.len() ==> (#[trigger] f@[i]).0 <= f@[i].1 <= t.len(),
    ensures
        r == spec_u8_field(t@, field_view(f@), k as int, line, n as int),
{
    match parse_unsigned(t, f[k].0, f[k].1, 255) {
        Ok(v) => Ok(v as u8),
        Err(e) => Err(AreaLightError::MalformedLineParameter(line, n, k, e)),
    }
}

fn i16_field(
    t: &[u8],
    f: &Vec<(usize, usize)>,
    k: usize,
    line: AreaLightBlockLine,
    n: usize,
) -> (r: Result<i16, AreaLightError>)
    requires
        k < f@.len(),
        forall|i: int| 0 <= i < f@.len() ==> (#[trigger] f@[i]).0 <= f@[i].1 <= t.len(),
    ensures
        r == spec_i16_field(t@, field_view(f@), k as int, line, n as int),
{
    match parse_i16(t, f[k].0, f[k].1) {
        Ok(v) => Ok(v),
        Err(e) => Err(AreaLightError::MalformedLineParameter(line, n, k, e)),
    }
}

impl AreaLight {
    /// Parses an [`AreaLight`] from bytes, which must be UTF-8 text.
    pub fn parse_bytes(bytes: &[u8]) -> (r: Result<Self, AreaLightError>)
        ensures
            !valid_utf8(bytes@) ==> r == Err::<Self, AreaLightError>(
                AreaLightError::ConversionError,
            ),
            valid_utf8(bytes@) ==> match r {
                Ok(a) => spec_parse_area_light(bytes@) == Ok::<
                    Seq<AreaLightBlock>,
                    AreaLightError,
                >(a.blocks@),
                Err(e) => spec_parse_area_light(bytes@) == Err::<
                    Seq<AreaLightBlock>,
                    AreaLightError,
                >(e),
            },
    {
        match utf8_str(bytes) {
            Some(s) => Self::parse_string(s),
            None => Err(AreaLightError::ConversionError),
        }
    }

    /// Parses an [`AreaLight`] from text: blocks of nine lines, blank lines between blocks,
    /// and an optional `EOF` line that ends the text.
    pub fn parse_string(s: &str) -> (r: Result<Self, AreaLightError>)
        ensures
            match r {
                Ok(a) => spec_parse_area_light(s.spec_bytes()) == Ok::<
                    Seq<AreaLightBlock>,
                    AreaLightError,
                >(a.blocks@),
                Err(e) => spec_parse_area_light(s.spec_bytes()) == Err::<
                    Seq<AreaLightBlock>,
                    AreaLightError,
                >(e),
            },
    {
        let t = s.as_bytes();
        let len = t.len();
        let mut blocks: Vec<AreaLightBlock> = Vec::new();
        let mut block = default_block();
        let mut line = AreaLightBlockLine::EndTime;
        let mut pos: usize = 0;
        let mut n: usize = 0;
        while pos < len
            invariant
                t@ == s.spec_bytes(),
                len == t@.len(),
                pos <= len,
                n <= pos,
                spec_parse_area_light(t@) == spec_parse_from(t@, pos as int, n as int, line, block, blocks@),
            decreases len - pos,
        {
            // Find the end of the line
            let mut nl: usize = pos;
            while nl < len && t[nl] != 10
                invariant
                    pos <= nl <= len,
                    len == t@.len(),
                    pos + line_len(t@, pos as int) == nl + line_len(t@, nl as int),
                decreases len - nl,
            {
                nl = nl + 1;
            }
            let end: usize = if nl < len && nl > pos && t[nl - 1] == 13 {
                nl - 1
            } else {
                nl
            };
            let next: usize = if nl >= len {
                len
            } else {
                nl + 1
            };
            assert(end == line_content_end(t@, pos as int));
            assert(next == next_line_start(t@, pos as int));

            // Check for special lines
            if end == pos {
                if line == AreaLightBlockLine::EndTime {
                    pos = next;
                    n = n + 1;
                    continue;
                } else {
                    return Err(AreaLightError::EarlyEmptyLine(n));
                }
            } else if end - pos == 3 && t[pos] == 69 && t[pos + 1] == 79 && t[pos + 2] == 70 {
                return Ok(AreaLight { blocks });
            }

            // Parse the line according to where we are in the block
            let f = split_fields(t, pos, end);
            block = match Self::apply_line(t, pos, end, &f, n, line, block) {
                Ok(b) => b,
                Err(e) => {
                    return Err(e);
                },
            };
            line.next();
            if line == AreaLightBlockLine::End {
                blocks.push(block);
                block = default_block();
                line = AreaLightBlockLine::EndTime;
            }
            pos = next;
            n = n + 1;
        }
        Ok(AreaLight { blocks })
    }

    /// The block after the line `t[start..end)`, whose fields are `f`.
    fn apply_line(
        t: &[u8],
        start: usize,
        end: usize,
        f: &Vec<(usize, usize)>,
        n: usize,
        line: AreaLightBlockLine,
        block: AreaLightBlock,
    ) -> (r: Result<AreaLightBlock, AreaLightError>)
        requires
            start <= end <= t.len(),
            field_view(f@) == fields_from(t@, start as int, end as int),
            f@.len() >= 1,
            forall|i: int| 0 <= i < f@.len() ==> (#[trigger] f@[i]).0 <= f@[i].1 <= t.len(),
        ensures
            r == spec_apply_line(t@, start as int, end as int, n as int, line, block),
    {
        let mut b = block;
        match line {
            AreaLightBlockLine::EndTime => {
                assert(field_view(f@)[0] == (f@[0].0 as int, f@[0].1 as int));
                match parse_unsigned(t, f[0].0, f[0].1, 0xFFFF_FFFF) {
                    Ok(v) => {
                        b.end_time = v as u32;
                    },
                    Err(e) => {
                        return Err(AreaLightError::MalformedLineParameter(line, n, 0, e));
                    },
                }
            },
            AreaLightBlockLine::Light0 => {
                b.light_0 = Self::parse_light_line(t, f, &line, n)?;
            },
            AreaLightBlockLine::Light1 => {
                b.light_1 = Self::parse_light_line(t, f, &line, n)?;
            },
            AreaLightBlockLine::Light2 => {
                b.light_2 = Self::parse_light_line(t, f, &line, n)?;
            },
            AreaLightBlockLine::Light3 => {
                b.light_3 = Self::parse_light_line(t, f, &line, n)?;
            },
            AreaLightBlockLine::DiffuseReflectColor => {
                b.diffuse_reflect_color = Self::parse_color_line(t, f, &line, n)?;
            },
            AreaLightBlockLine::AmbientReflectColor => {
                b.ambient_reflect_color = Self::parse_color_line(t, f, &line, n)?;
            },
            AreaLightBlockLine::SpecularReflectColor => {
                b.specular_reflect_color = Self::parse_color_line(t, f, &line, n)?;
            },
            AreaLightBlockLine::EmissionColor => {
                b.emission_color = Self::parse_color_line(t, f, &line, n)?;
            },
            AreaLightBlockLine::End => {
                return Err(AreaLightError::BlockParseOverrun);
            },
        }
        Ok(b)
    }

    /// Parses a light line: absent unless its first parameter is `1`.
    fn parse_light_line(
        t: &[u8],
        f: &Vec<(usize, usize)>,
        current_block_line: &AreaLightBlockLine,
        current_line: usize,
    ) -> (r: Result<Option<AreaLightProperties>, AreaLightError>)
        requires
            f@.len() >= 1,
            forall|i: int| 0 <= i < f@.len() ==> (#[trigger] f@[i]).0 <= f@[i].1 <= t.len(),
        ensures
            r == spec_light(t@, field_view(f@), *current_block_line, current_line as int),
    {
        let (valid_start, valid_end) = f[0];
        assert(field_view(f@)[0] == (f@[0].0 as int, f@[0].1 as int));
        if !(valid_end > valid_start && valid_end - valid_start == 1 && t[valid_start] == 49) {
            return Ok(None);
        }
        let color = Self::parse_color_parameters(t, f, 1, current_block_line, current_line)?;
        let direction = Self::parse_vector_parameters(t, f, 4, current_block_line, current_line)?;
        Ok(Some(AreaLightProperties { color, direction }))
    }

    /// Parses a color line.
    fn parse_color_line(
        t: &[u8],
        f: &Vec<(usize, usize)>,
        current_block_line: &AreaLightBlockLine,
        current_line: usize,
    ) -> (r: Result<DsRgb, AreaLightError>)
        requires
            forall|i: int| 0 <= i < f@.len() ==> (#[trigger] f@[i]).0 <= f@[i].1 <= t.len(),
        ensures
            r == spec_rgb(t@, field_view(f@), 0, *current_block_line, current_line as int),
    {
        Self::parse_color_parameters(t, f, 0, current_block_line, current_line)
    }

    /// Parses the three color components in the parameters `base..base + 3`: first checks that
    /// they are all there, then parses each.
    fn parse_color_parameters(
        t: &[u8],
        f: &Vec<(usize, usize)>,
        base: usize,
        current_block_line: &AreaLightBlockLine,
        current_line: usize,
    ) -> (r: Result<DsRgb, AreaLightError>)
        requires
            base <= 4,
            forall|i: int| 0 <= i < f@.len() ==> (#[trigger] f@[i]).0 <= f@[i].1 <= t.len(),
        ensures
            r == spec_rgb(t@, field_view(f@), base as int, *current_block_line, current_line as int),
    {
        if f.len() < base + 3 {
            return Err(AreaLightError::NotEnoughParameters(*current_block_line, current_line));
        }
        let red = u8_field(t, f, base, *current_block_line, current_line)?;
        let green = u8_field(t, f, base + 1, *current_block_line, current_line)?;
        let blue = u8_field(t, f, base + 2, *current_block_line, current_line)?;
        Ok(DsRgb { red, green, blue })
    }

    /// Parses the three direction components in the parameters `base..base + 3`, each the raw
    /// bit pattern of a 16-bit fixed-point number.
    fn parse_vector_parameters(
        t: &[u8],
        f: &Vec<(usize, usize)>,
        base: usize,
        current_block_line: &AreaLightBlockLine,
        current_line: usize,
    ) -> (r: Result<DsVecFixed16, AreaLightError>)
        requires
            base <= 4,
            forall|i: int| 0 <= i < f@.len() ==> (#[trigger] f@[i]).0 <= f@[i].1 <= t.len(),
        ensures
            r == spec_direction(t@, field_view(f@), base as int, *current_block_line, current_line as int),
    {
        if f.len() < base + 3 {
            return Err(AreaLightError::NotEnoughParameters(*current_block_line, current_line));
        }
        let x = i16_field(t, f, base, *current_block_line, current_line)?;
        let y = i16_field(t, f, base + 1, *current_block_line, current_line)?;
        let z = i16_field(t, f, base + 2, *current_block_line, current_line)?;
        Ok(
            DsVecFixed16 {
                x: DsFixed16::from_bits(x),
                y: DsFixed16::from_bits(y),
                z: DsFixed16::from_bits(z),
            },
        )
    }

    /// Clamps the direction of every present light to `[-1.0, +1.0]`, as the game reads it.
    pub fn fix(&mut self)
        ensures
            final(self).blocks@.len() == old(self).blocks@.len(),
            forall|i: int|
                0 <= i < old(self).blocks@.len() ==> final(self).blocks@[i] == spec_fix_block(
                    old(self).blocks@[i],
                ),
    {
        let n = self.blocks.len();
        let mut i: usize = 0;
        while i < n
            invariant
                n == old(self).blocks@.len(),
                self.blocks@.len() == n,
                i <= n,
                forall|j: int| 0 <= j < i ==> self.blocks@[j] == spec_fix_block(old(self).blocks@[j]),
                forall|j: int| i <= j < n ==> self.blocks@[j] == old(self).blocks@[j],
            decreases n - i,
        {
            let mut block = self.blocks[i];
            block.light_0 = Self::fix_opt_light(block.light_0);
            block.light_1 = Self::fix_opt_light(block.light_1);
            block.light_2 = Self::fix_opt_light(block.light_2);
            block.light_3 = Self::fix_opt_light(block.light_3);
            self.blocks[i] = block;
            i = i + 1;
        }
    }

    fn fix_opt_light(light: Option<AreaLightProperties>) -> (r: Option<AreaLightProperties>)
        ensures
            r == spec_fix_opt_light(light),
    {
        match light {
            Some(mut l) => {
                Self::fix_light(&mut l);
                Some(l)
            },
            None => None,
        }
    }

    /// Clamps each direction component of a light to `[-1.0, +1.0]`.
    fn fix_light(light: &mut AreaLightProperties)
        ensures
            *final(light) == spec_fix_light(*old(light)),
    {
        light.direction.x = light.direction.x.clamp_unit();
        light.direction.y = light.direction.y.clamp_unit();
        light.direction.z = light.direction.z.clamp_unit();
    }
}

} // verus!
