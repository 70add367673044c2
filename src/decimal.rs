//! Parsing of decimal integers from ASCII digits, with the errors that Rust's integer parsing
//! reports.

use vstd::prelude::*;

verus! {

/// Why a decimal integer could not be parsed.
#[derive(Debug, Clone, Copy, PartialEq, Eq, Structural)]
pub enum IntErrorKind {
    /// The text is empty.
    Empty,
    /// The text holds a character that is not a digit where a digit is expected.
    InvalidDigit,
    /// The number is too large for the target type.
    PosOverflow,
    /// The number is too small for the target type.
    NegOverflow,
}

pub open spec fn is_digit(c: u8) -> bool {
    48 <= c <= 57
}

/// Scans the digits of `t[k..end)`, with `v` the magnitude read so far: the magnitude of the
/// whole, or the first failure (`true` for a digit that takes the magnitude over `max`, `false`
/// for a character that is not a digit).
pub open spec fn scan_digits(t: Seq<u8>, k: int, end: int, v: int, max: int) -> Result<int, bool>
    decreases end - k,
{
    if k >= end {
        Ok(v)
    } else if !is_digit(t[k]) {
        Err(false)
    } else if v * 10 + (t[k] - 48) > max {
        Err(true)
    } else {
        scan_digits(t, k + 1, end, v * 10 + (t[k] - 48), max)
    }
}

/// The unsigned integer at most `max` that `t[start..end)` spells, as `str::parse` reads it: an
/// optional `+`, then one or more digits.
pub open spec fn spec_parse_unsigned(t: Seq<u8>, start: int, end: int, max: int) -> Result<
    int,
    IntErrorKind,
> {
    if end <= start {
        Err(IntErrorKind::Empty)
    } else if (t[start] == 43 || t[start] == 45) && end == start + 1 {
        Err(IntErrorKind::InvalidDigit)
    } else {
        let first = if t[start] == 43 {
            start + 1
        } else {
            start
        };
        match scan_digits(t, first, end, 0, max) {
            Ok(v) => Ok(v),
            Err(true) => Err(IntErrorKind::PosOverflow),
            Err(false) => Err(IntErrorKind::InvalidDigit),
        }
    }
}

/// The `i16` that `t[start..end)` spells, as `str::parse` reads it: an optional sign, then one
/// or more digits.
pub open spec fn spec_parse_i16(t: Seq<u8>, start: int, end: int) -> Result<i16, IntErrorKind> {
    if end <= start {
        Err(IntErrorKind::Empty)
    } else if (t[start] == 43 || t[start] == 45) && end == start + 1 {
        Err(IntErrorKind::InvalidDigit)
    } else if t[start] == 45 {
        match scan_digits(t, start + 1, end, 0, 32768) {
            Ok(v) => Ok((-v) as i16),
            Err(true) => Err(IntErrorKind::NegOverflow),
            Err(false) => Err(IntErrorKind::InvalidDigit),
        }
    } else {
        match spec_parse_unsigned(t, start, end, 32767) {
            Ok(v) => Ok(v as i16),
            Err(e) => Err(e),
        }
    }
}

pub proof fn lemma_scan_bounded(t: Seq<u8>, k: int, end: int, v: int, max: int)
    requires
        0 <= v <= max,
    ensures
        scan_digits(t, k, end, v, max) matches Ok(w) ==> 0 <= w <= max,
    decreases end - k,
{
    if k < end && is_digit(t[k]) && v * 10 + (t[k] - 48) <= max {
        lemma_scan_bounded(t, k + 1, end, v * 10 + (t[k] - 48), max);
    }
}

/// Reads the digits of `t[k..end)` into a magnitude at most `max`.
fn scan_magnitude(t: &[u8], k: usize, end: usize, max: u64) -> (r: Result<u64, bool>)
    requires
        k <= end <= t.len(),
        max <= 0xFFFF_FFFF,
    ensures
        match r {
            Ok(v) => scan_digits(t@, k as int, end as int, 0, max as int) == Ok::<int, bool>(
                v as int,
            ),
            Err(o) => scan_digits(t@, k as int, end as int, 0, max as int) == Err::<int, bool>(o),
        },
{
    let mut v: u64 = 0;
    let mut i: usize = k;
    while i < end
        invariant
            k <= i <= end <= t.len(),
            max <= 0xFFFF_FFFF,
            v <= max,
            scan_digits(t@, k as int, end as int, 0, max as int) == scan_digits(
                t@,
                i as int,
                end as int,
                v as int,
                max as int,
            ),
        decreases end - i,
    {
        let c = t[i];
        if c < 48 || c > 57 {
            return Err(false);
        }
        let next = v * 10 + (c - 48) as u64;
        if next > max {
            return Err(true);
        }
        v = next;
        i = i + 1;
    }
    Ok(v)
}

/// Parses `t[start..end)` as an unsigned integer of at most `max`.
pub fn parse_unsigned(t: &[u8], start: usize, end: usize, max: u64) -> (r: Result<
    u64,
    IntErrorKind,
>)
    requires
        start <= end <= t.len(),
        max <= 0xFFFF_FFFF,
    ensures
        match r {
            Ok(v) => spec_parse_unsigned(t@, start as int, end as int, max as int) == Ok::<
                int,
                IntErrorKind,
            >(v as int),
            Err(e) => spec_parse_unsigned(t@, start as int, end as int, max as int) == Err::<
                int,
                IntErrorKind,
            >(e),
        },
{
    if end == start {
        return Err(IntErrorKind::Empty);
    }
    if (t[start] == 43 || t[start] == 45) && end == start + 1 {
        return Err(IntErrorKind::InvalidDigit);
    }
    let first = if t[start] == 43 {
        start + 1
    } else {
        start
    };
    match scan_magnitude(t, first, end, max) {
        Ok(v) => Ok(v),
        Err(true) => Err(IntErrorKind::PosOverflow),
        Err(false) => Err(IntErrorKind::InvalidDigit),
    }
}

/// Parses `t[start..end)` as an `i16`.
pub fn parse_i16(t: &[u8], start: usize, end: usize) -> (r: Result<i16, IntErrorKind>)
    requires
        start <= end <= t.len(),
    ensures
        r == spec_parse_i16(t@, start as int, end as int),
{
    if end == start {
        return Err(IntErrorKind::Empty);
    }
    if (t[start] == 43 || t[start] == 45) && end == start + 1 {
        return Err(IntErrorKind::InvalidDigit);
    }
    if t[start] == 45 {
        match scan_magnitude(t, start + 1, end, 32768) {
            Ok(v) => {
                proof {
                    lemma_scan_bounded(t@, start + 1, end as int, 0, 32768);
                }
                Ok((0 - v as i32) as i16)
            },
            Err(true) => Err(IntErrorKind::NegOverflow),
            Err(false) => Err(IntErrorKind::InvalidDigit),
        }
    } else {
        match parse_unsigned(t, start, end, 32767) {
            Ok(v) => {
                proof {
                    let first = if t@[start as int] == 43 {
                        start + 1
                    } else {
                        start as int
                    };
                    lemma_scan_bounded(t@, first, end as int, 0, 32767);
                }
                Ok(v as i16)
            },
            Err(e) => Err(e),
        }
    }
}

} // verus!
