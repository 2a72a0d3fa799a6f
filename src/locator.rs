//! Maidenhead grid locators. A locator of 2 to 12 characters names a grid
//! cell; the result is the cell's centre. Coordinates are exact: they are
//! counted in units of 1/115200 of a degree, the half-size of the finest
//! cell's latitude.

use vstd::prelude::*;
use crate::error::{AdifError, ErrorKind};
use crate::text::{chars_of, to_upper, upper};

verus! {

/// Units in one degree.
pub const UNITS_PER_DEGREE: i64 = 115200;

/// A geographic point, in units of 1/115200 degree; east and north positive.
#[derive(Clone, Copy, Debug, PartialEq, Eq, Structural)]
pub struct Point {
    pub longitude: i64,
    pub latitude: i64,
}

impl Point {
    pub fn new(longitude: i64, latitude: i64) -> (r: Point)
        ensures
            r == (Point { longitude, latitude }),
    {
        Point { longitude, latitude }
    }
}

/// Longitude size of a cell at precision level `i`: 20°, 2°, 5', 30", 1.25", 0.125".
pub open spec fn lon_step(i: int) -> int {
    if i == 0 {
        2304000
    } else if i == 1 {
        230400
    } else if i == 2 {
        9600
    } else if i == 3 {
        960
    } else if i == 4 {
        40
    } else {
        4
    }
}

/// Latitude size of a cell at precision level `i`: half the longitude size.
pub open spec fn lat_step(i: int) -> int {
    lon_step(i) / 2
}

/// Whether `c` may stand in chunk `i`: A–R first, A–X in chunks 2 and 4,
/// digits in the others.
pub open spec fn locator_char(i: int, c: char) -> bool {
    if i == 0 {
        'A' <= c && c <= 'R'
    } else if i == 2 || i == 4 {
        'A' <= c && c <= 'X'
    } else {
        '0' <= c && c <= '9'
    }
}

pub open spec fn char_value(i: int, c: char) -> int {
    if i % 2 == 0 {
        (c as int) - ('A' as int)
    } else {
        (c as int) - ('0' as int)
    }
}

pub open spec fn chunk_ok(u: Seq<char>, i: int) -> bool {
    locator_char(i, u[2 * i]) && locator_char(i, u[2 * i + 1])
}

pub open spec fn valid_chunks(u: Seq<char>, n: int) -> bool {
    forall|i: int| 0 <= i < n ==> #[trigger] chunk_ok(u, i)
}

/// Offset of the cell's corner from (-180°, -90°) after `n` chunks.
pub open spec fn lon_sum(u: Seq<char>, n: int) -> int
    decreases n,
{
    if n <= 0 {
        0
    } else {
        lon_sum(u, n - 1) + lon_step(n - 1) * char_value(n - 1, u[2 * (n - 1)])
    }
}

pub open spec fn lat_sum(u: Seq<char>, n: int) -> int
    decreases n,
{
    if n <= 0 {
        0
    } else {
        lat_sum(u, n - 1) + lat_step(n - 1) * char_value(n - 1, u[2 * (n - 1) + 1])
    }
}

/// The centre of the cell that `s` names (letters in either case).
pub open spec fn spec_locate(s: Seq<char>) -> Result<Point, ErrorKind> {
    let u = upper(s);
    let n = s.len() / 2;
    if s.len() % 2 != 0 || s.len() < 2 || s.len() > 12 {
        Err(ErrorKind::InvalidLocatorLength)
    } else if !valid_chunks(u, n as int) {
        Err(ErrorKind::InvalidLocatorCharacter)
    } else {
        Ok(
            Point {
                longitude: (lon_sum(u, n as int) + lon_step(n - 1) / 2 - 180 * 115200) as i64,
                latitude: (lat_sum(u, n as int) + lat_step(n - 1) / 2 - 90 * 115200) as i64,
            },
        )
    }
}

fn lon_step_exec(i: usize) -> (r: i64)
    ensures
        r == lon_step(i as int),
{
    if i == 0 {
        2304000
    } else if i == 1 {
        230400
    } else if i == 2 {
        9600
    } else if i == 3 {
        960
    } else if i == 4 {
        40
    } else {
        4
    }
}

fn locator_char_exec(i: usize, c: char) -> (r: bool)
    ensures
        r == locator_char(i as int, c),
{
    if i == 0 {
        'A' <= c && c <= 'R'
    } else if i == 2 || i == 4 {
        'A' <= c && c <= 'X'
    } else {
        '0' <= c && c <= '9'
    }
}

fn char_value_exec(i: usize, c: char) -> (r: i64)
    requires
        i < 6,
        locator_char(i as int, c),
    ensures
        r == char_value(i as int, c),
        0 <= r < 24,
{
    if i % 2 == 0 {
        (c as u32 - 'A' as u32) as i64
    } else {
        (c as u32 - '0' as u32) as i64
    }
}

proof fn lemma_mul_bound(a: int, b: int, amax: int, bmax: int)
    by (nonlinear_arith)
    requires
        0 <= a <= amax,
        0 <= b <= bmax,
    ensures
        0 <= a * b <= amax * bmax,
{
}

proof fn lemma_sum_bounds(u: Seq<char>, n: int)
    requires
        0 <= n <= 6,
        2 * n <= u.len(),
        valid_chunks(u, n),
    ensures
        0 <= lon_sum(u, n) <= 55296000 * n,
        0 <= lat_sum(u, n) <= 27648000 * n,
    decreases n,
{
    if n > 0 {
        assert(valid_chunks(u, n - 1));
        lemma_sum_bounds(u, n - 1);
        let i = n - 1;
        assert(chunk_ok(u, i));
        assert(0 <= char_value(i, u[2 * i]) < 24);
        assert(0 <= char_value(i, u[2 * i + 1]) < 24);
        lemma_mul_bound(lon_step(i), char_value(i, u[2 * i]), 2304000, 24);
        lemma_mul_bound(lat_step(i), char_value(i, u[2 * i + 1]), 1152000, 24);
        assert(lon_sum(u, n) == lon_sum(u, i) + lon_step(i) * char_value(i, u[2 * i]));
        assert(lat_sum(u, n) == lat_sum(u, i) + lat_step(i) * char_value(i, u[2 * i + 1]));
    }
}

/// The centre of the grid cell named by `locator`.
pub fn locator_to_coordinates(locator: &str) -> (r: Result<Point, AdifError>)
    ensures
        match r {
            Ok(p) => spec_locate(locator@) == Ok::<Point, ErrorKind>(p),
            Err(e) => spec_locate(locator@) == Err::<Point, ErrorKind>(e.kind),
        },
{
    let chars = chars_of(locator);
    let len = chars.len();
    if len % 2 != 0 || len < 2 || len > 12 {
        return Err(AdifError::new(ErrorKind::InvalidLocatorLength, chars.as_slice()));
    }
    let u = to_upper(chars.as_slice());
    let n = len / 2;
    let mut i: usize = 0;
    while i < n
        invariant
            n == len / 2,
            u@.len() == len,
            len == locator@.len(),
            len % 2 == 0,
            2 <= len <= 12,
            u@ == upper(locator@),
            i <= n,
            valid_chunks(u@, i as int),
        decreases n - i,
    {
        if !locator_char_exec(i, u[2 * i]) || !locator_char_exec(i, u[2 * i + 1]) {
            proof {
                let k = i as int;
                assert(!chunk_ok(u@, k));
                assert(!valid_chunks(u@, n as int));
            }
            return Err(AdifError::new(ErrorKind::InvalidLocatorCharacter, chars.as_slice()));
        }
        assert(valid_chunks(u@, i + 1)) by {
            assert forall|k: int| 0 <= k < i + 1 implies #[trigger] chunk_ok(u@, k) by {
                if k < i {
                    assert(chunk_ok(u@, k));
                }
            }
        }
        i = i + 1;
    }
    let mut lon: i64 = 0;
    let mut lat: i64 = 0;
    let mut j: usize = 0;
    while j < n
        invariant
            n == len / 2,
            u@.len() == len,
            2 <= len <= 12,
            j <= n,
            valid_chunks(u@, n as int),
            lon == lon_sum(u@, j as int),
            lat == lat_sum(u@, j as int),
        decreases n - j,
    {
        proof {
            assert(valid_chunks(u@, j + 1));
            lemma_sum_bounds(u@, j + 1);
            let k = j as int;
            assert(chunk_ok(u@, k));
            lemma_mul_bound(lon_step(k), char_value(k, u@[2 * k]), 2304000, 24);
            lemma_mul_bound(lat_step(k), char_value(k, u@[2 * k + 1]), 1152000, 24);
        }
        let step = lon_step_exec(j);
        lon = lon + step * char_value_exec(j, u[2 * j]);
        lat = lat + (step / 2) * char_value_exec(j, u[2 * j + 1]);
        j = j + 1;
    }
    proof {
        lemma_sum_bounds(u@, n as int);
    }
    let last = lon_step_exec(n - 1);
    Ok(
        Point {
            longitude: lon + last / 2 - 180 * UNITS_PER_DEGREE,
            latitude: lat + (last / 2) / 2 - 90 * UNITS_PER_DEGREE,
        },
    )
}

} // verus!
