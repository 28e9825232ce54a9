//! The exact part of elevation sampling: the affine pixel lookup and the
//! fallback policy that turns a raster sample into a vertex radius.
//!
//! Opening a raster dataset, reprojecting a coordinate and reading a
//! pixel are I/O and live with the host; the host hands the outcome back
//! as a [`RasterSample`] and feeds geotransform values here as fixed-point
//! integers.

use vstd::prelude::*;

verus! {

/// The outcome of one elevation query: a value in raster units, an
/// in-range pixel that holds no data, or a failed read (malformed
/// dataset, reprojection failure, out-of-bounds pixel). A failure is
/// kept distinct from missing data; only the radius policy below is
/// allowed to collapse the two.
#[derive(Debug, Clone, Copy, PartialEq, Eq, Structural)]
pub enum RasterSample {
    Value(i64),
    NoData,
    Failed,
}

/// True only for a sample that displaces a vertex: a present, strictly
/// positive elevation.
pub open spec fn sample_displaces(s: RasterSample) -> bool {
    s matches RasterSample::Value(v) && v > 0
}

/// The vertex radius as a numerator over `divisor`: the base radius,
/// raised by `sample / divisor` when the sample is present and positive.
/// A zero or negative sample, missing data and a failed read all leave
/// the vertex on the base sphere.
pub open spec fn displaced_radius_num(base: int, divisor: int, s: RasterSample) -> int {
    if sample_displaces(s) {
        base * divisor + (s->Value_0 as int)
    } else {
        base * divisor
    }
}

/// Applies the elevation fallback policy: returns the vertex radius as a
/// numerator over `divisor`. Exactly the displacing samples move the
/// vertex; every other outcome yields exactly the base radius.
pub fn displace_radius(base: i64, divisor: i64, sample: &RasterSample) -> (r: i64)
    requires
        0 <= base <= 1_000_000,
        1 <= divisor <= 1_000_000,
        *sample matches RasterSample::Value(v) ==> -0x1000_0000_0000_0000 <= v
            <= 0x1000_0000_0000_0000,
    ensures
        r == displaced_radius_num(base as int, divisor as int, *sample),
        !sample_displaces(*sample) ==> r == base * divisor,
{
    proof {
        assert(base * divisor <= 1_000_000_000_000i64) by (nonlinear_arith)
            requires
                0 <= base <= 1_000_000,
                1 <= divisor <= 1_000_000,
        ;
    }
    let flat = base * divisor;
    match sample {
        RasterSample::Value(v) => {
            if *v > 0 {
                flat + *v
            } else {
                flat
            }
        },
        RasterSample::NoData => flat,
        RasterSample::Failed => flat,
    }
}

/// Rust's division truncated toward zero, the rounding a float-to-integer
/// cast applies to a pixel coordinate.
pub open spec fn trunc_div(a: int, b: int) -> int {
    let q = (vstd::math::abs(a) / vstd::math::abs(b)) as int;
    if (a >= 0) == (b >= 0) {
        q
    } else {
        -q
    }
}

/// Converts one projected coordinate axis into a raster pixel index
/// through the affine geotransform: `(coord - origin) / scale`, truncated
/// toward zero. All three values are fixed-point integers in the same
/// unit per axis.
pub fn raster_pixel(coord: i64, origin: i64, scale: i64) -> (r: i64)
    requires
        scale != 0,
        -0x1000_0000_0000_0000 <= coord <= 0x1000_0000_0000_0000,
        -0x1000_0000_0000_0000 <= origin <= 0x1000_0000_0000_0000,
    ensures
        r == trunc_div(coord - origin, scale as int),
{
    let diff = coord - origin;
    let negative = (diff < 0) != (scale < 0);
    let abs_diff: u64 = if diff < 0 {
        (-diff) as u64
    } else {
        diff as u64
    };
    let abs_scale: u64 = if scale < 0 {
        if scale == i64::MIN {
            0x8000_0000_0000_0000u64
        } else {
            (-scale) as u64
        }
    } else {
        scale as u64
    };
    let quotient = abs_diff / abs_scale;
    if negative {
        -(quotient as i64)
    } else {
        quotient as i64
    }
}

} // verus!
