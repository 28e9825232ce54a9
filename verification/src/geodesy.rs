//! Geographic coordinates and their map into texture (UV) space.
//!
//! Angles are fixed-point integers in microdegrees: `90_000_000` is the
//! north pole, `-180_000_000` the west edge of the longitude range. UV
//! values are exact fractions with denominator [`UV_DENOM`]: a numerator
//! of `0` is the texture coordinate `0.0`, `UV_DENOM` is `1.0`.

use vstd::prelude::*;

use crate::errors::CoordError;

verus! {

/// Fixed-point units per degree of angle.
pub const MICRODEG: i64 = 1_000_000;

/// Largest valid latitude, in microdegrees (90 degrees).
pub const LAT_LIMIT: i64 = 90_000_000;

/// Largest valid longitude, in microdegrees (180 degrees).
pub const LON_LIMIT: i64 = 180_000_000;

/// Common denominator of all texture coordinates: a UV numerator of
/// `UV_DENOM` means `1.0`, `UV_DENOM / 2` means `0.5`.
pub const UV_DENOM: i64 = 360_000_000;

/// A geographic position, stored in microdegrees.
#[derive(Debug, Clone, Copy, PartialEq, Eq, Structural)]
pub struct Coordinates {
    /// Latitude in microdegrees, valid in `[-LAT_LIMIT, LAT_LIMIT]`.
    pub latitude: i64,
    /// Longitude in microdegrees, valid in `[-LON_LIMIT, LON_LIMIT]`.
    pub longitude: i64,
}

/// A latitude is valid when it lies between the poles, inclusive.
pub open spec fn valid_latitude(lat: int) -> bool {
    -(LAT_LIMIT as int) <= lat <= LAT_LIMIT as int
}

/// A longitude is valid when it lies within half a turn of the prime
/// meridian, inclusive on both ends.
pub open spec fn valid_longitude(lon: int) -> bool {
    -(LON_LIMIT as int) <= lon <= LON_LIMIT as int
}

/// The fraction of the texture height below the top edge, as a numerator
/// over [`UV_DENOM`]: `90` degrees maps to `0`, `0` to one half, `-90`
/// degrees to the full denominator. Both linear pieces of the map share
/// this closed form.
pub open spec fn latitude_v_num(lat: int) -> int {
    2 * (LAT_LIMIT as int - lat)
}

/// The fraction of the texture width right of the left edge, as a
/// numerator over [`UV_DENOM`]: `-180` degrees maps to `0`, `0` to one
/// half, `180` degrees to the full denominator.
pub open spec fn longitude_u_num(lon: int) -> int {
    lon + LON_LIMIT as int
}

impl Coordinates {
    /// Both stored angles lie in their valid ranges.
    pub open spec fn valid(self) -> bool {
        valid_latitude(self.latitude as int) && valid_longitude(self.longitude as int)
    }

    /// Builds a coordinate from latitude and longitude given in
    /// microdegrees, rejecting either angle when it lies out of range.
    /// Out-of-range input is an error, never clamped.
    pub fn from_degrees(latitude: i64, longitude: i64) -> (r: Result<Coordinates, CoordError>)
        ensures
            r is Ok <==> valid_latitude(latitude as int) && valid_longitude(longitude as int),
            r matches Ok(c) ==> c.latitude == latitude && c.longitude == longitude && c.valid(),
    {
        if latitude < -LAT_LIMIT || latitude > LAT_LIMIT {
            return Err(CoordError { msg: "Invalid latitude".to_string() });
        }
        if longitude < -LON_LIMIT || longitude > LON_LIMIT {
            return Err(CoordError { msg: "Invalid longitude".to_string() });
        }
        Ok(Coordinates { latitude, longitude })
    }

    /// Returns the stored angles as a `(latitude, longitude)` pair in
    /// microdegrees.
    pub fn as_degrees(&self) -> (r: (i64, i64))
        ensures
            r.0 == self.latitude,
            r.1 == self.longitude,
    {
        (self.latitude, self.longitude)
    }

    /// Maps this coordinate into texture space, returning `(u, v)`
    /// numerators over [`UV_DENOM`].
    pub fn convert_to_uv_mercator(&self) -> (r: (i64, i64))
        requires
            self.valid(),
        ensures
            r.0 == longitude_u_num(self.longitude as int),
            r.1 == latitude_v_num(self.latitude as int),
            0 <= r.0 <= UV_DENOM,
            0 <= r.1 <= UV_DENOM,
    {
        let v = match map_latitude(self.latitude) {
            Ok(v) => v,
            Err(_) => 0,  // unreachable: the latitude is valid
        };
        let u = match map_longitude(self.longitude) {
            Ok(u) => u,
            Err(_) => 0,  // unreachable: the longitude is valid
        };
        (u, v)
    }
}

/// Linear interpolation carrying `range_a` onto `range_b`:
/// `range_a.0` maps to `range_b.0`, `range_a.1` to `range_b.1`, and
/// every value in between follows the line through those two points.
/// Exact whenever the slope is an integer, as it is for both texture
/// maps below.
pub open spec fn linear_map(range_a: (int, int), range_b: (int, int), value: int) -> int {
    range_b.0 + (value - range_a.0) * ((range_b.1 - range_b.0) / (range_a.1 - range_a.0))
}

/// Maps a latitude in microdegrees onto the vertical texture axis:
/// `[90, 0]` degrees onto `[0.0, 0.5]` and `[0, -90]` degrees onto
/// `[0.5, 1.0]`, each piece linear, as a numerator over [`UV_DENOM`].
/// An out-of-range latitude is rejected.
pub fn map_latitude(lat: i64) -> (r: Result<i64, CoordError>)
    ensures
        r is Ok <==> valid_latitude(lat as int),
        r matches Ok(v) ==> v == latitude_v_num(lat as int) && 0 <= v <= UV_DENOM,
        r matches Ok(v) ==> lat >= 0 ==> v == linear_map(
            (LAT_LIMIT as int, 0),
            (0, UV_DENOM as int / 2),
            lat as int,
        ),
        r matches Ok(v) ==> lat <= 0 ==> v == linear_map(
            (0, -(LAT_LIMIT as int)),
            (UV_DENOM as int / 2, UV_DENOM as int),
            lat as int,
        ),
{
    if lat < -LAT_LIMIT || lat > LAT_LIMIT {
        return Err(CoordError { msg: "Invalid latitude".to_string() });
    }
    proof {
        // Both pieces of the map share the integer slope -2.
        assert((UV_DENOM as int / 2 - 0) / (0 - LAT_LIMIT as int) == -2) by (nonlinear_arith);
        assert((UV_DENOM as int - UV_DENOM as int / 2) / (-(LAT_LIMIT as int) - 0) == -2)
            by (nonlinear_arith);
        assert(linear_map((LAT_LIMIT as int, 0), (0, UV_DENOM as int / 2), lat as int)
            == 0 + (lat as int - LAT_LIMIT as int) * -2);
        assert(linear_map((0, -(LAT_LIMIT as int)), (UV_DENOM as int / 2, UV_DENOM as int), lat as int)
            == 180_000_000 + (lat as int) * -2);
    }
    Ok(2 * (LAT_LIMIT - lat))
}

/// Maps a longitude in microdegrees onto the horizontal texture axis:
/// `[-180, 0]` degrees onto `[0.0, 0.5]` and `[0, 180]` degrees onto
/// `[0.5, 1.0]`, each piece linear, as a numerator over [`UV_DENOM`].
/// An out-of-range longitude is rejected.
pub fn map_longitude(lon: i64) -> (r: Result<i64, CoordError>)
    ensures
        r is Ok <==> valid_longitude(lon as int),
        r matches Ok(u) ==> u == longitude_u_num(lon as int) && 0 <= u <= UV_DENOM,
        r matches Ok(u) ==> lon <= 0 ==> u == linear_map(
            (-(LON_LIMIT as int), 0),
            (0, UV_DENOM as int / 2),
            lon as int,
        ),
        r matches Ok(u) ==> lon >= 0 ==> u == linear_map(
            (0, LON_LIMIT as int),
            (UV_DENOM as int / 2, UV_DENOM as int),
            lon as int,
        ),
{
    if lon < -LON_LIMIT || lon > LON_LIMIT {
        return Err(CoordError { msg: "Invalid longitude".to_string() });
    }
    proof {
        // Both pieces of the map share the integer slope 1.
        assert((UV_DENOM as int / 2 - 0) / (0 - -(LON_LIMIT as int)) == 1) by (nonlinear_arith);
        assert((UV_DENOM as int - UV_DENOM as int / 2) / (LON_LIMIT as int - 0) == 1)
            by (nonlinear_arith);
        assert(linear_map((-(LON_LIMIT as int), 0), (0, UV_DENOM as int / 2), lon as int)
            == 0 + (lon as int + LON_LIMIT as int) * 1);
        assert(linear_map((0, LON_LIMIT as int), (UV_DENOM as int / 2, UV_DENOM as int), lon as int)
            == 180_000_000 + lon as int * 1);
    }
    Ok(lon + LON_LIMIT)
}

/// Both texture maps are monotonic over their whole domain: moving
/// north strictly lowers `v`, moving east strictly raises `u`.
pub proof fn lemma_uv_maps_monotonic(a: int, b: int)
    requires
        a < b,
    ensures
        latitude_v_num(a) > latitude_v_num(b),
        longitude_u_num(a) < longitude_u_num(b),
{
}

} // verus!
