//! One tile of a subdivided cube-sphere face.
//!
//! A face is named by an axis-aligned unit normal with integer
//! components. Its two tangent axes and every grid point on the face are
//! exact integer computations; a grid point is a vector of numerators
//! over a common denominator. Projecting that point onto the sphere
//! (normalizing and taking a latitude and longitude) is transcendental
//! and belongs to the host; the host hands the resulting coordinates and
//! elevation samples back, and [`generate_face`] assembles the verified
//! part of the mesh: texture coordinates with seam correction, vertex
//! radii with the elevation fallback, and the grid triangulation.

use vstd::prelude::*;

use crate::geodesy::{Coordinates, latitude_v_num, longitude_u_num, LON_LIMIT};
use crate::raster::{displace_radius, displaced_radius_num, sample_displaces, RasterSample};

verus! {

/// Denominator of the fractional tile offsets: an offset numerator of
/// `OFFSET_DENOM` selects a whole face-width of displacement.
pub const OFFSET_DENOM: i64 = 1000;

/// Latitude bound (microdegrees) inside which the wraparound seam
/// correction applies; vertices closer to a pole than one degree keep
/// their natural texture coordinate.
pub const SEAM_LAT_LIMIT: i64 = 89_000_000;

/// Latitude (microdegrees) below which the southern edge-seam correction
/// applies to first-column vertices sitting on the antimeridian.
pub const SOUTH_SEAM_LAT: i64 = -40_000_000;

/// A 3D vector with integer components: a face normal, a tangent axis,
/// or the numerators of a cube grid point.
#[derive(Debug, Clone, Copy, PartialEq, Eq, Structural)]
pub struct GridVec {
    pub x: i64,
    pub y: i64,
    pub z: i64,
}

/// The six cube-face normals: exactly one component is `1` or `-1`.
pub open spec fn is_unit_axis(v: GridVec) -> bool {
    ||| (v.x == 1 || v.x == -1) && v.y == 0 && v.z == 0
    ||| v.x == 0 && (v.y == 1 || v.y == -1) && v.z == 0
    ||| v.x == 0 && v.y == 0 && (v.z == 1 || v.z == -1)
}

/// The first tangent axis of a face: the normal's components rotated.
pub open spec fn axis_a_spec(n: GridVec) -> (int, int, int) {
    (n.y as int, n.z as int, n.x as int)
}

/// The cross product of two vectors, componentwise over the integers.
pub open spec fn cross_spec(a: (int, int, int), b: (int, int, int)) -> (int, int, int) {
    (a.1 * b.2 - a.2 * b.1, a.2 * b.0 - a.0 * b.2, a.0 * b.1 - a.1 * b.0)
}

/// The dot product of two vectors.
pub open spec fn dot_spec(a: (int, int, int), b: (int, int, int)) -> int {
    a.0 * b.0 + a.1 * b.1 + a.2 * b.2
}

/// The second tangent axis of a face: the first axis crossed with the
/// normal.
pub open spec fn axis_b_spec(n: GridVec) -> (int, int, int) {
    cross_spec(axis_a_spec(n), (n.x as int, n.y as int, n.z as int))
}

/// Computes the first (horizontal) tangent axis of the face with normal
/// `normal`.
pub fn axis_a(normal: &GridVec) -> (r: GridVec)
    ensures
        (r.x as int, r.y as int, r.z as int) == axis_a_spec(*normal),
{
    GridVec { x: normal.y, y: normal.z, z: normal.x }
}

/// Computes the cross product of two small integer vectors.
pub fn cross(a: &GridVec, b: &GridVec) -> (r: GridVec)
    requires
        -0x4000_0000 <= a.x <= 0x4000_0000,
        -0x4000_0000 <= a.y <= 0x4000_0000,
        -0x4000_0000 <= a.z <= 0x4000_0000,
        -0x4000_0000 <= b.x <= 0x4000_0000,
        -0x4000_0000 <= b.y <= 0x4000_0000,
        -0x4000_0000 <= b.z <= 0x4000_0000,
    ensures
        (r.x as int, r.y as int, r.z as int) == cross_spec(
            (a.x as int, a.y as int, a.z as int),
            (b.x as int, b.y as int, b.z as int),
        ),
{
    proof {
        assert forall|p: i64, q: i64|
            -0x4000_0000 <= p <= 0x4000_0000 && -0x4000_0000 <= q <= 0x4000_0000 implies -0x1000_0000_0000_0000
            <= #[trigger] (p * q) <= 0x1000_0000_0000_0000 by {
            assert(-0x1000_0000_0000_0000 <= p * q <= 0x1000_0000_0000_0000) by (nonlinear_arith)
                requires
                    -0x4000_0000 <= p <= 0x4000_0000,
                    -0x4000_0000 <= q <= 0x4000_0000,
            ;
        }
    }
    GridVec {
        x: a.y * b.z - a.z * b.y,
        y: a.z * b.x - a.x * b.z,
        z: a.x * b.y - a.y * b.x,
    }
}

/// Computes the second (vertical) tangent axis of the face with normal
/// `normal`.
pub fn axis_b(normal: &GridVec) -> (r: GridVec)
    requires
        is_unit_axis(*normal),
    ensures
        (r.x as int, r.y as int, r.z as int) == axis_b_spec(*normal),
{
    let a = axis_a(normal);
    cross(&a, normal)
}

/// A cross product is orthogonal to both of its factors.
pub proof fn lemma_cross_orthogonal(a: (int, int, int), b: (int, int, int))
    ensures
        dot_spec(cross_spec(a, b), a) == 0,
        dot_spec(cross_spec(a, b), b) == 0,
{
    assert(dot_spec(cross_spec(a, b), a) == 0 && dot_spec(cross_spec(a, b), b) == 0)
        by (nonlinear_arith);
}

/// For each face normal, both tangent axes are again axis-aligned unit
/// vectors, and the normal and the two axes are mutually orthogonal: the
/// grid walks a flat cube face.
pub proof fn lemma_face_axes_unit(n: GridVec)
    requires
        is_unit_axis(n),
    ensures
        is_unit_axis(GridVec { x: n.y, y: n.z, z: n.x }),
        is_unit_axis(
            GridVec {
                x: (axis_b_spec(n).0) as i64,
                y: (axis_b_spec(n).1) as i64,
                z: (axis_b_spec(n).2) as i64,
            },
        ),
        dot_spec(axis_a_spec(n), (n.x as int, n.y as int, n.z as int)) == 0,
        dot_spec(axis_b_spec(n), (n.x as int, n.y as int, n.z as int)) == 0,
        dot_spec(axis_b_spec(n), axis_a_spec(n)) == 0,
{
    lemma_cross_orthogonal(axis_a_spec(n), (n.x as int, n.y as int, n.z as int));
    let b = axis_b_spec(n);
    assert(dot_spec(axis_a_spec(n), (n.x as int, n.y as int, n.z as int)) == n.y as int
        * n.x as int + n.z as int * n.y as int + n.x as int * n.z as int);
    assert(n.y as int * n.x as int + n.z as int * n.y as int + n.x as int * n.z as int == 0)
        by (nonlinear_arith)
        requires
            is_unit_axis(n),
    ;
    assert(b.0 == n.z as int * n.z as int - n.x as int * n.y as int);
    assert(b.1 == n.x as int * n.x as int - n.y as int * n.z as int);
    assert(b.2 == n.y as int * n.y as int - n.z as int * n.x as int);
    assert(b.0 == n.z as int * n.z as int - n.x as int * n.y as int
        && b.1 == n.x as int * n.x as int - n.y as int * n.z as int
        && b.2 == n.y as int * n.y as int - n.z as int * n.x as int
        && is_unit_axis(n) ==> is_unit_axis(GridVec { x: b.0 as i64, y: b.1 as i64, z: b.2 as i64 }))
        by (nonlinear_arith)
        requires
            is_unit_axis(n),
            b == axis_b_spec(n),
    ;
}

/// The numerators of one cube grid point over the denominator
/// `(resolution - 1) * OFFSET_DENOM`: the face normal, displaced along
/// the two tangent axes by the grid fraction minus the tile offset.
pub open spec fn cube_point_spec(
    n: GridVec,
    resolution: int,
    x: int,
    y: int,
    x_offset: int,
    y_offset: int,
) -> (int, int, int) {
    let a = axis_a_spec(n);
    let b = axis_b_spec(n);
    let den = (resolution - 1) * OFFSET_DENOM as int;
    let sx = x * OFFSET_DENOM as int - x_offset * (resolution - 1);
    let sy = y * OFFSET_DENOM as int - y_offset * (resolution - 1);
    (
        n.x as int * den + sx * a.0 + sy * b.0,
        n.y as int * den + sx * a.1 + sy * b.1,
        n.z as int * den + sx * a.2 + sy * b.2,
    )
}

/// Computes the cube grid point `(x, y)` of a `resolution`-by-
/// `resolution` tile with the given fractional offsets, as numerators
/// over the returned denominator. Dividing the numerators by the
/// denominator gives the exact point
/// `normal + (x / (resolution - 1) - x_offset / OFFSET_DENOM) * axis_a
///         + (y / (resolution - 1) - y_offset / OFFSET_DENOM) * axis_b`.
pub fn cube_point(
    normal: &GridVec,
    resolution: u32,
    x: u32,
    y: u32,
    x_offset: i64,
    y_offset: i64,
) -> (r: (GridVec, i64))
    requires
        is_unit_axis(*normal),
        2 <= resolution <= 0xFFFF,
        x < resolution,
        y < resolution,
        0 <= x_offset <= OFFSET_DENOM,
        0 <= y_offset <= OFFSET_DENOM,
    ensures
        r.1 == (resolution - 1) * OFFSET_DENOM as int,
        (r.0.x as int, r.0.y as int, r.0.z as int) == cube_point_spec(
            *normal,
            resolution as int,
            x as int,
            y as int,
            x_offset as int,
            y_offset as int,
        ),
{
    let side: i64 = resolution as i64 - 1;
    let den: i64 = side * OFFSET_DENOM;
    proof {
        assert(0 <= x_offset * side <= 65_534_000 && 0 <= y_offset * side <= 65_534_000)
            by (nonlinear_arith)
            requires
                0 <= x_offset <= 1000,
                0 <= y_offset <= 1000,
                0 <= side <= 65534,
        ;
    }
    let sx: i64 = x as i64 * OFFSET_DENOM - x_offset * side;
    let sy: i64 = y as i64 * OFFSET_DENOM - y_offset * side;
    let a = axis_a(normal);
    let b = axis_b(normal);
    proof {
        assert forall|p: i64, q: i64|
            -0x4000_0000 <= p <= 0x4000_0000 && -0x4000_0000 <= q <= 0x4000_0000 implies -0x1000_0000_0000_0000
            <= #[trigger] (p * q) <= 0x1000_0000_0000_0000 by {
            assert(-0x1000_0000_0000_0000 <= p * q <= 0x1000_0000_0000_0000) by (nonlinear_arith)
                requires
                    -0x4000_0000 <= p <= 0x4000_0000,
                    -0x4000_0000 <= q <= 0x4000_0000,
            ;
        }
        lemma_face_axes_unit(*normal);
    }
    let point = GridVec {
        x: normal.x * den + sx * a.x + sy * b.x,
        y: normal.y * den + sx * a.y + sy * b.y,
        z: normal.z * den + sx * a.z + sy * b.z,
    };
    (point, den)
}

/// The face normal of slot `f` of the cube: the six axis-aligned unit
/// vectors in a fixed order.
pub open spec fn face_normal_spec(f: int) -> GridVec {
    if f == 0 {
        GridVec { x: 1, y: 0, z: 0 }
    } else if f == 1 {
        GridVec { x: -1i64, y: 0, z: 0 }
    } else if f == 2 {
        GridVec { x: 0, y: 1, z: 0 }
    } else if f == 3 {
        GridVec { x: 0, y: -1i64, z: 0 }
    } else if f == 4 {
        GridVec { x: 0, y: 0, z: 1 }
    } else {
        GridVec { x: 0, y: 0, z: -1i64 }
    }
}

/// The fractional tile offset of slot `o`: the four corners of a 2-by-2
/// subdivision, as numerators over [`OFFSET_DENOM`].
pub open spec fn tile_offset_spec(o: int) -> (int, int) {
    if o == 0 {
        (0, 0)
    } else if o == 1 {
        (0, OFFSET_DENOM as int)
    } else if o == 2 {
        (OFFSET_DENOM as int, 0)
    } else {
        (OFFSET_DENOM as int, OFFSET_DENOM as int)
    }
}

/// Enumerates the 24 tiles of the whole globe: each of the six cube
/// faces subdivided into its four offset quadrants, faces outermost.
/// Every listed normal is a unit axis, so each entry satisfies
/// [`cube_point`]'s and [`generate_face`]'s expectations.
pub fn face_tiles() -> (r: Vec<(GridVec, i64, i64)>)
    ensures
        r@.len() == 24,
        forall|f: int, o: int|
            0 <= f < 6 && 0 <= o < 4 ==> #[trigger] r@[4 * f + o] == (
                face_normal_spec(f),
                tile_offset_spec(o).0 as i64,
                tile_offset_spec(o).1 as i64,
            ),
        forall|t: int| 0 <= t < 24 ==> is_unit_axis((#[trigger] r@[t]).0),
{
    let mut tiles: Vec<(GridVec, i64, i64)> = Vec::new();
    let mut f: usize = 0;
    while f < 6
        invariant
            0 <= f <= 6,
            tiles@.len() == 4 * f,
            forall|ff: int, o: int|
                0 <= ff < f && 0 <= o < 4 ==> #[trigger] tiles@[4 * ff + o] == (
                    face_normal_spec(ff),
                    tile_offset_spec(o).0 as i64,
                    tile_offset_spec(o).1 as i64,
                ),
        decreases 6 - f,
    {
        let normal = if f == 0 {
            GridVec { x: 1, y: 0, z: 0 }
        } else if f == 1 {
            GridVec { x: -1, y: 0, z: 0 }
        } else if f == 2 {
            GridVec { x: 0, y: 1, z: 0 }
        } else if f == 3 {
            GridVec { x: 0, y: -1, z: 0 }
        } else if f == 4 {
            GridVec { x: 0, y: 0, z: 1 }
        } else {
            GridVec { x: 0, y: 0, z: -1 }
        };
        let mut o: usize = 0;
        while o < 4
            invariant
                0 <= o <= 4,
                0 <= f < 6,
                normal == face_normal_spec(f as int),
                tiles@.len() == 4 * f + o,
                forall|ff: int, oo: int|
                    0 <= ff < f && 0 <= oo < 4 ==> #[trigger] tiles@[4 * ff + oo] == (
                        face_normal_spec(ff),
                        tile_offset_spec(oo).0 as i64,
                        tile_offset_spec(oo).1 as i64,
                    ),
                forall|oo: int|
                    0 <= oo < o ==> #[trigger] tiles@[4 * (f as int) + oo] == (
                        face_normal_spec(f as int),
                        tile_offset_spec(oo).0 as i64,
                        tile_offset_spec(oo).1 as i64,
                    ),
            decreases 4 - o,
        {
            let off: (i64, i64) = if o == 0 {
                (0, 0)
            } else if o == 1 {
                (0, OFFSET_DENOM)
            } else if o == 2 {
                (OFFSET_DENOM, 0)
            } else {
                (OFFSET_DENOM, OFFSET_DENOM)
            };
            tiles.push((normal, off.0, off.1));
            o = o + 1;
        }
        f = f + 1;
    }
    proof {
        assert forall|t: int| 0 <= t < 24 implies is_unit_axis((#[trigger] tiles@[t]).0) by {
            let f = t / 4;
            let o = t % 4;
            assert(t == 4 * f + o);
            assert(tiles@[4 * f + o] == (
                face_normal_spec(f),
                tile_offset_spec(o).0 as i64,
                tile_offset_spec(o).1 as i64,
            ));
        }
    }
    tiles
}

/// The verified buffers of one face tile: texture numerators over
/// [`crate::geodesy::UV_DENOM`], vertex radius numerators over the height divisor, and
/// the triangle indices of the grid. Positions and normals are the
/// host's floating-point projection of the same grid points.
pub struct FaceMesh {
    pub uvs: Vec<(i64, i64)>,
    pub radii: Vec<i64>,
    pub indices: Vec<u32>,
}

/// The wraparound seam correction: the tile started on a negative
/// longitude, this vertex crossed to a positive one, and it is not
/// within a degree of a pole.
pub open spec fn seam_crossing(first_lon: int, lat: int, lon: int) -> bool {
    first_lon < 0 && lon > 0 && -(SEAM_LAT_LIMIT as int) < lat < SEAM_LAT_LIMIT as int
}

/// The southern edge-seam correction: a first-column vertex sitting
/// exactly on the antimeridian, south of the cutoff latitude.
pub open spec fn south_edge_seam(lat: int, lon: int, x: int) -> bool {
    x == 0 && lon == LON_LIMIT as int && lat < SOUTH_SEAM_LAT as int
}

/// The horizontal texture numerator of a vertex after seam correction:
/// zero where either correction fires, the natural map otherwise.
pub open spec fn corrected_u(first_lon: int, lat: int, lon: int, x: int) -> int {
    if seam_crossing(first_lon, lat, lon) || south_edge_seam(lat, lon, x) {
        0
    } else {
        longitude_u_num(lon)
    }
}

/// Entry `k` (of 6) of the two triangles of grid cell `c`: the cell's
/// corner vertex is `i = c % (resolution - 1) + (c / (resolution - 1)) *
/// resolution`, and the triangles are `(i, i + resolution,
/// i + resolution + 1)` and `(i, i + resolution + 1, i + 1)`.
pub open spec fn cell_tri_index(resolution: int, c: int, k: int) -> int {
    let x = c % (resolution - 1);
    let y = c / (resolution - 1);
    let i = x + y * resolution;
    if k == 0 {
        i
    } else if k == 1 {
        i + resolution
    } else if k == 2 {
        i + resolution + 1
    } else if k == 3 {
        i
    } else if k == 4 {
        i + resolution + 1
    } else {
        i + 1
    }
}

/// Assembles the verified part of one face tile from the per-vertex
/// coordinates and elevation samples the host computed, row by row:
/// texture coordinates with both seam corrections, vertex radii under
/// the elevation fallback policy, and the grid triangulation. Geometry
/// generation always succeeds for well-formed inputs; a failed sample
/// only flattens its own vertex.
#[verifier::loop_isolation(false)]
pub fn generate_face(
    geo: &Vec<Coordinates>,
    samples: &Vec<RasterSample>,
    resolution: usize,
    base_radius: i64,
    height_divisor: i64,
) -> (r: FaceMesh)
    requires
        2 <= resolution <= 0xFFFF,
        geo.len() == resolution * resolution,
        samples.len() == geo.len(),
        forall|i: int| 0 <= i < geo.len() ==> (#[trigger] geo@[i]).valid(),
        0 <= base_radius <= 1_000_000,
        1 <= height_divisor <= 1_000_000,
        forall|i: int|
            0 <= i < samples.len() ==> ((#[trigger] samples@[i]) matches RasterSample::Value(v)
                ==> -0x1000_0000_0000_0000 <= v <= 0x1000_0000_0000_0000),
    ensures
        r.uvs.len() == geo.len(),
        r.radii.len() == geo.len(),
        r.indices.len() == 6 * (resolution - 1) * (resolution - 1),
        forall|i: int|
            0 <= i < geo.len() ==> (#[trigger] r.uvs@[i]).1 == latitude_v_num(
                geo@[i].latitude as int,
            ),
        forall|i: int|
            0 <= i < geo.len() ==> (#[trigger] r.uvs@[i]).0 == corrected_u(
                geo@[0].longitude as int,
                geo@[i].latitude as int,
                geo@[i].longitude as int,
                i % (resolution as int),
            ),
        forall|i: int|
            0 <= i < geo.len() ==> (#[trigger] r.radii@[i]) == displaced_radius_num(
                base_radius as int,
                height_divisor as int,
                samples@[i],
            ),
        forall|i: int|
            0 <= i < geo.len() && geo@[0].longitude < 0 && geo@[i].longitude > 0
                && -(SEAM_LAT_LIMIT as int) < geo@[i].latitude < SEAM_LAT_LIMIT as int ==> (
            #[trigger] r.uvs@[i]).0 == 0,
        forall|i: int|
            0 <= i < geo.len() && !sample_displaces(samples@[i]) ==> (#[trigger] r.radii@[i])
                == base_radius * height_divisor,
        forall|c: int, k: int|
            0 <= c < (resolution - 1) * (resolution - 1) && 0 <= k < 6
                ==> r.indices@[6 * c + k] as int == #[trigger] cell_tri_index(
                resolution as int,
                c,
                k,
            ),
        forall|j: int| 0 <= j < r.indices.len() ==> (#[trigger] r.indices@[j]) < geo.len(),
{
    let n = resolution;
    proof {
        assert(n * n <= 0xFFFF * 0xFFFF) by (nonlinear_arith)
            requires
                n <= 0xFFFF,
        ;
    }
    let total = n * n;
    proof {
        assert((n as int) * (n as int) >= 4) by (nonlinear_arith)
            requires
                2 <= n as int,
        ;
    }
    let first_lon: i64 = geo[0].longitude;
    let mut uvs: Vec<(i64, i64)> = Vec::new();
    let mut radii: Vec<i64> = Vec::new();
    let mut i: usize = 0;
    while i < total
        invariant
            i <= total,
            uvs.len() == i,
            radii.len() == i,
            forall|j: int|
                0 <= j < i ==> (#[trigger] uvs@[j]).1 == latitude_v_num(geo@[j].latitude as int),
            forall|j: int|
                0 <= j < i ==> (#[trigger] uvs@[j]).0 == corrected_u(
                    geo@[0].longitude as int,
                    geo@[j].latitude as int,
                    geo@[j].longitude as int,
                    j % (resolution as int),
                ),
            forall|j: int|
                0 <= j < i ==> (#[trigger] radii@[j]) == displaced_radius_num(
                    base_radius as int,
                    height_divisor as int,
                    samples@[j],
                ),
        decreases total - i,
    {
        let point = geo[i];
        let x = i % n;
        let (u_natural, v) = point.convert_to_uv_mercator();
        let mut u = u_natural;
        // Crossing from negative to positive longitude away from the
        // poles wraps the texture; pin the vertex to the left edge.
        if first_lon < 0 && point.longitude > 0 && point.latitude < SEAM_LAT_LIMIT
            && point.latitude > -SEAM_LAT_LIMIT {
            u = 0;
        }
        // A first-column vertex on the antimeridian deep in the southern
        // hemisphere wraps the same way.
        if x == 0 && point.longitude == LON_LIMIT && point.latitude < SOUTH_SEAM_LAT {
            u = 0;
        }
        let sample = samples[i];
        let radius = displace_radius(base_radius, height_divisor, &sample);
        uvs.push((u, v));
        radii.push(radius);
        i = i + 1;
    }
    let side = n - 1;
    proof {
        assert(side * side <= n * n) by (nonlinear_arith)
            requires
                0 <= side < n,
        ;
    }
    let cells = side * side;
    let mut indices: Vec<u32> = Vec::new();
    let mut c: usize = 0;
    while c < cells
        invariant
            c <= cells,
            indices.len() == 6 * c,
            forall|cc: int, k: int|
                0 <= cc < c && 0 <= k < 6 ==> indices@[6 * cc + k] as int
                    == #[trigger] cell_tri_index(resolution as int, cc, k),
            forall|j: int| 0 <= j < indices.len() ==> (#[trigger] indices@[j]) < total,
        decreases cells - c,
    {
        let x = c % side;
        let y = c / side;
        proof {
            assert(y as int <= side - 1) by (nonlinear_arith)
                requires
                    y as int == c as int / side as int,
                    0 <= c as int,
                    (c as int) < (side as int) * (side as int),
                    1 <= side as int,
            ;
            assert(0 <= (y as int) * (n as int) && (y as int) * (n as int) + x as int + n as int + 1
                <= (n as int) * (n as int) - 1) by (nonlinear_arith)
                requires
                    0 <= x as int <= side as int - 1,
                    0 <= y as int <= side as int - 1,
                    side as int == n as int - 1,
                    2 <= n as int,
            ;
        }
        let corner = x + y * n;
        indices.push(corner as u32);
        indices.push((corner + n) as u32);
        indices.push((corner + n + 1) as u32);
        indices.push(corner as u32);
        indices.push((corner + n + 1) as u32);
        indices.push((corner + 1) as u32);
        proof {
            assert forall|k: int| 0 <= k < 6 implies indices@[6 * (c as int) + k] as int
                == #[trigger] cell_tri_index(resolution as int, c as int, k) by {
                assert(indices@[6 * (c as int) + 0] == corner as u32);
                assert(indices@[6 * (c as int) + 1] == (corner + n) as u32);
                assert(indices@[6 * (c as int) + 2] == (corner + n + 1) as u32);
                assert(indices@[6 * (c as int) + 3] == corner as u32);
                assert(indices@[6 * (c as int) + 4] == (corner + n + 1) as u32);
                assert(indices@[6 * (c as int) + 5] == (corner + 1) as u32);
            }
        }
        c = c + 1;
    }
    proof {
        assert(6 * ((side as int) * (side as int)) == 6 * (resolution as int - 1) * (resolution
            as int - 1)) by (nonlinear_arith)
            requires
                side as int == resolution as int - 1,
        ;
    }
    FaceMesh { uvs, radii, indices }
}

/// A fixed demonstration mesh: three vertices in integer world units
/// with upward normals and constant texture corners, forming a single
/// triangle. Useful as a stand-in while wiring a host renderer.
pub struct TriangleMesh {
    pub positions: Vec<(i64, i64, i64)>,
    pub normals: Vec<(i64, i64, i64)>,
    pub uvs: Vec<(i64, i64)>,
    pub indices: Vec<u32>,
}

/// Builds the fixed demonstration triangle. The three per-vertex
/// buffers share one length and every index references a vertex the
/// buffers hold.
pub fn generate_mesh() -> (r: TriangleMesh)
    ensures
        r.positions@ == seq![(0i64, 0i64, 0i64), (1i64, 2i64, 1i64), (2i64, 0i64, 0i64)],
        r.normals@ == seq![(0i64, 1i64, 0i64), (0i64, 1i64, 0i64), (0i64, 1i64, 0i64)],
        r.uvs@ == seq![(1i64, 1i64), (1i64, 1i64), (1i64, 1i64)],
        r.indices@ == seq![0u32, 2u32, 1u32],
        r.normals@.len() == r.positions@.len() && r.uvs@.len() == r.positions@.len(),
        forall|j: int|
            0 <= j < r.indices@.len() ==> (#[trigger] r.indices@[j]) < r.positions@.len(),
{
    let mut positions: Vec<(i64, i64, i64)> = Vec::new();
    let mut normals: Vec<(i64, i64, i64)> = Vec::new();
    let mut uvs: Vec<(i64, i64)> = Vec::new();
    let mut indices: Vec<u32> = Vec::new();
    positions.push((0, 0, 0));
    positions.push((1, 2, 1));
    positions.push((2, 0, 0));
    normals.push((0, 1, 0));
    normals.push((0, 1, 0));
    normals.push((0, 1, 0));
    uvs.push((1, 1));
    uvs.push((1, 1));
    uvs.push((1, 1));
    indices.push(0);
    indices.push(2);
    indices.push(1);
    proof {
        assert(positions@ =~= seq![(0i64, 0i64, 0i64), (1i64, 2i64, 1i64), (2i64, 0i64, 0i64)]);
        assert(normals@ =~= seq![(0i64, 1i64, 0i64), (0i64, 1i64, 0i64), (0i64, 1i64, 0i64)]);
        assert(uvs@ =~= seq![(1i64, 1i64), (1i64, 1i64), (1i64, 1i64)]);
        assert(indices@ =~= seq![0u32, 2u32, 1u32]);
    }
    TriangleMesh { positions, normals, uvs, indices }
}

} // verus!
