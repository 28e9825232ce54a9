use earth_globe::face::{
    axis_a, axis_b, cube_point, face_tiles, generate_face, generate_mesh, GridVec,
    SEAM_LAT_LIMIT, SOUTH_SEAM_LAT,
};
use earth_globe::geodesy::{Coordinates, LON_LIMIT, MICRODEG, UV_DENOM};
use earth_globe::raster::{displace_radius, raster_pixel, RasterSample};
use earth_globe::ribbon::build_ribbon;

const BASE_RADIUS: i64 = 300;
const HEIGHT_DIVISOR: i64 = 300;

fn flat_grid(resolution: usize, latitudes: &[i64], longitudes: &[i64]) -> Vec<Coordinates> {
    let mut grid = Vec::new();
    for i in 0..resolution * resolution {
        grid.push(Coordinates::from_degrees(latitudes[i], longitudes[i]).unwrap());
    }
    grid
}

#[test]
fn face_mesh_has_grid_counts_and_indices() {
    let r = 3usize;
    let lat = vec![0; 9];
    let lon = vec![10 * MICRODEG; 9];
    let geo = flat_grid(r, &lat, &lon);
    let samples = vec![RasterSample::NoData; 9];
    let mesh = generate_face(&geo, &samples, r, BASE_RADIUS, HEIGHT_DIVISOR);
    // A resolution-r tile has exactly r*r vertices and 6*(r-1)*(r-1)
    // indices.
    assert_eq!(mesh.uvs.len(), 9);
    assert_eq!(mesh.radii.len(), 9);
    assert_eq!(mesh.indices.len(), 24);
    // Two triangles per cell, in row-major cell order.
    assert_eq!(&mesh.indices[0..6], &[0, 3, 4, 0, 4, 1]);
    assert_eq!(&mesh.indices[6..12], &[1, 4, 5, 1, 5, 2]);
    assert_eq!(&mesh.indices[12..18], &[3, 6, 7, 3, 7, 4]);
    assert_eq!(&mesh.indices[18..24], &[4, 7, 8, 4, 8, 5]);
    for &ix in mesh.indices.iter() {
        assert!((ix as usize) < 9);
    }
}

#[test]
fn face_mesh_elevation_fallback() {
    let r = 2usize;
    let lat = vec![0; 4];
    let lon = vec![0; 4];
    let geo = flat_grid(r, &lat, &lon);
    let samples = vec![
        RasterSample::Value(600),
        RasterSample::Value(-25),
        RasterSample::NoData,
        RasterSample::Failed,
    ];
    let mesh = generate_face(&geo, &samples, r, BASE_RADIUS, HEIGHT_DIVISOR);
    let flat = BASE_RADIUS * HEIGHT_DIVISOR;
    // Only the positive sample displaces its vertex; a negative sample,
    // missing data and a failed read all sit exactly on the base sphere.
    assert_eq!(mesh.radii[0], flat + 600);
    assert_eq!(mesh.radii[1], flat);
    assert_eq!(mesh.radii[2], flat);
    assert_eq!(mesh.radii[3], flat);
}

#[test]
fn face_mesh_seam_correction_zeroes_u_after_the_crossing() {
    let r = 2usize;
    // The tile starts west of the prime meridian and crosses it: the
    // eastern vertices get their u pinned to the left texture edge.
    let lat = vec![10 * MICRODEG; 4];
    let lon = vec![-5 * MICRODEG, 5 * MICRODEG, -5 * MICRODEG, 5 * MICRODEG];
    let geo = flat_grid(r, &lat, &lon);
    let samples = vec![RasterSample::NoData; 4];
    let mesh = generate_face(&geo, &samples, r, BASE_RADIUS, HEIGHT_DIVISOR);
    let natural_west = -5 * MICRODEG + LON_LIMIT;
    assert_eq!(mesh.uvs[0].0, natural_west);
    assert_eq!(mesh.uvs[1].0, 0);
    assert_eq!(mesh.uvs[2].0, natural_west);
    assert_eq!(mesh.uvs[3].0, 0);
    // v is untouched by the correction.
    assert_eq!(mesh.uvs[1].1, 2 * (90 * MICRODEG - 10 * MICRODEG));
}

#[test]
fn face_mesh_seam_correction_skips_the_poles() {
    let r = 2usize;
    // Same crossing, but at 89.5 degrees north: the correction must not
    // fire.
    let near_pole = SEAM_LAT_LIMIT + 500_000;
    let lat = vec![near_pole; 4];
    let lon = vec![-5 * MICRODEG, 5 * MICRODEG, -5 * MICRODEG, 5 * MICRODEG];
    let geo = flat_grid(r, &lat, &lon);
    let samples = vec![RasterSample::NoData; 4];
    let mesh = generate_face(&geo, &samples, r, BASE_RADIUS, HEIGHT_DIVISOR);
    assert_eq!(mesh.uvs[1].0, 5 * MICRODEG + LON_LIMIT);
}

#[test]
fn face_mesh_southern_edge_seam() {
    let r = 2usize;
    // First-column vertices on the antimeridian south of the cutoff get
    // u pinned to zero; the rest keep the natural map.
    let south = SOUTH_SEAM_LAT - 10 * MICRODEG;
    let lat = vec![south; 4];
    let lon = vec![LON_LIMIT, 90 * MICRODEG, LON_LIMIT, 90 * MICRODEG];
    let geo = flat_grid(r, &lat, &lon);
    let samples = vec![RasterSample::NoData; 4];
    let mesh = generate_face(&geo, &samples, r, BASE_RADIUS, HEIGHT_DIVISOR);
    assert_eq!(mesh.uvs[0].0, 0);
    assert_eq!(mesh.uvs[1].0, 90 * MICRODEG + LON_LIMIT);
    assert_eq!(mesh.uvs[2].0, 0);
    assert_eq!(mesh.uvs[3].0, UV_DENOM / 2 + 90 * MICRODEG);
}

#[test]
fn displace_radius_policy() {
    let flat = BASE_RADIUS * HEIGHT_DIVISOR;
    assert_eq!(displace_radius(BASE_RADIUS, HEIGHT_DIVISOR, &RasterSample::Value(5392)), flat + 5392);
    assert_eq!(displace_radius(BASE_RADIUS, HEIGHT_DIVISOR, &RasterSample::Value(0)), flat);
    assert_eq!(displace_radius(BASE_RADIUS, HEIGHT_DIVISOR, &RasterSample::Value(-4000)), flat);
    assert_eq!(displace_radius(BASE_RADIUS, HEIGHT_DIVISOR, &RasterSample::NoData), flat);
    assert_eq!(displace_radius(BASE_RADIUS, HEIGHT_DIVISOR, &RasterSample::Failed), flat);
}

#[test]
fn raster_pixel_truncates_toward_zero() {
    assert_eq!(raster_pixel(5, 0, 2), 2);
    assert_eq!(raster_pixel(-5, 0, 2), -2);
    assert_eq!(raster_pixel(7, 0, -2), -3);
    assert_eq!(raster_pixel(0, 10, -5), 2);
    assert_eq!(raster_pixel(1_000_000, 250_000, 250_000), 3);
}

#[test]
fn cube_point_exact_fractions() {
    let up = GridVec { x: 0, y: 1, z: 0 };
    // axis_a rotates the normal; axis_b closes the frame.
    let a = axis_a(&up);
    assert_eq!((a.x, a.y, a.z), (1, 0, 0));
    let b = axis_b(&up);
    assert_eq!((b.x, b.y, b.z), (0, 0, 1));
    // Grid point (2, 0) of a 3x3 tile with no offset: one full step
    // along the first axis.
    let (p, den) = cube_point(&up, 3, 2, 0, 0, 0);
    assert_eq!(den, 2000);
    assert_eq!((p.x, p.y, p.z), (2000, 2000, 0));
    // A whole-tile offset shifts the same point back to the face
    // center line.
    let (q, _) = cube_point(&up, 3, 2, 0, 1000, 0);
    assert_eq!((q.x, q.y, q.z), (0, 2000, 0));
}

#[test]
fn ribbon_counts_per_segment() {
    // k points make k-1 segments with 8 vertices and 12 indices each.
    let mesh = build_ribbon(5);
    assert_eq!(mesh.uvs.len(), 32);
    assert_eq!(mesh.indices.len(), 48);
    for &ix in mesh.indices.iter() {
        assert!((ix as usize) < 32);
    }
}

#[test]
fn ribbon_degenerate_inputs_yield_empty_meshes() {
    assert_eq!(build_ribbon(0).uvs.len(), 0);
    assert_eq!(build_ribbon(0).indices.len(), 0);
    assert_eq!(build_ribbon(1).uvs.len(), 0);
    assert_eq!(build_ribbon(1).indices.len(), 0);
}

#[test]
fn ribbon_index_pattern_front_and_back() {
    let mesh = build_ribbon(3);
    // Front triangles then the reversed back copy, per segment.
    assert_eq!(&mesh.indices[0..12], &[0, 1, 2, 0, 2, 3, 4, 6, 5, 4, 7, 6]);
    assert_eq!(&mesh.indices[12..24], &[8, 9, 10, 8, 10, 11, 12, 14, 13, 12, 15, 14]);
}

#[test]
fn ribbon_uv_corners_repeat_per_quad() {
    let mesh = build_ribbon(2);
    let corners = [(0, 0), (1, 0), (1, 1), (0, 1)];
    for v in 0..8 {
        assert_eq!(mesh.uvs[v], corners[v % 4]);
    }
}

#[test]
fn demo_mesh_buffers() {
    let mesh = generate_mesh();
    assert_eq!(mesh.positions, vec![(0, 0, 0), (1, 2, 1), (2, 0, 0)]);
    assert_eq!(mesh.normals, vec![(0, 1, 0), (0, 1, 0), (0, 1, 0)]);
    assert_eq!(mesh.uvs, vec![(1, 1), (1, 1), (1, 1)]);
    assert_eq!(mesh.indices, vec![0, 2, 1]);
    for &ix in mesh.indices.iter() {
        assert!((ix as usize) < mesh.positions.len());
    }
}

#[test]
fn face_tiles_enumerates_the_whole_cube() {
    let tiles = face_tiles();
    assert_eq!(tiles.len(), 24);
    // Faces outermost, the four quadrant offsets within each face.
    assert_eq!(tiles[0], (GridVec { x: 1, y: 0, z: 0 }, 0, 0));
    assert_eq!(tiles[1], (GridVec { x: 1, y: 0, z: 0 }, 0, 1000));
    assert_eq!(tiles[4], (GridVec { x: -1, y: 0, z: 0 }, 0, 0));
    assert_eq!(tiles[23], (GridVec { x: 0, y: 0, z: -1 }, 1000, 1000));
    // Every axis direction appears exactly four times.
    let count_x = tiles.iter().filter(|t| t.0.x != 0).count();
    let count_y = tiles.iter().filter(|t| t.0.y != 0).count();
    let count_z = tiles.iter().filter(|t| t.0.z != 0).count();
    assert_eq!((count_x, count_y, count_z), (8, 8, 8));
}
