//! The topology of a ribbon mesh: a double-sided strip of quads
//! following a polyline.
//!
//! Each consecutive point pair becomes one segment: a front-facing quad
//! of four vertices and two triangles, then a back-facing copy of the
//! same quad with reversed winding, so the ribbon is visible from both
//! sides. Vertices are duplicated per segment, never welded. The quad
//! corner positions and normals are floating-point offsets along the
//! segment's perpendicular and belong to the host; the vertex count,
//! texture corners and triangle indices are exact and live here.

use vstd::prelude::*;

verus! {

/// The verified buffers of a ribbon: one texture corner per vertex and
/// the triangle indices. The host pairs them with its computed
/// positions and normals, four front and four back vertices per
/// segment.
pub struct RibbonMesh {
    pub uvs: Vec<(u8, u8)>,
    pub indices: Vec<u32>,
}

/// The texture corner of vertex `t` of a quad: `(0,0)`, `(1,0)`,
/// `(1,1)`, `(0,1)` in winding order.
pub open spec fn quad_uv(t: int) -> (int, int) {
    if t == 0 {
        (0, 0)
    } else if t == 1 {
        (1, 0)
    } else if t == 2 {
        (1, 1)
    } else {
        (0, 1)
    }
}

/// Entry `m` (of 12) of the triangle indices of segment `s`: with base
/// vertex `b = 8 * s`, the front quad is `(b, b+1, b+2)` and
/// `(b, b+2, b+3)`, and the back copy reverses its winding as
/// `(b+4, b+6, b+5)` and `(b+4, b+7, b+6)`.
pub open spec fn ribbon_index(s: int, m: int) -> int {
    let b = 8 * s;
    if m == 0 {
        b
    } else if m == 1 {
        b + 1
    } else if m == 2 {
        b + 2
    } else if m == 3 {
        b
    } else if m == 4 {
        b + 2
    } else if m == 5 {
        b + 3
    } else if m == 6 {
        b + 4
    } else if m == 7 {
        b + 6
    } else if m == 8 {
        b + 5
    } else if m == 9 {
        b + 4
    } else if m == 10 {
        b + 7
    } else {
        b + 6
    }
}

/// Builds the ribbon topology for a polyline of `point_count` points.
/// Fewer than two points yield an empty mesh; otherwise each of the
/// `point_count - 1` segments contributes exactly 8 vertices and 12
/// indices, every index lands inside the vertex range, and the texture
/// corners repeat per quad.
pub fn build_ribbon(point_count: usize) -> (r: RibbonMesh)
    requires
        point_count <= 0x0FFF_FFFF,
    ensures
        point_count < 2 ==> r.uvs.len() == 0 && r.indices.len() == 0,
        point_count >= 2 ==> r.uvs.len() == 8 * (point_count - 1),
        point_count >= 2 ==> r.indices.len() == 12 * (point_count - 1),
        forall|q: int, t: int|
            0 <= q && 4 * q < r.uvs.len() && 0 <= t < 4 ==> ((#[trigger] r.uvs@[4 * q + t]).0
                as int, r.uvs@[4 * q + t].1 as int) == quad_uv(t),
        forall|s: int, m: int|
            0 <= s && 12 * s < r.indices.len() && 0 <= m < 12 ==> r.indices@[12 * s + m] as int
                == #[trigger] ribbon_index(s, m),
        forall|j: int| 0 <= j < r.indices.len() ==> (#[trigger] r.indices@[j]) < r.uvs.len(),
{
    let mut uvs: Vec<(u8, u8)> = Vec::new();
    let mut indices: Vec<u32> = Vec::new();
    if point_count < 2 {
        return RibbonMesh { uvs, indices };
    }
    let segments = point_count - 1;
    let mut s: usize = 0;
    while s < segments
        invariant
            0 <= s <= segments,
            segments == point_count - 1,
            point_count <= 0x0FFF_FFFF,
            uvs.len() == 8 * s,
            indices.len() == 12 * s,
            forall|q: int, t: int|
                0 <= q && 4 * q < uvs.len() && 0 <= t < 4 ==> ((#[trigger] uvs@[4 * q + t]).0
                    as int, uvs@[4 * q + t].1 as int) == quad_uv(t),
            forall|ss: int, m: int|
                0 <= ss && 12 * ss < indices.len() && 0 <= m < 12 ==> indices@[12 * ss + m] as int
                    == #[trigger] ribbon_index(ss, m),
            forall|j: int| 0 <= j < indices.len() ==> (#[trigger] indices@[j]) < uvs.len(),
        decreases segments - s,
    {
        let base = 8 * s;
        // Front-facing quad, then the back-facing copy of the same
        // corners.
        uvs.push((0, 0));
        uvs.push((1, 0));
        uvs.push((1, 1));
        uvs.push((0, 1));
        uvs.push((0, 0));
        uvs.push((1, 0));
        uvs.push((1, 1));
        uvs.push((0, 1));
        indices.push(base as u32);
        indices.push((base + 1) as u32);
        indices.push((base + 2) as u32);
        indices.push(base as u32);
        indices.push((base + 2) as u32);
        indices.push((base + 3) as u32);
        indices.push((base + 4) as u32);
        indices.push((base + 6) as u32);
        indices.push((base + 5) as u32);
        indices.push((base + 4) as u32);
        indices.push((base + 7) as u32);
        indices.push((base + 6) as u32);
        proof {
            assert forall|m: int| 0 <= m < 12 implies indices@[12 * (s as int) + m] as int
                == #[trigger] ribbon_index(s as int, m) by {
                assert(indices@[12 * (s as int) + 0] == base as u32);
                assert(indices@[12 * (s as int) + 1] == (base + 1) as u32);
                assert(indices@[12 * (s as int) + 2] == (base + 2) as u32);
                assert(indices@[12 * (s as int) + 3] == base as u32);
                assert(indices@[12 * (s as int) + 4] == (base + 2) as u32);
                assert(indices@[12 * (s as int) + 5] == (base + 3) as u32);
                assert(indices@[12 * (s as int) + 6] == (base + 4) as u32);
                assert(indices@[12 * (s as int) + 7] == (base + 6) as u32);
                assert(indices@[12 * (s as int) + 8] == (base + 5) as u32);
                assert(indices@[12 * (s as int) + 9] == (base + 4) as u32);
                assert(indices@[12 * (s as int) + 10] == (base + 7) as u32);
                assert(indices@[12 * (s as int) + 11] == (base + 6) as u32);
            }
            assert forall|q: int, t: int|
                0 <= q && 4 * q < uvs.len() && 0 <= t < 4 implies ((#[trigger] uvs@[4 * q + t]).0
                as int, uvs@[4 * q + t].1 as int) == quad_uv(t) by {
                if q == 2 * (s as int) || q == 2 * (s as int) + 1 {
                    assert(uvs@[8 * (s as int) + 0] == (0u8, 0u8));
                    assert(uvs@[8 * (s as int) + 1] == (1u8, 0u8));
                    assert(uvs@[8 * (s as int) + 2] == (1u8, 1u8));
                    assert(uvs@[8 * (s as int) + 3] == (0u8, 1u8));
                    assert(uvs@[8 * (s as int) + 4] == (0u8, 0u8));
                    assert(uvs@[8 * (s as int) + 5] == (1u8, 0u8));
                    assert(uvs@[8 * (s as int) + 6] == (1u8, 1u8));
                    assert(uvs@[8 * (s as int) + 7] == (0u8, 1u8));
                }
            }
        }
        s = s + 1;
    }
    RibbonMesh { uvs, indices }
}

} // verus!
