//! Great-circle arcs with a parabolic height profile.
//!
//! The direction of each point along the arc is a spherical linear
//! interpolation between the two endpoint unit vectors; that part is
//! transcendental and belongs to the host. What the arc owns exactly is
//! its radius profile: at step `i` of `n` the point sits at radius
//! `base + height * 4 * t * (1 - t)` with `t = i / n`, zero extra height
//! at the endpoints and the full peak height in the middle. The profile
//! is returned as numerators over the denominator `n * n`.

use vstd::prelude::*;

use crate::errors::CoordError;
use crate::geodesy::{valid_latitude, valid_longitude, Coordinates};

verus! {

/// An arc flatter than this central angle, in microradians, degenerates
/// to a straight two-point segment (a thousandth of a radian).
pub const ARC_MIN_ANGLE: i64 = 1000;

/// An RGBA color with 8-bit channels.
#[derive(Debug, Clone, Copy, PartialEq, Eq, Structural)]
pub struct LineColor {
    pub red: u8,
    pub green: u8,
    pub blue: u8,
    pub alpha: u8,
}

/// The radius numerator of arc point `i` of `segments`, over the
/// denominator `segments * segments`: the parabola
/// `base + height * 4 * (i / n) * (1 - i / n)` cleared of fractions.
pub open spec fn arc_radius_num(base: int, height: int, segments: int, i: int) -> int {
    base * (segments * segments) + 4 * height * i * (segments - i)
}

/// True when the central angle is too small for stable interpolation
/// and the arc collapses to its two endpoints.
pub open spec fn arc_is_degenerate(angle_microrad: int) -> bool {
    angle_microrad < ARC_MIN_ANGLE as int
}

impl Coordinates {
    /// The radius profile of the great-circle arc from `self` to
    /// `other`. The host measures the central angle between the two
    /// endpoint unit vectors (in microradians) and hands it in; it
    /// multiplies each returned numerator, divided by
    /// `segments * segments`, onto its interpolated unit direction.
    ///
    /// A near-degenerate angle yields exactly the two endpoints at the
    /// base radius. Otherwise there are `segments + 1` points whose
    /// radii follow the parabola: the endpoints sit exactly on the base
    /// sphere and the peak rises `arc_height` above it.
    #[allow(unused_variables)]
    pub fn arc_to(
        &self,
        other: &Coordinates,
        num_segments: u32,
        arc_height: i64,
        angle_microrad: i64,
        base_radius: i64,
    ) -> (r: Vec<i64>)
        requires
            1 <= num_segments <= 16384,
            0 <= base_radius <= 1_000_000,
            -1_000_000 <= arc_height <= 1_000_000,
            0 <= angle_microrad,
        ensures
            arc_is_degenerate(angle_microrad as int) ==> r@.len() == 2,
            !arc_is_degenerate(angle_microrad as int) ==> r@.len() == num_segments + 1,
            forall|i: int|
                0 <= i < r@.len() ==> #[trigger] r@[i] == arc_radius_num(
                    base_radius as int,
                    if arc_is_degenerate(angle_microrad as int) {
                        0
                    } else {
                        arc_height as int
                    },
                    num_segments as int,
                    if arc_is_degenerate(angle_microrad as int) {
                        0
                    } else {
                        i
                    },
                ),
            r@[0] == base_radius * ((num_segments as int) * (num_segments as int)),
            r@[r@.len() - 1] == base_radius * ((num_segments as int) * (num_segments as int)),
    {
        let n: i64 = num_segments as i64;
        proof {
            assert((n as int) * (n as int) <= 0x1000_0000 && 0 <= (n as int) * (n as int))
                by (nonlinear_arith)
                requires
                    1 <= n as int <= 16384,
            ;
            assert(0 <= (base_radius as int) * ((n as int) * (n as int)) <= 0x4_0000_0000_0000)
                by (nonlinear_arith)
                requires
                    1 <= n as int <= 16384,
                    0 <= base_radius as int <= 1_000_000,
            ;
        }
        let denominator = n * n;
        let flat = base_radius * denominator;
        proof {
            assert(arc_radius_num(base_radius as int, 0, n as int, 0) == (base_radius as int) * ((
            n as int) * (n as int))) by (nonlinear_arith);
        }
        if angle_microrad < ARC_MIN_ANGLE {
            // Near-coincident endpoints: a direct two-point segment
            // avoids dividing by a vanishing angle sine.
            let mut points: Vec<i64> = Vec::new();
            points.push(flat);
            points.push(flat);
            return points;
        }
        let mut points: Vec<i64> = Vec::new();
        let mut i: i64 = 0;
        while i <= n
            invariant
                0 <= i <= n + 1,
                1 <= n <= 16384,
                -1_000_000 <= arc_height <= 1_000_000,
                0 <= base_radius <= 1_000_000,
                denominator == n * n,
                flat == base_radius * (n * n),
                points@.len() == i,
                forall|j: int|
                    0 <= j < i ==> #[trigger] points@[j] == arc_radius_num(
                        base_radius as int,
                        arc_height as int,
                        n as int,
                        j,
                    ),
            decreases n + 1 - i,
        {
            proof {
                assert(-0x10_0000_0000_0000 <= 4 * (arc_height as int) * (i as int)
                    <= 0x10_0000_0000_0000 && -0x8_0000_0000_0000 <= 4 * (arc_height as int)
                    * (i as int) * ((n as int) - (i as int)) <= 0x8_0000_0000_0000 && 0 <= (
                base_radius as int) * ((n as int) * (n as int)) <= 0x4_0000_0000_0000)
                    by (nonlinear_arith)
                    requires
                        0 <= i as int <= n as int,
                        1 <= n as int <= 16384,
                        -1_000_000 <= arc_height as int <= 1_000_000,
                        0 <= base_radius as int <= 1_000_000,
                ;
            }
            let bulge = 4 * arc_height * i * (n - i);
            points.push(flat + bulge);
            i = i + 1;
        }
        proof {
            assert(arc_radius_num(base_radius as int, arc_height as int, n as int, 0) == flat
                && arc_radius_num(base_radius as int, arc_height as int, n as int, n as int)
                == flat) by (nonlinear_arith)
                requires
                    flat == (base_radius as int) * ((n as int) * (n as int)),
            ;
        }
        points
    }
}

/// At an even segment count the middle point of the profile sits at
/// exactly the base radius plus the peak height: the parabola attains
/// its maximum halfway along the arc.
pub proof fn lemma_arc_peak(base: int, height: int, segments: int)
    requires
        segments >= 1,
        segments % 2 == 0,
    ensures
        arc_radius_num(base, height, segments, segments / 2) == (base + height) * (segments
            * segments),
{
    assert(arc_radius_num(base, height, segments, segments / 2) == (base + height) * (segments
        * segments)) by (nonlinear_arith)
        requires
            segments >= 1,
            segments % 2 == 0,
    ;
}

/// An arc between two validated endpoints, immutable once built: the
/// coordinates, the drawn color, the number of interpolation segments
/// and the peak height above the sphere surface.
#[derive(Debug, Clone, Copy, PartialEq, Eq, Structural)]
pub struct ArcLine {
    pub from: Coordinates,
    pub to: Coordinates,
    pub color: LineColor,
    pub segments: u32,
    pub arc_height: i64,
}

impl ArcLine {
    /// Builds an arc between two coordinates given in microdegrees,
    /// validating both endpoints before any geometry is computed. The
    /// defaults are a yellow line of 50 segments peaking 50 units above
    /// the surface.
    pub fn new(from_lat: i64, from_lon: i64, to_lat: i64, to_lon: i64) -> (r: Result<
        ArcLine,
        CoordError,
    >)
        ensures
            r is Ok <==> valid_latitude(from_lat as int) && valid_longitude(from_lon as int)
                && valid_latitude(to_lat as int) && valid_longitude(to_lon as int),
            r matches Ok(a) ==> a.from.latitude == from_lat && a.from.longitude == from_lon
                && a.to.latitude == to_lat && a.to.longitude == to_lon && a.from.valid()
                && a.to.valid(),
            r matches Ok(a) ==> a.segments == 50 && a.arc_height == 50 && a.color == (LineColor {
                red: 255,
                green: 255,
                blue: 0,
                alpha: 255,
            }),
    {
        let from = match Coordinates::from_degrees(from_lat, from_lon) {
            Ok(c) => c,
            Err(e) => {
                return Err(e);
            },
        };
        let to = match Coordinates::from_degrees(to_lat, to_lon) {
            Ok(c) => c,
            Err(e) => {
                return Err(e);
            },
        };
        Ok(
            ArcLine {
                from,
                to,
                color: LineColor { red: 255, green: 255, blue: 0, alpha: 255 },
                segments: 50,
                arc_height: 50,
            },
        )
    }

    /// Replaces the color, keeping everything else.
    pub fn with_color(self, color: LineColor) -> (r: ArcLine)
        ensures
            r.color == color,
            r.from == self.from,
            r.to == self.to,
            r.segments == self.segments,
            r.arc_height == self.arc_height,
    {
        ArcLine { color, ..self }
    }

    /// Replaces the segment count, keeping everything else.
    pub fn with_segments(self, segments: u32) -> (r: ArcLine)
        ensures
            r.segments == segments,
            r.from == self.from,
            r.to == self.to,
            r.color == self.color,
            r.arc_height == self.arc_height,
    {
        ArcLine { segments, ..self }
    }

    /// Replaces the peak height, keeping everything else.
    pub fn with_arc_height(self, height: i64) -> (r: ArcLine)
        ensures
            r.arc_height == height,
            r.from == self.from,
            r.to == self.to,
            r.color == self.color,
            r.segments == self.segments,
    {
        ArcLine { arc_height: height, ..self }
    }
}

} // verus!
