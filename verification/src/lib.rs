//! Geospatial mesh and arc-geometry generation for a cube-sphere globe.
//!
//! All angles are carried as exact fixed-point integers: one unit is one
//! microdegree (a millionth of a degree). Texture coordinates are exact
//! fractions over a fixed denominator. The host renderer owns the
//! floating-point projection onto the sphere; this crate owns everything
//! that can be stated and checked exactly: coordinate validation, the
//! latitude/longitude to texture-space maps, seam correction, elevation
//! fallback, grid and ribbon triangulation, arc radius profiles, and
//! raster pixel arithmetic.

pub mod arc;
pub mod errors;
pub mod face;
pub mod geodesy;
pub mod raster;
pub mod ribbon;
