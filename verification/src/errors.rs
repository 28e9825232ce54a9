//! Error type for coordinate validation.

use vstd::prelude::*;

verus! {

/// Raised when a latitude or longitude lies outside its valid range.
/// Coordinates are always rejected, never clamped.
#[derive(Debug)]
pub struct CoordError {
    pub msg: String,
}

impl CoordError {
    /// The human-readable description of the failure.
    pub fn message(&self) -> (r: String)
        ensures
            r@ == self.msg@,
    {
        self.msg.clone()
    }
}

} // verus!
