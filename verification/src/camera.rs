//! The camera that a scene is drawn through.

use vstd::prelude::*;

verus! {

/// A view-projection transform, carried as the bit patterns of the sixteen
/// single-precision entries of a column-major 4x4 matrix. Nothing here
/// reads the entries; they travel unchanged to the backend.
#[derive(Clone, Copy, Debug, PartialEq, Eq)]
pub struct Camera {
    pub view_projection: [u32; 16],
}

} // verus!
