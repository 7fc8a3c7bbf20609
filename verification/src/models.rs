//! Models as the scene sees them.

use vstd::prelude::*;

verus! {

/// A loaded model, by the identifier under which the backend holds its
/// meshes.
#[derive(Clone, Copy, Debug, PartialEq, Eq)]
pub struct Model {
    pub id: u64,
}

} // verus!
