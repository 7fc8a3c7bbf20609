//! The failures that drawing, resource and submission operations report.

use vstd::prelude::*;

verus! {

/// Why an operation did not take effect.
#[derive(Clone, Copy, Debug, PartialEq, Eq)]
pub enum Error {
    /// A texture, glyph or buffer room that a draw needs could not be
    /// produced or found. The failing call is skipped; what was drawn
    /// before stays valid.
    ResourceError,
    /// The data has a format or size that the backend does not take.
    UnsupportedFormatError,
    /// An input asset is malformed.
    DecodeError,
    /// The shared GPU context has been torn down.
    GpuContextUnavailable,
}

} // verus!
