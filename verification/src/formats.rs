//! The container-format tag attached to a decoded image.

use vstd::prelude::*;

verus! {

/// An opaque identifier of an image container format (PNG, JPEG, ...).
///
/// The boundary that decodes a file assigns each recognized container format
/// a distinct code; the pipeline only ever compares two tags for equality.
#[derive(Clone, Copy, Debug, PartialEq, Eq, Structural)]
pub struct FormatTag {
    pub code: u32,
}

impl FormatTag {
    /// Builds a tag from a format code.
    pub fn new(code: u32) -> (tag: FormatTag)
        ensures
            tag.code == code,
    {
        FormatTag { code }
    }
}

} // verus!
