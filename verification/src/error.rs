//! The errors of the backend's own logic.

use vstd::prelude::*;

verus! {

/// A failure that the backend reports to its caller.
#[derive(Clone, Copy, Debug, PartialEq, Eq, Structural)]
pub enum RenderError {
    /// Neither a named, a requested nor a fallback adapter could be had.
    NoAdapter,
    /// The surface offers neither `Rgba8Unorm` nor `Bgra8Unorm`.
    UnsupportedSurfaceFormat,
}

/// The text that describes an error.
pub open spec fn error_message(e: RenderError) -> Seq<char> {
    match e {
        RenderError::NoAdapter => "No adapter found"@,
        RenderError::UnsupportedSurfaceFormat => "surface should support Rgba8Unorm or Bgra8Unorm"@,
    }
}

impl RenderError {
    /// The text that describes this error.
    pub fn message(&self) -> (res: String)
        ensures
            res@ == error_message(*self),
    {
        match self {
            RenderError::NoAdapter => String::from_str("No adapter found"),
            RenderError::UnsupportedSurfaceFormat => String::from_str("surface should support Rgba8Unorm or Bgra8Unorm"),
        }
    }
}

} // verus!
