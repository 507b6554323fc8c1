//! Plain types of the JavaScript interface.
use vstd::prelude::*;

verus! {

/// Represents geometry of a mesh of triangles.
pub struct Mesh {}

/// Represents geometry of a single point.
pub struct Point {}

/// The graphics back end used by strahl.
#[derive(Clone, Copy, Debug, PartialEq, Eq, Structural)]
pub enum StrahlBackend {
    Rasterize,
}

/// What is needed to create a strahl instance.
#[derive(Clone, Copy, Debug, PartialEq, Eq, Structural)]
pub struct StrahlCreateInfo {
    /// The rendering back end.
    pub backend: StrahlBackend,
    /// Width of the viewport, in pixels.
    pub width: u32,
    /// Height of the viewport, in pixels.
    pub height: u32,
}

impl Default for StrahlCreateInfo {
    /// The rasterizer with a viewport of 1024 by 1024 pixels.
    fn default() -> (r: Self)
        ensures
            r == (StrahlCreateInfo { backend: StrahlBackend::Rasterize, width: 1024, height: 1024 }),
    {
        StrahlCreateInfo { backend: StrahlBackend::Rasterize, width: 1024, height: 1024 }
    }
}

} // verus!
