//! Marker traits that renderer back ends and their objects implement.
use vstd::prelude::*;

verus! {

/// A rendering back end.
pub trait RtBackend {}

/// A node of a scene.
pub trait SceneNode {}

/// A camera.
pub trait Camera {}

/// A renderable body.
pub trait Body {}

/// A geometry.
pub trait Geometry {}

/// A material.
pub trait Material {}

/// A texture.
pub trait Texture {}

/// A triangle mesh.
pub trait Mesh {}

/// A scene.
pub trait Scene {}

/// A renderer.
pub trait Renderer {}

} // verus!
