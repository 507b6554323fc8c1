//! Plain types of the CPU ray tracer.
use std::marker::PhantomData;
use vstd::prelude::*;

verus! {

/// Entry point of the CPU ray tracer.
pub struct RayTracer {}

impl RayTracer {
    /// A ray tracer.
    pub fn new() -> (r: Self)
        ensures
            r == (RayTracer {}),
    {
        RayTracer {}
    }
}

impl Default for RayTracer {
    /// A ray tracer, as [`RayTracer::new`] makes it.
    fn default() -> (r: Self)
        ensures
            r == (RayTracer {}),
    {
        Self::new()
    }
}

/// Camera type.
#[derive(Clone, Copy, Debug, PartialEq, Eq, Structural)]
pub enum CameraType {
    Perspective,
    Orthographic,
}

/// A texture with texels of type `T`.
pub struct Texture<T>(PhantomData<T>);

/// A property of a surface.
pub enum SurfaceProperty<T> {
    /// The same value for all points of the surface.
    Uniform(T),
    /// The value for each point is read from the texture.
    Texture(Texture<T>),
}

impl<T: Clone> SurfaceProperty<T> {
    /// The value of the property: a clone of the uniform value.  Reading a
    /// textured property is not implemented.
    pub fn get(&self) -> (r: T)
        requires
            self is Uniform,
        ensures
            cloned(self->Uniform_0, r),
    {
        match self {
            SurfaceProperty::Uniform(x) => x.clone(),
            SurfaceProperty::Texture(_) => vstd::pervasive::unreached(),
        }
    }
}

/// Which end of a path a BSDF is sampled from.
#[derive(Clone, Copy)]
pub enum BSDFSampleContext<'a> {
    Camera,
    Light,
    Infallible(PhantomData<&'a ()>),
}

/// Kind of a scattering event at a surface.
pub enum ScatteringEvent {
    Reflection,
    Transmission,
}

/// A combination of several BSDFs.
pub struct CombinedBSDF {}

/// A medium that light travels through.
pub trait Medium: Send + Sync {}

/// The media on the two sides of a surface that light crosses.
#[derive(Clone, Copy)]
pub struct MediumInterface<'e, 'i> {
    /// The medium the light comes from.
    pub from: &'e dyn Medium,
    /// The medium the light enters.
    pub to: &'i dyn Medium,
}

/// Resources a render target uses from outside.
pub trait ExternalResources<'a> {}

impl ExternalResources<'_> for () {}

} // verus!
