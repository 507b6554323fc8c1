//! Plain parts of the TOML scene description.
//!
//! Floating-point values of the description are kept as the bit patterns of
//! their IEEE-754 single-precision values.
use crate::raytracer;
use crate::registry::Registry;
use crate::texture::ONE_BITS;
use vstd::prelude::*;
use vstd::string::StringExecFns;

verus! {

/// The axis-aligned square that a quad definition may name.
#[derive(Clone, Copy, Debug, PartialEq, Eq, Structural)]
pub enum QuadVariant {
    XySquare,
    YzSquare,
    ZxSquare,
}

/// General information about a scene.
pub struct SceneMeta {
    pub name: Option<String>,
}

impl Default for SceneMeta {
    /// A scene without a name.
    fn default() -> (r: Self)
        ensures
            r.name is None,
    {
        SceneMeta { name: None }
    }
}

/// Camera type as a scene description names it.
#[derive(Clone, Copy, Debug, PartialEq, Eq, Structural)]
pub enum CameraType {
    Perspective,
    Orthographic,
}

impl Default for CameraType {
    /// A perspective camera.
    fn default() -> (r: Self)
        ensures
            r == CameraType::Perspective,
    {
        CameraType::Perspective
    }
}

impl CameraType {
    /// The ray tracer's camera type of the same name.
    pub fn to_camera_type(self) -> (r: raytracer::CameraType)
        ensures
            r == (match self {
                CameraType::Perspective => raytracer::CameraType::Perspective,
                CameraType::Orthographic => raytracer::CameraType::Orthographic,
            }),
    {
        match self {
            CameraType::Perspective => raytracer::CameraType::Perspective,
            CameraType::Orthographic => raytracer::CameraType::Orthographic,
        }
    }
}

/// Why a scene description cannot be loaded.
pub enum SceneLoadError {
    Parse(String),
    NotFound(String),
    Unsupported(String),
}

/// A reference to a named definition, or a definition given in place.
pub enum Reference<D> {
    Named(String),
    Inline(D),
}

/// Parameters of a quad: either an origin and two edges, or an
/// axis-aligned square given by its plane, center and side.
#[derive(Clone, Copy)]
pub struct QuadParams {
    pub origin: Option<[u32; 3]>,
    pub u: Option<[u32; 3]>,
    pub v: Option<[u32; 3]>,
    pub variant: Option<QuadVariant>,
    pub center: Option<[u32; 3]>,
    pub side: Option<u32>,
}

/// The quad that the parameters describe.
#[derive(Clone, Copy, Debug)]
pub enum QuadShape {
    /// The parallelogram with corner `origin` and edges `u` and `v`.
    Parallelogram { origin: [u32; 3], u: [u32; 3], v: [u32; 3] },
    /// The axis-aligned square of the given plane, center and side.
    Square { variant: QuadVariant, center: [u32; 3], side: u32 },
}

/// The message of a quad definition that describes no quad.
pub open spec fn quad_parse_message() -> Seq<char> {
    "Quad definition requires either (origin,u,v) or (variant,center,side)"@
}

impl QuadParams {
    /// The quad these parameters describe: origin and edges take precedence
    /// over the square; with neither complete, the definition is refused.
    pub fn shape(&self) -> (r: Result<QuadShape, SceneLoadError>)
        ensures
            if self.origin is Some && self.u is Some && self.v is Some {
                r == Ok::<QuadShape, SceneLoadError>(
                    QuadShape::Parallelogram {
                        origin: self.origin->0,
                        u: self.u->0,
                        v: self.v->0,
                    },
                )
            } else if self.variant is Some && self.center is Some && self.side is Some {
                r == Ok::<QuadShape, SceneLoadError>(
                    QuadShape::Square {
                        variant: self.variant->0,
                        center: self.center->0,
                        side: self.side->0,
                    },
                )
            } else {
                r matches Err(SceneLoadError::Parse(m)) && m@ == quad_parse_message()
            },
    {
        if let (Some(origin), Some(u), Some(v)) = (self.origin, self.u, self.v) {
            Ok(QuadShape::Parallelogram { origin, u, v })
        } else if let (Some(variant), Some(center), Some(side)) = (
            self.variant,
            self.center,
            self.side,
        ) {
            Ok(QuadShape::Square { variant, center, side })
        } else {
            Err(
                SceneLoadError::Parse(
                    String::from_str(
                        "Quad definition requires either (origin,u,v) or (variant,center,side)",
                    ),
                ),
            )
        }
    }
}

/// How a light emits, as a scene description states it.
#[derive(Clone, Copy)]
pub enum LightEmissionDef {
    Omni,
    Directed { direction: [u32; 3] },
    Spot { direction: [u32; 3], cutoff: u32 },
}

/// A light's direction as a scene description states it: omnidirectional
/// when not given.
#[derive(Clone, Copy)]
pub enum LightDirectionDef {
    Omni,
    Structured { inner: LightEmissionDef },
}

impl Default for LightDirectionDef {
    /// Omnidirectional.
    fn default() -> (r: Self)
        ensures
            r is Omni,
    {
        LightDirectionDef::Omni
    }
}

/// How a light source emits.
#[derive(Clone, Copy, Debug)]
pub enum LightEmissionDirection {
    Omni,
    Directed([u32; 3]),
    Spot([u32; 3], u32),
}

impl LightDirectionDef {
    /// The emission of a light with this direction.
    pub fn emission(&self) -> (r: LightEmissionDirection)
        ensures
            r == match self {
                LightDirectionDef::Omni => LightEmissionDirection::Omni,
                LightDirectionDef::Structured { inner } => match inner {
                    LightEmissionDef::Omni => LightEmissionDirection::Omni,
                    LightEmissionDef::Directed { direction } => LightEmissionDirection::Directed(
                        *direction,
                    ),
                    LightEmissionDef::Spot { direction, cutoff } => LightEmissionDirection::Spot(
                        *direction,
                        *cutoff,
                    ),
                },
            },
    {
        match self {
            LightDirectionDef::Omni => LightEmissionDirection::Omni,
            LightDirectionDef::Structured { inner } => match inner {
                LightEmissionDef::Omni => LightEmissionDirection::Omni,
                LightEmissionDef::Directed { direction } => LightEmissionDirection::Directed(
                    *direction,
                ),
                LightEmissionDef::Spot { direction, cutoff } => LightEmissionDirection::Spot(
                    *direction,
                    *cutoff,
                ),
            },
        }
    }
}

/// A procedural texture.
#[derive(Clone, Copy)]
pub enum TextureDef {
    Checkerboard { color1: [u32; 3], color2: [u32; 3], scale: [u32; 2] },
}

/// A reference to a named texture, or a texture given in place.
pub enum TextureRef {
    Named(String),
    Inline(TextureDef),
}

/// A spectrum: uniform, or read from a texture.
pub enum SpectrumDef {
    Uniform([u32; 3]),
    Textured { texture: TextureRef },
}

/// The spectrum that a definition gives: its color where uniform; textured
/// spectra are not sampled yet and give white.
pub open spec fn spec_spectrum(def: &SpectrumDef) -> [u32; 3] {
    match def {
        SpectrumDef::Uniform(c) => *c,
        SpectrumDef::Textured { .. } => [ONE_BITS, ONE_BITS, ONE_BITS],
    }
}

/// The spectrum of a definition; never fails.
pub fn parse_spectrum(def: &SpectrumDef) -> (r: Result<[u32; 3], SceneLoadError>)
    ensures
        r matches Ok(c) && c == spec_spectrum(def),
{
    match def {
        SpectrumDef::Uniform(c) => Ok(*c),
        SpectrumDef::Textured { .. } => Ok([ONE_BITS, ONE_BITS, ONE_BITS]),
    }
}

/// The full rotation quaternion of a body that states none: `[0, 0, 0, 1]`.
pub fn default_quat() -> (r: [u32; 4])
    ensures
        r@ == seq![0u32, 0u32, 0u32, ONE_BITS],
{
    let r = [0u32, 0u32, 0u32, ONE_BITS];
    assert(r@ =~= seq![0u32, 0u32, 0u32, ONE_BITS]);
    r
}

/// The message of a reference to a name that is not defined:
/// `Unknown <what>: '<name>'`.
pub open spec fn not_found_message(what: Seq<char>, name: Seq<char>) -> Seq<char> {
    "Unknown "@ + what + ": '"@ + name + "'"@
}

fn not_found(what: &str, name: &String) -> (r: SceneLoadError)
    ensures
        r matches SceneLoadError::NotFound(m) && m@ == not_found_message(what@, name@),
{
    let mut m = String::from_str("Unknown ");
    m.append(what);
    m.append(": '");
    m.append(name.as_str());
    m.append("'");
    SceneLoadError::NotFound(m)
}

/// The named geometries and materials of a scene description.
pub struct SceneLoader<G, M> {
    pub geometries: Registry<G>,
    pub materials: Registry<M>,
}

/// `r` is what a reference resolves to: a clone of the value registered
/// under its name, the not-found error of kind `what` where the name is not
/// registered, or what `build` gives for an inline definition.
pub open spec fn resolved<V: Clone, D, F: Fn(&D) -> Result<V, SceneLoadError>>(
    registry: Map<Seq<char>, V>,
    what: Seq<char>,
    reference: &Reference<D>,
    build: F,
    r: Result<V, SceneLoadError>,
) -> bool {
    match reference {
        Reference::Named(name) => if registry.contains_key(name@) {
            r matches Ok(v) && cloned(registry[name@], v)
        } else {
            r matches Err(SceneLoadError::NotFound(m)) && m@ == not_found_message(what, name@)
        },
        Reference::Inline(def) => call_ensures(build, (def,), r),
    }
}

impl<G: Clone, M: Clone> SceneLoader<G, M> {
    /// A loader with nothing registered.
    pub fn new() -> (r: Self)
        ensures
            r.geometries.wf(),
            r.materials.wf(),
            r.geometries.view() == Map::<Seq<char>, G>::empty(),
            r.materials.view() == Map::<Seq<char>, M>::empty(),
    {
        SceneLoader { geometries: Registry::new(), materials: Registry::new() }
    }

    /// The geometry a reference stands for: the registered one for a name,
    /// or the one `build` makes of an inline definition.
    pub fn resolve_geometry<D>(
        &self,
        geom_ref: &Reference<D>,
        build: impl Fn(&D) -> Result<G, SceneLoadError>,
    ) -> (r: Result<G, SceneLoadError>)
        requires
            self.geometries.wf(),
            geom_ref matches Reference::Inline(def) ==> call_requires(build, (def,)),
        ensures
            resolved(self.geometries.view(), "geometry"@, geom_ref, build, r),
    {
        match geom_ref {
            Reference::Named(name) => match self.geometries.get(name) {
                Some(g) => Ok(g.clone()),
                None => Err(not_found("geometry", name)),
            },
            Reference::Inline(def) => build(def),
        }
    }

    /// The material a reference stands for: the registered one for a name,
    /// or the one `build` makes of an inline definition.
    pub fn resolve_material<D>(
        &self,
        mat_ref: &Reference<D>,
        build: impl Fn(&D) -> Result<M, SceneLoadError>,
    ) -> (r: Result<M, SceneLoadError>)
        requires
            self.materials.wf(),
            mat_ref matches Reference::Inline(def) ==> call_requires(build, (def,)),
        ensures
            resolved(self.materials.view(), "material"@, mat_ref, build, r),
    {
        match mat_ref {
            Reference::Named(name) => match self.materials.get(name) {
                Some(m) => Ok(m.clone()),
                None => Err(not_found("material", name)),
            },
            Reference::Inline(def) => build(def),
        }
    }
}

} // verus!
