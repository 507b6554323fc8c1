//! The decisions the GPU rasterizer makes around its device work: which
//! presenter a setup gets, what a presentation results in, and how large the
//! rendered viewport is.
use vstd::prelude::*;

verus! {

/// Who creates the GPU instance, device and queue.
#[derive(Clone, Copy, Debug, PartialEq, Eq, Structural)]
pub enum WgpuSetupKind {
    /// The caller hands them over.
    External,
    /// The rasterizer creates them.
    Managed,
}

/// Where rendered frames go.
#[derive(Clone, Copy, Debug, PartialEq, Eq, Structural)]
pub enum PresentTargetKind {
    /// A texture the caller owns.
    ExternalTexture,
    /// A texture the rasterizer owns.
    ManagedTexture,
    /// Memory the host can read, mapped by the rasterizer.
    ManagedMappedRam,
    /// A window's surface.
    ManagedWindow,
}

/// How frames are presented.
#[derive(Clone, Copy, Debug, PartialEq, Eq, Structural)]
pub enum PresenterKind {
    /// Frames are copied into the caller's texture.
    Texture,
    /// Frames are copied into host-mapped memory.
    MappedRam,
    /// Frames are drawn onto a window's surface.
    Surface,
}

/// A setup and a target that do not go together.
#[derive(Clone, Copy, Debug, PartialEq, Eq, Structural)]
pub enum SetupError {
    /// A caller's texture was asked for with a device the rasterizer makes.
    ExternalTextureNeedsExternalSetup,
    /// A device handed over by the caller was asked to present elsewhere
    /// than into a caller's texture.
    ExternalSetupNeedsExternalTexture,
}

impl SetupError {
    /// The error's message.
    pub fn message(&self) -> (r: &'static str)
        ensures
            r@ == match *self {
                SetupError::ExternalTextureNeedsExternalSetup =>
                    "External texture must be used with external wgpu setup"@,
                SetupError::ExternalSetupNeedsExternalTexture =>
                    "Only external texture may be used with external wgpu setup"@,
            },
    {
        match self {
            SetupError::ExternalTextureNeedsExternalSetup =>
                "External texture must be used with external wgpu setup",
            SetupError::ExternalSetupNeedsExternalTexture =>
                "Only external texture may be used with external wgpu setup",
        }
    }
}

/// The presenter a setup and target call for.  A device handed over by the
/// caller presents into the caller's texture and nowhere else; a device the
/// rasterizer makes presents into mapped memory or a window, never into a
/// caller's texture.  A texture owned by the rasterizer is not supported.
pub fn choose_presenter(setup: WgpuSetupKind, target: PresentTargetKind) -> (r: Result<
    PresenterKind,
    SetupError,
>)
    requires
        !(setup == WgpuSetupKind::Managed && target == PresentTargetKind::ManagedTexture),
    ensures
        r == match (setup, target) {
            (WgpuSetupKind::External, PresentTargetKind::ExternalTexture) => Ok(
                PresenterKind::Texture,
            ),
            (WgpuSetupKind::External, _) => Err(SetupError::ExternalSetupNeedsExternalTexture),
            (WgpuSetupKind::Managed, PresentTargetKind::ExternalTexture) => Err(
                SetupError::ExternalTextureNeedsExternalSetup,
            ),
            (WgpuSetupKind::Managed, PresentTargetKind::ManagedMappedRam) => Ok(
                PresenterKind::MappedRam,
            ),
            (WgpuSetupKind::Managed, _) => Ok(PresenterKind::Surface),
        },
{
    match setup {
        WgpuSetupKind::External => match target {
            PresentTargetKind::ExternalTexture => Ok(PresenterKind::Texture),
            _ => Err(SetupError::ExternalSetupNeedsExternalTexture),
        },
        WgpuSetupKind::Managed => match target {
            PresentTargetKind::ExternalTexture => Err(SetupError::ExternalTextureNeedsExternalSetup),
            PresentTargetKind::ManagedMappedRam => Ok(PresenterKind::MappedRam),
            _ => Ok(PresenterKind::Surface),
        },
    }
}

/// What a window's surface gave when a frame was asked of it.
#[derive(Clone, Copy, Debug, PartialEq, Eq, Structural)]
pub enum SurfaceStatus {
    Timeout,
    Occluded,
    Outdated,
    Lost,
    Validation,
    /// A frame was given, though the surface no longer matches the window.
    Suboptimal,
    /// A frame was given.
    Success,
}

/// What presenting a frame resulted in.
#[derive(Clone, Copy, Debug, PartialEq, Eq, Structural)]
pub enum PresentOutcome {
    /// The frame is in host-mapped memory.
    Mapped,
    /// The frame is in the caller's texture.
    Stored,
    /// The frame was drawn onto the surface and is shown once the work is
    /// submitted.
    Submitted,
    /// The frame was dropped.
    Ignored,
    /// The surface must be configured anew.
    ReconfigurationRequired,
}

/// Whether the surface gave a frame to draw onto.
pub open spec fn surface_gave_frame(status: SurfaceStatus) -> bool {
    status == SurfaceStatus::Success || status == SurfaceStatus::Suboptimal
}

/// What presenting a frame results in: a caller's texture stores it, mapped
/// memory holds it, and a surface shows it where it gave a frame (also a
/// suboptimal one) and drops it otherwise.  `status` is read only for a
/// surface.
pub fn present_outcome(presenter: PresenterKind, status: SurfaceStatus) -> (r: PresentOutcome)
    ensures
        r == match presenter {
            PresenterKind::Texture => PresentOutcome::Stored,
            PresenterKind::MappedRam => PresentOutcome::Mapped,
            PresenterKind::Surface => if surface_gave_frame(status) {
                PresentOutcome::Submitted
            } else {
                PresentOutcome::Ignored
            },
        },
{
    match presenter {
        PresenterKind::Texture => PresentOutcome::Stored,
        PresenterKind::MappedRam => PresentOutcome::Mapped,
        PresenterKind::Surface => match status {
            SurfaceStatus::Suboptimal | SurfaceStatus::Success => PresentOutcome::Submitted,
            _ => PresentOutcome::Ignored,
        },
    }
}

/// The smaller of two integers.
pub open spec fn min_u32(a: u32, b: u32) -> u32 {
    if a <= b {
        a
    } else {
        b
    }
}

/// The viewport that is rendered: each side of the requested one, cut to
/// the side of the square render texture.
pub fn clamp_viewport(width: u32, height: u32, side: u32) -> (r: (u32, u32))
    ensures
        r.0 == min_u32(width, side),
        r.1 == min_u32(height, side),
{
    let w = if width <= side {
        width
    } else {
        side
    };
    let h = if height <= side {
        height
    } else {
        side
    };
    (w, h)
}

/// A viewport that fits the render texture is rendered whole, and a
/// clamped viewport is clamped no further.
pub proof fn lemma_clamp_viewport_idempotent(width: u32, height: u32, side: u32)
    ensures
        width <= side && height <= side ==> min_u32(width, side) == width && min_u32(height, side)
            == height,
        min_u32(min_u32(width, side), side) == min_u32(width, side),
        min_u32(width, side) <= side,
{
}

} // verus!
