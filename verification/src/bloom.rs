//! The bloom post-process: its settings and the order of its render passes.
//!
//! Bloom extracts the bright regions of the rendered image into a texture of
//! half the side, blurs them a number of times, each time horizontally into a
//! temporary texture and then vertically back, and finally merges the result
//! into the target.
use vstd::prelude::*;

verus! {

/// Side, in texels, of the blur kernel the rasterizer's bloom uses.
pub const BLOOM_KERNEL_DEPTH: u32 = 12;

/// Number of blur passes the rasterizer's bloom applies.
pub const BLOOM_BLUR_ITERATIONS: u32 = 2;

/// The integer settings of a bloom post-process.
#[derive(Clone, Copy, Debug, PartialEq, Eq, Structural)]
pub struct BloomSettings {
    /// Side of the bright-regions and temporary textures.
    pub downscaled_dim: u32,
    /// Number of blur passes; at least one.
    pub blur_iterations: u32,
}

/// The settings of a bloom for a target of side `target_dim`, asked to blur
/// `blur_iterations` times: the intermediate textures have half the target's
/// side, and at least one blur pass is made.
pub fn bloom_settings(target_dim: u32, blur_iterations: u32) -> (r: BloomSettings)
    ensures
        r.downscaled_dim == target_dim / 2,
        r.blur_iterations == if blur_iterations == 0 {
            1
        } else {
            blur_iterations
        },
        r.blur_iterations >= 1,
{
    let iterations = if blur_iterations == 0 {
        1
    } else {
        blur_iterations
    };
    BloomSettings { downscaled_dim: target_dim / 2, blur_iterations: iterations }
}

/// The textures a bloom pass reads or writes.
#[derive(Clone, Copy, Debug, PartialEq, Eq, Structural)]
pub enum BloomImage {
    /// The rendered image the bloom starts from.
    Origin,
    /// The bright regions, at half the side.
    BrightRegions,
    /// The temporary texture between the two halves of a blur.
    Temp,
    /// The image the bloom ends in.
    Target,
}

/// What a bloom pass does.
#[derive(Clone, Copy, Debug, PartialEq, Eq, Structural)]
pub enum BloomStage {
    /// Extracts the bright regions of the origin.
    Brightness,
    /// Blurs along rows.
    HorizontalBlur,
    /// Blurs along columns.
    VerticalBlur,
    /// Merges the blurred bright regions into the target.
    Merge,
}

/// One render pass of the bloom.
#[derive(Clone, Copy, Debug, PartialEq, Eq, Structural)]
pub struct BloomPass {
    pub stage: BloomStage,
    /// The texture the pass samples.
    pub source: BloomImage,
    /// The texture the pass renders into.
    pub target: BloomImage,
    /// The target is cleared to white before the pass; otherwise to black.
    pub clear_white: bool,
    /// The direction handed to the blur shader: 1 along rows, 0 along
    /// columns; none for the other passes.
    pub horizontal: Option<u32>,
}

/// Number of render passes of a bloom with `iterations` blur passes: the
/// extraction, two per blur pass, and the merge.
pub open spec fn spec_pass_count(iterations: nat) -> nat {
    2 * iterations + 2
}

/// Render pass `i` of a bloom with `iterations` blur passes.
pub open spec fn spec_bloom_pass(iterations: nat, i: int) -> BloomPass {
    if i == 0 {
        BloomPass {
            stage: BloomStage::Brightness,
            source: BloomImage::Origin,
            target: BloomImage::BrightRegions,
            clear_white: false,
            horizontal: None,
        }
    } else if i == 2 * iterations + 1 {
        BloomPass {
            stage: BloomStage::Merge,
            source: BloomImage::BrightRegions,
            target: BloomImage::Target,
            clear_white: true,
            horizontal: None,
        }
    } else if i % 2 == 1 {
        BloomPass {
            stage: BloomStage::HorizontalBlur,
            source: BloomImage::BrightRegions,
            target: BloomImage::Temp,
            clear_white: false,
            horizontal: Some(1),
        }
    } else {
        BloomPass {
            stage: BloomStage::VerticalBlur,
            source: BloomImage::Temp,
            target: BloomImage::BrightRegions,
            clear_white: false,
            horizontal: Some(0),
        }
    }
}

impl BloomStage {
    /// The label the pass is given.
    pub fn label(&self) -> (r: &'static str)
        ensures
            r@ == match *self {
                BloomStage::Brightness => "bloom brightness"@,
                BloomStage::HorizontalBlur => "bloom horizontal blur"@,
                BloomStage::VerticalBlur => "bloom vertical blur"@,
                BloomStage::Merge => "merge blur"@,
            },
    {
        match self {
            BloomStage::Brightness => "bloom brightness",
            BloomStage::HorizontalBlur => "bloom horizontal blur",
            BloomStage::VerticalBlur => "bloom vertical blur",
            BloomStage::Merge => "merge blur",
        }
    }
}

/// Number of render passes of a bloom with `iterations` blur passes.
pub fn pass_count(iterations: u32) -> (r: u64)
    ensures
        r == spec_pass_count(iterations as nat),
{
    2 * (iterations as u64) + 2
}

/// Render pass `i` of a bloom with `iterations` blur passes, in the order
/// they are recorded.
pub fn bloom_pass(iterations: u32, i: u64) -> (r: BloomPass)
    requires
        i < spec_pass_count(iterations as nat),
    ensures
        r == spec_bloom_pass(iterations as nat, i as int),
{
    if i == 0 {
        BloomPass {
            stage: BloomStage::Brightness,
            source: BloomImage::Origin,
            target: BloomImage::BrightRegions,
            clear_white: false,
            horizontal: None,
        }
    } else if i == 2 * (iterations as u64) + 1 {
        BloomPass {
            stage: BloomStage::Merge,
            source: BloomImage::BrightRegions,
            target: BloomImage::Target,
            clear_white: true,
            horizontal: None,
        }
    } else if i % 2 == 1 {
        BloomPass {
            stage: BloomStage::HorizontalBlur,
            source: BloomImage::BrightRegions,
            target: BloomImage::Temp,
            clear_white: false,
            horizontal: Some(1),
        }
    } else {
        BloomPass {
            stage: BloomStage::VerticalBlur,
            source: BloomImage::Temp,
            target: BloomImage::BrightRegions,
            clear_white: false,
            horizontal: Some(0),
        }
    }
}

/// The passes of a bloom form one chain from the origin to the target: the
/// first reads the origin, the last writes the target, each pass reads the
/// texture the one before it wrote, and no pass reads the texture it writes.
pub proof fn lemma_bloom_passes_chain(iterations: nat)
    ensures
        spec_bloom_pass(iterations, 0).source == BloomImage::Origin,
        spec_bloom_pass(iterations, spec_pass_count(iterations) - 1).target == BloomImage::Target,
        forall|i: int|
            0 <= i < spec_pass_count(iterations) - 1 ==> #[trigger] spec_bloom_pass(
                iterations,
                i + 1,
            ).source == spec_bloom_pass(iterations, i).target,
        forall|i: int|
            0 <= i < spec_pass_count(iterations) ==> #[trigger] spec_bloom_pass(
                iterations,
                i,
            ).source != spec_bloom_pass(iterations, i).target,
{
}

/// Every blur pass of a bloom is a horizontal pass followed by a vertical
/// one: passes `2k + 1` and `2k + 2` for each `k` below the number of blur
/// passes.
pub proof fn lemma_bloom_blurs_in_pairs(iterations: nat, k: int)
    requires
        0 <= k < iterations,
    ensures
        spec_bloom_pass(iterations, 2 * k + 1).stage == BloomStage::HorizontalBlur,
        spec_bloom_pass(iterations, 2 * k + 2).stage == BloomStage::VerticalBlur,
{
}

/// Every pass of a bloom hands the blur shader the direction of its stage:
/// 1 (along rows) for each horizontal blur, 0 (along columns) for each
/// vertical blur, and none for the extraction and the merge.  Only the merge
/// clears its target to white.
pub proof fn lemma_bloom_blur_directions(iterations: nat, i: int)
    requires
        0 <= i < spec_pass_count(iterations),
    ensures
        spec_bloom_pass(iterations, i).stage == BloomStage::HorizontalBlur ==> spec_bloom_pass(
            iterations,
            i,
        ).horizontal == Some(1u32),
        spec_bloom_pass(iterations, i).stage == BloomStage::VerticalBlur ==> spec_bloom_pass(
            iterations,
            i,
        ).horizontal == Some(0u32),
        spec_bloom_pass(iterations, i).stage == BloomStage::Brightness || spec_bloom_pass(
            iterations,
            i,
        ).stage == BloomStage::Merge ==> spec_bloom_pass(iterations, i).horizontal is None,
        spec_bloom_pass(iterations, i).clear_white <==> spec_bloom_pass(iterations, i).stage
            == BloomStage::Merge,
{
}

} // verus!
