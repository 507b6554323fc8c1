use strahl::bloom::{
    bloom_pass, bloom_settings, pass_count, BloomImage, BloomPass, BloomStage, BLOOM_BLUR_ITERATIONS,
    BLOOM_KERNEL_DEPTH,
};
use strahl::cubemap::{skybox_extent, skybox_face_copies, FaceCopy, TextureExtent, SKYBOX_SIDE};
use strahl::rasterizer::{
    choose_presenter, clamp_viewport, present_outcome, PresentOutcome, PresentTargetKind,
    PresenterKind, SetupError, SurfaceStatus, WgpuSetupKind,
};

#[test]
fn bloom_settings_halve_the_target_and_blur_at_least_once() {
    let s = bloom_settings(1024, BLOOM_BLUR_ITERATIONS);
    assert_eq!(s.downscaled_dim, 512);
    assert_eq!(s.blur_iterations, 2);
    assert_eq!(bloom_settings(1025, 0).downscaled_dim, 512);
    assert_eq!(bloom_settings(1025, 0).blur_iterations, 1);
    assert_eq!(bloom_settings(1, 7).downscaled_dim, 0);
    assert_eq!(BLOOM_KERNEL_DEPTH, 12);
}

#[test]
fn bloom_passes_in_order() {
    let n = pass_count(2);
    assert_eq!(n, 6);
    let stages: Vec<BloomStage> = (0..n).map(|i| bloom_pass(2, i).stage).collect();
    assert_eq!(
        stages,
        vec![
            BloomStage::Brightness,
            BloomStage::HorizontalBlur,
            BloomStage::VerticalBlur,
            BloomStage::HorizontalBlur,
            BloomStage::VerticalBlur,
            BloomStage::Merge,
        ]
    );
    assert_eq!(
        bloom_pass(2, 0),
        BloomPass {
            stage: BloomStage::Brightness,
            source: BloomImage::Origin,
            target: BloomImage::BrightRegions,
            clear_white: false,
            horizontal: None,
        }
    );
    assert_eq!(bloom_pass(2, 3).horizontal, Some(1));
    assert_eq!(bloom_pass(2, 4).horizontal, Some(0));
    assert_eq!(bloom_pass(2, 4).source, BloomImage::Temp);
    let last = bloom_pass(2, 5);
    assert_eq!((last.source, last.target, last.clear_white), (BloomImage::BrightRegions, BloomImage::Target, true));
    assert_eq!(BloomStage::Merge.label(), "merge blur");
    assert_eq!(BloomStage::HorizontalBlur.label(), "bloom horizontal blur");
}

#[test]
fn bloom_passes_chain_from_origin_to_target() {
    for iterations in [1u32, 2, 5] {
        let n = pass_count(iterations);
        assert_eq!(bloom_pass(iterations, 0).source, BloomImage::Origin);
        assert_eq!(bloom_pass(iterations, n - 1).target, BloomImage::Target);
        for i in 0..n - 1 {
            assert_eq!(bloom_pass(iterations, i + 1).source, bloom_pass(iterations, i).target);
        }
    }
}

#[test]
fn presenters_by_setup() {
    assert_eq!(choose_presenter(WgpuSetupKind::External, PresentTargetKind::ExternalTexture), Ok(PresenterKind::Texture));
    assert_eq!(
        choose_presenter(WgpuSetupKind::External, PresentTargetKind::ManagedWindow),
        Err(SetupError::ExternalSetupNeedsExternalTexture)
    );
    assert_eq!(
        choose_presenter(WgpuSetupKind::External, PresentTargetKind::ManagedTexture),
        Err(SetupError::ExternalSetupNeedsExternalTexture)
    );
    assert_eq!(
        choose_presenter(WgpuSetupKind::Managed, PresentTargetKind::ExternalTexture),
        Err(SetupError::ExternalTextureNeedsExternalSetup)
    );
    assert_eq!(choose_presenter(WgpuSetupKind::Managed, PresentTargetKind::ManagedMappedRam), Ok(PresenterKind::MappedRam));
    assert_eq!(choose_presenter(WgpuSetupKind::Managed, PresentTargetKind::ManagedWindow), Ok(PresenterKind::Surface));
    assert_eq!(
        SetupError::ExternalTextureNeedsExternalSetup.message(),
        "External texture must be used with external wgpu setup"
    );
    assert_eq!(
        SetupError::ExternalSetupNeedsExternalTexture.message(),
        "Only external texture may be used with external wgpu setup"
    );
}

#[test]
fn presentation_outcomes() {
    assert_eq!(present_outcome(PresenterKind::Texture, SurfaceStatus::Lost), PresentOutcome::Stored);
    assert_eq!(present_outcome(PresenterKind::MappedRam, SurfaceStatus::Lost), PresentOutcome::Mapped);
    assert_eq!(present_outcome(PresenterKind::Surface, SurfaceStatus::Success), PresentOutcome::Submitted);
    assert_eq!(present_outcome(PresenterKind::Surface, SurfaceStatus::Suboptimal), PresentOutcome::Submitted);
    for s in [
        SurfaceStatus::Timeout,
        SurfaceStatus::Occluded,
        SurfaceStatus::Outdated,
        SurfaceStatus::Lost,
        SurfaceStatus::Validation,
    ] {
        assert_eq!(present_outcome(PresenterKind::Surface, s), PresentOutcome::Ignored);
    }
}

#[test]
fn viewport_is_clamped_to_the_texture() {
    assert_eq!(clamp_viewport(800, 600, 1024), (800, 600));
    assert_eq!(clamp_viewport(2000, 600, 1024), (1024, 600));
    assert_eq!(clamp_viewport(2000, 3000, 1024), (1024, 1024));
    assert_eq!(clamp_viewport(1024, 0, 1024), (1024, 0));
    let (w, h) = clamp_viewport(5000, 70, 512);
    assert_eq!(clamp_viewport(w, h, 512), (w, h));
}

#[test]
fn skybox_faces_go_to_their_layers() {
    assert_eq!(SKYBOX_SIDE, 512);
    assert_eq!(skybox_extent(), TextureExtent { width: 512, height: 512, layers: 6 });
    let copies = skybox_face_copies(256);
    assert_eq!(copies.len(), 6);
    for (i, c) in copies.iter().enumerate() {
        assert_eq!(
            *c,
            FaceCopy { layer: i as u32, bytes_per_row: 1024, rows_per_image: 256, width: 256, height: 256 }
        );
    }
}
