use strahl::cubemap::{face_file, validate_cubemap, CubemapError, FaceInfo};

fn faces(side: u32) -> Vec<FaceInfo> {
    vec![FaceInfo { width: side, height: side, rgba8: true }; 6]
}

#[test]
fn face_files_in_layer_order() {
    let names: Vec<&str> = (0..6).map(face_file).collect();
    assert_eq!(
        names,
        vec!["x_plus.png", "x_minus.png", "y_plus.png", "y_minus.png", "z_plus.png", "z_minus.png"]
    );
}

#[test]
fn valid_cubemap_gives_its_side() {
    assert_eq!(validate_cubemap(&faces(512), false), Ok(512));
}

#[test]
fn faces_must_be_square() {
    let mut f = faces(64);
    f[3] = FaceInfo { width: 64, height: 32, rgba8: true };
    assert_eq!(validate_cubemap(&f, true), Err(CubemapError::NotSquare { face: 3 }));
}

#[test]
fn faces_must_share_dimensions() {
    let mut f = faces(64);
    f[5] = FaceInfo { width: 32, height: 32, rgba8: true };
    f[2] = FaceInfo { width: 128, height: 128, rgba8: false };
    assert_eq!(validate_cubemap(&f, false), Err(CubemapError::SizeMismatch { face: 2 }));
}

#[test]
fn faces_must_be_rgba8_unless_transcoded() {
    let mut f = faces(16);
    f[4].rgba8 = false;
    assert_eq!(validate_cubemap(&f, false), Err(CubemapError::NotRgba8 { face: 4 }));
    assert_eq!(validate_cubemap(&f, true), Ok(16));
}
