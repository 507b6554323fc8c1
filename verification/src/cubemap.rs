//! Validation of cubemaps.
//!
//! A cubemap is six PNG images in one directory, one per face of the unit
//! cube, each named after the coordinate ray through its face.  The images
//! must all have the same dimensions, each must be square, and each must be
//! stored as RGBA8; images in another format may be transcoded to RGBA8
//! where the caller allows it.
use vstd::prelude::*;

verus! {

/// File name of face `i`, in the order of the cube's array layers:
/// `x_plus.png`, `x_minus.png`, `y_plus.png`, `y_minus.png`, `z_plus.png`,
/// `z_minus.png`.
pub open spec fn spec_face_file(i: int) -> Seq<char> {
    if i == 0 {
        "x_plus.png"@
    } else if i == 1 {
        "x_minus.png"@
    } else if i == 2 {
        "y_plus.png"@
    } else if i == 3 {
        "y_minus.png"@
    } else if i == 4 {
        "z_plus.png"@
    } else {
        "z_minus.png"@
    }
}

/// File name of face `i` of a cubemap.
pub fn face_file(i: usize) -> (r: &'static str)
    requires
        i < 6,
    ensures
        r@ == spec_face_file(i as int),
{
    if i == 0 {
        "x_plus.png"
    } else if i == 1 {
        "x_minus.png"
    } else if i == 2 {
        "y_plus.png"
    } else if i == 3 {
        "y_minus.png"
    } else if i == 4 {
        "z_plus.png"
    } else {
        "z_minus.png"
    }
}

/// What validation reads of one face image.
#[derive(Clone, Copy, Debug, PartialEq, Eq, Structural)]
pub struct FaceInfo {
    pub width: u32,
    pub height: u32,
    /// The image is stored as 8-bit RGBA.
    pub rgba8: bool,
}

/// Why six images do not form a cubemap.
#[derive(Clone, Copy, Debug, PartialEq, Eq, Structural)]
pub enum CubemapError {
    /// The face's image is not square.
    NotSquare { face: usize },
    /// The face's image does not have the dimensions of the first face.
    SizeMismatch { face: usize },
    /// The face's image is not RGBA8 and transcoding was not allowed.
    NotRgba8 { face: usize },
}

/// What is wrong with face `i`, if anything: not square, then not of the
/// first face's size, then (where transcoding is not allowed) not RGBA8.
pub open spec fn face_problem(faces: Seq<FaceInfo>, i: int, transcode: bool) -> Option<
    CubemapError,
> {
    if faces[i].width != faces[i].height {
        Some(CubemapError::NotSquare { face: i as usize })
    } else if faces[i].width != faces[0].width || faces[i].height != faces[0].height {
        Some(CubemapError::SizeMismatch { face: i as usize })
    } else if !transcode && !faces[i].rgba8 {
        Some(CubemapError::NotRgba8 { face: i as usize })
    } else {
        None
    }
}

/// The six images form a cubemap.
pub open spec fn valid_cubemap(faces: Seq<FaceInfo>, transcode: bool) -> bool {
    &&& faces.len() == 6
    &&& forall|i: int, j: int|
        0 <= i < 6 && 0 <= j < 6 ==> (#[trigger] faces[i]).width == (#[trigger] faces[j]).width
            && faces[i].height == faces[j].height
    &&& forall|i: int| 0 <= i < 6 ==> (#[trigger] faces[i]).width == faces[i].height
    &&& forall|i: int| 0 <= i < 6 ==> transcode || (#[trigger] faces[i]).rgba8
}

/// Checks six face images, in layer order.  On success gives the side of
/// the cube's faces; otherwise the problem of the first face that has one.
pub fn validate_cubemap(faces: &Vec<FaceInfo>, transcode: bool) -> (r: Result<u32, CubemapError>)
    requires
        faces@.len() == 6,
    ensures
        match r {
            Ok(side) => valid_cubemap(faces@, transcode) && side == faces@[0].width,
            Err(e) => exists|i: int|
                0 <= i < 6 && face_problem(faces@, i, transcode) == Some(e) && forall|j: int|
                    0 <= j < i ==> #[trigger] face_problem(faces@, j, transcode) is None,
        },
        r is Ok <==> valid_cubemap(faces@, transcode),
{
    let first = faces[0];
    let mut i: usize = 0;
    while i < 6
        invariant
            faces@.len() == 6,
            first == faces@[0],
            i <= 6,
            forall|j: int| 0 <= j < i ==> #[trigger] face_problem(faces@, j, transcode) is None,
        decreases 6 - i,
    {
        let f = faces[i];
        if f.width != f.height {
            assert(face_problem(faces@, i as int, transcode) == Some(
                CubemapError::NotSquare { face: i },
            ));
            assert(!valid_cubemap(faces@, transcode)) by {
                assert(faces@[i as int].width != faces@[i as int].height);
            }
            return Err(CubemapError::NotSquare { face: i });
        }
        if f.width != first.width || f.height != first.height {
            assert(face_problem(faces@, i as int, transcode) == Some(
                CubemapError::SizeMismatch { face: i },
            ));
            assert(!valid_cubemap(faces@, transcode)) by {
                assert(faces@[i as int].width != faces@[0].width || faces@[i as int].height
                    != faces@[0].height);
            }
            return Err(CubemapError::SizeMismatch { face: i });
        }
        if !transcode && !f.rgba8 {
            assert(face_problem(faces@, i as int, transcode) == Some(
                CubemapError::NotRgba8 { face: i },
            ));
            assert(!valid_cubemap(faces@, transcode)) by {
                assert(!faces@[i as int].rgba8);
            }
            return Err(CubemapError::NotRgba8 { face: i });
        }
        i = i + 1;
    }
    proof {
        assert forall|a: int, b: int| 0 <= a < 6 && 0 <= b < 6 implies (#[trigger] faces@[a]).width
            == (#[trigger] faces@[b]).width && faces@[a].height == faces@[b].height by {
            assert(face_problem(faces@, a, transcode) is None);
            assert(face_problem(faces@, b, transcode) is None);
        }
        assert forall|a: int| 0 <= a < 6 implies (#[trigger] faces@[a]).width == faces@[a].height by {
            assert(face_problem(faces@, a, transcode) is None);
        }
        assert forall|a: int| 0 <= a < 6 implies transcode || (#[trigger] faces@[a]).rgba8 by {
            assert(face_problem(faces@, a, transcode) is None);
        }
    }
    Ok(first.width)
}

/// Side, in texels, of the skybox texture the six faces are copied into.
pub const SKYBOX_SIDE: u32 = 512;

/// Size of a texture: width and height in texels, and array layers.
#[derive(Clone, Copy, Debug, PartialEq, Eq, Structural)]
pub struct TextureExtent {
    pub width: u32,
    pub height: u32,
    pub layers: u32,
}

/// The size of the skybox texture: always `SKYBOX_SIDE` by `SKYBOX_SIDE`
/// texels with one layer per face, whatever the side of the face images.
pub fn skybox_extent() -> (r: TextureExtent)
    ensures
        r == (TextureExtent { width: SKYBOX_SIDE, height: SKYBOX_SIDE, layers: 6 }),
{
    TextureExtent { width: SKYBOX_SIDE, height: SKYBOX_SIDE, layers: 6 }
}

/// How one face image is copied into the skybox texture.
#[derive(Clone, Copy, Debug, PartialEq, Eq, Structural)]
pub struct FaceCopy {
    /// Array layer of the skybox texture that receives the face.
    pub layer: u32,
    /// Bytes from one row of the face image to the next.
    pub bytes_per_row: u32,
    /// Rows of the face image.
    pub rows_per_image: u32,
    /// Width of the copied region, in texels.
    pub width: u32,
    /// Height of the copied region, in texels.
    pub height: u32,
}

/// The copy of face `i` of a cubemap whose faces have side `dim`, stored as
/// RGBA8: a whole face, tightly packed, into layer `i`.
pub open spec fn spec_face_copy(dim: u32, i: int) -> FaceCopy {
    FaceCopy {
        layer: i as u32,
        bytes_per_row: (4 * dim) as u32,
        rows_per_image: dim,
        width: dim,
        height: dim,
    }
}

/// The copies that upload the six faces of side `dim` into the skybox
/// texture (of the size `skybox_extent` gives), in layer order: each copies
/// a `dim` by `dim` region at the texture's origin.
pub fn skybox_face_copies(dim: u32) -> (r: Vec<FaceCopy>)
    requires
        4 * dim <= u32::MAX,
    ensures
        r@.len() == 6,
        forall|i: int| 0 <= i < 6 ==> #[trigger] r@[i] == spec_face_copy(dim, i),
{
    let mut r: Vec<FaceCopy> = Vec::new();
    let mut i: u32 = 0;
    while i < 6
        invariant
            4 * dim <= u32::MAX,
            i <= 6,
            r@.len() == i,
            forall|j: int| 0 <= j < i ==> #[trigger] r@[j] == spec_face_copy(dim, j),
        decreases 6 - i,
    {
        r.push(
            FaceCopy {
                layer: i,
                bytes_per_row: 4 * dim,
                rows_per_image: dim,
                width: dim,
                height: dim,
            },
        );
        i = i + 1;
    }
    r
}

/// Each face of side `dim` is uploaded whole into its own layer, as a
/// tightly packed RGBA8 image: each row is `4 * dim` bytes (four bytes per
/// pixel, no padding), there are `dim` rows, and the face holds
/// `4 * dim * dim` bytes.
pub proof fn lemma_face_copies_tightly_packed(dim: u32, i: int)
    requires
        4 * dim <= u32::MAX,
        0 <= i < 6,
    ensures
        spec_face_copy(dim, i).layer == i,
        spec_face_copy(dim, i).bytes_per_row == 4 * dim,
        spec_face_copy(dim, i).rows_per_image == dim,
        spec_face_copy(dim, i).width == dim,
        spec_face_copy(dim, i).height == dim,
        spec_face_copy(dim, i).bytes_per_row * spec_face_copy(dim, i).rows_per_image == 4 * dim
            * dim,
{
    let c = spec_face_copy(dim, i);
    assert(c.bytes_per_row == 4 * dim);
    assert(c.bytes_per_row * c.rows_per_image == 4 * dim * dim) by (nonlinear_arith)
        requires
            c.bytes_per_row == 4 * dim,
            c.rows_per_image == dim,
    ;
}

} // verus!
