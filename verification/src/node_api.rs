//! Plain types exchanged with the Node.js host.
use vstd::prelude::*;
use vstd::string::StringExecFns;

verus! {

pub struct Inner {
    pub y: u32,
}

pub struct Outer {
    pub x: u32,
    pub i: Inner,
}

pub struct Hello {
    pub x: u32,
    pub path: String,
}

impl Hello {
    /// A greeting for `x` with the fixed path `asdfasdf`.
    pub fn new(x: u32) -> (r: Self)
        ensures
            r.x == x,
            r.path@ == "asdfasdf"@,
    {
        Hello { x, path: String::from_str("asdfasdf") }
    }
}

/// One plane of a shared texture.
pub struct Plane {
    /// Distance between rows, in bytes.
    stride: usize,
    /// Offset of the plane in its memory object, in bytes.
    offset: usize,
    /// Size of the plane, in bytes.
    size: usize,
    /// File descriptor of the memory object.
    fd: usize,
}

pub struct Size {
    pub width: i64,
    pub height: i64,
}

/// A rectangle with integer coordinates.
pub struct Rectangle {
    pub height: i64,
    pub width: i64,
    /// The x coordinate of the origin.
    pub x: i64,
    /// The y coordinate of the origin.
    pub y: i64,
}

pub struct NativePixmap {}

/// Layout of the pixels of a shared texture.
#[allow(non_camel_case_types)]
#[derive(Clone, Copy, Debug, PartialEq, Eq, Structural)]
pub enum PixelFormat {
    bgra,
    rgba,
    rgbaf16,
    nv12,
}

pub struct SharedTextureHandle {
    pub nt_handle: i64,
}

/// A greeting 100 above `input`, with the given working directory as path.
pub fn plus_100(input: u32, cwd: String) -> (r: Hello)
    requires
        input + 100 <= u32::MAX,
    ensures
        r.x == input + 100,
        r.path == cwd,
{
    Hello { x: input + 100, path: cwd }
}

/// Side of the test texture, in pixels.
pub const TEX_SIDE: i32 = 20;

/// The pixels of the test texture: 20 by 20 pixels, each the big-endian
/// bytes of `0xFF000088`.
pub fn tex_wrapper_pixels() -> (r: Vec<u8>)
    ensures
        r@.len() == 1600,
        forall|i: int|
            0 <= i < 400 ==> #[trigger] r@[4 * i] == 0xffu8 && r@[4 * i + 1] == 0u8 && r@[4 * i
                + 2] == 0u8 && r@[4 * i + 3] == 0x88u8,
{
    let mut r: Vec<u8> = Vec::new();
    let mut i: usize = 0;
    while i < 400
        invariant
            i <= 400,
            r@.len() == 4 * i,
            forall|j: int|
                0 <= j < i ==> #[trigger] r@[4 * j] == 0xffu8 && r@[4 * j + 1] == 0u8 && r@[4 * j
                    + 2] == 0u8 && r@[4 * j + 3] == 0x88u8,
        decreases 400 - i,
    {
        let ghost before = r@;
        r.push(0xffu8);
        r.push(0u8);
        r.push(0u8);
        r.push(0x88u8);
        assert(r@ == before + seq![0xffu8, 0u8, 0u8, 0x88u8]);
        assert forall|j: int| 0 <= j < i + 1 implies #[trigger] r@[4 * j] == 0xffu8 && r@[4 * j
            + 1] == 0u8 && r@[4 * j + 2] == 0u8 && r@[4 * j + 3] == 0x88u8 by {
            if j < i {
                assert(r@[4 * j] == before[4 * j]);
                assert(r@[4 * j + 1] == before[4 * j + 1]);
                assert(r@[4 * j + 2] == before[4 * j + 2]);
                assert(r@[4 * j + 3] == before[4 * j + 3]);
            }
        }
        i = i + 1;
    }
    r
}

} // verus!
