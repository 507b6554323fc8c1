//! Decoding of vertex attributes and triangle indices from a glTF buffer.
//!
//! All values in a glTF buffer are little-endian.  Floating-point attributes
//! are returned as the bit patterns of their IEEE-754 single-precision
//! values; the caller turns them into floats.
use crate::reader::{GltfBufferView, GltfGeometry};
use vstd::prelude::*;

verus! {

/// The unsigned little-endian integer stored in the `n` bytes of `s` that
/// start at `at`.
pub open spec fn le_uint(s: Seq<u8>, at: int, n: nat) -> int
    decreases n,
{
    if n == 0 {
        0
    } else {
        s[at] + 256 * le_uint(s, at + 1, (n - 1) as nat)
    }
}

/// First byte of element `i` of `view`.
pub open spec fn element_start(view: GltfBufferView, i: int) -> int {
    view.offset + i * view.stride
}

/// Each of the first `count` elements of `view` has `width` bytes inside a
/// buffer of `len` bytes.
pub open spec fn elements_in_bounds(view: GltfBufferView, count: int, width: int, len: int) -> bool {
    forall|i: int| 0 <= i < count ==> #[trigger] element_start(view, i) + width <= len
}

impl GltfGeometry {
    /// Number of whole triangles that the index accessor describes.
    pub open spec fn triangle_count(&self) -> int {
        (self.indices.count / 3) as int
    }

    /// Every index of every whole triangle can be read: where there is a
    /// whole triangle, indices have 1, 2 or 4 bytes, and they lie inside the
    /// buffer.
    pub open spec fn indices_readable(&self) -> bool {
        &&& (self.triangle_count() > 0 ==> (self.index_size == 1 || self.index_size == 2
            || self.index_size == 4))
        &&& elements_in_bounds(
            self.indices,
            self.triangle_count() * 3,
            self.index_size as int,
            self.buffer@.len() as int,
        )
    }

    /// Index number `j` of the index accessor.
    pub open spec fn spec_index(&self, j: int) -> int {
        le_uint(self.buffer@, element_start(self.indices, j), self.index_size as nat)
    }

    /// Whether every index of every whole triangle can be read.
    pub fn check_indices_readable(&self) -> (r: bool)
        ensures
            r == self.indices_readable(),
    {
        let n = self.indices.count / 3 * 3;
        if n > 0 && !(self.index_size == 1 || self.index_size == 2 || self.index_size == 4) {
            return false;
        }
        let len = self.buffer.len();
        let width = self.index_size as usize;
        check_elements_in_bounds(self.indices, n, width, len)
    }
}

/// Whether each of the first `count` elements of `view` has `width` bytes
/// inside a buffer of `len` bytes.
pub fn check_elements_in_bounds(view: GltfBufferView, count: usize, width: usize, len: usize) -> (r:
    bool)
    ensures
        r == elements_in_bounds(view, count as int, width as int, len as int),
{
    let mut i: usize = 0;
    while i < count
        invariant
            i <= count,
            elements_in_bounds(view, i as int, width as int, len as int),
        decreases count - i,
    {
        // element_start(view, i) + width <= len is tested without overflow:
        // first i * stride, then the offset, then the width.
        if view.stride != 0 && i > (len / view.stride) {
            proof {
                assert(i * view.stride > len) by (nonlinear_arith)
                    requires
                        i > len / view.stride,
                        view.stride > 0,
                ;
                assert(element_start(view, i as int) + width > len);
            }
            return false;
        }
        proof {
            if view.stride != 0 {
                assert(i * view.stride <= len) by (nonlinear_arith)
                    requires
                        i <= len / view.stride,
                        view.stride > 0,
                ;
            } else {
                assert(i * view.stride == 0) by (nonlinear_arith)
                    requires
                        view.stride == 0,
                ;
            }
        }
        let step = i * view.stride;
        if view.offset > len - step || width > len - step - view.offset {
            assert(element_start(view, i as int) + width > len);
            return false;
        }
        proof {
            assert forall|k: int| 0 <= k < i + 1 implies #[trigger] element_start(view, k) + width
                <= len by {
                if k < i {
                    assert(elements_in_bounds(view, i as int, width as int, len as int));
                }
            }
        }
        i = i + 1;
    }
    true
}

/// Reads the unsigned little-endian integer of `n` (1, 2 or 4) bytes that
/// starts at `at`.
fn read_le(buffer: &[u8], at: usize, n: u8) -> (v: u32)
    requires
        n == 1 || n == 2 || n == 4,
        at + n <= buffer@.len(),
    ensures
        v as int == le_uint(buffer@, at as int, n as nat),
{
    reveal_with_fuel(le_uint, 5);
    let b0 = buffer[at] as u32;
    if n == 1 {
        b0
    } else if n == 2 {
        let b1 = buffer[at + 1] as u32;
        b0 + 256 * b1
    } else {
        let b1 = buffer[at + 1] as u32;
        let b2 = buffer[at + 2] as u32;
        let b3 = buffer[at + 3] as u32;
        b0 + 256 * (b1 + 256 * (b2 + 256 * b3))
    }
}

/// Reads the triangles of the geometry: triangle `t` holds the indices
/// `3t`, `3t + 1` and `3t + 2` of the index accessor, each read as a
/// little-endian integer of `index_size` bytes.  A last, incomplete triangle
/// is left out.
pub fn extract_indices(geom: &GltfGeometry) -> (r: Vec<[u32; 3]>)
    requires
        geom.indices_readable(),
    ensures
        r@.len() == geom.triangle_count(),
        forall|t: int, k: int|
            0 <= t < r@.len() && 0 <= k < 3 ==> #[trigger] r@[t][k] as int == geom.spec_index(
                3 * t + k,
            ),
{
    let n = geom.indices.count / 3;
    let mut res: Vec<[u32; 3]> = Vec::new();
    let mut i: usize = 0;
    while i < n
        invariant
            n == geom.triangle_count(),
            geom.indices_readable(),
            i <= n,
            res@.len() == i,
            forall|t: int, k: int|
                0 <= t < i && 0 <= k < 3 ==> #[trigger] res@[t][k] as int == geom.spec_index(
                    3 * t + k,
                ),
        decreases n - i,
    {
        let i0 = read_index(geom, i * 3);
        let i1 = read_index(geom, i * 3 + 1);
        let i2 = read_index(geom, i * 3 + 2);
        let tri = [i0, i1, i2];
        assert(tri[0] == i0 && tri[1] == i1 && tri[2] == i2);
        res.push(tri);
        proof {
            assert forall|t: int, k: int| 0 <= t < i + 1 && 0 <= k < 3 implies #[trigger] res@[t][k]
                as int == geom.spec_index(3 * t + k) by {
                if t == i {
                    assert(res@[t] == tri);
                    if k == 0 {
                    } else if k == 1 {
                    } else {
                    }
                }
            }
        }
        i = i + 1;
    }
    res
}

/// Reads index number `j` of the index accessor.
fn read_index(geom: &GltfGeometry, j: usize) -> (v: u32)
    requires
        geom.indices_readable(),
        j < geom.triangle_count() * 3,
    ensures
        v as int == geom.spec_index(j as int),
{
    let len = geom.buffer.len();
    assert(element_start(geom.indices, j as int) + geom.index_size <= len);
    proof {
        assert(0 <= j * geom.indices.stride) by (nonlinear_arith);
    }
    let at = geom.indices.offset + j * geom.indices.stride;
    read_le(geom.buffer.as_slice(), at, geom.index_size)
}

/// Reads `count` elements of three little-endian 32-bit words each: the bit
/// patterns of the three floats of each element of `view`.
pub fn extract_vec3(view: &GltfBufferView, buffer: &[u8]) -> (r: Vec<[u32; 3]>)
    requires
        elements_in_bounds(*view, view.count as int, 12, buffer@.len() as int),
    ensures
        r@.len() == view.count,
        forall|i: int, k: int|
            0 <= i < r@.len() && 0 <= k < 3 ==> #[trigger] r@[i][k] as int == le_uint(
                buffer@,
                element_start(*view, i) + 4 * k,
                4,
            ),
{
    let mut res: Vec<[u32; 3]> = Vec::new();
    let mut i: usize = 0;
    while i < view.count
        invariant
            elements_in_bounds(*view, view.count as int, 12, buffer@.len() as int),
            i <= view.count,
            res@.len() == i,
            forall|t: int, k: int|
                0 <= t < i && 0 <= k < 3 ==> #[trigger] res@[t][k] as int == le_uint(
                    buffer@,
                    element_start(*view, t) + 4 * k,
                    4,
                ),
        decreases view.count - i,
    {
        let len = buffer.len();
        assert(element_start(*view, i as int) + 12 <= len);
        proof {
            assert(0 <= i * view.stride) by (nonlinear_arith);
        }
        let at = view.offset + i * view.stride;
        let x = read_le(buffer, at, 4);
        let y = read_le(buffer, at + 4, 4);
        let z = read_le(buffer, at + 8, 4);
        let e = [x, y, z];
        assert(e[0] == x && e[1] == y && e[2] == z);
        res.push(e);
        proof {
            assert forall|t: int, k: int| 0 <= t < i + 1 && 0 <= k < 3 implies #[trigger] res@[t][k]
                as int == le_uint(buffer@, element_start(*view, t) + 4 * k, 4) by {
                if t == i {
                    assert(res@[t] == e);
                    if k == 0 {
                    } else if k == 1 {
                    } else {
                    }
                }
            }
        }
        i = i + 1;
    }
    res
}

/// Reads `count` elements of two little-endian 32-bit words each: the bit
/// patterns of the two floats of each element of `view`.
pub fn extract_vec2(view: &GltfBufferView, buffer: &[u8]) -> (r: Vec<[u32; 2]>)
    requires
        elements_in_bounds(*view, view.count as int, 8, buffer@.len() as int),
    ensures
        r@.len() == view.count,
        forall|i: int, k: int|
            0 <= i < r@.len() && 0 <= k < 2 ==> #[trigger] r@[i][k] as int == le_uint(
                buffer@,
                element_start(*view, i) + 4 * k,
                4,
            ),
{
    let mut res: Vec<[u32; 2]> = Vec::new();
    let mut i: usize = 0;
    while i < view.count
        invariant
            elements_in_bounds(*view, view.count as int, 8, buffer@.len() as int),
            i <= view.count,
            res@.len() == i,
            forall|t: int, k: int|
                0 <= t < i && 0 <= k < 2 ==> #[trigger] res@[t][k] as int == le_uint(
                    buffer@,
                    element_start(*view, t) + 4 * k,
                    4,
                ),
        decreases view.count - i,
    {
        let len = buffer.len();
        assert(element_start(*view, i as int) + 8 <= len);
        proof {
            assert(0 <= i * view.stride) by (nonlinear_arith);
        }
        let at = view.offset + i * view.stride;
        let x = read_le(buffer, at, 4);
        let y = read_le(buffer, at + 4, 4);
        let e = [x, y];
        assert(e[0] == x && e[1] == y);
        res.push(e);
        proof {
            assert forall|t: int, k: int| 0 <= t < i + 1 && 0 <= k < 2 implies #[trigger] res@[t][k]
                as int == le_uint(buffer@, element_start(*view, t) + 4 * k, 4) by {
                if t == i {
                    assert(res@[t] == e);
                    if k == 0 {
                    } else {
                    }
                }
            }
        }
        i = i + 1;
    }
    res
}

/// The decoded data of a triangle mesh: positions, normals and texture
/// coordinates as bit patterns of floats, and triangles of vertex indices.
pub struct MeshData {
    pub vertices: Vec<[u32; 3]>,
    pub normals: Vec<[u32; 3]>,
    pub uvs: Vec<[u32; 2]>,
    pub indices: Vec<[u32; 3]>,
}

impl GltfGeometry {
    /// Every position, normal, texture coordinate and index of the geometry
    /// lies inside the buffer.
    pub open spec fn mesh_readable(&self) -> bool {
        &&& elements_in_bounds(
            self.position,
            self.position.count as int,
            12,
            self.buffer@.len() as int,
        )
        &&& elements_in_bounds(self.normals, self.normals.count as int, 12, self.buffer@.len() as int)
        &&& elements_in_bounds(self.uv, self.uv.count as int, 8, self.buffer@.len() as int)
        &&& self.indices_readable()
    }

    /// Whether every part of the mesh lies inside the buffer.
    pub fn check_mesh_readable(&self) -> (r: bool)
        ensures
            r == self.mesh_readable(),
    {
        let len = self.buffer.len();
        check_elements_in_bounds(self.position, self.position.count, 12, len)
            && check_elements_in_bounds(self.normals, self.normals.count, 12, len)
            && check_elements_in_bounds(self.uv, self.uv.count, 8, len)
            && self.check_indices_readable()
    }
}

/// Decodes the mesh of a glTF geometry: its positions, normals, texture
/// coordinates and triangles.
pub fn decode_mesh(geom: &GltfGeometry) -> (r: MeshData)
    requires
        geom.mesh_readable(),
    ensures
        r.vertices@.len() == geom.position.count,
        forall|i: int, k: int|
            0 <= i < r.vertices@.len() && 0 <= k < 3 ==> #[trigger] r.vertices@[i][k] as int
                == le_uint(geom.buffer@, element_start(geom.position, i) + 4 * k, 4),
        r.normals@.len() == geom.normals.count,
        forall|i: int, k: int|
            0 <= i < r.normals@.len() && 0 <= k < 3 ==> #[trigger] r.normals@[i][k] as int
                == le_uint(geom.buffer@, element_start(geom.normals, i) + 4 * k, 4),
        r.uvs@.len() == geom.uv.count,
        forall|i: int, k: int|
            0 <= i < r.uvs@.len() && 0 <= k < 2 ==> #[trigger] r.uvs@[i][k] as int == le_uint(
                geom.buffer@,
                element_start(geom.uv, i) + 4 * k,
                4,
            ),
        r.indices@.len() == geom.triangle_count(),
        forall|t: int, k: int|
            0 <= t < r.indices@.len() && 0 <= k < 3 ==> #[trigger] r.indices@[t][k] as int
                == geom.spec_index(3 * t + k),
{
    let buffer = geom.buffer.as_slice();
    let vertices = extract_vec3(&geom.position, buffer);
    let normals = extract_vec3(&geom.normals, buffer);
    let uvs = extract_vec2(&geom.uv, buffer);
    let indices = extract_indices(geom);
    MeshData { vertices, normals, uvs, indices }
}

} // verus!
