//! Validation of glTF geometry and decoding of its binary buffer.
//!
//! A glTF file is read by the glTF parser (outside this library) into a
//! [`GltfDocument`]: plain values describing its meshes, the accessors of
//! their primitives and the bytes of its buffers.  This module checks that
//! the document has the shape that `strahl` accepts for geometry, locates the
//! position, normal, UV and index data in the buffer, and decodes them.
//!
//! A valid document:
//! 1. has exactly one mesh;
//! 2. has exactly one buffer, holding all attributes;
//! 3. its mesh has exactly one primitive, with the attributes `POSITION`
//!    (three floats), `NORMAL` (three floats), `TEXCOORD_0` (two floats),
//!    and an index accessor of integral scalars;
//! 4. none of these accessors is sparse.
use vstd::prelude::*;

verus! {

/// Number of components of each element of an accessor.
#[derive(Clone, Copy, Debug, PartialEq, Eq, Structural)]
pub enum Dimensions {
    Scalar,
    Vec2,
    Vec3,
    Vec4,
    Mat2,
    Mat3,
    Mat4,
}

/// Type of each component of an accessor.
#[derive(Clone, Copy, Debug, PartialEq, Eq, Structural)]
pub enum DataType {
    I8,
    U8,
    I16,
    U16,
    U32,
    F32,
}

/// A buffer view as the glTF file states it.
#[derive(Clone, Copy, Debug)]
pub struct BufferViewInfo {
    /// Offset of the view in its buffer, in bytes.
    pub offset: usize,
    /// Length of the view, in bytes.
    pub length: usize,
    /// Distance between consecutive elements, where the file gives one.
    pub stride: Option<usize>,
}

/// An accessor as the glTF file states it.
#[derive(Clone, Copy, Debug)]
pub struct AccessorInfo {
    /// The accessor has a sparse part.
    pub sparse: bool,
    pub dimensions: Dimensions,
    pub data_type: DataType,
    /// Offset of the accessor within its view, in bytes.
    pub offset: usize,
    /// Number of elements.
    pub count: usize,
    /// Size of one element, in bytes.
    pub size: usize,
    /// The buffer view the accessor reads, if it has one.
    pub view: Option<BufferViewInfo>,
}

/// The accessors of a mesh primitive that geometry import reads.
#[derive(Clone, Copy, Debug)]
pub struct PrimitiveInfo {
    /// The `POSITION` attribute.
    pub positions: Option<AccessorInfo>,
    /// The `NORMAL` attribute.
    pub normals: Option<AccessorInfo>,
    /// The `TEXCOORD_0` attribute.
    pub tex_coords: Option<AccessorInfo>,
    /// The index accessor.
    pub indices: Option<AccessorInfo>,
}

/// A mesh of a glTF document.
#[derive(Debug)]
pub struct MeshInfo {
    pub primitives: Vec<PrimitiveInfo>,
}

/// What geometry import reads of a glTF document.
#[derive(Debug)]
pub struct GltfDocument {
    pub meshes: Vec<MeshInfo>,
    /// The contents of each buffer.
    pub buffers: Vec<Vec<u8>>,
}

/// Why a glTF document is refused as geometry.
#[derive(Clone, Copy, Debug, PartialEq, Eq, Structural)]
pub enum GltfError {
    /// The document does not hold exactly one mesh.
    WrongMeshCount,
    /// The document does not hold exactly one buffer.
    WrongBufferCount,
    /// The mesh does not hold exactly one primitive.
    WrongPrimitiveCount,
    /// The primitive has no `POSITION` attribute.
    MissingPositions,
    /// The primitive has no `NORMAL` attribute.
    MissingNormals,
    /// The primitive has no `TEXCOORD_0` attribute.
    MissingUv,
    /// The primitive has no index accessor.
    MissingIndices,
    /// A used accessor is sparse.
    SparseAccessor,
    /// A used accessor has elements of the wrong dimension.
    InvalidDimension,
    /// A used accessor has components of the wrong type.
    InvalidDataType,
}

impl GltfError {
    /// The error's message.
    pub fn message(&self) -> (r: &'static str)
        ensures
            r@ == match *self {
                GltfError::WrongMeshCount => "wrong count of meshes in gltf"@,
                GltfError::WrongBufferCount => "wrong count of buffers in gltf"@,
                GltfError::WrongPrimitiveCount => "wrong count of primitives in mesh"@,
                GltfError::MissingPositions => "mesh doesn't have position attribute"@,
                GltfError::MissingNormals => "mesh doesn't have normal map"@,
                GltfError::MissingUv => "mesh doesn't have UV map"@,
                GltfError::MissingIndices => "mesh doesn't have index buffer"@,
                GltfError::SparseAccessor => "sparse accessors are disallowed"@,
                GltfError::InvalidDimension => "invalid accessor dimension"@,
                GltfError::InvalidDataType => "invalid accessor data type"@,
            },
    {
        match self {
            GltfError::WrongMeshCount => "wrong count of meshes in gltf",
            GltfError::WrongBufferCount => "wrong count of buffers in gltf",
            GltfError::WrongPrimitiveCount => "wrong count of primitives in mesh",
            GltfError::MissingPositions => "mesh doesn't have position attribute",
            GltfError::MissingNormals => "mesh doesn't have normal map",
            GltfError::MissingUv => "mesh doesn't have UV map",
            GltfError::MissingIndices => "mesh doesn't have index buffer",
            GltfError::SparseAccessor => "sparse accessors are disallowed",
            GltfError::InvalidDimension => "invalid accessor dimension",
            GltfError::InvalidDataType => "invalid accessor data type",
        }
    }
}

/// Location of an attribute's elements in the buffer.
#[derive(Clone, Copy, Debug)]
pub struct GltfBufferView {
    /// Offset within the buffer: of the first element for an attribute
    /// (the view's offset plus the accessor's), of the buffer view alone for
    /// the indices (the accessor's own offset is not added).
    pub offset: usize,
    /// Count of entries in the accessor.
    pub count: usize,
    /// Length of the view in bytes.
    pub length: usize,
    /// Stride of the accessor.  Where the glTF file gives none, it is the
    /// size of one element.
    pub stride: usize,
}

/// Geometry read from a valid glTF document.
#[derive(Debug)]
pub struct GltfGeometry {
    pub position: GltfBufferView,
    pub normals: GltfBufferView,
    pub uv: GltfBufferView,
    pub indices: GltfBufferView,
    /// Size of one index, in bytes.
    pub index_size: u8,
    /// The document's only buffer.
    pub buffer: Vec<u8>,
}

/// Where each part of the geometry lies in the buffer.
pub struct GltfLayout {
    pub position: GltfBufferView,
    pub normals: GltfBufferView,
    pub uv: GltfBufferView,
    pub indices: GltfBufferView,
    pub index_size: u8,
}

/// An index accessor must hold integers.
pub open spec fn is_integral(t: DataType) -> bool {
    t != DataType::F32
}

/// The view of an attribute accessor: its offset is that of the view plus that
/// of the accessor, and its stride is the view's or else the element size.
/// `None` where the accessor has no view or the two offsets overflow.
pub open spec fn spec_attribute_location(acc: AccessorInfo) -> Option<GltfBufferView> {
    match acc.view {
        None => None,
        Some(v) => if v.offset + acc.offset > usize::MAX {
            None
        } else {
            Some(
                GltfBufferView {
                    offset: (v.offset + acc.offset) as usize,
                    count: acc.count,
                    length: v.length,
                    stride: match v.stride {
                        Some(s) => s,
                        None => acc.size,
                    },
                },
            )
        },
    }
}

/// The view of an index accessor: its offset is that of the view alone.
/// `None` where the accessor has no view.
pub open spec fn spec_index_location(acc: AccessorInfo) -> Option<GltfBufferView> {
    match acc.view {
        None => None,
        Some(v) => Some(
            GltfBufferView {
                offset: v.offset,
                count: acc.count,
                length: v.length,
                stride: match v.stride {
                    Some(s) => s,
                    None => acc.size,
                },
            },
        ),
    }
}

/// Outcome of reading an attribute accessor that must have elements of
/// `dims` components of type `ty`: an error for the first check that fails,
/// or its location.  `None` where reading it panics.
pub open spec fn spec_attribute_view(acc: AccessorInfo, dims: Dimensions, ty: DataType) -> Option<
    Result<GltfBufferView, GltfError>,
> {
    if acc.sparse {
        Some(Err(GltfError::SparseAccessor))
    } else if acc.dimensions != dims {
        Some(Err(GltfError::InvalidDimension))
    } else if acc.data_type != ty {
        Some(Err(GltfError::InvalidDataType))
    } else {
        match spec_attribute_location(acc) {
            Some(v) => Some(Ok(v)),
            None => None,
        }
    }
}

/// Outcome of reading an index accessor whose elements must have
/// `dimensions` and integral components.  `None` where reading it panics.
pub open spec fn spec_index_view(acc: AccessorInfo, dimensions: Dimensions) -> Option<
    Result<GltfBufferView, GltfError>,
> {
    if acc.sparse {
        Some(Err(GltfError::SparseAccessor))
    } else if acc.dimensions != dimensions {
        Some(Err(GltfError::InvalidDimension))
    } else if !is_integral(acc.data_type) {
        Some(Err(GltfError::InvalidDataType))
    } else {
        match spec_index_location(acc) {
            Some(v) => Some(Ok(v)),
            None => None,
        }
    }
}

/// Outcome of importing the geometry of primitive `p`.  `None` where import
/// panics.
pub open spec fn spec_primitive_layout(p: PrimitiveInfo) -> Option<Result<GltfLayout, GltfError>> {
    if p.positions is None {
        Some(Err(GltfError::MissingPositions))
    } else if p.normals is None {
        Some(Err(GltfError::MissingNormals))
    } else if p.tex_coords is None {
        Some(Err(GltfError::MissingUv))
    } else if p.indices is None {
        Some(Err(GltfError::MissingIndices))
    } else {
        let idx = p.indices->0;
        match spec_attribute_view(p.positions->0, Dimensions::Vec3, DataType::F32) {
            None => None,
            Some(Err(e)) => Some(Err(e)),
            Some(Ok(position)) => match spec_attribute_view(
                p.normals->0,
                Dimensions::Vec3,
                DataType::F32,
            ) {
                None => None,
                Some(Err(e)) => Some(Err(e)),
                Some(Ok(normals)) => match spec_attribute_view(
                    p.tex_coords->0,
                    Dimensions::Vec2,
                    DataType::F32,
                ) {
                    None => None,
                    Some(Err(e)) => Some(Err(e)),
                    Some(Ok(uv)) => match spec_index_view(idx, Dimensions::Scalar) {
                        None => None,
                        Some(Err(e)) => Some(Err(e)),
                        Some(Ok(indices)) => Some(
                            Ok(
                                GltfLayout {
                                    position,
                                    normals,
                                    uv,
                                    indices,
                                    index_size: idx.size as u8,
                                },
                            ),
                        ),
                    },
                },
            },
        }
    }
}

impl GltfDocument {
    /// Outcome of importing the document's geometry: the first failing check
    /// in the order of the validity conditions gives the error.  `None` where
    /// import panics: a used accessor that passes its checks has no buffer
    /// view, or its offsets overflow.
    pub open spec fn spec_layout(&self) -> Option<Result<GltfLayout, GltfError>> {
        if self.meshes@.len() != 1 {
            Some(Err(GltfError::WrongMeshCount))
        } else if self.buffers@.len() != 1 {
            Some(Err(GltfError::WrongBufferCount))
        } else if self.meshes@[0].primitives@.len() != 1 {
            Some(Err(GltfError::WrongPrimitiveCount))
        } else {
            spec_primitive_layout(self.meshes@[0].primitives@[0])
        }
    }

    /// Import of this document does not panic.
    pub open spec fn spec_importable(&self) -> bool {
        self.spec_layout() is Some
    }
}

/// A used accessor meets the validity conditions.
pub open spec fn accessor_accepted(acc: Option<AccessorInfo>, dims: Dimensions, ty: DataType) -> bool {
    &&& acc matches Some(a)
    &&& !a.sparse
    &&& a.dimensions == dims
    &&& a.data_type == ty
}

/// The document meets all validity conditions of geometry import.
pub open spec fn valid_geometry_document(doc: &GltfDocument) -> bool {
    &&& doc.meshes@.len() == 1
    &&& doc.buffers@.len() == 1
    &&& doc.meshes@[0].primitives@.len() == 1
    &&& {
        let p = doc.meshes@[0].primitives@[0];
        &&& accessor_accepted(p.positions, Dimensions::Vec3, DataType::F32)
        &&& accessor_accepted(p.normals, Dimensions::Vec3, DataType::F32)
        &&& accessor_accepted(p.tex_coords, Dimensions::Vec2, DataType::F32)
        &&& p.indices matches Some(i)
        &&& !i.sparse
        &&& i.dimensions == Dimensions::Scalar
        &&& is_integral(i.data_type)
    }
}

/// Law: among the documents whose import does not panic, import succeeds on
/// exactly those that meet the validity conditions.
pub proof fn lemma_import_accepts_exactly_valid_documents(doc: &GltfDocument)
    requires
        doc.spec_importable(),
    ensures
        (doc.spec_layout()->0 is Ok) <==> valid_geometry_document(doc),
{
}

/// Law: an attribute accessor that is not sparse, has the wanted dimension
/// and component type, and lies in a buffer view is located where the view
/// and the accessor put it: at the view's offset plus the accessor's, with
/// the accessor's count and the view's length, and with the view's stride
/// where it states one and the element size otherwise.
pub proof fn lemma_attribute_view_location(acc: AccessorInfo, dims: Dimensions, ty: DataType)
    requires
        !acc.sparse,
        acc.dimensions == dims,
        acc.data_type == ty,
        acc.view matches Some(v) && v.offset + acc.offset <= usize::MAX,
    ensures
        spec_attribute_view(acc, dims, ty) matches Some(Ok(loc)) && {
            let v = acc.view->0;
            &&& loc.offset == v.offset + acc.offset
            &&& loc.count == acc.count
            &&& loc.length == v.length
            &&& (v.stride matches Some(s) ==> loc.stride == s)
            &&& (v.stride is None ==> loc.stride == acc.size)
        },
{
}

/// Law: an index accessor that is not sparse, has the wanted dimension and
/// components of any integer type (8, 16 or 32 bits, signed or not), and lies
/// in a buffer view is accepted and located at the view's offset (the
/// accessor's own offset is not added), with the accessor's count, the view's
/// length, and the view's stride where it states one and the element size
/// otherwise.  Float components are refused.
pub proof fn lemma_index_view_location(acc: AccessorInfo, dims: Dimensions)
    requires
        !acc.sparse,
        acc.dimensions == dims,
        acc.view is Some,
    ensures
        acc.data_type != DataType::F32 ==> (spec_index_view(acc, dims) matches Some(Ok(loc)) && {
            let v = acc.view->0;
            &&& loc.offset == v.offset
            &&& loc.count == acc.count
            &&& loc.length == v.length
            &&& (v.stride matches Some(s) ==> loc.stride == s)
            &&& (v.stride is None ==> loc.stride == acc.size)
        }),
        acc.data_type == DataType::F32 ==> spec_index_view(acc, dims) == Some(
            Err::<GltfBufferView, GltfError>(GltfError::InvalidDataType),
        ),
{
}

/// Law: the geometry imported from a document locates each part where its
/// accessor and buffer view put it: attributes at the view's offset plus the
/// accessor's, indices at the view's offset; each with the view's stride
/// where it states one and the element size otherwise; and the index size
/// is the index accessor's element size.
pub proof fn lemma_imported_locations(doc: &GltfDocument)
    requires
        doc.spec_layout() matches Some(Ok(_)),
    ensures
        ({
            let l = doc.spec_layout()->0->Ok_0;
            let p = doc.meshes@[0].primitives@[0];
            let (pa, na, ua, ia) = (p.positions->0, p.normals->0, p.tex_coords->0, p.indices->0);
            &&& l.position.offset == pa.view->0.offset + pa.offset
            &&& (pa.view->0.stride matches Some(st) ==> l.position.stride == st)
            &&& (pa.view->0.stride is None ==> l.position.stride == pa.size)
            &&& l.normals.offset == na.view->0.offset + na.offset
            &&& (na.view->0.stride matches Some(st) ==> l.normals.stride == st)
            &&& (na.view->0.stride is None ==> l.normals.stride == na.size)
            &&& l.uv.offset == ua.view->0.offset + ua.offset
            &&& (ua.view->0.stride matches Some(st) ==> l.uv.stride == st)
            &&& (ua.view->0.stride is None ==> l.uv.stride == ua.size)
            &&& l.indices.offset == ia.view->0.offset
            &&& (ia.view->0.stride matches Some(st) ==> l.indices.stride == st)
            &&& (ia.view->0.stride is None ==> l.indices.stride == ia.size)
            &&& l.indices.count == ia.count
            &&& l.index_size == ia.size as u8
        }),
{
}

/// Law: a document with one mesh, one buffer and one primitive whose
/// attributes are accepted imports successfully whenever its index accessor
/// is a non-sparse scalar of any integer component type, 32-bit indices
/// included.
pub proof fn lemma_integer_indices_are_imported(doc: &GltfDocument)
    requires
        doc.spec_importable(),
        doc.meshes@.len() == 1,
        doc.buffers@.len() == 1,
        doc.meshes@[0].primitives@.len() == 1,
        accessor_accepted(doc.meshes@[0].primitives@[0].positions, Dimensions::Vec3, DataType::F32),
        accessor_accepted(doc.meshes@[0].primitives@[0].normals, Dimensions::Vec3, DataType::F32),
        accessor_accepted(doc.meshes@[0].primitives@[0].tex_coords, Dimensions::Vec2, DataType::F32),
        doc.meshes@[0].primitives@[0].indices matches Some(i) && !i.sparse && i.dimensions
            == Dimensions::Scalar && i.data_type != DataType::F32,
    ensures
        doc.spec_layout() matches Some(Ok(l)) && l.index_size == doc.meshes@[0].primitives@[
            0
        ].indices->0.size as u8,
{
}

impl GltfBufferView {
    /// Fails where the accessor is sparse.
    fn validate_not_sparse(acc: &AccessorInfo) -> (r: Result<(), GltfError>)
        ensures
            r == (if acc.sparse {
                Err(GltfError::SparseAccessor)
            } else {
                Ok(())
            }),
    {
        if acc.sparse {
            Err(GltfError::SparseAccessor)
        } else {
            Ok(())
        }
    }

    /// Fails where the accessor's elements do not have `dimensions` components.
    fn validate_dim(acc: &AccessorInfo, dimensions: Dimensions) -> (r: Result<(), GltfError>)
        ensures
            r == (if acc.dimensions != dimensions {
                Err(GltfError::InvalidDimension)
            } else {
                Ok(())
            }),
    {
        if acc.dimensions != dimensions {
            Err(GltfError::InvalidDimension)
        } else {
            Ok(())
        }
    }

    /// Fails where the accessor's components are not of type `ty`.
    fn validate_ty(acc: &AccessorInfo, ty: DataType) -> (r: Result<(), GltfError>)
        ensures
            r == (if acc.data_type != ty {
                Err(GltfError::InvalidDataType)
            } else {
                Ok(())
            }),
    {
        if acc.data_type != ty {
            Err(GltfError::InvalidDataType)
        } else {
            Ok(())
        }
    }

    /// Fails where the accessor's components are not integers.
    fn validate_integral(acc: &AccessorInfo) -> (r: Result<(), GltfError>)
        ensures
            r == (if !is_integral(acc.data_type) {
                Err(GltfError::InvalidDataType)
            } else {
                Ok(())
            }),
    {
        if acc.data_type == DataType::F32 {
            Err(GltfError::InvalidDataType)
        } else {
            Ok(())
        }
    }

    /// Checks an attribute accessor and locates its elements in the buffer.
    /// `None` where the accessor passes its checks but has no buffer view,
    /// or its offset and that of its view overflow.
    pub fn new(acc: &AccessorInfo, dimensions: Dimensions, ty: DataType) -> (r: Option<
        Result<Self, GltfError>,
    >)
        ensures
            r == spec_attribute_view(*acc, dimensions, ty),
    {
        if let Err(e) = Self::validate_not_sparse(acc) {
            return Some(Err(e));
        }
        if let Err(e) = Self::validate_dim(acc, dimensions) {
            return Some(Err(e));
        }
        if let Err(e) = Self::validate_ty(acc, ty) {
            return Some(Err(e));
        }
        match acc.view {
            None => None,
            Some(view) => match view.offset.checked_add(acc.offset) {
                None => None,
                Some(offset) => Some(
                    Ok(
                        GltfBufferView {
                            offset,
                            count: acc.count,
                            length: view.length,
                            stride: match view.stride {
                                Some(s) => s,
                                None => acc.size,
                            },
                        },
                    ),
                ),
            },
        }
    }

    /// Checks an index accessor, whose elements must have `dimensions` and
    /// integral components, and locates its elements in the buffer.  `None`
    /// where the accessor passes its checks but has no buffer view.
    pub fn new_validate_dim(acc: &AccessorInfo, dimensions: Dimensions) -> (r: Option<
        Result<Self, GltfError>,
    >)
        ensures
            r == spec_index_view(*acc, dimensions),
    {
        if let Err(e) = Self::validate_not_sparse(acc) {
            return Some(Err(e));
        }
        if let Err(e) = Self::validate_dim(acc, dimensions) {
            return Some(Err(e));
        }
        if let Err(e) = Self::validate_integral(acc) {
            return Some(Err(e));
        }
        match acc.view {
            None => None,
            Some(view) => Some(
                Ok(
                    GltfBufferView {
                        offset: view.offset,
                        count: acc.count,
                        length: view.length,
                        stride: match view.stride {
                            Some(s) => s,
                            None => acc.size,
                        },
                    },
                ),
            ),
        }
    }
}

impl GltfDocument {
    /// Checks the document and locates the geometry in its buffer.
    /// `None` where import panics.
    pub fn layout(&self) -> (r: Option<Result<GltfLayout, GltfError>>)
        ensures
            r == self.spec_layout(),
    {
        if self.meshes.len() != 1 {
            return Some(Err(GltfError::WrongMeshCount));
        }
        if self.buffers.len() != 1 {
            return Some(Err(GltfError::WrongBufferCount));
        }
        let mesh = &self.meshes[0];
        if mesh.primitives.len() != 1 {
            return Some(Err(GltfError::WrongPrimitiveCount));
        }
        let p = mesh.primitives[0];
        let positions = match p.positions {
            Some(a) => a,
            None => return Some(Err(GltfError::MissingPositions)),
        };
        let normals = match p.normals {
            Some(a) => a,
            None => return Some(Err(GltfError::MissingNormals)),
        };
        let uv = match p.tex_coords {
            Some(a) => a,
            None => return Some(Err(GltfError::MissingUv)),
        };
        let indices = match p.indices {
            Some(a) => a,
            None => return Some(Err(GltfError::MissingIndices)),
        };
        let index_size = indices.size as u8;
        let position = match GltfBufferView::new(&positions, Dimensions::Vec3, DataType::F32) {
            None => return None,
            Some(Err(e)) => return Some(Err(e)),
            Some(Ok(v)) => v,
        };
        let normals = match GltfBufferView::new(&normals, Dimensions::Vec3, DataType::F32) {
            None => return None,
            Some(Err(e)) => return Some(Err(e)),
            Some(Ok(v)) => v,
        };
        let uv = match GltfBufferView::new(&uv, Dimensions::Vec2, DataType::F32) {
            None => return None,
            Some(Err(e)) => return Some(Err(e)),
            Some(Ok(v)) => v,
        };
        let indices = match GltfBufferView::new_validate_dim(&indices, Dimensions::Scalar) {
            None => return None,
            Some(Err(e)) => return Some(Err(e)),
            Some(Ok(v)) => v,
        };
        Some(Ok(GltfLayout { position, normals, uv, indices, index_size }))
    }

    /// Import of this document does not panic.
    pub fn is_importable(&self) -> (r: bool)
        ensures
            r == self.spec_importable(),
    {
        self.layout().is_some()
    }
}

impl GltfGeometry {
    /// The geometry holds the locations of `l` and the bytes of `buffer`.
    pub open spec fn has_layout(&self, l: GltfLayout, buffer: Seq<u8>) -> bool {
        &&& self.position == l.position
        &&& self.normals == l.normals
        &&& self.uv == l.uv
        &&& self.indices == l.indices
        &&& self.index_size == l.index_size
        &&& self.buffer@ == buffer
    }

    /// Imports the geometry of a glTF document: checks the validity
    /// conditions in order and, on success, takes the document's buffer.
    pub fn from_document(doc: GltfDocument) -> (r: Result<Self, GltfError>)
        requires
            doc.spec_importable(),
        ensures
            match doc.spec_layout()->0 {
                Ok(l) => r matches Ok(g) && g.has_layout(l, doc.buffers@[0]@),
                Err(e) => r matches Err(f) && f == e,
            },
    {
        let layout = doc.layout();
        let GltfDocument { meshes: _, buffers: mut buffers } = doc;
        match layout {
            Some(Ok(l)) => {
                let buffer = buffers.pop().unwrap();
                Ok(
                    GltfGeometry {
                        position: l.position,
                        normals: l.normals,
                        uv: l.uv,
                        indices: l.indices,
                        index_size: l.index_size,
                        buffer,
                    },
                )
            },
            Some(Err(e)) => Err(e),
            None => {
                proof {
                    assert(false);
                }
                Err(GltfError::WrongBufferCount)
            },
        }
    }
}

/// Format of the indices of an index buffer, as the rasterizer binds it.
#[derive(Clone, Copy, Debug, PartialEq, Eq, Structural)]
pub enum IndexFormat {
    Uint16,
    Uint32,
}

/// The index format the rasterizer binds for the geometry: `Uint16` for
/// indices of 2 bytes, `Uint32` for indices of 4 bytes, and none otherwise.
pub fn get_gltf_index_format(gltf: &GltfGeometry) -> (r: Option<IndexFormat>)
    ensures
        r == (if gltf.index_size == 2 {
            Some(IndexFormat::Uint16)
        } else if gltf.index_size == 4 {
            Some(IndexFormat::Uint32)
        } else {
            None::<IndexFormat>
        }),
{
    match gltf.index_size {
        2 => Some(IndexFormat::Uint16),
        4 => Some(IndexFormat::Uint32),
        _ => None,
    }
}

} // verus!
