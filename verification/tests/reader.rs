use strahl::extract::{check_elements_in_bounds, decode_mesh, extract_indices, extract_vec2, extract_vec3};
use strahl::reader::{
    get_gltf_index_format, IndexFormat, AccessorInfo, BufferViewInfo, DataType, Dimensions, GltfBufferView, GltfDocument, GltfError,
    GltfGeometry, MeshInfo, PrimitiveInfo,
};

fn accessor(dimensions: Dimensions, data_type: DataType, view_offset: usize, offset: usize) -> AccessorInfo {
    AccessorInfo {
        sparse: false,
        dimensions,
        data_type,
        offset,
        count: 3,
        size: 12,
        view: Some(BufferViewInfo { offset: view_offset, length: 36, stride: None }),
    }
}

fn primitive() -> PrimitiveInfo {
    PrimitiveInfo {
        positions: Some(accessor(Dimensions::Vec3, DataType::F32, 0, 0)),
        normals: Some(accessor(Dimensions::Vec3, DataType::F32, 36, 4)),
        tex_coords: Some(AccessorInfo {
            size: 8,
            ..accessor(Dimensions::Vec2, DataType::F32, 72, 0)
        }),
        indices: Some(AccessorInfo {
            sparse: false,
            dimensions: Dimensions::Scalar,
            data_type: DataType::U16,
            offset: 2,
            count: 6,
            size: 2,
            view: Some(BufferViewInfo { offset: 96, length: 12, stride: Some(2) }),
        }),
    }
}

fn document(p: PrimitiveInfo) -> GltfDocument {
    GltfDocument { meshes: vec![MeshInfo { primitives: vec![p] }], buffers: vec![vec![7u8; 108]] }
}

fn import(doc: GltfDocument) -> Result<GltfGeometry, GltfError> {
    assert!(doc.is_importable());
    GltfGeometry::from_document(doc)
}

#[test]
fn valid_document_is_imported() {
    let g = import(document(primitive())).unwrap();
    assert_eq!(g.position.offset, 0);
    assert_eq!(g.position.stride, 12);
    assert_eq!(g.position.count, 3);
    assert_eq!(g.position.length, 36);
    // attribute offsets add the accessor's offset to the view's
    assert_eq!(g.normals.offset, 40);
    assert_eq!(g.uv.offset, 72);
    assert_eq!(g.uv.stride, 8);
    // the index offset is that of the view alone
    assert_eq!(g.indices.offset, 96);
    assert_eq!(g.indices.stride, 2);
    assert_eq!(g.index_size, 2);
    assert_eq!(g.buffer, vec![7u8; 108]);
}

#[test]
fn mesh_count_must_be_one() {
    let mut doc = document(primitive());
    doc.meshes.push(MeshInfo { primitives: vec![primitive()] });
    assert_eq!(import(doc).unwrap_err(), GltfError::WrongMeshCount);
    let empty = GltfDocument { meshes: vec![], buffers: vec![vec![]] };
    assert_eq!(import(empty).unwrap_err(), GltfError::WrongMeshCount);
}

#[test]
fn buffer_count_must_be_one() {
    let mut doc = document(primitive());
    doc.buffers.push(vec![1, 2, 3]);
    assert_eq!(import(doc).unwrap_err(), GltfError::WrongBufferCount);
    let mut none = document(primitive());
    none.buffers.clear();
    assert_eq!(import(none).unwrap_err(), GltfError::WrongBufferCount);
}

#[test]
fn primitive_count_must_be_one() {
    let doc = GltfDocument {
        meshes: vec![MeshInfo { primitives: vec![primitive(), primitive()] }],
        buffers: vec![vec![0u8; 108]],
    };
    assert_eq!(import(doc).unwrap_err(), GltfError::WrongPrimitiveCount);
}

#[test]
fn missing_attributes_are_reported_in_order() {
    let mut p = primitive();
    p.positions = None;
    p.indices = None;
    assert_eq!(import(document(p)).unwrap_err(), GltfError::MissingPositions);
    let mut p = primitive();
    p.normals = None;
    assert_eq!(import(document(p)).unwrap_err(), GltfError::MissingNormals);
    let mut p = primitive();
    p.tex_coords = None;
    assert_eq!(import(document(p)).unwrap_err(), GltfError::MissingUv);
    let mut p = primitive();
    p.indices = None;
    assert_eq!(import(document(p)).unwrap_err(), GltfError::MissingIndices);
}

#[test]
fn sparse_accessors_are_refused() {
    let mut p = primitive();
    p.normals.as_mut().unwrap().sparse = true;
    assert_eq!(import(document(p)).unwrap_err(), GltfError::SparseAccessor);
    let mut p = primitive();
    p.indices.as_mut().unwrap().sparse = true;
    assert_eq!(import(document(p)).unwrap_err(), GltfError::SparseAccessor);
}

#[test]
fn wrong_dimensions_and_types_are_refused() {
    let mut p = primitive();
    p.positions.as_mut().unwrap().dimensions = Dimensions::Vec4;
    assert_eq!(import(document(p)).unwrap_err(), GltfError::InvalidDimension);
    let mut p = primitive();
    p.tex_coords.as_mut().unwrap().data_type = DataType::U16;
    assert_eq!(import(document(p)).unwrap_err(), GltfError::InvalidDataType);
    let mut p = primitive();
    p.indices.as_mut().unwrap().dimensions = Dimensions::Vec2;
    assert_eq!(import(document(p)).unwrap_err(), GltfError::InvalidDimension);
    let mut p = primitive();
    p.indices.as_mut().unwrap().data_type = DataType::F32;
    assert_eq!(import(document(p)).unwrap_err(), GltfError::InvalidDataType);
}

#[test]
fn accessor_without_view_cannot_be_imported() {
    let mut p = primitive();
    p.tex_coords.as_mut().unwrap().view = None;
    assert!(!document(p).is_importable());
    // an accessor that fails its checks first is refused with an error
    let mut p = primitive();
    p.tex_coords.as_mut().unwrap().view = None;
    p.tex_coords.as_mut().unwrap().sparse = true;
    let doc = document(p);
    assert!(doc.is_importable());
    assert_eq!(GltfGeometry::from_document(doc).unwrap_err(), GltfError::SparseAccessor);
}

#[test]
fn overflowing_offsets_cannot_be_imported() {
    let mut p = primitive();
    p.normals.as_mut().unwrap().offset = usize::MAX;
    assert!(!document(p).is_importable());
}

fn geometry(buffer: Vec<u8>, index_size: u8, count: usize, stride: usize) -> GltfGeometry {
    let view = GltfBufferView { offset: 0, count: 0, length: 0, stride: 0 };
    GltfGeometry {
        position: view,
        normals: view,
        uv: view,
        indices: GltfBufferView { offset: 1, count, length: buffer.len(), stride },
        index_size,
        buffer,
    }
}

#[test]
fn extracts_byte_indices() {
    let g = geometry(vec![0xaa, 1, 2, 3, 4, 5, 6, 7], 1, 7, 1);
    assert!(g.check_indices_readable());
    // seven indices make two whole triangles; the seventh is left out
    assert_eq!(extract_indices(&g), vec![[1, 2, 3], [4, 5, 6]]);
}

#[test]
fn extracts_little_endian_short_indices() {
    let g = geometry(vec![0xaa, 1, 0, 0x34, 0x12, 0xff, 0xff, 0], 2, 3, 2);
    assert!(g.check_indices_readable());
    assert_eq!(extract_indices(&g), vec![[1, 0x1234, 0xffff]]);
}

#[test]
fn extracts_little_endian_int_indices_with_stride() {
    let mut buffer = vec![0u8; 1 + 3 * 8];
    for (k, v) in [0x0102_0304u32, 0xdead_beef, 7].iter().enumerate() {
        buffer[1 + 8 * k..1 + 8 * k + 4].copy_from_slice(&v.to_le_bytes());
    }
    let g = geometry(buffer, 4, 3, 8);
    assert!(g.check_indices_readable());
    assert_eq!(extract_indices(&g), vec![[0x0102_0304, 0xdead_beef, 7]]);
}

#[test]
fn unreadable_indices_are_detected() {
    // the last index would end past the buffer
    let g = geometry(vec![0u8; 6], 2, 3, 2);
    assert!(!g.check_indices_readable());
    // index sizes other than 1, 2 and 4 cannot be read
    let g = geometry(vec![0u8; 64], 3, 3, 3);
    assert!(!g.check_indices_readable());
}

#[test]
fn extracts_float_vectors() {
    let points = [[1.0f32, -2.5, 3.25], [0.0, 100.0, -0.125]];
    let mut buffer = vec![0u8; 4];
    for p in points {
        for c in p {
            buffer.extend_from_slice(&c.to_le_bytes());
        }
        buffer.extend_from_slice(&[9, 9, 9, 9]);
    }
    let view = GltfBufferView { offset: 4, count: 2, length: 32, stride: 16 };
    assert!(check_elements_in_bounds(view, 2, 12, buffer.len()));
    let bits = extract_vec3(&view, &buffer);
    let floats: Vec<[f32; 3]> = bits.iter().map(|e| e.map(f32::from_bits)).collect();
    assert_eq!(floats, points.to_vec());

    let uv_view = GltfBufferView { offset: 4, count: 2, length: 32, stride: 16 };
    let uv = extract_vec2(&uv_view, &buffer);
    assert_eq!(f32::from_bits(uv[1][0]), 0.0);
    assert_eq!(f32::from_bits(uv[1][1]), 100.0);
    assert!(!check_elements_in_bounds(view, 3, 12, buffer.len()));
}

#[test]
fn index_formats_by_index_size() {
    assert_eq!(get_gltf_index_format(&geometry(vec![], 2, 0, 0)), Some(IndexFormat::Uint16));
    assert_eq!(get_gltf_index_format(&geometry(vec![], 4, 0, 0)), Some(IndexFormat::Uint32));
    assert_eq!(get_gltf_index_format(&geometry(vec![], 1, 0, 0)), None);
    assert_eq!(get_gltf_index_format(&geometry(vec![], 16, 0, 0)), None);
    assert_eq!(get_gltf_index_format(&geometry(vec![], 32, 0, 0)), None);
    // an imported geometry with 16-bit indices gets the 16-bit format
    let g = import(document(primitive())).unwrap();
    assert_eq!(g.index_size, 2);
    assert_eq!(get_gltf_index_format(&g), Some(IndexFormat::Uint16));
}

#[test]
fn decodes_whole_mesh() {
    // one triangle: three positions, three normals, three uvs, indices as bytes
    let mut buffer = Vec::new();
    let floats: [f32; 24] = [
        0.0, 0.0, 0.0, 1.0, 0.0, 0.0, 0.0, 1.0, 0.0, // positions
        0.0, 0.0, 1.0, 0.0, 0.0, 1.0, 0.0, 0.0, 1.0, // normals
        0.0, 0.0, 1.0, 0.0, 0.0, 1.0, // uvs
    ];
    for f in floats {
        buffer.extend_from_slice(&f.to_le_bytes());
    }
    buffer.extend_from_slice(&[2, 1, 0]);
    let g = GltfGeometry {
        position: GltfBufferView { offset: 0, count: 3, length: 36, stride: 12 },
        normals: GltfBufferView { offset: 36, count: 3, length: 36, stride: 12 },
        uv: GltfBufferView { offset: 72, count: 3, length: 24, stride: 8 },
        indices: GltfBufferView { offset: 96, count: 3, length: 3, stride: 1 },
        index_size: 1,
        buffer,
    };
    assert!(g.check_mesh_readable());
    let m = decode_mesh(&g);
    assert_eq!(m.vertices.len(), 3);
    assert_eq!(f32::from_bits(m.vertices[1][0]), 1.0);
    assert_eq!(f32::from_bits(m.vertices[2][1]), 1.0);
    assert_eq!(f32::from_bits(m.normals[0][2]), 1.0);
    assert_eq!(f32::from_bits(m.uvs[2][1]), 1.0);
    assert_eq!(m.indices, vec![[2, 1, 0]]);

    let mut short = g;
    short.buffer.truncate(98);
    assert!(!short.check_mesh_readable());
}

#[test]
fn fewer_than_three_indices_need_no_index_size() {
    // with no whole triangle, nothing is read, whatever the index size
    let g = geometry(vec![0u8; 8], 3, 2, 3);
    assert!(g.check_indices_readable());
    assert_eq!(extract_indices(&g), Vec::<[u32; 3]>::new());
}

#[test]
fn import_errors_carry_their_messages() {
    assert_eq!(GltfError::WrongMeshCount.message(), "wrong count of meshes in gltf");
    assert_eq!(GltfError::WrongBufferCount.message(), "wrong count of buffers in gltf");
    assert_eq!(GltfError::WrongPrimitiveCount.message(), "wrong count of primitives in mesh");
    assert_eq!(GltfError::MissingPositions.message(), "mesh doesn't have position attribute");
    assert_eq!(GltfError::MissingNormals.message(), "mesh doesn't have normal map");
    assert_eq!(GltfError::MissingUv.message(), "mesh doesn't have UV map");
    assert_eq!(GltfError::MissingIndices.message(), "mesh doesn't have index buffer");
    assert_eq!(GltfError::SparseAccessor.message(), "sparse accessors are disallowed");
    assert_eq!(GltfError::InvalidDimension.message(), "invalid accessor dimension");
    assert_eq!(GltfError::InvalidDataType.message(), "invalid accessor data type");
}
