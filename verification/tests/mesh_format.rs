use rockwork::bytes::{i16_at, le_byte, u16_at, u32_at, unsigned};
use rockwork::device::{AttributeLayout, BufferTarget, Call, ComponentType, DeviceCall};
use rockwork::mesh::{
    decode_faces, decode_vertices, encode_faces, encode_vertices, Edge, Face, MdlError, MdlHeader,
    MdlModel, Mesh, Vertex, FACE_LEN, HEADER_LEN, VERTEX_LEN,
};

fn header_bytes(magic: &[u8; 3], nverts: u32, nfaces: u32) -> Vec<u8> {
    let mut out = Vec::new();
    out.extend_from_slice(magic);
    out.push(1);
    out.extend_from_slice(&nverts.to_le_bytes());
    out.extend_from_slice(&nfaces.to_le_bytes());
    out.extend_from_slice(&0u32.to_le_bytes());
    out.push(0);
    out.extend_from_slice(b"quad\0\0\0\0\0\0\0\0\0\0\0");
    out
}

fn sample_vertex(i: u8) -> Vertex {
    Vertex {
        position: [(i as f32).to_bits(), (-1.5f32).to_bits(), 0.25f32.to_bits()],
        normal: [i16::MIN, -1, i16::MAX],
        uv: [0, u16::MAX],
        color: [i, 128, 255],
        material: 7,
        boneid: [1, 2],
        boneweight: [200, 55],
        incident_edge_id: 0xBEEF,
    }
}

fn quad_stream() -> Vec<u8> {
    let mut out = header_bytes(b"MDL", 4, 2);
    for i in 0..4u8 {
        sample_vertex(i).write_to(&mut out);
    }
    Face { vertex_ids: [0, 1, 2] }.write_to(&mut out);
    Face { vertex_ids: [2, 3, 0] }.write_to(&mut out);
    out
}

#[test]
fn record_sizes_match_the_format() {
    assert_eq!(HEADER_LEN, 32);
    assert_eq!(VERTEX_LEN, 32);
    assert_eq!(FACE_LEN, 6);
}

#[test]
fn well_formed_stream_decodes_to_six_elements() {
    let stream = quad_stream();
    assert_eq!(stream.len(), 32 + 4 * 32 + 2 * 6);
    let (mesh, calls) = Mesh::from_mdl(10, 11, 12, &stream).unwrap();
    assert_eq!(mesh.nelems, 6);
    assert_eq!(mesh.vbo(), 10);
    assert_eq!(mesh.ibo(), 11);
    assert_eq!(mesh.vao(), 12);
    assert_eq!(calls.len(), 16);
    assert_eq!(
        calls[2],
        Call::BufferData { target: BufferTarget::Vertices, data: stream[32..160].to_vec() }
    );
    assert_eq!(
        calls[14],
        Call::BufferData { target: BufferTarget::Indices, data: stream[160..172].to_vec() }
    );
}

#[test]
fn decoding_does_not_look_past_the_declared_records() {
    let stream = quad_stream();
    let mut longer = stream.clone();
    longer.extend_from_slice(&[0xAA; 40]);
    let exact = MdlModel::decode(&stream).unwrap();
    let padded = MdlModel::decode(&longer).unwrap();
    assert_eq!(exact, padded);
    assert_eq!(exact.header.stream_len(), 172);
    assert_eq!(Mesh::from_mdl(1, 2, 3, &stream), Mesh::from_mdl(1, 2, 3, &longer));
}

#[test]
fn decoded_model_holds_header_and_records() {
    let model = MdlModel::decode(&quad_stream()).unwrap();
    assert_eq!(model.header.magic, *b"MDL");
    assert_eq!(model.header.version, 1);
    assert_eq!(model.header.nverts, 4);
    assert_eq!(model.header.nfaces, 2);
    assert_eq!(model.header.nedges, 0);
    assert_eq!(model.header.nbones, 0);
    assert_eq!(&model.header.name, b"quad\0\0\0\0\0\0\0\0\0\0\0");
    assert_eq!(model.vertices.len(), 4);
    assert_eq!(model.faces.len(), 2);
    for i in 0..4u8 {
        assert_eq!(model.vertices[i as usize], sample_vertex(i));
    }
    assert_eq!(model.faces[0], Face { vertex_ids: [0, 1, 2] });
    assert_eq!(model.faces[1], Face { vertex_ids: [2, 3, 0] });
}

#[test]
fn bad_magic_is_a_format_error() {
    let mut stream = quad_stream();
    stream[2] = b'l';
    let err = Mesh::from_mdl(1, 2, 3, &stream).unwrap_err();
    assert_eq!(err, MdlError::BadMagic { found: *b"MDl" });
    assert!(err.is_format_error());
    assert!(!err.is_read_error());
    assert_eq!(MdlHeader::decode(&stream), Err(MdlError::BadMagic { found: *b"MDl" }));
}

#[test]
fn bad_magic_is_rejected_whatever_the_counts() {
    let stream = header_bytes(b"XYZ", u32::MAX, u32::MAX);
    let err = MdlModel::decode(&stream).unwrap_err();
    assert_eq!(err, MdlError::BadMagic { found: *b"XYZ" });
}

#[test]
fn magic_is_case_sensitive() {
    let stream = header_bytes(b"mdl", 0, 0);
    assert_eq!(MdlModel::decode(&stream), Err(MdlError::BadMagic { found: *b"mdl" }));
}

#[test]
fn short_header_is_a_format_error() {
    let stream = quad_stream();
    let err = MdlModel::decode(&stream[..31]).unwrap_err();
    assert_eq!(err, MdlError::TruncatedHeader { available: 31 });
    assert!(err.is_format_error());
    assert_eq!(MdlModel::decode(&[]), Err(MdlError::TruncatedHeader { available: 0 }));
}

#[test]
fn short_records_are_a_read_error() {
    let stream = quad_stream();
    let err = Mesh::from_mdl(1, 2, 3, &stream[..171]).unwrap_err();
    assert_eq!(err, MdlError::UnexpectedEof { expected: 172, available: 171 });
    assert!(err.is_read_error());
    assert!(!err.is_format_error());
    let err = MdlModel::decode(&stream[..32]).unwrap_err();
    assert_eq!(err, MdlError::UnexpectedEof { expected: 172, available: 32 });
}

#[test]
fn largest_declared_counts_do_not_overflow() {
    let stream = header_bytes(b"MDL", u32::MAX, u32::MAX);
    let expected = 32 + 32 * (u32::MAX as u64) + 6 * (u32::MAX as u64);
    assert_eq!(MdlHeader::decode(&stream).unwrap().stream_len(), expected);
    assert_eq!(
        MdlModel::decode(&stream),
        Err(MdlError::UnexpectedEof { expected, available: 32 })
    );
}

#[test]
fn empty_model_decodes() {
    let stream = header_bytes(b"MDL", 0, 0);
    let (mesh, calls) = Mesh::from_mdl(1, 2, 3, &stream).unwrap();
    assert_eq!(mesh.nelems, 0);
    assert_eq!(calls[2], Call::BufferData { target: BufferTarget::Vertices, data: vec![] });
}

#[test]
fn vertex_record_has_the_documented_layout() {
    let v = Vertex {
        position: [0x3F80_0000, 0x0403_0201, 0xFFFF_FFFF],
        normal: [-2, 0x1234, -32768],
        uv: [0xABCD, 1],
        color: [9, 8, 7],
        material: 6,
        boneid: [5, 4],
        boneweight: [3, 2],
        incident_edge_id: 0x0100,
    };
    let mut bytes = Vec::new();
    v.write_to(&mut bytes);
    assert_eq!(
        bytes,
        vec![
            0x00, 0x00, 0x80, 0x3F, 0x01, 0x02, 0x03, 0x04, 0xFF, 0xFF, 0xFF, 0xFF, 0xFE, 0xFF,
            0x34, 0x12, 0x00, 0x80, 0xCD, 0xAB, 0x01, 0x00, 9, 8, 7, 6, 5, 4, 3, 2, 0x00, 0x01,
        ]
    );
    assert_eq!(v.to_bytes(), bytes);
    assert_eq!(Vertex::decode(&bytes, 0), v);
    assert_eq!(f32::from_bits(v.position[0]), 1.0);
}

#[test]
fn face_record_has_the_documented_layout() {
    let f = Face { vertex_ids: [1, 0x0203, 0xFFFF] };
    let mut bytes = vec![0xEE];
    f.write_to(&mut bytes);
    assert_eq!(bytes, vec![0xEE, 1, 0, 3, 2, 0xFF, 0xFF]);
    assert_eq!(f.to_bytes(), vec![1, 0, 3, 2, 0xFF, 0xFF]);
    assert_eq!(Face::decode(&bytes, 1), f);
}

#[test]
fn header_round_trips() {
    let header = MdlHeader {
        magic: *b"MDL",
        version: 3,
        nverts: 0x0102_0304,
        nfaces: 5,
        nedges: 0xFFFF_FFFE,
        nbones: 9,
        name: *b"fifteen bytes!!",
    };
    let mut bytes = Vec::new();
    header.write_to(&mut bytes);
    assert_eq!(bytes.len(), 32);
    assert_eq!(header.to_bytes(), bytes);
    assert_eq!(&bytes[..8], &[b'M', b'D', b'L', 3, 4, 3, 2, 1]);
    assert_eq!(bytes[16], 9);
    assert_eq!(&bytes[17..], b"fifteen bytes!!");
    assert_eq!(MdlHeader::decode(&bytes), Ok(header));
}

#[test]
fn records_round_trip_bit_for_bit() {
    let vertices: Vec<Vertex> = (0..=255u8).map(sample_vertex).collect();
    let faces: Vec<Face> =
        (0..100u16).map(|i| Face { vertex_ids: [i, i.wrapping_mul(655), u16::MAX - i] }).collect();
    let vb = encode_vertices(&vertices);
    let fb = encode_faces(&faces);
    assert_eq!(vb.len(), 32 * 256);
    assert_eq!(fb.len(), 6 * 100);
    assert_eq!(decode_vertices(&vb, 0, 256), vertices);
    assert_eq!(decode_faces(&fb, 0, 100), faces);
    assert_eq!(encode_vertices(&decode_vertices(&vb, 0, 256)), vb);
    assert_eq!(encode_faces(&decode_faces(&fb, 0, 100)), fb);
}

#[test]
fn not_a_number_positions_keep_their_bits() {
    let mut v = sample_vertex(0);
    v.position = [0x7FC0_0001, 0xFFC1_2345, 0x8000_0000];
    let mut bytes = Vec::new();
    v.write_to(&mut bytes);
    assert_eq!(Vertex::decode(&bytes, 0).position, v.position);
}

#[test]
fn decoded_stream_uploads_its_own_bytes() {
    let stream = quad_stream();
    let model = MdlModel::decode(&stream).unwrap();
    let mut again = Vec::new();
    model.header.write_to(&mut again);
    again.extend(encode_vertices(&model.vertices));
    again.extend(encode_faces(&model.faces));
    assert_eq!(again, stream);
}

#[test]
fn vertex_upload_declares_the_four_attributes() {
    let mut mesh = Mesh::new(10, 11, 12);
    let verts = vec![sample_vertex(1), sample_vertex(2)];
    let data = encode_vertices(&verts);
    let calls = mesh.upload_vertex_data(verts);
    let layout = |location, components, kind, normalized, offset| AttributeLayout {
        location,
        components,
        kind,
        normalized,
        stride: 32,
        offset,
    };
    let expected: Vec<DeviceCall> = vec![
        Call::BindVertexArray { array: 12 },
        Call::BindBuffer { target: BufferTarget::Vertices, buffer: 10 },
        Call::BufferData { target: BufferTarget::Vertices, data },
        Call::VertexAttribPointer { layout: layout(0, 3, ComponentType::Float32, false, 0) },
        Call::EnableVertexAttribArray { index: 0 },
        Call::VertexAttribPointer { layout: layout(1, 3, ComponentType::Int16, true, 12) },
        Call::EnableVertexAttribArray { index: 1 },
        Call::VertexAttribPointer { layout: layout(2, 2, ComponentType::Uint16, true, 18) },
        Call::EnableVertexAttribArray { index: 2 },
        Call::VertexAttribPointer { layout: layout(3, 3, ComponentType::Uint8, true, 22) },
        Call::EnableVertexAttribArray { index: 3 },
        Call::BindVertexArray { array: 0 },
        Call::BindBuffer { target: BufferTarget::Vertices, buffer: 0 },
    ];
    assert_eq!(calls, expected);
    assert_eq!(mesh.nelems, 0);
}

#[test]
fn face_upload_sets_three_elements_per_face() {
    let mut mesh = Mesh::new(10, 11, 12);
    let faces = vec![Face { vertex_ids: [0, 1, 2] }; 5];
    let data = encode_faces(&faces);
    let calls = mesh.upload_face_data(faces);
    let expected: Vec<DeviceCall> = vec![
        Call::BindBuffer { target: BufferTarget::Indices, buffer: 11 },
        Call::BufferData { target: BufferTarget::Indices, data },
        Call::BindBuffer { target: BufferTarget::Indices, buffer: 0 },
    ];
    assert_eq!(calls, expected);
    assert_eq!(mesh.nelems, 15);
    assert_eq!(mesh.element_count(), 15);
}

#[test]
fn mesh_binds_draws_and_releases() {
    let mut mesh = Mesh::new(10, 11, 12);
    mesh.upload_face_data(vec![Face::default(); 2]);
    let bind: Vec<DeviceCall> = vec![
        Call::BindVertexArray { array: 12 },
        Call::BindBuffer { target: BufferTarget::Indices, buffer: 11 },
    ];
    assert_eq!(mesh.bind(), bind);
    let draw: Vec<DeviceCall> = vec![Call::DrawElements { count: 6 }];
    assert_eq!(mesh.draw(), draw);
    let release: Vec<DeviceCall> =
        vec![Call::DeleteBuffer { buffer: 10 }, Call::DeleteBuffer { buffer: 11 }];
    assert_eq!(mesh.release(), release);
}

#[test]
fn edge_holds_its_neighbourhood() {
    let e = Edge { vertex_ids: [1, 2], face_ids: [3, 4], first_edges: [5, 6], second_edges: [7, 8] };
    assert_eq!(e, e.clone());
    assert_eq!(Edge::default().vertex_ids, [0, 0]);
}

#[test]
fn numbers_are_stored_least_significant_byte_first() {
    assert_eq!(u16_at(&[0x34, 0x12], 0), 0x1234);
    assert_eq!(i16_at(&[0xFF, 0xFF], 0), -1);
    assert_eq!(i16_at(&[0x00, 0x80], 0), i16::MIN);
    assert_eq!(i16_at(&[0xFF, 0x7F], 0), i16::MAX);
    assert_eq!(u32_at(&[0, 0x78, 0x56, 0x34, 0x12], 1), 0x1234_5678);
    assert_eq!(le_byte(0x1234_5678, 0), 0x78);
    assert_eq!(le_byte(0x1234_5678, 1), 0x56);
    assert_eq!(le_byte(0x1234_5678, 2), 0x34);
    assert_eq!(le_byte(0x1234_5678, 3), 0x12);
    assert_eq!(unsigned(-1), 0xFFFF);
    assert_eq!(unsigned(i16::MIN), 0x8000);
    assert_eq!(unsigned(7), 7);
}
