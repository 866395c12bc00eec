//! What holds of the `.mdl` format: decoding and encoding are inverse to each
//! other, decoding looks at the declared bytes and at no others, and streams
//! that are not what they declare are rejected.
//!
//! All of this module is proof: nothing in it runs.

use crate::bytes::{
    lemma_i16_bytes, lemma_i16_roundtrip, lemma_u16_bytes, lemma_u16_roundtrip, lemma_u32_bytes,
    lemma_u32_roundtrip, spec_i16_at, spec_u16_at, spec_u32_at,
};
use crate::device::VertexAttribute;
use crate::mesh::{
    spec_decode, spec_decode_header, spec_face_at, spec_face_bytes, spec_faces_at,
    spec_faces_bytes, spec_header_at, spec_header_bytes, spec_magic_ok, spec_vertex_at,
    spec_vertex_bytes, spec_vertices_at, spec_vertices_bytes, Face, MdlError, MdlHeader, Vertex,
    VERTEX_LEN,
};
use vstd::prelude::*;

verus! {

/// Decoding the record of a vertex gives the vertex back, bit for bit.
pub proof fn lemma_vertex_roundtrip(v: Vertex)
    ensures
        spec_vertex_bytes(v).len() == 32,
        spec_vertex_at(spec_vertex_bytes(v), 0) == v,
{
    let b = spec_vertex_bytes(v);
    let w = spec_vertex_at(b, 0);
    lemma_u32_roundtrip(b, 0, v.position[0]);
    lemma_u32_roundtrip(b, 4, v.position[1]);
    lemma_u32_roundtrip(b, 8, v.position[2]);
    lemma_i16_roundtrip(b, 12, v.normal[0]);
    lemma_i16_roundtrip(b, 14, v.normal[1]);
    lemma_i16_roundtrip(b, 16, v.normal[2]);
    lemma_u16_roundtrip(b, 18, v.uv[0]);
    lemma_u16_roundtrip(b, 20, v.uv[1]);
    lemma_u16_roundtrip(b, 30, v.incident_edge_id);
    assert(w.position =~= v.position);
    assert(w.normal =~= v.normal);
    assert(w.uv =~= v.uv);
    assert(w.color =~= v.color);
    assert(w.boneid =~= v.boneid);
    assert(w.boneweight =~= v.boneweight);
}

/// Encoding a decoded vertex gives the 32 bytes of its record back.
pub proof fn lemma_vertex_bytes_roundtrip(b: Seq<u8>, at: int)
    requires
        0 <= at,
        at + 32 <= b.len(),
    ensures
        spec_vertex_bytes(spec_vertex_at(b, at)) == b.subrange(at, at + 32),
{
    lemma_u32_bytes(b, at);
    lemma_u32_bytes(b, at + 4);
    lemma_u32_bytes(b, at + 8);
    lemma_i16_bytes(b, at + 12);
    lemma_i16_bytes(b, at + 14);
    lemma_i16_bytes(b, at + 16);
    lemma_u16_bytes(b, at + 18);
    lemma_u16_bytes(b, at + 20);
    lemma_u16_bytes(b, at + 30);
    assert(spec_vertex_bytes(spec_vertex_at(b, at)) =~= b.subrange(at, at + 32));
}

/// Decoding the record of a face gives the face back.
pub proof fn lemma_face_roundtrip(f: Face)
    ensures
        spec_face_bytes(f).len() == 6,
        spec_face_at(spec_face_bytes(f), 0) == f,
{
    let b = spec_face_bytes(f);
    lemma_u16_roundtrip(b, 0, f.vertex_ids[0]);
    lemma_u16_roundtrip(b, 2, f.vertex_ids[1]);
    lemma_u16_roundtrip(b, 4, f.vertex_ids[2]);
    assert(spec_face_at(b, 0).vertex_ids =~= f.vertex_ids);
}

/// Encoding a decoded face gives the 6 bytes of its record back.
pub proof fn lemma_face_bytes_roundtrip(b: Seq<u8>, at: int)
    requires
        0 <= at,
        at + 6 <= b.len(),
    ensures
        spec_face_bytes(spec_face_at(b, at)) == b.subrange(at, at + 6),
{
    lemma_u16_bytes(b, at);
    lemma_u16_bytes(b, at + 2);
    lemma_u16_bytes(b, at + 4);
    assert(spec_face_bytes(spec_face_at(b, at)) =~= b.subrange(at, at + 6));
}

/// Decoding the bytes of a header gives the header back.
pub proof fn lemma_header_roundtrip(h: MdlHeader)
    ensures
        spec_header_bytes(h).len() == 32,
        spec_header_at(spec_header_bytes(h), 0) == h,
{
    let b = spec_header_bytes(h);
    let g = spec_header_at(b, 0);
    lemma_u32_roundtrip(b, 4, h.nverts);
    lemma_u32_roundtrip(b, 8, h.nfaces);
    lemma_u32_roundtrip(b, 12, h.nedges);
    assert(g.magic =~= h.magic);
    assert(g.name =~= h.name);
}

/// Encoding a decoded header gives its 32 bytes back.
pub proof fn lemma_header_bytes_roundtrip(b: Seq<u8>, at: int)
    requires
        0 <= at,
        at + 32 <= b.len(),
    ensures
        spec_header_bytes(spec_header_at(b, at)) == b.subrange(at, at + 32),
{
    lemma_u32_bytes(b, at + 4);
    lemma_u32_bytes(b, at + 8);
    lemma_u32_bytes(b, at + 12);
    assert(spec_header_bytes(spec_header_at(b, at)) =~= b.subrange(at, at + 32));
}

/// A record is read from its own bytes alone: two streams that agree on the
/// 32 bytes of a vertex record hold the same vertex there.
pub proof fn lemma_vertex_at_local(a: Seq<u8>, at: int, b: Seq<u8>, bt: int)
    requires
        0 <= at,
        at + 32 <= a.len(),
        0 <= bt,
        bt + 32 <= b.len(),
        a.subrange(at, at + 32) == b.subrange(bt, bt + 32),
    ensures
        spec_vertex_at(a, at) == spec_vertex_at(b, bt),
{
    let v = spec_vertex_at(a, at);
    let w = spec_vertex_at(b, bt);
    let x = a.subrange(at, at + 32);
    let y = b.subrange(bt, bt + 32);
    assert(x[0] == a[at + 0] && y[0] == b[bt + 0]);
    assert(x[1] == a[at + 1] && y[1] == b[bt + 1]);
    assert(x[2] == a[at + 2] && y[2] == b[bt + 2]);
    assert(x[3] == a[at + 3] && y[3] == b[bt + 3]);
    assert(x[4] == a[at + 4] && y[4] == b[bt + 4]);
    assert(x[5] == a[at + 5] && y[5] == b[bt + 5]);
    assert(x[6] == a[at + 6] && y[6] == b[bt + 6]);
    assert(x[7] == a[at + 7] && y[7] == b[bt + 7]);
    assert(x[8] == a[at + 8] && y[8] == b[bt + 8]);
    assert(x[9] == a[at + 9] && y[9] == b[bt + 9]);
    assert(x[10] == a[at + 10] && y[10] == b[bt + 10]);
    assert(x[11] == a[at + 11] && y[11] == b[bt + 11]);
    assert(x[12] == a[at + 12] && y[12] == b[bt + 12]);
    assert(x[13] == a[at + 13] && y[13] == b[bt + 13]);
    assert(x[14] == a[at + 14] && y[14] == b[bt + 14]);
    assert(x[15] == a[at + 15] && y[15] == b[bt + 15]);
    assert(x[16] == a[at + 16] && y[16] == b[bt + 16]);
    assert(x[17] == a[at + 17] && y[17] == b[bt + 17]);
    assert(x[18] == a[at + 18] && y[18] == b[bt + 18]);
    assert(x[19] == a[at + 19] && y[19] == b[bt + 19]);
    assert(x[20] == a[at + 20] && y[20] == b[bt + 20]);
    assert(x[21] == a[at + 21] && y[21] == b[bt + 21]);
    assert(x[22] == a[at + 22] && y[22] == b[bt + 22]);
    assert(x[23] == a[at + 23] && y[23] == b[bt + 23]);
    assert(x[24] == a[at + 24] && y[24] == b[bt + 24]);
    assert(x[25] == a[at + 25] && y[25] == b[bt + 25]);
    assert(x[26] == a[at + 26] && y[26] == b[bt + 26]);
    assert(x[27] == a[at + 27] && y[27] == b[bt + 27]);
    assert(x[28] == a[at + 28] && y[28] == b[bt + 28]);
    assert(x[29] == a[at + 29] && y[29] == b[bt + 29]);
    assert(x[30] == a[at + 30] && y[30] == b[bt + 30]);
    assert(x[31] == a[at + 31] && y[31] == b[bt + 31]);
    assert(v.position =~= w.position);
    assert(v.normal =~= w.normal);
    assert(v.uv =~= w.uv);
    assert(v.color =~= w.color);
    assert(v.boneid =~= w.boneid);
    assert(v.boneweight =~= w.boneweight);
}

/// Two streams that agree on the 6 bytes of a face record hold the same
/// face there.
pub proof fn lemma_face_at_local(a: Seq<u8>, at: int, b: Seq<u8>, bt: int)
    requires
        0 <= at,
        at + 6 <= a.len(),
        0 <= bt,
        bt + 6 <= b.len(),
        a.subrange(at, at + 6) == b.subrange(bt, bt + 6),
    ensures
        spec_face_at(a, at) == spec_face_at(b, bt),
{
    let x = a.subrange(at, at + 6);
    let y = b.subrange(bt, bt + 6);
    assert(x[0] == a[at + 0] && y[0] == b[bt + 0]);
    assert(x[1] == a[at + 1] && y[1] == b[bt + 1]);
    assert(x[2] == a[at + 2] && y[2] == b[bt + 2]);
    assert(x[3] == a[at + 3] && y[3] == b[bt + 3]);
    assert(x[4] == a[at + 4] && y[4] == b[bt + 4]);
    assert(x[5] == a[at + 5] && y[5] == b[bt + 5]);
    assert(spec_face_at(a, at).vertex_ids =~= spec_face_at(b, bt).vertex_ids);
}

/// Two streams that agree on the 32 bytes of a header hold the same header
/// there.
pub proof fn lemma_header_at_local(a: Seq<u8>, at: int, b: Seq<u8>, bt: int)
    requires
        0 <= at,
        at + 32 <= a.len(),
        0 <= bt,
        bt + 32 <= b.len(),
        a.subrange(at, at + 32) == b.subrange(bt, bt + 32),
    ensures
        spec_header_at(a, at) == spec_header_at(b, bt),
{
    let x = a.subrange(at, at + 32);
    let y = b.subrange(bt, bt + 32);
    assert(x[0] == a[at + 0] && y[0] == b[bt + 0]);
    assert(x[1] == a[at + 1] && y[1] == b[bt + 1]);
    assert(x[2] == a[at + 2] && y[2] == b[bt + 2]);
    assert(x[3] == a[at + 3] && y[3] == b[bt + 3]);
    assert(x[4] == a[at + 4] && y[4] == b[bt + 4]);
    assert(x[5] == a[at + 5] && y[5] == b[bt + 5]);
    assert(x[6] == a[at + 6] && y[6] == b[bt + 6]);
    assert(x[7] == a[at + 7] && y[7] == b[bt + 7]);
    assert(x[8] == a[at + 8] && y[8] == b[bt + 8]);
    assert(x[9] == a[at + 9] && y[9] == b[bt + 9]);
    assert(x[10] == a[at + 10] && y[10] == b[bt + 10]);
    assert(x[11] == a[at + 11] && y[11] == b[bt + 11]);
    assert(x[12] == a[at + 12] && y[12] == b[bt + 12]);
    assert(x[13] == a[at + 13] && y[13] == b[bt + 13]);
    assert(x[14] == a[at + 14] && y[14] == b[bt + 14]);
    assert(x[15] == a[at + 15] && y[15] == b[bt + 15]);
    assert(x[16] == a[at + 16] && y[16] == b[bt + 16]);
    assert(x[17] == a[at + 17] && y[17] == b[bt + 17]);
    assert(x[18] == a[at + 18] && y[18] == b[bt + 18]);
    assert(x[19] == a[at + 19] && y[19] == b[bt + 19]);
    assert(x[20] == a[at + 20] && y[20] == b[bt + 20]);
    assert(x[21] == a[at + 21] && y[21] == b[bt + 21]);
    assert(x[22] == a[at + 22] && y[22] == b[bt + 22]);
    assert(x[23] == a[at + 23] && y[23] == b[bt + 23]);
    assert(x[24] == a[at + 24] && y[24] == b[bt + 24]);
    assert(x[25] == a[at + 25] && y[25] == b[bt + 25]);
    assert(x[26] == a[at + 26] && y[26] == b[bt + 26]);
    assert(x[27] == a[at + 27] && y[27] == b[bt + 27]);
    assert(x[28] == a[at + 28] && y[28] == b[bt + 28]);
    assert(x[29] == a[at + 29] && y[29] == b[bt + 29]);
    assert(x[30] == a[at + 30] && y[30] == b[bt + 30]);
    assert(x[31] == a[at + 31] && y[31] == b[bt + 31]);
    assert(spec_header_at(a, at).magic =~= spec_header_at(b, bt).magic);
    assert(spec_header_at(a, at).name =~= spec_header_at(b, bt).name);
}

/// Where the parts of a stream lie that is made of a header, vertex records,
/// face records and a rest.
proof fn lemma_parts_of_stream(hb: Seq<u8>, vb: Seq<u8>, fb: Seq<u8>, rest: Seq<u8>)
    ensures
        ({
            let b = hb + vb + fb + rest;
            let h = hb.len() as int;
            let v = vb.len() as int;
            let f = fb.len() as int;
            &&& b.len() == h + v + f + rest.len()
            &&& b.subrange(0, h) == hb
            &&& b.subrange(h, h + v) == vb
            &&& b.subrange(h + v, h + v + f) == fb
        }),
{
    let b = hb + vb + fb + rest;
    let h = hb.len() as int;
    let v = vb.len() as int;
    let f = fb.len() as int;
    assert(b.subrange(0, h) =~= hb);
    assert(b.subrange(h, h + v) =~= vb);
    assert(b.subrange(h + v, h + v + f) =~= fb);
}

/// A piece of a part of a stream is a piece of the stream.
proof fn lemma_piece_of_part(b: Seq<u8>, off: int, part: Seq<u8>, at: int, len: int)
    requires
        0 <= off,
        off + part.len() <= b.len(),
        b.subrange(off, off + part.len()) == part,
        0 <= at,
        0 <= len,
        at + len <= part.len(),
    ensures
        b.subrange(off + at, off + at + len) == part.subrange(at, at + len),
{
    let whole = b.subrange(off, off + part.len());
    let x = b.subrange(off + at, off + at + len);
    let y = part.subrange(at, at + len);
    assert forall|k: int| 0 <= k < len implies #[trigger] x[k] == y[k] by {
        assert(whole[at + k] == b[off + at + k]);
    }
    assert(x =~= y);
}

/// Appending to a sequence leaves its pieces where they are.
proof fn lemma_piece_before_append(a: Seq<u8>, b: Seq<u8>, lo: int, hi: int)
    requires
        0 <= lo <= hi <= a.len(),
    ensures
        (a + b).subrange(lo, hi) == a.subrange(lo, hi),
{
    assert((a + b).subrange(lo, hi) =~= a.subrange(lo, hi));
}

/// What was appended to a sequence stands at its end.
proof fn lemma_piece_appended(a: Seq<u8>, b: Seq<u8>)
    ensures
        (a + b).subrange(a.len() as int, (a.len() + b.len()) as int) == b,
{
    assert((a + b).subrange(a.len() as int, (a.len() + b.len()) as int) =~= b);
}

/// Two pieces that follow each other make one piece.
proof fn lemma_pieces_join(b: Seq<u8>, lo: int, mid: int, hi: int)
    requires
        0 <= lo <= mid <= hi <= b.len(),
    ensures
        b.subrange(lo, mid) + b.subrange(mid, hi) == b.subrange(lo, hi),
{
    assert(b.subrange(lo, mid) + b.subrange(mid, hi) =~= b.subrange(lo, hi));
}

/// The encoding of `n` vertices is `32 * n` bytes long, and the record of
/// vertex `i` stands in it at byte `32 * i`.
pub proof fn lemma_vertex_record_in_encoding(vertices: Seq<Vertex>, i: int)
    requires
        0 <= i < vertices.len(),
    ensures
        spec_vertices_bytes(vertices).len() == 32 * vertices.len(),
        spec_vertices_bytes(vertices).subrange(32 * i, 32 * i + 32) == spec_vertex_bytes(
            vertices[i],
        ),
    decreases vertices.len(),
{
    let init = vertices.drop_last();
    let head = spec_vertices_bytes(init);
    let tail = spec_vertex_bytes(vertices.last());
    lemma_vertices_bytes_len(init);
    lemma_vertex_roundtrip(vertices.last());
    if i == vertices.len() - 1 {
        lemma_piece_appended(head, tail);
    } else {
        lemma_vertex_record_in_encoding(init, i);
        lemma_piece_before_append(head, tail, 32 * i, 32 * i + 32);
    }
}

/// The encoding of `n` vertices is `32 * n` bytes long.
pub proof fn lemma_vertices_bytes_len(vertices: Seq<Vertex>)
    ensures
        spec_vertices_bytes(vertices).len() == 32 * vertices.len(),
    decreases vertices.len(),
{
    if vertices.len() > 0 {
        lemma_vertices_bytes_len(vertices.drop_last());
        lemma_vertex_roundtrip(vertices.last());
    }
}

/// The encoding of `n` faces is `6 * n` bytes long, and the record of face
/// `i` stands in it at byte `6 * i`.
pub proof fn lemma_face_record_in_encoding(faces: Seq<Face>, i: int)
    requires
        0 <= i < faces.len(),
    ensures
        spec_faces_bytes(faces).len() == 6 * faces.len(),
        spec_faces_bytes(faces).subrange(6 * i, 6 * i + 6) == spec_face_bytes(faces[i]),
    decreases faces.len(),
{
    let init = faces.drop_last();
    let head = spec_faces_bytes(init);
    let tail = spec_face_bytes(faces.last());
    lemma_faces_bytes_len(init);
    lemma_face_roundtrip(faces.last());
    if i == faces.len() - 1 {
        lemma_piece_appended(head, tail);
    } else {
        lemma_face_record_in_encoding(init, i);
        lemma_piece_before_append(head, tail, 6 * i, 6 * i + 6);
    }
}

/// The encoding of `n` faces is `6 * n` bytes long.
pub proof fn lemma_faces_bytes_len(faces: Seq<Face>)
    ensures
        spec_faces_bytes(faces).len() == 6 * faces.len(),
    decreases faces.len(),
{
    if faces.len() > 0 {
        lemma_faces_bytes_len(faces.drop_last());
        lemma_face_roundtrip(faces.last());
    }
}

/// Round trip of the records: decoding the encoded vertices and faces gives
/// them back bit for bit, fixed-point normals, texture coordinates and
/// colors included.
pub proof fn lemma_records_roundtrip(vertices: Seq<Vertex>, faces: Seq<Face>)
    ensures
        spec_vertices_at(spec_vertices_bytes(vertices), 0, vertices.len()) == vertices,
        spec_faces_at(spec_faces_bytes(faces), 0, faces.len()) == faces,
{
    let vb = spec_vertices_bytes(vertices);
    let vs = spec_vertices_at(vb, 0, vertices.len());
    assert forall|i: int| 0 <= i < vertices.len() implies #[trigger] vs[i] == vertices[i] by {
        let one = spec_vertex_bytes(vertices[i]);
        lemma_vertex_record_in_encoding(vertices, i);
        lemma_vertex_roundtrip(vertices[i]);
        assert(one.subrange(0, 32) =~= one);
        lemma_vertex_at_local(vb, 32 * i, one, 0);
    }
    assert(vs =~= vertices);
    let fb = spec_faces_bytes(faces);
    let fs = spec_faces_at(fb, 0, faces.len());
    assert forall|i: int| 0 <= i < faces.len() implies #[trigger] fs[i] == faces[i] by {
        let one = spec_face_bytes(faces[i]);
        lemma_face_record_in_encoding(faces, i);
        lemma_face_roundtrip(faces[i]);
        assert(one.subrange(0, 6) =~= one);
        lemma_face_at_local(fb, 6 * i, one, 0);
    }
    assert(fs =~= faces);
}

/// Encoding the vertices that were decoded from `n` records gives the bytes
/// of those records back.
pub proof fn lemma_vertices_bytes_roundtrip(b: Seq<u8>, at: int, n: nat)
    requires
        0 <= at,
        at + 32 * n <= b.len(),
    ensures
        spec_vertices_bytes(spec_vertices_at(b, at, n)) == b.subrange(at, at + 32 * n),
    decreases n,
{
    let vertices = spec_vertices_at(b, at, n);
    if n == 0 {
        assert(b.subrange(at, at) =~= Seq::<u8>::empty());
    } else {
        let m = (n - 1) as nat;
        assert(vertices.drop_last() =~= spec_vertices_at(b, at, m));
        assert(vertices.last() == spec_vertex_at(b, at + 32 * m));
        lemma_vertices_bytes_roundtrip(b, at, m);
        lemma_vertex_bytes_roundtrip(b, at + 32 * m);
        lemma_pieces_join(b, at, at + 32 * m, at + 32 * n);
    }
}

/// Encoding the faces that were decoded from `n` records gives the bytes of
/// those records back.
pub proof fn lemma_faces_bytes_roundtrip(b: Seq<u8>, at: int, n: nat)
    requires
        0 <= at,
        at + 6 * n <= b.len(),
    ensures
        spec_faces_bytes(spec_faces_at(b, at, n)) == b.subrange(at, at + 6 * n),
    decreases n,
{
    let faces = spec_faces_at(b, at, n);
    if n == 0 {
        assert(b.subrange(at, at) =~= Seq::<u8>::empty());
    } else {
        let m = (n - 1) as nat;
        assert(faces.drop_last() =~= spec_faces_at(b, at, m));
        assert(faces.last() == spec_face_at(b, at + 6 * m));
        lemma_faces_bytes_roundtrip(b, at, m);
        lemma_face_bytes_roundtrip(b, at + 6 * m);
        lemma_pieces_join(b, at, at + 6 * m, at + 6 * n);
    }
}

/// Round trip of the bytes: what a stream decodes to encodes to the bytes of
/// the stream, from its start to the end of the records that it declares. So
/// the data that a mesh uploads from a stream are the record bytes of the
/// stream, unchanged.
pub proof fn lemma_decoded_stream_encodes_to_itself(b: Seq<u8>)
    requires
        spec_decode(b) is Ok,
    ensures
        ({
            let (header, vertices, faces) = spec_decode(b)->Ok_0;
            &&& header.spec_stream_len() <= b.len()
            &&& spec_header_bytes(header) == b.subrange(0, 32)
            &&& spec_vertices_bytes(vertices) == b.subrange(32, 32 + 32 * header.nverts)
            &&& spec_faces_bytes(faces) == b.subrange(
                32 + 32 * header.nverts,
                header.spec_stream_len() as int,
            )
        }),
{
    let header = spec_header_at(b, 0);
    lemma_header_bytes_roundtrip(b, 0);
    lemma_vertices_bytes_roundtrip(b, 32, header.nverts as nat);
    lemma_faces_bytes_roundtrip(b, 32 + 32 * header.nverts, header.nfaces as nat);
}

/// A stream made of a header with the right tag and of as many vertex and
/// face records as the header declares decodes to that header, those
/// vertices and those faces, whatever follows the records.
pub proof fn lemma_encoded_stream_decodes(
    header: MdlHeader,
    vertices: Seq<Vertex>,
    faces: Seq<Face>,
    rest: Seq<u8>,
)
    requires
        spec_magic_ok(header.magic),
        header.nverts == vertices.len(),
        header.nfaces == faces.len(),
    ensures
        spec_decode(
            spec_header_bytes(header) + spec_vertices_bytes(vertices) + spec_faces_bytes(faces)
                + rest,
        ) == Ok::<(MdlHeader, Seq<Vertex>, Seq<Face>), MdlError>((header, vertices, faces)),
{
    let hb = spec_header_bytes(header);
    let vb = spec_vertices_bytes(vertices);
    let fb = spec_faces_bytes(faces);
    let b = hb + vb + fb + rest;
    let start = 32 + 32 * header.nverts;
    lemma_header_roundtrip(header);
    lemma_vertices_bytes_len(vertices);
    lemma_faces_bytes_len(faces);
    lemma_parts_of_stream(hb, vb, fb, rest);
    assert(spec_header_at(b, 0) == header) by {
        assert(hb.subrange(0, 32) =~= hb);
        lemma_header_at_local(b, 0, hb, 0);
    }
    let vs = spec_vertices_at(b, 32, header.nverts as nat);
    assert forall|i: int| 0 <= i < vertices.len() implies #[trigger] vs[i] == vertices[i] by {
        let one = spec_vertex_bytes(vertices[i]);
        lemma_vertex_record_in_encoding(vertices, i);
        lemma_piece_of_part(b, 32, vb, 32 * i, 32);
        lemma_vertex_roundtrip(vertices[i]);
        assert(one.subrange(0, 32) =~= one);
        lemma_vertex_at_local(b, 32 + 32 * i, one, 0);
    }
    assert(vs =~= vertices);
    let fs = spec_faces_at(b, start, header.nfaces as nat);
    assert forall|i: int| 0 <= i < faces.len() implies #[trigger] fs[i] == faces[i] by {
        let one = spec_face_bytes(faces[i]);
        lemma_face_record_in_encoding(faces, i);
        lemma_piece_of_part(b, start, fb, 6 * i, 6);
        lemma_face_roundtrip(faces[i]);
        assert(one.subrange(0, 6) =~= one);
        lemma_face_at_local(b, start + 6 * i, one, 0);
    }
    assert(fs =~= faces);
}

/// Decoding looks at no byte beyond the records that the header declares:
/// a stream that decodes, and any stream that agrees with it up to the end
/// of those records, decode to the same.
pub proof fn lemma_decode_reads_declared_bytes_only(a: Seq<u8>, b: Seq<u8>)
    requires
        spec_decode(a) is Ok,
        b.len() >= (spec_decode(a)->Ok_0).0.spec_stream_len(),
        b.take((spec_decode(a)->Ok_0).0.spec_stream_len() as int) == a.take(
            (spec_decode(a)->Ok_0).0.spec_stream_len() as int,
        ),
    ensures
        spec_decode(b) == spec_decode(a),
{
    let header = (spec_decode(a)->Ok_0).0;
    let n = header.spec_stream_len() as int;
    assert forall|k: int| 0 <= k < n implies a[k] == b[k] by {
        assert(a.take(n)[k] == b.take(n)[k]);
    }
    assert(a[0] == b[0]);
    assert(spec_header_at(a, 0).magic =~= spec_header_at(b, 0).magic);
    assert(spec_header_at(a, 0).name =~= spec_header_at(b, 0).name);
    assert(spec_header_at(a, 0) == spec_header_at(b, 0));
    let va = spec_vertices_at(a, 32, header.nverts as nat);
    let vb = spec_vertices_at(b, 32, header.nverts as nat);
    assert forall|i: int| 0 <= i < header.nverts implies va[i] == vb[i] by {
        assert(a.subrange(32 + 32 * i, 32 + 32 * i + 32) =~= b.subrange(
            32 + 32 * i,
            32 + 32 * i + 32,
        ));
        lemma_vertex_at_local(a, 32 + 32 * i, b, 32 + 32 * i);
    }
    let start = 32 + 32 * header.nverts;
    let fa = spec_faces_at(a, start, header.nfaces as nat);
    let fb = spec_faces_at(b, start, header.nfaces as nat);
    assert forall|i: int| 0 <= i < header.nfaces implies fa[i] == fb[i] by {
        assert(a.subrange(start + 6 * i, start + 6 * i + 6) =~= b.subrange(
            start + 6 * i,
            start + 6 * i + 6,
        ));
        lemma_face_at_local(a, start + 6 * i, b, start + 6 * i);
    }
    assert(va =~= vb);
    assert(fa =~= fb);
}

/// A stream whose first three bytes are not `"MDL"` is rejected with a
/// format error, whatever else it holds.
pub proof fn lemma_bad_magic_is_format_error(b: Seq<u8>)
    requires
        b.len() >= 3,
        !(b[0] == 0x4D && b[1] == 0x44 && b[2] == 0x4C),
    ensures
        spec_decode(b) is Err,
        (spec_decode(b)->Err_0).spec_is_format_error(),
        b.len() >= 32 ==> (spec_decode(b)->Err_0) == (MdlError::BadMagic {
            found: spec_header_at(b, 0).magic,
        }),
{
}

/// A stream that starts with a good header but ends before the records that
/// the header declares is rejected with a read error: no shorter list of
/// records is made of it.
pub proof fn lemma_short_stream_is_read_error(b: Seq<u8>)
    requires
        spec_decode_header(b) is Ok,
        b.len() < (spec_decode_header(b)->Ok_0).spec_stream_len(),
    ensures
        spec_decode(b) is Err,
        (spec_decode(b)->Err_0).spec_is_read_error(),
{
}

/// The layout that a mesh declares to the device is the layout of a vertex
/// record: records follow each other at the declared stride, every attribute
/// lies inside a record, and at its declared offset the record holds the
/// components of the field that the attribute is named after.
pub proof fn lemma_layout_matches_record(v: Vertex, attribute: VertexAttribute, k: int)
    requires
        0 <= k < attribute.spec_layout().components,
    ensures
        attribute.spec_layout().stride == VERTEX_LEN,
        attribute.spec_layout().location == attribute.spec_location(),
        attribute.spec_layout().offset + attribute.spec_layout().components
            * attribute.spec_layout().kind.spec_size() <= VERTEX_LEN,
        match attribute {
            VertexAttribute::Position => spec_u32_at(
                spec_vertex_bytes(v),
                attribute.spec_layout().offset + 4 * k,
            ) == v.position[k],
            VertexAttribute::Normal => spec_i16_at(
                spec_vertex_bytes(v),
                attribute.spec_layout().offset + 2 * k,
            ) == v.normal[k],
            VertexAttribute::Uv => spec_u16_at(
                spec_vertex_bytes(v),
                attribute.spec_layout().offset + 2 * k,
            ) == v.uv[k],
            VertexAttribute::Color => spec_vertex_bytes(v)[attribute.spec_layout().offset + k]
                == v.color[k],
        },
{
    let b = spec_vertex_bytes(v);
    lemma_u32_roundtrip(b, 0, v.position[0]);
    lemma_u32_roundtrip(b, 4, v.position[1]);
    lemma_u32_roundtrip(b, 8, v.position[2]);
    lemma_i16_roundtrip(b, 12, v.normal[0]);
    lemma_i16_roundtrip(b, 14, v.normal[1]);
    lemma_i16_roundtrip(b, 16, v.normal[2]);
    lemma_u16_roundtrip(b, 18, v.uv[0]);
    lemma_u16_roundtrip(b, 20, v.uv[1]);
}

} // verus!
