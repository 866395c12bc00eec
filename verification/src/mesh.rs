//! Meshes, and the binary `.mdl` format that they are read from.
//!
//! A `.mdl` stream is a header of 32 bytes, then one record of 32 bytes for
//! each vertex, then one record of 6 bytes for each triangle. Edge records
//! may follow; they play no part in drawing and are not read. Every number of
//! more than one byte is stored with its least significant byte first.
//!
//! ```text
//! offset 0   magic[3]   "MDL"
//! offset 3   version    u8
//! offset 4   nverts     u32
//! offset 8   nfaces     u32
//! offset 12  nedges     u32
//! offset 16  nbones     u8
//! offset 17  name[15]
//! offset 32  nverts vertex records, then nfaces face records
//! ```

use crate::bytes::{
    i16_at, le_byte, spec_byte, spec_i16_at, spec_u16_at, spec_u32_at, spec_unsigned, u16_at,
    u32_at, unsigned,
};
use crate::device::{
    append_calls, view_calls, BufferTarget, Call, DeviceCall, DeviceCallView, VertexAttribute,
};
use vstd::prelude::*;
use vstd::slice::slice_to_vec;

verus! {

/// Length of the header in bytes.
pub const HEADER_LEN: usize = 32;

/// Length of a vertex record in bytes.
pub const VERTEX_LEN: usize = 32;

/// Length of a face record in bytes.
pub const FACE_LEN: usize = 6;

/// One vertex of a mesh. The three coordinates of the position are kept as
/// the bit patterns of IEEE-754 single-precision numbers; normal and texture
/// coordinates are fixed-point numbers that the device maps to the unit
/// range.
#[derive(Clone, Copy, Debug, Default, PartialEq, Eq)]
pub struct Vertex {
    pub position: [u32; 3],
    pub normal: [i16; 3],
    pub uv: [u16; 2],
    pub color: [u8; 3],
    pub material: u8,
    pub boneid: [u8; 2],
    pub boneweight: [u8; 2],
    pub incident_edge_id: u16,
}

/// One triangle of a mesh: the indices of its three vertices.
#[derive(Clone, Copy, Debug, Default, PartialEq, Eq)]
pub struct Face {
    pub vertex_ids: [u16; 3],
}

/// One edge of a mesh with its neighbourhood: its two vertices, the two
/// faces it separates, and the two edges that follow it around each of them.
/// Edges serve queries on the shape of a mesh, not drawing.
#[derive(Clone, Copy, Debug, Default, PartialEq, Eq)]
pub struct Edge {
    pub vertex_ids: [u16; 2],
    pub face_ids: [u16; 2],
    pub first_edges: [u16; 2],
    pub second_edges: [u16; 2],
}

/// The header of a `.mdl` stream.
#[derive(Clone, Copy, Debug, Default, PartialEq, Eq)]
pub struct MdlHeader {
    pub magic: [u8; 3],
    pub version: u8,
    pub nverts: u32,
    pub nfaces: u32,
    pub nedges: u32,
    pub nbones: u8,
    pub name: [u8; 15],
}

/// Why a `.mdl` stream could not be decoded.
#[derive(Clone, Copy, Debug, PartialEq, Eq)]
pub enum MdlError {
    /// The stream is shorter than a header: it has `available` bytes.
    TruncatedHeader { available: u64 },
    /// The stream does not start with `"MDL"` but with `found`.
    BadMagic { found: [u8; 3] },
    /// The stream ends before the records that its header declares: they
    /// end at byte `expected`, the stream has `available` bytes.
    UnexpectedEof { expected: u64, available: u64 },
}

impl MdlError {
    /// Whether the stream is not a `.mdl` stream at all.
    pub open spec fn spec_is_format_error(self) -> bool {
        self is TruncatedHeader || self is BadMagic
    }

    /// Whether the stream ended too early to read what it declares.
    pub open spec fn spec_is_read_error(self) -> bool {
        self is UnexpectedEof
    }

    /// Whether the stream is not a `.mdl` stream at all.
    pub fn is_format_error(&self) -> (r: bool)
        ensures
            r == self.spec_is_format_error(),
    {
        match self {
            MdlError::TruncatedHeader { .. } => true,
            MdlError::BadMagic { .. } => true,
            MdlError::UnexpectedEof { .. } => false,
        }
    }

    /// Whether the stream ended too early to read what it declares.
    pub fn is_read_error(&self) -> (r: bool)
        ensures
            r == self.spec_is_read_error(),
    {
        match self {
            MdlError::UnexpectedEof { .. } => true,
            _ => false,
        }
    }
}

/// The header whose 32 bytes stand at `at` in `b`.
pub open spec fn spec_header_at(b: Seq<u8>, at: int) -> MdlHeader {
    MdlHeader {
        magic: [b[at], b[at + 1], b[at + 2]],
        version: b[at + 3],
        nverts: spec_u32_at(b, at + 4),
        nfaces: spec_u32_at(b, at + 8),
        nedges: spec_u32_at(b, at + 12),
        nbones: b[at + 16],
        name: [
            b[at + 17],
            b[at + 18],
            b[at + 19],
            b[at + 20],
            b[at + 21],
            b[at + 22],
            b[at + 23],
            b[at + 24],
            b[at + 25],
            b[at + 26],
            b[at + 27],
            b[at + 28],
            b[at + 29],
            b[at + 30],
            b[at + 31],
        ],
    }
}

/// The 32 bytes of a header.
pub open spec fn spec_header_bytes(h: MdlHeader) -> Seq<u8> {
    seq![
        h.magic[0],
        h.magic[1],
        h.magic[2],
        h.version,
        spec_byte(h.nverts as int, 0),
        spec_byte(h.nverts as int, 1),
        spec_byte(h.nverts as int, 2),
        spec_byte(h.nverts as int, 3),
        spec_byte(h.nfaces as int, 0),
        spec_byte(h.nfaces as int, 1),
        spec_byte(h.nfaces as int, 2),
        spec_byte(h.nfaces as int, 3),
        spec_byte(h.nedges as int, 0),
        spec_byte(h.nedges as int, 1),
        spec_byte(h.nedges as int, 2),
        spec_byte(h.nedges as int, 3),
        h.nbones,
        h.name[0],
        h.name[1],
        h.name[2],
        h.name[3],
        h.name[4],
        h.name[5],
        h.name[6],
        h.name[7],
        h.name[8],
        h.name[9],
        h.name[10],
        h.name[11],
        h.name[12],
        h.name[13],
        h.name[14],
    ]
}

/// The vertex whose 32 bytes stand at `at` in `b`.
pub open spec fn spec_vertex_at(b: Seq<u8>, at: int) -> Vertex {
    Vertex {
        position: [spec_u32_at(b, at), spec_u32_at(b, at + 4), spec_u32_at(b, at + 8)],
        normal: [spec_i16_at(b, at + 12), spec_i16_at(b, at + 14), spec_i16_at(b, at + 16)],
        uv: [spec_u16_at(b, at + 18), spec_u16_at(b, at + 20)],
        color: [b[at + 22], b[at + 23], b[at + 24]],
        material: b[at + 25],
        boneid: [b[at + 26], b[at + 27]],
        boneweight: [b[at + 28], b[at + 29]],
        incident_edge_id: spec_u16_at(b, at + 30),
    }
}

/// The 32 bytes of a vertex record.
pub open spec fn spec_vertex_bytes(v: Vertex) -> Seq<u8> {
    seq![
        spec_byte(v.position[0] as int, 0),
        spec_byte(v.position[0] as int, 1),
        spec_byte(v.position[0] as int, 2),
        spec_byte(v.position[0] as int, 3),
        spec_byte(v.position[1] as int, 0),
        spec_byte(v.position[1] as int, 1),
        spec_byte(v.position[1] as int, 2),
        spec_byte(v.position[1] as int, 3),
        spec_byte(v.position[2] as int, 0),
        spec_byte(v.position[2] as int, 1),
        spec_byte(v.position[2] as int, 2),
        spec_byte(v.position[2] as int, 3),
        spec_byte(spec_unsigned(v.normal[0]), 0),
        spec_byte(spec_unsigned(v.normal[0]), 1),
        spec_byte(spec_unsigned(v.normal[1]), 0),
        spec_byte(spec_unsigned(v.normal[1]), 1),
        spec_byte(spec_unsigned(v.normal[2]), 0),
        spec_byte(spec_unsigned(v.normal[2]), 1),
        spec_byte(v.uv[0] as int, 0),
        spec_byte(v.uv[0] as int, 1),
        spec_byte(v.uv[1] as int, 0),
        spec_byte(v.uv[1] as int, 1),
        v.color[0],
        v.color[1],
        v.color[2],
        v.material,
        v.boneid[0],
        v.boneid[1],
        v.boneweight[0],
        v.boneweight[1],
        spec_byte(v.incident_edge_id as int, 0),
        spec_byte(v.incident_edge_id as int, 1),
    ]
}

/// The face whose 6 bytes stand at `at` in `b`.
pub open spec fn spec_face_at(b: Seq<u8>, at: int) -> Face {
    Face { vertex_ids: [spec_u16_at(b, at), spec_u16_at(b, at + 2), spec_u16_at(b, at + 4)] }
}

/// The 6 bytes of a face record.
pub open spec fn spec_face_bytes(f: Face) -> Seq<u8> {
    seq![
        spec_byte(f.vertex_ids[0] as int, 0),
        spec_byte(f.vertex_ids[0] as int, 1),
        spec_byte(f.vertex_ids[1] as int, 0),
        spec_byte(f.vertex_ids[1] as int, 1),
        spec_byte(f.vertex_ids[2] as int, 0),
        spec_byte(f.vertex_ids[2] as int, 1),
    ]
}

/// The `n` vertices whose records stand one after the other from `at` on.
pub open spec fn spec_vertices_at(b: Seq<u8>, at: int, n: nat) -> Seq<Vertex> {
    Seq::new(n, |i: int| spec_vertex_at(b, at + 32 * i))
}

/// The `n` faces whose records stand one after the other from `at` on.
pub open spec fn spec_faces_at(b: Seq<u8>, at: int, n: nat) -> Seq<Face> {
    Seq::new(n, |i: int| spec_face_at(b, at + 6 * i))
}

/// The records of the vertices, one after the other.
pub open spec fn spec_vertices_bytes(vertices: Seq<Vertex>) -> Seq<u8>
    decreases vertices.len(),
{
    if vertices.len() == 0 {
        Seq::empty()
    } else {
        spec_vertices_bytes(vertices.drop_last()) + spec_vertex_bytes(vertices.last())
    }
}

/// The records of the faces, one after the other.
pub open spec fn spec_faces_bytes(faces: Seq<Face>) -> Seq<u8>
    decreases faces.len(),
{
    if faces.len() == 0 {
        Seq::empty()
    } else {
        spec_faces_bytes(faces.drop_last()) + spec_face_bytes(faces.last())
    }
}

/// Whether the three bytes are the tag `"MDL"`.
pub open spec fn spec_magic_ok(magic: [u8; 3]) -> bool {
    magic[0] == 0x4D && magic[1] == 0x44 && magic[2] == 0x4C
}

impl MdlHeader {
    /// Where the records that the header declares end, counted in bytes from
    /// the start of the stream.
    pub open spec fn spec_stream_len(self) -> nat {
        (32 + 32 * self.nverts + 6 * self.nfaces) as nat
    }

    /// Where the records that the header declares end, counted in bytes from
    /// the start of the stream. A reader needs no byte beyond.
    pub fn stream_len(&self) -> (r: u64)
        ensures
            r == self.spec_stream_len(),
    {
        32 + 32 * (self.nverts as u64) + 6 * (self.nfaces as u64)
    }

    /// Reads the header at the start of `bytes`. Fails if there are fewer
    /// than 32 bytes, or if the first three are not `"MDL"`.
    pub fn decode(bytes: &[u8]) -> (r: Result<MdlHeader, MdlError>)
        ensures
            r == spec_decode_header(bytes@),
    {
        if bytes.len() < HEADER_LEN {
            return Err(MdlError::TruncatedHeader { available: bytes.len() as u64 });
        }
        let header = MdlHeader {
            magic: [bytes[0], bytes[1], bytes[2]],
            version: bytes[3],
            nverts: u32_at(bytes, 4),
            nfaces: u32_at(bytes, 8),
            nedges: u32_at(bytes, 12),
            nbones: bytes[16],
            name: [
                bytes[17],
                bytes[18],
                bytes[19],
                bytes[20],
                bytes[21],
                bytes[22],
                bytes[23],
                bytes[24],
                bytes[25],
                bytes[26],
                bytes[27],
                bytes[28],
                bytes[29],
                bytes[30],
                bytes[31],
            ],
        };
        proof {
            let expected = spec_header_at(bytes@, 0);
            assert(header.magic =~= expected.magic);
            assert(header.name =~= expected.name);
        }
        if header.magic[0] == 0x4D && header.magic[1] == 0x44 && header.magic[2] == 0x4C {
            Ok(header)
        } else {
            Err(MdlError::BadMagic { found: header.magic })
        }
    }

    /// The 32 bytes of the header.
    pub fn to_bytes(&self) -> (r: Vec<u8>)
        ensures
            r@ == spec_header_bytes(*self),
            r@.len() == 32,
    {
        let record: [u8; 32] = [
            self.magic[0],
            self.magic[1],
            self.magic[2],
            self.version,
            le_byte(self.nverts, 0),
            le_byte(self.nverts, 1),
            le_byte(self.nverts, 2),
            le_byte(self.nverts, 3),
            le_byte(self.nfaces, 0),
            le_byte(self.nfaces, 1),
            le_byte(self.nfaces, 2),
            le_byte(self.nfaces, 3),
            le_byte(self.nedges, 0),
            le_byte(self.nedges, 1),
            le_byte(self.nedges, 2),
            le_byte(self.nedges, 3),
            self.nbones,
            self.name[0],
            self.name[1],
            self.name[2],
            self.name[3],
            self.name[4],
            self.name[5],
            self.name[6],
            self.name[7],
            self.name[8],
            self.name[9],
            self.name[10],
            self.name[11],
            self.name[12],
            self.name[13],
            self.name[14],
        ];
        assert(record@ =~= spec_header_bytes(*self));
        slice_to_vec(record.as_slice())
    }

    /// Appends the 32 bytes of the header to `out`.
    pub fn write_to(&self, out: &mut Vec<u8>)
        ensures
            final(out)@ == old(out)@ + spec_header_bytes(*self),
            final(out)@.len() == old(out)@.len() + 32,
    {
        let mut bytes = self.to_bytes();
        out.append(&mut bytes);
    }
}

/// What reading a header from the start of a stream gives.
pub open spec fn spec_decode_header(b: Seq<u8>) -> Result<MdlHeader, MdlError> {
    if b.len() < 32 {
        Err(MdlError::TruncatedHeader { available: b.len() as u64 })
    } else if !spec_magic_ok(spec_header_at(b, 0).magic) {
        Err(MdlError::BadMagic { found: spec_header_at(b, 0).magic })
    } else {
        Ok(spec_header_at(b, 0))
    }
}

impl Vertex {
    /// Reads the vertex whose record starts at `at`.
    pub fn decode(bytes: &[u8], at: usize) -> (v: Vertex)
        requires
            at + 32 <= bytes.len(),
        ensures
            v == spec_vertex_at(bytes@, at as int),
    {
        let x = u32_at(bytes, at);
        let y = u32_at(bytes, at + 4);
        let z = u32_at(bytes, at + 8);
        let nx = i16_at(bytes, at + 12);
        let ny = i16_at(bytes, at + 14);
        let nz = i16_at(bytes, at + 16);
        let s = u16_at(bytes, at + 18);
        let t = u16_at(bytes, at + 20);
        let red = bytes[at + 22];
        let green = bytes[at + 23];
        let blue = bytes[at + 24];
        let bone0 = bytes[at + 26];
        let bone1 = bytes[at + 27];
        let weight0 = bytes[at + 28];
        let weight1 = bytes[at + 29];
        let v = Vertex {
            position: [x, y, z],
            normal: [nx, ny, nz],
            uv: [s, t],
            color: [red, green, blue],
            material: bytes[at + 25],
            boneid: [bone0, bone1],
            boneweight: [weight0, weight1],
            incident_edge_id: u16_at(bytes, at + 30),
        };
        proof {
            let expected = spec_vertex_at(bytes@, at as int);
            assert(v.position =~= expected.position);
            assert(v.normal =~= expected.normal);
            assert(v.uv =~= expected.uv);
            assert(v.color =~= expected.color);
            assert(v.boneid =~= expected.boneid);
            assert(v.boneweight =~= expected.boneweight);
        }
        v
    }

    /// The 32 bytes of the vertex's record.
    pub fn to_bytes(&self) -> (r: Vec<u8>)
        ensures
            r@ == spec_vertex_bytes(*self),
            r@.len() == 32,
    {
        let x = self.position[0];
        let y = self.position[1];
        let z = self.position[2];
        let nx = unsigned(self.normal[0]);
        let ny = unsigned(self.normal[1]);
        let nz = unsigned(self.normal[2]);
        let s = self.uv[0] as u32;
        let t = self.uv[1] as u32;
        let edge = self.incident_edge_id as u32;
        let record: [u8; 32] = [
            le_byte(x, 0),
            le_byte(x, 1),
            le_byte(x, 2),
            le_byte(x, 3),
            le_byte(y, 0),
            le_byte(y, 1),
            le_byte(y, 2),
            le_byte(y, 3),
            le_byte(z, 0),
            le_byte(z, 1),
            le_byte(z, 2),
            le_byte(z, 3),
            le_byte(nx, 0),
            le_byte(nx, 1),
            le_byte(ny, 0),
            le_byte(ny, 1),
            le_byte(nz, 0),
            le_byte(nz, 1),
            le_byte(s, 0),
            le_byte(s, 1),
            le_byte(t, 0),
            le_byte(t, 1),
            self.color[0],
            self.color[1],
            self.color[2],
            self.material,
            self.boneid[0],
            self.boneid[1],
            self.boneweight[0],
            self.boneweight[1],
            le_byte(edge, 0),
            le_byte(edge, 1),
        ];
        assert(record@ =~= spec_vertex_bytes(*self));
        slice_to_vec(record.as_slice())
    }

    /// Appends the 32 bytes of the vertex's record to `out`.
    pub fn write_to(&self, out: &mut Vec<u8>)
        ensures
            final(out)@ == old(out)@ + spec_vertex_bytes(*self),
            final(out)@.len() == old(out)@.len() + 32,
    {
        let mut bytes = self.to_bytes();
        out.append(&mut bytes);
    }
}

impl Face {
    /// Reads the face whose record starts at `at`.
    pub fn decode(bytes: &[u8], at: usize) -> (f: Face)
        requires
            at + 6 <= bytes.len(),
        ensures
            f == spec_face_at(bytes@, at as int),
    {
        let a = u16_at(bytes, at);
        let b = u16_at(bytes, at + 2);
        let c = u16_at(bytes, at + 4);
        let f = Face { vertex_ids: [a, b, c] };
        assert(f.vertex_ids =~= spec_face_at(bytes@, at as int).vertex_ids);
        f
    }

    /// The 6 bytes of the face's record.
    pub fn to_bytes(&self) -> (r: Vec<u8>)
        ensures
            r@ == spec_face_bytes(*self),
            r@.len() == 6,
    {
        let a = self.vertex_ids[0] as u32;
        let b = self.vertex_ids[1] as u32;
        let c = self.vertex_ids[2] as u32;
        let record: [u8; 6] = [
            le_byte(a, 0),
            le_byte(a, 1),
            le_byte(b, 0),
            le_byte(b, 1),
            le_byte(c, 0),
            le_byte(c, 1),
        ];
        assert(record@ =~= spec_face_bytes(*self));
        slice_to_vec(record.as_slice())
    }

    /// Appends the 6 bytes of the face's record to `out`.
    pub fn write_to(&self, out: &mut Vec<u8>)
        ensures
            final(out)@ == old(out)@ + spec_face_bytes(*self),
            final(out)@.len() == old(out)@.len() + 6,
    {
        let mut bytes = self.to_bytes();
        out.append(&mut bytes);
    }
}

/// What a `.mdl` stream holds for drawing.
#[derive(Debug, PartialEq, Eq)]
pub struct MdlModel {
    pub header: MdlHeader,
    pub vertices: Vec<Vertex>,
    pub faces: Vec<Face>,
}

/// What decoding a stream gives: the header, the vertices and the faces, or
/// the reason why there are none.
///
/// A stream shorter than a header, or one that does not start with `"MDL"`,
/// is no `.mdl` stream. One that is shorter than its header declares was cut
/// short. Bytes after the records that the header declares are not looked
/// at.
pub open spec fn spec_decode(b: Seq<u8>) -> Result<(MdlHeader, Seq<Vertex>, Seq<Face>), MdlError> {
    match spec_decode_header(b) {
        Err(e) => Err(e),
        Ok(header) => if b.len() < header.spec_stream_len() {
            Err(
                MdlError::UnexpectedEof {
                    expected: header.spec_stream_len() as u64,
                    available: b.len() as u64,
                },
            )
        } else {
            Ok(
                (
                    header,
                    spec_vertices_at(b, 32, header.nverts as nat),
                    spec_faces_at(b, 32 + 32 * header.nverts, header.nfaces as nat),
                ),
            )
        },
    }
}

/// Reads `count` vertex records that stand one after the other from `at` on.
pub fn decode_vertices(bytes: &[u8], at: usize, count: usize) -> (r: Vec<Vertex>)
    requires
        at + 32 * count <= bytes.len(),
    ensures
        r@ == spec_vertices_at(bytes@, at as int, count as nat),
{
    let mut vertices: Vec<Vertex> = Vec::new();
    let mut i: usize = 0;
    while i < count
        invariant
            i <= count,
            at + 32 * count <= bytes.len(),
            vertices@ == spec_vertices_at(bytes@, at as int, i as nat),
        decreases count - i,
    {
        let v = Vertex::decode(bytes, at + 32 * i);
        vertices.push(v);
        i += 1;
        assert(vertices@ =~= spec_vertices_at(bytes@, at as int, i as nat));
    }
    vertices
}

/// Reads `count` face records that stand one after the other from `at` on.
pub fn decode_faces(bytes: &[u8], at: usize, count: usize) -> (r: Vec<Face>)
    requires
        at + 6 * count <= bytes.len(),
    ensures
        r@ == spec_faces_at(bytes@, at as int, count as nat),
{
    let mut faces: Vec<Face> = Vec::new();
    let mut i: usize = 0;
    while i < count
        invariant
            i <= count,
            at + 6 * count <= bytes.len(),
            faces@ == spec_faces_at(bytes@, at as int, i as nat),
        decreases count - i,
    {
        let f = Face::decode(bytes, at + 6 * i);
        faces.push(f);
        i += 1;
        assert(faces@ =~= spec_faces_at(bytes@, at as int, i as nat));
    }
    faces
}

/// The records of the vertices, one after the other: 32 bytes for each.
pub fn encode_vertices(vertices: &[Vertex]) -> (r: Vec<u8>)
    ensures
        r@ == spec_vertices_bytes(vertices@),
        r@.len() == 32 * vertices@.len(),
{
    let mut out: Vec<u8> = Vec::new();
    let mut i: usize = 0;
    while i < vertices.len()
        invariant
            i <= vertices@.len(),
            out@.len() == 32 * i,
            out@ == spec_vertices_bytes(vertices@.take(i as int)),
        decreases vertices@.len() - i,
    {
        vertices[i].write_to(&mut out);
        i += 1;
        proof {
            let done = vertices@.take(i as int);
            assert(done.drop_last() =~= vertices@.take(i - 1));
            assert(done.last() == vertices@[i - 1]);
        }
    }
    assert(vertices@.take(i as int) =~= vertices@);
    out
}

/// The records of the faces, one after the other: 6 bytes for each.
pub fn encode_faces(faces: &[Face]) -> (r: Vec<u8>)
    ensures
        r@ == spec_faces_bytes(faces@),
        r@.len() == 6 * faces@.len(),
{
    let mut out: Vec<u8> = Vec::new();
    let mut i: usize = 0;
    while i < faces.len()
        invariant
            i <= faces@.len(),
            out@.len() == 6 * i,
            out@ == spec_faces_bytes(faces@.take(i as int)),
        decreases faces@.len() - i,
    {
        faces[i].write_to(&mut out);
        i += 1;
        proof {
            let done = faces@.take(i as int);
            assert(done.drop_last() =~= faces@.take(i - 1));
            assert(done.last() == faces@[i - 1]);
        }
    }
    assert(faces@.take(i as int) =~= faces@);
    out
}

impl MdlModel {
    /// Decodes a `.mdl` stream: the header, then as many vertex and face
    /// records as it declares.
    pub fn decode(bytes: &[u8]) -> (r: Result<MdlModel, MdlError>)
        ensures
            match spec_decode(bytes@) {
                Ok((header, vertices, faces)) => r matches Ok(m) && m.header == header
                    && m.vertices@ == vertices && m.faces@ == faces,
                Err(e) => r == Err::<MdlModel, MdlError>(e),
            },
    {
        let header = match MdlHeader::decode(bytes) {
            Ok(h) => h,
            Err(e) => {
                return Err(e);
            },
        };
        let expected = header.stream_len();
        let available = bytes.len() as u64;
        if available < expected {
            return Err(MdlError::UnexpectedEof { expected, available });
        }
        let nverts = header.nverts as usize;
        let nfaces = header.nfaces as usize;
        let vertices = decode_vertices(bytes, HEADER_LEN, nverts);
        let faces = decode_faces(bytes, HEADER_LEN + VERTEX_LEN * nverts, nfaces);
        Ok(MdlModel { header, vertices, faces })
    }
}

/// The buffers of a mesh on the device, and the number of indices to draw.
#[derive(Debug, PartialEq, Eq)]
pub struct Mesh {
    ibo: u32,
    vbo: u32,
    vao: u32,
    /// Number of indices to draw: three for each face.
    pub nelems: usize,
}

/// What a [`Mesh`] holds: the device handles of its index buffer, its vertex
/// buffer and its vertex array object, and the number of indices to draw.
pub struct MeshView {
    pub ibo: u32,
    pub vbo: u32,
    pub vao: u32,
    pub nelems: usize,
}

impl View for Mesh {
    type V = MeshView;

    closed spec fn view(&self) -> MeshView {
        MeshView { ibo: self.ibo, vbo: self.vbo, vao: self.vao, nelems: self.nelems }
    }
}

/// The calls that describe one vertex attribute of the bound buffer and
/// enable it.
pub open spec fn spec_attribute_calls(attribute: VertexAttribute) -> Seq<DeviceCallView> {
    seq![
        Call::VertexAttribPointer { layout: attribute.spec_layout() },
        Call::EnableVertexAttribArray { index: attribute.spec_location() },
    ]
}

impl MeshView {
    /// The calls that fill the vertex buffer with `data` and describe the
    /// four attributes of a vertex record. At the end neither the vertex
    /// array nor the buffer is bound any more.
    pub open spec fn vertex_upload_calls(self, data: Seq<u8>) -> Seq<DeviceCallView> {
        seq![
            Call::BindVertexArray { array: self.vao },
            Call::BindBuffer { target: BufferTarget::Vertices, buffer: self.vbo },
            Call::BufferData { target: BufferTarget::Vertices, data },
        ] + spec_attribute_calls(VertexAttribute::Position) + spec_attribute_calls(
            VertexAttribute::Normal,
        ) + spec_attribute_calls(VertexAttribute::Uv) + spec_attribute_calls(
            VertexAttribute::Color,
        ) + seq![
            Call::BindVertexArray { array: 0 },
            Call::BindBuffer { target: BufferTarget::Vertices, buffer: 0 },
        ]
    }

    /// The calls that fill the index buffer with `data`. At the end the
    /// buffer is not bound any more.
    pub open spec fn face_upload_calls(self, data: Seq<u8>) -> Seq<DeviceCallView> {
        seq![
            Call::BindBuffer { target: BufferTarget::Indices, buffer: self.ibo },
            Call::BufferData { target: BufferTarget::Indices, data },
            Call::BindBuffer { target: BufferTarget::Indices, buffer: 0 },
        ]
    }

    /// The calls that bind the mesh's vertex array and index buffer.
    pub open spec fn bind_calls(self) -> Seq<DeviceCallView> {
        seq![
            Call::BindVertexArray { array: self.vao },
            Call::BindBuffer { target: BufferTarget::Indices, buffer: self.ibo },
        ]
    }

    /// The call that draws the mesh's triangles.
    pub open spec fn draw_calls(self) -> Seq<DeviceCallView> {
        seq![Call::DrawElements { count: self.nelems }]
    }

    /// The calls that destroy the mesh's two buffers.
    pub open spec fn release_calls(self) -> Seq<DeviceCallView> {
        seq![Call::DeleteBuffer { buffer: self.vbo }, Call::DeleteBuffer { buffer: self.ibo }]
    }

}

impl Mesh {
    /// An empty mesh on three fresh device handles: a vertex buffer, an
    /// index buffer and a vertex array object.
    pub fn new(vbo: u32, ibo: u32, vao: u32) -> (mesh: Mesh)
        ensures
            mesh@ == (MeshView { ibo, vbo, vao, nelems: 0 }),
    {
        Mesh { vbo, ibo, vao, nelems: 0 }
    }

    /// Device handle of the vertex buffer.
    pub fn vbo(&self) -> (r: u32)
        ensures
            r == self@.vbo,
    {
        self.vbo
    }

    /// Device handle of the index buffer.
    pub fn ibo(&self) -> (r: u32)
        ensures
            r == self@.ibo,
    {
        self.ibo
    }

    /// Device handle of the vertex array object.
    pub fn vao(&self) -> (r: u32)
        ensures
            r == self@.vao,
    {
        self.vao
    }

    /// Number of indices to draw.
    pub fn element_count(&self) -> (r: usize)
        ensures
            r == self@.nelems,
    {
        self.nelems
    }

    /// A mesh on three fresh device handles with the vertices and faces of a
    /// decoded model, and the calls that upload them: first the vertices,
    /// then the faces.
    pub fn from_model(vbo: u32, ibo: u32, vao: u32, model: MdlModel) -> (r: (Mesh, Vec<DeviceCall>))
        ensures
            3 * model.faces@.len() <= usize::MAX,
            r.0@ == (MeshView { ibo, vbo, vao, nelems: (3 * model.faces@.len()) as usize }),
            view_calls(r.1@) == r.0@.vertex_upload_calls(spec_vertices_bytes(model.vertices@))
                + r.0@.face_upload_calls(spec_faces_bytes(model.faces@)),
    {
        let mut mesh = Mesh::new(vbo, ibo, vao);
        let mut calls = mesh.upload_vertex_data(model.vertices);
        let faces = mesh.upload_face_data(model.faces);
        append_calls(&mut calls, faces);
        (mesh, calls)
    }

    /// A mesh on three fresh device handles with the vertices and faces of a
    /// `.mdl` stream, and the calls that upload them. A stream that cannot be
    /// decoded gives its error and no call.
    pub fn from_mdl(vbo: u32, ibo: u32, vao: u32, bytes: &[u8]) -> (r: Result<
        (Mesh, Vec<DeviceCall>),
        MdlError,
    >)
        ensures
            match spec_decode(bytes@) {
                Ok((header, vertices, faces)) => {
                    let mesh = MeshView { ibo, vbo, vao, nelems: (3 * header.nfaces) as usize };
                    &&& 3 * header.nfaces <= usize::MAX
                    &&& r matches Ok((m, calls))
                    &&& m@ == mesh
                    &&& view_calls(calls@) == mesh.vertex_upload_calls(
                        spec_vertices_bytes(vertices),
                    ) + mesh.face_upload_calls(spec_faces_bytes(faces))
                },
                Err(e) => r == Err::<(Mesh, Vec<DeviceCall>), MdlError>(e),
            },
    {
        match MdlModel::decode(bytes) {
            Ok(model) => Ok(Mesh::from_model(vbo, ibo, vao, model)),
            Err(e) => Err(e),
        }
    }

    /// Uploads the vertices to the vertex buffer, to be written once and read
    /// many times, and declares the layout of their records.
    pub fn upload_vertex_data(&mut self, verts: Vec<Vertex>) -> (calls: Vec<DeviceCall>)
        ensures
            final(self)@ == old(self)@,
            view_calls(calls@) == old(self)@.vertex_upload_calls(spec_vertices_bytes(verts@)),
    {
        let data = encode_vertices(verts.as_slice());
        let ghost bytes = data@;
        let mut calls = vec![
            Call::BindVertexArray { array: self.vao },
            Call::BindBuffer { target: BufferTarget::Vertices, buffer: self.vbo },
            Call::BufferData { target: BufferTarget::Vertices, data },
        ];
        assert(view_calls(calls@) =~= seq![
            Call::BindVertexArray { array: self.vao },
            Call::BindBuffer { target: BufferTarget::Vertices, buffer: self.vbo },
            Call::BufferData { target: BufferTarget::Vertices, data: bytes },
        ]);
        push_attribute(&mut calls, VertexAttribute::Position);
        push_attribute(&mut calls, VertexAttribute::Normal);
        push_attribute(&mut calls, VertexAttribute::Uv);
        push_attribute(&mut calls, VertexAttribute::Color);
        let ghost described = view_calls(calls@);
        calls.push(Call::BindVertexArray { array: 0 });
        calls.push(Call::BindBuffer { target: BufferTarget::Vertices, buffer: 0 });
        assert(view_calls(calls@) =~= described + seq![
            Call::BindVertexArray { array: 0 },
            Call::BindBuffer { target: BufferTarget::Vertices, buffer: 0 },
        ]);
        calls
    }

    /// Uploads the faces to the index buffer, to be written once and read
    /// many times, and sets the number of indices to three for each face.
    pub fn upload_face_data(&mut self, faces: Vec<Face>) -> (calls: Vec<DeviceCall>)
        ensures
            3 * faces@.len() <= usize::MAX,
            final(self)@ == (MeshView { nelems: (3 * faces@.len()) as usize, ..old(self)@ }),
            view_calls(calls@) == old(self)@.face_upload_calls(spec_faces_bytes(faces@)),
    {
        let data = encode_faces(faces.as_slice());
        let ghost bytes = data@;
        let size = data.len();
        let calls = vec![
            Call::BindBuffer { target: BufferTarget::Indices, buffer: self.ibo },
            Call::BufferData { target: BufferTarget::Indices, data },
            Call::BindBuffer { target: BufferTarget::Indices, buffer: 0 },
        ];
        self.nelems = faces.len() * 3;
        assert(view_calls(calls@) =~= old(self)@.face_upload_calls(bytes));
        calls
    }

    /// Binds the mesh's vertex array and index buffer for drawing.
    pub fn bind(&self) -> (calls: Vec<DeviceCall>)
        ensures
            view_calls(calls@) == self@.bind_calls(),
    {
        let calls = vec![
            Call::BindVertexArray { array: self.vao },
            Call::BindBuffer { target: BufferTarget::Indices, buffer: self.ibo },
        ];
        assert(view_calls(calls@) =~= self@.bind_calls());
        calls
    }

    /// Draws the mesh's triangles from the bound buffers.
    pub fn draw(&self) -> (calls: Vec<DeviceCall>)
        ensures
            view_calls(calls@) == self@.draw_calls(),
    {
        let calls = vec![Call::DrawElements { count: self.nelems }];
        assert(view_calls(calls@) =~= self@.draw_calls());
        calls
    }

    /// Gives the mesh up: the calls that destroy its buffers.
    pub fn release(self) -> (calls: Vec<DeviceCall>)
        ensures
            view_calls(calls@) == self@.release_calls(),
    {
        let calls = vec![
            Call::DeleteBuffer { buffer: self.vbo },
            Call::DeleteBuffer { buffer: self.ibo },
        ];
        assert(view_calls(calls@) =~= self@.release_calls());
        calls
    }
}

/// Appends the calls that describe and enable one vertex attribute.
fn push_attribute(calls: &mut Vec<DeviceCall>, attribute: VertexAttribute)
    ensures
        view_calls(final(calls)@) == view_calls(old(calls)@) + spec_attribute_calls(attribute),
{
    calls.push(Call::VertexAttribPointer { layout: attribute.layout() });
    calls.push(Call::EnableVertexAttribArray { index: attribute.location() });
    assert(view_calls(calls@) =~= view_calls(old(calls)@) + spec_attribute_calls(attribute));
}

} // verus!
