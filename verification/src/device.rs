//! The calls that this crate asks the graphics device to carry out.
//!
//! A [`DeviceCall`] is one state-changing request to the device. Operations of
//! this crate return such calls in the order in which they must be issued.
//! Requests that only ask the device something (the status of a compilation,
//! the location of a uniform) are not listed: the caller makes them and hands
//! the answer to the operation that needs it.

use vstd::prelude::*;

verus! {

/// The binding points of a mesh's two buffers.
#[derive(Clone, Copy, Debug, PartialEq, Eq, Structural)]
pub enum BufferTarget {
    /// Vertex records.
    Vertices,
    /// Triangle indices.
    Indices,
}

/// The scalar type of one component of a vertex attribute.
#[derive(Clone, Copy, Debug, PartialEq, Eq, Structural)]
pub enum ComponentType {
    Float32,
    Int16,
    Uint16,
    Uint8,
}

impl ComponentType {
    /// Size of one component in bytes.
    pub open spec fn spec_size(self) -> nat {
        match self {
            ComponentType::Float32 => 4,
            ComponentType::Int16 => 2,
            ComponentType::Uint16 => 2,
            ComponentType::Uint8 => 1,
        }
    }

    /// Size of one component in bytes.
    pub fn size(&self) -> (r: u32)
        ensures
            r == self.spec_size(),
    {
        match self {
            ComponentType::Float32 => 4,
            ComponentType::Int16 => 2,
            ComponentType::Uint16 => 2,
            ComponentType::Uint8 => 1,
        }
    }
}

/// The sampling parameters of a texture that this crate sets.
#[derive(Clone, Copy, Debug, PartialEq, Eq, Structural)]
pub enum TextureParameter {
    MinFilter,
    MagFilter,
    WrapS,
    WrapT,
}

/// The storage that the device allocates for a texture image.
#[derive(Clone, Copy, Debug, PartialEq, Eq, Structural)]
pub enum TextureStorage {
    /// Four 8-bit channels: red, green, blue, alpha.
    Rgba8,
    /// 32-bit depth.
    Depth32,
    /// 24-bit depth with 8-bit stencil.
    Depth24Stencil8,
}

/// The shading-language dialect of the device, which decides the preamble
/// that is put in front of every shader source.
#[derive(Clone, Copy, Debug, PartialEq, Eq, Structural)]
pub enum GlslDialect {
    /// Desktop devices.
    Desktop,
    /// Embedded and web devices.
    Embedded,
}

impl GlslDialect {
    /// The text that precedes a shader's own source when it is compiled.
    pub open spec fn spec_preamble(self) -> Seq<char> {
        match self {
            GlslDialect::Desktop => "#version 330\n"@,
            GlslDialect::Embedded => "#version 300 es\nprecision highp float;\n"@,
        }
    }

    /// The text that precedes a shader's own source when it is compiled.
    pub fn preamble(&self) -> (r: &'static str)
        ensures
            r@ == self.spec_preamble(),
    {
        match self {
            GlslDialect::Desktop => "#version 330\n",
            GlslDialect::Embedded => "#version 300 es\nprecision highp float;\n",
        }
    }
}

/// The four vertex attributes that every program and every mesh agree on.
#[derive(Clone, Copy, Debug, PartialEq, Eq, Structural)]
pub enum VertexAttribute {
    Position,
    Normal,
    Uv,
    Color,
}

/// Where an attribute lies inside a vertex record, and how the device reads it.
#[derive(Clone, Copy, Debug, PartialEq, Eq, Structural)]
pub struct AttributeLayout {
    /// Attribute location in the program.
    pub location: u32,
    /// Number of components.
    pub components: u32,
    /// Type of each component.
    pub kind: ComponentType,
    /// Whether integer components are mapped to the unit range.
    pub normalized: bool,
    /// Distance in bytes between two consecutive vertices.
    pub stride: u32,
    /// Offset in bytes of the attribute inside a vertex record.
    pub offset: u32,
}

impl VertexAttribute {
    /// The location that a program binds to this attribute before linking.
    pub open spec fn spec_location(self) -> u32 {
        match self {
            VertexAttribute::Position => 0,
            VertexAttribute::Normal => 1,
            VertexAttribute::Uv => 2,
            VertexAttribute::Color => 3,
        }
    }

    /// The name of this attribute in shader source.
    pub open spec fn spec_name(self) -> Seq<char> {
        match self {
            VertexAttribute::Position => "position"@,
            VertexAttribute::Normal => "normal"@,
            VertexAttribute::Uv => "uv"@,
            VertexAttribute::Color => "color"@,
        }
    }

    /// The layout of this attribute in the 32-byte vertex record.
    pub open spec fn spec_layout(self) -> AttributeLayout {
        match self {
            VertexAttribute::Position => AttributeLayout {
                location: 0,
                components: 3,
                kind: ComponentType::Float32,
                normalized: false,
                stride: 32,
                offset: 0,
            },
            VertexAttribute::Normal => AttributeLayout {
                location: 1,
                components: 3,
                kind: ComponentType::Int16,
                normalized: true,
                stride: 32,
                offset: 12,
            },
            VertexAttribute::Uv => AttributeLayout {
                location: 2,
                components: 2,
                kind: ComponentType::Uint16,
                normalized: true,
                stride: 32,
                offset: 18,
            },
            VertexAttribute::Color => AttributeLayout {
                location: 3,
                components: 3,
                kind: ComponentType::Uint8,
                normalized: true,
                stride: 32,
                offset: 22,
            },
        }
    }

    /// The location that a program binds to this attribute before linking.
    pub fn location(&self) -> (r: u32)
        ensures
            r == self.spec_location(),
    {
        match self {
            VertexAttribute::Position => 0,
            VertexAttribute::Normal => 1,
            VertexAttribute::Uv => 2,
            VertexAttribute::Color => 3,
        }
    }

    /// The name of this attribute in shader source.
    pub fn name(&self) -> (r: &'static str)
        ensures
            r@ == self.spec_name(),
    {
        match self {
            VertexAttribute::Position => "position",
            VertexAttribute::Normal => "normal",
            VertexAttribute::Uv => "uv",
            VertexAttribute::Color => "color",
        }
    }

    /// The layout of this attribute in the 32-byte vertex record.
    pub fn layout(&self) -> (r: AttributeLayout)
        ensures
            r == self.spec_layout(),
    {
        match self {
            VertexAttribute::Position => AttributeLayout {
                location: 0,
                components: 3,
                kind: ComponentType::Float32,
                normalized: false,
                stride: 32,
                offset: 0,
            },
            VertexAttribute::Normal => AttributeLayout {
                location: 1,
                components: 3,
                kind: ComponentType::Int16,
                normalized: true,
                stride: 32,
                offset: 12,
            },
            VertexAttribute::Uv => AttributeLayout {
                location: 2,
                components: 2,
                kind: ComponentType::Uint16,
                normalized: true,
                stride: 32,
                offset: 18,
            },
            VertexAttribute::Color => AttributeLayout {
                location: 3,
                components: 3,
                kind: ComponentType::Uint8,
                normalized: true,
                stride: 32,
                offset: 22,
            },
        }
    }
}

/// One request to the device. `Bytes`, `Text` and `Slots` are the types that
/// carry raw data, source text and attachment lists: owned buffers in
/// executable code ([`DeviceCall`]), sequences in contracts
/// ([`DeviceCallView`]).
///
/// Floating-point uniform values travel as their IEEE-754 bit patterns.
/// Handle `0` stands for "no object": binding it restores the default.
#[derive(Debug, PartialEq, Eq)]
pub enum Call<Bytes, Text, Slots> {
    /// Replace the source of `shader` by the dialect's preamble followed by
    /// `source`.
    ShaderSource { shader: u32, dialect: GlslDialect, source: Text },
    /// Compile the source of `shader`.
    CompileShader { shader: u32 },
    /// Destroy `shader`.
    DeleteShader { shader: u32 },
    /// Attach `shader` to `program`.
    AttachShader { program: u32, shader: u32 },
    /// Detach `shader` from `program` without destroying it.
    DetachShader { program: u32, shader: u32 },
    /// Bind the attribute's name to its location in `program`.
    BindAttribLocation { program: u32, attribute: VertexAttribute },
    /// Link the shaders attached to `program`.
    LinkProgram { program: u32 },
    /// Make `program` the active pipeline.
    UseProgram { program: u32 },
    /// Destroy `program`.
    DeleteProgram { program: u32 },
    /// Set an integer uniform of the active program.
    Uniform1i { location: i32, value: i32 },
    /// Set a scalar uniform of the active program.
    Uniform1f { location: i32, bits: u32 },
    /// Set a two-component vector uniform of the active program.
    Uniform2f { location: i32, pair: [u32; 2] },
    /// Set a four-component vector uniform of the active program.
    Uniform4f { location: i32, quad: [u32; 4] },
    /// Set a 2x2 matrix uniform of the active program.
    UniformMatrix2f { location: i32, transpose: bool, matrix: [u32; 4] },
    /// Select the texture unit that later texture calls act on.
    ActiveTexture { unit: u32 },
    /// Bind `texture` as the two-dimensional texture of the selected unit.
    BindTexture { texture: u32 },
    /// Set a sampling parameter of the bound texture.
    TexParameter { parameter: TextureParameter, setting: u32 },
    /// Allocate the image of the bound texture, and fill it if `pixels` is
    /// given.
    TexImage2D { storage: TextureStorage, width: usize, height: usize, pixels: Option<Bytes> },
    /// Destroy `texture`.
    DeleteTexture { texture: u32 },
    /// Make `framebuffer` the draw target.
    BindFramebuffer { framebuffer: u32 },
    /// Attach `texture` to an attachment point of the bound framebuffer.
    FramebufferTexture2D { attachment: u32, texture: u32 },
    /// Declare the color outputs of the bound framebuffer: output `i` goes to
    /// `attachments[i]`.
    DrawBuffers { attachments: Slots },
    /// Destroy `framebuffer`.
    DeleteFramebuffer { framebuffer: u32 },
    /// Bind a vertex array object.
    BindVertexArray { array: u32 },
    /// Bind `buffer` to `target`.
    BindBuffer { target: BufferTarget, buffer: u32 },
    /// Replace the contents of the buffer bound to `target` by `data`, stored
    /// for writing once and reading many times.
    BufferData { target: BufferTarget, data: Bytes },
    /// Describe one attribute of the bound vertex buffer.
    VertexAttribPointer { layout: AttributeLayout },
    /// Enable the attribute at location `index`.
    EnableVertexAttribArray { index: u32 },
    /// Draw `count` indices of the bound index buffer as triangles, each index
    /// a 16-bit unsigned integer.
    DrawElements { count: usize },
    /// Destroy `buffer`.
    DeleteBuffer { buffer: u32 },
}

/// A device call as executable code holds it.
pub type DeviceCall = Call<Vec<u8>, String, Vec<u32>>;

/// A device call as contracts speak of it.
pub type DeviceCallView = Call<Seq<u8>, Seq<char>, Seq<u32>>;

impl View for Call<Vec<u8>, String, Vec<u32>> {
    type V = Call<Seq<u8>, Seq<char>, Seq<u32>>;

    open spec fn view(&self) -> Call<Seq<u8>, Seq<char>, Seq<u32>> {
        match *self {
            Call::ShaderSource { shader, dialect, source } => Call::ShaderSource {
                shader,
                dialect,
                source: source@,
            },
            Call::CompileShader { shader } => Call::CompileShader { shader },
            Call::DeleteShader { shader } => Call::DeleteShader { shader },
            Call::AttachShader { program, shader } => Call::AttachShader { program, shader },
            Call::DetachShader { program, shader } => Call::DetachShader { program, shader },
            Call::BindAttribLocation { program, attribute } => Call::BindAttribLocation {
                program,
                attribute,
            },
            Call::LinkProgram { program } => Call::LinkProgram { program },
            Call::UseProgram { program } => Call::UseProgram { program },
            Call::DeleteProgram { program } => Call::DeleteProgram { program },
            Call::Uniform1i { location, value } => Call::Uniform1i { location, value },
            Call::Uniform1f { location, bits } => Call::Uniform1f { location, bits },
            Call::Uniform2f { location, pair } => Call::Uniform2f { location, pair },
            Call::Uniform4f { location, quad } => Call::Uniform4f { location, quad },
            Call::UniformMatrix2f { location, transpose, matrix } => Call::UniformMatrix2f {
                location,
                transpose,
                matrix,
            },
            Call::ActiveTexture { unit } => Call::ActiveTexture { unit },
            Call::BindTexture { texture } => Call::BindTexture { texture },
            Call::TexParameter { parameter, setting } => Call::TexParameter { parameter, setting },
            Call::TexImage2D { storage, width, height, pixels } => Call::TexImage2D {
                storage,
                width,
                height,
                pixels: view_bytes(pixels),
            },
            Call::DeleteTexture { texture } => Call::DeleteTexture { texture },
            Call::BindFramebuffer { framebuffer } => Call::BindFramebuffer { framebuffer },
            Call::FramebufferTexture2D { attachment, texture } => Call::FramebufferTexture2D {
                attachment,
                texture,
            },
            Call::DrawBuffers { attachments } => Call::DrawBuffers { attachments: attachments@ },
            Call::DeleteFramebuffer { framebuffer } => Call::DeleteFramebuffer { framebuffer },
            Call::BindVertexArray { array } => Call::BindVertexArray { array },
            Call::BindBuffer { target, buffer } => Call::BindBuffer { target, buffer },
            Call::BufferData { target, data } => Call::BufferData { target, data: data@ },
            Call::VertexAttribPointer { layout } => Call::VertexAttribPointer { layout },
            Call::EnableVertexAttribArray { index } => Call::EnableVertexAttribArray { index },
            Call::DrawElements { count } => Call::DrawElements { count },
            Call::DeleteBuffer { buffer } => Call::DeleteBuffer { buffer },
        }
    }
}

/// The view of an optional byte buffer.
pub open spec fn view_bytes(bytes: Option<Vec<u8>>) -> Option<Seq<u8>> {
    match bytes {
        Some(b) => Some(b@),
        None => None,
    }
}

/// The views of a list of calls, in the same order.
pub open spec fn view_calls(calls: Seq<DeviceCall>) -> Seq<DeviceCallView> {
    Seq::new(calls.len(), |i: int| calls[i]@)
}

/// Appends `tail` to `calls`.
pub fn append_calls(calls: &mut Vec<DeviceCall>, tail: Vec<DeviceCall>)
    ensures
        view_calls(final(calls)@) == view_calls(old(calls)@) + view_calls(tail@),
{
    let mut tail = tail;
    let ghost before = calls@;
    let ghost added = tail@;
    calls.append(&mut tail);
    assert(view_calls(calls@) =~= view_calls(before) + view_calls(added));
}

} // verus!
