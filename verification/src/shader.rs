//! Shaders: one stage of a pipeline, compiled from source text.

use crate::device::{view_calls, Call, DeviceCall, DeviceCallView, GlslDialect};
use crate::glconst;
use vstd::prelude::*;

verus! {

/// `std::io::Error`: the error of a stream that could not be read to its end.
/// Nothing is claimed of it: this crate looks at no such value, and only
/// passes it on.
#[verifier::external_type_specification]
#[verifier::external_body]
pub struct ExIoError(std::io::Error);

/// The stage of the pipeline that a shader implements.
#[derive(Clone, Copy, Debug, PartialEq, Eq, Structural)]
pub enum ShaderStage {
    Vertex,
    Geometry,
    Fragment,
}

impl ShaderStage {
    /// The device's shader type tag for this stage.
    pub open spec fn spec_gl_enum(self) -> u32 {
        match self {
            ShaderStage::Vertex => 0x8B31,
            ShaderStage::Geometry => 0x8DD9,
            ShaderStage::Fragment => 0x8B30,
        }
    }

    /// The device's shader type tag for this stage.
    pub fn gl_enum(&self) -> (r: u32)
        ensures
            r == self.spec_gl_enum(),
    {
        match self {
            ShaderStage::Vertex => glconst::vertex_shader(),
            ShaderStage::Geometry => glconst::geometry_shader(),
            ShaderStage::Fragment => glconst::fragment_shader(),
        }
    }

    /// The stage that a program handles after this one, if any.
    pub open spec fn spec_next(self) -> Option<ShaderStage> {
        match self {
            ShaderStage::Vertex => Some(ShaderStage::Geometry),
            ShaderStage::Geometry => Some(ShaderStage::Fragment),
            ShaderStage::Fragment => None,
        }
    }

    /// The stage that a program handles after this one, if any.
    pub fn next(&self) -> (r: Option<ShaderStage>)
        ensures
            r == self.spec_next(),
    {
        match self {
            ShaderStage::Vertex => Some(ShaderStage::Geometry),
            ShaderStage::Geometry => Some(ShaderStage::Fragment),
            ShaderStage::Fragment => None,
        }
    }
}

/// One shader object of the device. It holds its source until it is
/// compiled.
#[derive(Debug, PartialEq, Eq)]
pub struct Shader {
    id: u32,
    stage: ShaderStage,
    source: Option<String>,
}

/// What a [`Shader`] holds.
pub struct ShaderView {
    pub id: u32,
    pub stage: ShaderStage,
    pub source: Option<Seq<char>>,
}

/// What a compilation without source reports.
pub open spec fn spec_no_source_message() -> Seq<char> {
    "Shader must have source to compile"@
}

/// The calls that hand the source of a shader to the device and compile it.
pub open spec fn spec_compile_calls(id: u32, dialect: GlslDialect, source: Seq<char>) -> Seq<
    DeviceCallView,
> {
    seq![Call::ShaderSource { shader: id, dialect, source }, Call::CompileShader { shader: id }]
}

/// The call that destroys shader `id`.
pub open spec fn spec_delete_shader_calls(id: u32) -> Seq<DeviceCallView> {
    seq![Call::DeleteShader { shader: id }]
}

/// Whether a status that the device reports for a compilation or a link
/// means failure.
pub open spec fn spec_status_failed(status: i32) -> bool {
    status == 0
}

/// Whether a status that the device reports for a compilation or a link
/// means failure.
pub fn status_failed(status: i32) -> (r: bool)
    ensures
        r == spec_status_failed(status),
{
    status == glconst::status_false() as i32
}

impl View for Shader {
    type V = ShaderView;

    closed spec fn view(&self) -> ShaderView {
        ShaderView {
            id: self.id,
            stage: self.stage,
            source: match self.source {
                Some(s) => Some(s@),
                None => None,
            },
        }
    }
}

impl Shader {
    /// A shader for `stage` on the fresh device handle `id`, with the text
    /// that was read from its source stream; or the error of the read, if
    /// the stream could not be read to its end.
    pub fn new_with_source(id: u32, stage: ShaderStage, src: Result<String, std::io::Error>) -> (r:
        Result<Shader, std::io::Error>)
        ensures
            match src {
                Ok(text) => r matches Ok(shader) && shader@ == (ShaderView {
                    id,
                    stage,
                    source: Some(text@),
                }),
                Err(e) => r == Err::<Shader, std::io::Error>(e),
            },
    {
        match src {
            Ok(text) => Ok(Shader { id, stage, source: Some(text) }),
            Err(e) => Err(e),
        }
    }

    /// Device handle of the shader object.
    pub fn id(&self) -> (r: u32)
        ensures
            r == self@.id,
    {
        self.id
    }

    /// The stage that the shader implements.
    pub fn stage(&self) -> (r: ShaderStage)
        ensures
            r == self@.stage,
    {
        self.stage
    }

    /// Whether the shader still holds its source.
    pub fn has_source(&self) -> (r: bool)
        ensures
            r == self@.source is Some,
    {
        self.source.is_some()
    }

    /// Hands the shader's source to the device for compilation, and gives the
    /// source up. A shader that holds no source (any more) cannot be
    /// compiled.
    ///
    /// After the calls the device knows whether the compilation succeeded:
    /// see [`Shader::compile_result`].
    pub fn compile(&mut self, dialect: GlslDialect) -> (r: Result<Vec<DeviceCall>, String>)
        ensures
            final(self)@ == (ShaderView { source: None, ..old(self)@ }),
            match old(self)@.source {
                Some(text) => r matches Ok(calls) && view_calls(calls@) == spec_compile_calls(
                    old(self)@.id,
                    dialect,
                    text,
                ),
                None => r matches Err(message) && message@ == spec_no_source_message(),
            },
    {
        match self.source.take() {
            Some(source) => {
                let ghost text = source@;
                let calls = vec![
                    Call::ShaderSource { shader: self.id, dialect, source },
                    Call::CompileShader { shader: self.id },
                ];
                assert(view_calls(calls@) =~= spec_compile_calls(self.id, dialect, text));
                Ok(calls)
            },
            None => Err("Shader must have source to compile".to_owned()),
        }
    }

    /// What a compilation came to, from the status and the log that the
    /// device reports for it: a failed compilation gives the log as error.
    pub fn compile_result(status: i32, log: String) -> (r: Result<(), String>)
        ensures
            spec_status_failed(status) ==> r == Err::<(), String>(log),
            !spec_status_failed(status) ==> r is Ok,
    {
        if status_failed(status) {
            Err(log)
        } else {
            Ok(())
        }
    }

    /// Gives the shader up: the call that destroys its device object.
    pub fn release(self) -> (calls: Vec<DeviceCall>)
        ensures
            view_calls(calls@) == spec_delete_shader_calls(self@.id),
    {
        let calls = vec![Call::DeleteShader { shader: self.id }];
        assert(view_calls(calls@) =~= spec_delete_shader_calls(self.id));
        calls
    }
}

} // verus!
