//! Programs: up to three shaders linked into one pipeline.
//!
//! Building a program takes several exchanges with the device, since the
//! device alone knows whether a shader compiles and whether the program
//! links. [`Program::build`] and [`Program::resume_build`] decide, from the
//! state of the program and the last report of the device, which calls come
//! next; the caller issues them and comes back with the next report.

use crate::device::{
    append_calls, view_calls, Call, DeviceCall, DeviceCallView, GlslDialect, VertexAttribute,
};
use crate::shader::{
    spec_compile_calls, spec_delete_shader_calls, spec_no_source_message, spec_status_failed,
    status_failed, Shader, ShaderStage, ShaderView,
};
use crate::mesh::Mesh;
use crate::texture::{spec_bind_calls, Texture};
use vstd::prelude::*;

verus! {

/// Why a program could not be made.
#[derive(Debug)]
pub enum ProgramError {
    /// A shader's source stream could not be read to its end.
    ReadError(std::io::Error),
    /// A shader did not compile; the text is the device's log.
    BuildError(String),
    /// The program did not link; the text is the device's log.
    LinkError(String),
}

/// A [`ProgramError`] as contracts speak of it.
pub enum ProgramErrorView {
    ReadError(std::io::Error),
    BuildError(Seq<char>),
    LinkError(Seq<char>),
}

impl View for ProgramError {
    type V = ProgramErrorView;

    open spec fn view(&self) -> ProgramErrorView {
        match *self {
            ProgramError::ReadError(e) => ProgramErrorView::ReadError(e),
            ProgramError::BuildError(log) => ProgramErrorView::BuildError(log@),
            ProgramError::LinkError(log) => ProgramErrorView::LinkError(log@),
        }
    }
}

/// How far the making of a program has come.
#[derive(Clone, Copy, Debug, PartialEq, Eq, Structural)]
pub enum LinkState {
    /// Not built yet.
    Unlinked,
    /// The device is compiling the shader of this stage; its report is
    /// awaited.
    Compiling(ShaderStage),
    /// The device is linking the program; its report is awaited.
    Linking,
    /// Linked: the program can be used for drawing.
    Linked,
    /// A shader did not compile or the program did not link. The program is
    /// of no further use.
    Failed,
}

/// What the caller does next while a program is built.
#[derive(Debug)]
pub enum BuildStep {
    /// Issue `calls`, then report the compile status and log of `shader`.
    Compile { calls: Vec<DeviceCall>, shader: u32 },
    /// Issue `calls`, then report the link status and log of `program`.
    Link { calls: Vec<DeviceCall>, program: u32 },
    /// Issue `calls`; the build has ended with `result`.
    Done { calls: Vec<DeviceCall>, result: Result<(), ProgramError> },
    /// Nothing: no report was awaited.
    Idle,
}

/// A [`BuildStep`] as contracts speak of it.
pub enum BuildStepView {
    Compile { calls: Seq<DeviceCallView>, shader: u32 },
    Link { calls: Seq<DeviceCallView>, program: u32 },
    Done { calls: Seq<DeviceCallView>, result: Result<(), ProgramErrorView> },
    Idle,
}

impl View for BuildStep {
    type V = BuildStepView;

    open spec fn view(&self) -> BuildStepView {
        match *self {
            BuildStep::Compile { calls, shader } => BuildStepView::Compile {
                calls: view_calls(calls@),
                shader,
            },
            BuildStep::Link { calls, program } => BuildStepView::Link {
                calls: view_calls(calls@),
                program,
            },
            BuildStep::Done { calls, result } => BuildStepView::Done {
                calls: view_calls(calls@),
                result: match result {
                    Ok(_) => Ok(()),
                    Err(e) => Err(e@),
                },
            },
            BuildStep::Idle => BuildStepView::Idle,
        }
    }
}

/// A pipeline object of the device and the shaders it is made of.
#[derive(Debug)]
pub struct Program {
    id: u32,
    name: String,
    vertex_shader: Option<Shader>,
    geometry_shader: Option<Shader>,
    fragment_shader: Option<Shader>,
    state: LinkState,
    dialect: GlslDialect,
}

/// What a [`Program`] holds.
pub struct ProgramView {
    pub id: u32,
    pub name: Seq<char>,
    pub vertex_shader: Option<ShaderView>,
    pub geometry_shader: Option<ShaderView>,
    pub fragment_shader: Option<ShaderView>,
    pub state: LinkState,
    pub dialect: GlslDialect,
}

/// The view of an optional shader.
pub open spec fn view_shader(shader: Option<Shader>) -> Option<ShaderView> {
    match shader {
        Some(s) => Some(s@),
        None => None,
    }
}

/// The calls that bind the four vertex attributes to their locations and
/// then link the program.
pub open spec fn spec_link_calls(id: u32) -> Seq<DeviceCallView> {
    seq![
        Call::BindAttribLocation { program: id, attribute: VertexAttribute::Position },
        Call::BindAttribLocation { program: id, attribute: VertexAttribute::Normal },
        Call::BindAttribLocation { program: id, attribute: VertexAttribute::Uv },
        Call::BindAttribLocation { program: id, attribute: VertexAttribute::Color },
        Call::LinkProgram { program: id },
    ]
}

/// The call that detaches a shader, if there is one.
pub open spec fn spec_detach_one(id: u32, shader: Option<ShaderView>) -> Seq<DeviceCallView> {
    match shader {
        Some(s) => seq![Call::DetachShader { program: id, shader: s.id }],
        None => Seq::empty(),
    }
}

/// The call that destroys a shader, if there is one.
pub open spec fn spec_delete_one(shader: Option<ShaderView>) -> Seq<DeviceCallView> {
    match shader {
        Some(s) => spec_delete_shader_calls(s.id),
        None => Seq::empty(),
    }
}

/// The call that activates program `id`.
pub open spec fn spec_use_calls(id: u32) -> Seq<DeviceCallView> {
    seq![Call::UseProgram { program: id }]
}

/// The calls that point the sampler uniform at `location` to texture unit
/// `unit` and bind `texture` to that unit; none if the location is negative,
/// which is how the device answers for a name that the program does not
/// have.
pub open spec fn spec_sampler_calls(location: i32, texture: Texture, unit: i32) -> Seq<
    DeviceCallView,
> {
    if location >= 0 {
        seq![Call::Uniform1i { location, value: unit }] + spec_bind_calls(texture.id, unit as int)
    } else {
        Seq::empty()
    }
}

impl ProgramView {
    /// The shader of a stage, if the program has one.
    pub open spec fn shader(self, stage: ShaderStage) -> Option<ShaderView> {
        match stage {
            ShaderStage::Vertex => self.vertex_shader,
            ShaderStage::Geometry => self.geometry_shader,
            ShaderStage::Fragment => self.fragment_shader,
        }
    }

    /// The program with `shader` in the slot of `stage`.
    pub open spec fn with_shader(self, stage: ShaderStage, shader: ShaderView) -> ProgramView {
        match stage {
            ShaderStage::Vertex => ProgramView { vertex_shader: Some(shader), ..self },
            ShaderStage::Geometry => ProgramView { geometry_shader: Some(shader), ..self },
            ShaderStage::Fragment => ProgramView { fragment_shader: Some(shader), ..self },
        }
    }

    /// The first stage from `from` on, in the order vertex, geometry,
    /// fragment, for which the program has a shader.
    pub open spec fn first_populated(self, from: Option<ShaderStage>) -> Option<ShaderStage> {
        match from {
            Some(ShaderStage::Vertex) => if self.vertex_shader is Some {
                Some(ShaderStage::Vertex)
            } else if self.geometry_shader is Some {
                Some(ShaderStage::Geometry)
            } else if self.fragment_shader is Some {
                Some(ShaderStage::Fragment)
            } else {
                None
            },
            Some(ShaderStage::Geometry) => if self.geometry_shader is Some {
                Some(ShaderStage::Geometry)
            } else if self.fragment_shader is Some {
                Some(ShaderStage::Fragment)
            } else {
                None
            },
            Some(ShaderStage::Fragment) => if self.fragment_shader is Some {
                Some(ShaderStage::Fragment)
            } else {
                None
            },
            None => None,
        }
    }

    /// The calls that detach the program's shaders, in the order vertex,
    /// geometry, fragment.
    pub open spec fn detach_calls(self) -> Seq<DeviceCallView> {
        spec_detach_one(self.id, self.vertex_shader) + spec_detach_one(
            self.id,
            self.geometry_shader,
        ) + spec_detach_one(self.id, self.fragment_shader)
    }

    /// The calls that destroy the program and then its shaders.
    pub open spec fn release_calls(self) -> Seq<DeviceCallView> {
        seq![Call::DeleteProgram { program: self.id }] + spec_delete_one(self.vertex_shader)
            + spec_delete_one(self.geometry_shader) + spec_delete_one(self.fragment_shader)
    }

    /// The build goes on with the first shader from stage `from` on: its
    /// source goes to the device for compilation. If that shader holds no
    /// source the build fails; if no shader is left the program is linked.
    /// `pending` are the calls that are due before.
    pub open spec fn advance(self, from: Option<ShaderStage>, pending: Seq<DeviceCallView>) -> (
        ProgramView,
        BuildStepView,
    ) {
        match self.first_populated(from) {
            Some(stage) => {
                let shader = self.shader(stage).unwrap();
                match shader.source {
                    Some(text) => (
                        ProgramView { state: LinkState::Compiling(stage), ..self }.with_shader(
                            stage,
                            ShaderView { source: None, ..shader },
                        ),
                        BuildStepView::Compile {
                            calls: pending + spec_compile_calls(shader.id, self.dialect, text),
                            shader: shader.id,
                        },
                    ),
                    None => (
                        ProgramView { state: LinkState::Failed, ..self },
                        BuildStepView::Done {
                            calls: pending,
                            result: Err(ProgramErrorView::BuildError(spec_no_source_message())),
                        },
                    ),
                }
            },
            None => (
                ProgramView { state: LinkState::Linking, ..self },
                BuildStepView::Link { calls: pending + spec_link_calls(self.id), program: self.id },
            ),
        }
    }

    /// The program after a list of reports, each given as status and log.
    pub open spec fn resume_all(self, reports: Seq<(i32, Seq<char>)>) -> ProgramView
        decreases reports.len(),
    {
        if reports.len() == 0 {
            self
        } else {
            self.resume(reports[0].0, reports[0].1).0.resume_all(reports.drop_first())
        }
    }

    /// The first step of a build: it starts with the vertex stage.
    pub open spec fn build(self) -> (ProgramView, BuildStepView) {
        self.advance(Some(ShaderStage::Vertex), Seq::empty())
    }

    /// The step that follows a report of the device.
    ///
    /// While a shader is compiling: a failure ends the build with the log as
    /// build error; after a success the shader is attached and the build goes
    /// on with the next stage. While the program is linking: a failure ends
    /// the build with the log as link error, and nothing is detached; after a
    /// success the shaders are detached and the program is linked. In every
    /// other state no report is awaited, and nothing happens.
    pub open spec fn resume(self, status: i32, log: Seq<char>) -> (ProgramView, BuildStepView) {
        match self.state {
            LinkState::Compiling(stage) => if spec_status_failed(status) {
                (
                    ProgramView { state: LinkState::Failed, ..self },
                    BuildStepView::Done {
                        calls: Seq::empty(),
                        result: Err(ProgramErrorView::BuildError(log)),
                    },
                )
            } else {
                self.advance(
                    stage.spec_next(),
                    match self.shader(stage) {
                        Some(s) => seq![Call::AttachShader { program: self.id, shader: s.id }],
                        None => Seq::empty(),
                    },
                )
            },
            LinkState::Linking => if spec_status_failed(status) {
                (
                    ProgramView { state: LinkState::Failed, ..self },
                    BuildStepView::Done {
                        calls: Seq::empty(),
                        result: Err(ProgramErrorView::LinkError(log)),
                    },
                )
            } else {
                (
                    ProgramView { state: LinkState::Linked, ..self },
                    BuildStepView::Done { calls: self.detach_calls(), result: Ok(()) },
                )
            },
            _ => (self, BuildStepView::Idle),
        }
    }
}

impl View for Program {
    type V = ProgramView;

    closed spec fn view(&self) -> ProgramView {
        ProgramView {
            id: self.id,
            name: self.name@,
            vertex_shader: view_shader(self.vertex_shader),
            geometry_shader: view_shader(self.geometry_shader),
            fragment_shader: view_shader(self.fragment_shader),
            state: self.state,
            dialect: self.dialect,
        }
    }
}

impl Program {
    /// A program on the fresh device handle `id`, without shaders, for a
    /// device of the given dialect.
    pub fn new(id: u32, name: String, dialect: GlslDialect) -> (p: Program)
        ensures
            p@ == spec_new_program(id, name@, dialect),
    {
        Program {
            id,
            name,
            vertex_shader: None,
            geometry_shader: None,
            fragment_shader: None,
            state: LinkState::Unlinked,
            dialect,
        }
    }

    /// Device handle of the pipeline object.
    pub fn id(&self) -> (r: u32)
        ensures
            r == self@.id,
    {
        self.id
    }

    /// The name that the program was given.
    pub fn name(&self) -> (r: &str)
        ensures
            r@ == self@.name,
    {
        self.name.as_str()
    }

    /// How far the making of the program has come.
    pub fn state(&self) -> (r: LinkState)
        ensures
            r == self@.state,
    {
        self.state
    }

    /// Puts a shader for `stage` into the program, replacing the one it had
    /// for that stage, unless its source could not be read.
    fn add_shader(&mut self, stage: ShaderStage, id: u32, src: Result<String, std::io::Error>) -> (r:
        Result<(), ProgramError>)
        ensures
            match src {
                Ok(text) => r is Ok && final(self)@ == old(self)@.with_shader(
                    stage,
                    ShaderView { id, stage, source: Some(text@) },
                ),
                Err(e) => r matches Err(ProgramError::ReadError(f)) && f == e && final(self)@ == old(
                    self,
                )@,
            },
    {
        match Shader::new_with_source(id, stage, src) {
            Ok(shader) => {
                match stage {
                    ShaderStage::Vertex => {
                        self.vertex_shader = Some(shader);
                    },
                    ShaderStage::Geometry => {
                        self.geometry_shader = Some(shader);
                    },
                    ShaderStage::Fragment => {
                        self.fragment_shader = Some(shader);
                    },
                }
                Ok(())
            },
            Err(e) => Err(ProgramError::ReadError(e)),
        }
    }

    /// Gives the program a vertex shader on the fresh device handle `id`,
    /// with the text read from its source stream. Fails with the read error
    /// if the stream could not be read to its end.
    pub fn add_vertex_shader(&mut self, id: u32, src: Result<String, std::io::Error>) -> (r: Result<
        (),
        ProgramError,
    >)
        ensures
            match src {
                Ok(text) => r is Ok && final(self)@ == old(self)@.with_shader(
                    ShaderStage::Vertex,
                    ShaderView { id, stage: ShaderStage::Vertex, source: Some(text@) },
                ),
                Err(e) => r matches Err(ProgramError::ReadError(f)) && f == e && final(self)@ == old(
                    self,
                )@,
            },
    {
        self.add_shader(ShaderStage::Vertex, id, src)
    }

    /// Gives the program a geometry shader on the fresh device handle `id`,
    /// with the text read from its source stream. Fails with the read error
    /// if the stream could not be read to its end.
    pub fn add_geometry_shader(&mut self, id: u32, src: Result<String, std::io::Error>) -> (r:
        Result<(), ProgramError>)
        ensures
            match src {
                Ok(text) => r is Ok && final(self)@ == old(self)@.with_shader(
                    ShaderStage::Geometry,
                    ShaderView { id, stage: ShaderStage::Geometry, source: Some(text@) },
                ),
                Err(e) => r matches Err(ProgramError::ReadError(f)) && f == e && final(self)@ == old(
                    self,
                )@,
            },
    {
        self.add_shader(ShaderStage::Geometry, id, src)
    }

    /// Gives the program a fragment shader on the fresh device handle `id`,
    /// with the text read from its source stream. Fails with the read error
    /// if the stream could not be read to its end.
    pub fn add_fragment_shader(&mut self, id: u32, src: Result<String, std::io::Error>) -> (r:
        Result<(), ProgramError>)
        ensures
            match src {
                Ok(text) => r is Ok && final(self)@ == old(self)@.with_shader(
                    ShaderStage::Fragment,
                    ShaderView { id, stage: ShaderStage::Fragment, source: Some(text@) },
                ),
                Err(e) => r matches Err(ProgramError::ReadError(f)) && f == e && final(self)@ == old(
                    self,
                )@,
            },
    {
        self.add_shader(ShaderStage::Fragment, id, src)
    }

    /// Hands the source of the shader of `stage` to the device, if the
    /// program has a shader for that stage: `None` if it has none, else the
    /// shader's handle and what [`Shader::compile`] gave.
    fn compile_stage(&mut self, stage: ShaderStage) -> (r: Option<
        (u32, Result<Vec<DeviceCall>, String>),
    >)
        ensures
            match old(self)@.shader(stage) {
                None => r is None && final(self)@ == old(self)@,
                Some(shader) => {
                    &&& final(self)@ == old(self)@.with_shader(
                        stage,
                        ShaderView { source: None, ..shader },
                    )
                    &&& r matches Some((id, compiled))
                    &&& id == shader.id
                    &&& match shader.source {
                        Some(text) => compiled matches Ok(calls) && view_calls(calls@)
                            == spec_compile_calls(shader.id, old(self)@.dialect, text),
                        None => compiled matches Err(message) && message@
                            == spec_no_source_message(),
                    }
                },
            },
    {
        let dialect = self.dialect;
        let slot = match stage {
            ShaderStage::Vertex => self.vertex_shader.take(),
            ShaderStage::Geometry => self.geometry_shader.take(),
            ShaderStage::Fragment => self.fragment_shader.take(),
        };
        match slot {
            Some(shader) => {
                let mut shader = shader;
                let compiled = shader.compile(dialect);
                let id = shader.id();
                match stage {
                    ShaderStage::Vertex => {
                        self.vertex_shader = Some(shader);
                    },
                    ShaderStage::Geometry => {
                        self.geometry_shader = Some(shader);
                    },
                    ShaderStage::Fragment => {
                        self.fragment_shader = Some(shader);
                    },
                }
                Some((id, compiled))
            },
            None => None,
        }
    }

    /// See [`ProgramView::advance`].
    fn advance(&mut self, from: Option<ShaderStage>, pending: Vec<DeviceCall>) -> (step: BuildStep)
        ensures
            (final(self)@, step@) == old(self)@.advance(from, view_calls(pending@)),
    {
        let mut calls = pending;
        let mut stage = from;
        let ghost start = self@;
        while stage.is_some()
            invariant
                self@ == start,
                start == old(self)@,
                view_calls(calls@) == view_calls(pending@),
                start.first_populated(stage) == start.first_populated(from),
            decreases
                match stage {
                    Some(ShaderStage::Vertex) => 3nat,
                    Some(ShaderStage::Geometry) => 2nat,
                    Some(ShaderStage::Fragment) => 1nat,
                    None => 0nat,
                },
        {
            let current = stage.unwrap();
            match self.compile_stage(current) {
                Some((shader, Ok(compile))) => {
                    append_calls(&mut calls, compile);
                    self.state = LinkState::Compiling(current);
                    return BuildStep::Compile { calls, shader };
                },
                Some((_, Err(message))) => {
                    self.state = LinkState::Failed;
                    return BuildStep::Done {
                        calls,
                        result: Err(ProgramError::BuildError(message)),
                    };
                },
                None => {
                    stage = current.next();
                },
            }
        }
        calls.push(Call::BindAttribLocation { program: self.id, attribute: VertexAttribute::Position });
        calls.push(Call::BindAttribLocation { program: self.id, attribute: VertexAttribute::Normal });
        calls.push(Call::BindAttribLocation { program: self.id, attribute: VertexAttribute::Uv });
        calls.push(Call::BindAttribLocation { program: self.id, attribute: VertexAttribute::Color });
        calls.push(Call::LinkProgram { program: self.id });
        assert(view_calls(calls@) =~= view_calls(pending@) + spec_link_calls(self.id));
        self.state = LinkState::Linking;
        BuildStep::Link { calls, program: self.id }
    }

    /// Starts to build the program: the shaders are compiled in the order
    /// vertex, geometry, fragment, each attached once it compiled; then the
    /// vertex attributes are bound to their locations and the program is
    /// linked; at last the shaders are detached.
    ///
    /// The result says which calls to issue now and which report to come
    /// back with to [`Program::resume_build`].
    pub fn build(&mut self) -> (step: BuildStep)
        ensures
            (final(self)@, step@) == old(self)@.build(),
    {
        let pending: Vec<DeviceCall> = Vec::new();
        assert(view_calls(pending@) =~= Seq::empty());
        self.advance(Some(ShaderStage::Vertex), pending)
    }

    /// Continues a build with the status and the log that the device reports
    /// for the compilation or the link that the last step asked for.
    pub fn resume_build(&mut self, status: i32, log: String) -> (step: BuildStep)
        ensures
            (final(self)@, step@) == old(self)@.resume(status, log@),
    {
        match self.state {
            LinkState::Compiling(stage) => {
                match Shader::compile_result(status, log) {
                    Err(log) => {
                        self.state = LinkState::Failed;
                        let calls: Vec<DeviceCall> = Vec::new();
                        assert(view_calls(calls@) =~= Seq::empty());
                        BuildStep::Done { calls, result: Err(ProgramError::BuildError(log)) }
                    },
                    Ok(_) => {
                        let mut pending: Vec<DeviceCall> = Vec::new();
                        match self.shader_id(stage) {
                            Some(shader) => {
                                pending.push(Call::AttachShader { program: self.id, shader });
                            },
                            None => {},
                        }
                        assert(view_calls(pending@) =~= match self@.shader(stage) {
                            Some(s) => seq![Call::AttachShader { program: self.id, shader: s.id }],
                            None => Seq::empty(),
                        });
                        self.advance(stage.next(), pending)
                    },
                }
            },
            LinkState::Linking => {
                match Program::link_result(status, log) {
                    Err(e) => {
                        self.state = LinkState::Failed;
                        let calls: Vec<DeviceCall> = Vec::new();
                        assert(view_calls(calls@) =~= Seq::empty());
                        BuildStep::Done { calls, result: Err(e) }
                    },
                    Ok(_) => {
                        let calls = self.detach_calls();
                        self.state = LinkState::Linked;
                        BuildStep::Done { calls, result: Ok(()) }
                    },
                }
            },
            _ => BuildStep::Idle,
        }
    }

    /// What a link came to, from the status and the log that the device
    /// reports for it: a failed link gives the log as link error.
    pub fn link_result(status: i32, log: String) -> (r: Result<(), ProgramError>)
        ensures
            spec_status_failed(status) ==> (r matches Err(ProgramError::LinkError(l)) && l == log),
            !spec_status_failed(status) ==> r is Ok,
    {
        if status_failed(status) {
            Err(ProgramError::LinkError(log))
        } else {
            Ok(())
        }
    }

    /// The handle of the shader of a stage, if the program has one.
    pub fn shader_id(&self, stage: ShaderStage) -> (r: Option<u32>)
        ensures
            r == match self@.shader(stage) {
                Some(s) => Some(s.id),
                None => None,
            },
    {
        let slot = match stage {
            ShaderStage::Vertex => &self.vertex_shader,
            ShaderStage::Geometry => &self.geometry_shader,
            ShaderStage::Fragment => &self.fragment_shader,
        };
        match slot {
            Some(shader) => Some(shader.id()),
            None => None,
        }
    }

    /// The calls that detach the program's shaders.
    fn detach_calls(&self) -> (calls: Vec<DeviceCall>)
        ensures
            view_calls(calls@) == self@.detach_calls(),
    {
        let mut calls: Vec<DeviceCall> = Vec::new();
        match &self.vertex_shader {
            Some(s) => {
                calls.push(Call::DetachShader { program: self.id, shader: s.id() });
            },
            None => {},
        }
        match &self.geometry_shader {
            Some(s) => {
                calls.push(Call::DetachShader { program: self.id, shader: s.id() });
            },
            None => {},
        }
        match &self.fragment_shader {
            Some(s) => {
                calls.push(Call::DetachShader { program: self.id, shader: s.id() });
            },
            None => {},
        }
        assert(view_calls(calls@) =~= self@.detach_calls());
        calls
    }

    /// A program with a vertex and a fragment shader, and the first step of
    /// its build. `vs` and `fs` are what reading the two source streams
    /// gave; the first read error, if there is one, is the result.
    ///
    /// This is for a caller that holds both texts. One that must not touch
    /// the second stream once the first could not be read adds the shaders
    /// one after the other, with [`Program::add_vertex_shader`] and
    /// [`Program::add_fragment_shader`], and then calls [`Program::build`]:
    /// that comes to the same program and the same first step.
    pub fn new_simple_program(
        id: u32,
        name: String,
        dialect: GlslDialect,
        vs_id: u32,
        vs: Result<String, std::io::Error>,
        fs_id: u32,
        fs: Result<String, std::io::Error>,
    ) -> (r: Result<(Program, BuildStep), ProgramError>)
        ensures
            match (vs, fs) {
                (Err(e), _) => r matches Err(ProgramError::ReadError(f)) && f == e,
                (Ok(_), Err(e)) => r matches Err(ProgramError::ReadError(f)) && f == e,
                (Ok(v), Ok(f)) => r matches Ok((program, step)) && (program@, step@)
                    == spec_simple_program(id, name@, dialect, vs_id, v@, fs_id, f@).build(),
            },
    {
        let mut p = Program::new(id, name, dialect);
        match p.add_vertex_shader(vs_id, vs) {
            Err(e) => {
                return Err(e);
            },
            Ok(_) => {},
        }
        match p.add_fragment_shader(fs_id, fs) {
            Err(e) => {
                return Err(e);
            },
            Ok(_) => {},
        }
        let step = p.build();
        Ok((p, step))
    }

    /// Makes this program the active pipeline.
    pub fn bind(&self) -> (calls: Vec<DeviceCall>)
        ensures
            view_calls(calls@) == spec_use_calls(self@.id),
    {
        let calls = vec![Call::UseProgram { program: self.id }];
        assert(view_calls(calls@) =~= spec_use_calls(self.id));
        calls
    }

    /// Activates the program and lets the sampler uniform at `location` read
    /// `tex` through texture unit `unit`. `location` is what the device
    /// answers when asked for the uniform's name; for a name that the program
    /// does not have the answer is negative, and then the program is
    /// activated and nothing else happens.
    ///
    /// A texture unit is not negative.
    pub fn bind_texture(&mut self, location: i32, tex: &Texture, unit: i32) -> (calls: Vec<
        DeviceCall,
    >)
        requires
            location >= 0 ==> unit >= 0,
        ensures
            final(self)@ == old(self)@,
            view_calls(calls@) == spec_use_calls(old(self)@.id) + spec_sampler_calls(
                location,
                *tex,
                unit,
            ),
    {
        let mut calls = self.bind();
        if location >= 0 {
            calls.push(Call::Uniform1i { location, value: unit });
            let bind = tex.bind(unit as usize);
            append_calls(&mut calls, bind);
        }
        assert(view_calls(calls@) =~= spec_use_calls(self@.id) + spec_sampler_calls(
            location,
            *tex,
            unit,
        ));
        calls
    }

    /// Activates the program and sets the 2x2 matrix uniform at `location`
    /// to the four numbers whose bit patterns are given, read row by row.
    pub fn set_uniform_mat2(&self, location: i32, u: [u32; 4]) -> (calls: Vec<DeviceCall>)
        ensures
            view_calls(calls@) == spec_use_calls(self@.id).push(
                Call::UniformMatrix2f { location, transpose: true, matrix: u },
            ),
    {
        let mut calls = self.bind();
        calls.push(Call::UniformMatrix2f { location, transpose: true, matrix: u });
        assert(view_calls(calls@) =~= spec_use_calls(self@.id).push(
            Call::UniformMatrix2f { location, transpose: true, matrix: u },
        ));
        calls
    }

    /// Activates the program and sets the two-component vector uniform at
    /// `location` to the numbers whose bit patterns are given.
    pub fn set_uniform_vec2(&self, location: i32, u: [u32; 2]) -> (calls: Vec<DeviceCall>)
        ensures
            view_calls(calls@) == spec_use_calls(self@.id).push(
                Call::Uniform2f { location, pair: u },
            ),
    {
        let mut calls = self.bind();
        calls.push(Call::Uniform2f { location, pair: u });
        assert(view_calls(calls@) =~= spec_use_calls(self@.id).push(
            Call::Uniform2f { location, pair: u },
        ));
        calls
    }

    /// Activates the program and sets the four-component vector uniform at
    /// `location` to the numbers whose bit patterns are given.
    pub fn set_uniform_vec4(&self, location: i32, u: [u32; 4]) -> (calls: Vec<DeviceCall>)
        ensures
            view_calls(calls@) == spec_use_calls(self@.id).push(
                Call::Uniform4f { location, quad: u },
            ),
    {
        let mut calls = self.bind();
        calls.push(Call::Uniform4f { location, quad: u });
        assert(view_calls(calls@) =~= spec_use_calls(self@.id).push(
            Call::Uniform4f { location, quad: u },
        ));
        calls
    }

    /// Activates the program and sets the scalar uniform at `location` to the
    /// number whose bit pattern is given.
    pub fn set_uniform_float(&self, location: i32, u: u32) -> (calls: Vec<DeviceCall>)
        ensures
            view_calls(calls@) == spec_use_calls(self@.id).push(
                Call::Uniform1f { location, bits: u },
            ),
    {
        let mut calls = self.bind();
        calls.push(Call::Uniform1f { location, bits: u });
        assert(view_calls(calls@) =~= spec_use_calls(self@.id).push(
            Call::Uniform1f { location, bits: u },
        ));
        calls
    }

    /// Draws `mesh` with this program: activates the program, binds the
    /// mesh's buffers and draws its triangles.
    pub fn draw(&mut self, mesh: &Mesh) -> (calls: Vec<DeviceCall>)
        ensures
            final(self)@ == old(self)@,
            view_calls(calls@) == spec_use_calls(old(self)@.id) + mesh@.bind_calls()
                + mesh@.draw_calls(),
    {
        let mut calls = self.bind();
        append_calls(&mut calls, mesh.bind());
        append_calls(&mut calls, mesh.draw());
        calls
    }

    /// Gives the program up: the calls that destroy it and its shaders.
    pub fn release(self) -> (calls: Vec<DeviceCall>)
        ensures
            view_calls(calls@) == self@.release_calls(),
    {
        let mut calls = vec![Call::DeleteProgram { program: self.id }];
        match &self.vertex_shader {
            Some(s) => {
                calls.push(Call::DeleteShader { shader: s.id() });
            },
            None => {},
        }
        match &self.geometry_shader {
            Some(s) => {
                calls.push(Call::DeleteShader { shader: s.id() });
            },
            None => {},
        }
        match &self.fragment_shader {
            Some(s) => {
                calls.push(Call::DeleteShader { shader: s.id() });
            },
            None => {},
        }
        assert(view_calls(calls@) =~= self@.release_calls());
        calls
    }
}

/// A new program: no shaders, not built.
pub open spec fn spec_new_program(id: u32, name: Seq<char>, dialect: GlslDialect) -> ProgramView {
    ProgramView {
        id,
        name,
        vertex_shader: None,
        geometry_shader: None,
        fragment_shader: None,
        state: LinkState::Unlinked,
        dialect,
    }
}

/// A new program with a vertex and a fragment shader that hold their source.
pub open spec fn spec_simple_program(
    id: u32,
    name: Seq<char>,
    dialect: GlslDialect,
    vs_id: u32,
    vs: Seq<char>,
    fs_id: u32,
    fs: Seq<char>,
) -> ProgramView {
    ProgramView {
        id,
        name,
        vertex_shader: Some(
            ShaderView { id: vs_id, stage: ShaderStage::Vertex, source: Some(vs) },
        ),
        geometry_shader: None,
        fragment_shader: Some(
            ShaderView { id: fs_id, stage: ShaderStage::Fragment, source: Some(fs) },
        ),
        state: LinkState::Unlinked,
        dialect,
    }
}

/// A build never succeeds on a report of failure. Whatever the state of the
/// program, a failing status does not link it and does not end the build
/// with success; while a shader is compiling it ends the build with the log
/// as build error, and while the program is linking with the log as link
/// error, in both cases without any further call.
pub proof fn lemma_failure_never_builds(p: ProgramView, status: i32, log: Seq<char>)
    requires
        spec_status_failed(status),
    ensures
        p.resume(status, log).0.state != LinkState::Linked || p.state == LinkState::Linked,
        !(p.resume(status, log).1 matches BuildStepView::Done { result: Ok(_), .. }),
        p.state is Compiling ==> p.resume(status, log) == (
            ProgramView { state: LinkState::Failed, ..p },
            BuildStepView::Done {
                calls: Seq::empty(),
                result: Err(ProgramErrorView::BuildError(log)),
            },
        ),
        p.state is Linking ==> p.resume(status, log) == (
            ProgramView { state: LinkState::Failed, ..p },
            BuildStepView::Done {
                calls: Seq::empty(),
                result: Err(ProgramErrorView::LinkError(log)),
            },
        ),
{
}

/// A program becomes linked in one way only: by a report of success while it
/// is linking. No first step of a build, and no report in another state,
/// links it or ends the build with success.
pub proof fn lemma_linked_only_by_successful_link(p: ProgramView, status: i32, log: Seq<char>)
    ensures
        p.build().0.state != LinkState::Linked,
        !(p.build().1 matches BuildStepView::Done { result: Ok(_), .. }),
        p.resume(status, log).1 matches BuildStepView::Done { result: Ok(_), .. } ==> p.state
            == LinkState::Linking && !spec_status_failed(status) && p.resume(status, log).0.state
            == LinkState::Linked,
        p.state != LinkState::Linked && p.resume(status, log).0.state == LinkState::Linked
            ==> p.state == LinkState::Linking && !spec_status_failed(status),
{
}

/// Once a build has ended, in success or in failure, further reports change
/// nothing and ask for nothing.
pub proof fn lemma_ended_build_stays_ended(p: ProgramView, status: i32, log: Seq<char>)
    requires
        p.state == LinkState::Linked || p.state == LinkState::Failed || p.state
            == LinkState::Unlinked,
    ensures
        p.resume(status, log) == (p, BuildStepView::Idle),
{
}

/// Binding a texture to a uniform that the program does not have activates
/// the program and does nothing else: no texture unit is selected, no texture
/// is bound, no uniform is set.
pub proof fn lemma_unknown_uniform_binds_nothing(id: u32, location: i32, texture: Texture, unit: i32)
    requires
        location < 0,
    ensures
        spec_use_calls(id) + spec_sampler_calls(location, texture, unit) == spec_use_calls(id),
        forall|i: int|
            0 <= i < (spec_use_calls(id) + spec_sampler_calls(location, texture, unit)).len()
                ==> !(#[trigger] (spec_use_calls(id) + spec_sampler_calls(
                location,
                texture,
                unit,
            ))[i] is ActiveTexture),
{
    assert(spec_use_calls(id) + spec_sampler_calls(location, texture, unit) =~= spec_use_calls(id));
}

/// A failure is final: when the device reports that a shader did not compile
/// or that the program did not link, the program has failed, and no report
/// that follows makes it linked.
pub proof fn lemma_failure_is_final(
    p: ProgramView,
    status: i32,
    log: Seq<char>,
    later: Seq<(i32, Seq<char>)>,
)
    requires
        p.state is Compiling || p.state is Linking || p.state is Failed,
        spec_status_failed(status) || p.state is Failed,
    ensures
        p.resume(status, log).0.state == LinkState::Failed,
        p.resume(status, log).0.resume_all(later).state == LinkState::Failed,
    decreases later.len(),
{
    if later.len() > 0 {
        let failed = p.resume(status, log).0;
        lemma_failure_is_final(failed, later[0].0, later[0].1, later.drop_first());
    }
}


/// A simple program is what adding a vertex shader and then a fragment
/// shader to a new program gives. So a caller that reads the two source
/// streams one after the other, and adds each shader as soon as its text is
/// read, comes to the same program and to the same first step of its build.
pub proof fn lemma_simple_program_by_steps(
    id: u32,
    name: Seq<char>,
    dialect: GlslDialect,
    vs_id: u32,
    vs: Seq<char>,
    fs_id: u32,
    fs: Seq<char>,
)
    ensures
        spec_new_program(id, name, dialect).with_shader(
            ShaderStage::Vertex,
            ShaderView { id: vs_id, stage: ShaderStage::Vertex, source: Some(vs) },
        ).with_shader(
            ShaderStage::Fragment,
            ShaderView { id: fs_id, stage: ShaderStage::Fragment, source: Some(fs) },
        ) == spec_simple_program(id, name, dialect, vs_id, vs, fs_id, fs),
{
}

} // verus!
