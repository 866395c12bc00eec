use rockwork::device::{BufferTarget, Call, DeviceCall, GlslDialect, VertexAttribute};
use rockwork::mesh::{Face, Mesh};
use rockwork::program::{BuildStep, LinkState, Program, ProgramError};
use rockwork::shader::{status_failed, Shader, ShaderStage};
use rockwork::texture::Texture;

fn read_error() -> std::io::Error {
    std::io::Error::new(std::io::ErrorKind::InvalidData, "stream did not contain valid UTF-8")
}

fn link_calls(program: u32) -> Vec<DeviceCall> {
    vec![
        Call::BindAttribLocation { program, attribute: VertexAttribute::Position },
        Call::BindAttribLocation { program, attribute: VertexAttribute::Normal },
        Call::BindAttribLocation { program, attribute: VertexAttribute::Uv },
        Call::BindAttribLocation { program, attribute: VertexAttribute::Color },
        Call::LinkProgram { program },
    ]
}

fn compile_calls(shader: u32, source: &str) -> Vec<DeviceCall> {
    vec![
        Call::ShaderSource { shader, dialect: GlslDialect::Desktop, source: source.to_string() },
        Call::CompileShader { shader },
    ]
}

fn simple_program() -> Program {
    let mut p = Program::new(1, "simple".to_string(), GlslDialect::Desktop);
    p.add_vertex_shader(10, Ok("void main() {}".to_string())).unwrap();
    p.add_fragment_shader(30, Ok("out vec4 c;".to_string())).unwrap();
    p
}

fn expect_compile(step: BuildStep, calls: Vec<DeviceCall>, shader: u32) {
    match step {
        BuildStep::Compile { calls: c, shader: s } => {
            assert_eq!(c, calls);
            assert_eq!(s, shader);
        }
        other => panic!("expected a compile step, got {:?}", other),
    }
}

fn expect_link(step: BuildStep, calls: Vec<DeviceCall>, program: u32) {
    match step {
        BuildStep::Link { calls: c, program: p } => {
            assert_eq!(c, calls);
            assert_eq!(p, program);
        }
        other => panic!("expected a link step, got {:?}", other),
    }
}

#[test]
fn stages_have_the_device_values() {
    assert_eq!(ShaderStage::Vertex.gl_enum(), gl::VERTEX_SHADER);
    assert_eq!(ShaderStage::Geometry.gl_enum(), gl::GEOMETRY_SHADER);
    assert_eq!(ShaderStage::Fragment.gl_enum(), gl::FRAGMENT_SHADER);
    assert_eq!(ShaderStage::Vertex.gl_enum(), 0x8B31);
    assert_eq!(ShaderStage::Geometry.gl_enum(), 0x8DD9);
    assert_eq!(ShaderStage::Fragment.gl_enum(), 0x8B30);
}

#[test]
fn stages_follow_each_other() {
    assert_eq!(ShaderStage::Vertex.next(), Some(ShaderStage::Geometry));
    assert_eq!(ShaderStage::Geometry.next(), Some(ShaderStage::Fragment));
    assert_eq!(ShaderStage::Fragment.next(), None);
}

#[test]
fn only_status_zero_is_failure() {
    assert!(status_failed(gl::FALSE as i32));
    assert!(status_failed(0));
    assert!(!status_failed(gl::TRUE as i32));
    assert!(!status_failed(-1));
    assert!(!status_failed(i32::MAX));
}

#[test]
fn preambles_name_the_language_version() {
    assert_eq!(GlslDialect::Desktop.preamble(), "#version 330\n");
    assert_eq!(GlslDialect::Embedded.preamble(), "#version 300 es\nprecision highp float;\n");
}

#[test]
fn attributes_have_conventional_names_and_locations() {
    let all = [
        (VertexAttribute::Position, "position", 0),
        (VertexAttribute::Normal, "normal", 1),
        (VertexAttribute::Uv, "uv", 2),
        (VertexAttribute::Color, "color", 3),
    ];
    for (attribute, name, location) in all {
        assert_eq!(attribute.name(), name);
        assert_eq!(attribute.location(), location);
        assert_eq!(attribute.layout().location, location);
        assert_eq!(attribute.layout().stride, 32);
        let l = attribute.layout();
        assert!(l.offset + l.components * l.kind.size() <= 32);
    }
    assert_eq!(VertexAttribute::Position.layout().offset, 0);
    assert_eq!(VertexAttribute::Normal.layout().offset, 12);
    assert_eq!(VertexAttribute::Uv.layout().offset, 18);
    assert_eq!(VertexAttribute::Color.layout().offset, 22);
}

#[test]
fn shader_keeps_source_until_compiled() {
    let mut shader =
        Shader::new_with_source(10, ShaderStage::Geometry, Ok("void main() {}".to_string()))
            .unwrap();
    assert_eq!(shader.id(), 10);
    assert_eq!(shader.stage(), ShaderStage::Geometry);
    assert!(shader.has_source());
    let calls = shader.compile(GlslDialect::Embedded).unwrap();
    let expected: Vec<DeviceCall> = vec![
        Call::ShaderSource {
            shader: 10,
            dialect: GlslDialect::Embedded,
            source: "void main() {}".to_string(),
        },
        Call::CompileShader { shader: 10 },
    ];
    assert_eq!(calls, expected);
    assert!(!shader.has_source());
    assert_eq!(
        shader.compile(GlslDialect::Embedded),
        Err("Shader must have source to compile".to_string())
    );
    let release: Vec<DeviceCall> = vec![Call::DeleteShader { shader: 10 }];
    assert_eq!(shader.release(), release);
}

#[test]
fn shader_passes_a_read_error_on() {
    let r = Shader::new_with_source(10, ShaderStage::Vertex, Err(read_error()));
    let e = r.unwrap_err();
    assert_eq!(e.kind(), std::io::ErrorKind::InvalidData);
    assert_eq!(e.to_string(), "stream did not contain valid UTF-8");
}

#[test]
fn compile_result_gives_the_log_on_failure() {
    assert_eq!(Shader::compile_result(0, "0:1: syntax error".to_string()), Err("0:1: syntax error".to_string()));
    assert_eq!(Shader::compile_result(0, String::new()), Err(String::new()));
    assert_eq!(Shader::compile_result(1, "warning: unused".to_string()), Ok(()));
}

#[test]
fn link_result_gives_the_log_on_failure() {
    match Program::link_result(0, "missing main".to_string()) {
        Err(ProgramError::LinkError(log)) => assert_eq!(log, "missing main"),
        other => panic!("expected a link error, got {:?}", other),
    }
    assert!(Program::link_result(1, "fine".to_string()).is_ok());
}

#[test]
fn new_program_is_unlinked() {
    let p = Program::new(1, "simple".to_string(), GlslDialect::Desktop);
    assert_eq!(p.id(), 1);
    assert_eq!(p.name(), "simple");
    assert_eq!(p.state(), LinkState::Unlinked);
    assert_eq!(p.shader_id(ShaderStage::Vertex), None);
    assert_eq!(p.shader_id(ShaderStage::Geometry), None);
    assert_eq!(p.shader_id(ShaderStage::Fragment), None);
}

#[test]
fn add_shader_fails_with_the_read_error() {
    let mut p = Program::new(1, "simple".to_string(), GlslDialect::Desktop);
    match p.add_vertex_shader(10, Err(read_error())) {
        Err(ProgramError::ReadError(e)) => assert_eq!(e.kind(), std::io::ErrorKind::InvalidData),
        other => panic!("expected a read error, got {:?}", other),
    }
    assert_eq!(p.shader_id(ShaderStage::Vertex), None);
    assert!(matches!(p.add_geometry_shader(20, Err(read_error())), Err(ProgramError::ReadError(_))));
    assert!(matches!(p.add_fragment_shader(30, Err(read_error())), Err(ProgramError::ReadError(_))));
    assert_eq!(p.shader_id(ShaderStage::Geometry), None);
    assert_eq!(p.shader_id(ShaderStage::Fragment), None);
    assert_eq!(p.state(), LinkState::Unlinked);
}

#[test]
fn add_shader_fills_the_slot_of_its_stage() {
    let mut p = Program::new(1, "simple".to_string(), GlslDialect::Desktop);
    p.add_geometry_shader(20, Ok("g".to_string())).unwrap();
    assert_eq!(p.shader_id(ShaderStage::Vertex), None);
    assert_eq!(p.shader_id(ShaderStage::Geometry), Some(20));
    assert_eq!(p.shader_id(ShaderStage::Fragment), None);
    p.add_vertex_shader(10, Ok("v".to_string())).unwrap();
    p.add_fragment_shader(30, Ok("f".to_string())).unwrap();
    p.add_fragment_shader(31, Ok("f2".to_string())).unwrap();
    assert_eq!(p.shader_id(ShaderStage::Vertex), Some(10));
    assert_eq!(p.shader_id(ShaderStage::Fragment), Some(31));
}

#[test]
fn build_compiles_attaches_links_and_detaches() {
    let mut p = Program::new(1, "full".to_string(), GlslDialect::Desktop);
    p.add_fragment_shader(30, Ok("f".to_string())).unwrap();
    p.add_geometry_shader(20, Ok("g".to_string())).unwrap();
    p.add_vertex_shader(10, Ok("v".to_string())).unwrap();

    expect_compile(p.build(), compile_calls(10, "v"), 10);
    assert_eq!(p.state(), LinkState::Compiling(ShaderStage::Vertex));

    let mut calls: Vec<DeviceCall> = vec![Call::AttachShader { program: 1, shader: 10 }];
    calls.extend(compile_calls(20, "g"));
    expect_compile(p.resume_build(1, String::new()), calls, 20);
    assert_eq!(p.state(), LinkState::Compiling(ShaderStage::Geometry));

    let mut calls: Vec<DeviceCall> = vec![Call::AttachShader { program: 1, shader: 20 }];
    calls.extend(compile_calls(30, "f"));
    expect_compile(p.resume_build(1, "warning".to_string()), calls, 30);
    assert_eq!(p.state(), LinkState::Compiling(ShaderStage::Fragment));

    let mut calls: Vec<DeviceCall> = vec![Call::AttachShader { program: 1, shader: 30 }];
    calls.extend(link_calls(1));
    expect_link(p.resume_build(1, String::new()), calls, 1);
    assert_eq!(p.state(), LinkState::Linking);

    match p.resume_build(1, String::new()) {
        BuildStep::Done { calls, result } => {
            let expected: Vec<DeviceCall> = vec![
                Call::DetachShader { program: 1, shader: 10 },
                Call::DetachShader { program: 1, shader: 20 },
                Call::DetachShader { program: 1, shader: 30 },
            ];
            assert_eq!(calls, expected);
            assert!(result.is_ok());
        }
        other => panic!("expected the end of the build, got {:?}", other),
    }
    assert_eq!(p.state(), LinkState::Linked);
    assert!(matches!(p.resume_build(0, "late".to_string()), BuildStep::Idle));
    assert_eq!(p.state(), LinkState::Linked);
}

#[test]
fn build_skips_empty_stages() {
    let mut p = simple_program();
    expect_compile(p.build(), compile_calls(10, "void main() {}"), 10);
    let mut calls: Vec<DeviceCall> = vec![Call::AttachShader { program: 1, shader: 10 }];
    calls.extend(compile_calls(30, "out vec4 c;"));
    expect_compile(p.resume_build(1, String::new()), calls, 30);
}

#[test]
fn build_without_shaders_links_at_once() {
    let mut p = Program::new(1, "bare".to_string(), GlslDialect::Desktop);
    expect_link(p.build(), link_calls(1), 1);
    match p.resume_build(1, String::new()) {
        BuildStep::Done { calls, result } => {
            assert!(calls.is_empty());
            assert!(result.is_ok());
        }
        other => panic!("expected the end of the build, got {:?}", other),
    }
    assert_eq!(p.state(), LinkState::Linked);
}

#[test]
fn malformed_fragment_shader_ends_in_build_error() {
    let mut p = simple_program();
    p.build();
    p.resume_build(1, String::new());
    assert_eq!(p.state(), LinkState::Compiling(ShaderStage::Fragment));
    match p.resume_build(0, "0:1: unexpected token".to_string()) {
        BuildStep::Done { calls, result: Err(ProgramError::BuildError(log)) } => {
            assert!(calls.is_empty());
            assert_eq!(log, "0:1: unexpected token");
        }
        other => panic!("expected a build error, got {:?}", other),
    }
    assert_eq!(p.state(), LinkState::Failed);
    assert!(matches!(p.resume_build(1, String::new()), BuildStep::Idle));
    assert_eq!(p.state(), LinkState::Failed);
}

#[test]
fn failed_vertex_shader_stops_the_build_before_the_next_stage() {
    let mut p = simple_program();
    p.build();
    match p.resume_build(0, "bad".to_string()) {
        BuildStep::Done { calls, result: Err(ProgramError::BuildError(log)) } => {
            assert!(calls.is_empty());
            assert_eq!(log, "bad");
        }
        other => panic!("expected a build error, got {:?}", other),
    }
    assert_eq!(p.state(), LinkState::Failed);
}

#[test]
fn failed_link_ends_in_link_error_without_detaching() {
    let mut p = simple_program();
    p.build();
    p.resume_build(1, String::new());
    p.resume_build(1, String::new());
    assert_eq!(p.state(), LinkState::Linking);
    match p.resume_build(0, "unresolved symbol".to_string()) {
        BuildStep::Done { calls, result: Err(ProgramError::LinkError(log)) } => {
            assert!(calls.is_empty());
            assert_eq!(log, "unresolved symbol");
        }
        other => panic!("expected a link error, got {:?}", other),
    }
    assert_eq!(p.state(), LinkState::Failed);
}

#[test]
fn second_build_finds_no_source() {
    let mut p = simple_program();
    p.build();
    p.resume_build(1, String::new());
    p.resume_build(1, String::new());
    p.resume_build(1, String::new());
    assert_eq!(p.state(), LinkState::Linked);
    match p.build() {
        BuildStep::Done { calls, result: Err(ProgramError::BuildError(log)) } => {
            assert!(calls.is_empty());
            assert_eq!(log, "Shader must have source to compile");
        }
        other => panic!("expected a build error, got {:?}", other),
    }
    assert_eq!(p.state(), LinkState::Failed);
}

#[test]
fn report_before_any_build_is_ignored() {
    let mut p = simple_program();
    assert!(matches!(p.resume_build(1, String::new()), BuildStep::Idle));
    assert_eq!(p.state(), LinkState::Unlinked);
    expect_compile(p.build(), compile_calls(10, "void main() {}"), 10);
}

#[test]
fn simple_program_starts_its_build() {
    let (p, step) = Program::new_simple_program(
        1,
        "simple".to_string(),
        GlslDialect::Embedded,
        10,
        Ok("v".to_string()),
        30,
        Ok("f".to_string()),
    )
    .unwrap();
    assert_eq!(p.id(), 1);
    assert_eq!(p.name(), "simple");
    assert_eq!(p.shader_id(ShaderStage::Vertex), Some(10));
    assert_eq!(p.shader_id(ShaderStage::Geometry), None);
    assert_eq!(p.shader_id(ShaderStage::Fragment), Some(30));
    assert_eq!(p.state(), LinkState::Compiling(ShaderStage::Vertex));
    let calls: Vec<DeviceCall> = vec![
        Call::ShaderSource { shader: 10, dialect: GlslDialect::Embedded, source: "v".to_string() },
        Call::CompileShader { shader: 10 },
    ];
    expect_compile(step, calls, 10);
}

#[test]
fn simple_program_fails_with_the_first_read_error() {
    let first = std::io::Error::new(std::io::ErrorKind::NotFound, "vs");
    let second = std::io::Error::new(std::io::ErrorKind::PermissionDenied, "fs");
    let r = Program::new_simple_program(
        1,
        "simple".to_string(),
        GlslDialect::Desktop,
        10,
        Err(first),
        30,
        Err(second),
    );
    match r {
        Err(ProgramError::ReadError(e)) => assert_eq!(e.kind(), std::io::ErrorKind::NotFound),
        other => panic!("expected a read error, got {:?}", other.map(|_| ())),
    }
    let second = std::io::Error::new(std::io::ErrorKind::PermissionDenied, "fs");
    let r = Program::new_simple_program(
        1,
        "simple".to_string(),
        GlslDialect::Desktop,
        10,
        Ok("v".to_string()),
        30,
        Err(second),
    );
    match r {
        Err(ProgramError::ReadError(e)) => {
            assert_eq!(e.kind(), std::io::ErrorKind::PermissionDenied)
        }
        other => panic!("expected a read error, got {:?}", other.map(|_| ())),
    }
}

#[test]
fn bind_activates_the_program() {
    let p = simple_program();
    let expected: Vec<DeviceCall> = vec![Call::UseProgram { program: 1 }];
    assert_eq!(p.bind(), expected);
}

#[test]
fn bind_texture_sets_sampler_and_binds_unit() {
    let mut p = simple_program();
    let (texture, _) = Texture::new_rgba(7, 4, 4);
    let expected: Vec<DeviceCall> = vec![
        Call::UseProgram { program: 1 },
        Call::Uniform1i { location: 5, value: 2 },
        Call::ActiveTexture { unit: gl::TEXTURE2 },
        Call::BindTexture { texture: 7 },
    ];
    assert_eq!(p.bind_texture(5, &texture, 2), expected);
    let expected: Vec<DeviceCall> = vec![
        Call::UseProgram { program: 1 },
        Call::Uniform1i { location: 0, value: 0 },
        Call::ActiveTexture { unit: gl::TEXTURE0 },
        Call::BindTexture { texture: 7 },
    ];
    assert_eq!(p.bind_texture(0, &texture, 0), expected);
}

#[test]
fn bind_texture_with_unknown_uniform_only_activates_the_program() {
    let mut p = simple_program();
    let (texture, _) = Texture::new_rgba(7, 4, 4);
    let expected: Vec<DeviceCall> = vec![Call::UseProgram { program: 1 }];
    assert_eq!(p.bind_texture(-1, &texture, 2), expected);
    assert_eq!(p.bind_texture(-1, &texture, -3), expected);
    assert_eq!(p.bind_texture(i32::MIN, &texture, 0), expected);
    let calls = p.bind_texture(-1, &texture, 2);
    assert!(!calls.iter().any(|c| matches!(c, Call::ActiveTexture { .. })));
    assert_eq!(p.state(), LinkState::Unlinked);
}

#[test]
fn uniforms_are_set_on_the_active_program() {
    let p = simple_program();
    let one = 1.0f32.to_bits();
    let half = 0.5f32.to_bits();
    let expected: Vec<DeviceCall> =
        vec![Call::UseProgram { program: 1 }, Call::Uniform1f { location: 3, bits: half }];
    assert_eq!(p.set_uniform_float(3, half), expected);
    let expected: Vec<DeviceCall> =
        vec![Call::UseProgram { program: 1 }, Call::Uniform2f { location: 4, pair: [one, half] }];
    assert_eq!(p.set_uniform_vec2(4, [one, half]), expected);
    let expected: Vec<DeviceCall> = vec![
        Call::UseProgram { program: 1 },
        Call::Uniform4f { location: -1, quad: [one, half, 0, one] },
    ];
    assert_eq!(p.set_uniform_vec4(-1, [one, half, 0, one]), expected);
    let expected: Vec<DeviceCall> = vec![
        Call::UseProgram { program: 1 },
        Call::UniformMatrix2f { location: 6, transpose: true, matrix: [one, 0, 0, one] },
    ];
    assert_eq!(p.set_uniform_mat2(6, [one, 0, 0, one]), expected);
}

#[test]
fn draw_binds_program_and_mesh_then_draws() {
    let mut p = simple_program();
    let mut mesh = Mesh::new(10, 11, 12);
    mesh.upload_face_data(vec![Face::default(); 4]);
    let expected: Vec<DeviceCall> = vec![
        Call::UseProgram { program: 1 },
        Call::BindVertexArray { array: 12 },
        Call::BindBuffer { target: BufferTarget::Indices, buffer: 11 },
        Call::DrawElements { count: 12 },
    ];
    assert_eq!(p.draw(&mesh), expected);
}

#[test]
fn release_deletes_program_then_shaders() {
    let p = simple_program();
    let expected: Vec<DeviceCall> = vec![
        Call::DeleteProgram { program: 1 },
        Call::DeleteShader { shader: 10 },
        Call::DeleteShader { shader: 30 },
    ];
    assert_eq!(p.release(), expected);
}
