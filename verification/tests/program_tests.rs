//! Shader and program builds, and the cleanup their failures guarantee.

use sgl::attrib::{AttribScalar, AttribShape};
use sgl::gl::{Context, GlCall};
use sgl::program::{BuildStatus, Program, Shader, ShaderType};
use sgl::uniform::UniformValue;

#[test]
fn shader_compile_success_leaves_one_live_handle() {
    let mut gl = Context::new();
    let shader = Shader::new(
        &mut gl,
        ShaderType::Vertex,
        "void main() {}",
        BuildStatus::Success,
    );
    assert!(shader.is_ok());
    assert_eq!(gl.live_shader_count(), 1);
    assert_eq!(gl.call_count(), 3);
    assert!(matches!(gl.call_at(0), GlCall::CreateShader { type_code, .. }
        if type_code == sgl::gl::VERTEX_SHADER));
    assert!(matches!(gl.call_at(1), GlCall::ShaderSource { .. }));
    assert!(matches!(gl.call_at(2), GlCall::CompileShader { .. }));
}

#[test]
fn failed_compile_leaves_zero_live_handles() {
    let mut gl = Context::new();
    let shader = Shader::new(
        &mut gl,
        ShaderType::Fragment,
        "nonsense",
        BuildStatus::Failure(String::from("syntax error")),
    );
    assert_eq!(shader.unwrap_err(), "syntax error");
    assert_eq!(gl.live_shader_count(), 0);
    assert!(matches!(gl.call_at(gl.call_count() - 1), GlCall::DeleteShader { .. }));
}

#[test]
fn link_success_consumes_shaders() {
    let mut gl = Context::new();
    let vertex = Shader::new(&mut gl, ShaderType::Vertex, "v", BuildStatus::Success).unwrap();
    let fragment = Shader::new(&mut gl, ShaderType::Fragment, "f", BuildStatus::Success).unwrap();
    assert_eq!(gl.live_shader_count(), 2);
    let program = Program::new(&mut gl, vec![vertex, fragment], BuildStatus::Success);
    assert!(program.is_ok());
    assert_eq!(gl.live_shader_count(), 0);
    assert_eq!(gl.live_program_count(), 1);
}

#[test]
fn failed_link_leaves_zero_live_handles() {
    let mut gl = Context::new();
    let vertex = Shader::new(&mut gl, ShaderType::Vertex, "v", BuildStatus::Success).unwrap();
    let fragment = Shader::new(&mut gl, ShaderType::Fragment, "f", BuildStatus::Success).unwrap();
    let program = Program::new(
        &mut gl,
        vec![vertex, fragment],
        BuildStatus::Failure(String::from("link failed")),
    );
    assert_eq!(program.unwrap_err(), "link failed");
    assert_eq!(gl.live_shader_count(), 0);
    assert_eq!(gl.live_program_count(), 0);
    assert!(matches!(gl.call_at(gl.call_count() - 1), GlCall::DeleteProgram { .. }));
}

#[test]
fn link_attaches_then_detaches_every_shader() {
    let mut gl = Context::new();
    let vertex = Shader::new(&mut gl, ShaderType::Vertex, "v", BuildStatus::Success).unwrap();
    let fragment = Shader::new(&mut gl, ShaderType::Fragment, "f", BuildStatus::Success).unwrap();
    let before = gl.call_count();
    let _program = Program::new(&mut gl, vec![vertex, fragment], BuildStatus::Success).unwrap();
    let mut attaches = 0;
    let mut detaches = 0;
    let mut deletes = 0;
    for i in before..gl.call_count() {
        match gl.call_at(i) {
            GlCall::AttachShader { .. } => attaches += 1,
            GlCall::DetachShader { .. } => detaches += 1,
            GlCall::DeleteShader { .. } => deletes += 1,
            _ => {}
        }
    }
    assert_eq!(attaches, 2);
    assert_eq!(detaches, 2);
    assert_eq!(deletes, 2);
}

#[test]
fn enable_and_disable_switch_the_program() {
    let mut gl = Context::new();
    let vertex = Shader::new(&mut gl, ShaderType::Vertex, "v", BuildStatus::Success).unwrap();
    let program = Program::new(&mut gl, vec![vertex], BuildStatus::Success).unwrap();
    let before = gl.call_count();
    program.enable(&mut gl);
    program.disable(&mut gl);
    assert!(matches!(gl.call_at(before), GlCall::UseProgram { program } if program != 0));
    assert_eq!(gl.call_at(before + 1), GlCall::UseProgram { program: 0 });
}

#[test]
fn unresolved_uniform_upload_is_inert() {
    let mut gl = Context::new();
    let vertex = Shader::new(&mut gl, ShaderType::Vertex, "v", BuildStatus::Success).unwrap();
    let program = Program::new(&mut gl, vec![vertex], BuildStatus::Success).unwrap();
    let missing = program.uniform("nothing", None);
    let before = gl.call_count();
    missing.load(&mut gl, UniformValue::Int(7));
    assert_eq!(gl.call_count(), before);
}

#[test]
fn resolved_uniform_uploads_one_value() {
    let mut gl = Context::new();
    let vertex = Shader::new(&mut gl, ShaderType::Vertex, "v", BuildStatus::Success).unwrap();
    let program = Program::new(&mut gl, vec![vertex], BuildStatus::Success).unwrap();
    let colour = program.uniform("colour", Some(5));
    let before = gl.call_count();
    colour.load(&mut gl, UniformValue::IntVec3(1, 2, 3));
    assert_eq!(gl.call_count(), before + 1);
    assert_eq!(
        gl.call_at(before),
        GlCall::Uniform3I32 { location: 5, x: 1, y: 2, z: 3 }
    );
}

#[test]
fn float_uniform_carries_bit_patterns() {
    let mut gl = Context::new();
    let vertex = Shader::new(&mut gl, ShaderType::Vertex, "v", BuildStatus::Success).unwrap();
    let program = Program::new(&mut gl, vec![vertex], BuildStatus::Success).unwrap();
    let offset = program.uniform("offset", Some(2));
    let before = gl.call_count();
    offset.load(
        &mut gl,
        UniformValue::FloatVec2(0.25f32.to_bits(), (-0.75f32).to_bits()),
    );
    assert_eq!(
        gl.call_at(before),
        GlCall::Uniform2F32 {
            location: 2,
            x_bits: 0.25f32.to_bits(),
            y_bits: (-0.75f32).to_bits(),
        }
    );
}

#[test]
fn attrib_resolution_keeps_the_shape() {
    let mut gl = Context::new();
    let vertex = Shader::new(&mut gl, ShaderType::Vertex, "v", BuildStatus::Success).unwrap();
    let program = Program::new(&mut gl, vec![vertex], BuildStatus::Success).unwrap();
    let shape = AttribShape { scalar: AttribScalar::Float, count: 2 };
    let attrib = program.attrib("position", Some(1), shape);
    assert_eq!(attrib.location, Some(1));
    assert_eq!(attrib.shape, shape);
}
