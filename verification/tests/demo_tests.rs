//! The triangle demo end to end: one non-indexed draw of three vertices.

use sgl::demo::{Demo, DemoBuild};
use sgl::gl::{Context, GlCall};
use sgl::program::BuildStatus;

fn successful_build() -> DemoBuild {
    DemoBuild {
        vertex_compile: BuildStatus::Success,
        fragment_compile: BuildStatus::Success,
        link: BuildStatus::Success,
        position_location: Some(0),
        offset_location: Some(1),
    }
}

#[test]
fn triangle_render_issues_one_draw_of_three() {
    let mut gl = Context::new();
    let demo = Demo::new(&mut gl, successful_build()).unwrap();
    let before = gl.call_count();
    demo.render(&mut gl);
    let mut draws = Vec::new();
    for i in before..gl.call_count() {
        if let GlCall::DrawArrays { mode_code, first, count } = gl.call_at(i) {
            draws.push((mode_code, first, count));
        }
    }
    assert_eq!(draws, vec![(sgl::gl::TRIANGLES, 0, 3)]);
}

#[test]
fn triangle_vertices_upload_as_bit_patterns() {
    let bytes = sgl::demo::triangle_bytes();
    let mut floats = Vec::new();
    for chunk in bytes.chunks(4) {
        floats.push(f32::from_le_bytes([chunk[0], chunk[1], chunk[2], chunk[3]]));
    }
    assert_eq!(floats, vec![0.0, 0.5, -0.5, -0.5, 0.5, -0.5]);
}

#[test]
fn render_brackets_draw_with_the_program() {
    let mut gl = Context::new();
    let demo = Demo::new(&mut gl, successful_build()).unwrap();
    let before = gl.call_count();
    demo.render(&mut gl);
    assert!(matches!(gl.call_at(before), GlCall::UseProgram { program } if program != 0));
    assert_eq!(
        gl.call_at(gl.call_count() - 1),
        GlCall::UseProgram { program: 0 }
    );
}

#[test]
fn set_offset_changes_the_upload() {
    let mut gl = Context::new();
    let mut demo = Demo::new(&mut gl, successful_build()).unwrap();
    demo.set_offset(0.125f32.to_bits(), (-1.5f32).to_bits());
    let before = gl.call_count();
    demo.render(&mut gl);
    let mut seen = false;
    for i in before..gl.call_count() {
        if let GlCall::Uniform2F32 { location, x_bits, y_bits } = gl.call_at(i) {
            assert_eq!(location, 1);
            assert_eq!(f32::from_bits(x_bits), 0.125);
            assert_eq!(f32::from_bits(y_bits), -1.5);
            seen = true;
        }
    }
    assert!(seen);
}

#[test]
fn vertex_failure_reports_its_log() {
    let mut gl = Context::new();
    let build = DemoBuild {
        vertex_compile: BuildStatus::Failure(String::from("bad vertex")),
        fragment_compile: BuildStatus::Success,
        link: BuildStatus::Success,
        position_location: Some(0),
        offset_location: Some(1),
    };
    let err = match Demo::new(&mut gl, build) {
        Err(e) => e,
        Ok(_) => panic!("expected the vertex stage to fail"),
    };
    assert_eq!(err, "bad vertex");
    assert_eq!(gl.live_shader_count(), 0);
    assert_eq!(gl.live_program_count(), 0);
    assert_eq!(gl.live_buffer_count(), 0);
}

#[test]
fn link_failure_reports_its_log_and_cleans_up() {
    let mut gl = Context::new();
    let build = DemoBuild {
        vertex_compile: BuildStatus::Success,
        fragment_compile: BuildStatus::Success,
        link: BuildStatus::Failure(String::from("no varyings")),
        position_location: Some(0),
        offset_location: Some(1),
    };
    let err = match Demo::new(&mut gl, build) {
        Err(e) => e,
        Ok(_) => panic!("expected the link to fail"),
    };
    assert_eq!(err, "no varyings");
    assert_eq!(gl.live_shader_count(), 0);
    assert_eq!(gl.live_program_count(), 0);
    assert_eq!(gl.live_buffer_count(), 0);
}

#[test]
fn demo_delete_releases_program_and_buffer() {
    let mut gl = Context::new();
    let demo = Demo::new(&mut gl, successful_build()).unwrap();
    assert_eq!(gl.live_program_count(), 1);
    assert_eq!(gl.live_buffer_count(), 1);
    demo.del(&mut gl);
    assert_eq!(gl.live_program_count(), 0);
    assert_eq!(gl.live_buffer_count(), 0);
}

#[test]
fn unresolved_offset_renders_without_upload() {
    let mut gl = Context::new();
    let build = DemoBuild {
        vertex_compile: BuildStatus::Success,
        fragment_compile: BuildStatus::Success,
        link: BuildStatus::Success,
        position_location: Some(0),
        offset_location: None,
    };
    let demo = Demo::new(&mut gl, build).unwrap();
    let before = gl.call_count();
    demo.render(&mut gl);
    for i in before..gl.call_count() {
        assert!(!matches!(gl.call_at(i), GlCall::Uniform2F32 { .. }));
    }
}
