//! Buffer lifecycle and the draw round trip.

use sgl::attrib::{Attrib, AttribScalar, AttribShape, Attribs};
use sgl::buffer::{Buffer, BufferTarget, Draw, DrawMode, Geometry, IndexedGeometry};
use sgl::gl::{Context, GlCall};

fn float_pair_attribs() -> Attribs {
    Attribs::new(vec![Attrib::new(
        Some(0),
        AttribShape { scalar: AttribScalar::Float, count: 2 },
    )])
}

fn count_draw_arrays(gl: &Context) -> Vec<(u32, u32, u32)> {
    let mut found = Vec::new();
    for i in 0..gl.call_count() {
        if let GlCall::DrawArrays { mode_code, first, count } = gl.call_at(i) {
            found.push((mode_code, first, count));
        }
    }
    found
}

#[test]
fn load_records_element_count() {
    let mut gl = Context::new();
    let attribs = float_pair_attribs();
    let mut buffer = attribs.buffer(&mut gl);
    assert_eq!(buffer.length(), 0);
    let data = vec![0u8; 3 * 8];
    buffer.load(&mut gl, &data);
    assert_eq!(buffer.length(), 3);
    // Creation, then bind / upload / unbind.
    assert_eq!(gl.call_count(), 4);
    assert_eq!(
        gl.call_at(2),
        GlCall::BufferData {
            target_code: sgl::gl::ARRAY_BUFFER,
            byte_len: 24,
            usage_code: sgl::gl::STATIC_DRAW,
        }
    );
}

#[test]
fn resize_records_element_count() {
    let mut gl = Context::new();
    let mut buffer = Buffer::new(&mut gl, BufferTarget::Array, 4);
    buffer.resize(&mut gl, 40);
    assert_eq!(buffer.length(), 10);
    assert_eq!(
        gl.call_at(2),
        GlCall::BufferDataSize {
            target_code: sgl::gl::ARRAY_BUFFER,
            size: 40,
            usage_code: sgl::gl::STATIC_DRAW,
        }
    );
}

#[test]
fn full_draw_counts_loaded_elements() {
    let mut gl = Context::new();
    let attribs = float_pair_attribs();
    let mut buffer = attribs.buffer(&mut gl);
    let data = vec![0u8; 5 * 8];
    buffer.load(&mut gl, &data);
    let geometry = Geometry { vertices: buffer, attribs };
    geometry.draw(&mut gl, DrawMode::Triangles);
    let draws = count_draw_arrays(&gl);
    assert_eq!(draws, vec![(sgl::gl::TRIANGLES, 0, 5)]);
}

#[test]
fn full_range_equals_full_draw() {
    let attribs_a = float_pair_attribs();
    let attribs_b = float_pair_attribs();
    let mut gl_a = Context::new();
    let mut gl_b = Context::new();
    let mut buffer_a = attribs_a.buffer(&mut gl_a);
    let mut buffer_b = attribs_b.buffer(&mut gl_b);
    let data = vec![0u8; 4 * 8];
    buffer_a.load(&mut gl_a, &data);
    buffer_b.load(&mut gl_b, &data);
    let geometry_a = Geometry { vertices: buffer_a, attribs: attribs_a };
    let geometry_b = Geometry { vertices: buffer_b, attribs: attribs_b };

    geometry_a.draw(&mut gl_a, DrawMode::LineStrip);
    geometry_b.draw_range(&mut gl_b, DrawMode::LineStrip, 0, 4);

    assert_eq!(gl_a.call_count(), gl_b.call_count());
    for i in 0..gl_a.call_count() {
        assert_eq!(gl_a.call_at(i), gl_b.call_at(i));
    }
}

#[test]
fn sub_range_draw_counts_the_range() {
    let mut gl = Context::new();
    let attribs = float_pair_attribs();
    let mut buffer = attribs.buffer(&mut gl);
    let data = vec![0u8; 6 * 8];
    buffer.load(&mut gl, &data);
    let geometry = Geometry { vertices: buffer, attribs };
    geometry.draw_range(&mut gl, DrawMode::Lines, 2, 5);
    let draws = count_draw_arrays(&gl);
    assert_eq!(draws, vec![(sgl::gl::LINES, 2, 3)]);
}

#[test]
fn indexed_draw_counts_indices() {
    let mut gl = Context::new();
    let attribs = float_pair_attribs();
    let mut vertices = attribs.buffer(&mut gl);
    let vertex_data = vec![0u8; 4 * 8];
    vertices.load(&mut gl, &vertex_data);
    let mut elements = Buffer::new(&mut gl, BufferTarget::ElementArray, 2);
    let index_data = vec![0u8; 6 * 2];
    elements.load(&mut gl, &index_data);
    let geometry = IndexedGeometry { vertices, attribs, elements };
    assert_eq!(geometry.data_length(), 6);
    geometry.draw(&mut gl, DrawMode::Triangles);
    let mut found = Vec::new();
    for i in 0..gl.call_count() {
        if let GlCall::DrawElements { mode_code, count, element_code, offset } = gl.call_at(i) {
            found.push((mode_code, count, element_code, offset));
        }
    }
    assert_eq!(found, vec![(sgl::gl::TRIANGLES, 6, sgl::gl::UNSIGNED_SHORT, 0)]);
}

#[test]
fn delete_retires_the_handle() {
    let mut gl = Context::new();
    let buffer = Buffer::new(&mut gl, BufferTarget::Array, 4);
    assert_eq!(gl.live_buffer_count(), 1);
    buffer.del(&mut gl);
    assert_eq!(gl.live_buffer_count(), 0);
    let last = gl.call_at(gl.call_count() - 1);
    assert!(matches!(last, GlCall::DeleteBuffer { .. }));
}

#[test]
fn draw_mode_codes_match_api() {
    assert_eq!(DrawMode::Points.code(), sgl::gl::POINTS);
    assert_eq!(DrawMode::LineStrip.code(), sgl::gl::LINE_STRIP);
    assert_eq!(DrawMode::LineLoop.code(), sgl::gl::LINE_LOOP);
    assert_eq!(DrawMode::Lines.code(), sgl::gl::LINES);
    assert_eq!(DrawMode::TriangleStrip.code(), sgl::gl::TRIANGLE_STRIP);
    assert_eq!(DrawMode::TriangleFan.code(), sgl::gl::TRIANGLE_FAN);
    assert_eq!(DrawMode::Triangles.code(), sgl::gl::TRIANGLES);
}
