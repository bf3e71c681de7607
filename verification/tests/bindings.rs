//! The typed value-to-call bindings: uniform shapes, element types, and
//! suitable-buffer creation.

use sgl::attrib::{Attrib, AttribScalar, AttribShape, Attribs};
use sgl::buffer::AsElement;
use sgl::gl::{Context, GlCall};
use sgl::texture::{TexOffset, TexSize, TextureFormat, TextureTarget};
use sgl::uniform::{AsUniform, Direct, Transposed, Uniform, UniformValue};

#[test]
fn element_types_map_to_api_codes() {
    assert_eq!(<u8 as AsElement>::element_code(), sgl::gl::UNSIGNED_BYTE);
    assert_eq!(<u16 as AsElement>::element_code(), sgl::gl::UNSIGNED_SHORT);
    assert_eq!(<u32 as AsElement>::element_code(), sgl::gl::UNSIGNED_INT);
    assert_eq!(<u8 as AsElement>::element_size(), 1);
    assert_eq!(<u16 as AsElement>::element_size(), 2);
    assert_eq!(<u32 as AsElement>::element_size(), 4);
}

#[test]
fn int_uniform_value() {
    assert_eq!(7i32.as_uniform(), UniformValue::Int(7));
}

#[test]
fn matrix_layout_markers() {
    assert_eq!(Direct(3).as_uniform(), UniformValue::Matrix(3, false));
    assert_eq!(Transposed(4).as_uniform(), UniformValue::Matrix(4, true));
    let mut gl = Context::new();
    let uniform = Uniform::new(Some(9));
    uniform.load(&mut gl, Transposed(2).as_uniform());
    assert_eq!(
        gl.call_at(0),
        GlCall::UniformMatrixF32 { location: 9, dim: 2, transpose: true }
    );
}

#[test]
fn suitable_buffer_takes_the_stride_as_element_width() {
    let attribs = Attribs::new(vec![
        Attrib::new(Some(0), AttribShape { scalar: AttribScalar::Float, count: 4 }),
        Attrib::new(Some(1), AttribShape { scalar: AttribScalar::UnsignedByte, count: 4 }),
    ]);
    let mut gl = Context::new();
    let mut buffer = attribs.buffer(&mut gl);
    // One vertex is 16 + 4 bytes wide.
    let data = vec![0u8; 2 * 20];
    buffer.load(&mut gl, &data);
    assert_eq!(buffer.length(), 2);
}

#[test]
fn sub_image_update_carries_region_and_offset() {
    let mut gl = Context::new();
    TextureTarget::Texture2D.load_sub_image(
        &mut gl,
        TextureFormat::Rgba8888,
        0,
        TexOffset { x: 2, y: 3, z: 0 },
        TexSize { width: 4, height: 1, depth: 1 },
        Some(&[0u8; 16]),
    );
    assert_eq!(gl.call_count(), 1);
    if let GlCall::TexSubImage2D { x, y, width, height, has_data, data_len, .. } = gl.call_at(0) {
        assert_eq!((x, y), (2, 3));
        assert_eq!((width, height), (4, 1));
        assert!(has_data);
        assert_eq!(data_len, 16);
    } else {
        panic!("expected a sub-image update");
    }
}

#[test]
fn three_dimensional_sub_image_update() {
    let mut gl = Context::new();
    TextureTarget::Texture3D.load_sub_image(
        &mut gl,
        TextureFormat::L8,
        1,
        TexOffset { x: 0, y: 1, z: 2 },
        TexSize { width: 2, height: 2, depth: 2 },
        Some(&[0u8; 8]),
    );
    if let GlCall::TexSubImage3D { level, z, depth, data_len, .. } = gl.call_at(0) {
        assert_eq!(level, 1);
        assert_eq!(z, 2);
        assert_eq!(depth, 2);
        assert_eq!(data_len, 8);
    } else {
        panic!("expected a three-dimensional sub-image update");
    }
}

#[test]
fn pointer_setup_is_explicit_per_slot() {
    let mut gl = Context::new();
    let attrib = Attrib::new(Some(3), AttribShape { scalar: AttribScalar::Short, count: 2 });
    attrib.pointer(&mut gl, 12, 20);
    assert_eq!(
        gl.call_at(0),
        GlCall::VertexAttribPointerI32 {
            location: 3,
            size: 2,
            type_code: sgl::gl::SHORT,
            stride: 20,
            offset: 12,
        }
    );
}
