//! Attribute stride and offset layout.

use sgl::attrib::{AsAttrib, Attrib, AttribScalar, AttribShape, Attribs};
use sgl::gl::{Context, GlCall};

fn shape(scalar: AttribScalar, count: u32) -> AttribShape {
    AttribShape { scalar, count }
}

#[test]
fn scalar_widths() {
    assert_eq!(AttribScalar::Float.width(), 4);
    assert_eq!(AttribScalar::Byte.width(), 1);
    assert_eq!(AttribScalar::UnsignedByte.width(), 1);
    assert_eq!(AttribScalar::Short.width(), 2);
    assert_eq!(AttribScalar::UnsignedShort.width(), 2);
}

#[test]
fn scalar_codes_match_api() {
    assert_eq!(AttribScalar::Float.code(), sgl::gl::FLOAT);
    assert_eq!(AttribScalar::Byte.code(), sgl::gl::BYTE);
    assert_eq!(AttribScalar::UnsignedByte.code(), sgl::gl::UNSIGNED_BYTE);
    assert_eq!(AttribScalar::Short.code(), sgl::gl::SHORT);
    assert_eq!(AttribScalar::UnsignedShort.code(), sgl::gl::UNSIGNED_SHORT);
}

#[test]
fn as_attrib_shapes() {
    assert_eq!(i8::attrib_shape(), shape(AttribScalar::Byte, 1));
    assert_eq!(u8::attrib_shape(), shape(AttribScalar::UnsignedByte, 1));
    assert_eq!(i16::attrib_shape(), shape(AttribScalar::Short, 1));
    assert_eq!(u16::attrib_shape(), shape(AttribScalar::UnsignedShort, 1));
}

#[test]
fn stride_is_sum_of_widths() {
    let attribs = Attribs::new(vec![
        Attrib::new(Some(0), shape(AttribScalar::Float, 2)),
        Attrib::new(Some(1), shape(AttribScalar::UnsignedByte, 4)),
        Attrib::new(Some(2), shape(AttribScalar::Short, 2)),
    ]);
    assert_eq!(attribs.stride(), 8 + 4 + 4);
}

#[test]
fn offsets_increase_in_declaration_order() {
    let attribs = Attribs::new(vec![
        Attrib::new(Some(0), shape(AttribScalar::Float, 2)),
        Attrib::new(Some(1), shape(AttribScalar::UnsignedByte, 4)),
        Attrib::new(Some(2), shape(AttribScalar::Short, 2)),
    ]);
    let mut gl = Context::new();
    attribs.enable_attribs(&mut gl);
    // Three enables, then three pointer setups.
    assert_eq!(gl.call_count(), 6);
    for i in 0..3u32 {
        assert_eq!(
            gl.call_at(i as usize),
            GlCall::EnableVertexAttribArray { location: i }
        );
    }
    assert_eq!(
        gl.call_at(3),
        GlCall::VertexAttribPointerF32 {
            location: 0,
            size: 2,
            type_code: sgl::gl::FLOAT,
            normalized: false,
            stride: 16,
            offset: 0,
        }
    );
    assert_eq!(
        gl.call_at(4),
        GlCall::VertexAttribPointerI32 {
            location: 1,
            size: 4,
            type_code: sgl::gl::UNSIGNED_BYTE,
            stride: 16,
            offset: 8,
        }
    );
    assert_eq!(
        gl.call_at(5),
        GlCall::VertexAttribPointerI32 {
            location: 2,
            size: 2,
            type_code: sgl::gl::SHORT,
            stride: 16,
            offset: 12,
        }
    );
}

#[test]
fn unresolved_attrib_is_inert() {
    let attribs = Attribs::new(vec![Attrib::new(None, shape(AttribScalar::Float, 3))]);
    let mut gl = Context::new();
    attribs.enable_attribs(&mut gl);
    attribs.disable_attribs(&mut gl);
    assert_eq!(gl.call_count(), 0);
}

#[test]
fn disable_mirrors_enable() {
    let attribs = Attribs::new(vec![
        Attrib::new(Some(4), shape(AttribScalar::Float, 1)),
        Attrib::new(Some(7), shape(AttribScalar::UnsignedShort, 3)),
    ]);
    let mut gl = Context::new();
    attribs.disable_attribs(&mut gl);
    assert_eq!(gl.call_count(), 2);
    assert_eq!(gl.call_at(0), GlCall::DisableVertexAttribArray { location: 4 });
    assert_eq!(gl.call_at(1), GlCall::DisableVertexAttribArray { location: 7 });
}
