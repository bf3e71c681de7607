//! Texture formats, size validation, and the mipmap/clamp branch.

use sgl::gl::{Context, GlCall};
use sgl::texture::{
    IsPow2, TexSize, Texture, TextureFormat, TextureTarget, Textures,
};
use sgl::uniform::Uniform;

fn size2(width: u32, height: u32) -> TexSize {
    TexSize { width, height, depth: 1 }
}

#[test]
fn pixel_sizes_per_format() {
    assert_eq!(TextureFormat::Rgb888.pixel_size(), 3);
    assert_eq!(TextureFormat::Rgba8888.pixel_size(), 4);
    assert_eq!(TextureFormat::L8.pixel_size(), 1);
    assert_eq!(TextureFormat::A8.pixel_size(), 1);
    assert_eq!(TextureFormat::La88.pixel_size(), 2);
    assert_eq!(TextureFormat::Rgb565.pixel_size(), 2);
    assert_eq!(TextureFormat::Rgba4444.pixel_size(), 2);
    assert_eq!(TextureFormat::Rgba5551.pixel_size(), 2);
}

#[test]
fn format_codes_match_api() {
    assert_eq!(TextureFormat::Rgb888.format_code(), sgl::gl::RGB);
    assert_eq!(TextureFormat::Rgba8888.format_code(), sgl::gl::RGBA);
    assert_eq!(TextureFormat::L8.format_code(), sgl::gl::LUMINANCE);
    assert_eq!(TextureFormat::A8.format_code(), sgl::gl::ALPHA);
    assert_eq!(TextureFormat::La88.format_code(), sgl::gl::LUMINANCE_ALPHA);
    assert_eq!(TextureFormat::Rgb565.type_code(), sgl::gl::UNSIGNED_SHORT_5_6_5);
    assert_eq!(TextureFormat::Rgba4444.type_code(), sgl::gl::UNSIGNED_SHORT_4_4_4_4);
    assert_eq!(TextureFormat::Rgba5551.type_code(), sgl::gl::UNSIGNED_SHORT_5_5_5_1);
    assert_eq!(TextureFormat::L8.type_code(), sgl::gl::UNSIGNED_BYTE);
}

#[test]
fn power_of_two_test_matches_mathematics() {
    assert!(!0u32.is_pow2());
    assert!(1u32.is_pow2());
    assert!(2u32.is_pow2());
    assert!(!3u32.is_pow2());
    assert!(64u32.is_pow2());
    assert!(!96u32.is_pow2());
    assert!(0x8000_0000u32.is_pow2());
    assert!(size2(4, 64).is_pow2());
    assert!(!size2(4, 63).is_pow2());
    assert!(TexSize { width: 8, height: 8, depth: 2 }.is_pow2());
    assert!(!TexSize { width: 8, height: 8, depth: 3 }.is_pow2());
}

#[test]
fn data_byte_counts() {
    assert_eq!(
        sgl::texture::data_bytes(size2(8, 2), TextureFormat::Rgb565),
        8 * 2 * 2
    );
    assert_eq!(
        sgl::texture::data_bytes(
            TexSize { width: 4, height: 2, depth: 2 },
            TextureFormat::Rgba8888
        ),
        4 * 2 * 2 * 4
    );
    assert_eq!(
        sgl::texture::data_bytes(size2(0xFFFF_FFFF, 0xFFFF_FFFF), TextureFormat::Rgba8888),
        0xFFFF_FFFFu128 * 0xFFFF_FFFFu128 * 4
    );
}

#[test]
fn pow2_load_generates_mipmaps_only() {
    let mut gl = Context::new();
    let texture = Texture::new(&mut gl, TextureTarget::Texture2D, TextureFormat::Rgba8888);
    let data = vec![0u8; 4 * 4 * 4];
    texture.load(&mut gl, size2(4, 4), &data);
    let mut mipmaps = 0;
    let mut parameters = 0;
    for i in 0..gl.call_count() {
        match gl.call_at(i) {
            GlCall::GenerateMipmap { target_code } => {
                assert_eq!(target_code, sgl::gl::TEXTURE_2D);
                mipmaps += 1;
            }
            GlCall::TexParameter { .. } => parameters += 1,
            _ => {}
        }
    }
    assert_eq!(mipmaps, 1);
    assert_eq!(parameters, 0);
}

#[test]
fn non_pow2_load_clamps_and_filters_only() {
    let mut gl = Context::new();
    let texture = Texture::new(&mut gl, TextureTarget::Texture2D, TextureFormat::L8);
    let data = vec![0u8; 3 * 5];
    texture.load(&mut gl, size2(3, 5), &data);
    let mut mipmaps = 0;
    let mut parameters = Vec::new();
    for i in 0..gl.call_count() {
        match gl.call_at(i) {
            GlCall::GenerateMipmap { .. } => mipmaps += 1,
            GlCall::TexParameter { target_code, parameter_code, value } => {
                assert_eq!(target_code, sgl::gl::TEXTURE_2D);
                parameters.push((parameter_code, value));
            }
            _ => {}
        }
    }
    assert_eq!(mipmaps, 0);
    assert_eq!(
        parameters,
        vec![
            (sgl::gl::TEXTURE_WRAP_S, sgl::gl::CLAMP_TO_EDGE),
            (sgl::gl::TEXTURE_WRAP_T, sgl::gl::CLAMP_TO_EDGE),
            (sgl::gl::TEXTURE_MIN_FILTER, sgl::gl::LINEAR),
        ]
    );
}

#[test]
fn load_carries_exact_byte_count() {
    let mut gl = Context::new();
    let texture = Texture::new(&mut gl, TextureTarget::Texture2D, TextureFormat::Rgb565);
    let data = vec![0u8; 8 * 2 * 2];
    texture.load(&mut gl, size2(8, 2), &data);
    let mut seen = false;
    for i in 0..gl.call_count() {
        if let GlCall::TexImage2D { width, height, format_code, type_code, has_data, data_len, .. } =
            gl.call_at(i)
        {
            assert_eq!((width, height), (8, 2));
            assert_eq!(format_code, sgl::gl::RGB);
            assert_eq!(type_code, sgl::gl::UNSIGNED_SHORT_5_6_5);
            assert!(has_data);
            assert_eq!(data_len, 32);
            seen = true;
        }
    }
    assert!(seen);
}

#[test]
fn init_allocates_without_data() {
    let mut gl = Context::new();
    let texture = Texture::new(&mut gl, TextureTarget::Texture2D, TextureFormat::Rgba8888);
    texture.init(&mut gl, size2(16, 16));
    assert_eq!(gl.call_count(), 4);
    if let GlCall::TexImage2D { has_data, data_len, width, height, .. } = gl.call_at(2) {
        assert!(!has_data);
        assert_eq!(data_len, 0);
        assert_eq!((width, height), (16, 16));
    } else {
        panic!("expected an image upload");
    }
}

#[test]
fn three_dimensional_load_counts_depth() {
    let mut gl = Context::new();
    let texture = Texture::new(&mut gl, TextureTarget::Texture3D, TextureFormat::L8);
    let size = TexSize { width: 4, height: 2, depth: 2 };
    let data = vec![0u8; 4 * 2 * 2];
    texture.load(&mut gl, size, &data);
    let mut seen = false;
    for i in 0..gl.call_count() {
        if let GlCall::TexImage3D { width, height, depth, data_len, .. } = gl.call_at(i) {
            assert_eq!((width, height, depth), (4, 2, 2));
            assert_eq!(data_len, 16);
            seen = true;
        }
    }
    assert!(seen);
}

#[test]
fn texture_delete_retires_the_handle() {
    let mut gl = Context::new();
    let texture = Texture::new(&mut gl, TextureTarget::Texture2D, TextureFormat::A8);
    assert_eq!(gl.live_texture_count(), 1);
    texture.del(&mut gl);
    assert_eq!(gl.live_texture_count(), 0);
}

#[test]
fn texture_units_enable_in_order() {
    let mut gl = Context::new();
    let first = Texture::new(&mut gl, TextureTarget::Texture2D, TextureFormat::Rgba8888);
    let second = Texture::new(&mut gl, TextureTarget::Texture2D, TextureFormat::L8);
    let set = Textures::new(vec![
        (first, Uniform::new(Some(3))),
        (second, Uniform::new(Some(4))),
    ]);
    let before = gl.call_count();
    set.enable(&mut gl);
    assert_eq!(gl.call_count(), before + 6);
    assert_eq!(
        gl.call_at(before),
        GlCall::ActiveTexture { unit_code: sgl::gl::TEXTURE0 }
    );
    assert_eq!(
        gl.call_at(before + 2),
        GlCall::Uniform1I32 { location: 3, x: sgl::gl::TEXTURE0 as i32 }
    );
    assert_eq!(
        gl.call_at(before + 3),
        GlCall::ActiveTexture { unit_code: sgl::gl::TEXTURE0 + 1 }
    );
    assert_eq!(
        gl.call_at(before + 5),
        GlCall::Uniform1I32 { location: 4, x: (sgl::gl::TEXTURE0 + 1) as i32 }
    );
}
