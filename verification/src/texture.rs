//! Texture lifecycle.
//!
//! A [`Texture`] owns one API-side image of a declared target and pixel
//! format.  Loading validates that the supplied data holds exactly
//! `width * height [* depth]` pixels of the format's byte width — a
//! mismatch is a precondition violation, never a call issued — and then
//! either generates the full mipmap chain, when every dimension is a
//! power of two, or sets clamp-to-edge wrapping with linear filtering,
//! since the targeted API profile cannot mipmap other sizes.

use vstd::prelude::*;
use crate::gl::{Context, GlCall};
use crate::uniform::{Uniform, UniformValue};

verus! {

broadcast use vstd::seq_lib::group_seq_properties;

/// The image category of a texture.
#[derive(Clone, Copy, PartialEq, Eq, Debug)]
pub enum TextureTarget {
    Texture2D,
    Texture3D,
}

impl TextureTarget {
    /// The API's code for this target.
    pub open spec fn spec_code(self) -> u32 {
        match self {
            TextureTarget::Texture2D => crate::gl::TEXTURE_2D,
            TextureTarget::Texture3D => crate::gl::TEXTURE_3D,
        }
    }

    /// The API's code for this target.
    pub fn code(self) -> (c: u32)
        ensures
            c == self.spec_code(),
    {
        match self {
            TextureTarget::Texture2D => crate::gl::TEXTURE_2D,
            TextureTarget::Texture3D => crate::gl::TEXTURE_3D,
        }
    }
}

/// The pixel formats the layer supports, with their packed byte layouts.
#[derive(Clone, Copy, PartialEq, Eq, Debug)]
pub enum TextureFormat {
    /// Three bytes: red, green, blue.
    Rgb888,
    /// Four bytes: red, green, blue, alpha.
    Rgba8888,
    /// One luminance byte.
    L8,
    /// One alpha byte.
    A8,
    /// Two bytes: luminance, alpha.
    La88,
    /// One 16-bit word packing red 5, green 6, blue 5.
    Rgb565,
    /// One 16-bit word packing four 4-bit channels.
    Rgba4444,
    /// One 16-bit word packing red 5, green 5, blue 5, alpha 1.
    Rgba5551,
}

impl TextureFormat {
    /// Bytes per pixel.
    pub open spec fn spec_pixel_size(self) -> u32 {
        match self {
            TextureFormat::Rgb888 => 3,
            TextureFormat::Rgba8888 => 4,
            TextureFormat::L8 => 1,
            TextureFormat::A8 => 1,
            TextureFormat::La88 => 2,
            TextureFormat::Rgb565 => 2,
            TextureFormat::Rgba4444 => 2,
            TextureFormat::Rgba5551 => 2,
        }
    }

    /// The API's channel layout code.
    pub open spec fn spec_format_code(self) -> u32 {
        match self {
            TextureFormat::Rgb888 => crate::gl::RGB,
            TextureFormat::Rgba8888 => crate::gl::RGBA,
            TextureFormat::L8 => crate::gl::LUMINANCE,
            TextureFormat::A8 => crate::gl::ALPHA,
            TextureFormat::La88 => crate::gl::LUMINANCE_ALPHA,
            TextureFormat::Rgb565 => crate::gl::RGB,
            TextureFormat::Rgba4444 => crate::gl::RGBA,
            TextureFormat::Rgba5551 => crate::gl::RGBA,
        }
    }

    /// The API's component type code.
    pub open spec fn spec_type_code(self) -> u32 {
        match self {
            TextureFormat::Rgb888 => crate::gl::UNSIGNED_BYTE,
            TextureFormat::Rgba8888 => crate::gl::UNSIGNED_BYTE,
            TextureFormat::L8 => crate::gl::UNSIGNED_BYTE,
            TextureFormat::A8 => crate::gl::UNSIGNED_BYTE,
            TextureFormat::La88 => crate::gl::UNSIGNED_BYTE,
            TextureFormat::Rgb565 => crate::gl::UNSIGNED_SHORT_5_6_5,
            TextureFormat::Rgba4444 => crate::gl::UNSIGNED_SHORT_4_4_4_4,
            TextureFormat::Rgba5551 => crate::gl::UNSIGNED_SHORT_5_5_5_1,
        }
    }

    /// Bytes per pixel.
    pub fn pixel_size(self) -> (s: u32)
        ensures
            s == self.spec_pixel_size(),
            1 <= s <= 4,
    {
        match self {
            TextureFormat::Rgb888 => 3,
            TextureFormat::Rgba8888 => 4,
            TextureFormat::L8 => 1,
            TextureFormat::A8 => 1,
            TextureFormat::La88 => 2,
            TextureFormat::Rgb565 => 2,
            TextureFormat::Rgba4444 => 2,
            TextureFormat::Rgba5551 => 2,
        }
    }

    /// The API's channel layout code.
    pub fn format_code(self) -> (c: u32)
        ensures
            c == self.spec_format_code(),
    {
        match self {
            TextureFormat::Rgb888 => crate::gl::RGB,
            TextureFormat::Rgba8888 => crate::gl::RGBA,
            TextureFormat::L8 => crate::gl::LUMINANCE,
            TextureFormat::A8 => crate::gl::ALPHA,
            TextureFormat::La88 => crate::gl::LUMINANCE_ALPHA,
            TextureFormat::Rgb565 => crate::gl::RGB,
            TextureFormat::Rgba4444 => crate::gl::RGBA,
            TextureFormat::Rgba5551 => crate::gl::RGBA,
        }
    }

    /// The API's component type code.
    pub fn type_code(self) -> (c: u32)
        ensures
            c == self.spec_type_code(),
    {
        match self {
            TextureFormat::Rgb888 => crate::gl::UNSIGNED_BYTE,
            TextureFormat::Rgba8888 => crate::gl::UNSIGNED_BYTE,
            TextureFormat::L8 => crate::gl::UNSIGNED_BYTE,
            TextureFormat::A8 => crate::gl::UNSIGNED_BYTE,
            TextureFormat::La88 => crate::gl::UNSIGNED_BYTE,
            TextureFormat::Rgb565 => crate::gl::UNSIGNED_SHORT_5_6_5,
            TextureFormat::Rgba4444 => crate::gl::UNSIGNED_SHORT_4_4_4_4,
            TextureFormat::Rgba5551 => crate::gl::UNSIGNED_SHORT_5_5_5_1,
        }
    }
}

/// The extent of a texture image.  Two-dimensional targets use a depth of
/// one.
#[derive(Clone, Copy, PartialEq, Eq, Debug)]
pub struct TexSize {
    pub width: u32,
    pub height: u32,
    pub depth: u32,
}

/// The origin of a sub-image update.  Two-dimensional targets use a `z`
/// of zero.
#[derive(Clone, Copy, PartialEq, Eq, Debug)]
pub struct TexOffset {
    pub x: u32,
    pub y: u32,
    pub z: u32,
}

/// The byte count an image of this size and format occupies:
/// `width * height * depth` pixels of the format's width.
pub open spec fn spec_data_bytes(size: TexSize, format: TextureFormat) -> int {
    size.width * size.height * size.depth * format.spec_pixel_size()
}

/// The byte count an image of this size and format occupies, computed
/// wide enough that no extent can overflow it.
pub fn data_bytes(size: TexSize, format: TextureFormat) -> (n: u128)
    ensures
        n == spec_data_bytes(size, format),
{
    let w = size.width as u128;
    let h = size.height as u128;
    let d = size.depth as u128;
    let p = format.pixel_size() as u128;
    proof {
        assert(w * h < 0x1_0000_0000_0000_0000 && w * h * d < 0x1_0000_0000_0000_0000_0000_0000
            && w * h * d * p < 0x4_0000_0000_0000_0000_0000_0000) by (nonlinear_arith)
            requires
                w < 0x1_0000_0000,
                h < 0x1_0000_0000,
                d < 0x1_0000_0000,
                p <= 4,
        ;
    }
    w * h * d * p
}

/// Values that can be tested for being a power of two.
pub trait IsPow2 {
    /// The value is a power of two (in every dimension, for an extent).
    spec fn spec_is_pow2(self) -> bool;

    /// The value is a power of two (in every dimension, for an extent).
    fn is_pow2(&self) -> (r: bool)
        ensures
            r == self.spec_is_pow2(),
    ;
}

impl IsPow2 for u32 {
    open spec fn spec_is_pow2(self) -> bool {
        vstd::arithmetic::power2::is_pow2(self as int)
    }

    fn is_pow2(&self) -> (r: bool) {
        let n = *self;
        if n == 0 {
            proof {
                reveal(vstd::arithmetic::power2::is_pow2);
            }
            false
        } else {
            let m = n - 1;
            proof {
                lemma_pow2_bit_trick(n, m);
            }
            (n & m) == 0
        }
    }
}

impl IsPow2 for TexSize {
    open spec fn spec_is_pow2(self) -> bool {
        &&& self.width.spec_is_pow2()
        &&& self.height.spec_is_pow2()
        &&& self.depth.spec_is_pow2()
    }

    fn is_pow2(&self) -> (r: bool) {
        self.width.is_pow2() && self.height.is_pow2() && self.depth.is_pow2()
    }
}

/// A positive value is a power of two exactly when clearing its lowest
/// set bit leaves nothing: the classical and-with-predecessor test.
proof fn lemma_pow2_bit_trick(n: u32, m: u32)
    requires
        1 <= n,
        m == n - 1,
    ensures
        ((n & m) == 0) <==> vstd::arithmetic::power2::is_pow2(n as int),
    decreases n,
{
    reveal(vstd::arithmetic::power2::is_pow2);
    if n == 1 {
        assert((n & m) == 0) by (bit_vector)
            requires
                n == 1 && m == 0,
        ;
        assert(vstd::arithmetic::power2::is_pow2(1));
    } else if n % 2 == 1 {
        assert((n & m) != 0) by (bit_vector)
            requires
                n % 2 == 1 && n > 1 && m == n - 1,
        ;
        assert(!vstd::arithmetic::power2::is_pow2(n as int));
    } else {
        let h: u32 = (n / 2) as u32;
        let hm: u32 = (h - 1) as u32;
        lemma_pow2_bit_trick(h, hm);
        assert(((n & m) == 0) <==> ((h & hm) == 0)) by (bit_vector)
            requires
                n % 2 == 0 && n >= 2 && m == n - 1 && h == n / 2 && hm == h - 1,
        ;
        assert(h as int == n as int / 2);
    }
}

impl TextureTarget {
    /// The calls a whole-image load at `level` issues: one image upload
    /// carrying the size, the format's layout, and the data length.
    pub open spec fn image_calls(
        self,
        format: TextureFormat,
        level: u32,
        size: TexSize,
        data_len: Option<u32>,
    ) -> Seq<GlCall> {
        match self {
            TextureTarget::Texture2D => seq![
                GlCall::TexImage2D {
                    level,
                    internal_format_code: format.spec_format_code(),
                    width: size.width,
                    height: size.height,
                    format_code: format.spec_format_code(),
                    type_code: format.spec_type_code(),
                    has_data: data_len is Some,
                    data_len: if data_len is Some {
                        data_len.unwrap()
                    } else {
                        0
                    },
                },
            ],
            TextureTarget::Texture3D => seq![
                GlCall::TexImage3D {
                    level,
                    internal_format_code: format.spec_format_code(),
                    width: size.width,
                    height: size.height,
                    depth: size.depth,
                    format_code: format.spec_format_code(),
                    type_code: format.spec_type_code(),
                    has_data: data_len is Some,
                    data_len: if data_len is Some {
                        data_len.unwrap()
                    } else {
                        0
                    },
                },
            ],
        }
    }

    /// The calls a sub-image update at `level` issues.
    pub open spec fn sub_image_calls(
        self,
        format: TextureFormat,
        level: u32,
        off: TexOffset,
        size: TexSize,
        data_len: Option<u32>,
    ) -> Seq<GlCall> {
        match self {
            TextureTarget::Texture2D => seq![
                GlCall::TexSubImage2D {
                    level,
                    x: off.x,
                    y: off.y,
                    width: size.width,
                    height: size.height,
                    format_code: format.spec_format_code(),
                    type_code: format.spec_type_code(),
                    has_data: data_len is Some,
                    data_len: if data_len is Some {
                        data_len.unwrap()
                    } else {
                        0
                    },
                },
            ],
            TextureTarget::Texture3D => seq![
                GlCall::TexSubImage3D {
                    level,
                    x: off.x,
                    y: off.y,
                    z: off.z,
                    width: size.width,
                    height: size.height,
                    depth: size.depth,
                    format_code: format.spec_format_code(),
                    type_code: format.spec_type_code(),
                    has_data: data_len is Some,
                    data_len: if data_len is Some {
                        data_len.unwrap()
                    } else {
                        0
                    },
                },
            ],
        }
    }

    /// Uploads a whole image at `level` to the currently bound texture.
    /// Supplied data must hold exactly the size's pixel count in the
    /// format's byte width.
    pub fn load_image(
        self,
        gl: &mut Context,
        format: TextureFormat,
        level: u32,
        size: TexSize,
        data: Option<&[u8]>,
    )
        requires
            old(gl).wf(),
            self is Texture2D ==> size.depth == 1,
            data is Some ==> data.unwrap()@.len() == spec_data_bytes(size, format),
            data is Some ==> data.unwrap()@.len() <= u32::MAX,
        ensures
            final(gl).wf(),
            final(gl).log() == old(gl).log() + self.image_calls(
                format,
                level,
                size,
                match data {
                    Option::Some(d) => Option::Some(d@.len() as u32),
                    Option::None => Option::None,
                },
            ),
            final(gl).same_handles(*old(gl)),
    {
        let (has_data, data_len) = match data {
            Option::Some(d) => (true, d.len() as u32),
            Option::None => (false, 0u32),
        };
        let call = match self {
            TextureTarget::Texture2D => GlCall::TexImage2D {
                level,
                internal_format_code: format.format_code(),
                width: size.width,
                height: size.height,
                format_code: format.format_code(),
                type_code: format.type_code(),
                has_data,
                data_len,
            },
            TextureTarget::Texture3D => GlCall::TexImage3D {
                level,
                internal_format_code: format.format_code(),
                width: size.width,
                height: size.height,
                depth: size.depth,
                format_code: format.format_code(),
                type_code: format.type_code(),
                has_data,
                data_len,
            },
        };
        gl.emit(call);
        proof {
            assert(final(gl).log() =~= old(gl).log() + self.image_calls(
                format,
                level,
                size,
                match data {
                    Option::Some(d) => Option::Some(d@.len() as u32),
                    Option::None => Option::None,
                },
            ));
        }
    }

    /// Updates a sub-region at `level` of the currently bound texture.
    /// Supplied data must hold exactly the region's pixel count in the
    /// format's byte width.
    pub fn load_sub_image(
        self,
        gl: &mut Context,
        format: TextureFormat,
        level: u32,
        off: TexOffset,
        size: TexSize,
        data: Option<&[u8]>,
    )
        requires
            old(gl).wf(),
            self is Texture2D ==> size.depth == 1 && off.z == 0,
            data is Some ==> data.unwrap()@.len() == spec_data_bytes(size, format),
            data is Some ==> data.unwrap()@.len() <= u32::MAX,
        ensures
            final(gl).wf(),
            final(gl).log() == old(gl).log() + self.sub_image_calls(
                format,
                level,
                off,
                size,
                match data {
                    Option::Some(d) => Option::Some(d@.len() as u32),
                    Option::None => Option::None,
                },
            ),
            final(gl).same_handles(*old(gl)),
    {
        let (has_data, data_len) = match data {
            Option::Some(d) => (true, d.len() as u32),
            Option::None => (false, 0u32),
        };
        let call = match self {
            TextureTarget::Texture2D => GlCall::TexSubImage2D {
                level,
                x: off.x,
                y: off.y,
                width: size.width,
                height: size.height,
                format_code: format.format_code(),
                type_code: format.type_code(),
                has_data,
                data_len,
            },
            TextureTarget::Texture3D => GlCall::TexSubImage3D {
                level,
                x: off.x,
                y: off.y,
                z: off.z,
                width: size.width,
                height: size.height,
                depth: size.depth,
                format_code: format.format_code(),
                type_code: format.type_code(),
                has_data,
                data_len,
            },
        };
        gl.emit(call);
        proof {
            assert(final(gl).log() =~= old(gl).log() + self.sub_image_calls(
                format,
                level,
                off,
                size,
                match data {
                    Option::Some(d) => Option::Some(d@.len() as u32),
                    Option::None => Option::None,
                },
            ));
        }
    }
}

/// One API-side texture image of a declared target and pixel format.
#[derive(Debug)]
pub struct Texture {
    handle: u64,
    target: TextureTarget,
    format: TextureFormat,
}

impl Texture {
    /// The model handle of the image.
    pub closed spec fn spec_handle(self) -> u64 {
        self.handle
    }

    /// The image category declared at creation.
    pub closed spec fn spec_target(self) -> TextureTarget {
        self.target
    }

    /// The pixel format declared at creation.
    pub closed spec fn spec_format(self) -> TextureFormat {
        self.format
    }

    /// The texture is usable against `gl`: its handle is alive.
    pub open spec fn valid(self, gl: Context) -> bool {
        gl.live_textures().contains(self.spec_handle())
    }

    /// Creates a texture for the given target and format.
    pub fn new(gl: &mut Context, target: TextureTarget, format: TextureFormat) -> (t: Texture)
        requires
            old(gl).wf(),
        ensures
            final(gl).wf(),
            t.valid(*final(gl)),
            t.spec_target() == target,
            t.spec_format() == format,
            !old(gl).live_textures().contains(t.spec_handle()),
            final(gl).live_textures() == old(gl).live_textures().insert(t.spec_handle()),
            final(gl).live_buffers() == old(gl).live_buffers(),
            final(gl).live_shaders() == old(gl).live_shaders(),
            final(gl).live_programs() == old(gl).live_programs(),
            final(gl).log() == old(gl).log().push(GlCall::CreateTexture { texture: t.spec_handle() }),
    {
        let handle = gl.create_texture();
        Texture { handle, target, format }
    }

    /// Deletes the texture; the image is gone and the handle retired.
    pub fn del(self, gl: &mut Context)
        requires
            old(gl).wf(),
            self.valid(*old(gl)),
        ensures
            final(gl).wf(),
            final(gl).live_textures() == old(gl).live_textures().remove(self.spec_handle()),
            final(gl).live_buffers() == old(gl).live_buffers(),
            final(gl).live_shaders() == old(gl).live_shaders(),
            final(gl).live_programs() == old(gl).live_programs(),
            final(gl).log() == old(gl).log().push(GlCall::DeleteTexture { texture: self.spec_handle() }),
    {
        gl.delete_texture(self.handle);
    }

    /// The bind call for this texture.
    pub open spec fn bind_call(self) -> GlCall {
        GlCall::BindTexture {
            target_code: self.spec_target().spec_code(),
            texture: self.spec_handle(),
        }
    }

    /// The unbind call for this texture's target.
    pub open spec fn unbind_call(self) -> GlCall {
        GlCall::BindTexture { target_code: self.spec_target().spec_code(), texture: 0 }
    }

    /// Binds the texture to its target.
    pub(crate) fn bind_texture(&self, gl: &mut Context)
        requires
            old(gl).wf(),
        ensures
            final(gl).wf(),
            final(gl).log() == old(gl).log().push(self.bind_call()),
            final(gl).same_handles(*old(gl)),
    {
        gl.emit(
            GlCall::BindTexture { target_code: self.target.code(), texture: self.handle },
        );
    }

    /// Unbinds the texture's target.
    pub(crate) fn unbind_texture(&self, gl: &mut Context)
        requires
            old(gl).wf(),
        ensures
            final(gl).wf(),
            final(gl).log() == old(gl).log().push(self.unbind_call()),
            final(gl).same_handles(*old(gl)),
    {
        gl.emit(GlCall::BindTexture { target_code: self.target.code(), texture: 0 });
    }

    /// The calls an initialization to `size` issues.
    pub open spec fn init_calls(self, size: TexSize) -> Seq<GlCall> {
        seq![self.bind_call()] + self.spec_target().image_calls(
            self.spec_format(),
            0,
            size,
            Option::None,
        ) + seq![self.unbind_call()]
    }

    /// Allocates an empty image of `size` at the base mip level.
    pub fn init(&self, gl: &mut Context, size: TexSize)
        requires
            old(gl).wf(),
            self.valid(*old(gl)),
            self.spec_target() is Texture2D ==> size.depth == 1,
        ensures
            final(gl).wf(),
            final(gl).log() == old(gl).log() + self.init_calls(size),
            final(gl).same_handles(*old(gl)),
    {
        self.bind_texture(gl);
        self.target.load_image(gl, self.format, 0, size, Option::None);
        self.unbind_texture(gl);
        proof {
            assert(final(gl).log() =~= old(gl).log() + self.init_calls(size));
        }
    }

    /// The calls that follow a load: the full mipmap chain for
    /// power-of-two sizes, clamp-to-edge wrapping with the linear filter
    /// for every other size.
    pub open spec fn filter_calls(self, size: TexSize) -> Seq<GlCall> {
        if size.spec_is_pow2() {
            seq![GlCall::GenerateMipmap { target_code: self.spec_target().spec_code() }]
        } else {
            seq![
                GlCall::TexParameter {
                    target_code: self.spec_target().spec_code(),
                    parameter_code: crate::gl::TEXTURE_WRAP_S,
                    value: crate::gl::CLAMP_TO_EDGE,
                },
                GlCall::TexParameter {
                    target_code: self.spec_target().spec_code(),
                    parameter_code: crate::gl::TEXTURE_WRAP_T,
                    value: crate::gl::CLAMP_TO_EDGE,
                },
                GlCall::TexParameter {
                    target_code: self.spec_target().spec_code(),
                    parameter_code: crate::gl::TEXTURE_MIN_FILTER,
                    value: crate::gl::LINEAR,
                },
            ]
        }
    }

    /// The calls a load of `size` with `data_len` bytes issues.
    pub open spec fn load_calls(self, size: TexSize, data_len: u32) -> Seq<GlCall> {
        seq![self.bind_call()] + self.spec_target().image_calls(
            self.spec_format(),
            0,
            size,
            Option::Some(data_len),
        ) + self.filter_calls(size) + seq![self.unbind_call()]
    }

    /// Uploads a whole image at the base level.  The data must hold
    /// exactly the size's pixel count in the format's byte width; then
    /// power-of-two sizes get their mipmap chain generated, all others
    /// get clamp-to-edge wrapping and the linear filter.
    pub fn load(&self, gl: &mut Context, size: TexSize, data: &[u8])
        requires
            old(gl).wf(),
            self.valid(*old(gl)),
            self.spec_target() is Texture2D ==> size.depth == 1,
            data@.len() == spec_data_bytes(size, self.spec_format()),
            data@.len() <= u32::MAX,
        ensures
            final(gl).wf(),
            final(gl).log() == old(gl).log() + self.load_calls(size, data@.len() as u32),
            final(gl).same_handles(*old(gl)),
    {
        self.bind_texture(gl);
        self.target.load_image(gl, self.format, 0, size, Option::Some(data));
        if size.is_pow2() {
            gl.emit(GlCall::GenerateMipmap { target_code: self.target.code() });
        } else {
            gl.emit(
                GlCall::TexParameter {
                    target_code: self.target.code(),
                    parameter_code: crate::gl::TEXTURE_WRAP_S,
                    value: crate::gl::CLAMP_TO_EDGE,
                },
            );
            gl.emit(
                GlCall::TexParameter {
                    target_code: self.target.code(),
                    parameter_code: crate::gl::TEXTURE_WRAP_T,
                    value: crate::gl::CLAMP_TO_EDGE,
                },
            );
            gl.emit(
                GlCall::TexParameter {
                    target_code: self.target.code(),
                    parameter_code: crate::gl::TEXTURE_MIN_FILTER,
                    value: crate::gl::LINEAR,
                },
            );
        }
        self.unbind_texture(gl);
        proof {
            assert(final(gl).log() =~= old(gl).log() + self.load_calls(size, data@.len() as u32));
        }
    }
}

/// A load generates the mipmap chain exactly for power-of-two sizes and
/// sets the clamp-to-edge and linear-filter parameters exactly for the
/// others: no size gets both.
pub proof fn lemma_mipmap_exclusive(t: Texture, size: TexSize, data_len: u32)
    ensures
        t.load_calls(size, data_len).contains(
            GlCall::GenerateMipmap { target_code: t.spec_target().spec_code() },
        ) <==> size.spec_is_pow2(),
        (exists|i: int|
            0 <= i < t.load_calls(size, data_len).len() && t.load_calls(size, data_len)[i]
                is TexParameter) <==> !size.spec_is_pow2(),
{
    let calls = t.load_calls(size, data_len);
    let img = t.spec_target().image_calls(t.spec_format(), 0, size, Option::Some(data_len));
    assert(img.len() == 1);
    if size.spec_is_pow2() {
        assert(calls =~= seq![
            t.bind_call(),
            img[0],
            GlCall::GenerateMipmap { target_code: t.spec_target().spec_code() },
            t.unbind_call(),
        ]);
        assert(calls[2] == GlCall::GenerateMipmap { target_code: t.spec_target().spec_code() });
        assert(calls.contains(calls[2]));
        assert forall|i: int| 0 <= i < calls.len() implies !(calls[i] is TexParameter) by {
        }
    } else {
        assert(calls =~= seq![
            t.bind_call(),
            img[0],
            GlCall::TexParameter {
                target_code: t.spec_target().spec_code(),
                parameter_code: crate::gl::TEXTURE_WRAP_S,
                value: crate::gl::CLAMP_TO_EDGE,
            },
            GlCall::TexParameter {
                target_code: t.spec_target().spec_code(),
                parameter_code: crate::gl::TEXTURE_WRAP_T,
                value: crate::gl::CLAMP_TO_EDGE,
            },
            GlCall::TexParameter {
                target_code: t.spec_target().spec_code(),
                parameter_code: crate::gl::TEXTURE_MIN_FILTER,
                value: crate::gl::LINEAR,
            },
            t.unbind_call(),
        ]);
        assert(calls[2] is TexParameter);
        if calls.contains(GlCall::GenerateMipmap { target_code: t.spec_target().spec_code() }) {
            let i = choose|i: int|
                0 <= i < calls.len() && calls[i] == GlCall::GenerateMipmap {
                    target_code: t.spec_target().spec_code(),
                };
            assert(false);
        }
    }
}

/// A set of textures enabled together: unit `k` gets the `k`-th texture
/// bound and the paired sampler uniform loaded with the unit's code.
#[derive(Debug)]
pub struct Textures {
    units: Vec<(Texture, Uniform)>,
}

/// The calls that enabling the first `k` units issues.
pub open spec fn enables_units(units: Seq<(Texture, Uniform)>) -> Seq<GlCall>
    decreases units.len(),
{
    if units.len() == 0 {
        Seq::empty()
    } else {
        enables_units(units.drop_last()) + unit_enable_calls(
            units.last(),
            units.len() - 1,
        )
    }
}

/// The calls that enabling one unit issues.
pub open spec fn unit_enable_calls(unit: (Texture, Uniform), k: int) -> Seq<GlCall> {
    seq![
        GlCall::ActiveTexture { unit_code: (crate::gl::TEXTURE0 + k) as u32 },
        unit.0.bind_call(),
    ] + unit.1.load_calls(UniformValue::Int((crate::gl::TEXTURE0 + k) as i32))
}

/// The calls that disabling one unit issues.
pub open spec fn unit_disable_calls(unit: (Texture, Uniform), k: int) -> Seq<GlCall> {
    seq![
        GlCall::ActiveTexture { unit_code: (crate::gl::TEXTURE0 + k) as u32 },
        unit.0.unbind_call(),
    ]
}

/// The calls that disabling the first `k` units issues.
pub open spec fn disables_units(units: Seq<(Texture, Uniform)>) -> Seq<GlCall>
    decreases units.len(),
{
    if units.len() == 0 {
        Seq::empty()
    } else {
        disables_units(units.drop_last()) + unit_disable_calls(
            units.last(),
            units.len() - 1,
        )
    }
}

impl Textures {
    /// The texture/sampler pairs, in unit order.
    pub closed spec fn list(self) -> Seq<(Texture, Uniform)> {
        self.units@
    }

    /// The API offers a small fixed supply of texture units.
    pub open spec fn wf(self) -> bool {
        self.list().len() <= 16
    }

    /// Every texture of the set is alive against `gl`.
    pub open spec fn valid(self, gl: Context) -> bool {
        forall|i: int| 0 <= i < self.list().len() ==> (#[trigger] self.list()[i]).0.valid(gl)
    }

    /// Builds the set.
    pub fn new(units: Vec<(Texture, Uniform)>) -> (r: Textures)
        requires
            units@.len() <= 16,
        ensures
            r.wf(),
            r.list() == units@,
    {
        Textures { units }
    }

    /// Activates each unit in order: binds its texture and points its
    /// sampler uniform at the unit.
    pub fn enable(&self, gl: &mut Context)
        requires
            old(gl).wf(),
            self.wf(),
        ensures
            final(gl).wf(),
            final(gl).log() == old(gl).log() + enables_units(self.list()),
            final(gl).same_handles(*old(gl)),
    {
        let n = self.units.len();
        let mut i: usize = 0;
        while i < n
            invariant
                n == self.list().len(),
                i <= n,
                self.wf(),
                gl.wf(),
                gl.log() == old(gl).log() + enables_units(self.list().take(i as int)),
                gl.same_handles(*old(gl)),
            decreases n - i,
        {
            proof {
                assert(self.list().take(i as int + 1).drop_last() =~= self.list().take(i as int));
                assert(self.list().take(i as int + 1).last() == self.list()[i as int]);
            }
            let unit_code: u32 = crate::gl::TEXTURE0 + (i as u32);
            gl.emit(GlCall::ActiveTexture { unit_code });
            self.units[i].0.bind_texture(gl);
            self.units[i].1.load(gl, UniformValue::Int(unit_code as i32));
            proof {
                assert(gl.log() =~= old(gl).log() + enables_units(
                    self.list().take(i as int + 1),
                ));
            }
            i += 1;
        }
        proof {
            assert(self.list().take(n as int) =~= self.list());
        }
    }

    /// Deactivates each unit in order, unbinding its texture.
    pub fn disable(&self, gl: &mut Context)
        requires
            old(gl).wf(),
            self.wf(),
        ensures
            final(gl).wf(),
            final(gl).log() == old(gl).log() + disables_units(self.list()),
            final(gl).same_handles(*old(gl)),
    {
        let n = self.units.len();
        let mut i: usize = 0;
        while i < n
            invariant
                n == self.list().len(),
                i <= n,
                self.wf(),
                gl.wf(),
                gl.log() == old(gl).log() + disables_units(self.list().take(i as int)),
                gl.same_handles(*old(gl)),
            decreases n - i,
        {
            proof {
                assert(self.list().take(i as int + 1).drop_last() =~= self.list().take(i as int));
                assert(self.list().take(i as int + 1).last() == self.list()[i as int]);
            }
            let unit_code: u32 = crate::gl::TEXTURE0 + (i as u32);
            gl.emit(GlCall::ActiveTexture { unit_code });
            self.units[i].0.unbind_texture(gl);
            proof {
                assert(gl.log() =~= old(gl).log() + disables_units(
                    self.list().take(i as int + 1),
                ));
            }
            i += 1;
        }
        proof {
            assert(self.list().take(n as int) =~= self.list());
        }
    }
}

} // verus!
