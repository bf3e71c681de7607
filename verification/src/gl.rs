//! The graphics-API model: the call log and the live resource handles.
//!
//! A [`Context`] stands for the process-wide graphics context.  Instead of
//! issuing calls to a driver, every operation appends a [`GlCall`] value to
//! the context's log; the platform layer that owns the real context replays
//! the log against the driver.  The context also records which buffer,
//! texture, shader and program handles are currently alive, so that
//! lifecycle contracts ("a failed build leaves no live handles") can be
//! stated and proved.

use vstd::prelude::*;

verus! {

broadcast use {vstd::seq_lib::group_seq_properties, vstd::prelude::Seq::lemma_push_to_set_commute, vstd::set::group_set_axioms};

// Enumerant values of the graphics API, as its headers define them.
pub const ARRAY_BUFFER: u32 = 0x8892;
pub const ELEMENT_ARRAY_BUFFER: u32 = 0x8893;
pub const STATIC_DRAW: u32 = 0x88E4;

pub const BYTE: u32 = 0x1400;
pub const UNSIGNED_BYTE: u32 = 0x1401;
pub const SHORT: u32 = 0x1402;
pub const UNSIGNED_SHORT: u32 = 0x1403;
pub const UNSIGNED_INT: u32 = 0x1405;
pub const FLOAT: u32 = 0x1406;

pub const POINTS: u32 = 0x0000;
pub const LINES: u32 = 0x0001;
pub const LINE_LOOP: u32 = 0x0002;
pub const LINE_STRIP: u32 = 0x0003;
pub const TRIANGLES: u32 = 0x0004;
pub const TRIANGLE_STRIP: u32 = 0x0005;
pub const TRIANGLE_FAN: u32 = 0x0006;

pub const TEXTURE_2D: u32 = 0x0DE1;
pub const TEXTURE_3D: u32 = 0x806F;

pub const ALPHA: u32 = 0x1906;
pub const RGB: u32 = 0x1907;
pub const RGBA: u32 = 0x1908;
pub const LUMINANCE: u32 = 0x1909;
pub const LUMINANCE_ALPHA: u32 = 0x190A;

pub const UNSIGNED_SHORT_4_4_4_4: u32 = 0x8033;
pub const UNSIGNED_SHORT_5_5_5_1: u32 = 0x8034;
pub const UNSIGNED_SHORT_5_6_5: u32 = 0x8363;

pub const TEXTURE_MAG_FILTER: u32 = 0x2800;
pub const TEXTURE_MIN_FILTER: u32 = 0x2801;
pub const TEXTURE_WRAP_S: u32 = 0x2802;
pub const TEXTURE_WRAP_T: u32 = 0x2803;
pub const CLAMP_TO_EDGE: u32 = 0x812F;
pub const LINEAR: u32 = 0x2601;

pub const FRAGMENT_SHADER: u32 = 0x8B30;
pub const VERTEX_SHADER: u32 = 0x8B31;

pub const TEXTURE0: u32 = 0x84C0;

pub const DEPTH_BUFFER_BIT: u32 = 0x00000100;
pub const STENCIL_BUFFER_BIT: u32 = 0x00000400;
pub const COLOR_BUFFER_BIT: u32 = 0x00004000;

/// One call into the graphics API.
///
/// Handle fields hold model-level identifiers issued by [`Context`]; the
/// platform layer keeps its own mapping from these identifiers to the
/// driver's handles.  A handle value of `0` in a bind or use entry means
/// "none" (unbind), as in the API itself.  Floating-point arguments are
/// recorded by their bit patterns.
#[derive(Clone, Copy, PartialEq, Eq, Debug)]
pub enum GlCall {
    EnableVertexAttribArray { location: u32 },
    DisableVertexAttribArray { location: u32 },
    VertexAttribPointerF32 {
        location: u32,
        size: u32,
        type_code: u32,
        normalized: bool,
        stride: u32,
        offset: u32,
    },
    VertexAttribPointerI32 { location: u32, size: u32, type_code: u32, stride: u32, offset: u32 },
    CreateBuffer { buffer: u64 },
    DeleteBuffer { buffer: u64 },
    BindBuffer { target_code: u32, buffer: u64 },
    BufferDataSize { target_code: u32, size: u32, usage_code: u32 },
    BufferData { target_code: u32, byte_len: u32, usage_code: u32 },
    DrawArrays { mode_code: u32, first: u32, count: u32 },
    DrawElements { mode_code: u32, count: u32, element_code: u32, offset: u32 },
    CreateTexture { texture: u64 },
    DeleteTexture { texture: u64 },
    BindTexture { target_code: u32, texture: u64 },
    ActiveTexture { unit_code: u32 },
    TexImage2D {
        level: u32,
        internal_format_code: u32,
        width: u32,
        height: u32,
        format_code: u32,
        type_code: u32,
        has_data: bool,
        data_len: u32,
    },
    TexSubImage2D {
        level: u32,
        x: u32,
        y: u32,
        width: u32,
        height: u32,
        format_code: u32,
        type_code: u32,
        has_data: bool,
        data_len: u32,
    },
    TexImage3D {
        level: u32,
        internal_format_code: u32,
        width: u32,
        height: u32,
        depth: u32,
        format_code: u32,
        type_code: u32,
        has_data: bool,
        data_len: u32,
    },
    TexSubImage3D {
        level: u32,
        x: u32,
        y: u32,
        z: u32,
        width: u32,
        height: u32,
        depth: u32,
        format_code: u32,
        type_code: u32,
        has_data: bool,
        data_len: u32,
    },
    GenerateMipmap { target_code: u32 },
    TexParameter { target_code: u32, parameter_code: u32, value: u32 },
    CreateShader { shader: u64, type_code: u32 },
    ShaderSource { shader: u64 },
    CompileShader { shader: u64 },
    DeleteShader { shader: u64 },
    CreateProgram { program: u64 },
    AttachShader { program: u64, shader: u64 },
    LinkProgram { program: u64 },
    DetachShader { program: u64, shader: u64 },
    DeleteProgram { program: u64 },
    UseProgram { program: u64 },
    Uniform1I32 { location: u32, x: i32 },
    Uniform2I32 { location: u32, x: i32, y: i32 },
    Uniform3I32 { location: u32, x: i32, y: i32, z: i32 },
    Uniform4I32 { location: u32, x: i32, y: i32, z: i32, w: i32 },
    Uniform1F32 { location: u32, x_bits: u32 },
    Uniform2F32 { location: u32, x_bits: u32, y_bits: u32 },
    Uniform3F32 { location: u32, x_bits: u32, y_bits: u32, z_bits: u32 },
    Uniform4F32 { location: u32, x_bits: u32, y_bits: u32, z_bits: u32, w_bits: u32 },
    UniformMatrixF32 { location: u32, dim: u32, transpose: bool },
    Viewport { x: i32, y: i32, width: i32, height: i32 },
    ClearColor { red_bits: u32, green_bits: u32, blue_bits: u32, alpha_bits: u32 },
    ClearStencil { value: i32 },
    StencilMask { mask: u32 },
    Clear { mask: u32 },
}

/// The model of the graphics context: every call issued so far, in order,
/// and the handles that are currently alive, by resource category.
pub struct Context {
    calls: Vec<GlCall>,
    last_handle: u64,
    buffers: Vec<u64>,
    textures: Vec<u64>,
    shaders: Vec<u64>,
    programs: Vec<u64>,
}

/// The handles in `v` are pairwise distinct, non-zero and no larger than
/// `bound`.
pub open spec fn handles_ok(v: Seq<u64>, bound: u64) -> bool {
    &&& v.no_duplicates()
    &&& forall|i: int| 0 <= i < v.len() ==> 0 < #[trigger] v[i] <= bound
}

impl Context {
    /// The calls issued so far, in order.
    pub closed spec fn log(self) -> Seq<GlCall> {
        self.calls@
    }

    /// The buffer handles currently alive.
    pub closed spec fn live_buffers(self) -> Set<u64> {
        self.buffers@.to_set()
    }

    /// The texture handles currently alive.
    pub closed spec fn live_textures(self) -> Set<u64> {
        self.textures@.to_set()
    }

    /// The shader handles currently alive.
    pub closed spec fn live_shaders(self) -> Set<u64> {
        self.shaders@.to_set()
    }

    /// The program handles currently alive.
    pub closed spec fn live_programs(self) -> Set<u64> {
        self.programs@.to_set()
    }

    /// Well-formedness: live handles are distinct, non-zero and bounded by
    /// the handle counter, and the counter never outruns the log, which is
    /// what keeps allocation free of overflow.
    pub closed spec fn wf(self) -> bool {
        &&& handles_ok(self.buffers@, self.last_handle)
        &&& handles_ok(self.textures@, self.last_handle)
        &&& handles_ok(self.shaders@, self.last_handle)
        &&& handles_ok(self.programs@, self.last_handle)
        &&& self.last_handle <= self.calls@.len()
    }

    /// `self` is a later state of the same context as `prior`: everything
    /// `prior` had issued is still in the log, in the same order.
    pub open spec fn extends(self, prior: Context) -> bool {
        &&& self.wf()
        &&& prior.log().is_prefix_of(self.log())
    }

    /// The live handle sets of `self` and `other` agree.
    pub open spec fn same_handles(self, other: Context) -> bool {
        &&& self.live_buffers() == other.live_buffers()
        &&& self.live_textures() == other.live_textures()
        &&& self.live_shaders() == other.live_shaders()
        &&& self.live_programs() == other.live_programs()
    }

    /// A fresh context: nothing issued, nothing alive.
    pub fn new() -> (r: Context)
        ensures
            r.wf(),
            r.log() == Seq::<GlCall>::empty(),
            r.live_buffers() == Set::<u64>::empty(),
            r.live_textures() == Set::<u64>::empty(),
            r.live_shaders() == Set::<u64>::empty(),
            r.live_programs() == Set::<u64>::empty(),
    {
        let r = Context {
            calls: Vec::new(),
            last_handle: 0,
            buffers: Vec::new(),
            textures: Vec::new(),
            shaders: Vec::new(),
            programs: Vec::new(),
        };
        proof {
            assert(r.buffers@.to_set() =~= Set::<u64>::empty());
            assert(r.textures@.to_set() =~= Set::<u64>::empty());
            assert(r.shaders@.to_set() =~= Set::<u64>::empty());
            assert(r.programs@.to_set() =~= Set::<u64>::empty());
        }
        r
    }

    /// How many calls have been issued.
    pub fn call_count(&self) -> (n: usize)
        ensures
            n == self.log().len(),
    {
        self.calls.len()
    }

    /// The `i`-th call issued.
    pub fn call_at(&self, i: usize) -> (c: GlCall)
        requires
            i < self.log().len(),
        ensures
            c == self.log()[i as int],
    {
        self.calls[i]
    }

    /// How many buffer handles are alive.
    pub fn live_buffer_count(&self) -> (n: usize)
        requires
            self.wf(),
        ensures
            n == self.live_buffers().len(),
    {
        proof {
            self.buffers@.unique_seq_to_set();
        }
        self.buffers.len()
    }

    /// How many texture handles are alive.
    pub fn live_texture_count(&self) -> (n: usize)
        requires
            self.wf(),
        ensures
            n == self.live_textures().len(),
    {
        proof {
            self.textures@.unique_seq_to_set();
        }
        self.textures.len()
    }

    /// How many shader handles are alive.
    pub fn live_shader_count(&self) -> (n: usize)
        requires
            self.wf(),
        ensures
            n == self.live_shaders().len(),
    {
        proof {
            self.shaders@.unique_seq_to_set();
        }
        self.shaders.len()
    }

    /// How many program handles are alive.
    pub fn live_program_count(&self) -> (n: usize)
        requires
            self.wf(),
        ensures
            n == self.live_programs().len(),
    {
        proof {
            self.programs@.unique_seq_to_set();
        }
        self.programs.len()
    }

    /// Is this buffer handle alive?
    pub fn is_live_buffer(&self, h: u64) -> (r: bool)
        ensures
            r == self.live_buffers().contains(h),
    {
        contains_handle(&self.buffers, h)
    }

    /// Is this texture handle alive?
    pub fn is_live_texture(&self, h: u64) -> (r: bool)
        ensures
            r == self.live_textures().contains(h),
    {
        contains_handle(&self.textures, h)
    }

    /// Is this shader handle alive?
    pub fn is_live_shader(&self, h: u64) -> (r: bool)
        ensures
            r == self.live_shaders().contains(h),
    {
        contains_handle(&self.shaders, h)
    }

    /// Is this program handle alive?
    pub fn is_live_program(&self, h: u64) -> (r: bool)
        ensures
            r == self.live_programs().contains(h),
    {
        contains_handle(&self.programs, h)
    }

    /// Clears the given buffers of the current framebuffer.
    pub fn clear(&mut self, mask: u32)
        requires
            old(self).wf(),
        ensures
            final(self).wf(),
            final(self).log() == old(self).log().push(GlCall::Clear { mask }),
            final(self).same_handles(*old(self)),
    {
        self.emit(GlCall::Clear { mask });
    }

    /// Appends one call that neither creates nor destroys a handle.
    pub(crate) fn emit(&mut self, c: GlCall)
        requires
            old(self).wf(),
        ensures
            final(self).wf(),
            final(self).log() == old(self).log().push(c),
            final(self).same_handles(*old(self)),
    {
        self.calls.push(c);
    }

    /// Shows that the handle counter has room for one more value.  The log
    /// is grown and shrunk again: a vector's length always fits in `usize`,
    /// and the counter never outruns the log.
    fn headroom(&mut self)
        requires
            old(self).wf(),
        ensures
            final(self).calls@ == old(self).calls@,
            final(self).buffers@ == old(self).buffers@,
            final(self).textures@ == old(self).textures@,
            final(self).shaders@ == old(self).shaders@,
            final(self).programs@ == old(self).programs@,
            final(self).last_handle == old(self).last_handle,
            final(self).last_handle < u64::MAX,
    {
        self.calls.push(GlCall::ActiveTexture { unit_code: 0 });
        let _grown: usize = self.calls.len();
        let _ = self.calls.pop();
        proof {
            assert(self.calls@ =~= old(self).calls@);
        }
    }

    /// Issues a fresh buffer handle and logs its creation.
    pub(crate) fn create_buffer(&mut self) -> (h: u64)
        requires
            old(self).wf(),
        ensures
            final(self).wf(),
            0 < h,
            !old(self).live_buffers().contains(h),
            final(self).live_buffers() == old(self).live_buffers().insert(h),
            final(self).live_textures() == old(self).live_textures(),
            final(self).live_shaders() == old(self).live_shaders(),
            final(self).live_programs() == old(self).live_programs(),
            final(self).log() == old(self).log().push(GlCall::CreateBuffer { buffer: h }),
    {
        self.headroom();
        let h = self.last_handle + 1;
        self.last_handle = h;
        self.calls.push(GlCall::CreateBuffer { buffer: h });
        proof {
            lemma_fresh_push(self.buffers@, h);
        }
        self.buffers.push(h);
        h
    }

    /// Logs the deletion of a live buffer handle and retires it.
    pub(crate) fn delete_buffer(&mut self, h: u64)
        requires
            old(self).wf(),
            old(self).live_buffers().contains(h),
        ensures
            final(self).wf(),
            final(self).live_buffers() == old(self).live_buffers().remove(h),
            final(self).live_textures() == old(self).live_textures(),
            final(self).live_shaders() == old(self).live_shaders(),
            final(self).live_programs() == old(self).live_programs(),
            final(self).log() == old(self).log().push(GlCall::DeleteBuffer { buffer: h }),
    {
        self.calls.push(GlCall::DeleteBuffer { buffer: h });
        let retained = remove_handle(&self.buffers, h);
        proof {
            lemma_subset_handles_ok(retained@, self.buffers@, self.last_handle);
        }
        self.buffers = retained;
    }

    /// Issues a fresh texture handle and logs its creation.
    pub(crate) fn create_texture(&mut self) -> (h: u64)
        requires
            old(self).wf(),
        ensures
            final(self).wf(),
            0 < h,
            !old(self).live_textures().contains(h),
            final(self).live_textures() == old(self).live_textures().insert(h),
            final(self).live_buffers() == old(self).live_buffers(),
            final(self).live_shaders() == old(self).live_shaders(),
            final(self).live_programs() == old(self).live_programs(),
            final(self).log() == old(self).log().push(GlCall::CreateTexture { texture: h }),
    {
        self.headroom();
        let h = self.last_handle + 1;
        self.last_handle = h;
        self.calls.push(GlCall::CreateTexture { texture: h });
        proof {
            lemma_fresh_push(self.textures@, h);
        }
        self.textures.push(h);
        h
    }

    /// Logs the deletion of a live texture handle and retires it.
    pub(crate) fn delete_texture(&mut self, h: u64)
        requires
            old(self).wf(),
            old(self).live_textures().contains(h),
        ensures
            final(self).wf(),
            final(self).live_textures() == old(self).live_textures().remove(h),
            final(self).live_buffers() == old(self).live_buffers(),
            final(self).live_shaders() == old(self).live_shaders(),
            final(self).live_programs() == old(self).live_programs(),
            final(self).log() == old(self).log().push(GlCall::DeleteTexture { texture: h }),
    {
        self.calls.push(GlCall::DeleteTexture { texture: h });
        let retained = remove_handle(&self.textures, h);
        proof {
            lemma_subset_handles_ok(retained@, self.textures@, self.last_handle);
        }
        self.textures = retained;
    }

    /// Issues a fresh shader handle and logs its creation.
    pub(crate) fn create_shader(&mut self, type_code: u32) -> (h: u64)
        requires
            old(self).wf(),
        ensures
            final(self).wf(),
            0 < h,
            !old(self).live_shaders().contains(h),
            final(self).live_shaders() == old(self).live_shaders().insert(h),
            final(self).live_buffers() == old(self).live_buffers(),
            final(self).live_textures() == old(self).live_textures(),
            final(self).live_programs() == old(self).live_programs(),
            final(self).log() == old(self).log().push(GlCall::CreateShader { shader: h, type_code }),
    {
        self.headroom();
        let h = self.last_handle + 1;
        self.last_handle = h;
        self.calls.push(GlCall::CreateShader { shader: h, type_code });
        proof {
            lemma_fresh_push(self.shaders@, h);
        }
        self.shaders.push(h);
        h
    }

    /// Logs the deletion of a live shader handle and retires it.
    pub(crate) fn delete_shader(&mut self, h: u64)
        requires
            old(self).wf(),
            old(self).live_shaders().contains(h),
        ensures
            final(self).wf(),
            final(self).live_shaders() == old(self).live_shaders().remove(h),
            final(self).live_buffers() == old(self).live_buffers(),
            final(self).live_textures() == old(self).live_textures(),
            final(self).live_programs() == old(self).live_programs(),
            final(self).log() == old(self).log().push(GlCall::DeleteShader { shader: h }),
    {
        self.calls.push(GlCall::DeleteShader { shader: h });
        let retained = remove_handle(&self.shaders, h);
        proof {
            lemma_subset_handles_ok(retained@, self.shaders@, self.last_handle);
        }
        self.shaders = retained;
    }

    /// Issues a fresh program handle and logs its creation.
    pub(crate) fn create_program(&mut self) -> (h: u64)
        requires
            old(self).wf(),
        ensures
            final(self).wf(),
            0 < h,
            !old(self).live_programs().contains(h),
            final(self).live_programs() == old(self).live_programs().insert(h),
            final(self).live_buffers() == old(self).live_buffers(),
            final(self).live_textures() == old(self).live_textures(),
            final(self).live_shaders() == old(self).live_shaders(),
            final(self).log() == old(self).log().push(GlCall::CreateProgram { program: h }),
    {
        self.headroom();
        let h = self.last_handle + 1;
        self.last_handle = h;
        self.calls.push(GlCall::CreateProgram { program: h });
        proof {
            lemma_fresh_push(self.programs@, h);
        }
        self.programs.push(h);
        h
    }

    /// Logs the deletion of a live program handle and retires it.
    pub(crate) fn delete_program(&mut self, h: u64)
        requires
            old(self).wf(),
            old(self).live_programs().contains(h),
        ensures
            final(self).wf(),
            final(self).live_programs() == old(self).live_programs().remove(h),
            final(self).live_buffers() == old(self).live_buffers(),
            final(self).live_textures() == old(self).live_textures(),
            final(self).live_shaders() == old(self).live_shaders(),
            final(self).log() == old(self).log().push(GlCall::DeleteProgram { program: h }),
    {
        self.calls.push(GlCall::DeleteProgram { program: h });
        let retained = remove_handle(&self.programs, h);
        proof {
            lemma_subset_handles_ok(retained@, self.programs@, self.last_handle);
        }
        self.programs = retained;
    }
}

/// A log that an operation extended by some suffix keeps the old log as
/// a prefix.
pub proof fn lemma_log_grew(pre: Seq<GlCall>, post: Seq<GlCall>)
    requires
        exists|s: Seq<GlCall>| post == pre + s,
    ensures
        pre.is_prefix_of(post),
{
    let s = choose|s: Seq<GlCall>| post == pre + s;
    assert(pre =~= (pre + s).subrange(0, pre.len() as int));
}

/// Being a prefix of a log is transitive.
pub proof fn lemma_prefix_transitive(a: Seq<GlCall>, b: Seq<GlCall>, c: Seq<GlCall>)
    requires
        a.is_prefix_of(b),
        b.is_prefix_of(c),
    ensures
        a.is_prefix_of(c),
{
    assert forall|i: int| 0 <= i < a.len() implies a[i] == c[i] by {
        assert(a[i] == b.subrange(0, a.len() as int)[i]);
        assert(b[i] == c.subrange(0, b.len() as int)[i]);
    }
    assert(a =~= c.subrange(0, a.len() as int));
}

/// Appending a value that a duplicate-free sequence does not contain keeps
/// it duplicate-free.
proof fn lemma_push_no_dup(s: Seq<u64>, x: u64)
    requires
        s.no_duplicates(),
        !s.contains(x),
    ensures
        s.push(x).no_duplicates(),
{
    let t = s.push(x);
    assert forall|i: int, j: int|
        0 <= i < t.len() && 0 <= j < t.len() && i != j implies t[i] != t[j] by {
        if i < s.len() && j < s.len() {
        } else if j == s.len() {
            assert(t[i] == s[i]);
            assert(s.contains(s[i]));
        } else {
            assert(t[j] == s[j]);
            assert(s.contains(s[j]));
        }
    }
}

/// Every element of a sequence that another contains, within its bound,
/// stays within that bound.
proof fn lemma_subset_handles_ok(r: Seq<u64>, v: Seq<u64>, bound: u64)
    requires
        r.no_duplicates(),
        forall|x: u64| #[trigger] r.contains(x) ==> v.contains(x),
        handles_ok(v, bound),
    ensures
        handles_ok(r, bound),
{
    assert forall|i: int| 0 <= i < r.len() implies 0 < #[trigger] r[i] <= bound by {
        assert(r.contains(r[i]));
        let x = r[i];
        assert(v.contains(x));
        let j = choose|j: int| 0 <= j < v.len() && v[j] == x;
        assert(0 < v[j] <= bound);
    }
}

/// Appending a value larger than every element of a duplicate-free sequence
/// keeps it duplicate-free, and inserts the value into its element set.
proof fn lemma_fresh_push(v: Seq<u64>, h: u64)
    requires
        v.no_duplicates(),
        forall|i: int| 0 <= i < v.len() ==> #[trigger] v[i] < h,
    ensures
        v.push(h).no_duplicates(),
        v.push(h).to_set() == v.to_set().insert(h),
        !v.to_set().contains(h),
{
    assert(forall|i: int| 0 <= i < v.len() ==> #[trigger] v.push(h)[i] == v[i]);
    assert(v.push(h)[v.len() as int] == h);
    if v.contains(h) {
        let i = choose|i: int| 0 <= i < v.len() && v[i] == h;
        assert(v[i] < h);
    }
    assert(v.push(h).no_duplicates()) by {
        assert(forall|i: int, j: int|
            0 <= i < v.push(h).len() && 0 <= j < v.push(h).len() && i != j ==> v.push(h)[i]
                != v.push(h)[j]);
    }
    assert(v.push(h).to_set() =~= v.to_set().insert(h));
}

/// Does `v` hold `h`?
fn contains_handle(v: &Vec<u64>, h: u64) -> (r: bool)
    ensures
        r == v@.to_set().contains(h),
{
    let n = v.len();
    let mut i: usize = 0;
    while i < n
        invariant
            n == v@.len(),
            i <= n,
            forall|j: int| 0 <= j < i ==> v@[j] != h,
        decreases n - i,
    {
        if v[i] == h {
            return true;
        }
        i += 1;
    }
    proof {
        if v@.contains(h) {
            let j = choose|j: int| 0 <= j < v@.len() && v@[j] == h;
            assert(false);
        }
    }
    false
}

/// Returns `v` with the one occurrence of `h` removed.
fn remove_handle(v: &Vec<u64>, h: u64) -> (r: Vec<u64>)
    requires
        v@.no_duplicates(),
        v@.contains(h),
    ensures
        r@.no_duplicates(),
        r@.to_set() == v@.to_set().remove(h),
        r@.len() + 1 == v@.len(),
        forall|x: u64| #[trigger] r@.contains(x) ==> v@.contains(x),
{
    let mut out: Vec<u64> = Vec::new();
    let n = v.len();
    let mut i: usize = 0;
    while i < n
        invariant
            n == v@.len(),
            i <= n,
            v@.no_duplicates(),
            forall|x: u64| #[trigger] out@.contains(x) <==> v@.subrange(0, i as int).contains(x)
                && x != h,
            out@.no_duplicates(),
            out@.len() == i - (if v@.subrange(0, i as int).contains(h) { 1int } else { 0int }),
        decreases n - i,
    {
        let x = v[i];
        proof {
            assert(v@.subrange(0, i as int + 1) =~= v@.subrange(0, i as int).push(v@[i as int]));
            assert(forall|y: u64| #[trigger] v@.subrange(0, i as int + 1).contains(y) <==> v@.subrange(
                0,
                i as int,
            ).contains(y) || y == v@[i as int]);
            if v@.subrange(0, i as int).contains(x) {
                let j = choose|j: int| 0 <= j < i && v@.subrange(0, i as int)[j] == x;
                assert(v@[j] == x);
                assert(false);
            }
        }
        if x != h {
            proof {
                lemma_push_no_dup(out@, x);
            }
            out.push(x);
        }
        i += 1;
    }
    proof {
        assert(v@.subrange(0, n as int) =~= v@);
        assert(out@.to_set() =~= v@.to_set().remove(h)) by {
            assert(forall|x: u64| #[trigger] out@.contains(x) <==> v@.contains(x) && x != h);
        }
    }
    out
}

} // verus!
