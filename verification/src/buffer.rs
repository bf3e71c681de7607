//! Buffer lifecycle and draw composition.
//!
//! A [`Buffer`] owns one API-side allocation of a declared target and
//! records how many elements its storage currently holds: the count set by
//! the most recent load or resize.  The [`Draw`] trait composes a vertex
//! buffer with its attribute list (and, for indexed draws, an element
//! buffer) and issues full-range, or bounds-checked sub-range, draw calls.

use vstd::prelude::*;
use crate::gl::{Context, GlCall};
use crate::attrib::Attribs;

verus! {

/// The binding-point category of a buffer.
#[derive(Clone, Copy, PartialEq, Eq, Debug)]
pub enum BufferTarget {
    /// A vertex attribute array.
    Array,
    /// An element index array.
    ElementArray,
}

impl BufferTarget {
    /// The API's code for this binding point.
    pub open spec fn spec_code(self) -> u32 {
        match self {
            BufferTarget::Array => crate::gl::ARRAY_BUFFER,
            BufferTarget::ElementArray => crate::gl::ELEMENT_ARRAY_BUFFER,
        }
    }

    /// The API's code for this binding point.
    pub fn code(self) -> (c: u32)
        ensures
            c == self.spec_code(),
    {
        match self {
            BufferTarget::Array => crate::gl::ARRAY_BUFFER,
            BufferTarget::ElementArray => crate::gl::ELEMENT_ARRAY_BUFFER,
        }
    }
}

/// Types that can serve as an element index.
pub trait AsElement {
    /// The API's data type code for this index type.
    spec fn spec_element_code() -> u32;

    /// Bytes per index of this type.
    spec fn spec_element_size() -> u32;

    /// The API's data type code for this index type.
    fn element_code() -> (c: u32)
        ensures
            c == Self::spec_element_code(),
    ;

    /// Bytes per index of this type.
    fn element_size() -> (s: u32)
        ensures
            s == Self::spec_element_size(),
            s == 1 || s == 2 || s == 4,
    ;
}

impl AsElement for u8 {
    open spec fn spec_element_code() -> u32 {
        crate::gl::UNSIGNED_BYTE
    }

    open spec fn spec_element_size() -> u32 {
        1
    }

    fn element_code() -> u32 {
        crate::gl::UNSIGNED_BYTE
    }

    fn element_size() -> u32 {
        1
    }
}

impl AsElement for u16 {
    open spec fn spec_element_code() -> u32 {
        crate::gl::UNSIGNED_SHORT
    }

    open spec fn spec_element_size() -> u32 {
        2
    }

    fn element_code() -> u32 {
        crate::gl::UNSIGNED_SHORT
    }

    fn element_size() -> u32 {
        2
    }
}

impl AsElement for u32 {
    open spec fn spec_element_code() -> u32 {
        crate::gl::UNSIGNED_INT
    }

    open spec fn spec_element_size() -> u32 {
        4
    }

    fn element_code() -> u32 {
        crate::gl::UNSIGNED_INT
    }

    fn element_size() -> u32 {
        4
    }
}

/// The API's data type code for an index of the given byte width.
pub open spec fn element_code_of(size: u32) -> u32 {
    if size == 1 {
        crate::gl::UNSIGNED_BYTE
    } else if size == 2 {
        crate::gl::UNSIGNED_SHORT
    } else {
        crate::gl::UNSIGNED_INT
    }
}

/// One API-side buffer allocation: its handle, its binding target, the
/// byte width of one element and the element count of the last load or
/// resize.
pub struct Buffer {
    handle: u64,
    target: BufferTarget,
    elem_size: u32,
    length: u32,
    contents: Ghost<Seq<u8>>,
}

impl Buffer {
    /// The model handle of the allocation.
    pub closed spec fn spec_handle(self) -> u64 {
        self.handle
    }

    /// The binding target declared at creation.
    pub closed spec fn spec_target(self) -> BufferTarget {
        self.target
    }

    /// The byte width of one element.
    pub closed spec fn spec_elem_size(self) -> u32 {
        self.elem_size
    }

    /// The element count recorded by the most recent load or resize.
    pub closed spec fn spec_length(self) -> u32 {
        self.length
    }

    /// The bytes the most recent load handed to the API; a resize leaves
    /// freshly allocated storage behind, which the model treats as empty.
    pub closed spec fn spec_contents(self) -> Seq<u8> {
        self.contents@
    }

    /// The buffer is usable against `gl`: its handle is alive and its
    /// element width is positive.
    pub open spec fn valid(self, gl: Context) -> bool {
        &&& gl.live_buffers().contains(self.spec_handle())
        &&& 1 <= self.spec_elem_size()
    }

    /// Creates an empty buffer for the given target, whose elements will
    /// be `elem_size` bytes wide.
    pub fn new(gl: &mut Context, target: BufferTarget, elem_size: u32) -> (b: Buffer)
        requires
            old(gl).wf(),
            1 <= elem_size,
        ensures
            final(gl).wf(),
            b.valid(*final(gl)),
            b.spec_target() == target,
            b.spec_elem_size() == elem_size,
            b.spec_length() == 0,
            !old(gl).live_buffers().contains(b.spec_handle()),
            final(gl).live_buffers() == old(gl).live_buffers().insert(b.spec_handle()),
            final(gl).live_textures() == old(gl).live_textures(),
            final(gl).live_shaders() == old(gl).live_shaders(),
            final(gl).live_programs() == old(gl).live_programs(),
            final(gl).log() == old(gl).log().push(
                GlCall::CreateBuffer { buffer: b.spec_handle() },
            ),
            b.spec_contents() == Seq::<u8>::empty(),
    {
        let handle = gl.create_buffer();
        Buffer { handle, target, elem_size, length: 0, contents: Ghost(Seq::empty()) }
    }

    /// Deletes the buffer; the allocation is gone and the handle retired.
    pub fn del(self, gl: &mut Context)
        requires
            old(gl).wf(),
            self.valid(*old(gl)),
        ensures
            final(gl).wf(),
            final(gl).live_buffers() == old(gl).live_buffers().remove(self.spec_handle()),
            final(gl).live_textures() == old(gl).live_textures(),
            final(gl).live_shaders() == old(gl).live_shaders(),
            final(gl).live_programs() == old(gl).live_programs(),
            final(gl).log() == old(gl).log().push(
                GlCall::DeleteBuffer { buffer: self.spec_handle() },
            ),
    {
        gl.delete_buffer(self.handle);
    }

    /// The element count recorded by the most recent load or resize.
    pub fn length(&self) -> (n: u32)
        ensures
            n == self.spec_length(),
    {
        self.length
    }

    /// The buffer's handle is alive and its element width positive: the
    /// runtime form of [`Self::valid`].
    pub fn check_valid(&self, gl: &Context) -> (r: bool)
        ensures
            r == self.valid(*gl),
    {
        gl.is_live_buffer(self.handle) && self.elem_size >= 1
    }

    /// The byte width of one element.
    pub fn elem_size_value(&self) -> (s: u32)
        ensures
            s == self.spec_elem_size(),
    {
        self.elem_size
    }

    /// The binding target declared at creation.
    pub fn target_value(&self) -> (t: BufferTarget)
        ensures
            t == self.spec_target(),
    {
        self.target
    }

    /// The calls a load or resize brackets around its data transfer.
    pub open spec fn bind_call(self) -> GlCall {
        GlCall::BindBuffer { target_code: self.spec_target().spec_code(), buffer: self.spec_handle() }
    }

    /// The unbind call for this buffer's target.
    pub open spec fn unbind_call(self) -> GlCall {
        GlCall::BindBuffer { target_code: self.spec_target().spec_code(), buffer: 0 }
    }

    /// Binds the buffer to its target.
    pub(crate) fn bind_buffer(&self, gl: &mut Context)
        requires
            old(gl).wf(),
        ensures
            final(gl).wf(),
            final(gl).log() == old(gl).log().push(self.bind_call()),
            final(gl).same_handles(*old(gl)),
    {
        gl.emit(GlCall::BindBuffer { target_code: self.target.code(), buffer: self.handle });
    }

    /// Unbinds the buffer's target.
    pub(crate) fn unbind_buffer(&self, gl: &mut Context)
        requires
            old(gl).wf(),
        ensures
            final(gl).wf(),
            final(gl).log() == old(gl).log().push(self.unbind_call()),
            final(gl).same_handles(*old(gl)),
    {
        gl.emit(GlCall::BindBuffer { target_code: self.target.code(), buffer: 0 });
    }

    /// The calls a resize to `byte_size` bytes issues.
    pub open spec fn resize_calls(self, byte_size: u32) -> Seq<GlCall> {
        seq![
            self.bind_call(),
            GlCall::BufferDataSize {
                target_code: self.spec_target().spec_code(),
                size: byte_size,
                usage_code: crate::gl::STATIC_DRAW,
            },
            self.unbind_call(),
        ]
    }

    /// Allocates `byte_size` bytes of uninitialized storage and records
    /// the element count it holds.
    pub fn resize(&mut self, gl: &mut Context, byte_size: u32)
        requires
            old(gl).wf(),
            old(self).valid(*old(gl)),
            byte_size % old(self).spec_elem_size() == 0,
        ensures
            final(gl).wf(),
            final(self).valid(*final(gl)),
            final(self).spec_handle() == old(self).spec_handle(),
            final(self).spec_target() == old(self).spec_target(),
            final(self).spec_elem_size() == old(self).spec_elem_size(),
            final(self).spec_length() == byte_size / old(self).spec_elem_size(),
            final(self).spec_contents() == Seq::<u8>::empty(),
            final(gl).log() == old(gl).log() + old(self).resize_calls(byte_size),
            final(gl).same_handles(*old(gl)),
    {
        self.bind_buffer(gl);
        self.length = byte_size / self.elem_size;
        self.contents = Ghost(Seq::empty());
        gl.emit(
            GlCall::BufferDataSize {
                target_code: self.target.code(),
                size: byte_size,
                usage_code: crate::gl::STATIC_DRAW,
            },
        );
        self.unbind_buffer(gl);
        proof {
            assert(final(gl).log() =~= old(gl).log() + old(self).resize_calls(byte_size));
        }
    }

    /// The calls a load of `byte_len` bytes issues.
    pub open spec fn load_calls(self, byte_len: u32) -> Seq<GlCall> {
        seq![
            self.bind_call(),
            GlCall::BufferData {
                target_code: self.spec_target().spec_code(),
                byte_len,
                usage_code: crate::gl::STATIC_DRAW,
            },
            self.unbind_call(),
        ]
    }

    /// Uploads `data` and records the element count it holds: the byte
    /// length divided by the element width, which must divide it exactly.
    pub fn load(&mut self, gl: &mut Context, data: &[u8])
        requires
            old(gl).wf(),
            old(self).valid(*old(gl)),
            data@.len() % old(self).spec_elem_size() as nat == 0,
            data@.len() <= u32::MAX,
        ensures
            final(gl).wf(),
            final(self).valid(*final(gl)),
            final(self).spec_handle() == old(self).spec_handle(),
            final(self).spec_target() == old(self).spec_target(),
            final(self).spec_elem_size() == old(self).spec_elem_size(),
            final(self).spec_length() == data@.len() as u32 / old(self).spec_elem_size(),
            final(self).spec_contents() == data@,
            final(gl).log() == old(gl).log() + old(self).load_calls(data@.len() as u32),
            final(gl).same_handles(*old(gl)),
    {
        self.bind_buffer(gl);
        let byte_len: u32 = data.len() as u32;
        self.length = byte_len / self.elem_size;
        self.contents = Ghost(data@);
        gl.emit(
            GlCall::BufferData {
                target_code: self.target.code(),
                byte_len,
                usage_code: crate::gl::STATIC_DRAW,
            },
        );
        self.unbind_buffer(gl);
        proof {
            assert(final(gl).log() =~= old(gl).log() + old(self).load_calls(data@.len() as u32));
        }
    }
}

/// The primitive kind of a draw call.
#[derive(Clone, Copy, PartialEq, Eq, Debug)]
pub enum DrawMode {
    Points,
    LineStrip,
    LineLoop,
    Lines,
    TriangleStrip,
    TriangleFan,
    Triangles,
}

impl DrawMode {
    /// The API's code for this primitive kind.
    pub open spec fn spec_code(self) -> u32 {
        match self {
            DrawMode::Points => crate::gl::POINTS,
            DrawMode::LineStrip => crate::gl::LINE_STRIP,
            DrawMode::LineLoop => crate::gl::LINE_LOOP,
            DrawMode::Lines => crate::gl::LINES,
            DrawMode::TriangleStrip => crate::gl::TRIANGLE_STRIP,
            DrawMode::TriangleFan => crate::gl::TRIANGLE_FAN,
            DrawMode::Triangles => crate::gl::TRIANGLES,
        }
    }

    /// The API's code for this primitive kind.
    pub fn code(self) -> (c: u32)
        ensures
            c == self.spec_code(),
    {
        match self {
            DrawMode::Points => crate::gl::POINTS,
            DrawMode::LineStrip => crate::gl::LINE_STRIP,
            DrawMode::LineLoop => crate::gl::LINE_LOOP,
            DrawMode::Lines => crate::gl::LINES,
            DrawMode::TriangleStrip => crate::gl::TRIANGLE_STRIP,
            DrawMode::TriangleFan => crate::gl::TRIANGLE_FAN,
            DrawMode::Triangles => crate::gl::TRIANGLES,
        }
    }
}

/// Geometry that can be drawn: in full, or over a bounds-checked
/// sub-range of its recorded length.
pub trait Draw {
    /// The geometry is usable against `gl`.
    spec fn valid(self, gl: Context) -> bool;

    /// The element count a full draw covers.
    spec fn spec_length(self) -> u32;

    /// The calls a draw of `count` elements starting at `first` issues.
    spec fn draw_calls(self, mode: DrawMode, first: u32, count: u32) -> Seq<GlCall>;

    /// The full data length in elements.
    fn data_length(&self) -> (n: u32)
        ensures
            n == self.spec_length(),
    ;

    /// Draws `count` elements starting at `first`.
    fn partial_draw(&self, gl: &mut Context, mode: DrawMode, first: u32, count: u32)
        requires
            old(gl).wf(),
            self.valid(*old(gl)),
            first + count <= self.spec_length(),
        ensures
            final(gl).wf(),
            final(gl).log() == old(gl).log() + self.draw_calls(mode, first, count),
            final(gl).same_handles(*old(gl)),
    ;

    /// Draws the full recorded length.
    fn draw(&self, gl: &mut Context, mode: DrawMode)
        requires
            old(gl).wf(),
            self.valid(*old(gl)),
        ensures
            final(gl).wf(),
            final(gl).log() == old(gl).log() + self.draw_calls(mode, 0, self.spec_length()),
            final(gl).same_handles(*old(gl)),
    {
        let n = self.data_length();
        self.partial_draw(gl, mode, 0, n);
    }

    /// Draws the sub-range `[start, end)`.  Bounds beyond the recorded
    /// length are a precondition violation, never a call issued.
    fn draw_range(&self, gl: &mut Context, mode: DrawMode, start: u32, end: u32)
        requires
            old(gl).wf(),
            self.valid(*old(gl)),
            start <= end,
            end <= self.spec_length(),
        ensures
            final(gl).wf(),
            final(gl).log() == old(gl).log() + self.draw_calls(mode, start, (end - start) as u32),
            final(gl).same_handles(*old(gl)),
    {
        self.partial_draw(gl, mode, start, end - start);
    }
}

/// A vertex buffer joined with the attribute list that reads it: drawn
/// with a non-indexed call counting vertices.
pub struct Geometry {
    pub vertices: Buffer,
    pub attribs: Attribs,
}

impl Draw for Geometry {
    open spec fn valid(self, gl: Context) -> bool {
        &&& self.vertices.valid(gl)
        &&& self.vertices.spec_target() is Array
        &&& self.attribs.wf()
    }

    open spec fn spec_length(self) -> u32 {
        self.vertices.spec_length()
    }

    open spec fn draw_calls(self, mode: DrawMode, first: u32, count: u32) -> Seq<GlCall> {
        seq![self.vertices.bind_call()] + self.attribs.spec_enable_calls() + seq![
            GlCall::DrawArrays { mode_code: mode.spec_code(), first, count },
        ] + self.attribs.spec_disable_calls() + seq![self.vertices.unbind_call()]
    }

    fn data_length(&self) -> (n: u32) {
        self.vertices.length()
    }

    fn partial_draw(&self, gl: &mut Context, mode: DrawMode, first: u32, count: u32) {
        self.vertices.bind_buffer(gl);
        self.attribs.enable_attribs(gl);
        gl.emit(GlCall::DrawArrays { mode_code: mode.code(), first, count });
        self.attribs.disable_attribs(gl);
        self.vertices.unbind_buffer(gl);
        proof {
            assert(final(gl).log() =~= old(gl).log() + self.draw_calls(mode, first, count));
        }
    }
}

impl Geometry {
    /// The geometry can be drawn against `gl`: the runtime form of the
    /// validity its draws require.
    pub fn check_valid(&self, gl: &Context) -> (r: bool)
        ensures
            r == self.valid(*gl),
    {
        self.vertices.check_valid(gl) && matches!(self.vertices.target_value(), BufferTarget::Array)
            && self.attribs.check_wf()
    }
}

/// A vertex buffer, its attribute list, and the element buffer whose
/// indices select vertices: drawn with an indexed call counting indices.
pub struct IndexedGeometry {
    pub vertices: Buffer,
    pub attribs: Attribs,
    pub elements: Buffer,
}

impl Draw for IndexedGeometry {
    open spec fn valid(self, gl: Context) -> bool {
        &&& self.vertices.valid(gl)
        &&& self.vertices.spec_target() is Array
        &&& self.attribs.wf()
        &&& self.elements.valid(gl)
        &&& self.elements.spec_target() is ElementArray
        &&& (self.elements.spec_elem_size() == 1 || self.elements.spec_elem_size() == 2
            || self.elements.spec_elem_size() == 4)
    }

    open spec fn spec_length(self) -> u32 {
        self.elements.spec_length()
    }

    open spec fn draw_calls(self, mode: DrawMode, first: u32, count: u32) -> Seq<GlCall> {
        seq![self.vertices.bind_call(), self.elements.bind_call()]
            + self.attribs.spec_enable_calls() + seq![
            GlCall::DrawElements {
                mode_code: mode.spec_code(),
                count,
                element_code: element_code_of(self.elements.spec_elem_size()),
                offset: first,
            },
        ] + self.attribs.spec_disable_calls() + seq![
            self.elements.bind_call(),
            self.vertices.bind_call(),
        ]
    }

    fn data_length(&self) -> (n: u32) {
        self.elements.length()
    }

    fn partial_draw(&self, gl: &mut Context, mode: DrawMode, first: u32, count: u32) {
        self.vertices.bind_buffer(gl);
        self.elements.bind_buffer(gl);
        self.attribs.enable_attribs(gl);
        let elem_size = self.elements.elem_size_value();
        let element_code = if elem_size == 1 {
            crate::gl::UNSIGNED_BYTE
        } else if elem_size == 2 {
            crate::gl::UNSIGNED_SHORT
        } else {
            crate::gl::UNSIGNED_INT
        };
        gl.emit(
            GlCall::DrawElements { mode_code: mode.code(), count, element_code, offset: first },
        );
        self.attribs.disable_attribs(gl);
        self.elements.bind_buffer(gl);
        self.vertices.bind_buffer(gl);
        proof {
            assert(final(gl).log() =~= old(gl).log() + self.draw_calls(mode, first, count));
        }
    }
}

/// A full draw of a geometry issues exactly one draw call, and its vertex
/// count is exactly the element count the vertex buffer recorded at its
/// last load: the round trip from loading `n` elements to drawing issues
/// a draw of `n`.
pub proof fn lemma_full_draw_count(g: Geometry, mode: DrawMode)
    ensures
        ({
            let calls = g.draw_calls(mode, 0, g.spec_length());
            let k: int = 1 + g.attribs.spec_enable_calls().len() as int;
            &&& 0 <= k < calls.len()
            &&& calls[k] == (GlCall::DrawArrays {
                mode_code: mode.spec_code(),
                first: 0,
                count: g.spec_length(),
            })
            &&& forall|i: int| 0 <= i < calls.len() && i != k ==> !((#[trigger] calls[i]) is DrawArrays)
        }),
{
    let calls = g.draw_calls(mode, 0, g.spec_length());
    let items = g.attribs.list();
    let stride = g.attribs.spec_stride() as u32;
    let k: int = 1 + g.attribs.spec_enable_calls().len() as int;
    crate::attrib::lemma_attrib_call_kinds(items, stride);
    assert(calls[k] == (GlCall::DrawArrays {
        mode_code: mode.spec_code(),
        first: 0,
        count: g.spec_length(),
    }));
    assert forall|i: int| 0 <= i < calls.len() && i != k implies !((#[trigger] calls[i])
        is DrawArrays) by {
        if 0 < i < k {
            assert(calls[i] == g.attribs.spec_enable_calls()[i - 1]);
            if i - 1 < crate::attrib::enables_of(items).len() {
                assert(g.attribs.spec_enable_calls()[i - 1] == crate::attrib::enables_of(
                    items,
                )[i - 1]);
            } else {
                assert(g.attribs.spec_enable_calls()[i - 1] == crate::attrib::pointers_of(
                    items,
                    stride,
                )[i - 1 - crate::attrib::enables_of(items).len()]);
            }
        } else if k < i < calls.len() - 1 {
            assert(calls[i] == g.attribs.spec_disable_calls()[i - k - 1]);
        }
    }
}

/// Drawing the range that starts at zero and ends at the recorded length
/// issues exactly the calls of a full draw: the two post-states agree.
pub proof fn lemma_full_range_equals_full_draw<D: Draw>(
    d: D,
    mode: DrawMode,
    before: Context,
    after_full: Context,
    after_range: Context,
)
    requires
        after_full.log() == before.log() + d.draw_calls(mode, 0, d.spec_length()),
        after_range.log() == before.log() + d.draw_calls(
            mode,
            0,
            (d.spec_length() - 0) as u32,
        ),
    ensures
        after_full.log() == after_range.log(),
{
}

} // verus!
