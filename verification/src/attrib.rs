//! Vertex attribute descriptors.
//!
//! An [`Attrib`] binds one shader attribute slot to a shape: a scalar kind
//! and a component count.  An [`Attribs`] value is the ordered list of
//! attributes that share one vertex buffer; enabling it computes the common
//! stride (the sum of the component byte widths) and gives each attribute
//! the offset accumulated left to right in declaration order.

use vstd::prelude::*;
use crate::gl::{Context, GlCall};
use crate::buffer::{Buffer, BufferTarget};

verus! {

broadcast use vstd::seq_lib::group_seq_properties;

/// The scalar kinds a vertex attribute component may have.
#[derive(Clone, Copy, PartialEq, Eq, Debug)]
pub enum AttribScalar {
    Float,
    Byte,
    UnsignedByte,
    Short,
    UnsignedShort,
}

impl AttribScalar {
    /// Byte width of one component of this kind.
    pub open spec fn spec_width(self) -> u32 {
        match self {
            AttribScalar::Float => 4,
            AttribScalar::Byte => 1,
            AttribScalar::UnsignedByte => 1,
            AttribScalar::Short => 2,
            AttribScalar::UnsignedShort => 2,
        }
    }

    /// The API's type code for this kind.
    pub open spec fn spec_code(self) -> u32 {
        match self {
            AttribScalar::Float => crate::gl::FLOAT,
            AttribScalar::Byte => crate::gl::BYTE,
            AttribScalar::UnsignedByte => crate::gl::UNSIGNED_BYTE,
            AttribScalar::Short => crate::gl::SHORT,
            AttribScalar::UnsignedShort => crate::gl::UNSIGNED_SHORT,
        }
    }

    /// Byte width of one component of this kind.
    pub fn width(self) -> (w: u32)
        ensures
            w == self.spec_width(),
    {
        match self {
            AttribScalar::Float => 4,
            AttribScalar::Byte => 1,
            AttribScalar::UnsignedByte => 1,
            AttribScalar::Short => 2,
            AttribScalar::UnsignedShort => 2,
        }
    }

    /// The API's type code for this kind.
    pub fn code(self) -> (c: u32)
        ensures
            c == self.spec_code(),
    {
        match self {
            AttribScalar::Float => crate::gl::FLOAT,
            AttribScalar::Byte => crate::gl::BYTE,
            AttribScalar::UnsignedByte => crate::gl::UNSIGNED_BYTE,
            AttribScalar::Short => crate::gl::SHORT,
            AttribScalar::UnsignedShort => crate::gl::UNSIGNED_SHORT,
        }
    }
}

/// The shape of one vertex attribute: a scalar kind and how many
/// consecutive components of it make up the attribute.
#[derive(Clone, Copy, PartialEq, Eq, Debug)]
pub struct AttribShape {
    pub scalar: AttribScalar,
    pub count: u32,
}

impl AttribShape {
    /// The API accepts one to four components per attribute.
    pub open spec fn wf(self) -> bool {
        1 <= self.count <= 4
    }

    /// Byte width of the whole attribute.
    pub open spec fn spec_byte_width(self) -> int {
        self.scalar.spec_width() * self.count
    }

    /// Byte width of the whole attribute.
    pub fn byte_width(self) -> (w: u32)
        requires
            self.wf(),
        ensures
            w == self.spec_byte_width(),
            1 <= w <= 16,
    {
        self.scalar.width() * self.count
    }
}

/// Types that can serve as one vertex attribute.
pub trait AsAttrib {
    /// The shape a vertex of this type occupies.
    spec fn spec_shape() -> AttribShape;

    /// The shape a vertex of this type occupies.
    fn attrib_shape() -> (s: AttribShape)
        ensures
            s == Self::spec_shape(),
            s.wf(),
    ;
}

impl AsAttrib for i8 {
    open spec fn spec_shape() -> AttribShape {
        AttribShape { scalar: AttribScalar::Byte, count: 1 }
    }

    fn attrib_shape() -> (s: AttribShape) {
        AttribShape { scalar: AttribScalar::Byte, count: 1 }
    }
}

impl AsAttrib for u8 {
    open spec fn spec_shape() -> AttribShape {
        AttribShape { scalar: AttribScalar::UnsignedByte, count: 1 }
    }

    fn attrib_shape() -> (s: AttribShape) {
        AttribShape { scalar: AttribScalar::UnsignedByte, count: 1 }
    }
}

impl AsAttrib for i16 {
    open spec fn spec_shape() -> AttribShape {
        AttribShape { scalar: AttribScalar::Short, count: 1 }
    }

    fn attrib_shape() -> (s: AttribShape) {
        AttribShape { scalar: AttribScalar::Short, count: 1 }
    }
}

impl AsAttrib for u16 {
    open spec fn spec_shape() -> AttribShape {
        AttribShape { scalar: AttribScalar::UnsignedShort, count: 1 }
    }

    fn attrib_shape() -> (s: AttribShape) {
        AttribShape { scalar: AttribScalar::UnsignedShort, count: 1 }
    }
}

/// One attribute slot binding.
///
/// The location is the slot the program resolved for the attribute's name,
/// or `None` when the name was not found: such a binding is inert, and
/// enabling or pointing it issues nothing.
#[derive(Clone, Copy, PartialEq, Eq, Debug)]
pub struct Attrib {
    pub location: Option<u32>,
    pub shape: AttribShape,
}

impl Attrib {
    /// The binding is usable: its shape is well-formed.
    pub open spec fn wf(self) -> bool {
        self.shape.wf()
    }

    /// Builds a binding for a resolved (or unresolved) location.
    pub fn new(location: Option<u32>, shape: AttribShape) -> (a: Attrib)
        requires
            shape.wf(),
        ensures
            a == (Attrib { location, shape }),
    {
        Attrib { location, shape }
    }

    /// The calls that enabling this one slot issues.
    pub open spec fn enable_calls(self) -> Seq<GlCall> {
        match self.location {
            Option::Some(l) => seq![GlCall::EnableVertexAttribArray { location: l }],
            Option::None => Seq::empty(),
        }
    }

    /// The calls that disabling this one slot issues.
    pub open spec fn disable_calls(self) -> Seq<GlCall> {
        match self.location {
            Option::Some(l) => seq![GlCall::DisableVertexAttribArray { location: l }],
            Option::None => Seq::empty(),
        }
    }

    /// The calls that setting this slot's pointer geometry issues: the
    /// float kind uses the float pointer entry with normalization off, the
    /// integer kinds use the integer pointer entry.
    pub open spec fn pointer_calls(self, offset: u32, stride: u32) -> Seq<GlCall> {
        match self.location {
            Option::Some(l) => if self.shape.scalar is Float {
                seq![
                    GlCall::VertexAttribPointerF32 {
                        location: l,
                        size: self.shape.count,
                        type_code: self.shape.scalar.spec_code(),
                        normalized: false,
                        stride,
                        offset,
                    },
                ]
            } else {
                seq![
                    GlCall::VertexAttribPointerI32 {
                        location: l,
                        size: self.shape.count,
                        type_code: self.shape.scalar.spec_code(),
                        stride,
                        offset,
                    },
                ]
            },
            Option::None => Seq::empty(),
        }
    }

    /// Enables this slot.
    fn enable_attrib(&self, gl: &mut Context)
        requires
            old(gl).wf(),
        ensures
            final(gl).wf(),
            final(gl).log() == old(gl).log() + self.enable_calls(),
            final(gl).same_handles(*old(gl)),
    {
        match self.location {
            Option::Some(l) => {
                gl.emit(GlCall::EnableVertexAttribArray { location: l });
                proof {
                    assert(final(gl).log() =~= old(gl).log() + self.enable_calls());
                }
            },
            Option::None => {
                proof {
                    assert(final(gl).log() =~= old(gl).log() + self.enable_calls());
                }
            },
        }
    }

    /// Disables this slot.
    fn disable_attrib(&self, gl: &mut Context)
        requires
            old(gl).wf(),
        ensures
            final(gl).wf(),
            final(gl).log() == old(gl).log() + self.disable_calls(),
            final(gl).same_handles(*old(gl)),
    {
        match self.location {
            Option::Some(l) => {
                gl.emit(GlCall::DisableVertexAttribArray { location: l });
                proof {
                    assert(final(gl).log() =~= old(gl).log() + self.disable_calls());
                }
            },
            Option::None => {
                proof {
                    assert(final(gl).log() =~= old(gl).log() + self.disable_calls());
                }
            },
        }
    }

    /// Sets up this slot's pointer geometry.
    pub fn pointer(&self, gl: &mut Context, offset: u32, stride: u32)
        requires
            old(gl).wf(),
            self.wf(),
        ensures
            final(gl).wf(),
            final(gl).log() == old(gl).log() + self.pointer_calls(offset, stride),
            final(gl).same_handles(*old(gl)),
    {
        match self.location {
            Option::Some(l) => {
                let call = if matches!(self.shape.scalar, AttribScalar::Float) {
                    GlCall::VertexAttribPointerF32 {
                        location: l,
                        size: self.shape.count,
                        type_code: self.shape.scalar.code(),
                        normalized: false,
                        stride,
                        offset,
                    }
                } else {
                    GlCall::VertexAttribPointerI32 {
                        location: l,
                        size: self.shape.count,
                        type_code: self.shape.scalar.code(),
                        stride,
                        offset,
                    }
                };
                gl.emit(call);
                proof {
                    assert(final(gl).log() =~= old(gl).log() + self.pointer_calls(offset, stride));
                }
            },
            Option::None => {
                proof {
                    assert(final(gl).log() =~= old(gl).log() + self.pointer_calls(offset, stride));
                }
            },
        }
    }
}

/// The total stride of an attribute list: the sum of the byte widths, in
/// declaration order.
pub open spec fn stride_of(items: Seq<Attrib>) -> int
    decreases items.len(),
{
    if items.len() == 0 {
        0
    } else {
        stride_of(items.drop_last()) + items.last().shape.spec_byte_width()
    }
}

/// The calls that enabling every slot of the list issues, in order.
pub open spec fn enables_of(items: Seq<Attrib>) -> Seq<GlCall>
    decreases items.len(),
{
    if items.len() == 0 {
        Seq::empty()
    } else {
        enables_of(items.drop_last()) + items.last().enable_calls()
    }
}

/// The calls that disabling every slot of the list issues, in order.
pub open spec fn disables_of(items: Seq<Attrib>) -> Seq<GlCall>
    decreases items.len(),
{
    if items.len() == 0 {
        Seq::empty()
    } else {
        disables_of(items.drop_last()) + items.last().disable_calls()
    }
}

/// The pointer-setup calls of the list, in order: each slot's offset is the
/// total width of the slots declared before it.
pub open spec fn pointers_of(items: Seq<Attrib>, stride: u32) -> Seq<GlCall>
    decreases items.len(),
{
    if items.len() == 0 {
        Seq::empty()
    } else {
        pointers_of(items.drop_last(), stride) + items.last().pointer_calls(
            stride_of(items.drop_last()) as u32,
            stride,
        )
    }
}

/// The ordered attribute list that shares one vertex buffer.
#[derive(Debug)]
pub struct Attribs {
    items: Vec<Attrib>,
}

impl Attribs {
    /// The attribute bindings, in declaration order.
    pub closed spec fn list(self) -> Seq<Attrib> {
        self.items@
    }

    /// Every shape is well-formed, and the list fits the API's small
    /// supply of attribute slots.
    pub open spec fn wf(self) -> bool {
        &&& forall|i: int| 0 <= i < self.list().len() ==> (#[trigger] self.list()[i]).wf()
        &&& self.list().len() <= 16
    }

    /// The common stride of the shared vertex buffer.
    pub open spec fn spec_stride(self) -> int {
        stride_of(self.list())
    }

    /// The offset of the `k`-th attribute: the total width of those
    /// declared before it.
    pub open spec fn spec_offset(self, k: int) -> int {
        stride_of(self.list().take(k))
    }

    /// Builds the list.
    pub fn new(items: Vec<Attrib>) -> (r: Attribs)
        requires
            forall|i: int| 0 <= i < items@.len() ==> (#[trigger] items@[i]).wf(),
            items@.len() <= 16,
        ensures
            r.wf(),
            r.list() == items@,
    {
        Attribs { items }
    }

    /// The calls that enabling the whole list issues: every slot is
    /// enabled in order, then every slot's pointer geometry is set with
    /// the common stride and the accumulated offsets.
    pub open spec fn spec_enable_calls(self) -> Seq<GlCall> {
        enables_of(self.list()) + pointers_of(self.list(), self.spec_stride() as u32)
    }

    /// The calls that disabling the whole list issues.
    pub open spec fn spec_disable_calls(self) -> Seq<GlCall> {
        disables_of(self.list())
    }

    /// Enables every slot and sets up its pointer geometry.
    pub fn enable_attribs(&self, gl: &mut Context)
        requires
            old(gl).wf(),
            self.wf(),
        ensures
            final(gl).wf(),
            final(gl).log() == old(gl).log() + self.spec_enable_calls(),
            final(gl).same_handles(*old(gl)),
    {
        let n = self.items.len();
        let mut i: usize = 0;
        while i < n
            invariant
                n == self.list().len(),
                i <= n,
                self.wf(),
                gl.wf(),
                gl.log() == old(gl).log() + enables_of(self.list().take(i as int)),
                gl.same_handles(*old(gl)),
            decreases n - i,
        {
            proof {
                assert(self.list().take(i as int + 1).drop_last() =~= self.list().take(i as int));
                assert(self.list().take(i as int + 1).last() == self.list()[i as int]);
            }
            self.items[i].enable_attrib(gl);
            proof {
                assert(gl.log() =~= old(gl).log() + enables_of(self.list().take(i as int + 1)));
            }
            i += 1;
        }
        proof {
            assert(self.list().take(n as int) =~= self.list());
        }
        let stride = self.stride();
        let mut offset: u32 = 0;
        let mut k: usize = 0;
        while k < n
            invariant
                n == self.list().len(),
                k <= n,
                self.wf(),
                gl.wf(),
                stride == self.spec_stride(),
                offset == stride_of(self.list().take(k as int)),
                offset <= 16 * k,
                gl.log() == old(gl).log() + enables_of(self.list()) + pointers_of(
                    self.list().take(k as int),
                    stride,
                ),
                gl.same_handles(*old(gl)),
            decreases n - k,
        {
            proof {
                assert(self.list().take(k as int + 1).drop_last() =~= self.list().take(k as int));
                assert(self.list().take(k as int + 1).last() == self.list()[k as int]);
            }
            self.items[k].pointer(gl, offset, stride);
            offset = offset + self.items[k].shape.byte_width();
            proof {
                assert(gl.log() =~= old(gl).log() + enables_of(self.list()) + pointers_of(
                    self.list().take(k as int + 1),
                    stride,
                ));
            }
            k += 1;
        }
        proof {
            assert(self.list().take(n as int) =~= self.list());
            assert(gl.log() =~= old(gl).log() + self.spec_enable_calls());
        }
    }

    /// Disables every slot.
    pub fn disable_attribs(&self, gl: &mut Context)
        requires
            old(gl).wf(),
            self.wf(),
        ensures
            final(gl).wf(),
            final(gl).log() == old(gl).log() + self.spec_disable_calls(),
            final(gl).same_handles(*old(gl)),
    {
        let n = self.items.len();
        let mut i: usize = 0;
        while i < n
            invariant
                n == self.list().len(),
                i <= n,
                self.wf(),
                gl.wf(),
                gl.log() == old(gl).log() + disables_of(self.list().take(i as int)),
                gl.same_handles(*old(gl)),
            decreases n - i,
        {
            proof {
                assert(self.list().take(i as int + 1).drop_last() =~= self.list().take(i as int));
                assert(self.list().take(i as int + 1).last() == self.list()[i as int]);
            }
            self.items[i].disable_attrib(gl);
            proof {
                assert(gl.log() =~= old(gl).log() + disables_of(self.list().take(i as int + 1)));
            }
            i += 1;
        }
        proof {
            assert(self.list().take(n as int) =~= self.list());
        }
    }

    /// Creates a vertex buffer suitable for this list: its element width
    /// is the common stride.
    pub fn buffer(&self, gl: &mut Context) -> (b: Buffer)
        requires
            old(gl).wf(),
            self.wf(),
            1 <= self.list().len(),
        ensures
            final(gl).wf(),
            b.valid(*final(gl)),
            b.spec_target() == BufferTarget::Array,
            b.spec_elem_size() == self.spec_stride(),
            b.spec_length() == 0,
            !old(gl).live_buffers().contains(b.spec_handle()),
            final(gl).live_buffers() == old(gl).live_buffers().insert(b.spec_handle()),
            final(gl).live_textures() == old(gl).live_textures(),
            final(gl).live_shaders() == old(gl).live_shaders(),
            final(gl).live_programs() == old(gl).live_programs(),
            final(gl).log() == old(gl).log().push(GlCall::CreateBuffer { buffer: b.spec_handle() }),
    {
        let stride = self.stride();
        proof {
            lemma_offset_monotone(*self, 0, self.list().len() as int);
            assert(self.list().take(0) =~= Seq::empty());
            assert(self.list().take(self.list().len() as int) =~= self.list());
        }
        Buffer::new(gl, BufferTarget::Array, stride)
    }

    /// Every shape is well-formed and the list fits the slot supply: the
    /// runtime form of [`Self::wf`].
    pub fn check_wf(&self) -> (r: bool)
        ensures
            r == self.wf(),
    {
        let n = self.items.len();
        if n > 16 {
            return false;
        }
        let mut i: usize = 0;
        while i < n
            invariant
                n == self.list().len(),
                i <= n,
                n <= 16,
                forall|j: int| 0 <= j < i ==> (#[trigger] self.list()[j]).wf(),
            decreases n - i,
        {
            let shape = self.items[i].shape;
            if shape.count < 1 || shape.count > 4 {
                return false;
            }
            i += 1;
        }
        true
    }

    /// The common stride, computed by summing the widths in order.
    pub fn stride(&self) -> (s: u32)
        requires
            self.wf(),
        ensures
            s == self.spec_stride(),
            s <= 256,
    {
        let mut total: u32 = 0;
        let n = self.items.len();
        let mut i: usize = 0;
        while i < n
            invariant
                n == self.list().len(),
                i <= n,
                self.wf(),
                total == stride_of(self.list().take(i as int)),
                total <= 16 * i,
            decreases n - i,
        {
            proof {
                assert(self.list().take(i as int + 1).drop_last() =~= self.list().take(i as int));
                assert(self.list().take(i as int + 1).last() == self.list()[i as int]);
            }
            total = total + self.items[i].shape.byte_width();
            i += 1;
        }
        proof {
            assert(self.list().take(n as int) =~= self.list());
        }
        total
    }
}

/// Each attribute's offset is the sum of the widths declared before it:
/// the offsets start at zero, grow by exactly the preceding width, and are
/// strictly increasing in declaration order; the last one ends at the
/// stride.
pub proof fn lemma_offsets_increasing(a: Attribs)
    requires
        a.wf(),
    ensures
        a.spec_offset(0) == 0,
        forall|k: int|
            0 <= k < a.list().len() ==> #[trigger] a.spec_offset(k + 1) == a.spec_offset(k)
                + a.list()[k].shape.spec_byte_width(),
        forall|j: int, k: int| 0 <= j < k <= a.list().len() ==> a.spec_offset(j) < a.spec_offset(k),
        a.spec_offset(a.list().len() as int) == a.spec_stride(),
    decreases a.list().len(),
{
    assert(a.list().take(0) =~= Seq::empty());
    assert forall|k: int|
        0 <= k < a.list().len() implies #[trigger] a.spec_offset(k + 1) == a.spec_offset(k)
        + a.list()[k].shape.spec_byte_width() by {
        assert(a.list().take(k + 1).drop_last() =~= a.list().take(k));
        assert(a.list().take(k + 1).last() == a.list()[k]);
    }
    assert forall|j: int, k: int|
        0 <= j < k <= a.list().len() implies a.spec_offset(j) < a.spec_offset(k) by {
        lemma_offset_monotone(a, j, k);
    }
    assert(a.list().take(a.list().len() as int) =~= a.list());
}

/// Every call of an attribute list's enable sequence is a slot enable or
/// a pointer setup, and every call of its disable sequence is a slot
/// disable: in particular, none of them is a draw call.
pub proof fn lemma_attrib_call_kinds(items: Seq<Attrib>, stride: u32)
    ensures
        forall|i: int|
            0 <= i < enables_of(items).len() ==> (#[trigger] enables_of(items)[i])
                is EnableVertexAttribArray,
        forall|i: int|
            0 <= i < pointers_of(items, stride).len() ==> (#[trigger] pointers_of(items, stride)[i])
                is VertexAttribPointerF32 || pointers_of(items, stride)[i]
                is VertexAttribPointerI32,
        forall|i: int|
            0 <= i < disables_of(items).len() ==> (#[trigger] disables_of(items)[i])
                is DisableVertexAttribArray,
    decreases items.len(),
{
    if items.len() > 0 {
        lemma_attrib_call_kinds(items.drop_last(), stride);
    }
}

/// Offsets grow strictly between any two positions, because every
/// well-formed shape is at least one byte wide.
proof fn lemma_offset_monotone(a: Attribs, j: int, k: int)
    requires
        a.wf(),
        0 <= j < k <= a.list().len(),
    ensures
        a.spec_offset(j) < a.spec_offset(k),
    decreases k - j,
{
    assert(a.list().take(k).drop_last() =~= a.list().take(k - 1));
    assert(a.list().take(k).last() == a.list()[k - 1]);
    assert(a.list()[k - 1].wf());
    let w = a.list()[k - 1].shape.scalar.spec_width();
    let c = a.list()[k - 1].shape.count;
    assert(w * c >= 1) by (nonlinear_arith)
        requires
            w >= 1,
            c >= 1,
    ;
    if j < k - 1 {
        lemma_offset_monotone(a, j, k - 1);
    }
}

} // verus!
