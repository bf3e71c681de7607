//! Uniform location bindings.
//!
//! A [`Uniform`] holds the location a program resolved for a uniform's
//! name, or nothing when the name was not found; loading through an
//! unresolved binding is a silent no-op, as the diagnostic was already
//! emitted when the program was built.  A [`UniformValue`] is one of the
//! closed set of shapes the API can upload: scalars, two- to
//! four-component vectors, and square matrices with a direct or
//! transposed layout.  Floating-point components are carried as bit
//! patterns.

use vstd::prelude::*;
use crate::gl::{Context, GlCall};

verus! {

/// One value of a shape the API can upload to a uniform slot.
#[derive(Clone, Copy, PartialEq, Eq, Debug)]
pub enum UniformValue {
    Int(i32),
    IntVec2(i32, i32),
    IntVec3(i32, i32, i32),
    IntVec4(i32, i32, i32, i32),
    Float(u32),
    FloatVec2(u32, u32),
    FloatVec3(u32, u32, u32),
    FloatVec4(u32, u32, u32, u32),
    /// A square matrix of the given dimension; the flag asks the API to
    /// transpose during the upload.
    Matrix(u32, bool),
}

impl UniformValue {
    /// Matrices must be two-, three- or four-dimensional.
    pub open spec fn wf(self) -> bool {
        match self {
            UniformValue::Matrix(dim, _) => 2 <= dim <= 4,
            _ => true,
        }
    }

    /// The call that uploads this value to `location`.
    pub open spec fn spec_call(self, location: u32) -> GlCall {
        match self {
            UniformValue::Int(x) => GlCall::Uniform1I32 { location, x },
            UniformValue::IntVec2(x, y) => GlCall::Uniform2I32 { location, x, y },
            UniformValue::IntVec3(x, y, z) => GlCall::Uniform3I32 { location, x, y, z },
            UniformValue::IntVec4(x, y, z, w) => GlCall::Uniform4I32 { location, x, y, z, w },
            UniformValue::Float(x_bits) => GlCall::Uniform1F32 { location, x_bits },
            UniformValue::FloatVec2(x_bits, y_bits) => GlCall::Uniform2F32 {
                location,
                x_bits,
                y_bits,
            },
            UniformValue::FloatVec3(x_bits, y_bits, z_bits) => GlCall::Uniform3F32 {
                location,
                x_bits,
                y_bits,
                z_bits,
            },
            UniformValue::FloatVec4(x_bits, y_bits, z_bits, w_bits) => GlCall::Uniform4F32 {
                location,
                x_bits,
                y_bits,
                z_bits,
                w_bits,
            },
            UniformValue::Matrix(dim, transpose) => GlCall::UniformMatrixF32 {
                location,
                dim,
                transpose,
            },
        }
    }

    /// The call that uploads this value to `location`.
    pub fn upload_call(self, location: u32) -> (c: GlCall)
        ensures
            c == self.spec_call(location),
    {
        match self {
            UniformValue::Int(x) => GlCall::Uniform1I32 { location, x },
            UniformValue::IntVec2(x, y) => GlCall::Uniform2I32 { location, x, y },
            UniformValue::IntVec3(x, y, z) => GlCall::Uniform3I32 { location, x, y, z },
            UniformValue::IntVec4(x, y, z, w) => GlCall::Uniform4I32 { location, x, y, z, w },
            UniformValue::Float(x_bits) => GlCall::Uniform1F32 { location, x_bits },
            UniformValue::FloatVec2(x_bits, y_bits) => GlCall::Uniform2F32 {
                location,
                x_bits,
                y_bits,
            },
            UniformValue::FloatVec3(x_bits, y_bits, z_bits) => GlCall::Uniform3F32 {
                location,
                x_bits,
                y_bits,
                z_bits,
            },
            UniformValue::FloatVec4(x_bits, y_bits, z_bits, w_bits) => GlCall::Uniform4F32 {
                location,
                x_bits,
                y_bits,
                z_bits,
                w_bits,
            },
            UniformValue::Matrix(dim, transpose) => GlCall::UniformMatrixF32 {
                location,
                dim,
                transpose,
            },
        }
    }
}

/// Types that can serve as uniform data.
pub trait AsUniform {
    /// The uploadable value this datum stands for.
    spec fn spec_uniform(self) -> UniformValue;

    /// The uploadable value this datum stands for.
    fn as_uniform(self) -> (v: UniformValue)
        ensures
            v == self.spec_uniform(),
    ;
}

impl AsUniform for i32 {
    open spec fn spec_uniform(self) -> UniformValue {
        UniformValue::Int(self)
    }

    fn as_uniform(self) -> (v: UniformValue) {
        UniformValue::Int(self)
    }
}

/// A matrix upload that hands the data to the API in its stored order.
#[derive(Clone, Copy, PartialEq, Eq, Debug)]
pub struct Direct(pub u32);

/// A matrix upload that asks the API to transpose during the transfer.
#[derive(Clone, Copy, PartialEq, Eq, Debug)]
pub struct Transposed(pub u32);

impl AsUniform for Direct {
    open spec fn spec_uniform(self) -> UniformValue {
        UniformValue::Matrix(self.0, false)
    }

    fn as_uniform(self) -> (v: UniformValue) {
        UniformValue::Matrix(self.0, false)
    }
}

impl AsUniform for Transposed {
    open spec fn spec_uniform(self) -> UniformValue {
        UniformValue::Matrix(self.0, true)
    }

    fn as_uniform(self) -> (v: UniformValue) {
        UniformValue::Matrix(self.0, true)
    }
}

/// A uniform slot binding: the location the program resolved, or nothing
/// when the name was not found.
#[derive(Clone, Copy, PartialEq, Eq, Debug)]
pub struct Uniform {
    pub location: Option<u32>,
}

impl Uniform {
    /// Builds a binding for a resolved (or unresolved) location.
    pub fn new(location: Option<u32>) -> (u: Uniform)
        ensures
            u == (Uniform { location }),
    {
        Uniform { location }
    }

    /// The calls a load of `value` issues: one upload through a resolved
    /// location, nothing through an unresolved one.
    pub open spec fn load_calls(self, value: UniformValue) -> Seq<GlCall> {
        match self.location {
            Option::Some(l) => seq![value.spec_call(l)],
            Option::None => Seq::empty(),
        }
    }

    /// Uploads `value`, or does nothing if the name never resolved.
    pub fn load(&self, gl: &mut Context, value: UniformValue)
        requires
            old(gl).wf(),
        ensures
            final(gl).wf(),
            final(gl).log() == old(gl).log() + self.load_calls(value),
            final(gl).same_handles(*old(gl)),
    {
        match self.location {
            Option::Some(l) => {
                gl.emit(value.upload_call(l));
                proof {
                    assert(final(gl).log() =~= old(gl).log() + self.load_calls(value));
                }
            },
            Option::None => {
                proof {
                    assert(final(gl).log() =~= old(gl).log() + self.load_calls(value));
                }
            },
        }
    }
}

} // verus!
