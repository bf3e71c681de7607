//! The triangle demo: a program with one two-component float attribute,
//! one float-pair offset uniform, and a three-vertex buffer, rendered as
//! a single triangle.

use vstd::prelude::*;
use crate::gl::{Context, GlCall};
use crate::attrib::{Attrib, Attribs, AttribScalar, AttribShape};
use crate::buffer::{Buffer, Draw, DrawMode, Geometry};
use crate::program::{BuildStatus, Program, Shader, ShaderType};
use crate::uniform::{Uniform, UniformValue};

verus! {

/// The vertex stage: places each vertex at its position plus the shared
/// offset.
pub const VERTEX_SOURCE: &'static str = "attribute vec2 position;\nuniform vec2 offset;\nvoid main() {\n    gl_Position = vec4(position + offset, 0.0, 1.0);\n}\n";

/// The fragment stage: a solid colour.
pub const FRAGMENT_SOURCE: &'static str = "precision mediump float;\nvoid main() {\n    gl_FragColor = vec4(0.4, 0.8, 0.9, 1.0);\n}\n";

/// The verdicts and name resolutions the platform reports while the demo
/// builds: one compile verdict per stage, the link verdict, and the
/// locations the API found for the two shader variables.
pub struct DemoBuild {
    pub vertex_compile: BuildStatus,
    pub fragment_compile: BuildStatus,
    pub link: BuildStatus,
    pub position_location: Option<u32>,
    pub offset_location: Option<u32>,
}

/// The demo's state: the linked program, the offset uniform, the triangle
/// geometry, and the current offset as float bit patterns.
pub struct Demo {
    program: Program,
    uniform: Uniform,
    geometry: Geometry,
    offset: (u32, u32),
}

impl Demo {
    /// The linked program.
    pub closed spec fn spec_program(self) -> Program {
        self.program
    }

    /// The offset uniform binding.
    pub closed spec fn spec_uniform(self) -> Uniform {
        self.uniform
    }

    /// The triangle geometry.
    pub closed spec fn spec_geometry(self) -> Geometry {
        self.geometry
    }

    /// The current offset, as float bit patterns.
    pub closed spec fn spec_offset(self) -> (u32, u32) {
        self.offset
    }

    /// The demo is usable against `gl`.
    pub open spec fn valid(self, gl: Context) -> bool {
        &&& self.spec_program().valid(gl)
        &&& self.spec_geometry().valid(gl)
    }

    /// The demo can render against `gl`: the runtime form of
    /// [`Self::valid`].
    pub fn check_valid(&self, gl: &Context) -> (r: bool)
        ensures
            r == self.valid(*gl),
    {
        self.program.check_valid(gl) && self.geometry.check_valid(gl)
    }

    /// Builds the demo: compiles the two stages, links them, resolves the
    /// attribute and uniform names, and loads the three float-pair
    /// vertices.  The first verdict that failed decides the error; on
    /// failure no program and no buffer outlives the call.
    pub fn new(gl: &mut Context, build: DemoBuild) -> (r: Result<Demo, String>)
        requires
            old(gl).wf(),
        ensures
            final(gl).wf(),
            final(gl).extends(*old(gl)),
            r is Ok <==> (build.vertex_compile is Success && build.fragment_compile is Success
                && build.link is Success),
            r is Ok ==> ({
                let d = r.unwrap();
                &&& d.valid(*final(gl))
                &&& d.spec_offset() == (0u32, 0u32)
                &&& d.spec_uniform() == (Uniform { location: build.offset_location })
                &&& d.spec_geometry().spec_length() == 3
                &&& d.spec_geometry().vertices.spec_contents() == triangle_vertex_bytes()
                &&& d.spec_geometry().vertices.spec_elem_size() == 8
                &&& d.spec_geometry().attribs.list().len() == 1
                &&& d.spec_geometry().attribs.list()[0] == (Attrib {
                    location: build.position_location,
                    shape: AttribShape { scalar: AttribScalar::Float, count: 2 },
                })
            }),
            r matches Result::Err(e) ==> ({
                &&& (build.vertex_compile matches BuildStatus::Failure(l) ==> e == l)
                &&& (build.vertex_compile is Success ==> (build.fragment_compile matches
                    BuildStatus::Failure(l) ==> e == l))
                &&& (build.vertex_compile is Success && build.fragment_compile is Success ==> (
                build.link matches BuildStatus::Failure(l) ==> e == l))
                &&& final(gl).live_programs() == old(gl).live_programs()
                &&& final(gl).live_buffers() == old(gl).live_buffers()
            }),
    {
        let ghost g0: Context = *gl;
        let vertex_shader = match Shader::new(gl, ShaderType::Vertex, VERTEX_SOURCE, build.vertex_compile) {
            Ok(s) => s,
            Err(e) => {
                proof {
                    lemma_prefix_here(g0, *gl);
                }
                return Err(e);
            },
        };
        let ghost g1: Context = *gl;
        let fragment_shader = match Shader::new(
            gl,
            ShaderType::Fragment,
            FRAGMENT_SOURCE,
            build.fragment_compile,
        ) {
            Ok(s) => s,
            Err(e) => {
                proof {
                    lemma_prefix_here(g1, *gl);
                    crate::gl::lemma_prefix_transitive(g0.log(), g1.log(), gl.log());
                }
                return Err(e);
            },
        };
        let ghost g2: Context = *gl;
        let mut shaders: Vec<Shader> = Vec::new();
        shaders.push(vertex_shader);
        shaders.push(fragment_shader);
        let program = match Program::new(gl, shaders, build.link) {
            Ok(p) => p,
            Err(e) => {
                proof {
                    lemma_prefix_here(g2, *gl);
                    crate::gl::lemma_prefix_transitive(g0.log(), g2.log(), gl.log());
                }
                return Err(e);
            },
        };
        let ghost g3: Context = *gl;
        let attrib = program.attrib(
            "position",
            build.position_location,
            AttribShape { scalar: AttribScalar::Float, count: 2 },
        );
        let uniform = program.uniform("offset", build.offset_location);
        let mut items: Vec<Attrib> = Vec::new();
        items.push(attrib);
        let attribs = Attribs::new(items);
        proof {
            let list = attribs.list();
            assert(list.len() == 1);
            assert(list.drop_last() =~= Seq::<Attrib>::empty());
            assert(crate::attrib::stride_of(Seq::<Attrib>::empty()) == 0);
            assert(list.last() == attrib);
            assert(attrib.shape.spec_byte_width() == 8);
            assert(crate::attrib::stride_of(list) == crate::attrib::stride_of(list.drop_last())
                + list.last().shape.spec_byte_width());
            assert(crate::attrib::stride_of(list) == 8);
        }
        let mut vertex: Buffer = attribs.buffer(gl);
        let ghost g4: Context = *gl;
        let data = triangle_bytes();
        vertex.load(gl, data.as_slice());
        proof {
            lemma_prefix_here(g3, g4);
            lemma_prefix_here(g4, *gl);
            crate::gl::lemma_prefix_transitive(g0.log(), g2.log(), g3.log());
            crate::gl::lemma_prefix_transitive(g0.log(), g3.log(), g4.log());
            crate::gl::lemma_prefix_transitive(g0.log(), g4.log(), gl.log());
        }
        let offset = (0u32, 0u32);
        Ok(Demo { program, uniform, geometry: Geometry { vertices: vertex, attribs }, offset })
    }

    /// Releases the demo's program and vertex buffer.
    pub fn del(self, gl: &mut Context)
        requires
            old(gl).wf(),
            self.valid(*old(gl)),
        ensures
            final(gl).wf(),
            final(gl).live_programs() == old(gl).live_programs().remove(
                self.spec_program().spec_handle(),
            ),
            final(gl).live_buffers() == old(gl).live_buffers().remove(
                self.spec_geometry().vertices.spec_handle(),
            ),
            final(gl).live_textures() == old(gl).live_textures(),
            final(gl).live_shaders() == old(gl).live_shaders(),
    {
        let Demo { program, uniform: _, geometry, offset: _ } = self;
        program.del(gl);
        geometry.vertices.del(gl);
    }

    /// Replaces the offset the next render uploads.
    pub fn set_offset(&mut self, x_bits: u32, y_bits: u32)
        ensures
            final(self).spec_offset() == (x_bits, y_bits),
            final(self).spec_program() == old(self).spec_program(),
            final(self).spec_uniform() == old(self).spec_uniform(),
            final(self).spec_geometry() == old(self).spec_geometry(),
    {
        self.offset = (x_bits, y_bits);
    }

    /// The calls one render issues: program on, offset upload, one full
    /// triangle draw, program off.
    pub open spec fn render_calls(self) -> Seq<GlCall> {
        seq![GlCall::UseProgram { program: self.spec_program().spec_handle() }]
            + self.spec_uniform().load_calls(
            UniformValue::FloatVec2(self.spec_offset().0, self.spec_offset().1),
        ) + self.spec_geometry().draw_calls(
            DrawMode::Triangles,
            0,
            self.spec_geometry().spec_length(),
        ) + seq![GlCall::UseProgram { program: 0 }]
    }

    /// Renders one frame.
    pub fn render(&self, gl: &mut Context)
        requires
            old(gl).wf(),
            self.valid(*old(gl)),
        ensures
            final(gl).wf(),
            final(gl).log() == old(gl).log() + self.render_calls(),
            final(gl).same_handles(*old(gl)),
    {
        self.program.enable(gl);
        self.uniform.load(gl, UniformValue::FloatVec2(self.offset.0, self.offset.1));
        self.geometry.draw(gl, DrawMode::Triangles);
        self.program.disable(gl);
        proof {
            assert(final(gl).log() =~= old(gl).log() + self.render_calls());
        }
    }
}

/// The three float-pair vertices of the triangle as little-endian float
/// bit patterns: `(0, 1/2)`, `(-1/2, -1/2)`, `(1/2, -1/2)`.
pub open spec fn triangle_vertex_bytes() -> Seq<u8> {
    f32_le_bytes(0x0000_0000) + f32_le_bytes(0x3F00_0000) + f32_le_bytes(0xBF00_0000)
        + f32_le_bytes(0xBF00_0000) + f32_le_bytes(0x3F00_0000) + f32_le_bytes(0xBF00_0000)
}

/// One float bit pattern, least significant byte first.
pub open spec fn f32_le_bytes(bits: u32) -> Seq<u8> {
    seq![
        (bits & 0xFF) as u8,
        ((bits >> 8) & 0xFF) as u8,
        ((bits >> 16) & 0xFF) as u8,
        ((bits >> 24) & 0xFF) as u8,
    ]
}

/// The three float-pair vertices of the triangle, as little-endian bit
/// patterns: `(0, 1/2)`, `(-1/2, -1/2)`, `(1/2, -1/2)`.
pub fn triangle_bytes() -> (r: Vec<u8>)
    ensures
        r@ == triangle_vertex_bytes(),
        r@.len() == 24,
{
    let mut out: Vec<u8> = Vec::new();
    push_f32_bits(&mut out, 0x0000_0000);
    push_f32_bits(&mut out, 0x3F00_0000);
    push_f32_bits(&mut out, 0xBF00_0000);
    push_f32_bits(&mut out, 0xBF00_0000);
    push_f32_bits(&mut out, 0x3F00_0000);
    push_f32_bits(&mut out, 0xBF00_0000);
    proof {
        assert(out@ =~= triangle_vertex_bytes());
    }
    out
}

/// The log of `post` begins with the log of `pre`: every step of the
/// build only appends calls.
proof fn lemma_prefix_here(pre: Context, post: Context)
    requires
        pre.log().len() <= post.log().len(),
        pre.log() =~= post.log().subrange(0, pre.log().len() as int),
    ensures
        pre.log().is_prefix_of(post.log()),
{
}

/// Appends one float's bit pattern, least significant byte first.
fn push_f32_bits(out: &mut Vec<u8>, bits: u32)
    ensures
        (*final(out))@ == (*old(out))@ + f32_le_bytes(bits),
{
    out.push((bits & 0xFF) as u8);
    out.push(((bits >> 8) & 0xFF) as u8);
    out.push(((bits >> 16) & 0xFF) as u8);
    out.push(((bits >> 24) & 0xFF) as u8);
}

} // verus!
