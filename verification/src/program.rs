//! Shader and program builds.
//!
//! Building is a pipeline: a shader is created, given its source and
//! compiled; a program is created, the compiled shaders attached, and
//! linked.  The compiler's and linker's verdicts come from the platform
//! layer as [`BuildStatus`] values.  A failed compile deletes the shader
//! and surfaces the diagnostic; a failed link detaches and deletes every
//! constituent shader and deletes the program, so no partial state
//! survives a failed build.  Name lookups that fail produce inert
//! bindings rather than errors.

use vstd::prelude::*;
use crate::gl::{Context, GlCall};
use crate::attrib::{Attrib, AttribShape};
use crate::uniform::Uniform;

verus! {

broadcast use {vstd::seq_lib::group_seq_properties, vstd::set::group_set_axioms};

/// The stage a shader compiles for.
#[derive(Clone, Copy, PartialEq, Eq, Debug)]
pub enum ShaderType {
    Vertex,
    Fragment,
}

impl ShaderType {
    /// The API's code for this stage.
    pub open spec fn spec_code(self) -> u32 {
        match self {
            ShaderType::Vertex => crate::gl::VERTEX_SHADER,
            ShaderType::Fragment => crate::gl::FRAGMENT_SHADER,
        }
    }

    /// The API's code for this stage.
    pub fn code(self) -> (c: u32)
        ensures
            c == self.spec_code(),
    {
        match self {
            ShaderType::Vertex => crate::gl::VERTEX_SHADER,
            ShaderType::Fragment => crate::gl::FRAGMENT_SHADER,
        }
    }
}

/// The verdict the API reported for a compile or link step, with the
/// diagnostic log when the step failed.
#[derive(Clone, PartialEq, Eq, Debug)]
pub enum BuildStatus {
    Success,
    Failure(String),
}

/// One compiled shader.
#[derive(Debug)]
pub struct Shader {
    handle: u64,
}

impl Shader {
    /// The model handle of the shader.
    pub closed spec fn spec_handle(self) -> u64 {
        self.handle
    }

    /// The shader is usable against `gl`: its handle is alive.
    pub open spec fn valid(self, gl: Context) -> bool {
        gl.live_shaders().contains(self.spec_handle())
    }

    /// Creates a shader of the given stage from `source` and compiles
    /// it; `status` is the verdict the API's compiler reported.  On
    /// failure the shader is deleted and the diagnostic returned: the
    /// set of live shader handles is exactly what it was before.
    pub fn new(gl: &mut Context, typ: ShaderType, source: &str, status: BuildStatus) -> (r: Result<
        Shader,
        String,
    >)
        requires
            old(gl).wf(),
        ensures
            final(gl).wf(),
            final(gl).live_buffers() == old(gl).live_buffers(),
            final(gl).live_textures() == old(gl).live_textures(),
            final(gl).live_programs() == old(gl).live_programs(),
            r is Ok <==> status is Success,
            r is Ok ==> {
                &&& r.unwrap().valid(*final(gl))
                &&& !old(gl).live_shaders().contains(r.unwrap().spec_handle())
                &&& final(gl).live_shaders() == old(gl).live_shaders().insert(
                    r.unwrap().spec_handle(),
                )
                &&& final(gl).log() == old(gl).log() + seq![
                    GlCall::CreateShader {
                        shader: r.unwrap().spec_handle(),
                        type_code: typ.spec_code(),
                    },
                    GlCall::ShaderSource { shader: r.unwrap().spec_handle() },
                    GlCall::CompileShader { shader: r.unwrap().spec_handle() },
                ]
            },
            r is Err ==> {
                &&& status matches BuildStatus::Failure(log) && r.unwrap_err() == log
                &&& final(gl).live_shaders() == old(gl).live_shaders()
                &&& exists|h: u64|
                    final(gl).log() == old(gl).log() + seq![
                        GlCall::CreateShader { shader: h, type_code: typ.spec_code() },
                        GlCall::ShaderSource { shader: h },
                        GlCall::CompileShader { shader: h },
                        GlCall::DeleteShader { shader: h },
                    ]
            },
    {
        let handle = gl.create_shader(typ.code());
        gl.emit(GlCall::ShaderSource { shader: handle });
        gl.emit(GlCall::CompileShader { shader: handle });
        match status {
            BuildStatus::Success => {
                proof {
                    assert(final(gl).log() =~= old(gl).log() + seq![
                        GlCall::CreateShader { shader: handle, type_code: typ.spec_code() },
                        GlCall::ShaderSource { shader: handle },
                        GlCall::CompileShader { shader: handle },
                    ]);
                }
                Ok(Shader { handle })
            },
            BuildStatus::Failure(log) => {
                gl.delete_shader(handle);
                proof {
                    assert(final(gl).live_shaders() =~= old(gl).live_shaders());
                    assert(final(gl).log() =~= old(gl).log() + seq![
                        GlCall::CreateShader { shader: handle, type_code: typ.spec_code() },
                        GlCall::ShaderSource { shader: handle },
                        GlCall::CompileShader { shader: handle },
                        GlCall::DeleteShader { shader: handle },
                    ]);
                }
                Err(log)
            },
        }
    }

    /// Deletes the shader.  Linking does this for every attached shader,
    /// so it is rarely needed directly.
    pub fn del(self, gl: &mut Context)
        requires
            old(gl).wf(),
            self.valid(*old(gl)),
        ensures
            final(gl).wf(),
            final(gl).live_shaders() == old(gl).live_shaders().remove(self.spec_handle()),
            final(gl).live_buffers() == old(gl).live_buffers(),
            final(gl).live_textures() == old(gl).live_textures(),
            final(gl).live_programs() == old(gl).live_programs(),
            final(gl).log() == old(gl).log().push(GlCall::DeleteShader { shader: self.spec_handle() }),
    {
        gl.delete_shader(self.handle);
    }
}

/// The handles of a shader list, as a set.
pub open spec fn shader_handles(shaders: Seq<Shader>) -> Set<u64> {
    shaders.map_values(|s: Shader| s.spec_handle()).to_set()
}

/// The attach calls of a link, in shader order.
pub open spec fn attaches_of(program: u64, shaders: Seq<Shader>) -> Seq<GlCall>
    decreases shaders.len(),
{
    if shaders.len() == 0 {
        Seq::empty()
    } else {
        attaches_of(program, shaders.drop_last()) + seq![
            GlCall::AttachShader { program, shader: shaders.last().spec_handle() },
        ]
    }
}

/// The detach-and-delete calls that follow a link, in shader order.
pub open spec fn cleanup_of(program: u64, shaders: Seq<Shader>) -> Seq<GlCall>
    decreases shaders.len(),
{
    if shaders.len() == 0 {
        Seq::empty()
    } else {
        cleanup_of(program, shaders.drop_last()) + seq![
            GlCall::DetachShader { program, shader: shaders.last().spec_handle() },
            GlCall::DeleteShader { shader: shaders.last().spec_handle() },
        ]
    }
}

/// One linked program.
#[derive(Debug)]
pub struct Program {
    handle: u64,
}

impl Program {
    /// The model handle of the program.
    pub closed spec fn spec_handle(self) -> u64 {
        self.handle
    }

    /// The program is usable against `gl`: its handle is alive.
    pub open spec fn valid(self, gl: Context) -> bool {
        gl.live_programs().contains(self.spec_handle())
    }

    /// Creates a program, attaches the given shaders and links it;
    /// `status` is the verdict the API's linker reported.  Whether or
    /// not the link succeeds, every shader is detached and deleted; on
    /// failure the program is deleted too and the diagnostic returned,
    /// so a failed build leaves no live shader and no new live program
    /// handle.
    pub fn new(gl: &mut Context, shaders: Vec<Shader>, status: BuildStatus) -> (r: Result<
        Program,
        String,
    >)
        requires
            old(gl).wf(),
            forall|i: int|
                0 <= i < shaders@.len() ==> (#[trigger] shaders@[i]).valid(*old(gl)),
            forall|i: int, j: int|
                0 <= i < shaders@.len() && 0 <= j < shaders@.len() && i != j
                    ==> shaders@[i].spec_handle() != shaders@[j].spec_handle(),
        ensures
            final(gl).wf(),
            final(gl).live_buffers() == old(gl).live_buffers(),
            final(gl).live_textures() == old(gl).live_textures(),
            final(gl).live_shaders() == old(gl).live_shaders().difference(
                shader_handles(shaders@),
            ),
            r is Ok <==> status is Success,
            r is Ok ==> {
                &&& r.unwrap().valid(*final(gl))
                &&& !old(gl).live_programs().contains(r.unwrap().spec_handle())
                &&& final(gl).live_programs() == old(gl).live_programs().insert(
                    r.unwrap().spec_handle(),
                )
                &&& final(gl).log() == old(gl).log() + seq![
                    GlCall::CreateProgram { program: r.unwrap().spec_handle() },
                ] + attaches_of(r.unwrap().spec_handle(), shaders@) + seq![
                    GlCall::LinkProgram { program: r.unwrap().spec_handle() },
                ] + cleanup_of(r.unwrap().spec_handle(), shaders@)
            },
            r is Err ==> {
                &&& status matches BuildStatus::Failure(log) && r.unwrap_err() == log
                &&& final(gl).live_programs() == old(gl).live_programs()
                &&& exists|p: u64|
                    final(gl).log() == old(gl).log() + seq![GlCall::CreateProgram { program: p }]
                        + attaches_of(p, shaders@) + seq![GlCall::LinkProgram { program: p }]
                        + cleanup_of(p, shaders@) + seq![GlCall::DeleteProgram { program: p }]
            },
    {
        let ghost prior: Context = *gl;
        let program = gl.create_program();
        let n = shaders.len();
        let mut i: usize = 0;
        while i < n
            invariant
                n == shaders@.len(),
                i <= n,
                gl.wf(),
                forall|k: int| 0 <= k < n ==> (#[trigger] shaders@[k]).valid(prior),
                gl.live_shaders() == prior.live_shaders(),
                gl.live_buffers() == prior.live_buffers(),
                gl.live_textures() == prior.live_textures(),
                gl.live_programs() == prior.live_programs().insert(program),
                !prior.live_programs().contains(program),
                gl.log() == prior.log() + seq![GlCall::CreateProgram { program }] + attaches_of(
                    program,
                    shaders@.take(i as int),
                ),
            decreases n - i,
        {
            proof {
                assert(shaders@.take(i as int + 1).drop_last() =~= shaders@.take(i as int));
                assert(shaders@.take(i as int + 1).last() == shaders@[i as int]);
            }
            gl.emit(GlCall::AttachShader { program, shader: shaders[i].handle });
            proof {
                assert(gl.log() =~= prior.log() + seq![GlCall::CreateProgram { program }]
                    + attaches_of(program, shaders@.take(i as int + 1)));
            }
            i += 1;
        }
        proof {
            assert(shaders@.take(n as int) =~= shaders@);
        }
        gl.emit(GlCall::LinkProgram { program });
        let ghost linked: Context = *gl;
        let mut k: usize = 0;
        while k < n
            invariant
                n == shaders@.len(),
                k <= n,
                gl.wf(),
                forall|j: int| 0 <= j < n ==> (#[trigger] shaders@[j]).valid(prior),
                forall|i2: int, j2: int|
                    0 <= i2 < n && 0 <= j2 < n && i2 != j2 ==> shaders@[i2].spec_handle()
                        != shaders@[j2].spec_handle(),
                linked.live_shaders() == prior.live_shaders(),
                gl.live_shaders() == prior.live_shaders().difference(
                    shader_handles(shaders@.take(k as int)),
                ),
                gl.live_buffers() == linked.live_buffers(),
                gl.live_textures() == linked.live_textures(),
                gl.live_programs() == linked.live_programs(),
                gl.log() == linked.log() + cleanup_of(program, shaders@.take(k as int)),
            decreases n - k,
        {
            proof {
                assert(shaders@.take(k as int + 1).drop_last() =~= shaders@.take(k as int));
                assert(shaders@.take(k as int + 1).last() == shaders@[k as int]);
                assert(shaders@[k as int].valid(prior));
                assert(!shader_handles(shaders@.take(k as int)).contains(
                    shaders@[k as int].spec_handle(),
                )) by {
                    let hs = shaders@.take(k as int).map_values(|s: Shader| s.spec_handle());
                    if hs.contains(shaders@[k as int].spec_handle()) {
                        let j = choose|j: int|
                            0 <= j < hs.len() && hs[j] == shaders@[k as int].spec_handle();
                        assert(shaders@[j].spec_handle() == shaders@[k as int].spec_handle());
                        assert(false);
                    }
                }
                assert(gl.live_shaders().contains(shaders@[k as int].spec_handle()));
            }
            gl.emit(GlCall::DetachShader { program, shader: shaders[k].handle });
            gl.delete_shader(shaders[k].handle);
            proof {
                assert(gl.log() =~= linked.log() + cleanup_of(
                    program,
                    shaders@.take(k as int + 1),
                ));
                let hs_new = shader_handles(shaders@.take(k as int + 1));
                let hs_old = shader_handles(shaders@.take(k as int));
                assert(shaders@.take(k as int + 1).map_values(|s: Shader| s.spec_handle())
                    =~= shaders@.take(k as int).map_values(|s: Shader| s.spec_handle()).push(
                    shaders@[k as int].spec_handle(),
                ));
                assert(hs_new =~= hs_old.insert(shaders@[k as int].spec_handle()));
                assert(gl.live_shaders() =~= prior.live_shaders().difference(hs_new));
            }
            k += 1;
        }
        proof {
            assert(shaders@.take(n as int) =~= shaders@);
        }
        match status {
            BuildStatus::Success => {
                proof {
                    assert(final(gl).log() =~= old(gl).log() + seq![
                        GlCall::CreateProgram { program },
                    ] + attaches_of(program, shaders@) + seq![
                        GlCall::LinkProgram { program },
                    ] + cleanup_of(program, shaders@));
                }
                Ok(Program { handle: program })
            },
            BuildStatus::Failure(log) => {
                gl.delete_program(program);
                proof {
                    assert(final(gl).live_programs() =~= old(gl).live_programs());
                    assert(final(gl).log() =~= old(gl).log() + seq![
                        GlCall::CreateProgram { program },
                    ] + attaches_of(program, shaders@) + seq![
                        GlCall::LinkProgram { program },
                    ] + cleanup_of(program, shaders@) + seq![
                        GlCall::DeleteProgram { program },
                    ]);
                }
                Err(log)
            },
        }
    }

    /// The program's handle is alive: the runtime form of
    /// [`Self::valid`].
    pub fn check_valid(&self, gl: &Context) -> (r: bool)
        ensures
            r == self.valid(*gl),
    {
        gl.is_live_program(self.handle)
    }

    /// Deletes the program.
    pub fn del(self, gl: &mut Context)
        requires
            old(gl).wf(),
            self.valid(*old(gl)),
        ensures
            final(gl).wf(),
            final(gl).live_programs() == old(gl).live_programs().remove(self.spec_handle()),
            final(gl).live_buffers() == old(gl).live_buffers(),
            final(gl).live_textures() == old(gl).live_textures(),
            final(gl).live_shaders() == old(gl).live_shaders(),
            final(gl).log() == old(gl).log().push(
                GlCall::DeleteProgram { program: self.spec_handle() },
            ),
    {
        gl.delete_program(self.handle);
    }

    /// Makes the program current for rendering.
    pub fn enable(&self, gl: &mut Context)
        requires
            old(gl).wf(),
        ensures
            final(gl).wf(),
            final(gl).log() == old(gl).log().push(
                GlCall::UseProgram { program: self.spec_handle() },
            ),
            final(gl).same_handles(*old(gl)),
    {
        gl.emit(GlCall::UseProgram { program: self.handle });
    }

    /// Makes no program current.
    pub fn disable(&self, gl: &mut Context)
        requires
            old(gl).wf(),
        ensures
            final(gl).wf(),
            final(gl).log() == old(gl).log().push(GlCall::UseProgram { program: 0 }),
            final(gl).same_handles(*old(gl)),
    {
        gl.emit(GlCall::UseProgram { program: 0 });
    }

    /// Wraps the location the API resolved for a uniform name, or an
    /// inert binding when the lookup found nothing; the missing name was
    /// already reported where the lookup ran.
    pub fn uniform(&self, _name: &str, location: Option<u32>) -> (u: Uniform)
        ensures
            u == (Uniform { location }),
    {
        Uniform::new(location)
    }

    /// Wraps the location the API resolved for an attribute name, or an
    /// inert binding when the lookup found nothing.
    pub fn attrib(&self, _name: &str, location: Option<u32>, shape: AttribShape) -> (a: Attrib)
        requires
            shape.wf(),
        ensures
            a == (Attrib { location, shape }),
    {
        Attrib::new(location, shape)
    }
}

} // verus!
