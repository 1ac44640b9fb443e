//! Shader programs and typed uniform binding.
//!
//! A program is built from one combined source text holding both
//! stages behind `#ifdef VERTEX_SHADER` / `#ifdef FRAGMENT_SHADER`
//! guards.  Compilation is an exchange with the driver: the library
//! records the calls to issue, the host replays them and feeds each
//! status query's answer back into a [`ShaderCompile`] session, and
//! the session decides the next calls.  Its contracts pin the whole
//! protocol: a stage is only compiled after the previous one
//! succeeded, linking only after both stages, and on every failing
//! path both shader objects (and, after a failed link, the program)
//! are deleted before the error is reported.
//!
//! A [`Uniform`] pairs a driver-reported location with the type the
//! caller declared; updating it with a value of any other shape is
//! rejected before a single GL call is recorded.

use vstd::prelude::*;

use crate::gl::{Gl, GlCommand, Mat4Desc, ShaderStage, Vec3S, Vec4S};

verus! {

/// The GLSL version preamble prepended to every stage's source.
pub const GLSL_VERSION: &'static str = "#version 300 es\n";

/// The preprocessor define selecting the vertex compilation unit.
pub const SHADER_VERTEX_DEF: &'static str = "#define VERTEX_SHADER\n";

/// The preprocessor define selecting the fragment compilation unit.
pub const SHADER_FRAGMENT_DEF: &'static str = "#define FRAGMENT_SHADER\n";

/// How many diagnostic bytes are captured from a failing stage.
pub const SHADER_LOG_CAP: u32 = 1024;

/// The preprocessor define a [`GlCommand::ShaderSource`] command
/// inserts between the version preamble and the user source.
pub fn stage_define(stage: ShaderStage) -> (s: &'static str)
    ensures
        stage == ShaderStage::Vertex ==> s == SHADER_VERTEX_DEF,
        stage == ShaderStage::Fragment ==> s == SHADER_FRAGMENT_DEF,
{
    match stage {
        ShaderStage::Vertex => SHADER_VERTEX_DEF,
        ShaderStage::Fragment => SHADER_FRAGMENT_DEF,
    }
}

/// The declared type of a uniform.
#[derive(Clone, Copy, Debug, PartialEq, Eq, Structural)]
pub enum UnifomType {
    I32,
    F32,
    Matrix4x4,
    Vec3,
    Vec4,
}

/// A value handed to a uniform update, tagged by its shape.
///
/// A plain float travels as its IEEE-754 bit pattern; vector entries
/// the engine computes itself are exact rationals.
#[derive(Clone, Copy, Debug, PartialEq)]
pub enum UniformValue {
    I32(i32),
    F32Bits(u32),
    Matrix4x4(Mat4Desc),
    Vec3(Vec3S),
    Vec4(Vec4S),
}

/// The shape of a uniform value, as a declared type tag.
pub open spec fn uniform_value_type(v: UniformValue) -> UnifomType {
    match v {
        UniformValue::I32(_) => UnifomType::I32,
        UniformValue::F32Bits(_) => UnifomType::F32,
        UniformValue::Matrix4x4(_) => UnifomType::Matrix4x4,
        UniformValue::Vec3(_) => UnifomType::Vec3,
        UniformValue::Vec4(_) => UnifomType::Vec4,
    }
}

/// The single GL call an accepted update issues.
pub open spec fn uniform_command(location: i32, v: UniformValue) -> GlCommand {
    match v {
        UniformValue::I32(x) => GlCommand::Uniform1i { location, value: x },
        UniformValue::F32Bits(b) => GlCommand::Uniform1f { location, bits: b },
        UniformValue::Matrix4x4(m) => GlCommand::UniformMatrix4 { location, matrix: m },
        UniformValue::Vec3(a) => GlCommand::Uniform3 { location, value: a },
        UniformValue::Vec4(a) => GlCommand::Uniform4 { location, value: a },
    }
}

/// Why a uniform update was rejected.
#[derive(Clone, Copy, Debug, PartialEq, Eq, Structural)]
pub enum UniformError {
    /// The value's shape does not match the declared type.
    TypeMismatch,
    /// The stored location is the not-found sentinel `-1`.
    Unresolved,
}

impl UniformError {
    /// The diagnostic message for this rejection.
    pub fn message(&self) -> (s: &'static str)
        ensures
            *self == UniformError::TypeMismatch ==> s
                == "Trying to update a shader Uniform with wrong type.",
            *self == UniformError::Unresolved ==> s == "Was Unable to update value!",
    {
        match self {
            UniformError::TypeMismatch => "Trying to update a shader Uniform with wrong type.",
            UniformError::Unresolved => "Was Unable to update value!",
        }
    }
}

/// What an update of uniform `u` with value `v` does: either the one
/// GL call to issue, or the rejection.  The type check comes first,
/// then the location check.
pub open spec fn update_decision(u: Uniform, v: UniformValue) -> Result<GlCommand, UniformError> {
    if uniform_value_type(v) != u.u_type {
        Err(UniformError::TypeMismatch)
    } else if u.location == -1 {
        Err(UniformError::Unresolved)
    } else {
        Ok(uniform_command(u.location, v))
    }
}

/// A uniform slot: a driver-reported location paired with the type
/// the caller declared for it.
#[derive(Clone, Copy, Debug)]
pub struct Uniform {
    /// The location the driver reported; `-1` means "not found".
    pub location: i32,
    /// The declared type every update is checked against.
    pub u_type: UnifomType,
}

impl Uniform {
    /// Updates the uniform, recording the single GL call appropriate
    /// to the value's shape, or rejects the value without recording
    /// anything: with a type-mismatch error when the shape differs
    /// from the declared type, and with an unresolvable error when
    /// the location is the not-found sentinel.
    pub fn update_value(&self, gl: &mut Gl, value: UniformValue) -> (r: Result<(), UniformError>)
        ensures
            (update_decision(*self, value) matches Ok(c) ==> r == Ok::<(), UniformError>(())
                && final(gl).commands@ == old(gl).commands@.push(c)),
            (update_decision(*self, value) matches Err(e) ==> r == Err::<(), UniformError>(e)
                && *final(gl) == *old(gl)),
            final(gl).next_handle == old(gl).next_handle,
            final(gl).max_texture_units == old(gl).max_texture_units,
    {
        let tag = match value {
            UniformValue::I32(_) => UnifomType::I32,
            UniformValue::F32Bits(_) => UnifomType::F32,
            UniformValue::Matrix4x4(_) => UnifomType::Matrix4x4,
            UniformValue::Vec3(_) => UnifomType::Vec3,
            UniformValue::Vec4(_) => UnifomType::Vec4,
        };
        if tag != self.u_type {
            return Err(UniformError::TypeMismatch);
        }
        if self.location == -1 {
            return Err(UniformError::Unresolved);
        }
        let cmd = match value {
            UniformValue::I32(x) => GlCommand::Uniform1i { location: self.location, value: x },
            UniformValue::F32Bits(b) => GlCommand::Uniform1f { location: self.location, bits: b },
            UniformValue::Matrix4x4(m) => GlCommand::UniformMatrix4 {
                location: self.location,
                matrix: m,
            },
            UniformValue::Vec3(a) => GlCommand::Uniform3 { location: self.location, value: a },
            UniformValue::Vec4(a) => GlCommand::Uniform4 { location: self.location, value: a },
        };
        gl.emit(cmd);
        Ok(())
    }
}

/// A linked GPU program.  The handle is owned: releasing it with
/// [`Shader::delete`] consumes the value, so it is released at most
/// once.
#[derive(Debug)]
pub struct Shader {
    pub program: u32,
}

/// Which step of the compile/link exchange failed.
#[derive(Clone, Copy, Debug, PartialEq, Eq, Structural)]
pub enum CompileStage {
    Vertex,
    Fragment,
    Link,
}

/// Where a [`ShaderCompile`] session stands.
#[derive(Clone, Copy, Debug, PartialEq, Eq, Structural)]
pub enum CompileState {
    /// The vertex stage was compiled; its status answer is due.
    VertexPending,
    /// The fragment stage was compiled; its status answer is due.
    FragmentPending,
    /// The program was linked; its status answer is due.
    LinkPending,
    /// A step failed; the diagnostic log bytes are due.
    LogPending { stage: CompileStage },
    /// The session ended in a program or an error.
    Done,
}

/// A failed compilation: the failing step and its diagnostic log,
/// capped at [`SHADER_LOG_CAP`] bytes.
#[derive(Debug)]
pub struct CompileError {
    pub stage: CompileStage,
    pub log: Vec<u8>,
}

/// One compile/link exchange with the driver.
///
/// [`Shader::init`] records the setup calls and compiles the vertex
/// stage; the host answers each recorded status query through
/// [`vertex_status`](Self::vertex_status),
/// [`fragment_status`](Self::fragment_status) and
/// [`link_status`](Self::link_status), and ends a failed session with
/// [`provide_log`](Self::provide_log).  The contracts guarantee that
/// both shader objects are deleted on every path, and the program
/// exactly when linking failed.
#[derive(Debug)]
pub struct ShaderCompile {
    pub program: u32,
    pub v_shader: u32,
    pub f_shader: u32,
    pub state: CompileState,
}

impl Shader {
    /// Begins compiling `src` as a program: creates the program and
    /// both shader objects, sets both stage sources (version
    /// preamble, stage define, then `src`), and compiles the vertex
    /// stage.  The returned session awaits the vertex status.
    pub fn init(gl: &mut Gl, src: &str) -> (c: ShaderCompile)
        requires
            old(gl).next_handle < u32::MAX - 2,
        ensures
            c.program == old(gl).next_handle,
            c.v_shader == old(gl).next_handle + 1,
            c.f_shader == old(gl).next_handle + 2,
            c.state == CompileState::VertexPending,
            final(gl).next_handle == old(gl).next_handle + 3,
            final(gl).max_texture_units == old(gl).max_texture_units,
            final(gl).commands@.len() == old(gl).commands@.len() + 7,
            final(gl).commands@.subrange(0, old(gl).commands@.len() as int) == old(gl).commands@,
            final(gl).commands@[old(gl).commands@.len() as int] == (GlCommand::CreateProgram {
                program: c.program,
            }),
            final(gl).commands@[old(gl).commands@.len() as int + 1] == (GlCommand::CreateShader {
                shader: c.v_shader,
                stage: ShaderStage::Vertex,
            }),
            final(gl).commands@[old(gl).commands@.len() as int + 2] == (GlCommand::CreateShader {
                shader: c.f_shader,
                stage: ShaderStage::Fragment,
            }),
            (final(gl).commands@[old(gl).commands@.len() as int + 3] matches GlCommand::ShaderSource {
                shader,
                stage,
                source,
            } && shader == c.v_shader && stage == ShaderStage::Vertex && source@ == src@),
            (final(gl).commands@[old(gl).commands@.len() as int + 4] matches GlCommand::ShaderSource {
                shader,
                stage,
                source,
            } && shader == c.f_shader && stage == ShaderStage::Fragment && source@ == src@),
            final(gl).commands@[old(gl).commands@.len() as int + 5] == (GlCommand::CompileShader {
                shader: c.v_shader,
            }),
            final(gl).commands@[old(gl).commands@.len() as int + 6] == (
            GlCommand::GetShaderCompileStatus { shader: c.v_shader }),
    {
        let ghost n = gl.commands@.len() as int;
        let program = gl.fresh_handle();
        let v_shader = gl.fresh_handle();
        let f_shader = gl.fresh_handle();
        gl.emit(GlCommand::CreateProgram { program });
        gl.emit(GlCommand::CreateShader { shader: v_shader, stage: ShaderStage::Vertex });
        gl.emit(GlCommand::CreateShader { shader: f_shader, stage: ShaderStage::Fragment });
        gl.emit(
            GlCommand::ShaderSource {
                shader: v_shader,
                stage: ShaderStage::Vertex,
                source: String::from_str(src),
            },
        );
        gl.emit(
            GlCommand::ShaderSource {
                shader: f_shader,
                stage: ShaderStage::Fragment,
                source: String::from_str(src),
            },
        );
        gl.emit(GlCommand::CompileShader { shader: v_shader });
        gl.emit(GlCommand::GetShaderCompileStatus { shader: v_shader });
        proof {
            assert(gl.commands@.subrange(0, n) =~= old(gl).commands@);
        }
        ShaderCompile { program, v_shader, f_shader, state: CompileState::VertexPending }
    }

    /// Looks up the named uniform on this program, pairing the
    /// location the driver reported for it with the caller's declared
    /// type.  The declared type is the caller's assertion; the lookup
    /// does not verify it.  Records the activation and the location
    /// query whose answer `location` is.
    pub fn uniform(&self, gl: &mut Gl, name: &'static str, u_type: UnifomType, location: i32) -> (u:
        Uniform)
        ensures
            u == (Uniform { location, u_type }),
            final(gl).commands@.len() == old(gl).commands@.len() + 2,
            final(gl).commands@.subrange(0, old(gl).commands@.len() as int) == old(gl).commands@,
            final(gl).commands@[old(gl).commands@.len() as int] == (GlCommand::UseProgram {
                program: self.program,
            }),
            (final(gl).commands@[old(gl).commands@.len() as int + 1]
                matches GlCommand::GetUniformLocation { program, name: n } && program
                == self.program && n@ == name@),
            final(gl).next_handle == old(gl).next_handle,
            final(gl).max_texture_units == old(gl).max_texture_units,
    {
        let ghost n0 = gl.commands@.len() as int;
        gl.emit(GlCommand::UseProgram { program: self.program });
        gl.emit(GlCommand::GetUniformLocation { program: self.program, name: String::from_str(name) });
        proof {
            assert(gl.commands@.subrange(0, n0) =~= old(gl).commands@);
        }
        Uniform { location, u_type }
    }

    /// Makes this program the active one for subsequent GL calls.
    pub fn use_(&self, gl: &mut Gl)
        ensures
            final(gl).commands@ == old(gl).commands@.push(
                GlCommand::UseProgram { program: self.program },
            ),
            final(gl).next_handle == old(gl).next_handle,
            final(gl).max_texture_units == old(gl).max_texture_units,
    {
        gl.emit(GlCommand::UseProgram { program: self.program });
    }

    /// Releases the program handle.
    pub fn delete(self, gl: &mut Gl)
        ensures
            final(gl).commands@ == old(gl).commands@.push(
                GlCommand::DeleteProgram { program: self.program },
            ),
            final(gl).next_handle == old(gl).next_handle,
            final(gl).max_texture_units == old(gl).max_texture_units,
    {
        gl.emit(GlCommand::DeleteProgram { program: self.program });
    }
}

impl ShaderCompile {
    /// Feeds back the vertex stage's compile status.  On success the
    /// fragment stage is compiled and its status becomes due; on
    /// failure the vertex log is fetched and both shader objects are
    /// deleted.
    pub fn vertex_status(&mut self, gl: &mut Gl, ok: bool)
        requires
            old(self).state == CompileState::VertexPending,
        ensures
            final(self).program == old(self).program,
            final(self).v_shader == old(self).v_shader,
            final(self).f_shader == old(self).f_shader,
            final(gl).next_handle == old(gl).next_handle,
            final(gl).max_texture_units == old(gl).max_texture_units,
            ok ==> final(self).state == CompileState::FragmentPending && final(gl).commands@
                == old(gl).commands@ + seq![
                GlCommand::CompileShader { shader: old(self).f_shader },
                GlCommand::GetShaderCompileStatus { shader: old(self).f_shader },
            ],
            !ok ==> final(self).state == (CompileState::LogPending {
                stage: CompileStage::Vertex,
            }) && final(gl).commands@ == old(gl).commands@ + seq![
                GlCommand::GetShaderInfoLog { shader: old(self).v_shader, max_len: SHADER_LOG_CAP },
                GlCommand::DeleteShader { shader: old(self).v_shader },
                GlCommand::DeleteShader { shader: old(self).f_shader },
            ],
    {
        if ok {
            gl.emit(GlCommand::CompileShader { shader: self.f_shader });
            gl.emit(GlCommand::GetShaderCompileStatus { shader: self.f_shader });
            self.state = CompileState::FragmentPending;
            proof {
                assert(gl.commands@ =~= old(gl).commands@ + seq![
                    GlCommand::CompileShader { shader: old(self).f_shader },
                    GlCommand::GetShaderCompileStatus { shader: old(self).f_shader },
                ]);
            }
        } else {
            gl.emit(
                GlCommand::GetShaderInfoLog { shader: self.v_shader, max_len: SHADER_LOG_CAP },
            );
            gl.emit(GlCommand::DeleteShader { shader: self.v_shader });
            gl.emit(GlCommand::DeleteShader { shader: self.f_shader });
            self.state = CompileState::LogPending { stage: CompileStage::Vertex };
            proof {
                assert(gl.commands@ =~= old(gl).commands@ + seq![
                    GlCommand::GetShaderInfoLog {
                        shader: old(self).v_shader,
                        max_len: SHADER_LOG_CAP,
                    },
                    GlCommand::DeleteShader { shader: old(self).v_shader },
                    GlCommand::DeleteShader { shader: old(self).f_shader },
                ]);
            }
        }
    }

    /// Feeds back the fragment stage's compile status.  On success
    /// both stages are attached and the program is linked; on failure
    /// the fragment log is fetched and both shader objects are
    /// deleted.
    pub fn fragment_status(&mut self, gl: &mut Gl, ok: bool)
        requires
            old(self).state == CompileState::FragmentPending,
        ensures
            final(self).program == old(self).program,
            final(self).v_shader == old(self).v_shader,
            final(self).f_shader == old(self).f_shader,
            final(gl).next_handle == old(gl).next_handle,
            final(gl).max_texture_units == old(gl).max_texture_units,
            ok ==> final(self).state == CompileState::LinkPending && final(gl).commands@ == old(
                gl,
            ).commands@ + seq![
                GlCommand::AttachShader { program: old(self).program, shader: old(self).v_shader },
                GlCommand::AttachShader { program: old(self).program, shader: old(self).f_shader },
                GlCommand::LinkProgram { program: old(self).program },
                GlCommand::GetProgramLinkStatus { program: old(self).program },
            ],
            !ok ==> final(self).state == (CompileState::LogPending {
                stage: CompileStage::Fragment,
            }) && final(gl).commands@ == old(gl).commands@ + seq![
                GlCommand::GetShaderInfoLog { shader: old(self).f_shader, max_len: SHADER_LOG_CAP },
                GlCommand::DeleteShader { shader: old(self).v_shader },
                GlCommand::DeleteShader { shader: old(self).f_shader },
            ],
    {
        if ok {
            gl.emit(GlCommand::AttachShader { program: self.program, shader: self.v_shader });
            gl.emit(GlCommand::AttachShader { program: self.program, shader: self.f_shader });
            gl.emit(GlCommand::LinkProgram { program: self.program });
            gl.emit(GlCommand::GetProgramLinkStatus { program: self.program });
            self.state = CompileState::LinkPending;
            proof {
                assert(gl.commands@ =~= old(gl).commands@ + seq![
                    GlCommand::AttachShader {
                        program: old(self).program,
                        shader: old(self).v_shader,
                    },
                    GlCommand::AttachShader {
                        program: old(self).program,
                        shader: old(self).f_shader,
                    },
                    GlCommand::LinkProgram { program: old(self).program },
                    GlCommand::GetProgramLinkStatus { program: old(self).program },
                ]);
            }
        } else {
            gl.emit(
                GlCommand::GetShaderInfoLog { shader: self.f_shader, max_len: SHADER_LOG_CAP },
            );
            gl.emit(GlCommand::DeleteShader { shader: self.v_shader });
            gl.emit(GlCommand::DeleteShader { shader: self.f_shader });
            self.state = CompileState::LogPending { stage: CompileStage::Fragment };
            proof {
                assert(gl.commands@ =~= old(gl).commands@ + seq![
                    GlCommand::GetShaderInfoLog {
                        shader: old(self).f_shader,
                        max_len: SHADER_LOG_CAP,
                    },
                    GlCommand::DeleteShader { shader: old(self).v_shader },
                    GlCommand::DeleteShader { shader: old(self).f_shader },
                ]);
            }
        }
    }

    /// Feeds back the link status.  On success both shaders are
    /// detached from the program, no longer needed once linked, and
    /// deleted, and the linked [`Shader`] is returned.  On failure
    /// the program log is fetched and the program and both shaders
    /// are deleted.
    pub fn link_status(&mut self, gl: &mut Gl, ok: bool) -> (r: Option<Shader>)
        requires
            old(self).state == CompileState::LinkPending,
        ensures
            final(self).program == old(self).program,
            final(self).v_shader == old(self).v_shader,
            final(self).f_shader == old(self).f_shader,
            final(gl).next_handle == old(gl).next_handle,
            final(gl).max_texture_units == old(gl).max_texture_units,
            ok ==> final(self).state == CompileState::Done && (r matches Some(s) && s.program
                == old(self).program) && final(gl).commands@ == old(gl).commands@ + seq![
                GlCommand::DetachShader { program: old(self).program, shader: old(self).v_shader },
                GlCommand::DetachShader { program: old(self).program, shader: old(self).f_shader },
                GlCommand::DeleteShader { shader: old(self).v_shader },
                GlCommand::DeleteShader { shader: old(self).f_shader },
            ],
            !ok ==> final(self).state == (CompileState::LogPending {
                stage: CompileStage::Link,
            }) && r is None && final(gl).commands@ == old(gl).commands@ + seq![
                GlCommand::GetProgramInfoLog {
                    program: old(self).program,
                    max_len: SHADER_LOG_CAP,
                },
                GlCommand::DeleteProgram { program: old(self).program },
                GlCommand::DeleteShader { shader: old(self).v_shader },
                GlCommand::DeleteShader { shader: old(self).f_shader },
            ],
    {
        if ok {
            gl.emit(GlCommand::DetachShader { program: self.program, shader: self.v_shader });
            gl.emit(GlCommand::DetachShader { program: self.program, shader: self.f_shader });
            gl.emit(GlCommand::DeleteShader { shader: self.v_shader });
            gl.emit(GlCommand::DeleteShader { shader: self.f_shader });
            self.state = CompileState::Done;
            proof {
                assert(gl.commands@ =~= old(gl).commands@ + seq![
                    GlCommand::DetachShader {
                        program: old(self).program,
                        shader: old(self).v_shader,
                    },
                    GlCommand::DetachShader {
                        program: old(self).program,
                        shader: old(self).f_shader,
                    },
                    GlCommand::DeleteShader { shader: old(self).v_shader },
                    GlCommand::DeleteShader { shader: old(self).f_shader },
                ]);
            }
            Some(Shader { program: self.program })
        } else {
            gl.emit(
                GlCommand::GetProgramInfoLog { program: self.program, max_len: SHADER_LOG_CAP },
            );
            gl.emit(GlCommand::DeleteProgram { program: self.program });
            gl.emit(GlCommand::DeleteShader { shader: self.v_shader });
            gl.emit(GlCommand::DeleteShader { shader: self.f_shader });
            self.state = CompileState::LogPending { stage: CompileStage::Link };
            proof {
                assert(gl.commands@ =~= old(gl).commands@ + seq![
                    GlCommand::GetProgramInfoLog {
                        program: old(self).program,
                        max_len: SHADER_LOG_CAP,
                    },
                    GlCommand::DeleteProgram { program: old(self).program },
                    GlCommand::DeleteShader { shader: old(self).v_shader },
                    GlCommand::DeleteShader { shader: old(self).f_shader },
                ]);
            }
            None
        }
    }

    /// Ends a failed session with the log bytes the host fetched,
    /// capped at [`SHADER_LOG_CAP`] bytes, as the error payload.
    pub fn provide_log(&mut self, log: Vec<u8>) -> (e: CompileError)
        requires
            old(self).state matches CompileState::LogPending { stage: _ },
        ensures
            final(self).program == old(self).program,
            final(self).v_shader == old(self).v_shader,
            final(self).f_shader == old(self).f_shader,
            final(self).state == CompileState::Done,
            (old(self).state matches CompileState::LogPending { stage } ==> e.stage == stage),
            e.log@ == (if log@.len() <= SHADER_LOG_CAP {
                log@
            } else {
                log@.take(SHADER_LOG_CAP as int)
            }),
    {
        let stage = match self.state {
            CompileState::LogPending { stage } => stage,
            _ => CompileStage::Vertex,
        };
        self.state = CompileState::Done;
        let mut log = log;
        if log.len() > SHADER_LOG_CAP as usize {
            log.truncate(SHADER_LOG_CAP as usize);
        }
        CompileError { stage, log }
    }
}

/// Are `s` exactly the two GL calls one uniform lookup records:
/// activate the program, then query the named location?
pub open spec fn is_uniform_lookup(s: Seq<GlCommand>, program: u32, name: Seq<char>) -> bool {
    &&& s.len() == 2
    &&& s[0] == (GlCommand::UseProgram { program })
    &&& (s[1] matches GlCommand::GetUniformLocation { program: p, name: n } && p == program && n@
        == name)
}

/// Law: a correctly-typed update on a resolved location always
/// succeeds.  For every uniform whose stored location is not the
/// not-found sentinel and every value whose shape matches the
/// declared type, the update decision is to issue exactly the GL call
/// for that shape, and no error is reported.  Together with
/// [`ShaderCompile::link_status`], which hands out a program exactly
/// when every stage of a source compiled and linked, this says that a
/// program built from a valid source accepts every correctly-typed
/// uniform update.
pub proof fn lemma_typed_update_on_resolved_location_succeeds(u: Uniform, v: UniformValue)
    requires
        u.u_type == uniform_value_type(v),
        u.location != -1,
    ensures
        update_decision(u, v) == Ok::<GlCommand, UniformError>(uniform_command(u.location, v)),
{
}

/// Law: a mismatched update never reaches the driver.  For every
/// uniform and every value whose shape differs from the declared
/// type, the update decision is the type-mismatch error, whatever the
/// stored location; by [`Uniform::update_value`]'s contract the
/// command stream is then left untouched.
pub proof fn lemma_mismatched_update_is_rejected(u: Uniform, v: UniformValue)
    requires
        u.u_type != uniform_value_type(v),
    ensures
        update_decision(u, v) == Err::<GlCommand, UniformError>(UniformError::TypeMismatch),
{
}

} // verus!
