//! The GL command stream and its recorder.
//!
//! The engine never calls a GPU driver directly.  Every GPU-facing
//! operation appends [`GlCommand`] values to a [`Gl`] recorder, in the
//! exact order the driver must see them; a host layer replays the
//! stream against the real API.  Driver responses (a compile status, a
//! uniform location, the window size) come back into the library as
//! plain values.
//!
//! Scalar payloads are exact: a value the engine computes itself is an
//! integer rational ([`Scalar`]), a value it merely forwards is an
//! IEEE-754 single-precision bit pattern (`u32`).  Matrices whose
//! entries would need trigonometry are carried symbolically as a
//! [`Mat4Desc`] naming the inputs; the host evaluates them.

use vstd::prelude::*;

verus! {

/// An exact scalar: the rational `num / den`.
///
/// Well-formed scalars keep `den > 0`; integers use `den == 1`.
#[derive(Clone, Copy, Debug, PartialEq, Eq, Structural)]
pub struct Scalar {
    pub num: i32,
    pub den: i32,
}

impl Scalar {
    /// Is the denominator positive, as every constructed scalar keeps it?
    pub open spec fn wf(self) -> bool {
        self.den > 0
    }

    /// The rational `num / den`.
    pub fn new(num: i32, den: i32) -> (s: Scalar)
        requires
            den > 0,
        ensures
            s == (Scalar { num, den }),
    {
        Scalar { num, den }
    }

    /// The integer `n` as a scalar.
    pub fn whole(n: i32) -> (s: Scalar)
        ensures
            s == (Scalar { num: n, den: 1 }),
    {
        Scalar { num: n, den: 1 }
    }
}

/// An integer point in screen pixels (top-left origin).
#[derive(Clone, Copy, Debug, PartialEq, Eq, Structural)]
pub struct Vec2i {
    pub x: i32,
    pub y: i32,
}

/// A 3-vector of exact scalars.
#[derive(Clone, Copy, Debug, PartialEq, Eq, Structural)]
pub struct Vec3S {
    pub x: Scalar,
    pub y: Scalar,
    pub z: Scalar,
}

/// A 4-vector of exact scalars.
#[derive(Clone, Copy, Debug, PartialEq, Eq, Structural)]
pub struct Vec4S {
    pub x: Scalar,
    pub y: Scalar,
    pub z: Scalar,
    pub w: Scalar,
}

/// The two stages of a shader program.
#[derive(Clone, Copy, Debug, PartialEq, Eq, Structural)]
pub enum ShaderStage {
    Vertex,
    Fragment,
}

/// A 4x4 matrix named by the inputs it is built from.
///
/// The host evaluates the description to sixteen floats when it
/// replays the stream; the library only decides which matrix is sent.
#[derive(Clone, Copy, Debug, PartialEq, Eq, Structural)]
pub enum Mat4Desc {
    /// The identity matrix.
    Identity,
    /// An orthographic projection mapping `[0, width] x [height, 0]`
    /// screen pixels onto clip space, with near `-1` and far `1`
    /// (top-left origin).
    Ortho { width: i32, height: i32 },
    /// The sprite model matrix: scale a unit quad to `cell_size`
    /// pixels, rotate by the given angle (degrees, an IEEE-754 bit
    /// pattern) about the Z axis, then translate the quad center to
    /// `(pos_x + cell_size/2, pos_y + cell_size/2)`.
    SpriteModel { cell_size: i32, pos_x: i32, pos_y: i32, rotation_deg_bits: u32 },
}

/// The texel formats the engine uploads, by channel count.
#[derive(Clone, Copy, Debug, PartialEq, Eq, Structural)]
pub enum TexFormat {
    /// One channel.
    Red,
    /// Three channels.
    Rgb,
    /// Four channels.
    Rgba,
}

/// The texture parameters the engine sets.
#[derive(Clone, Copy, Debug, PartialEq, Eq, Structural)]
pub enum TexParamName {
    WrapS,
    WrapT,
    MinFilter,
    MagFilter,
}

/// The parameter values the engine uses.
#[derive(Clone, Copy, Debug, PartialEq, Eq, Structural)]
pub enum TexParamValue {
    ClampToEdge,
    Nearest,
}

/// One GL call, with its full payload.
///
/// Handles (`program`, `shader`, `texture`, `buffer`, `array`) are
/// names the library assigns from a private counter; the host keeps
/// the map from each name to the handle the driver handed out.  The
/// name `0` always means "unbind".  A `Get...` command is a query: the
/// host feeds its response back into the library as a plain value.
#[allow(inconsistent_fields)]
#[derive(Clone, Debug, PartialEq)]
pub enum GlCommand {
    CreateProgram { program: u32 },
    CreateShader { shader: u32, stage: ShaderStage },
    /// Set the shader's source to the fixed GLSL version preamble,
    /// then the preprocessor define selecting `stage`, then `source`.
    ShaderSource { shader: u32, stage: ShaderStage, source: String },
    CompileShader { shader: u32 },
    /// Query: did the last compile of `shader` succeed?
    GetShaderCompileStatus { shader: u32 },
    /// Query: up to `max_len` bytes of the shader's diagnostic log.
    GetShaderInfoLog { shader: u32, max_len: u32 },
    AttachShader { program: u32, shader: u32 },
    LinkProgram { program: u32 },
    /// Query: did the last link of `program` succeed?
    GetProgramLinkStatus { program: u32 },
    /// Query: up to `max_len` bytes of the program's diagnostic log.
    GetProgramInfoLog { program: u32, max_len: u32 },
    DetachShader { program: u32, shader: u32 },
    DeleteShader { shader: u32 },
    DeleteProgram { program: u32 },
    UseProgram { program: u32 },
    /// Query: the location of the named uniform, `-1` if absent.
    GetUniformLocation { program: u32, name: String },
    Uniform1i { location: i32, value: i32 },
    Uniform1f { location: i32, bits: u32 },
    UniformMatrix4 { location: i32, matrix: Mat4Desc },
    Uniform3 { location: i32, value: Vec3S },
    Uniform4 { location: i32, value: Vec4S },
    GenTexture { texture: u32 },
    BindTexture { texture: u32 },
    ActiveTexture { unit: u32 },
    TexParameter { pname: TexParamName, value: TexParamValue },
    PixelStoreUnpackAlignment { alignment: u32 },
    /// Upload `pixels` to the bound texture, level 0, no border.
    TexImage2d { format: TexFormat, width: i32, height: i32, pixels: Vec<u8> },
    DeleteTexture { texture: u32 },
    GenBuffer { buffer: u32 },
    BindBuffer { buffer: u32 },
    /// Fill the bound buffer with static-draw data: `data` holds
    /// IEEE-754 single-precision bit patterns.
    BufferDataStatic { data: Vec<u32> },
    /// Allocate `floats` single-precision slots of dynamic-draw
    /// storage in the bound buffer, contents undefined.
    BufferDataReserveDynamic { floats: u32 },
    /// Replace the bound buffer's dynamic-draw contents with `data`.
    BufferDataDynamic { data: Vec<Scalar> },
    DeleteBuffer { buffer: u32 },
    GenVertexArray { array: u32 },
    BindVertexArray { array: u32 },
    /// Configure attribute `index`: `size` floats per vertex, at
    /// `offset_bytes` within a vertex of `stride_bytes`.
    VertexAttribPointer { index: u32, size: u32, stride_bytes: u32, offset_bytes: u32 },
    EnableVertexAttribArray { index: u32 },
    /// Draw `count` vertices starting at `first` as triangles.
    DrawTriangles { first: i32, count: i32 },
    DeleteVertexArray { array: u32 },
    EnableBlend,
    DisableBlend,
    /// Standard alpha blending: source alpha, one minus source alpha.
    BlendFuncAlpha,
}

/// The recorder every GPU-facing operation appends its GL calls to.
pub struct Gl {
    /// The commands recorded so far, in issue order.
    pub commands: Vec<GlCommand>,
    /// The next unused handle name; `0` is reserved for "unbind".
    pub next_handle: u32,
    /// The driver's combined texture image unit limit, queried by the
    /// host at startup.
    pub max_texture_units: u32,
}

impl Gl {
    /// An empty recorder for a context with the given texture unit limit.
    pub fn new(max_texture_units: u32) -> (gl: Gl)
        ensures
            gl.commands@ == Seq::<GlCommand>::empty(),
            gl.next_handle == 1,
            gl.max_texture_units == max_texture_units,
    {
        Gl { commands: Vec::new(), next_handle: 1, max_texture_units }
    }

    /// Hands out a fresh handle name.
    pub(crate) fn fresh_handle(&mut self) -> (h: u32)
        requires
            old(self).next_handle < u32::MAX,
        ensures
            h == old(self).next_handle,
            final(self).next_handle == old(self).next_handle + 1,
            final(self).commands == old(self).commands,
            final(self).max_texture_units == old(self).max_texture_units,
    {
        let h = self.next_handle;
        self.next_handle = self.next_handle + 1;
        h
    }

    /// Appends one command to the stream.
    pub(crate) fn emit(&mut self, c: GlCommand)
        ensures
            final(self).commands@ == old(self).commands@.push(c),
            final(self).next_handle == old(self).next_handle,
            final(self).max_texture_units == old(self).max_texture_units,
    {
        self.commands.push(c);
    }
}

/// How many triangle draw calls a command sequence holds.
pub open spec fn count_draw_calls(s: Seq<GlCommand>) -> int
    decreases s.len(),
{
    if s.len() == 0 {
        0
    } else {
        count_draw_calls(s.drop_last()) + (if s.last() is DrawTriangles {
            1int
        } else {
            0int
        })
    }
}

/// Law: draw calls add up over concatenation.
pub proof fn lemma_count_draw_calls_add(a: Seq<GlCommand>, b: Seq<GlCommand>)
    ensures
        count_draw_calls(a + b) == count_draw_calls(a) + count_draw_calls(b),
    decreases b.len(),
{
    if b.len() == 0 {
        assert(a + b =~= a);
    } else {
        lemma_count_draw_calls_add(a, b.drop_last());
        assert((a + b).drop_last() =~= a + b.drop_last());
        assert((a + b).last() == b.last());
    }
}

/// Law: a sequence without a triangle draw counts none.
pub proof fn lemma_count_draw_calls_none(s: Seq<GlCommand>)
    requires
        forall|k: int| 0 <= k < s.len() ==> !(#[trigger] s[k] is DrawTriangles),
    ensures
        count_draw_calls(s) == 0,
    decreases s.len(),
{
    if s.len() > 0 {
        lemma_count_draw_calls_none(s.drop_last());
    }
}

/// The GL error flags a diagnostic sweep can drain.
#[derive(Clone, Copy, Debug, PartialEq, Eq, Structural)]
pub enum GlErrorKind {
    InvalidEnum,
    InvalidValue,
    InvalidOperation,
    InvalidFramebufferOperation,
    OutOfMemory,
}

/// The diagnostic line reported for each drained error flag.
pub open spec fn gl_error_description_spec(e: GlErrorKind) -> Seq<char> {
    match e {
        GlErrorKind::InvalidEnum => "GL_INVALID_ENUM: An unacceptable value is specified for an enumerated argument. The offending command is ignored and has no other side effect than to set the error flag."@,
        GlErrorKind::InvalidValue => "GL_INVALID_VALUE: A numeric argument is out of range. The offending command is ignored and has no other side effect than to set the error flag."@,
        GlErrorKind::InvalidOperation => "GL_INVALID_OPERATION: The specified operation is not allowed in the current state. The offending command is ignored and has no other side effect than to set the error flag."@,
        GlErrorKind::InvalidFramebufferOperation => "GL_INVALID_FRAMEBUFFER_OPERATION: The framebuffer object is not complete. The offending command is ignored and has no other side effect than to set the error flag."@,
        GlErrorKind::OutOfMemory => "GL_OUT_OF_MEMORY: There is not enough memory left to execute the command. The state of the GL is undefined, except for the state of the error flags, after this error is recorded."@,
    }
}

/// The diagnostic line for one drained error flag.
///
/// The host's error sweep queries the driver's error flag until it
/// comes back clear and reports this description for each flag seen.
pub fn gl_error_description(e: GlErrorKind) -> (s: &'static str)
    ensures
        s@ == gl_error_description_spec(e),
{
    match e {
        GlErrorKind::InvalidEnum => "GL_INVALID_ENUM: An unacceptable value is specified for an enumerated argument. The offending command is ignored and has no other side effect than to set the error flag.",
        GlErrorKind::InvalidValue => "GL_INVALID_VALUE: A numeric argument is out of range. The offending command is ignored and has no other side effect than to set the error flag.",
        GlErrorKind::InvalidOperation => "GL_INVALID_OPERATION: The specified operation is not allowed in the current state. The offending command is ignored and has no other side effect than to set the error flag.",
        GlErrorKind::InvalidFramebufferOperation => "GL_INVALID_FRAMEBUFFER_OPERATION: The framebuffer object is not complete. The offending command is ignored and has no other side effect than to set the error flag.",
        GlErrorKind::OutOfMemory => "GL_OUT_OF_MEMORY: There is not enough memory left to execute the command. The state of the GL is undefined, except for the state of the error flags, after this error is recorded.",
    }
}

} // verus!
