//! Text rendering from a parsed font atlas.
//!
//! A [`TrueTypeFont`] is the engine's view of an externally-parsed
//! font: the atlas pixel buffer plus per-character glyph metrics in
//! integer pixel units.  The engine only reads it through
//! [`get_image`](TrueTypeFont::get_image) and the per-character quad
//! and advance query.  A [`TextRenderer`] owns the atlas, a texture
//! uploaded from it, a dedicated single-channel-tint shader, and one
//! dynamic quad buffer with its vertex array; each draw walks the
//! text's characters in order and issues one six-vertex draw call per
//! glyph, advancing the cursor by each glyph's advance.

use vstd::prelude::*;

use crate::color::{tint_vec4, tint_vec4_spec};
use crate::geometry::{quad_seq, quad_vertices, Vbo, VertexFormat, Vao};
use crate::gl::{Gl, GlCommand, Mat4Desc, Scalar, Vec2i};
use crate::shader::{is_uniform_lookup, Shader, UnifomType, UniformValue};
use crate::texture::{is_texture_upload_commands, Texture};

verus! {

/// The largest magnitude a glyph metric (offset, size, advance) or
/// the font size may have, in pixels.
pub const GLYPH_METRIC_LIMIT: i32 = 4096;

/// The largest atlas side length, in pixels.
pub const ATLAS_DIM_LIMIT: i32 = 16384;

/// The largest cursor coordinate magnitude the quad query accepts.
pub const TEXT_COORD_LIMIT: i32 = 0x2000_0000;

/// One baked glyph: the quad it covers relative to the cursor, its
/// rectangle in the atlas, and how far it advances the cursor.  All
/// units are pixels.
#[derive(Clone, Copy, Debug, PartialEq, Eq, Structural)]
pub struct Glyph {
    /// Offset from the cursor to the quad's first corner.
    pub x_offset: i32,
    pub y_offset: i32,
    /// Size of the quad.
    pub width: i32,
    pub height: i32,
    /// The glyph's rectangle in the atlas, in pixels.
    pub u0: i32,
    pub v0: i32,
    pub u1: i32,
    pub v1: i32,
    /// How far the cursor moves to the next character.
    pub x_advance: i32,
}

/// Is every metric of `g` within the limits, with the atlas rectangle
/// inside an atlas of the given size?
pub open spec fn glyph_wf(g: Glyph, img_width: i32, img_height: i32) -> bool {
    &&& -GLYPH_METRIC_LIMIT <= g.x_offset <= GLYPH_METRIC_LIMIT
    &&& -GLYPH_METRIC_LIMIT <= g.y_offset <= GLYPH_METRIC_LIMIT
    &&& 0 <= g.width <= GLYPH_METRIC_LIMIT
    &&& 0 <= g.height <= GLYPH_METRIC_LIMIT
    &&& -GLYPH_METRIC_LIMIT <= g.x_advance <= GLYPH_METRIC_LIMIT
    &&& 0 <= g.u0 <= img_width
    &&& 0 <= g.u1 <= img_width
    &&& 0 <= g.v0 <= img_height
    &&& 0 <= g.v1 <= img_height
}

/// Why a font atlas was rejected.
#[derive(Clone, Copy, Debug, PartialEq, Eq, Structural)]
pub enum FontError {
    /// A dimension, channel count, buffer length or glyph metric was
    /// out of range.
    InvalidAtlas,
}

impl FontError {
    /// The diagnostic message for this rejection.
    pub fn message(&self) -> (s: &'static str)
        ensures
            s == "Invalid font atlas",
    {
        "Invalid font atlas"
    }
}

/// A parsed font atlas: the glyph pixel buffer and the baked metrics
/// of a contiguous character range starting at `first_char`.
#[derive(Debug)]
pub struct TrueTypeFont {
    pub pixels: Vec<u8>,
    pub img_width: i32,
    pub img_height: i32,
    pub img_channels: i32,
    pub font_size: i32,
    /// The code of the first baked character.
    pub first_char: u8,
    /// One entry per baked character, from `first_char` on.
    pub glyphs: Vec<Glyph>,
}

/// One glyph's quad: screen corners in pixels and the texture
/// rectangle as exact rationals.
#[derive(Clone, Copy, Debug, PartialEq, Eq, Structural)]
pub struct GlyphQuad {
    pub x0: i32,
    pub y0: i32,
    pub x1: i32,
    pub y1: i32,
    pub s0: Scalar,
    pub t0: Scalar,
    pub s1: Scalar,
    pub t1: Scalar,
}

impl TrueTypeFont {
    /// Is the atlas well-formed: a non-empty pixel buffer of exactly
    /// `width * height * channels` bytes with a channel count a
    /// texture upload accepts, positive bounded dimensions, a bounded
    /// font size, and every glyph metric within limits?
    pub open spec fn wf(self) -> bool {
        &&& 0 < self.img_width <= ATLAS_DIM_LIMIT
        &&& 0 < self.img_height <= ATLAS_DIM_LIMIT
        &&& (self.img_channels == 1 || self.img_channels == 3 || self.img_channels == 4)
        &&& self.pixels@.len() == self.img_width * self.img_height * self.img_channels
        &&& 0 <= self.font_size <= GLYPH_METRIC_LIMIT
        &&& forall|i: int|
            0 <= i < self.glyphs@.len() ==> glyph_wf(
                #[trigger] self.glyphs@[i],
                self.img_width,
                self.img_height,
            )
    }

    /// Does the atlas bake a glyph for `c`?
    pub open spec fn has_glyph(self, c: char) -> bool {
        self.first_char <= c as u32 && (c as u32 - self.first_char) < self.glyphs@.len()
    }

    /// The baked glyph for `c`.
    pub open spec fn glyph_for(self, c: char) -> Glyph {
        self.glyphs@[c as u32 - self.first_char]
    }

    /// How far drawing `c` advances the cursor: the glyph's advance,
    /// or nothing for a character the atlas does not bake.
    pub open spec fn advance_of(self, c: char) -> int {
        if self.has_glyph(c) {
            self.glyph_for(c).x_advance as int
        } else {
            0
        }
    }

    /// The quad for `c` at cursor `(x, y)`: the glyph's corners
    /// offset from the cursor and its atlas rectangle over the atlas
    /// size — or a degenerate quad at the cursor for a character the
    /// atlas does not bake.
    pub open spec fn glyph_quad_spec(self, c: char, x: int, y: int) -> GlyphQuad {
        if self.has_glyph(c) {
            let g = self.glyph_for(c);
            GlyphQuad {
                x0: (x + g.x_offset) as i32,
                y0: (y + g.y_offset) as i32,
                x1: (x + g.x_offset + g.width) as i32,
                y1: (y + g.y_offset + g.height) as i32,
                s0: Scalar { num: g.u0, den: self.img_width },
                t0: Scalar { num: g.v0, den: self.img_height },
                s1: Scalar { num: g.u1, den: self.img_width },
                t1: Scalar { num: g.v1, den: self.img_height },
            }
        } else {
            GlyphQuad {
                x0: x as i32,
                y0: y as i32,
                x1: x as i32,
                y1: y as i32,
                s0: Scalar { num: 0i32, den: 1i32 },
                t0: Scalar { num: 0i32, den: 1i32 },
                s1: Scalar { num: 0i32, den: 1i32 },
                t1: Scalar { num: 0i32, den: 1i32 },
            }
        }
    }

    /// Assembles an atlas from decoded parts, accepting it exactly
    /// when it is well-formed.
    pub fn init(
        pixels: Vec<u8>,
        img_width: i32,
        img_height: i32,
        img_channels: i32,
        font_size: i32,
        first_char: u8,
        glyphs: Vec<Glyph>,
    ) -> (r: Result<TrueTypeFont, FontError>)
        ensures
            (r matches Ok(f) ==> f == (TrueTypeFont {
                pixels,
                img_width,
                img_height,
                img_channels,
                font_size,
                first_char,
                glyphs,
            }) && f.wf()),
            (r is Err ==> !(TrueTypeFont {
                pixels,
                img_width,
                img_height,
                img_channels,
                font_size,
                first_char,
                glyphs,
            }).wf() && r == Err::<TrueTypeFont, FontError>(FontError::InvalidAtlas)),
    {
        if !(0 < img_width && img_width <= ATLAS_DIM_LIMIT) {
            return Err(FontError::InvalidAtlas);
        }
        if !(0 < img_height && img_height <= ATLAS_DIM_LIMIT) {
            return Err(FontError::InvalidAtlas);
        }
        if !(img_channels == 1 || img_channels == 3 || img_channels == 4) {
            return Err(FontError::InvalidAtlas);
        }
        if !(0 <= font_size && font_size <= GLYPH_METRIC_LIMIT) {
            return Err(FontError::InvalidAtlas);
        }
        proof {
            assert(0 < (img_width as int) * (img_height as int) && (img_width as int) * (
            img_height as int) <= 0x1000_0000) by (nonlinear_arith)
                requires
                    0 < img_width,
                    img_width <= 16384,
                    0 < img_height,
                    img_height <= 16384,
            ;
            assert(0 < (img_width as int) * (img_height as int) * (img_channels as int) && (
            img_width as int) * (img_height as int) * (img_channels as int) <= 0x4000_0000)
                by (nonlinear_arith)
                requires
                    0 < (img_width as int) * (img_height as int),
                    (img_width as int) * (img_height as int) <= 0x1000_0000,
                    0 < img_channels,
                    img_channels <= 4,
            ;
        }
        let expected = (img_width as i64) * (img_height as i64) * (img_channels as i64);
        if !(pixels.len() == expected as usize) {
            return Err(FontError::InvalidAtlas);
        }
        let n = glyphs.len();
        let mut i: usize = 0;
        while i < n
            invariant
                n == glyphs@.len(),
                i <= n,
                forall|j: int|
                    0 <= j < i ==> glyph_wf(#[trigger] glyphs@[j], img_width, img_height),
            decreases n - i,
        {
            let g = glyphs[i];
            let ok = -GLYPH_METRIC_LIMIT <= g.x_offset && g.x_offset <= GLYPH_METRIC_LIMIT
                && -GLYPH_METRIC_LIMIT <= g.y_offset && g.y_offset <= GLYPH_METRIC_LIMIT && 0
                <= g.width && g.width <= GLYPH_METRIC_LIMIT && 0 <= g.height && g.height
                <= GLYPH_METRIC_LIMIT && -GLYPH_METRIC_LIMIT <= g.x_advance && g.x_advance
                <= GLYPH_METRIC_LIMIT && 0 <= g.u0 && g.u0 <= img_width && 0 <= g.u1 && g.u1
                <= img_width && 0 <= g.v0 && g.v0 <= img_height && 0 <= g.v1 && g.v1 <= img_height;
            if !ok {
                proof {
                    let f = TrueTypeFont {
                        pixels,
                        img_width,
                        img_height,
                        img_channels,
                        font_size,
                        first_char,
                        glyphs,
                    };
                    assert(f.glyphs@[i as int] == glyphs@[i as int]);
                    assert(!glyph_wf(f.glyphs@[i as int], f.img_width, f.img_height));
                    assert(!f.wf());
                }
                return Err(FontError::InvalidAtlas);
            }
            i = i + 1;
        }
        Ok(TrueTypeFont { pixels, img_width, img_height, img_channels, font_size, first_char, glyphs })
    }

    /// The atlas image as the texture upload consumes it: the pixel
    /// buffer with its width, height and channel count.
    pub fn get_image(&self) -> (r: (&Vec<u8>, i32, i32, i32))
        ensures
            r.0@ == self.pixels@,
            r.1 == self.img_width,
            r.2 == self.img_height,
            r.3 == self.img_channels,
    {
        (&self.pixels, self.img_width, self.img_height, self.img_channels)
    }

    /// The quad to draw for `c` at cursor `(x, y)` and the cursor for
    /// the next character: `x` moved by the glyph's advance, `y`
    /// unchanged.
    pub fn get_quad_and_next_position(&self, c: char, x: i32, y: i32) -> (r: (GlyphQuad, i32, i32))
        requires
            self.wf(),
            -TEXT_COORD_LIMIT <= x <= TEXT_COORD_LIMIT,
            -TEXT_COORD_LIMIT <= y <= TEXT_COORD_LIMIT,
        ensures
            r.0 == self.glyph_quad_spec(c, x as int, y as int),
            r.1 == x + self.advance_of(c),
            r.2 == y,
    {
        let code = c as u32;
        let first = self.first_char as u32;
        if code >= first && ((code - first) as usize) < self.glyphs.len() {
            let g = self.glyphs[(code - first) as usize];
            let x0 = x + g.x_offset;
            let y0 = y + g.y_offset;
            let quad = GlyphQuad {
                x0,
                y0,
                x1: x0 + g.width,
                y1: y0 + g.height,
                s0: Scalar { num: g.u0, den: self.img_width },
                t0: Scalar { num: g.v0, den: self.img_height },
                s1: Scalar { num: g.u1, den: self.img_width },
                t1: Scalar { num: g.v1, den: self.img_height },
            };
            (quad, x + g.x_advance, y)
        } else {
            let quad = GlyphQuad {
                x0: x,
                y0: y,
                x1: x,
                y1: y,
                s0: Scalar { num: 0, den: 1 },
                t0: Scalar { num: 0, den: 1 },
                s1: Scalar { num: 0, den: 1 },
                t1: Scalar { num: 0, den: 1 },
            };
            (quad, x, y)
        }
    }
}

/// The built-in text shader: the vertex stage applies the space
/// matrix to a packed position/texture quad; the fragment stage reads
/// the single-channel atlas as coverage, turning the red channel into
/// alpha over white, and multiplies by the tint.
pub const TEXT_SHADER_SRC: &'static str = "
#ifdef GL_ES
precision lowp float;
#endif

#if defined(VERTEX_SHADER)

layout (location = 0) in vec4 in_data;

out vec2 frag_uv;

uniform mat4 u_space_matrix;

void
main()
{
  gl_Position = u_space_matrix * vec4(in_data.xy, 0.f, 1.f);
  frag_uv     = in_data.zw;
}

#elif defined(FRAGMENT_SHADER)

in vec2 frag_uv;

out vec4 out_frag_color;

uniform vec4      u_taint;
uniform sampler2D u_tex0;

void
main()
{
  vec4 mapped_tex = texture(u_tex0, frag_uv);
  mapped_tex.a = mapped_tex.r;
  mapped_tex.rgb = vec3(1.0);

  out_frag_color = mapped_tex * u_taint;
}

#endif
";

/// The driver-reported locations of the text shader's uniforms, as
/// the host resolved them.  The not-found sentinel is `-1`.
#[derive(Clone, Copy, Debug, PartialEq, Eq, Structural)]
pub struct TextLocations {
    pub u_space_matrix: i32,
    pub u_tex0: i32,
    pub u_taint: i32,
}

/// The 24 quad scalars for one glyph at cursor `(x, y)`: the quad's
/// pixel corners as whole scalars and its atlas rectangle as exact
/// rationals.
pub open spec fn glyph_quad_scalars(font: TrueTypeFont, c: char, x: int, y: int) -> Seq<Scalar> {
    let q = font.glyph_quad_spec(c, x, y);
    quad_seq(
        Scalar { num: q.x0, den: 1i32 },
        Scalar { num: q.x1, den: 1i32 },
        Scalar { num: q.y0, den: 1i32 },
        Scalar { num: q.y1, den: 1i32 },
        q.s0,
        q.s1,
        q.t0,
        q.t1,
    )
}

/// The cursor's x position before the `i`-th character of `txt` is
/// drawn, starting from `x0`: each earlier character moved it by its
/// advance.
pub open spec fn cursor_x_at(font: TrueTypeFont, txt: Seq<char>, i: int, x0: int) -> int
    decreases i,
{
    if i <= 0 {
        x0
    } else {
        cursor_x_at(font, txt, i - 1, x0) + font.advance_of(txt[i - 1])
    }
}

/// Law: the cursor stays within `glyph-advance-limit` pixels per
/// character of its start, whatever the text.
pub proof fn lemma_cursor_bounds(font: TrueTypeFont, txt: Seq<char>, i: int, x0: int)
    requires
        font.wf(),
        0 <= i,
    ensures
        x0 - (GLYPH_METRIC_LIMIT as int) * i <= cursor_x_at(font, txt, i, x0) <= x0 + (
        GLYPH_METRIC_LIMIT as int) * i,
    decreases i,
{
    if i > 0 {
        lemma_cursor_bounds(font, txt, i - 1, x0);
    }
}

/// Are `s` exactly the six GL calls drawing one glyph: re-upload the
/// dynamic quad buffer with the glyph's quad at cursor `(x, y)`, then
/// issue the six-vertex triangle draw?
pub open spec fn is_glyph_draw_commands(
    s: Seq<GlCommand>,
    vbo_handle: u32,
    vao_handle: u32,
    font: TrueTypeFont,
    c: char,
    x: int,
    y: int,
) -> bool {
    &&& s.len() == 6
    &&& s[0] == (GlCommand::BindBuffer { buffer: vbo_handle })
    &&& (s[1] matches GlCommand::BufferDataDynamic { data } && data@ == glyph_quad_scalars(
        font,
        c,
        x,
        y,
    ))
    &&& s[2] == (GlCommand::BindBuffer { buffer: 0 })
    &&& s[3] == (GlCommand::BindVertexArray { array: vao_handle })
    &&& s[4] == (GlCommand::DrawTriangles { first: 0, count: 6 })
    &&& s[5] == (GlCommand::BindVertexArray { array: 0 })
}

/// Are `s` exactly the glyph-draw calls for the first `n` characters
/// of `txt`, in order, each at the cursor its predecessors left?
pub open spec fn is_text_glyphs_commands(
    s: Seq<GlCommand>,
    vbo_handle: u32,
    vao_handle: u32,
    font: TrueTypeFont,
    txt: Seq<char>,
    n: int,
    x0: int,
    y: int,
) -> bool
    decreases n,
{
    if n <= 0 {
        s.len() == 0
    } else {
        &&& s.len() == 6 * n
        &&& is_text_glyphs_commands(
            s.take(6 * (n - 1)),
            vbo_handle,
            vao_handle,
            font,
            txt,
            n - 1,
            x0,
            y,
        )
        &&& is_glyph_draw_commands(
            s.skip(6 * (n - 1)),
            vbo_handle,
            vao_handle,
            font,
            txt[n - 1],
            cursor_x_at(font, txt, n - 1, x0),
            y,
        )
    }
}

/// Are `s` exactly the 14 GL calls a text draw issues before its
/// glyph loop: the three uniform lookups, the three uniform updates
/// (projection, sampler unit, tint), blending on, program activation,
/// and the atlas texture bound to unit 0?
pub open spec fn is_text_prelude_commands(
    s: Seq<GlCommand>,
    program: u32,
    texture_handle: u32,
    locations: TextLocations,
    taint: u32,
    window_width: i32,
    window_height: i32,
) -> bool {
    &&& s.len() == 14
    &&& is_uniform_lookup(s.subrange(0, 2), program, "u_space_matrix"@)
    &&& is_uniform_lookup(s.subrange(2, 4), program, "u_tex0"@)
    &&& is_uniform_lookup(s.subrange(4, 6), program, "u_taint"@)
    &&& s[6] == (GlCommand::UniformMatrix4 {
        location: locations.u_space_matrix,
        matrix: Mat4Desc::Ortho { width: window_width, height: window_height },
    })
    &&& s[7] == (GlCommand::Uniform1i { location: locations.u_tex0, value: 0 })
    &&& s[8] == (GlCommand::Uniform4 { location: locations.u_taint, value: tint_vec4_spec(taint) })
    &&& s[9] == GlCommand::EnableBlend
    &&& s[10] == GlCommand::BlendFuncAlpha
    &&& s[11] == (GlCommand::UseProgram { program })
    &&& s[12] == (GlCommand::ActiveTexture { unit: 0 })
    &&& s[13] == (GlCommand::BindTexture { texture: texture_handle })
}

/// Law: one glyph's command block holds exactly one draw call.
pub proof fn lemma_glyph_block_one_draw(
    s: Seq<GlCommand>,
    vbo_handle: u32,
    vao_handle: u32,
    font: TrueTypeFont,
    c: char,
    x: int,
    y: int,
)
    requires
        is_glyph_draw_commands(s, vbo_handle, vao_handle, font, c, x, y),
    ensures
        crate::gl::count_draw_calls(s) == 1,
{
    let s5 = s.drop_last();
    let s4 = s5.drop_last();
    let s3 = s4.drop_last();
    let s2 = s3.drop_last();
    let s1 = s2.drop_last();
    let s0 = s1.drop_last();
    assert(s0.len() == 0);
    assert(s1.last() == s[0] && s2.last() == s[1] && s3.last() == s[2] && s4.last() == s[3]
        && s5.last() == s[4] && s.last() == s[5]);
    assert(crate::gl::count_draw_calls(s0) == 0);
    assert(crate::gl::count_draw_calls(s1) == 0);
    assert(crate::gl::count_draw_calls(s2) == 0);
    assert(crate::gl::count_draw_calls(s3) == 0);
    assert(crate::gl::count_draw_calls(s4) == 0);
    assert(crate::gl::count_draw_calls(s5) == 1);
}

/// Law: a text draw issues exactly one triangle draw call per
/// character — two for a two-character text — whatever the font, the
/// cursor start and the tint.
pub proof fn lemma_text_draw_call_count(
    s: Seq<GlCommand>,
    vbo_handle: u32,
    vao_handle: u32,
    font: TrueTypeFont,
    txt: Seq<char>,
    n: int,
    x0: int,
    y: int,
)
    requires
        0 <= n,
        is_text_glyphs_commands(s, vbo_handle, vao_handle, font, txt, n, x0, y),
    ensures
        crate::gl::count_draw_calls(s) == n,
    decreases n,
{
    if n <= 0 {
        assert(s.len() == 0);
    } else {
        lemma_text_draw_call_count(
            s.take(6 * (n - 1)),
            vbo_handle,
            vao_handle,
            font,
            txt,
            n - 1,
            x0,
            y,
        );
        lemma_glyph_block_one_draw(
            s.skip(6 * (n - 1)),
            vbo_handle,
            vao_handle,
            font,
            txt[n - 1],
            cursor_x_at(font, txt, n - 1, x0),
            y,
        );
        assert(s =~= s.take(6 * (n - 1)) + s.skip(6 * (n - 1)));
        crate::gl::lemma_count_draw_calls_add(s.take(6 * (n - 1)), s.skip(6 * (n - 1)));
    }
}

/// Law: with non-negative glyph advances the cursor never moves
/// backwards in the advance direction: later characters are drawn at
/// a cursor at least as far along as earlier ones.
pub proof fn lemma_cursor_monotone(font: TrueTypeFont, txt: Seq<char>, i: int, j: int, x0: int)
    requires
        forall|k: int| 0 <= k < txt.len() ==> #[trigger] font.advance_of(txt[k]) >= 0,
        0 <= i <= j <= txt.len(),
    ensures
        cursor_x_at(font, txt, i, x0) <= cursor_x_at(font, txt, j, x0),
    decreases j - i,
{
    if i < j {
        lemma_cursor_monotone(font, txt, i, j - 1, x0);
        assert(font.advance_of(txt[j - 1]) >= 0);
    }
}

/// Draws text from a font atlas: the atlas, a texture uploaded from
/// its pixels, a dedicated shader, and one dynamic quad buffer with
/// its vertex array, fixed for the renderer's lifetime.
#[derive(Debug)]
pub struct TextRenderer {
    pub font: TrueTypeFont,
    pub shader: Shader,
    pub texture: Texture,
    pub font_size: i32,
    pub vao: Vao,
    pub vbo: Vbo,
}

impl TextRenderer {
    /// Is the renderer wired as [`init`](Self::init) built it: a
    /// well-formed atlas whose font size it mirrors, and a dynamic
    /// quad buffer of six vertices bound once to the vertex array?
    pub open spec fn wf(self) -> bool {
        &&& self.font.wf()
        &&& self.font_size == self.font.font_size
        &&& self.vbo.vertex_format == VertexFormat::DynamicF32_2_2
        &&& self.vbo.vertices_count == 6
        &&& self.vao.vertices_count == 6
    }

    /// Builds the renderer around a well-formed atlas and an
    /// already-linked program — the built-in [`TEXT_SHADER_SRC`],
    /// compiled through [`Shader::init`](crate::shader::Shader::init):
    /// uploads the atlas pixels as a texture, then allocates the
    /// vertex array and the dynamic quad buffer and binds the one to
    /// the other.
    pub fn init(gl: &mut Gl, ttf: TrueTypeFont, shader: Shader) -> (r: TextRenderer)
        requires
            ttf.wf(),
            old(gl).next_handle < u32::MAX - 2,
        ensures
            r.wf(),
            r.font == ttf,
            r.shader == shader,
            r.font_size == ttf.font_size,
            r.texture.handle == old(gl).next_handle,
            r.texture.width == ttf.img_width,
            r.texture.height == ttf.img_height,
            r.texture.channels == ttf.img_channels,
            r.vao.handle == old(gl).next_handle + 1,
            r.vbo.handle == old(gl).next_handle + 2,
            final(gl).next_handle == old(gl).next_handle + 3,
            final(gl).max_texture_units == old(gl).max_texture_units,
            final(gl).commands@.len() == old(gl).commands@.len() + 19,
            final(gl).commands@.subrange(0, old(gl).commands@.len() as int) == old(gl).commands@,
            is_texture_upload_commands(
                final(gl).commands@.subrange(
                    old(gl).commands@.len() as int,
                    old(gl).commands@.len() as int + 9,
                ),
                r.texture.handle,
                ttf.img_width,
                ttf.img_height,
                ttf.img_channels,
                ttf.pixels@,
            ),
            final(gl).commands@.subrange(
                old(gl).commands@.len() as int + 9,
                old(gl).commands@.len() as int + 19,
            ) =~= seq![
                GlCommand::GenVertexArray { array: (old(gl).next_handle + 1) as u32 },
                GlCommand::GenBuffer { buffer: (old(gl).next_handle + 2) as u32 },
                GlCommand::BindBuffer { buffer: (old(gl).next_handle + 2) as u32 },
                GlCommand::BufferDataReserveDynamic {
                    floats: crate::geometry::DYNAMIC_QUAD_FLOATS,
                },
                GlCommand::BindBuffer { buffer: 0 },
                GlCommand::BindVertexArray { array: (old(gl).next_handle + 1) as u32 },
                GlCommand::BindBuffer { buffer: (old(gl).next_handle + 2) as u32 },
                GlCommand::VertexAttribPointer {
                    index: 0,
                    size: 4,
                    stride_bytes: 16,
                    offset_bytes: 0,
                },
                GlCommand::EnableVertexAttribArray { index: 0 },
                GlCommand::BindVertexArray { array: 0 },
            ],
    {
        let ghost n0 = gl.commands@.len() as int;
        proof {
            assert(0 < (ttf.img_width as int) * (ttf.img_height as int) * (
            ttf.img_channels as int)) by (nonlinear_arith)
                requires
                    0 < ttf.img_width,
                    0 < ttf.img_height,
                    0 < ttf.img_channels,
            ;
        }
        let (pixels, img_width, img_height, img_channels) = ttf.get_image();
        let texture = match Texture::init(gl, pixels, img_width, img_height, img_channels) {
            Ok(t) => t,
            Err(_) => {
                proof {
                    assert(false);
                }
                vstd::pervasive::unreached()
            },
        };
        let mut vao = Vao::init(gl);
        let vbo = Vbo::init_f32_2_2(gl);
        vao.bind_vbo(gl, &vbo);
        proof {
            assert(gl.commands@.subrange(0, n0) =~= old(gl).commands@);
            assert(gl.commands@.subrange(n0 + 9, n0 + 19) =~= seq![
                GlCommand::GenVertexArray { array: (old(gl).next_handle + 1) as u32 },
                GlCommand::GenBuffer { buffer: (old(gl).next_handle + 2) as u32 },
                GlCommand::BindBuffer { buffer: (old(gl).next_handle + 2) as u32 },
                GlCommand::BufferDataReserveDynamic {
                    floats: crate::geometry::DYNAMIC_QUAD_FLOATS,
                },
                GlCommand::BindBuffer { buffer: 0 },
                GlCommand::BindVertexArray { array: (old(gl).next_handle + 1) as u32 },
                GlCommand::BindBuffer { buffer: (old(gl).next_handle + 2) as u32 },
                GlCommand::VertexAttribPointer {
                    index: 0,
                    size: 4,
                    stride_bytes: 16,
                    offset_bytes: 0,
                },
                GlCommand::EnableVertexAttribArray { index: 0 },
                GlCommand::BindVertexArray { array: 0 },
            ]);
        }
        let font_size = ttf.font_size;
        TextRenderer { font: ttf, shader, texture, font_size, vao, vbo }
    }

    /// Draws `txt` at `pos` with the packed tint color, under an
    /// orthographic projection of the current window: after the
    /// 14-call prelude of [`is_text_prelude_commands`], one six-vertex
    /// draw call per character of the text, each glyph's quad taken
    /// from the atlas at the running cursor, which starts at
    /// `(pos.x, pos.y + font_size / 2)` and moves by each glyph's
    /// advance; then the unbind and blending-off epilogue.  The
    /// uniform locations must be resolved; that is a caller contract
    /// violation otherwise.
    #[verifier::rlimit(100)]
    pub fn draw(
        &self,
        gl: &mut Gl,
        txt: &str,
        pos: Vec2i,
        taint: u32,
        window_width: i32,
        window_height: i32,
        locations: TextLocations,
    )
        requires
            self.wf(),
            old(gl).max_texture_units >= 1,
            txt@.len() <= 0x10000,
            -0x100_0000 <= pos.x <= 0x100_0000,
            -0x100_0000 <= pos.y <= 0x100_0000,
            locations.u_space_matrix != -1,
            locations.u_tex0 != -1,
            locations.u_taint != -1,
        ensures
            final(gl).next_handle == old(gl).next_handle,
            final(gl).max_texture_units == old(gl).max_texture_units,
            final(gl).commands@.len() == old(gl).commands@.len() + 16 + 6 * txt@.len(),
            final(gl).commands@.subrange(0, old(gl).commands@.len() as int) == old(gl).commands@,
            is_text_prelude_commands(
                final(gl).commands@.subrange(
                    old(gl).commands@.len() as int,
                    old(gl).commands@.len() as int + 14,
                ),
                self.shader.program,
                self.texture.handle,
                locations,
                taint,
                window_width,
                window_height,
            ),
            is_text_glyphs_commands(
                final(gl).commands@.subrange(
                    old(gl).commands@.len() as int + 14,
                    old(gl).commands@.len() as int + 14 + 6 * txt@.len(),
                ),
                self.vbo.handle,
                self.vao.handle,
                self.font,
                txt@,
                txt@.len() as int,
                pos.x as int,
                pos.y as int + self.font_size as int / 2,
            ),
            final(gl).commands@[final(gl).commands@.len() - 2] == (GlCommand::BindVertexArray {
                array: 0,
            }),
            final(gl).commands@[final(gl).commands@.len() - 1] == GlCommand::DisableBlend,
    {
        let ghost n0 = gl.commands@.len() as int;
        let u_space_matrix = self.shader.uniform(gl, "u_space_matrix", UnifomType::Matrix4x4, locations.u_space_matrix);
        let ghost q_space = gl.commands@[n0 + 1];
        proof {
            assert(gl.commands@.subrange(0, n0) =~= old(gl).commands@);
            assert(gl.commands@[n0 + 0] == (GlCommand::UseProgram { program: self.shader.program }));
            assert(gl.commands@[n0 + 1] == q_space);
        }
        let u_tex0 = self.shader.uniform(gl, "u_tex0", UnifomType::I32, locations.u_tex0);
        let ghost q_tex0 = gl.commands@[n0 + 3];
        proof {
            assert(gl.commands@.subrange(0, n0) =~= old(gl).commands@);
            assert(gl.commands@[n0 + 0] == (GlCommand::UseProgram { program: self.shader.program }));
            assert(gl.commands@[n0 + 1] == q_space);
            assert(gl.commands@[n0 + 2] == (GlCommand::UseProgram { program: self.shader.program }));
            assert(gl.commands@[n0 + 3] == q_tex0);
        }
        let u_taint = self.shader.uniform(gl, "u_taint", UnifomType::Vec4, locations.u_taint);
        let ghost q_taint = gl.commands@[n0 + 5];
        proof {
            assert(gl.commands@.subrange(0, n0) =~= old(gl).commands@);
            assert(gl.commands@[n0 + 0] == (GlCommand::UseProgram { program: self.shader.program }));
            assert(gl.commands@[n0 + 1] == q_space);
            assert(gl.commands@[n0 + 2] == (GlCommand::UseProgram { program: self.shader.program }));
            assert(gl.commands@[n0 + 3] == q_tex0);
            assert(gl.commands@[n0 + 4] == (GlCommand::UseProgram { program: self.shader.program }));
            assert(gl.commands@[n0 + 5] == q_taint);
        }
        u_space_matrix.update_value(gl, UniformValue::Matrix4x4(Mat4Desc::Ortho { width: window_width, height: window_height })).unwrap();
        proof {
            assert(gl.commands@.subrange(0, n0) =~= old(gl).commands@);
            assert(gl.commands@[n0 + 0] == (GlCommand::UseProgram { program: self.shader.program }));
            assert(gl.commands@[n0 + 1] == q_space);
            assert(gl.commands@[n0 + 2] == (GlCommand::UseProgram { program: self.shader.program }));
            assert(gl.commands@[n0 + 3] == q_tex0);
            assert(gl.commands@[n0 + 4] == (GlCommand::UseProgram { program: self.shader.program }));
            assert(gl.commands@[n0 + 5] == q_taint);
            assert(gl.commands@[n0 + 6] == (GlCommand::UniformMatrix4 { location: locations.u_space_matrix, matrix: Mat4Desc::Ortho { width: window_width, height: window_height } }));
        }
        u_tex0.update_value(gl, UniformValue::I32(0)).unwrap();
        proof {
            assert(gl.commands@.subrange(0, n0) =~= old(gl).commands@);
            assert(gl.commands@[n0 + 0] == (GlCommand::UseProgram { program: self.shader.program }));
            assert(gl.commands@[n0 + 1] == q_space);
            assert(gl.commands@[n0 + 2] == (GlCommand::UseProgram { program: self.shader.program }));
            assert(gl.commands@[n0 + 3] == q_tex0);
            assert(gl.commands@[n0 + 4] == (GlCommand::UseProgram { program: self.shader.program }));
            assert(gl.commands@[n0 + 5] == q_taint);
            assert(gl.commands@[n0 + 6] == (GlCommand::UniformMatrix4 { location: locations.u_space_matrix, matrix: Mat4Desc::Ortho { width: window_width, height: window_height } }));
            assert(gl.commands@[n0 + 7] == (GlCommand::Uniform1i { location: locations.u_tex0, value: 0 }));
        }
        u_taint.update_value(gl, UniformValue::Vec4(tint_vec4(taint))).unwrap();
        proof {
            assert(gl.commands@.subrange(0, n0) =~= old(gl).commands@);
            assert(gl.commands@[n0 + 0] == (GlCommand::UseProgram { program: self.shader.program }));
            assert(gl.commands@[n0 + 1] == q_space);
            assert(gl.commands@[n0 + 2] == (GlCommand::UseProgram { program: self.shader.program }));
            assert(gl.commands@[n0 + 3] == q_tex0);
            assert(gl.commands@[n0 + 4] == (GlCommand::UseProgram { program: self.shader.program }));
            assert(gl.commands@[n0 + 5] == q_taint);
            assert(gl.commands@[n0 + 6] == (GlCommand::UniformMatrix4 { location: locations.u_space_matrix, matrix: Mat4Desc::Ortho { width: window_width, height: window_height } }));
            assert(gl.commands@[n0 + 7] == (GlCommand::Uniform1i { location: locations.u_tex0, value: 0 }));
            assert(gl.commands@[n0 + 8] == (GlCommand::Uniform4 { location: locations.u_taint, value: tint_vec4_spec(taint) }));
        }
        gl.emit(GlCommand::EnableBlend);
        proof {
            assert(gl.commands@.subrange(0, n0) =~= old(gl).commands@);
            assert(gl.commands@[n0 + 0] == (GlCommand::UseProgram { program: self.shader.program }));
            assert(gl.commands@[n0 + 1] == q_space);
            assert(gl.commands@[n0 + 2] == (GlCommand::UseProgram { program: self.shader.program }));
            assert(gl.commands@[n0 + 3] == q_tex0);
            assert(gl.commands@[n0 + 4] == (GlCommand::UseProgram { program: self.shader.program }));
            assert(gl.commands@[n0 + 5] == q_taint);
            assert(gl.commands@[n0 + 6] == (GlCommand::UniformMatrix4 { location: locations.u_space_matrix, matrix: Mat4Desc::Ortho { width: window_width, height: window_height } }));
            assert(gl.commands@[n0 + 7] == (GlCommand::Uniform1i { location: locations.u_tex0, value: 0 }));
            assert(gl.commands@[n0 + 8] == (GlCommand::Uniform4 { location: locations.u_taint, value: tint_vec4_spec(taint) }));
            assert(gl.commands@[n0 + 9] == (GlCommand::EnableBlend));
        }
        gl.emit(GlCommand::BlendFuncAlpha);
        proof {
            assert(gl.commands@.subrange(0, n0) =~= old(gl).commands@);
            assert(gl.commands@[n0 + 0] == (GlCommand::UseProgram { program: self.shader.program }));
            assert(gl.commands@[n0 + 1] == q_space);
            assert(gl.commands@[n0 + 2] == (GlCommand::UseProgram { program: self.shader.program }));
            assert(gl.commands@[n0 + 3] == q_tex0);
            assert(gl.commands@[n0 + 4] == (GlCommand::UseProgram { program: self.shader.program }));
            assert(gl.commands@[n0 + 5] == q_taint);
            assert(gl.commands@[n0 + 6] == (GlCommand::UniformMatrix4 { location: locations.u_space_matrix, matrix: Mat4Desc::Ortho { width: window_width, height: window_height } }));
            assert(gl.commands@[n0 + 7] == (GlCommand::Uniform1i { location: locations.u_tex0, value: 0 }));
            assert(gl.commands@[n0 + 8] == (GlCommand::Uniform4 { location: locations.u_taint, value: tint_vec4_spec(taint) }));
            assert(gl.commands@[n0 + 9] == (GlCommand::EnableBlend));
            assert(gl.commands@[n0 + 10] == (GlCommand::BlendFuncAlpha));
        }
        self.shader.use_(gl);
        proof {
            assert(gl.commands@.subrange(0, n0) =~= old(gl).commands@);
            assert(gl.commands@[n0 + 0] == (GlCommand::UseProgram { program: self.shader.program }));
            assert(gl.commands@[n0 + 1] == q_space);
            assert(gl.commands@[n0 + 2] == (GlCommand::UseProgram { program: self.shader.program }));
            assert(gl.commands@[n0 + 3] == q_tex0);
            assert(gl.commands@[n0 + 4] == (GlCommand::UseProgram { program: self.shader.program }));
            assert(gl.commands@[n0 + 5] == q_taint);
            assert(gl.commands@[n0 + 6] == (GlCommand::UniformMatrix4 { location: locations.u_space_matrix, matrix: Mat4Desc::Ortho { width: window_width, height: window_height } }));
            assert(gl.commands@[n0 + 7] == (GlCommand::Uniform1i { location: locations.u_tex0, value: 0 }));
            assert(gl.commands@[n0 + 8] == (GlCommand::Uniform4 { location: locations.u_taint, value: tint_vec4_spec(taint) }));
            assert(gl.commands@[n0 + 9] == (GlCommand::EnableBlend));
            assert(gl.commands@[n0 + 10] == (GlCommand::BlendFuncAlpha));
            assert(gl.commands@[n0 + 11] == (GlCommand::UseProgram { program: self.shader.program }));
        }
        self.texture.bind(gl, 0);
        proof {
            assert(gl.commands@.subrange(0, n0) =~= old(gl).commands@);
            assert(gl.commands@[n0 + 0] == (GlCommand::UseProgram { program: self.shader.program }));
            assert(gl.commands@[n0 + 1] == q_space);
            assert(gl.commands@[n0 + 2] == (GlCommand::UseProgram { program: self.shader.program }));
            assert(gl.commands@[n0 + 3] == q_tex0);
            assert(gl.commands@[n0 + 4] == (GlCommand::UseProgram { program: self.shader.program }));
            assert(gl.commands@[n0 + 5] == q_taint);
            assert(gl.commands@[n0 + 6] == (GlCommand::UniformMatrix4 { location: locations.u_space_matrix, matrix: Mat4Desc::Ortho { width: window_width, height: window_height } }));
            assert(gl.commands@[n0 + 7] == (GlCommand::Uniform1i { location: locations.u_tex0, value: 0 }));
            assert(gl.commands@[n0 + 8] == (GlCommand::Uniform4 { location: locations.u_taint, value: tint_vec4_spec(taint) }));
            assert(gl.commands@[n0 + 9] == (GlCommand::EnableBlend));
            assert(gl.commands@[n0 + 10] == (GlCommand::BlendFuncAlpha));
            assert(gl.commands@[n0 + 11] == (GlCommand::UseProgram { program: self.shader.program }));
            assert(gl.commands@[n0 + 12] == (GlCommand::ActiveTexture { unit: 0 }));
            assert(gl.commands@[n0 + 13] == (GlCommand::BindTexture { texture: self.texture.handle }));
        }
        let ghost n1 = n0 + 14;
        let ghost g1 = gl.commands@;
        proof {
            let p = gl.commands@.subrange(n0, n1);
            assert(p.subrange(0, 2) =~= gl.commands@.subrange(n0, n0 + 2));
            assert(p.subrange(2, 4) =~= gl.commands@.subrange(n0 + 2, n0 + 4));
            assert(p.subrange(4, 6) =~= gl.commands@.subrange(n0 + 4, n0 + 6));
            assert(is_text_prelude_commands(
                p,
                self.shader.program,
                self.texture.handle,
                locations,
                taint,
                window_width,
                window_height,
            ));
        }

        let n = txt.unicode_len();
        let mut xpos: i32 = pos.x;
        let ypos: i32 = pos.y + self.font_size / 2;
        let mut i: usize = 0;
        while i < n
            invariant
                self.wf(),
                n == txt@.len(),
                n <= 0x10000,
                i <= n,
                -0x100_0000 <= pos.x <= 0x100_0000,
                ypos == pos.y as int + self.font_size as int / 2,
                -0x2000_0000 <= ypos <= 0x2000_0000,
                g1.len() == n1,
                n1 == n0 + 14,
                0 <= n0,
                gl.commands@.len() == n1 + 6 * i,
                gl.commands@.subrange(0, n1) == g1,
                is_text_glyphs_commands(
                    gl.commands@.subrange(n1, n1 + 6 * (i as int)),
                    self.vbo.handle,
                    self.vao.handle,
                    self.font,
                    txt@,
                    i as int,
                    pos.x as int,
                    ypos as int,
                ),
                xpos == cursor_x_at(self.font, txt@, i as int, pos.x as int),
                gl.next_handle == old(gl).next_handle,
                gl.max_texture_units == old(gl).max_texture_units,
            decreases n - i,
        {
            proof {
                lemma_cursor_bounds(self.font, txt@, i as int, pos.x as int);
                lemma_cursor_bounds(self.font, txt@, i as int + 1, pos.x as int);
            }
            let c = txt.get_char(i);
            let (q, nx, ny) = self.font.get_quad_and_next_position(c, xpos, ypos);
            let quads = quad_vertices(
                Scalar::whole(q.x0),
                Scalar::whole(q.x1),
                Scalar::whole(q.y0),
                Scalar::whole(q.y1),
                q.s0,
                q.s1,
                q.t0,
                q.t1,
            );
            let ghost len_before = gl.commands@.len() as int;
            let ghost prev_glyphs = gl.commands@.subrange(n1, len_before);
            self.vbo.update(gl, &quads);
            let ghost q_data = gl.commands@[len_before + 1];
            proof {
                assert(gl.commands@[len_before + 0] == (GlCommand::BindBuffer {
                    buffer: self.vbo.handle,
                }));
                assert(q_data matches GlCommand::BufferDataDynamic { data } && data@ == quads@);
                assert(gl.commands@[len_before + 2] == (GlCommand::BindBuffer { buffer: 0 }));
            }
            self.vao.draw_triangles(gl);
            proof {
                assert(gl.commands@.len() == n1 + 6 * (i as int + 1));
                assert(gl.commands@.subrange(0, n1) =~= g1);
                assert(gl.commands@[len_before + 0] == (GlCommand::BindBuffer {
                    buffer: self.vbo.handle,
                }));
                assert(gl.commands@[len_before + 1] == q_data);
                assert(gl.commands@[len_before + 2] == (GlCommand::BindBuffer { buffer: 0 }));
                assert(gl.commands@[len_before + 3] == (GlCommand::BindVertexArray {
                    array: self.vao.handle,
                }));
                assert(gl.commands@[len_before + 4] == (GlCommand::DrawTriangles {
                    first: 0,
                    count: 6,
                }));
                assert(gl.commands@[len_before + 5] == (GlCommand::BindVertexArray { array: 0 }));
                let snew = gl.commands@.subrange(n1, n1 + 6 * (i as int + 1));
                assert(snew.take(6 * (i as int)) =~= prev_glyphs);
                assert(snew.skip(6 * (i as int)) =~= gl.commands@.subrange(
                    len_before,
                    len_before + 6,
                ));
                assert(quads@ == glyph_quad_scalars(
                    self.font,
                    txt@[i as int],
                    cursor_x_at(self.font, txt@, i as int, pos.x as int),
                    ypos as int,
                ));
                assert(is_glyph_draw_commands(
                    snew.skip(6 * (i as int)),
                    self.vbo.handle,
                    self.vao.handle,
                    self.font,
                    txt@[i as int],
                    cursor_x_at(self.font, txt@, i as int, pos.x as int),
                    ypos as int,
                ));
                assert(is_text_glyphs_commands(
                    snew,
                    self.vbo.handle,
                    self.vao.handle,
                    self.font,
                    txt@,
                    i as int + 1,
                    pos.x as int,
                    ypos as int,
                ));
            }
            xpos = nx;
            i = i + 1;
        }
        let ghost len_loop = gl.commands@.len() as int;
        let ghost g2 = gl.commands@;
        gl.emit(GlCommand::BindVertexArray { array: 0 });
        gl.emit(GlCommand::DisableBlend);
        proof {
            assert(gl.commands@.subrange(0, n0) =~= old(gl).commands@);
            assert(gl.commands@.subrange(n0, n1) =~= g1.subrange(n0, n1));
            assert(gl.commands@.subrange(n1, n1 + 6 * (n as int)) =~= g2.subrange(
                n1,
                n1 + 6 * (n as int),
            ));
            assert(g2.subrange(n1, n1 + 6 * (n as int)) =~= g2.subrange(n1, len_loop));
            assert(g2.subrange(n1, len_loop) == g2.subrange(n1, n1 + 6 * (n as int)));
        }
    }
}

} // verus!
