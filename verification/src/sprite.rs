//! Sprite-sheet rendering.
//!
//! A [`SpriteSheet`] is a texture subdivided into equal square cells
//! addressed by column and row.  A [`SpriteRenderer`] owns the
//! built-in sprite shader, one dynamic quad buffer and one vertex
//! array bound to it, and draws one textured, tinted, rotated cell
//! per call — or, with texturing off, a flat tinted rectangle.  Each
//! draw records the complete per-frame protocol: uniform lookups,
//! program activation, texture binding, uniform updates, alpha
//! blending on, the quad re-upload, one six-vertex triangle draw, and
//! the unbind/blending-off epilogue, in exactly that order.

use vstd::prelude::*;

use crate::color::{tint_vec4, tint_vec4_spec};
use crate::geometry::{quad_seq, quad_vertices, Vbo, VertexFormat, Vao};
use crate::gl::{Gl, GlCommand, Mat4Desc, Scalar, Vec2i};
use crate::shader::{is_uniform_lookup, Shader, UnifomType, UniformValue};
use crate::texture::{is_texture_upload_commands, TextureError};
use crate::texture::Texture;

verus! {

/// The built-in sprite shader: one combined source whose vertex stage
/// applies the space and model matrices to a packed position/texture
/// quad, and whose fragment stage samples the sheet texture (or flat
/// white with texturing off) and multiplies by the tint.
pub const SPRITE_SHADER_SRC: &'static str = "
#ifdef GL_ES
precision lowp float;
#endif

#if defined(VERTEX_SHADER)

layout (location = 0) in vec4 in_data;

out vec2 frag_uv;

uniform mat4 u_space_matrix;
uniform mat4 u_model;

void
main()
{
    gl_Position = u_space_matrix * u_model * vec4(in_data.xy, 0.f, 1.f);
    frag_uv     = in_data.zw;
}

#elif defined(FRAGMENT_SHADER)

in vec2 frag_uv;

out vec4 out_frag_color;

uniform vec4      u_taint;
uniform sampler2D u_tex0;
uniform int       u_use_texture;

void
main()
{
    vec4 mapped_tex;
    if (u_use_texture == 1) {
        mapped_tex = texture(u_tex0, frag_uv);
    } else {
        mapped_tex = vec4(1.0);
    }

    out_frag_color  = mapped_tex * u_taint;
}

#endif
";

/// A texture subdivided into equal square cells, addressed by column
/// and row.  No mutation after creation.
#[derive(Debug)]
pub struct SpriteSheet {
    pub texture: Texture,
    pub texture_width: i32,
    pub texture_height: i32,
    pub cell_size: i32,
}

impl SpriteSheet {
    /// Uploads the sheet's pixels as a texture and records the sheet
    /// metadata.  Succeeds exactly when the texture upload does.
    pub fn init(
        gl: &mut Gl,
        pixels: &Vec<u8>,
        width: i32,
        height: i32,
        channels: i32,
        cell_size: i32,
    ) -> (r: Result<SpriteSheet, TextureError>)
        requires
            old(gl).next_handle < u32::MAX,
        ensures
            final(gl).max_texture_units == old(gl).max_texture_units,
            pixels@.len() == 0 ==> r == Err::<SpriteSheet, TextureError>(TextureError::NullPixels)
                && *final(gl) == *old(gl),
            pixels@.len() > 0 && !(channels == 1 || channels == 3 || channels == 4) ==> r
                == Err::<SpriteSheet, TextureError>(TextureError::UnsupportedChannels) && *final(gl)
                == *old(gl),
            pixels@.len() > 0 && (channels == 1 || channels == 3 || channels == 4) ==> (
            r matches Ok(s) && s.texture.handle == old(gl).next_handle && s.texture.width == width
                && s.texture.height == height && s.texture.channels == channels && s.texture_width
                == width && s.texture_height == height && s.cell_size == cell_size && final(gl).next_handle == old(gl).next_handle + 1 && final(gl).commands@.len() == old(gl).commands@.len() + 9 && final(gl).commands@.subrange(0, old(gl).commands@.len() as int)
                == old(gl).commands@ && is_texture_upload_commands(
                final(gl).commands@.subrange(
                    old(gl).commands@.len() as int,
                    final(gl).commands@.len() as int,
                ),
                s.texture.handle,
                width,
                height,
                channels,
                pixels@,
            )),
    {
        let texture = match Texture::init(gl, pixels, width, height, channels) {
            Ok(t) => t,
            Err(e) => {
                return Err(e);
            },
        };
        Ok(SpriteSheet { texture, texture_width: width, texture_height: height, cell_size })
    }
}

/// The driver-reported locations of the sprite shader's uniforms, as
/// the host resolved them.  The not-found sentinel is `-1`.
#[derive(Clone, Copy, Debug, PartialEq, Eq, Structural)]
pub struct SpriteLocations {
    pub u_space_matrix: i32,
    pub u_model: i32,
    pub u_tex0: i32,
    pub u_use_texture: i32,
    pub u_taint: i32,
}

/// The sprite's texture sub-rectangle, as the 24 quad scalars: a unit
/// quad centered at the origin, mapped to the cell at the given
/// column and row of the sheet.
pub open spec fn sprite_quad_seq(sheet: SpriteSheet, column: i32, row: i32) -> Seq<Scalar> {
    quad_seq(
        Scalar { num: -1i32, den: 2i32 },
        Scalar { num: 1i32, den: 2i32 },
        Scalar { num: -1i32, den: 2i32 },
        Scalar { num: 1i32, den: 2i32 },
        Scalar { num: (sheet.cell_size * column) as i32, den: sheet.texture_width },
        Scalar { num: (sheet.cell_size * (column + 1)) as i32, den: sheet.texture_width },
        Scalar { num: (sheet.cell_size * row) as i32, den: sheet.texture_height },
        Scalar { num: (sheet.cell_size * (row + 1)) as i32, den: sheet.texture_height },
    )
}

/// The flat rectangle spanning `[min, max]` in screen pixels, with
/// the full `[0, 1]` texture range, as the 24 quad scalars.
pub open spec fn rect_quad_seq(min: Vec2i, max: Vec2i) -> Seq<Scalar> {
    quad_seq(
        Scalar { num: min.x, den: 1i32 },
        Scalar { num: max.x, den: 1i32 },
        Scalar { num: min.y, den: 1i32 },
        Scalar { num: max.y, den: 1i32 },
        Scalar { num: 0i32, den: 1i32 },
        Scalar { num: 1i32, den: 1i32 },
        Scalar { num: 0i32, den: 1i32 },
        Scalar { num: 1i32, den: 1i32 },
    )
}

/// Are `s` exactly the 28 GL calls of one sprite draw, in protocol
/// order: the five uniform lookups, program activation, the sheet
/// texture bound to unit 0, the five uniform updates (projection,
/// model, sampler unit, texturing on, tint), blending on, the quad
/// re-upload, the six-vertex triangle draw, and the unbind and
/// blending-off epilogue?
pub open spec fn is_sprite_draw_commands(
    s: Seq<GlCommand>,
    r: SpriteRenderer,
    sheet: SpriteSheet,
    locations: SpriteLocations,
    column: i32,
    row: i32,
    pos: Vec2i,
    rotation_deg_bits: u32,
    taint: u32,
    window_width: i32,
    window_height: i32,
) -> bool {
    &&& s.len() == 28
    &&& is_uniform_lookup(s.subrange(0, 2), r.shader.program, "u_space_matrix"@)
    &&& is_uniform_lookup(s.subrange(2, 4), r.shader.program, "u_model"@)
    &&& is_uniform_lookup(s.subrange(4, 6), r.shader.program, "u_tex0"@)
    &&& is_uniform_lookup(s.subrange(6, 8), r.shader.program, "u_use_texture"@)
    &&& is_uniform_lookup(s.subrange(8, 10), r.shader.program, "u_taint"@)
    &&& s[10] == (GlCommand::UseProgram { program: r.shader.program })
    &&& s[11] == (GlCommand::ActiveTexture { unit: 0 })
    &&& s[12] == (GlCommand::BindTexture { texture: sheet.texture.handle })
    &&& s[13] == (GlCommand::UniformMatrix4 {
        location: locations.u_space_matrix,
        matrix: Mat4Desc::Ortho { width: window_width, height: window_height },
    })
    &&& s[14] == (GlCommand::UniformMatrix4 {
        location: locations.u_model,
        matrix: Mat4Desc::SpriteModel {
            cell_size: sheet.cell_size,
            pos_x: pos.x,
            pos_y: pos.y,
            rotation_deg_bits,
        },
    })
    &&& s[15] == (GlCommand::Uniform1i { location: locations.u_tex0, value: 0 })
    &&& s[16] == (GlCommand::Uniform1i { location: locations.u_use_texture, value: 1 })
    &&& s[17] == (GlCommand::Uniform4 { location: locations.u_taint, value: tint_vec4_spec(taint) })
    &&& s[18] == GlCommand::EnableBlend
    &&& s[19] == GlCommand::BlendFuncAlpha
    &&& s[20] == (GlCommand::BindBuffer { buffer: r.vbo.handle })
    &&& (s[21] matches GlCommand::BufferDataDynamic { data } && data@ == sprite_quad_seq(
        sheet,
        column,
        row,
    ))
    &&& s[22] == (GlCommand::BindBuffer { buffer: 0 })
    &&& s[23] == (GlCommand::BindVertexArray { array: r.vao.handle })
    &&& s[24] == (GlCommand::DrawTriangles { first: 0, count: 6 })
    &&& s[25] == (GlCommand::BindVertexArray { array: 0 })
    &&& s[26] == (GlCommand::BindVertexArray { array: 0 })
    &&& s[27] == GlCommand::DisableBlend
}

/// Are `s` exactly the 23 GL calls of one flat rectangle draw: the
/// four uniform lookups, program activation, the four uniform updates
/// (projection, identity model, texturing off, tint), blending on,
/// the quad re-upload, the six-vertex triangle draw, and the unbind
/// and blending-off epilogue?
pub open spec fn is_blit_rect_commands(
    s: Seq<GlCommand>,
    r: SpriteRenderer,
    locations: SpriteLocations,
    min: Vec2i,
    max: Vec2i,
    taint: u32,
    window_width: i32,
    window_height: i32,
) -> bool {
    &&& s.len() == 23
    &&& is_uniform_lookup(s.subrange(0, 2), r.shader.program, "u_space_matrix"@)
    &&& is_uniform_lookup(s.subrange(2, 4), r.shader.program, "u_model"@)
    &&& is_uniform_lookup(s.subrange(4, 6), r.shader.program, "u_use_texture"@)
    &&& is_uniform_lookup(s.subrange(6, 8), r.shader.program, "u_taint"@)
    &&& s[8] == (GlCommand::UseProgram { program: r.shader.program })
    &&& s[9] == (GlCommand::UniformMatrix4 {
        location: locations.u_space_matrix,
        matrix: Mat4Desc::Ortho { width: window_width, height: window_height },
    })
    &&& s[10] == (GlCommand::UniformMatrix4 {
        location: locations.u_model,
        matrix: Mat4Desc::Identity,
    })
    &&& s[11] == (GlCommand::Uniform1i { location: locations.u_use_texture, value: 0 })
    &&& s[12] == (GlCommand::Uniform4 { location: locations.u_taint, value: tint_vec4_spec(taint) })
    &&& s[13] == GlCommand::EnableBlend
    &&& s[14] == GlCommand::BlendFuncAlpha
    &&& s[15] == (GlCommand::BindBuffer { buffer: r.vbo.handle })
    &&& (s[16] matches GlCommand::BufferDataDynamic { data } && data@ == rect_quad_seq(min, max))
    &&& s[17] == (GlCommand::BindBuffer { buffer: 0 })
    &&& s[18] == (GlCommand::BindVertexArray { array: r.vao.handle })
    &&& s[19] == (GlCommand::DrawTriangles { first: 0, count: 6 })
    &&& s[20] == (GlCommand::BindVertexArray { array: 0 })
    &&& s[21] == (GlCommand::BindVertexArray { array: 0 })
    &&& s[22] == GlCommand::DisableBlend
}

/// Law: one sprite draw issues exactly one triangle draw call, of
/// six vertices, whatever the sheet, the cell, the position and the
/// tint.
pub proof fn lemma_sprite_draw_single_call(
    s: Seq<GlCommand>,
    r: SpriteRenderer,
    sheet: SpriteSheet,
    locations: SpriteLocations,
    column: i32,
    row: i32,
    pos: Vec2i,
    rotation_deg_bits: u32,
    taint: u32,
    window_width: i32,
    window_height: i32,
)
    requires
        is_sprite_draw_commands(
            s,
            r,
            sheet,
            locations,
            column,
            row,
            pos,
            rotation_deg_bits,
            taint,
            window_width,
            window_height,
        ),
    ensures
        crate::gl::count_draw_calls(s) == 1,
        s[24] == (GlCommand::DrawTriangles { first: 0, count: 6 }),
{
    let head = s.take(24);
    let mid = s.subrange(24, 25);
    let tail = s.skip(25);
    assert forall|k: int| 0 <= k < head.len() implies !(#[trigger] head[k] is DrawTriangles) by {
        assert(head[k] == s[k]);
        if k == 1 || k == 3 || k == 5 || k == 7 || k == 9 {
            let lk = s.subrange(k - 1, k + 1);
            assert(lk[1] == s[k]);
        }
        if k == 21 {
            assert(s[21] matches GlCommand::BufferDataDynamic { data });
        }
    }
    crate::gl::lemma_count_draw_calls_none(head);
    assert forall|k: int| 0 <= k < tail.len() implies !(#[trigger] tail[k] is DrawTriangles) by {
        assert(tail[k] == s[k + 25]);
    }
    crate::gl::lemma_count_draw_calls_none(tail);
    assert(mid.drop_last().len() == 0);
    assert(mid.last() == s[24]);
    assert(crate::gl::count_draw_calls(mid.drop_last()) == 0);
    assert(crate::gl::count_draw_calls(mid) == 1);
    assert(s =~= head + (mid + tail));
    crate::gl::lemma_count_draw_calls_add(mid, tail);
    crate::gl::lemma_count_draw_calls_add(head, mid + tail);
}

/// Draws sprites from a sheet: a shader, one dynamic quad buffer and
/// one vertex array bound to it, fixed for the renderer's lifetime.
#[derive(Debug)]
pub struct SpriteRenderer {
    pub shader: Shader,
    pub vao: Vao,
    pub vbo: Vbo,
}

impl SpriteRenderer {
    /// Is the renderer wired as [`init`](Self::init) built it: a
    /// dynamic quad buffer of six vertices, bound once to the vertex
    /// array?
    pub open spec fn wf(self) -> bool {
        &&& self.vbo.vertex_format == VertexFormat::DynamicF32_2_2
        &&& self.vbo.vertices_count == 6
        &&& self.vao.vertices_count == 6
    }

    /// Builds the renderer around an already-linked program — the
    /// built-in [`SPRITE_SHADER_SRC`], compiled through
    /// [`Shader::init`](crate::shader::Shader::init) — allocating the
    /// vertex array and the dynamic quad buffer and binding the one
    /// to the other.
    pub fn init(gl: &mut Gl, shader: Shader) -> (r: SpriteRenderer)
        requires
            old(gl).next_handle < u32::MAX - 1,
        ensures
            r.wf(),
            r.shader == shader,
            r.vao.handle == old(gl).next_handle,
            r.vbo.handle == old(gl).next_handle + 1,
            final(gl).next_handle == old(gl).next_handle + 2,
            final(gl).max_texture_units == old(gl).max_texture_units,
            final(gl).commands@ == old(gl).commands@ + seq![
                GlCommand::GenVertexArray { array: old(gl).next_handle },
                GlCommand::GenBuffer { buffer: (old(gl).next_handle + 1) as u32 },
                GlCommand::BindBuffer { buffer: (old(gl).next_handle + 1) as u32 },
                GlCommand::BufferDataReserveDynamic {
                    floats: crate::geometry::DYNAMIC_QUAD_FLOATS,
                },
                GlCommand::BindBuffer { buffer: 0 },
                GlCommand::BindVertexArray { array: old(gl).next_handle },
                GlCommand::BindBuffer { buffer: (old(gl).next_handle + 1) as u32 },
                GlCommand::VertexAttribPointer {
                    index: 0,
                    size: 4,
                    stride_bytes: 16,
                    offset_bytes: 0,
                },
                GlCommand::EnableVertexAttribArray { index: 0 },
                GlCommand::BindVertexArray { array: 0 },
            ],
    {
        let mut vao = Vao::init(gl);
        let vbo = Vbo::init_f32_2_2(gl);
        vao.bind_vbo(gl, &vbo);
        proof {
            assert(gl.commands@ =~= old(gl).commands@ + seq![
                GlCommand::GenVertexArray { array: old(gl).next_handle },
                GlCommand::GenBuffer { buffer: (old(gl).next_handle + 1) as u32 },
                GlCommand::BindBuffer { buffer: (old(gl).next_handle + 1) as u32 },
                GlCommand::BufferDataReserveDynamic {
                    floats: crate::geometry::DYNAMIC_QUAD_FLOATS,
                },
                GlCommand::BindBuffer { buffer: 0 },
                GlCommand::BindVertexArray { array: old(gl).next_handle },
                GlCommand::BindBuffer { buffer: (old(gl).next_handle + 1) as u32 },
                GlCommand::VertexAttribPointer {
                    index: 0,
                    size: 4,
                    stride_bytes: 16,
                    offset_bytes: 0,
                },
                GlCommand::EnableVertexAttribArray { index: 0 },
                GlCommand::BindVertexArray { array: 0 },
            ]);
        }
        SpriteRenderer { shader, vao, vbo }
    }

    /// Draws the sheet cell at the given column and row as a
    /// `cell_size`-sized quad centered at `pos + cell_size/2`,
    /// rotated by `rotation_deg_bits` degrees and tinted with the
    /// packed color, under an orthographic projection of the current
    /// window.  Records exactly the 28-call protocol of
    /// [`is_sprite_draw_commands`], with one six-vertex draw.
    ///
    /// The addressed cell must lie inside the sheet — the texture
    /// rectangle never passes 1 — and the uniform locations must be
    /// resolved; both are caller contract violations otherwise.
    #[verifier::rlimit(100)]
    pub fn draw(
        &self,
        gl: &mut Gl,
        sheet: &SpriteSheet,
        sprite_colomn: i32,
        sprite_row: i32,
        pos: Vec2i,
        rotation_deg_bits: u32,
        taint: u32,
        window_width: i32,
        window_height: i32,
        locations: SpriteLocations,
    )
        requires
            self.wf(),
            old(gl).max_texture_units >= 1,
            sheet.texture_width > 0,
            sheet.texture_height > 0,
            0 <= sheet.cell_size,
            0 <= sprite_colomn < i32::MAX,
            0 <= sprite_row < i32::MAX,
            sheet.cell_size * (sprite_colomn + 1) <= sheet.texture_width,
            sheet.cell_size * (sprite_row + 1) <= sheet.texture_height,
            locations.u_space_matrix != -1,
            locations.u_model != -1,
            locations.u_tex0 != -1,
            locations.u_use_texture != -1,
            locations.u_taint != -1,
        ensures
            final(gl).next_handle == old(gl).next_handle,
            final(gl).max_texture_units == old(gl).max_texture_units,
            final(gl).commands@.len() == old(gl).commands@.len() + 28,
            final(gl).commands@.subrange(0, old(gl).commands@.len() as int) == old(gl).commands@,
            is_sprite_draw_commands(
                final(gl).commands@.subrange(
                    old(gl).commands@.len() as int,
                    final(gl).commands@.len() as int,
                ),
                *self,
                *sheet,
                locations,
                sprite_colomn,
                sprite_row,
                pos,
                rotation_deg_bits,
                taint,
                window_width,
                window_height,
            ),
    {
        let ghost n0 = gl.commands@.len() as int;
        let u_space_matrix = self.shader.uniform(gl, "u_space_matrix", UnifomType::Matrix4x4, locations.u_space_matrix);
        let ghost q_space = gl.commands@[n0 + 1];
        proof {
            assert(gl.commands@.subrange(0, n0) =~= old(gl).commands@);
            assert(gl.commands@[n0 + 0] == (GlCommand::UseProgram { program: self.shader.program }));
            assert(gl.commands@[n0 + 1] == q_space);
        }
        let u_model = self.shader.uniform(gl, "u_model", UnifomType::Matrix4x4, locations.u_model);
        let ghost q_model = gl.commands@[n0 + 3];
        proof {
            assert(gl.commands@.subrange(0, n0) =~= old(gl).commands@);
            assert(gl.commands@[n0 + 0] == (GlCommand::UseProgram { program: self.shader.program }));
            assert(gl.commands@[n0 + 1] == q_space);
            assert(gl.commands@[n0 + 2] == (GlCommand::UseProgram { program: self.shader.program }));
            assert(gl.commands@[n0 + 3] == q_model);
        }
        let u_tex0 = self.shader.uniform(gl, "u_tex0", UnifomType::I32, locations.u_tex0);
        let ghost q_tex0 = gl.commands@[n0 + 5];
        proof {
            assert(gl.commands@.subrange(0, n0) =~= old(gl).commands@);
            assert(gl.commands@[n0 + 0] == (GlCommand::UseProgram { program: self.shader.program }));
            assert(gl.commands@[n0 + 1] == q_space);
            assert(gl.commands@[n0 + 2] == (GlCommand::UseProgram { program: self.shader.program }));
            assert(gl.commands@[n0 + 3] == q_model);
            assert(gl.commands@[n0 + 4] == (GlCommand::UseProgram { program: self.shader.program }));
            assert(gl.commands@[n0 + 5] == q_tex0);
        }
        let u_use_texture = self.shader.uniform(gl, "u_use_texture", UnifomType::I32, locations.u_use_texture);
        let ghost q_use_texture = gl.commands@[n0 + 7];
        proof {
            assert(gl.commands@.subrange(0, n0) =~= old(gl).commands@);
            assert(gl.commands@[n0 + 0] == (GlCommand::UseProgram { program: self.shader.program }));
            assert(gl.commands@[n0 + 1] == q_space);
            assert(gl.commands@[n0 + 2] == (GlCommand::UseProgram { program: self.shader.program }));
            assert(gl.commands@[n0 + 3] == q_model);
            assert(gl.commands@[n0 + 4] == (GlCommand::UseProgram { program: self.shader.program }));
            assert(gl.commands@[n0 + 5] == q_tex0);
            assert(gl.commands@[n0 + 6] == (GlCommand::UseProgram { program: self.shader.program }));
            assert(gl.commands@[n0 + 7] == q_use_texture);
        }
        let u_taint = self.shader.uniform(gl, "u_taint", UnifomType::Vec4, locations.u_taint);
        let ghost q_taint = gl.commands@[n0 + 9];
        proof {
            assert(gl.commands@.subrange(0, n0) =~= old(gl).commands@);
            assert(gl.commands@[n0 + 0] == (GlCommand::UseProgram { program: self.shader.program }));
            assert(gl.commands@[n0 + 1] == q_space);
            assert(gl.commands@[n0 + 2] == (GlCommand::UseProgram { program: self.shader.program }));
            assert(gl.commands@[n0 + 3] == q_model);
            assert(gl.commands@[n0 + 4] == (GlCommand::UseProgram { program: self.shader.program }));
            assert(gl.commands@[n0 + 5] == q_tex0);
            assert(gl.commands@[n0 + 6] == (GlCommand::UseProgram { program: self.shader.program }));
            assert(gl.commands@[n0 + 7] == q_use_texture);
            assert(gl.commands@[n0 + 8] == (GlCommand::UseProgram { program: self.shader.program }));
            assert(gl.commands@[n0 + 9] == q_taint);
        }
        self.shader.use_(gl);
        proof {
            assert(gl.commands@.subrange(0, n0) =~= old(gl).commands@);
            assert(gl.commands@[n0 + 0] == (GlCommand::UseProgram { program: self.shader.program }));
            assert(gl.commands@[n0 + 1] == q_space);
            assert(gl.commands@[n0 + 2] == (GlCommand::UseProgram { program: self.shader.program }));
            assert(gl.commands@[n0 + 3] == q_model);
            assert(gl.commands@[n0 + 4] == (GlCommand::UseProgram { program: self.shader.program }));
            assert(gl.commands@[n0 + 5] == q_tex0);
            assert(gl.commands@[n0 + 6] == (GlCommand::UseProgram { program: self.shader.program }));
            assert(gl.commands@[n0 + 7] == q_use_texture);
            assert(gl.commands@[n0 + 8] == (GlCommand::UseProgram { program: self.shader.program }));
            assert(gl.commands@[n0 + 9] == q_taint);
            assert(gl.commands@[n0 + 10] == (GlCommand::UseProgram { program: self.shader.program }));
        }
        sheet.texture.bind(gl, 0);
        proof {
            assert(gl.commands@.subrange(0, n0) =~= old(gl).commands@);
            assert(gl.commands@[n0 + 0] == (GlCommand::UseProgram { program: self.shader.program }));
            assert(gl.commands@[n0 + 1] == q_space);
            assert(gl.commands@[n0 + 2] == (GlCommand::UseProgram { program: self.shader.program }));
            assert(gl.commands@[n0 + 3] == q_model);
            assert(gl.commands@[n0 + 4] == (GlCommand::UseProgram { program: self.shader.program }));
            assert(gl.commands@[n0 + 5] == q_tex0);
            assert(gl.commands@[n0 + 6] == (GlCommand::UseProgram { program: self.shader.program }));
            assert(gl.commands@[n0 + 7] == q_use_texture);
            assert(gl.commands@[n0 + 8] == (GlCommand::UseProgram { program: self.shader.program }));
            assert(gl.commands@[n0 + 9] == q_taint);
            assert(gl.commands@[n0 + 10] == (GlCommand::UseProgram { program: self.shader.program }));
            assert(gl.commands@[n0 + 11] == (GlCommand::ActiveTexture { unit: 0 }));
            assert(gl.commands@[n0 + 12] == (GlCommand::BindTexture { texture: sheet.texture.handle }));
        }
        u_space_matrix.update_value(gl, UniformValue::Matrix4x4(Mat4Desc::Ortho { width: window_width, height: window_height })).unwrap();
        proof {
            assert(gl.commands@.subrange(0, n0) =~= old(gl).commands@);
            assert(gl.commands@[n0 + 0] == (GlCommand::UseProgram { program: self.shader.program }));
            assert(gl.commands@[n0 + 1] == q_space);
            assert(gl.commands@[n0 + 2] == (GlCommand::UseProgram { program: self.shader.program }));
            assert(gl.commands@[n0 + 3] == q_model);
            assert(gl.commands@[n0 + 4] == (GlCommand::UseProgram { program: self.shader.program }));
            assert(gl.commands@[n0 + 5] == q_tex0);
            assert(gl.commands@[n0 + 6] == (GlCommand::UseProgram { program: self.shader.program }));
            assert(gl.commands@[n0 + 7] == q_use_texture);
            assert(gl.commands@[n0 + 8] == (GlCommand::UseProgram { program: self.shader.program }));
            assert(gl.commands@[n0 + 9] == q_taint);
            assert(gl.commands@[n0 + 10] == (GlCommand::UseProgram { program: self.shader.program }));
            assert(gl.commands@[n0 + 11] == (GlCommand::ActiveTexture { unit: 0 }));
            assert(gl.commands@[n0 + 12] == (GlCommand::BindTexture { texture: sheet.texture.handle }));
            assert(gl.commands@[n0 + 13] == (GlCommand::UniformMatrix4 { location: locations.u_space_matrix, matrix: Mat4Desc::Ortho { width: window_width, height: window_height } }));
        }
        u_model.update_value(gl, UniformValue::Matrix4x4(Mat4Desc::SpriteModel { cell_size: sheet.cell_size, pos_x: pos.x, pos_y: pos.y, rotation_deg_bits })).unwrap();
        proof {
            assert(gl.commands@.subrange(0, n0) =~= old(gl).commands@);
            assert(gl.commands@[n0 + 0] == (GlCommand::UseProgram { program: self.shader.program }));
            assert(gl.commands@[n0 + 1] == q_space);
            assert(gl.commands@[n0 + 2] == (GlCommand::UseProgram { program: self.shader.program }));
            assert(gl.commands@[n0 + 3] == q_model);
            assert(gl.commands@[n0 + 4] == (GlCommand::UseProgram { program: self.shader.program }));
            assert(gl.commands@[n0 + 5] == q_tex0);
            assert(gl.commands@[n0 + 6] == (GlCommand::UseProgram { program: self.shader.program }));
            assert(gl.commands@[n0 + 7] == q_use_texture);
            assert(gl.commands@[n0 + 8] == (GlCommand::UseProgram { program: self.shader.program }));
            assert(gl.commands@[n0 + 9] == q_taint);
            assert(gl.commands@[n0 + 10] == (GlCommand::UseProgram { program: self.shader.program }));
            assert(gl.commands@[n0 + 11] == (GlCommand::ActiveTexture { unit: 0 }));
            assert(gl.commands@[n0 + 12] == (GlCommand::BindTexture { texture: sheet.texture.handle }));
            assert(gl.commands@[n0 + 13] == (GlCommand::UniformMatrix4 { location: locations.u_space_matrix, matrix: Mat4Desc::Ortho { width: window_width, height: window_height } }));
            assert(gl.commands@[n0 + 14] == (GlCommand::UniformMatrix4 { location: locations.u_model, matrix: Mat4Desc::SpriteModel { cell_size: sheet.cell_size, pos_x: pos.x, pos_y: pos.y, rotation_deg_bits } }));
        }
        u_tex0.update_value(gl, UniformValue::I32(0)).unwrap();
        proof {
            assert(gl.commands@.subrange(0, n0) =~= old(gl).commands@);
            assert(gl.commands@[n0 + 0] == (GlCommand::UseProgram { program: self.shader.program }));
            assert(gl.commands@[n0 + 1] == q_space);
            assert(gl.commands@[n0 + 2] == (GlCommand::UseProgram { program: self.shader.program }));
            assert(gl.commands@[n0 + 3] == q_model);
            assert(gl.commands@[n0 + 4] == (GlCommand::UseProgram { program: self.shader.program }));
            assert(gl.commands@[n0 + 5] == q_tex0);
            assert(gl.commands@[n0 + 6] == (GlCommand::UseProgram { program: self.shader.program }));
            assert(gl.commands@[n0 + 7] == q_use_texture);
            assert(gl.commands@[n0 + 8] == (GlCommand::UseProgram { program: self.shader.program }));
            assert(gl.commands@[n0 + 9] == q_taint);
            assert(gl.commands@[n0 + 10] == (GlCommand::UseProgram { program: self.shader.program }));
            assert(gl.commands@[n0 + 11] == (GlCommand::ActiveTexture { unit: 0 }));
            assert(gl.commands@[n0 + 12] == (GlCommand::BindTexture { texture: sheet.texture.handle }));
            assert(gl.commands@[n0 + 13] == (GlCommand::UniformMatrix4 { location: locations.u_space_matrix, matrix: Mat4Desc::Ortho { width: window_width, height: window_height } }));
            assert(gl.commands@[n0 + 14] == (GlCommand::UniformMatrix4 { location: locations.u_model, matrix: Mat4Desc::SpriteModel { cell_size: sheet.cell_size, pos_x: pos.x, pos_y: pos.y, rotation_deg_bits } }));
            assert(gl.commands@[n0 + 15] == (GlCommand::Uniform1i { location: locations.u_tex0, value: 0 }));
        }
        u_use_texture.update_value(gl, UniformValue::I32(1)).unwrap();
        proof {
            assert(gl.commands@.subrange(0, n0) =~= old(gl).commands@);
            assert(gl.commands@[n0 + 0] == (GlCommand::UseProgram { program: self.shader.program }));
            assert(gl.commands@[n0 + 1] == q_space);
            assert(gl.commands@[n0 + 2] == (GlCommand::UseProgram { program: self.shader.program }));
            assert(gl.commands@[n0 + 3] == q_model);
            assert(gl.commands@[n0 + 4] == (GlCommand::UseProgram { program: self.shader.program }));
            assert(gl.commands@[n0 + 5] == q_tex0);
            assert(gl.commands@[n0 + 6] == (GlCommand::UseProgram { program: self.shader.program }));
            assert(gl.commands@[n0 + 7] == q_use_texture);
            assert(gl.commands@[n0 + 8] == (GlCommand::UseProgram { program: self.shader.program }));
            assert(gl.commands@[n0 + 9] == q_taint);
            assert(gl.commands@[n0 + 10] == (GlCommand::UseProgram { program: self.shader.program }));
            assert(gl.commands@[n0 + 11] == (GlCommand::ActiveTexture { unit: 0 }));
            assert(gl.commands@[n0 + 12] == (GlCommand::BindTexture { texture: sheet.texture.handle }));
            assert(gl.commands@[n0 + 13] == (GlCommand::UniformMatrix4 { location: locations.u_space_matrix, matrix: Mat4Desc::Ortho { width: window_width, height: window_height } }));
            assert(gl.commands@[n0 + 14] == (GlCommand::UniformMatrix4 { location: locations.u_model, matrix: Mat4Desc::SpriteModel { cell_size: sheet.cell_size, pos_x: pos.x, pos_y: pos.y, rotation_deg_bits } }));
            assert(gl.commands@[n0 + 15] == (GlCommand::Uniform1i { location: locations.u_tex0, value: 0 }));
            assert(gl.commands@[n0 + 16] == (GlCommand::Uniform1i { location: locations.u_use_texture, value: 1 }));
        }
        u_taint.update_value(gl, UniformValue::Vec4(tint_vec4(taint))).unwrap();
        proof {
            assert(gl.commands@.subrange(0, n0) =~= old(gl).commands@);
            assert(gl.commands@[n0 + 0] == (GlCommand::UseProgram { program: self.shader.program }));
            assert(gl.commands@[n0 + 1] == q_space);
            assert(gl.commands@[n0 + 2] == (GlCommand::UseProgram { program: self.shader.program }));
            assert(gl.commands@[n0 + 3] == q_model);
            assert(gl.commands@[n0 + 4] == (GlCommand::UseProgram { program: self.shader.program }));
            assert(gl.commands@[n0 + 5] == q_tex0);
            assert(gl.commands@[n0 + 6] == (GlCommand::UseProgram { program: self.shader.program }));
            assert(gl.commands@[n0 + 7] == q_use_texture);
            assert(gl.commands@[n0 + 8] == (GlCommand::UseProgram { program: self.shader.program }));
            assert(gl.commands@[n0 + 9] == q_taint);
            assert(gl.commands@[n0 + 10] == (GlCommand::UseProgram { program: self.shader.program }));
            assert(gl.commands@[n0 + 11] == (GlCommand::ActiveTexture { unit: 0 }));
            assert(gl.commands@[n0 + 12] == (GlCommand::BindTexture { texture: sheet.texture.handle }));
            assert(gl.commands@[n0 + 13] == (GlCommand::UniformMatrix4 { location: locations.u_space_matrix, matrix: Mat4Desc::Ortho { width: window_width, height: window_height } }));
            assert(gl.commands@[n0 + 14] == (GlCommand::UniformMatrix4 { location: locations.u_model, matrix: Mat4Desc::SpriteModel { cell_size: sheet.cell_size, pos_x: pos.x, pos_y: pos.y, rotation_deg_bits } }));
            assert(gl.commands@[n0 + 15] == (GlCommand::Uniform1i { location: locations.u_tex0, value: 0 }));
            assert(gl.commands@[n0 + 16] == (GlCommand::Uniform1i { location: locations.u_use_texture, value: 1 }));
            assert(gl.commands@[n0 + 17] == (GlCommand::Uniform4 { location: locations.u_taint, value: tint_vec4_spec(taint) }));
        }
        gl.emit(GlCommand::EnableBlend);
        proof {
            assert(gl.commands@.subrange(0, n0) =~= old(gl).commands@);
            assert(gl.commands@[n0 + 0] == (GlCommand::UseProgram { program: self.shader.program }));
            assert(gl.commands@[n0 + 1] == q_space);
            assert(gl.commands@[n0 + 2] == (GlCommand::UseProgram { program: self.shader.program }));
            assert(gl.commands@[n0 + 3] == q_model);
            assert(gl.commands@[n0 + 4] == (GlCommand::UseProgram { program: self.shader.program }));
            assert(gl.commands@[n0 + 5] == q_tex0);
            assert(gl.commands@[n0 + 6] == (GlCommand::UseProgram { program: self.shader.program }));
            assert(gl.commands@[n0 + 7] == q_use_texture);
            assert(gl.commands@[n0 + 8] == (GlCommand::UseProgram { program: self.shader.program }));
            assert(gl.commands@[n0 + 9] == q_taint);
            assert(gl.commands@[n0 + 10] == (GlCommand::UseProgram { program: self.shader.program }));
            assert(gl.commands@[n0 + 11] == (GlCommand::ActiveTexture { unit: 0 }));
            assert(gl.commands@[n0 + 12] == (GlCommand::BindTexture { texture: sheet.texture.handle }));
            assert(gl.commands@[n0 + 13] == (GlCommand::UniformMatrix4 { location: locations.u_space_matrix, matrix: Mat4Desc::Ortho { width: window_width, height: window_height } }));
            assert(gl.commands@[n0 + 14] == (GlCommand::UniformMatrix4 { location: locations.u_model, matrix: Mat4Desc::SpriteModel { cell_size: sheet.cell_size, pos_x: pos.x, pos_y: pos.y, rotation_deg_bits } }));
            assert(gl.commands@[n0 + 15] == (GlCommand::Uniform1i { location: locations.u_tex0, value: 0 }));
            assert(gl.commands@[n0 + 16] == (GlCommand::Uniform1i { location: locations.u_use_texture, value: 1 }));
            assert(gl.commands@[n0 + 17] == (GlCommand::Uniform4 { location: locations.u_taint, value: tint_vec4_spec(taint) }));
            assert(gl.commands@[n0 + 18] == (GlCommand::EnableBlend));
        }
        gl.emit(GlCommand::BlendFuncAlpha);
        proof {
            assert(gl.commands@.subrange(0, n0) =~= old(gl).commands@);
            assert(gl.commands@[n0 + 0] == (GlCommand::UseProgram { program: self.shader.program }));
            assert(gl.commands@[n0 + 1] == q_space);
            assert(gl.commands@[n0 + 2] == (GlCommand::UseProgram { program: self.shader.program }));
            assert(gl.commands@[n0 + 3] == q_model);
            assert(gl.commands@[n0 + 4] == (GlCommand::UseProgram { program: self.shader.program }));
            assert(gl.commands@[n0 + 5] == q_tex0);
            assert(gl.commands@[n0 + 6] == (GlCommand::UseProgram { program: self.shader.program }));
            assert(gl.commands@[n0 + 7] == q_use_texture);
            assert(gl.commands@[n0 + 8] == (GlCommand::UseProgram { program: self.shader.program }));
            assert(gl.commands@[n0 + 9] == q_taint);
            assert(gl.commands@[n0 + 10] == (GlCommand::UseProgram { program: self.shader.program }));
            assert(gl.commands@[n0 + 11] == (GlCommand::ActiveTexture { unit: 0 }));
            assert(gl.commands@[n0 + 12] == (GlCommand::BindTexture { texture: sheet.texture.handle }));
            assert(gl.commands@[n0 + 13] == (GlCommand::UniformMatrix4 { location: locations.u_space_matrix, matrix: Mat4Desc::Ortho { width: window_width, height: window_height } }));
            assert(gl.commands@[n0 + 14] == (GlCommand::UniformMatrix4 { location: locations.u_model, matrix: Mat4Desc::SpriteModel { cell_size: sheet.cell_size, pos_x: pos.x, pos_y: pos.y, rotation_deg_bits } }));
            assert(gl.commands@[n0 + 15] == (GlCommand::Uniform1i { location: locations.u_tex0, value: 0 }));
            assert(gl.commands@[n0 + 16] == (GlCommand::Uniform1i { location: locations.u_use_texture, value: 1 }));
            assert(gl.commands@[n0 + 17] == (GlCommand::Uniform4 { location: locations.u_taint, value: tint_vec4_spec(taint) }));
            assert(gl.commands@[n0 + 18] == (GlCommand::EnableBlend));
            assert(gl.commands@[n0 + 19] == (GlCommand::BlendFuncAlpha));
        }
        proof {
            assert(sheet.cell_size * sprite_colomn >= 0) by (nonlinear_arith)
                requires
                    0 <= sheet.cell_size,
                    0 <= sprite_colomn,
            ;
            assert(sheet.cell_size * sprite_colomn <= sheet.cell_size * (sprite_colomn + 1))
                by (nonlinear_arith)
                requires
                    0 <= sheet.cell_size,
                    0 <= sprite_colomn,
            ;
            assert(sheet.cell_size * sprite_row >= 0) by (nonlinear_arith)
                requires
                    0 <= sheet.cell_size,
                    0 <= sprite_row,
            ;
            assert(sheet.cell_size * sprite_row <= sheet.cell_size * (sprite_row + 1))
                by (nonlinear_arith)
                requires
                    0 <= sheet.cell_size,
                    0 <= sprite_row,
            ;
        }
        let s0 = Scalar::new(sheet.cell_size * sprite_colomn, sheet.texture_width);
        let s1 = Scalar::new(sheet.cell_size * (sprite_colomn + 1), sheet.texture_width);
        let t0 = Scalar::new(sheet.cell_size * sprite_row, sheet.texture_height);
        let t1 = Scalar::new(sheet.cell_size * (sprite_row + 1), sheet.texture_height);
        let x0 = Scalar::new(-1, 2);
        let x1 = Scalar::new(1, 2);
        let y0 = Scalar::new(-1, 2);
        let y1 = Scalar::new(1, 2);

        let quads = quad_vertices(x0, x1, y0, y1, s0, s1, t0, t1);
        self.vbo.update(gl, &quads);
        let ghost q_data = gl.commands@[n0 + 21];
        proof {
            assert(gl.commands@.subrange(0, n0) =~= old(gl).commands@);
            assert(gl.commands@[n0 + 0] == (GlCommand::UseProgram { program: self.shader.program }));
            assert(gl.commands@[n0 + 1] == q_space);
            assert(gl.commands@[n0 + 2] == (GlCommand::UseProgram { program: self.shader.program }));
            assert(gl.commands@[n0 + 3] == q_model);
            assert(gl.commands@[n0 + 4] == (GlCommand::UseProgram { program: self.shader.program }));
            assert(gl.commands@[n0 + 5] == q_tex0);
            assert(gl.commands@[n0 + 6] == (GlCommand::UseProgram { program: self.shader.program }));
            assert(gl.commands@[n0 + 7] == q_use_texture);
            assert(gl.commands@[n0 + 8] == (GlCommand::UseProgram { program: self.shader.program }));
            assert(gl.commands@[n0 + 9] == q_taint);
            assert(gl.commands@[n0 + 10] == (GlCommand::UseProgram { program: self.shader.program }));
            assert(gl.commands@[n0 + 11] == (GlCommand::ActiveTexture { unit: 0 }));
            assert(gl.commands@[n0 + 12] == (GlCommand::BindTexture { texture: sheet.texture.handle }));
            assert(gl.commands@[n0 + 13] == (GlCommand::UniformMatrix4 { location: locations.u_space_matrix, matrix: Mat4Desc::Ortho { width: window_width, height: window_height } }));
            assert(gl.commands@[n0 + 14] == (GlCommand::UniformMatrix4 { location: locations.u_model, matrix: Mat4Desc::SpriteModel { cell_size: sheet.cell_size, pos_x: pos.x, pos_y: pos.y, rotation_deg_bits } }));
            assert(gl.commands@[n0 + 15] == (GlCommand::Uniform1i { location: locations.u_tex0, value: 0 }));
            assert(gl.commands@[n0 + 16] == (GlCommand::Uniform1i { location: locations.u_use_texture, value: 1 }));
            assert(gl.commands@[n0 + 17] == (GlCommand::Uniform4 { location: locations.u_taint, value: tint_vec4_spec(taint) }));
            assert(gl.commands@[n0 + 18] == (GlCommand::EnableBlend));
            assert(gl.commands@[n0 + 19] == (GlCommand::BlendFuncAlpha));
            assert(gl.commands@[n0 + 20] == (GlCommand::BindBuffer { buffer: self.vbo.handle }));
            assert(gl.commands@[n0 + 21] == q_data);
            assert(gl.commands@[n0 + 22] == (GlCommand::BindBuffer { buffer: 0 }));
        }
        self.vao.draw_triangles(gl);
        proof {
            assert(gl.commands@.subrange(0, n0) =~= old(gl).commands@);
            assert(gl.commands@[n0 + 0] == (GlCommand::UseProgram { program: self.shader.program }));
            assert(gl.commands@[n0 + 1] == q_space);
            assert(gl.commands@[n0 + 2] == (GlCommand::UseProgram { program: self.shader.program }));
            assert(gl.commands@[n0 + 3] == q_model);
            assert(gl.commands@[n0 + 4] == (GlCommand::UseProgram { program: self.shader.program }));
            assert(gl.commands@[n0 + 5] == q_tex0);
            assert(gl.commands@[n0 + 6] == (GlCommand::UseProgram { program: self.shader.program }));
            assert(gl.commands@[n0 + 7] == q_use_texture);
            assert(gl.commands@[n0 + 8] == (GlCommand::UseProgram { program: self.shader.program }));
            assert(gl.commands@[n0 + 9] == q_taint);
            assert(gl.commands@[n0 + 10] == (GlCommand::UseProgram { program: self.shader.program }));
            assert(gl.commands@[n0 + 11] == (GlCommand::ActiveTexture { unit: 0 }));
            assert(gl.commands@[n0 + 12] == (GlCommand::BindTexture { texture: sheet.texture.handle }));
            assert(gl.commands@[n0 + 13] == (GlCommand::UniformMatrix4 { location: locations.u_space_matrix, matrix: Mat4Desc::Ortho { width: window_width, height: window_height } }));
            assert(gl.commands@[n0 + 14] == (GlCommand::UniformMatrix4 { location: locations.u_model, matrix: Mat4Desc::SpriteModel { cell_size: sheet.cell_size, pos_x: pos.x, pos_y: pos.y, rotation_deg_bits } }));
            assert(gl.commands@[n0 + 15] == (GlCommand::Uniform1i { location: locations.u_tex0, value: 0 }));
            assert(gl.commands@[n0 + 16] == (GlCommand::Uniform1i { location: locations.u_use_texture, value: 1 }));
            assert(gl.commands@[n0 + 17] == (GlCommand::Uniform4 { location: locations.u_taint, value: tint_vec4_spec(taint) }));
            assert(gl.commands@[n0 + 18] == (GlCommand::EnableBlend));
            assert(gl.commands@[n0 + 19] == (GlCommand::BlendFuncAlpha));
            assert(gl.commands@[n0 + 20] == (GlCommand::BindBuffer { buffer: self.vbo.handle }));
            assert(gl.commands@[n0 + 21] == q_data);
            assert(gl.commands@[n0 + 22] == (GlCommand::BindBuffer { buffer: 0 }));
            assert(gl.commands@[n0 + 23] == (GlCommand::BindVertexArray { array: self.vao.handle }));
            assert(gl.commands@[n0 + 24] == (GlCommand::DrawTriangles { first: 0, count: 6 }));
            assert(gl.commands@[n0 + 25] == (GlCommand::BindVertexArray { array: 0 }));
        }
        gl.emit(GlCommand::BindVertexArray { array: 0 });
        proof {
            assert(gl.commands@.subrange(0, n0) =~= old(gl).commands@);
            assert(gl.commands@[n0 + 0] == (GlCommand::UseProgram { program: self.shader.program }));
            assert(gl.commands@[n0 + 1] == q_space);
            assert(gl.commands@[n0 + 2] == (GlCommand::UseProgram { program: self.shader.program }));
            assert(gl.commands@[n0 + 3] == q_model);
            assert(gl.commands@[n0 + 4] == (GlCommand::UseProgram { program: self.shader.program }));
            assert(gl.commands@[n0 + 5] == q_tex0);
            assert(gl.commands@[n0 + 6] == (GlCommand::UseProgram { program: self.shader.program }));
            assert(gl.commands@[n0 + 7] == q_use_texture);
            assert(gl.commands@[n0 + 8] == (GlCommand::UseProgram { program: self.shader.program }));
            assert(gl.commands@[n0 + 9] == q_taint);
            assert(gl.commands@[n0 + 10] == (GlCommand::UseProgram { program: self.shader.program }));
            assert(gl.commands@[n0 + 11] == (GlCommand::ActiveTexture { unit: 0 }));
            assert(gl.commands@[n0 + 12] == (GlCommand::BindTexture { texture: sheet.texture.handle }));
            assert(gl.commands@[n0 + 13] == (GlCommand::UniformMatrix4 { location: locations.u_space_matrix, matrix: Mat4Desc::Ortho { width: window_width, height: window_height } }));
            assert(gl.commands@[n0 + 14] == (GlCommand::UniformMatrix4 { location: locations.u_model, matrix: Mat4Desc::SpriteModel { cell_size: sheet.cell_size, pos_x: pos.x, pos_y: pos.y, rotation_deg_bits } }));
            assert(gl.commands@[n0 + 15] == (GlCommand::Uniform1i { location: locations.u_tex0, value: 0 }));
            assert(gl.commands@[n0 + 16] == (GlCommand::Uniform1i { location: locations.u_use_texture, value: 1 }));
            assert(gl.commands@[n0 + 17] == (GlCommand::Uniform4 { location: locations.u_taint, value: tint_vec4_spec(taint) }));
            assert(gl.commands@[n0 + 18] == (GlCommand::EnableBlend));
            assert(gl.commands@[n0 + 19] == (GlCommand::BlendFuncAlpha));
            assert(gl.commands@[n0 + 20] == (GlCommand::BindBuffer { buffer: self.vbo.handle }));
            assert(gl.commands@[n0 + 21] == q_data);
            assert(gl.commands@[n0 + 22] == (GlCommand::BindBuffer { buffer: 0 }));
            assert(gl.commands@[n0 + 23] == (GlCommand::BindVertexArray { array: self.vao.handle }));
            assert(gl.commands@[n0 + 24] == (GlCommand::DrawTriangles { first: 0, count: 6 }));
            assert(gl.commands@[n0 + 25] == (GlCommand::BindVertexArray { array: 0 }));
            assert(gl.commands@[n0 + 26] == (GlCommand::BindVertexArray { array: 0 }));
        }
        gl.emit(GlCommand::DisableBlend);
        proof {
            assert(gl.commands@.subrange(0, n0) =~= old(gl).commands@);
            assert(gl.commands@[n0 + 0] == (GlCommand::UseProgram { program: self.shader.program }));
            assert(gl.commands@[n0 + 1] == q_space);
            assert(gl.commands@[n0 + 2] == (GlCommand::UseProgram { program: self.shader.program }));
            assert(gl.commands@[n0 + 3] == q_model);
            assert(gl.commands@[n0 + 4] == (GlCommand::UseProgram { program: self.shader.program }));
            assert(gl.commands@[n0 + 5] == q_tex0);
            assert(gl.commands@[n0 + 6] == (GlCommand::UseProgram { program: self.shader.program }));
            assert(gl.commands@[n0 + 7] == q_use_texture);
            assert(gl.commands@[n0 + 8] == (GlCommand::UseProgram { program: self.shader.program }));
            assert(gl.commands@[n0 + 9] == q_taint);
            assert(gl.commands@[n0 + 10] == (GlCommand::UseProgram { program: self.shader.program }));
            assert(gl.commands@[n0 + 11] == (GlCommand::ActiveTexture { unit: 0 }));
            assert(gl.commands@[n0 + 12] == (GlCommand::BindTexture { texture: sheet.texture.handle }));
            assert(gl.commands@[n0 + 13] == (GlCommand::UniformMatrix4 { location: locations.u_space_matrix, matrix: Mat4Desc::Ortho { width: window_width, height: window_height } }));
            assert(gl.commands@[n0 + 14] == (GlCommand::UniformMatrix4 { location: locations.u_model, matrix: Mat4Desc::SpriteModel { cell_size: sheet.cell_size, pos_x: pos.x, pos_y: pos.y, rotation_deg_bits } }));
            assert(gl.commands@[n0 + 15] == (GlCommand::Uniform1i { location: locations.u_tex0, value: 0 }));
            assert(gl.commands@[n0 + 16] == (GlCommand::Uniform1i { location: locations.u_use_texture, value: 1 }));
            assert(gl.commands@[n0 + 17] == (GlCommand::Uniform4 { location: locations.u_taint, value: tint_vec4_spec(taint) }));
            assert(gl.commands@[n0 + 18] == (GlCommand::EnableBlend));
            assert(gl.commands@[n0 + 19] == (GlCommand::BlendFuncAlpha));
            assert(gl.commands@[n0 + 20] == (GlCommand::BindBuffer { buffer: self.vbo.handle }));
            assert(gl.commands@[n0 + 21] == q_data);
            assert(gl.commands@[n0 + 22] == (GlCommand::BindBuffer { buffer: 0 }));
            assert(gl.commands@[n0 + 23] == (GlCommand::BindVertexArray { array: self.vao.handle }));
            assert(gl.commands@[n0 + 24] == (GlCommand::DrawTriangles { first: 0, count: 6 }));
            assert(gl.commands@[n0 + 25] == (GlCommand::BindVertexArray { array: 0 }));
            assert(gl.commands@[n0 + 26] == (GlCommand::BindVertexArray { array: 0 }));
            assert(gl.commands@[n0 + 27] == (GlCommand::DisableBlend));
        }
        proof {
            let s = gl.commands@.subrange(n0, n0 + 28);
            assert(s.subrange(0, 2) =~= gl.commands@.subrange(n0, n0 + 2));
            assert(s.subrange(2, 4) =~= gl.commands@.subrange(n0 + 2, n0 + 4));
            assert(s.subrange(4, 6) =~= gl.commands@.subrange(n0 + 4, n0 + 6));
            assert(s.subrange(6, 8) =~= gl.commands@.subrange(n0 + 6, n0 + 8));
            assert(s.subrange(8, 10) =~= gl.commands@.subrange(n0 + 8, n0 + 10));
            assert(quads@ == sprite_quad_seq(*sheet, sprite_colomn, sprite_row));
            assert(q_data matches GlCommand::BufferDataDynamic { data } && data@
                == sprite_quad_seq(*sheet, sprite_colomn, sprite_row));
        }
    }

    /// Draws the flat tinted rectangle spanning `[min, max]` in
    /// screen pixels, with texturing off and an identity model
    /// matrix.  Records exactly the 23-call protocol of
    /// [`is_blit_rect_commands`], with one six-vertex draw.  The
    /// uniform locations must be resolved; that is a caller contract
    /// violation otherwise.
    #[verifier::rlimit(100)]
    pub fn blit_rect(
        &self,
        gl: &mut Gl,
        min: Vec2i,
        max: Vec2i,
        taint: u32,
        window_width: i32,
        window_height: i32,
        locations: SpriteLocations,
    )
        requires
            self.wf(),
            locations.u_space_matrix != -1,
            locations.u_model != -1,
            locations.u_use_texture != -1,
            locations.u_taint != -1,
        ensures
            final(gl).next_handle == old(gl).next_handle,
            final(gl).max_texture_units == old(gl).max_texture_units,
            final(gl).commands@.len() == old(gl).commands@.len() + 23,
            final(gl).commands@.subrange(0, old(gl).commands@.len() as int) == old(gl).commands@,
            is_blit_rect_commands(
                final(gl).commands@.subrange(
                    old(gl).commands@.len() as int,
                    final(gl).commands@.len() as int,
                ),
                *self,
                locations,
                min,
                max,
                taint,
                window_width,
                window_height,
            ),
    {
        let ghost n0 = gl.commands@.len() as int;
        let u_space_matrix = self.shader.uniform(gl, "u_space_matrix", UnifomType::Matrix4x4, locations.u_space_matrix);
        let ghost q_space = gl.commands@[n0 + 1];
        proof {
            assert(gl.commands@.subrange(0, n0) =~= old(gl).commands@);
            assert(gl.commands@[n0 + 0] == (GlCommand::UseProgram { program: self.shader.program }));
            assert(gl.commands@[n0 + 1] == q_space);
        }
        let u_model = self.shader.uniform(gl, "u_model", UnifomType::Matrix4x4, locations.u_model);
        let ghost q_model = gl.commands@[n0 + 3];
        proof {
            assert(gl.commands@.subrange(0, n0) =~= old(gl).commands@);
            assert(gl.commands@[n0 + 0] == (GlCommand::UseProgram { program: self.shader.program }));
            assert(gl.commands@[n0 + 1] == q_space);
            assert(gl.commands@[n0 + 2] == (GlCommand::UseProgram { program: self.shader.program }));
            assert(gl.commands@[n0 + 3] == q_model);
        }
        let u_use_texture = self.shader.uniform(gl, "u_use_texture", UnifomType::I32, locations.u_use_texture);
        let ghost q_use_texture = gl.commands@[n0 + 5];
        proof {
            assert(gl.commands@.subrange(0, n0) =~= old(gl).commands@);
            assert(gl.commands@[n0 + 0] == (GlCommand::UseProgram { program: self.shader.program }));
            assert(gl.commands@[n0 + 1] == q_space);
            assert(gl.commands@[n0 + 2] == (GlCommand::UseProgram { program: self.shader.program }));
            assert(gl.commands@[n0 + 3] == q_model);
            assert(gl.commands@[n0 + 4] == (GlCommand::UseProgram { program: self.shader.program }));
            assert(gl.commands@[n0 + 5] == q_use_texture);
        }
        let u_taint = self.shader.uniform(gl, "u_taint", UnifomType::Vec4, locations.u_taint);
        let ghost q_taint = gl.commands@[n0 + 7];
        proof {
            assert(gl.commands@.subrange(0, n0) =~= old(gl).commands@);
            assert(gl.commands@[n0 + 0] == (GlCommand::UseProgram { program: self.shader.program }));
            assert(gl.commands@[n0 + 1] == q_space);
            assert(gl.commands@[n0 + 2] == (GlCommand::UseProgram { program: self.shader.program }));
            assert(gl.commands@[n0 + 3] == q_model);
            assert(gl.commands@[n0 + 4] == (GlCommand::UseProgram { program: self.shader.program }));
            assert(gl.commands@[n0 + 5] == q_use_texture);
            assert(gl.commands@[n0 + 6] == (GlCommand::UseProgram { program: self.shader.program }));
            assert(gl.commands@[n0 + 7] == q_taint);
        }
        self.shader.use_(gl);
        proof {
            assert(gl.commands@.subrange(0, n0) =~= old(gl).commands@);
            assert(gl.commands@[n0 + 0] == (GlCommand::UseProgram { program: self.shader.program }));
            assert(gl.commands@[n0 + 1] == q_space);
            assert(gl.commands@[n0 + 2] == (GlCommand::UseProgram { program: self.shader.program }));
            assert(gl.commands@[n0 + 3] == q_model);
            assert(gl.commands@[n0 + 4] == (GlCommand::UseProgram { program: self.shader.program }));
            assert(gl.commands@[n0 + 5] == q_use_texture);
            assert(gl.commands@[n0 + 6] == (GlCommand::UseProgram { program: self.shader.program }));
            assert(gl.commands@[n0 + 7] == q_taint);
            assert(gl.commands@[n0 + 8] == (GlCommand::UseProgram { program: self.shader.program }));
        }
        u_space_matrix.update_value(gl, UniformValue::Matrix4x4(Mat4Desc::Ortho { width: window_width, height: window_height })).unwrap();
        proof {
            assert(gl.commands@.subrange(0, n0) =~= old(gl).commands@);
            assert(gl.commands@[n0 + 0] == (GlCommand::UseProgram { program: self.shader.program }));
            assert(gl.commands@[n0 + 1] == q_space);
            assert(gl.commands@[n0 + 2] == (GlCommand::UseProgram { program: self.shader.program }));
            assert(gl.commands@[n0 + 3] == q_model);
            assert(gl.commands@[n0 + 4] == (GlCommand::UseProgram { program: self.shader.program }));
            assert(gl.commands@[n0 + 5] == q_use_texture);
            assert(gl.commands@[n0 + 6] == (GlCommand::UseProgram { program: self.shader.program }));
            assert(gl.commands@[n0 + 7] == q_taint);
            assert(gl.commands@[n0 + 8] == (GlCommand::UseProgram { program: self.shader.program }));
            assert(gl.commands@[n0 + 9] == (GlCommand::UniformMatrix4 { location: locations.u_space_matrix, matrix: Mat4Desc::Ortho { width: window_width, height: window_height } }));
        }
        u_model.update_value(gl, UniformValue::Matrix4x4(Mat4Desc::Identity)).unwrap();
        proof {
            assert(gl.commands@.subrange(0, n0) =~= old(gl).commands@);
            assert(gl.commands@[n0 + 0] == (GlCommand::UseProgram { program: self.shader.program }));
            assert(gl.commands@[n0 + 1] == q_space);
            assert(gl.commands@[n0 + 2] == (GlCommand::UseProgram { program: self.shader.program }));
            assert(gl.commands@[n0 + 3] == q_model);
            assert(gl.commands@[n0 + 4] == (GlCommand::UseProgram { program: self.shader.program }));
            assert(gl.commands@[n0 + 5] == q_use_texture);
            assert(gl.commands@[n0 + 6] == (GlCommand::UseProgram { program: self.shader.program }));
            assert(gl.commands@[n0 + 7] == q_taint);
            assert(gl.commands@[n0 + 8] == (GlCommand::UseProgram { program: self.shader.program }));
            assert(gl.commands@[n0 + 9] == (GlCommand::UniformMatrix4 { location: locations.u_space_matrix, matrix: Mat4Desc::Ortho { width: window_width, height: window_height } }));
            assert(gl.commands@[n0 + 10] == (GlCommand::UniformMatrix4 { location: locations.u_model, matrix: Mat4Desc::Identity }));
        }
        u_use_texture.update_value(gl, UniformValue::I32(0)).unwrap();
        proof {
            assert(gl.commands@.subrange(0, n0) =~= old(gl).commands@);
            assert(gl.commands@[n0 + 0] == (GlCommand::UseProgram { program: self.shader.program }));
            assert(gl.commands@[n0 + 1] == q_space);
            assert(gl.commands@[n0 + 2] == (GlCommand::UseProgram { program: self.shader.program }));
            assert(gl.commands@[n0 + 3] == q_model);
            assert(gl.commands@[n0 + 4] == (GlCommand::UseProgram { program: self.shader.program }));
            assert(gl.commands@[n0 + 5] == q_use_texture);
            assert(gl.commands@[n0 + 6] == (GlCommand::UseProgram { program: self.shader.program }));
            assert(gl.commands@[n0 + 7] == q_taint);
            assert(gl.commands@[n0 + 8] == (GlCommand::UseProgram { program: self.shader.program }));
            assert(gl.commands@[n0 + 9] == (GlCommand::UniformMatrix4 { location: locations.u_space_matrix, matrix: Mat4Desc::Ortho { width: window_width, height: window_height } }));
            assert(gl.commands@[n0 + 10] == (GlCommand::UniformMatrix4 { location: locations.u_model, matrix: Mat4Desc::Identity }));
            assert(gl.commands@[n0 + 11] == (GlCommand::Uniform1i { location: locations.u_use_texture, value: 0 }));
        }
        u_taint.update_value(gl, UniformValue::Vec4(tint_vec4(taint))).unwrap();
        proof {
            assert(gl.commands@.subrange(0, n0) =~= old(gl).commands@);
            assert(gl.commands@[n0 + 0] == (GlCommand::UseProgram { program: self.shader.program }));
            assert(gl.commands@[n0 + 1] == q_space);
            assert(gl.commands@[n0 + 2] == (GlCommand::UseProgram { program: self.shader.program }));
            assert(gl.commands@[n0 + 3] == q_model);
            assert(gl.commands@[n0 + 4] == (GlCommand::UseProgram { program: self.shader.program }));
            assert(gl.commands@[n0 + 5] == q_use_texture);
            assert(gl.commands@[n0 + 6] == (GlCommand::UseProgram { program: self.shader.program }));
            assert(gl.commands@[n0 + 7] == q_taint);
            assert(gl.commands@[n0 + 8] == (GlCommand::UseProgram { program: self.shader.program }));
            assert(gl.commands@[n0 + 9] == (GlCommand::UniformMatrix4 { location: locations.u_space_matrix, matrix: Mat4Desc::Ortho { width: window_width, height: window_height } }));
            assert(gl.commands@[n0 + 10] == (GlCommand::UniformMatrix4 { location: locations.u_model, matrix: Mat4Desc::Identity }));
            assert(gl.commands@[n0 + 11] == (GlCommand::Uniform1i { location: locations.u_use_texture, value: 0 }));
            assert(gl.commands@[n0 + 12] == (GlCommand::Uniform4 { location: locations.u_taint, value: tint_vec4_spec(taint) }));
        }
        gl.emit(GlCommand::EnableBlend);
        proof {
            assert(gl.commands@.subrange(0, n0) =~= old(gl).commands@);
            assert(gl.commands@[n0 + 0] == (GlCommand::UseProgram { program: self.shader.program }));
            assert(gl.commands@[n0 + 1] == q_space);
            assert(gl.commands@[n0 + 2] == (GlCommand::UseProgram { program: self.shader.program }));
            assert(gl.commands@[n0 + 3] == q_model);
            assert(gl.commands@[n0 + 4] == (GlCommand::UseProgram { program: self.shader.program }));
            assert(gl.commands@[n0 + 5] == q_use_texture);
            assert(gl.commands@[n0 + 6] == (GlCommand::UseProgram { program: self.shader.program }));
            assert(gl.commands@[n0 + 7] == q_taint);
            assert(gl.commands@[n0 + 8] == (GlCommand::UseProgram { program: self.shader.program }));
            assert(gl.commands@[n0 + 9] == (GlCommand::UniformMatrix4 { location: locations.u_space_matrix, matrix: Mat4Desc::Ortho { width: window_width, height: window_height } }));
            assert(gl.commands@[n0 + 10] == (GlCommand::UniformMatrix4 { location: locations.u_model, matrix: Mat4Desc::Identity }));
            assert(gl.commands@[n0 + 11] == (GlCommand::Uniform1i { location: locations.u_use_texture, value: 0 }));
            assert(gl.commands@[n0 + 12] == (GlCommand::Uniform4 { location: locations.u_taint, value: tint_vec4_spec(taint) }));
            assert(gl.commands@[n0 + 13] == (GlCommand::EnableBlend));
        }
        gl.emit(GlCommand::BlendFuncAlpha);
        proof {
            assert(gl.commands@.subrange(0, n0) =~= old(gl).commands@);
            assert(gl.commands@[n0 + 0] == (GlCommand::UseProgram { program: self.shader.program }));
            assert(gl.commands@[n0 + 1] == q_space);
            assert(gl.commands@[n0 + 2] == (GlCommand::UseProgram { program: self.shader.program }));
            assert(gl.commands@[n0 + 3] == q_model);
            assert(gl.commands@[n0 + 4] == (GlCommand::UseProgram { program: self.shader.program }));
            assert(gl.commands@[n0 + 5] == q_use_texture);
            assert(gl.commands@[n0 + 6] == (GlCommand::UseProgram { program: self.shader.program }));
            assert(gl.commands@[n0 + 7] == q_taint);
            assert(gl.commands@[n0 + 8] == (GlCommand::UseProgram { program: self.shader.program }));
            assert(gl.commands@[n0 + 9] == (GlCommand::UniformMatrix4 { location: locations.u_space_matrix, matrix: Mat4Desc::Ortho { width: window_width, height: window_height } }));
            assert(gl.commands@[n0 + 10] == (GlCommand::UniformMatrix4 { location: locations.u_model, matrix: Mat4Desc::Identity }));
            assert(gl.commands@[n0 + 11] == (GlCommand::Uniform1i { location: locations.u_use_texture, value: 0 }));
            assert(gl.commands@[n0 + 12] == (GlCommand::Uniform4 { location: locations.u_taint, value: tint_vec4_spec(taint) }));
            assert(gl.commands@[n0 + 13] == (GlCommand::EnableBlend));
            assert(gl.commands@[n0 + 14] == (GlCommand::BlendFuncAlpha));
        }
        let x0 = Scalar::whole(min.x);
        let x1 = Scalar::whole(max.x);
        let y0 = Scalar::whole(min.y);
        let y1 = Scalar::whole(max.y);
        let s0 = Scalar::whole(0);
        let s1 = Scalar::whole(1);
        let t0 = Scalar::whole(0);
        let t1 = Scalar::whole(1);

        let quads = quad_vertices(x0, x1, y0, y1, s0, s1, t0, t1);
        self.vbo.update(gl, &quads);
        let ghost q_data = gl.commands@[n0 + 16];
        proof {
            assert(gl.commands@.subrange(0, n0) =~= old(gl).commands@);
            assert(gl.commands@[n0 + 0] == (GlCommand::UseProgram { program: self.shader.program }));
            assert(gl.commands@[n0 + 1] == q_space);
            assert(gl.commands@[n0 + 2] == (GlCommand::UseProgram { program: self.shader.program }));
            assert(gl.commands@[n0 + 3] == q_model);
            assert(gl.commands@[n0 + 4] == (GlCommand::UseProgram { program: self.shader.program }));
            assert(gl.commands@[n0 + 5] == q_use_texture);
            assert(gl.commands@[n0 + 6] == (GlCommand::UseProgram { program: self.shader.program }));
            assert(gl.commands@[n0 + 7] == q_taint);
            assert(gl.commands@[n0 + 8] == (GlCommand::UseProgram { program: self.shader.program }));
            assert(gl.commands@[n0 + 9] == (GlCommand::UniformMatrix4 { location: locations.u_space_matrix, matrix: Mat4Desc::Ortho { width: window_width, height: window_height } }));
            assert(gl.commands@[n0 + 10] == (GlCommand::UniformMatrix4 { location: locations.u_model, matrix: Mat4Desc::Identity }));
            assert(gl.commands@[n0 + 11] == (GlCommand::Uniform1i { location: locations.u_use_texture, value: 0 }));
            assert(gl.commands@[n0 + 12] == (GlCommand::Uniform4 { location: locations.u_taint, value: tint_vec4_spec(taint) }));
            assert(gl.commands@[n0 + 13] == (GlCommand::EnableBlend));
            assert(gl.commands@[n0 + 14] == (GlCommand::BlendFuncAlpha));
            assert(gl.commands@[n0 + 15] == (GlCommand::BindBuffer { buffer: self.vbo.handle }));
            assert(gl.commands@[n0 + 16] == q_data);
            assert(gl.commands@[n0 + 17] == (GlCommand::BindBuffer { buffer: 0 }));
        }
        self.vao.draw_triangles(gl);
        proof {
            assert(gl.commands@.subrange(0, n0) =~= old(gl).commands@);
            assert(gl.commands@[n0 + 0] == (GlCommand::UseProgram { program: self.shader.program }));
            assert(gl.commands@[n0 + 1] == q_space);
            assert(gl.commands@[n0 + 2] == (GlCommand::UseProgram { program: self.shader.program }));
            assert(gl.commands@[n0 + 3] == q_model);
            assert(gl.commands@[n0 + 4] == (GlCommand::UseProgram { program: self.shader.program }));
            assert(gl.commands@[n0 + 5] == q_use_texture);
            assert(gl.commands@[n0 + 6] == (GlCommand::UseProgram { program: self.shader.program }));
            assert(gl.commands@[n0 + 7] == q_taint);
            assert(gl.commands@[n0 + 8] == (GlCommand::UseProgram { program: self.shader.program }));
            assert(gl.commands@[n0 + 9] == (GlCommand::UniformMatrix4 { location: locations.u_space_matrix, matrix: Mat4Desc::Ortho { width: window_width, height: window_height } }));
            assert(gl.commands@[n0 + 10] == (GlCommand::UniformMatrix4 { location: locations.u_model, matrix: Mat4Desc::Identity }));
            assert(gl.commands@[n0 + 11] == (GlCommand::Uniform1i { location: locations.u_use_texture, value: 0 }));
            assert(gl.commands@[n0 + 12] == (GlCommand::Uniform4 { location: locations.u_taint, value: tint_vec4_spec(taint) }));
            assert(gl.commands@[n0 + 13] == (GlCommand::EnableBlend));
            assert(gl.commands@[n0 + 14] == (GlCommand::BlendFuncAlpha));
            assert(gl.commands@[n0 + 15] == (GlCommand::BindBuffer { buffer: self.vbo.handle }));
            assert(gl.commands@[n0 + 16] == q_data);
            assert(gl.commands@[n0 + 17] == (GlCommand::BindBuffer { buffer: 0 }));
            assert(gl.commands@[n0 + 18] == (GlCommand::BindVertexArray { array: self.vao.handle }));
            assert(gl.commands@[n0 + 19] == (GlCommand::DrawTriangles { first: 0, count: 6 }));
            assert(gl.commands@[n0 + 20] == (GlCommand::BindVertexArray { array: 0 }));
        }
        gl.emit(GlCommand::BindVertexArray { array: 0 });
        proof {
            assert(gl.commands@.subrange(0, n0) =~= old(gl).commands@);
            assert(gl.commands@[n0 + 0] == (GlCommand::UseProgram { program: self.shader.program }));
            assert(gl.commands@[n0 + 1] == q_space);
            assert(gl.commands@[n0 + 2] == (GlCommand::UseProgram { program: self.shader.program }));
            assert(gl.commands@[n0 + 3] == q_model);
            assert(gl.commands@[n0 + 4] == (GlCommand::UseProgram { program: self.shader.program }));
            assert(gl.commands@[n0 + 5] == q_use_texture);
            assert(gl.commands@[n0 + 6] == (GlCommand::UseProgram { program: self.shader.program }));
            assert(gl.commands@[n0 + 7] == q_taint);
            assert(gl.commands@[n0 + 8] == (GlCommand::UseProgram { program: self.shader.program }));
            assert(gl.commands@[n0 + 9] == (GlCommand::UniformMatrix4 { location: locations.u_space_matrix, matrix: Mat4Desc::Ortho { width: window_width, height: window_height } }));
            assert(gl.commands@[n0 + 10] == (GlCommand::UniformMatrix4 { location: locations.u_model, matrix: Mat4Desc::Identity }));
            assert(gl.commands@[n0 + 11] == (GlCommand::Uniform1i { location: locations.u_use_texture, value: 0 }));
            assert(gl.commands@[n0 + 12] == (GlCommand::Uniform4 { location: locations.u_taint, value: tint_vec4_spec(taint) }));
            assert(gl.commands@[n0 + 13] == (GlCommand::EnableBlend));
            assert(gl.commands@[n0 + 14] == (GlCommand::BlendFuncAlpha));
            assert(gl.commands@[n0 + 15] == (GlCommand::BindBuffer { buffer: self.vbo.handle }));
            assert(gl.commands@[n0 + 16] == q_data);
            assert(gl.commands@[n0 + 17] == (GlCommand::BindBuffer { buffer: 0 }));
            assert(gl.commands@[n0 + 18] == (GlCommand::BindVertexArray { array: self.vao.handle }));
            assert(gl.commands@[n0 + 19] == (GlCommand::DrawTriangles { first: 0, count: 6 }));
            assert(gl.commands@[n0 + 20] == (GlCommand::BindVertexArray { array: 0 }));
            assert(gl.commands@[n0 + 21] == (GlCommand::BindVertexArray { array: 0 }));
        }
        gl.emit(GlCommand::DisableBlend);
        proof {
            assert(gl.commands@.subrange(0, n0) =~= old(gl).commands@);
            assert(gl.commands@[n0 + 0] == (GlCommand::UseProgram { program: self.shader.program }));
            assert(gl.commands@[n0 + 1] == q_space);
            assert(gl.commands@[n0 + 2] == (GlCommand::UseProgram { program: self.shader.program }));
            assert(gl.commands@[n0 + 3] == q_model);
            assert(gl.commands@[n0 + 4] == (GlCommand::UseProgram { program: self.shader.program }));
            assert(gl.commands@[n0 + 5] == q_use_texture);
            assert(gl.commands@[n0 + 6] == (GlCommand::UseProgram { program: self.shader.program }));
            assert(gl.commands@[n0 + 7] == q_taint);
            assert(gl.commands@[n0 + 8] == (GlCommand::UseProgram { program: self.shader.program }));
            assert(gl.commands@[n0 + 9] == (GlCommand::UniformMatrix4 { location: locations.u_space_matrix, matrix: Mat4Desc::Ortho { width: window_width, height: window_height } }));
            assert(gl.commands@[n0 + 10] == (GlCommand::UniformMatrix4 { location: locations.u_model, matrix: Mat4Desc::Identity }));
            assert(gl.commands@[n0 + 11] == (GlCommand::Uniform1i { location: locations.u_use_texture, value: 0 }));
            assert(gl.commands@[n0 + 12] == (GlCommand::Uniform4 { location: locations.u_taint, value: tint_vec4_spec(taint) }));
            assert(gl.commands@[n0 + 13] == (GlCommand::EnableBlend));
            assert(gl.commands@[n0 + 14] == (GlCommand::BlendFuncAlpha));
            assert(gl.commands@[n0 + 15] == (GlCommand::BindBuffer { buffer: self.vbo.handle }));
            assert(gl.commands@[n0 + 16] == q_data);
            assert(gl.commands@[n0 + 17] == (GlCommand::BindBuffer { buffer: 0 }));
            assert(gl.commands@[n0 + 18] == (GlCommand::BindVertexArray { array: self.vao.handle }));
            assert(gl.commands@[n0 + 19] == (GlCommand::DrawTriangles { first: 0, count: 6 }));
            assert(gl.commands@[n0 + 20] == (GlCommand::BindVertexArray { array: 0 }));
            assert(gl.commands@[n0 + 21] == (GlCommand::BindVertexArray { array: 0 }));
            assert(gl.commands@[n0 + 22] == (GlCommand::DisableBlend));
        }
        proof {
            let s = gl.commands@.subrange(n0, n0 + 23);
            assert(s.subrange(0, 2) =~= gl.commands@.subrange(n0, n0 + 2));
            assert(s.subrange(2, 4) =~= gl.commands@.subrange(n0 + 2, n0 + 4));
            assert(s.subrange(4, 6) =~= gl.commands@.subrange(n0 + 4, n0 + 6));
            assert(s.subrange(6, 8) =~= gl.commands@.subrange(n0 + 6, n0 + 8));
            assert(quads@ == rect_quad_seq(min, max));
            assert(q_data matches GlCommand::BufferDataDynamic { data } && data@ == rect_quad_seq(
                min,
                max,
            ));
        }
    }
}

} // verus!
