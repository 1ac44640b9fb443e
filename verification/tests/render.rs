//! Sprite and text renderer end-to-end protocols.

use gg_engine::{
    Gl, GlCommand, TextureError, Glyph, Mat4Desc, Scalar, Shader, SpriteLocations, SpriteRenderer, SpriteSheet,
    TextLocations, TextRenderer, TrueTypeFont, UnifomType, Vec2i, SPRITE_SHADER_SRC,
    TEXT_SHADER_SRC,
};

fn compile_ok(gl: &mut Gl, src: &str) -> Shader {
    let mut session = Shader::init(gl, src);
    session.vertex_status(gl, true);
    session.fragment_status(gl, true);
    session.link_status(gl, true).unwrap()
}

fn draw_calls(commands: &[GlCommand]) -> Vec<&GlCommand> {
    commands
        .iter()
        .filter(|c| matches!(c, GlCommand::DrawTriangles { .. }))
        .collect()
}

fn dynamic_uploads(commands: &[GlCommand]) -> Vec<&Vec<Scalar>> {
    commands
        .iter()
        .filter_map(|c| match c {
            GlCommand::BufferDataDynamic { data } => Some(data),
            _ => None,
        })
        .collect()
}

#[test]
fn sprite_draw_computes_uv_rect_and_one_draw_call() {
    let mut gl = Gl::new(32);
    let shader = compile_ok(&mut gl, SPRITE_SHADER_SRC);
    let renderer = SpriteRenderer::init(&mut gl, shader);
    // A 64x64 sheet with 16-pixel cells.
    let pixels = vec![255u8; 64 * 64 * 4];
    let sheet = SpriteSheet::init(&mut gl, &pixels, 64, 64, 4, 16).unwrap();
    let locations = SpriteLocations {
        u_space_matrix: 0,
        u_model: 1,
        u_tex0: 2,
        u_use_texture: 3,
        u_taint: 4,
    };
    let before = gl.commands.len();
    renderer.draw(
        &mut gl,
        &sheet,
        1,
        0,
        Vec2i { x: 10, y: 10 },
        0.0f32.to_bits(),
        0xFFFFFFFF,
        800,
        600,
        locations,
    );
    let issued = &gl.commands[before..];
    assert_eq!(issued.len(), 28);

    // Exactly one draw call, of six vertices.
    let draws = draw_calls(issued);
    assert_eq!(draws.len(), 1);
    assert_eq!(*draws[0], GlCommand::DrawTriangles { first: 0, count: 6 });

    // The quad upload carries the cell's texture rectangle
    // [16/64, 32/64] x [0/64, 16/64] = [0.25, 0.5] x [0.0, 0.25].
    let uploads = dynamic_uploads(issued);
    assert_eq!(uploads.len(), 1);
    let quad = uploads[0];
    assert_eq!(quad.len(), 24);
    // Vertex 0 is (x1, y1, s1, t1); vertex 4 is (x0, y0, s0, t0).
    assert_eq!(quad[2], Scalar { num: 32, den: 64 });
    assert_eq!(quad[3], Scalar { num: 16, den: 64 });
    assert_eq!(quad[18], Scalar { num: 16, den: 64 });
    assert_eq!(quad[19], Scalar { num: 0, den: 64 });
    let s0 = quad[18].num as f32 / quad[18].den as f32;
    let s1 = quad[2].num as f32 / quad[2].den as f32;
    let t0 = quad[19].num as f32 / quad[19].den as f32;
    let t1 = quad[3].num as f32 / quad[3].den as f32;
    assert_eq!((s0, s1, t0, t1), (0.25, 0.5, 0.0, 0.25));
    assert!(s0 <= 1.0 && s1 <= 1.0 && t0 <= 1.0 && t1 <= 1.0);
    // The quad itself is the unit square centered at the origin.
    assert_eq!(quad[16], Scalar { num: -1, den: 2 });
    assert_eq!(quad[17], Scalar { num: -1, den: 2 });

    // The model matrix carries cell size, position and rotation.
    assert!(issued.iter().any(|c| matches!(
        c,
        GlCommand::UniformMatrix4 {
            matrix: Mat4Desc::SpriteModel {
                cell_size: 16,
                pos_x: 10,
                pos_y: 10,
                ..
            },
            ..
        }
    )));
    // The protocol ends by unbinding and disabling blending.
    assert_eq!(issued[27], GlCommand::DisableBlend);
    assert_eq!(issued[26], GlCommand::BindVertexArray { array: 0 });
}

#[test]
fn sprite_draw_projection_follows_window() {
    let mut gl = Gl::new(32);
    let shader = compile_ok(&mut gl, SPRITE_SHADER_SRC);
    let renderer = SpriteRenderer::init(&mut gl, shader);
    let pixels = vec![255u8; 8 * 8 * 4];
    let sheet = SpriteSheet::init(&mut gl, &pixels, 8, 8, 4, 8).unwrap();
    let locations = SpriteLocations {
        u_space_matrix: 0,
        u_model: 1,
        u_tex0: 2,
        u_use_texture: 3,
        u_taint: 4,
    };
    let before = gl.commands.len();
    renderer.draw(
        &mut gl,
        &sheet,
        0,
        0,
        Vec2i { x: 0, y: 0 },
        0,
        0xFF0000FF,
        1600,
        900,
        locations,
    );
    assert!(gl.commands[before..].iter().any(|c| *c
        == GlCommand::UniformMatrix4 {
            location: 0,
            matrix: Mat4Desc::Ortho {
                width: 1600,
                height: 900
            }
        }));
}

#[test]
fn blit_rect_draws_untextured_rectangle() {
    let mut gl = Gl::new(32);
    let shader = compile_ok(&mut gl, SPRITE_SHADER_SRC);
    let renderer = SpriteRenderer::init(&mut gl, shader);
    let locations = SpriteLocations {
        u_space_matrix: 0,
        u_model: 1,
        u_tex0: 2,
        u_use_texture: 3,
        u_taint: 4,
    };
    let before = gl.commands.len();
    renderer.blit_rect(
        &mut gl,
        Vec2i { x: 5, y: 6 },
        Vec2i { x: 25, y: 36 },
        0x00FF00FF,
        800,
        600,
        locations,
    );
    let issued = &gl.commands[before..];
    assert_eq!(issued.len(), 23);
    // Texturing is off and the model matrix is the identity.
    assert!(issued.iter().any(|c| *c
        == GlCommand::Uniform1i {
            location: 3,
            value: 0
        }));
    assert!(issued.iter().any(|c| *c
        == GlCommand::UniformMatrix4 {
            location: 1,
            matrix: Mat4Desc::Identity
        }));
    // No texture is bound.
    assert!(!issued
        .iter()
        .any(|c| matches!(c, GlCommand::BindTexture { .. })));
    // One six-vertex draw over the rectangle in screen space.
    let draws = draw_calls(issued);
    assert_eq!(draws.len(), 1);
    let quad = dynamic_uploads(issued)[0];
    // Vertex 4 is (x0, y0, s0, t0) = (min, full-range texture start).
    assert_eq!(quad[16], Scalar { num: 5, den: 1 });
    assert_eq!(quad[17], Scalar { num: 6, den: 1 });
    // Vertex 0 is (x1, y1, s1, t1) = (max, texture end).
    assert_eq!(quad[0], Scalar { num: 25, den: 1 });
    assert_eq!(quad[1], Scalar { num: 36, den: 1 });
    assert_eq!(quad[2], Scalar { num: 1, den: 1 });
}

fn two_glyph_font() -> TrueTypeFont {
    let glyph_a = Glyph {
        x_offset: 1,
        y_offset: -8,
        width: 7,
        height: 9,
        u0: 0,
        v0: 0,
        u1: 7,
        v1: 9,
        x_advance: 10,
    };
    let glyph_b = Glyph {
        x_offset: 2,
        y_offset: -7,
        width: 6,
        height: 8,
        u0: 8,
        v0: 0,
        u1: 14,
        v1: 8,
        x_advance: 12,
    };
    TrueTypeFont::init(vec![0u8; 32 * 32], 32, 32, 1, 16, b'A', vec![glyph_a, glyph_b]).unwrap()
}

#[test]
fn font_atlas_queries() {
    let font = two_glyph_font();
    let (pixels, w, h, c) = font.get_image();
    assert_eq!((pixels.len(), w, h, c), (1024, 32, 32, 1));
    // A known glyph: quad at the cursor plus offsets, advance applied.
    let (q, nx, ny) = font.get_quad_and_next_position('A', 100, 50);
    assert_eq!((q.x0, q.y0, q.x1, q.y1), (101, 42, 108, 51));
    assert_eq!(q.s0, Scalar { num: 0, den: 32 });
    assert_eq!(q.s1, Scalar { num: 7, den: 32 });
    assert_eq!(q.t0, Scalar { num: 0, den: 32 });
    assert_eq!(q.t1, Scalar { num: 9, den: 32 });
    assert_eq!((nx, ny), (110, 50));
    // A character the atlas does not bake: degenerate quad, no advance.
    let (q, nx, ny) = font.get_quad_and_next_position('z', 100, 50);
    assert_eq!((q.x0, q.y0, q.x1, q.y1), (100, 50, 100, 50));
    assert_eq!((nx, ny), (100, 50));
}

#[test]
fn font_atlas_rejects_bad_metrics() {
    let r = TrueTypeFont::init(vec![0u8; 16], 4, 4, 2, 16, b'A', Vec::new());
    assert!(r.is_err());
    let r = TrueTypeFont::init(vec![0u8; 15], 4, 4, 1, 16, b'A', Vec::new());
    assert!(r.is_err());
    let bad_glyph = Glyph {
        x_offset: 0,
        y_offset: 0,
        width: -1,
        height: 0,
        u0: 0,
        v0: 0,
        u1: 0,
        v1: 0,
        x_advance: 0,
    };
    let r = TrueTypeFont::init(vec![0u8; 16], 4, 4, 1, 16, b'A', vec![bad_glyph]);
    assert_eq!(r.unwrap_err().message(), "Invalid font atlas");
}

#[test]
fn text_draw_issues_one_call_per_character() {
    let mut gl = Gl::new(32);
    let shader = compile_ok(&mut gl, TEXT_SHADER_SRC);
    let font = two_glyph_font();
    let renderer = TextRenderer::init(&mut gl, font, shader);
    let locations = TextLocations {
        u_space_matrix: 0,
        u_tex0: 1,
        u_taint: 2,
    };
    let before = gl.commands.len();
    renderer.draw(
        &mut gl,
        "AB",
        Vec2i { x: 5, y: 7 },
        0xFFFFFFFF,
        800,
        600,
        locations,
    );
    let issued = &gl.commands[before..];
    assert_eq!(issued.len(), 14 + 2 * 6 + 2);
    // Exactly two draw calls: one per character.
    let draws = draw_calls(issued);
    assert_eq!(draws.len(), 2);
    for d in draws {
        assert_eq!(*d, GlCommand::DrawTriangles { first: 0, count: 6 });
    }
    // The baseline starts at pos.y + font_size / 2 = 7 + 8 = 15, and
    // the cursor moves right by 'A''s advance between the glyphs.
    let uploads = dynamic_uploads(issued);
    assert_eq!(uploads.len(), 2);
    // Vertex 4 of each quad is (x0, y0, ...): cursor plus offsets.
    assert_eq!(uploads[0][16], Scalar { num: 5 + 1, den: 1 });
    assert_eq!(uploads[0][17], Scalar { num: 15 - 8, den: 1 });
    assert_eq!(uploads[1][16], Scalar { num: 15 + 2, den: 1 });
    assert_eq!(uploads[1][17], Scalar { num: 15 - 7, den: 1 });
    // Cursor x positions are non-decreasing for non-negative advances.
    assert!(uploads[1][16].num >= uploads[0][16].num);
    // The glyphs' texture rectangles come from the atlas.
    assert_eq!(uploads[0][18], Scalar { num: 0, den: 32 });
    assert_eq!(uploads[1][18], Scalar { num: 8, den: 32 });
    // The protocol ends by unbinding and disabling blending.
    assert_eq!(issued[issued.len() - 1], GlCommand::DisableBlend);
    assert_eq!(
        issued[issued.len() - 2],
        GlCommand::BindVertexArray { array: 0 }
    );
}

#[test]
fn text_draw_of_empty_text_draws_nothing() {
    let mut gl = Gl::new(32);
    let shader = compile_ok(&mut gl, TEXT_SHADER_SRC);
    let font = two_glyph_font();
    let renderer = TextRenderer::init(&mut gl, font, shader);
    let locations = TextLocations {
        u_space_matrix: 0,
        u_tex0: 1,
        u_taint: 2,
    };
    let before = gl.commands.len();
    renderer.draw(
        &mut gl,
        "",
        Vec2i { x: 0, y: 0 },
        0xFFFFFFFF,
        800,
        600,
        locations,
    );
    let issued = &gl.commands[before..];
    assert_eq!(issued.len(), 16);
    assert!(draw_calls(issued).is_empty());
}

#[test]
fn text_renderer_init_uploads_atlas_texture() {
    let mut gl = Gl::new(32);
    let shader = compile_ok(&mut gl, TEXT_SHADER_SRC);
    let font = two_glyph_font();
    let before = gl.commands.len();
    let renderer = TextRenderer::init(&mut gl, font, shader);
    assert_eq!(renderer.font_size, 16);
    assert_eq!(renderer.texture.width, 32);
    assert_eq!(renderer.texture.channels, 1);
    let issued = &gl.commands[before..];
    assert_eq!(issued.len(), 19);
    // Single-channel atlas: one-byte unpack alignment.
    assert!(issued
        .iter()
        .any(|c| *c == GlCommand::PixelStoreUnpackAlignment { alignment: 1 }));
}

#[test]
fn sprite_renderer_init_wires_quad_buffer() {
    let mut gl = Gl::new(32);
    let shader = compile_ok(&mut gl, SPRITE_SHADER_SRC);
    let renderer = SpriteRenderer::init(&mut gl, shader);
    assert_eq!(renderer.vao.vertices_count, 6);
    assert_eq!(renderer.vbo.vertices_count, 6);
    let lookup = renderer
        .shader
        .uniform(&mut gl, "u_model", UnifomType::Matrix4x4, -1);
    assert_eq!(lookup.location, -1);
}

#[test]
fn sprite_sheet_propagates_texture_errors() {
    let mut gl = Gl::new(32);
    let r = SpriteSheet::init(&mut gl, &Vec::new(), 8, 8, 4, 4);
    assert_eq!(r.unwrap_err(), TextureError::NullPixels);
    let r = SpriteSheet::init(&mut gl, &vec![0u8; 128], 8, 8, 2, 4);
    assert_eq!(r.unwrap_err(), TextureError::UnsupportedChannels);
    // Nothing was recorded for the failed uploads.
    assert!(gl.commands.is_empty());
}

#[test]
fn sprite_sheet_records_metadata() {
    let mut gl = Gl::new(32);
    let sheet = SpriteSheet::init(&mut gl, &vec![0u8; 64 * 32 * 3], 64, 32, 3, 16).unwrap();
    assert_eq!(sheet.texture_width, 64);
    assert_eq!(sheet.texture_height, 32);
    assert_eq!(sheet.cell_size, 16);
    assert_eq!(sheet.texture.width, 64);
    assert_eq!(sheet.texture.height, 32);
    assert_eq!(sheet.texture.channels, 3);
}
