//! A thin, verified object layer over an OpenGL ES 3 style rendering API.
//!
//! The library owns the logic of the rendering pipeline: shader
//! compilation and linking, typed uniform binding, vertex-buffer and
//! vertex-array management across the two vertex layouts, and the
//! per-frame draw protocol for sprites and text.  It never talks to a
//! GPU itself.  Instead every operation records the exact sequence of
//! GL calls to issue into a [`gl::Gl`] recorder, and the contracts pin
//! that sequence down.  A host layer executes the recorded commands
//! against a real driver and feeds driver responses (compile status,
//! uniform locations, window size) back in as plain values.
//!
//! Floating-point payloads never enter the library: exact values are
//! carried as integer rationals ([`gl::Scalar`]), and opaque ones as
//! IEEE-754 bit patterns (`u32`).

pub mod color;
pub mod geometry;
pub mod gl;
pub mod hash;
pub mod image;
pub mod input;
pub mod obj;
pub mod shader;
pub mod sprite;
pub mod text;
pub mod texture;

pub use color::{rgba, tint_vec4, Color, Rgba};
pub use geometry::{Vao, Vbo, VertexFormat, DYNAMIC_QUAD_FLOATS};
pub use gl::{
    gl_error_description, Gl, GlCommand, GlErrorKind, Mat4Desc, Scalar, ShaderStage, TexFormat,
    TexParamName, TexParamValue, Vec2i, Vec3S, Vec4S,
};
pub use hash::one_at_a_time_hash;
pub use image::{Image, ImageError};
pub use input::{
    keyboard_key_clicked, keyboard_key_hold, keyboard_key_released, Channels, KeyboardState,
};
pub use obj::{Obj, ObjError};
pub use shader::{
    stage_define, CompileError, CompileStage, CompileState, Shader, ShaderCompile, UnifomType,
    Uniform, UniformError, UniformValue, GLSL_VERSION, SHADER_FRAGMENT_DEF, SHADER_LOG_CAP,
    SHADER_VERTEX_DEF,
};
pub use sprite::{SpriteLocations, SpriteRenderer, SpriteSheet, SPRITE_SHADER_SRC};
pub use text::{
    FontError, Glyph, GlyphQuad, TextLocations, TextRenderer, TrueTypeFont, TEXT_SHADER_SRC,
};
pub use texture::{Texture, TextureError};
