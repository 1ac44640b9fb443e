//! Shader compilation, uniform typing, textures, buffers and arrays.

use gg_engine::{
    stage_define, CompileStage, CompileState, Gl, GlCommand, Mat4Desc, Scalar, Shader, ShaderStage, TexFormat,
    TexParamName, TexParamValue, Texture, TextureError, UnifomType, Uniform, UniformError,
    UniformValue, Vao, Vbo, VertexFormat, GLSL_VERSION, SHADER_FRAGMENT_DEF, SHADER_VERTEX_DEF,
};

fn compile_ok(gl: &mut Gl, src: &str) -> Shader {
    let mut session = Shader::init(gl, src);
    session.vertex_status(gl, true);
    session.fragment_status(gl, true);
    session.link_status(gl, true).unwrap()
}

#[test]
fn shader_preamble_constants() {
    assert_eq!(GLSL_VERSION, "#version 300 es\n");
    assert_eq!(SHADER_VERTEX_DEF, "#define VERTEX_SHADER\n");
    assert_eq!(SHADER_FRAGMENT_DEF, "#define FRAGMENT_SHADER\n");
}

#[test]
fn shader_compile_success_protocol() {
    let mut gl = Gl::new(32);
    let shader = compile_ok(&mut gl, "void main() {}");
    assert_eq!(shader.program, 1);
    let c = &gl.commands;
    assert_eq!(c[0], GlCommand::CreateProgram { program: 1 });
    assert_eq!(
        c[1],
        GlCommand::CreateShader {
            shader: 2,
            stage: ShaderStage::Vertex
        }
    );
    assert_eq!(
        c[2],
        GlCommand::CreateShader {
            shader: 3,
            stage: ShaderStage::Fragment
        }
    );
    assert_eq!(
        c[3],
        GlCommand::ShaderSource {
            shader: 2,
            stage: ShaderStage::Vertex,
            source: String::from("void main() {}")
        }
    );
    assert_eq!(c[5], GlCommand::CompileShader { shader: 2 });
    assert_eq!(c[6], GlCommand::GetShaderCompileStatus { shader: 2 });
    assert_eq!(c[7], GlCommand::CompileShader { shader: 3 });
    assert_eq!(c[8], GlCommand::GetShaderCompileStatus { shader: 3 });
    assert_eq!(
        c[9],
        GlCommand::AttachShader {
            program: 1,
            shader: 2
        }
    );
    assert_eq!(
        c[10],
        GlCommand::AttachShader {
            program: 1,
            shader: 3
        }
    );
    assert_eq!(c[11], GlCommand::LinkProgram { program: 1 });
    assert_eq!(c[12], GlCommand::GetProgramLinkStatus { program: 1 });
    // Once linked the shader objects are detached, then deleted.
    assert_eq!(
        c[13],
        GlCommand::DetachShader {
            program: 1,
            shader: 2
        }
    );
    assert_eq!(
        c[14],
        GlCommand::DetachShader {
            program: 1,
            shader: 3
        }
    );
    assert_eq!(c[15], GlCommand::DeleteShader { shader: 2 });
    assert_eq!(c[16], GlCommand::DeleteShader { shader: 3 });
    assert_eq!(c.len(), 17);
    // The program itself is never deleted on the success path.
    assert!(!c
        .iter()
        .any(|cmd| matches!(cmd, GlCommand::DeleteProgram { .. })));
}

#[test]
fn shader_compile_vertex_failure_frees_shaders() {
    let mut gl = Gl::new(32);
    let mut session = Shader::init(&mut gl, "bad");
    session.vertex_status(&mut gl, false);
    assert_eq!(
        session.state,
        CompileState::LogPending {
            stage: CompileStage::Vertex
        }
    );
    let tail = &gl.commands[7..];
    assert_eq!(
        tail[0],
        GlCommand::GetShaderInfoLog {
            shader: 2,
            max_len: 1024
        }
    );
    assert_eq!(tail[1], GlCommand::DeleteShader { shader: 2 });
    assert_eq!(tail[2], GlCommand::DeleteShader { shader: 3 });
    let err = session.provide_log(b"syntax error".to_vec());
    assert_eq!(err.stage, CompileStage::Vertex);
    assert_eq!(err.log, b"syntax error".to_vec());
    assert_eq!(session.state, CompileState::Done);
}

#[test]
fn shader_compile_link_failure_frees_everything() {
    let mut gl = Gl::new(32);
    let mut session = Shader::init(&mut gl, "src");
    session.vertex_status(&mut gl, true);
    session.fragment_status(&mut gl, true);
    let r = session.link_status(&mut gl, false);
    assert!(r.is_none());
    let tail = &gl.commands[13..];
    assert_eq!(
        tail[0],
        GlCommand::GetProgramInfoLog {
            program: 1,
            max_len: 1024
        }
    );
    assert_eq!(tail[1], GlCommand::DeleteProgram { program: 1 });
    assert_eq!(tail[2], GlCommand::DeleteShader { shader: 2 });
    assert_eq!(tail[3], GlCommand::DeleteShader { shader: 3 });
    let err = session.provide_log(vec![b'x'; 5000]);
    assert_eq!(err.stage, CompileStage::Link);
    // The diagnostic log is capped at 1024 bytes.
    assert_eq!(err.log.len(), 1024);
}

#[test]
fn uniform_update_issues_matching_call() {
    let mut gl = Gl::new(32);
    let u = Uniform {
        location: 7,
        u_type: UnifomType::I32,
    };
    u.update_value(&mut gl, UniformValue::I32(42)).unwrap();
    assert_eq!(
        gl.commands,
        vec![GlCommand::Uniform1i {
            location: 7,
            value: 42
        }]
    );
    let m = Uniform {
        location: 3,
        u_type: UnifomType::Matrix4x4,
    };
    m.update_value(&mut gl, UniformValue::Matrix4x4(Mat4Desc::Identity))
        .unwrap();
    assert_eq!(
        gl.commands[1],
        GlCommand::UniformMatrix4 {
            location: 3,
            matrix: Mat4Desc::Identity
        }
    );
}

#[test]
fn uniform_update_rejects_wrong_shape_without_gl_call() {
    let mut gl = Gl::new(32);
    let u = Uniform {
        location: 7,
        u_type: UnifomType::F32,
    };
    let r = u.update_value(&mut gl, UniformValue::I32(1));
    assert_eq!(r.unwrap_err(), UniformError::TypeMismatch);
    // The rejected update never reaches the command stream.
    assert!(gl.commands.is_empty());
    assert_eq!(
        UniformError::TypeMismatch.message(),
        "Trying to update a shader Uniform with wrong type."
    );
}

#[test]
fn uniform_update_rejects_unresolved_location() {
    let mut gl = Gl::new(32);
    let u = Uniform {
        location: -1,
        u_type: UnifomType::F32,
    };
    let r = u.update_value(&mut gl, UniformValue::F32Bits(1.5f32.to_bits()));
    assert_eq!(r.unwrap_err(), UniformError::Unresolved);
    assert!(gl.commands.is_empty());
    assert_eq!(
        UniformError::Unresolved.message(),
        "Was Unable to update value!"
    );
}

#[test]
fn shader_uniform_lookup_records_query() {
    let mut gl = Gl::new(32);
    let shader = compile_ok(&mut gl, "s");
    let before = gl.commands.len();
    let u = shader.uniform(&mut gl, "u_taint", UnifomType::Vec4, 5);
    assert_eq!(u.location, 5);
    assert_eq!(u.u_type, UnifomType::Vec4);
    assert_eq!(
        &gl.commands[before..],
        &[
            GlCommand::UseProgram { program: 1 },
            GlCommand::GetUniformLocation {
                program: 1,
                name: String::from("u_taint")
            }
        ]
    );
}

#[test]
fn texture_upload_records_parameters_per_channel_count() {
    for (channels, format, alignment) in [
        (1, TexFormat::Red, 1u32),
        (3, TexFormat::Rgb, 1),
        (4, TexFormat::Rgba, 4),
    ] {
        let mut gl = Gl::new(32);
        let pixels = vec![0u8; (4 * 4 * channels) as usize];
        let t = Texture::init(&mut gl, &pixels, 4, 4, channels).unwrap();
        assert_eq!(t.width, 4);
        assert_eq!(t.height, 4);
        assert_eq!(t.channels, channels);
        let c = &gl.commands;
        assert_eq!(c[0], GlCommand::GenTexture { texture: t.handle });
        assert_eq!(c[1], GlCommand::BindTexture { texture: t.handle });
        assert_eq!(
            c[2],
            GlCommand::TexParameter {
                pname: TexParamName::WrapS,
                value: TexParamValue::ClampToEdge
            }
        );
        assert_eq!(
            c[5],
            GlCommand::TexParameter {
                pname: TexParamName::MagFilter,
                value: TexParamValue::Nearest
            }
        );
        assert_eq!(c[6], GlCommand::PixelStoreUnpackAlignment { alignment });
        assert_eq!(
            c[7],
            GlCommand::TexImage2d {
                format,
                width: 4,
                height: 4,
                pixels: pixels.clone()
            }
        );
        assert_eq!(c[8], GlCommand::BindTexture { texture: 0 });
        assert_eq!(c.len(), 9);
    }
}

#[test]
fn texture_upload_rejects_bad_input() {
    let mut gl = Gl::new(32);
    assert_eq!(
        Texture::init(&mut gl, &Vec::new(), 4, 4, 4).unwrap_err(),
        TextureError::NullPixels
    );
    assert_eq!(
        Texture::init(&mut gl, &vec![0u8; 32], 4, 4, 2).unwrap_err(),
        TextureError::UnsupportedChannels
    );
    assert_eq!(
        Texture::init(&mut gl, &vec![0u8; 32], 4, 4, 0).unwrap_err(),
        TextureError::UnsupportedChannels
    );
    // A failed upload records nothing.
    assert!(gl.commands.is_empty());
    assert_eq!(
        TextureError::NullPixels.message(),
        "Passing Null to Texture"
    );
    assert_eq!(
        TextureError::UnsupportedChannels.message(),
        "Passing image with unsupported number of channels."
    );
}

#[test]
fn texture_bind_and_delete() {
    let mut gl = Gl::new(32);
    let t = Texture::init(&mut gl, &vec![0u8; 4], 1, 1, 4).unwrap();
    let before = gl.commands.len();
    t.bind(&mut gl, 2);
    assert_eq!(
        &gl.commands[before..],
        &[
            GlCommand::ActiveTexture { unit: 2 },
            GlCommand::BindTexture { texture: t.handle }
        ]
    );
    let handle = t.handle;
    t.delete(&mut gl);
    assert_eq!(
        gl.commands.last().unwrap(),
        &GlCommand::DeleteTexture { texture: handle }
    );
}

#[test]
fn static_buffer_vertex_count_is_len_over_8() {
    let mut gl = Gl::new(32);
    let data: Vec<u32> = (0..16).map(|i| (i as f32).to_bits()).collect();
    let vbo = Vbo::init_f32_3_2_3(&mut gl, &data);
    assert_eq!(vbo.vertices_count, 2);
    assert!(matches!(vbo.vertex_format, VertexFormat::StaticF32_3_2_3));
    let c = &gl.commands;
    assert_eq!(c[0], GlCommand::GenBuffer { buffer: vbo.handle });
    assert_eq!(c[1], GlCommand::BindBuffer { buffer: vbo.handle });
    assert_eq!(c[2], GlCommand::BufferDataStatic { data });
    assert_eq!(c[3], GlCommand::BindBuffer { buffer: 0 });
}

#[test]
fn dynamic_quad_buffer_reserves_24_floats() {
    let mut gl = Gl::new(32);
    let vbo = Vbo::init_f32_2_2(&mut gl);
    assert_eq!(vbo.vertices_count, 6);
    assert!(matches!(vbo.vertex_format, VertexFormat::DynamicF32_2_2));
    assert_eq!(
        gl.commands[2],
        GlCommand::BufferDataReserveDynamic { floats: 24 }
    );
}

#[test]
fn dynamic_quad_update_replaces_whole_contents() {
    let mut gl = Gl::new(32);
    let vbo = Vbo::init_f32_2_2(&mut gl);
    let quad: Vec<Scalar> = (0..24).map(Scalar::whole).collect();
    let before = gl.commands.len();
    vbo.update(&mut gl, &quad);
    assert_eq!(
        &gl.commands[before..],
        &[
            GlCommand::BindBuffer { buffer: vbo.handle },
            GlCommand::BufferDataDynamic { data: quad },
            GlCommand::BindBuffer { buffer: 0 }
        ]
    );
}

#[test]
fn vao_bind_accumulates_vertex_counts() {
    let mut gl = Gl::new(32);
    let mut vao = Vao::init(&mut gl);
    assert_eq!(vao.vertices_count, 0);
    let data: Vec<u32> = vec![0; 16];
    let stat = Vbo::init_f32_3_2_3(&mut gl, &data);
    let dynq = Vbo::init_f32_2_2(&mut gl);
    vao.bind_vbo(&mut gl, &stat);
    // The bound buffer's vertex count is added to the running total.
    assert_eq!(vao.vertices_count, 2);
    vao.bind_vbo(&mut gl, &dynq);
    // Binding a second buffer accumulates both.
    assert_eq!(vao.vertices_count, 8);
}

#[test]
fn vao_attribute_layouts_per_format() {
    let mut gl = Gl::new(32);
    let mut vao = Vao::init(&mut gl);
    let data: Vec<u32> = vec![0; 8];
    let stat = Vbo::init_f32_3_2_3(&mut gl, &data);
    let before = gl.commands.len();
    vao.bind_vbo(&mut gl, &stat);
    assert_eq!(
        &gl.commands[before..],
        &[
            GlCommand::BindVertexArray { array: vao.handle },
            GlCommand::BindBuffer {
                buffer: stat.handle
            },
            GlCommand::VertexAttribPointer {
                index: 0,
                size: 3,
                stride_bytes: 32,
                offset_bytes: 0
            },
            GlCommand::EnableVertexAttribArray { index: 0 },
            GlCommand::VertexAttribPointer {
                index: 1,
                size: 2,
                stride_bytes: 32,
                offset_bytes: 12
            },
            GlCommand::EnableVertexAttribArray { index: 1 },
            GlCommand::VertexAttribPointer {
                index: 2,
                size: 3,
                stride_bytes: 32,
                offset_bytes: 20
            },
            GlCommand::EnableVertexAttribArray { index: 2 },
            GlCommand::BindVertexArray { array: 0 },
        ]
    );
    let dynq = Vbo::init_f32_2_2(&mut gl);
    let before = gl.commands.len();
    vao.bind_vbo(&mut gl, &dynq);
    assert_eq!(
        &gl.commands[before..],
        &[
            GlCommand::BindVertexArray { array: vao.handle },
            GlCommand::BindBuffer {
                buffer: dynq.handle
            },
            GlCommand::VertexAttribPointer {
                index: 0,
                size: 4,
                stride_bytes: 16,
                offset_bytes: 0
            },
            GlCommand::EnableVertexAttribArray { index: 0 },
            GlCommand::BindVertexArray { array: 0 },
        ]
    );
}

#[test]
fn vao_draw_covers_accumulated_range() {
    let mut gl = Gl::new(32);
    let mut vao = Vao::init(&mut gl);
    let dynq = Vbo::init_f32_2_2(&mut gl);
    vao.bind_vbo(&mut gl, &dynq);
    let before = gl.commands.len();
    vao.draw_triangles(&mut gl);
    assert_eq!(
        &gl.commands[before..],
        &[
            GlCommand::BindVertexArray { array: vao.handle },
            GlCommand::DrawTriangles { first: 0, count: 6 },
            GlCommand::BindVertexArray { array: 0 },
        ]
    );
}

#[test]
fn shader_compile_fragment_failure_frees_shaders() {
    let mut gl = Gl::new(32);
    let mut session = Shader::init(&mut gl, "src");
    session.vertex_status(&mut gl, true);
    session.fragment_status(&mut gl, false);
    let tail = &gl.commands[9..];
    assert_eq!(
        tail[0],
        GlCommand::GetShaderInfoLog {
            shader: 3,
            max_len: 1024
        }
    );
    assert_eq!(tail[1], GlCommand::DeleteShader { shader: 2 });
    assert_eq!(tail[2], GlCommand::DeleteShader { shader: 3 });
    // The linker is never reached after a failed stage.
    assert!(!gl
        .commands
        .iter()
        .any(|c| matches!(c, GlCommand::LinkProgram { .. })));
    let err = session.provide_log(Vec::new());
    assert_eq!(err.stage, CompileStage::Fragment);
    assert!(err.log.is_empty());
}

#[test]
fn resources_release_their_handles_once() {
    let mut gl = Gl::new(32);
    let shader = {
        let mut session = Shader::init(&mut gl, "s");
        session.vertex_status(&mut gl, true);
        session.fragment_status(&mut gl, true);
        session.link_status(&mut gl, true).unwrap()
    };
    let program = shader.program;
    shader.delete(&mut gl);
    assert_eq!(
        gl.commands.last().unwrap(),
        &GlCommand::DeleteProgram { program }
    );
    let vbo = Vbo::init_f32_2_2(&mut gl);
    let buffer = vbo.handle;
    vbo.delete(&mut gl);
    assert_eq!(
        gl.commands.last().unwrap(),
        &GlCommand::DeleteBuffer { buffer }
    );
    let vao = Vao::init(&mut gl);
    let array = vao.handle;
    vao.delete(&mut gl);
    assert_eq!(
        gl.commands.last().unwrap(),
        &GlCommand::DeleteVertexArray { array }
    );
}

#[test]
fn stage_defines_select_the_compilation_unit() {
    assert_eq!(stage_define(ShaderStage::Vertex), "#define VERTEX_SHADER\n");
    assert_eq!(
        stage_define(ShaderStage::Fragment),
        "#define FRAGMENT_SHADER\n"
    );
}
