//! Color, hash, image, mesh, input and diagnostics behavior.

use gg_engine::{
    gl_error_description, keyboard_key_clicked, keyboard_key_hold, keyboard_key_released,
    one_at_a_time_hash, rgba, tint_vec4, Channels, GlErrorKind, Image, ImageError, KeyboardState,
    Obj, ObjError, Rgba, Scalar,
};

#[test]
fn rgba_splits_packed_word() {
    let c = rgba(0x11223344);
    assert_eq!(
        c,
        Rgba {
            r: 0x11,
            g: 0x22,
            b: 0x33,
            a: 0x44
        }
    );
}

#[test]
fn rgba_round_trip_channels_as_floats() {
    // 0xFF008000: r = 255, g = 0, b = 128, a = 0.
    let c = rgba(0xFF008000);
    assert_eq!((c.r, c.g, c.b, c.a), (255, 0, 128, 0));
    let v = tint_vec4(0xFF008000);
    let tol = 1.0f32 / 255.0f32;
    let r = v.x.num as f32 / v.x.den as f32;
    let g = v.y.num as f32 / v.y.den as f32;
    let b = v.z.num as f32 / v.z.den as f32;
    let a = v.w.num as f32 / v.w.den as f32;
    assert!((r - 1.0).abs() < tol);
    assert!((g - 0.0).abs() < tol);
    assert!((b - 0.502).abs() < tol);
    assert!((a - 0.0).abs() < tol);
}

#[test]
fn one_at_a_time_hash_known_values() {
    assert_eq!(one_at_a_time_hash(""), 0u32);
    assert_eq!(one_at_a_time_hash("a"), 0xca2e9442);
    assert_eq!(one_at_a_time_hash("key"), 0xe9806307);
    assert_eq!(
        one_at_a_time_hash("The quick brown fox jumps over the lazy dog"),
        0x519e91f5
    );
}

#[test]
fn one_at_a_time_hash_distinguishes_keys() {
    assert_ne!(one_at_a_time_hash("ab"), one_at_a_time_hash("ba"));
}

#[test]
fn image_init_accepts_matching_buffer() {
    let img = Image::init(vec![0u8; 12], 2, 2, 3).unwrap();
    assert_eq!(img.width, 2);
    assert_eq!(img.height, 2);
    assert_eq!(img.channels, 3);
    assert_eq!(img.raw.len(), 12);
}

#[test]
fn image_init_rejects_mismatch_and_zero_dims() {
    assert_eq!(
        Image::init(vec![0u8; 11], 2, 2, 3).unwrap_err(),
        ImageError::InvalidImage
    );
    assert_eq!(
        Image::init(Vec::new(), 0, 2, 3).unwrap_err(),
        ImageError::InvalidImage
    );
    assert_eq!(
        Image::init(Vec::new(), 2, 2, 0).unwrap_err(),
        ImageError::InvalidImage
    );
    assert_eq!(
        Image::init(Vec::new(), 2, 2, 3).unwrap_err().message(),
        "Failed to parse image"
    );
}

fn triangle_mesh() -> Obj {
    let position = vec![
        [1.0f32.to_bits(), 2.0f32.to_bits(), 3.0f32.to_bits()],
        [4.0f32.to_bits(), 5.0f32.to_bits(), 6.0f32.to_bits()],
    ];
    let uv = vec![[0.5f32.to_bits(), 0.25f32.to_bits()]];
    let normal = vec![[0.0f32.to_bits(), 1.0f32.to_bits(), 0.0f32.to_bits()]];
    // Three vertices of one face, indices 1-based.
    let face = vec![[1usize, 1, 1], [2, 1, 1], [1, 1, 1]];
    Obj::init(position, uv, normal, face).unwrap()
}

#[test]
fn obj_interleaves_3_2_3_vertices() {
    let obj = triangle_mesh();
    let v = obj.gl_3_2_3_vertices();
    assert_eq!(v.len(), 24);
    let f32s: Vec<f32> = v.iter().map(|bits| f32::from_bits(*bits)).collect();
    assert_eq!(
        &f32s[0..8],
        &[1.0, 2.0, 3.0, 0.5, 0.25, 0.0, 1.0, 0.0][..]
    );
    assert_eq!(
        &f32s[8..16],
        &[4.0, 5.0, 6.0, 0.5, 0.25, 0.0, 1.0, 0.0][..]
    );
    assert_eq!(
        &f32s[16..24],
        &[1.0, 2.0, 3.0, 0.5, 0.25, 0.0, 1.0, 0.0][..]
    );
}

#[test]
fn obj_init_rejects_out_of_range_face_index() {
    let r = Obj::init(
        vec![[0u32, 0, 0]],
        vec![[0u32, 0]],
        vec![[0u32, 0, 0]],
        vec![[2usize, 1, 1]],
    );
    assert_eq!(r.unwrap_err(), ObjError::InvalidFaceIndex);
    let r = Obj::init(
        vec![[0u32, 0, 0]],
        vec![[0u32, 0]],
        vec![[0u32, 0, 0]],
        vec![[0usize, 1, 1]],
    );
    assert_eq!(r.unwrap_err().message(), "Face index out of range");
}

#[test]
fn keyboard_edge_detection() {
    let kb = KeyboardState {
        current: vec![0, 1, 0, 1],
        previous: vec![0, 0, 1, 1],
    };
    assert!(!keyboard_key_clicked(&kb, 0));
    assert!(keyboard_key_clicked(&kb, 1));
    assert!(!keyboard_key_clicked(&kb, 2));
    assert!(!keyboard_key_clicked(&kb, 3));
    assert!(!keyboard_key_released(&kb, 0));
    assert!(!keyboard_key_released(&kb, 1));
    assert!(keyboard_key_released(&kb, 2));
    assert!(!keyboard_key_released(&kb, 3));
    assert!(!keyboard_key_hold(&kb, 0));
    assert!(!keyboard_key_hold(&kb, 1));
    assert!(!keyboard_key_hold(&kb, 2));
    assert!(keyboard_key_hold(&kb, 3));
}

#[test]
fn channels_playing_queries() {
    let quiet = Channels {
        playing: Vec::new(),
    };
    assert!(!quiet.any_playing());
    assert!(!quiet.is_playing(0));
    assert!(!quiet.is_playing(-1));
    let busy = Channels {
        playing: vec![false, true, false],
    };
    assert!(busy.any_playing());
    assert!(!busy.is_playing(0));
    assert!(busy.is_playing(1));
    assert!(!busy.is_playing(3));
    assert!(!busy.is_playing(-1));
}

#[test]
fn gl_error_descriptions_name_the_flag() {
    assert!(gl_error_description(GlErrorKind::InvalidEnum).starts_with("GL_INVALID_ENUM:"));
    assert!(gl_error_description(GlErrorKind::OutOfMemory).starts_with("GL_OUT_OF_MEMORY:"));
    assert_eq!(
        gl_error_description(GlErrorKind::InvalidValue),
        "GL_INVALID_VALUE: A numeric argument is out of range. The offending command is \
         ignored and has no other side effect than to set the error flag."
    );
}

#[test]
fn scalar_constructors() {
    assert_eq!(Scalar::whole(7), Scalar { num: 7, den: 1 });
    assert_eq!(Scalar::new(-1, 2), Scalar { num: -1, den: 2 });
}
