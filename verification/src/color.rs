//! Packed-color decoding.
//!
//! Colors travel through the engine as one packed `0xRRGGBBAA` word.
//! Decoding splits the word into its four channel bytes; a channel is
//! later sent to the GPU as the exact rational `byte / 255`.

use vstd::prelude::*;

use crate::gl::{Scalar, Vec4S};

verus! {

/// A packed `0xRRGGBBAA` color word.
pub type Color = u32;

/// One decoded color: the four channel bytes of a packed color word.
#[derive(Clone, Copy, Debug, PartialEq, Eq, Structural)]
pub struct Rgba {
    pub r: u8,
    pub g: u8,
    pub b: u8,
    pub a: u8,
}

/// Splits a packed `0xRRGGBBAA` word into its four channel bytes.
///
/// The red channel is the highest byte and alpha the lowest; the
/// intensity a channel stands for is `byte / 255`.
pub fn rgba(hex: u32) -> (c: Rgba)
    ensures
        c.r == (hex >> 24) & 0xFF,
        c.g == (hex >> 16) & 0xFF,
        c.b == (hex >> 8) & 0xFF,
        c.a == hex & 0xFF,
{
    let r = ((hex >> 24) & 0xFF) as u8;
    let g = ((hex >> 16) & 0xFF) as u8;
    let b = ((hex >> 8) & 0xFF) as u8;
    let a = (hex & 0xFF) as u8;
    proof {
        assert(((hex >> 24) & 0xFF) < 256 && ((hex >> 16) & 0xFF) < 256 && ((hex >> 8) & 0xFF)
            < 256 && (hex & 0xFF) < 256) by (bit_vector);
    }
    Rgba { r, g, b, a }
}

/// The channel intensities of a packed color word, as the four exact
/// rationals `byte / 255` a tint uniform is set to.
pub open spec fn tint_vec4_spec(hex: u32) -> Vec4S {
    Vec4S {
        x: Scalar { num: ((hex >> 24) & 0xFF) as i32, den: 255 },
        y: Scalar { num: ((hex >> 16) & 0xFF) as i32, den: 255 },
        z: Scalar { num: ((hex >> 8) & 0xFF) as i32, den: 255 },
        w: Scalar { num: (hex & 0xFF) as i32, den: 255 },
    }
}

/// Decodes a packed color word into the tint vector `(r, g, b, a)`,
/// each channel the exact rational `byte / 255`.
pub fn tint_vec4(hex: u32) -> (v: Vec4S)
    ensures
        v == tint_vec4_spec(hex),
{
    proof {
        assert(((hex >> 24) & 0xFF) < 256 && ((hex >> 16) & 0xFF) < 256 && ((hex >> 8) & 0xFF)
            < 256 && (hex & 0xFF) < 256) by (bit_vector);
    }
    let c = rgba(hex);
    Vec4S {
        x: Scalar { num: c.r as i32, den: 255 },
        y: Scalar { num: c.g as i32, den: 255 },
        z: Scalar { num: c.b as i32, den: 255 },
        w: Scalar { num: c.a as i32, den: 255 },
    }
}

} // verus!
