//! Decoded images.
//!
//! An image decoder runs in the host; the library receives the
//! decoded pixel buffer with its dimensions and validates that they
//! agree before the engine builds textures from it.

use vstd::prelude::*;

verus! {

/// Why a decoded image was rejected.
#[derive(Clone, Copy, Debug, PartialEq, Eq, Structural)]
pub enum ImageError {
    /// A dimension was out of range or the buffer length did not
    /// match `width * height * channels`.
    InvalidImage,
}

impl ImageError {
    /// The diagnostic message for this rejection.
    pub fn message(&self) -> (s: &'static str)
        ensures
            s == "Failed to parse image",
    {
        "Failed to parse image"
    }
}

/// A decoded image: raw pixel bytes, row-major, `channels` bytes per
/// texel.
#[derive(Debug)]
pub struct Image {
    pub raw: Vec<u8>,
    pub width: i32,
    pub height: i32,
    pub channels: i32,
}

impl Image {
    /// Does the buffer agree with the dimensions: positive width,
    /// height and channel count, and exactly
    /// `width * height * channels` bytes?
    pub open spec fn wf(self) -> bool {
        &&& self.width > 0
        &&& self.height > 0
        &&& self.channels > 0
        &&& self.raw@.len() == self.width * self.height * self.channels
    }

    /// Assembles a decoded image, accepting it exactly when the
    /// buffer agrees with the dimensions.
    pub fn init(raw: Vec<u8>, width: i32, height: i32, channels: i32) -> (r: Result<
        Image,
        ImageError,
    >)
        ensures
            (r matches Ok(img) ==> img == (Image { raw, width, height, channels }) && img.wf()),
            (r is Err ==> !(Image { raw, width, height, channels }).wf() && r == Err::<
                Image,
                ImageError,
            >(ImageError::InvalidImage)),
    {
        if !(width > 0 && height > 0 && channels > 0) {
            return Err(ImageError::InvalidImage);
        }
        proof {
            assert(0 < (width as int) * (height as int) < 0x4000_0000_0000_0000)
                by (nonlinear_arith)
                requires
                    0 < width < 0x8000_0000,
                    0 < height < 0x8000_0000,
            ;
            assert(0 < (width as int) * (height as int) * (channels as int)
                < 0x2000_0000_0000_0000_0000_0000) by (nonlinear_arith)
                requires
                    0 < (width as int) * (height as int) < 0x4000_0000_0000_0000,
                    0 < channels < 0x8000_0000,
            ;
        }
        let expected: u128 = (width as u128) * (height as u128) * (channels as u128);
        let n = raw.len();
        if !(n as u128 == expected) {
            return Err(ImageError::InvalidImage);
        }
        Ok(Image { raw, width, height, channels })
    }
}

} // verus!
