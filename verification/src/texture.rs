//! GPU textures.
//!
//! A texture is uploaded once from a decoded pixel buffer.  The
//! channel count decides the texel format and the unpack row
//! alignment: one byte for 1- and 3-channel data, four bytes for
//! 4-channel data.  Wrap mode is clamp-to-edge and filtering
//! nearest-neighbor on both axes, with no mipmapping.

use vstd::prelude::*;

use crate::gl::{Gl, GlCommand, TexFormat, TexParamName, TexParamValue};

verus! {

/// Why a texture upload was rejected.
#[derive(Clone, Copy, Debug, PartialEq, Eq, Structural)]
pub enum TextureError {
    /// The pixel buffer was empty.
    NullPixels,
    /// The channel count was outside {1, 3, 4}.
    UnsupportedChannels,
}

impl TextureError {
    /// The diagnostic message for this rejection.
    pub fn message(&self) -> (s: &'static str)
        ensures
            *self == TextureError::NullPixels ==> s == "Passing Null to Texture",
            *self == TextureError::UnsupportedChannels ==> s
                == "Passing image with unsupported number of channels.",
    {
        match self {
            TextureError::NullPixels => "Passing Null to Texture",
            TextureError::UnsupportedChannels => "Passing image with unsupported number of channels.",
        }
    }
}

/// The texel format for a supported channel count.
pub open spec fn format_for_channels(channels: i32) -> TexFormat {
    if channels == 1 {
        TexFormat::Red
    } else if channels == 3 {
        TexFormat::Rgb
    } else {
        TexFormat::Rgba
    }
}

/// The unpack row alignment for a supported channel count: one byte
/// for 1- and 3-channel data, four bytes for 4-channel data.
pub open spec fn alignment_for_channels(channels: i32) -> u32 {
    if channels == 4 {
        4u32
    } else {
        1u32
    }
}

/// Are `s` exactly the nine GL calls of one texture upload: create
/// and bind the texture, clamp-to-edge wrap on both axes,
/// nearest-neighbor filtering for minify and magnify, the unpack
/// alignment the channel count implies, the pixel upload in the
/// format the channel count implies, and the unbind?
pub open spec fn is_texture_upload_commands(
    s: Seq<GlCommand>,
    handle: u32,
    width: i32,
    height: i32,
    channels: i32,
    pixels: Seq<u8>,
) -> bool {
    &&& s.len() == 9
    &&& s[0] == (GlCommand::GenTexture { texture: handle })
    &&& s[1] == (GlCommand::BindTexture { texture: handle })
    &&& s[2] == (GlCommand::TexParameter {
        pname: TexParamName::WrapS,
        value: TexParamValue::ClampToEdge,
    })
    &&& s[3] == (GlCommand::TexParameter {
        pname: TexParamName::WrapT,
        value: TexParamValue::ClampToEdge,
    })
    &&& s[4] == (GlCommand::TexParameter {
        pname: TexParamName::MinFilter,
        value: TexParamValue::Nearest,
    })
    &&& s[5] == (GlCommand::TexParameter {
        pname: TexParamName::MagFilter,
        value: TexParamValue::Nearest,
    })
    &&& s[6] == (GlCommand::PixelStoreUnpackAlignment {
        alignment: alignment_for_channels(channels),
    })
    &&& (s[7] matches GlCommand::TexImage2d { format: f, width: w, height: h, pixels: p } && f
        == format_for_channels(channels) && w == width && h == height && p@ == pixels)
    &&& s[8] == (GlCommand::BindTexture { texture: 0 })
}

/// A GPU texture with its recorded attributes.  The handle is owned:
/// releasing it with [`Texture::delete`] consumes the value, so it is
/// released at most once.
#[derive(Debug)]
pub struct Texture {
    pub handle: u32,
    pub width: i32,
    pub height: i32,
    pub channels: i32,
}

/// Copies a byte buffer.
pub(crate) fn clone_bytes(v: &Vec<u8>) -> (r: Vec<u8>)
    ensures
        r@ == v@,
{
    let mut r: Vec<u8> = Vec::new();
    let n = v.len();
    let mut i: usize = 0;
    while i < n
        invariant
            n == v@.len(),
            i <= n,
            r@ == v@.take(i as int),
        decreases n - i,
    {
        r.push(v[i]);
        proof {
            assert(v@.take(i + 1) =~= v@.take(i as int).push(v@[i as int]));
        }
        i = i + 1;
    }
    proof {
        assert(v@.take(n as int) =~= v@);
    }
    r
}

impl Texture {
    /// Uploads a decoded pixel buffer as a new texture.
    ///
    /// Succeeds exactly when the buffer is non-empty and the channel
    /// count is 1, 3 or 4.  On success it records, in order: texture
    /// creation and binding, clamp-to-edge wrap on both axes,
    /// nearest-neighbor filtering for both minify and magnify, the
    /// unpack alignment for the channel count, the pixel upload with
    /// the format the channel count implies, and the unbind.  On
    /// failure nothing is recorded.
    pub fn init(gl: &mut Gl, pixels: &Vec<u8>, width: i32, height: i32, channels: i32) -> (r:
        Result<Texture, TextureError>)
        requires
            old(gl).next_handle < u32::MAX,
        ensures
            final(gl).max_texture_units == old(gl).max_texture_units,
            pixels@.len() == 0 ==> r == Err::<Texture, TextureError>(TextureError::NullPixels)
                && *final(gl) == *old(gl),
            pixels@.len() > 0 && !(channels == 1 || channels == 3 || channels == 4) ==> r
                == Err::<Texture, TextureError>(TextureError::UnsupportedChannels) && *final(gl)
                == *old(gl),
            pixels@.len() > 0 && (channels == 1 || channels == 3 || channels == 4) ==> (
            r matches Ok(t) && t.handle == old(gl).next_handle && t.width == width && t.height
                == height && t.channels == channels && final(gl).next_handle == old(gl).next_handle
                + 1 && final(gl).commands@.len() == old(gl).commands@.len() + 9 && final(gl).commands@.subrange(0, old(gl).commands@.len() as int) == old(gl).commands@
                && is_texture_upload_commands(
                final(gl).commands@.subrange(
                    old(gl).commands@.len() as int,
                    final(gl).commands@.len() as int,
                ),
                t.handle,
                width,
                height,
                channels,
                pixels@,
            )),
    {
        if pixels.len() == 0 {
            return Err(TextureError::NullPixels);
        }
        if !(channels == 1 || channels == 3 || channels == 4) {
            return Err(TextureError::UnsupportedChannels);
        }
        let ghost n0 = gl.commands@.len() as int;
        let handle = gl.fresh_handle();
        gl.emit(GlCommand::GenTexture { texture: handle });
        gl.emit(GlCommand::BindTexture { texture: handle });
        gl.emit(
            GlCommand::TexParameter {
                pname: TexParamName::WrapS,
                value: TexParamValue::ClampToEdge,
            },
        );
        gl.emit(
            GlCommand::TexParameter {
                pname: TexParamName::WrapT,
                value: TexParamValue::ClampToEdge,
            },
        );
        gl.emit(
            GlCommand::TexParameter {
                pname: TexParamName::MinFilter,
                value: TexParamValue::Nearest,
            },
        );
        gl.emit(
            GlCommand::TexParameter {
                pname: TexParamName::MagFilter,
                value: TexParamValue::Nearest,
            },
        );
        let alignment: u32 = if channels == 4 {
            4
        } else {
            1
        };
        gl.emit(GlCommand::PixelStoreUnpackAlignment { alignment });
        let format = if channels == 1 {
            TexFormat::Red
        } else if channels == 3 {
            TexFormat::Rgb
        } else {
            TexFormat::Rgba
        };
        gl.emit(GlCommand::TexImage2d { format, width, height, pixels: clone_bytes(pixels) });
        gl.emit(GlCommand::BindTexture { texture: 0 });
        proof {
            assert(gl.commands@.subrange(0, n0) =~= old(gl).commands@);
            assert(gl.commands@[n0 + 7] matches GlCommand::TexImage2d { pixels: p, .. } && p@
                == pixels@);
        }
        Ok(Texture { handle, width, height, channels })
    }

    /// Activates texture unit `index` and binds this texture there.
    /// The unit must lie below the driver's combined texture image
    /// unit limit.
    pub fn bind(&self, gl: &mut Gl, index: u32)
        requires
            index < old(gl).max_texture_units,
        ensures
            final(gl).commands@ == old(gl).commands@ + seq![
                GlCommand::ActiveTexture { unit: index },
                GlCommand::BindTexture { texture: self.handle },
            ],
            final(gl).next_handle == old(gl).next_handle,
            final(gl).max_texture_units == old(gl).max_texture_units,
    {
        gl.emit(GlCommand::ActiveTexture { unit: index });
        gl.emit(GlCommand::BindTexture { texture: self.handle });
        proof {
            assert(gl.commands@ =~= old(gl).commands@ + seq![
                GlCommand::ActiveTexture { unit: index },
                GlCommand::BindTexture { texture: self.handle },
            ]);
        }
    }

    /// Releases the texture handle.
    pub fn delete(self, gl: &mut Gl)
        ensures
            final(gl).commands@ == old(gl).commands@.push(
                GlCommand::DeleteTexture { texture: self.handle },
            ),
            final(gl).next_handle == old(gl).next_handle,
            final(gl).max_texture_units == old(gl).max_texture_units,
    {
        gl.emit(GlCommand::DeleteTexture { texture: self.handle });
    }
}

} // verus!
