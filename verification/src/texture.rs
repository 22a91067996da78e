//! Textures: the pixels of an image, and what the device is told of them.

use vstd::prelude::*;

verus! {

/// The bytes of one pixel: red, green, blue, alpha.
pub const CHANNELS: usize = 4;

/// Why bytes are no image.
#[derive(Debug, Clone, Copy, PartialEq, Eq, Structural)]
pub enum DecodeError {
    /// The decoder rejected the bytes.
    Malformed,
    /// The pixel bytes are not width times height times four.
    WrongSize,
}

/// An image as a mathematical value.
pub struct Pixels {
    pub width: u32,
    pub height: u32,
    pub data: Seq<u8>,
}

impl Pixels {
    /// The pixels are tightly packed: four bytes each, row after row, with
    /// no padding.
    pub open spec fn wf(self) -> bool {
        self.data.len() == self.width * self.height * CHANNELS
    }
}

/// The image that `data` is at the given size, if it is packed.
pub open spec fn packed(width: u32, height: u32, data: Seq<u8>) -> Result<Pixels, DecodeError> {
    let pixels = Pixels { width, height, data };
    if pixels.wf() {
        Ok(pixels)
    } else {
        Err(DecodeError::WrongSize)
    }
}

/// A decoded image: tightly packed RGBA, eight bits a channel.
#[derive(Debug)]
pub struct PixelBuffer {
    width: u32,
    height: u32,
    data: Vec<u8>,
}

impl View for PixelBuffer {
    type V = Pixels;

    closed spec fn view(&self) -> Pixels {
        Pixels { width: self.width, height: self.height, data: self.data@ }
    }
}

/// The contents of a result that holds an image.
pub open spec fn buffer_view(r: Result<PixelBuffer, DecodeError>) -> Result<Pixels, DecodeError> {
    match r {
        Ok(buffer) => Ok(buffer@),
        Err(e) => Err(e),
    }
}

impl PixelBuffer {
    #[verifier::type_invariant]
    spec fn inv(self) -> bool {
        self@.wf()
    }

    /// Makes an image of raw pixel bytes, if there are as many as the size
    /// asks for.
    pub fn from_raw(width: u32, height: u32, data: Vec<u8>) -> (r: Result<PixelBuffer, DecodeError>)
        ensures
            buffer_view(r) == packed(width, height, data@),
    {
        assert(width * height * CHANNELS <= 0xffff_ffff * 0xffff_ffff * 4) by (nonlinear_arith)
            requires
                0 <= width <= 0xffff_ffff,
                0 <= height <= 0xffff_ffff,
                CHANNELS == 4,
        ;
        assert(width * height <= 0xffff_ffff * 0xffff_ffff) by (nonlinear_arith)
            requires
                0 <= width <= 0xffff_ffff,
                0 <= height <= 0xffff_ffff,
        ;
        let wanted: u128 = (width as u128) * (height as u128) * (CHANNELS as u128);
        if data.len() as u128 == wanted {
            Ok(PixelBuffer { width, height, data })
        } else {
            Err(DecodeError::WrongSize)
        }
    }

    /// The width, in pixels.
    pub fn width(&self) -> (r: u32)
        ensures
            r == self@.width,
    {
        self.width
    }

    /// The height, in pixels.
    pub fn height(&self) -> (r: u32)
        ensures
            r == self@.height,
    {
        self.height
    }

    /// The pixel bytes: width times height times four of them.
    pub fn data(&self) -> (r: &Vec<u8>)
        ensures
            r@ == self@.data,
            r@.len() == self@.width * self@.height * CHANNELS,
    {
        proof {
            use_type_invariant(self);
        }
        &self.data
    }
}

/// The largest width or height that the device takes for a texture.
pub const MAX_TEXTURE_SIDE: u32 = 65535;

/// What the device is told of a texture: two-dimensional, single-sampled,
/// RGBA with eight bits a channel, immutable.
#[derive(Debug, Clone, Copy, PartialEq, Eq, Structural)]
pub struct TextureInfo {
    pub width: u16,
    pub height: u16,
    /// How many mip levels are uploaded.
    pub levels: u8,
}

/// Why the device cannot hold an image.
#[derive(Debug, Clone, Copy, PartialEq, Eq, Structural)]
pub enum TextureError {
    /// A side is longer than [`MAX_TEXTURE_SIDE`].
    TooLarge,
}

/// The texture that holds an image: its one level of detail, if the device
/// can address both sides.
pub open spec fn texture_for(pixels: Pixels) -> Result<TextureInfo, TextureError> {
    if pixels.width <= MAX_TEXTURE_SIDE && pixels.height <= MAX_TEXTURE_SIDE {
        Ok(TextureInfo { width: pixels.width as u16, height: pixels.height as u16, levels: 1 })
    } else {
        Err(TextureError::TooLarge)
    }
}

/// Describes the texture that holds `buffer`.
pub fn texture_info(buffer: &PixelBuffer) -> (r: Result<TextureInfo, TextureError>)
    ensures
        r == texture_for(buffer@),
{
    if buffer.width() <= MAX_TEXTURE_SIDE && buffer.height() <= MAX_TEXTURE_SIDE {
        Ok(TextureInfo { width: buffer.width() as u16, height: buffer.height() as u16, levels: 1 })
    } else {
        Err(TextureError::TooLarge)
    }
}

/// How a texture is sampled. Linear filtering is the one mode there is.
#[derive(Debug, Clone, Copy, PartialEq, Eq, Structural)]
pub enum SamplerMode {
    Linear,
}

} // verus!
