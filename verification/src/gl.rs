//! The GL calls that the library asks its driver to make, as data.
//!
//! Handles are the numbers that the GL hands out. The values of the enumerants are those of the
//! Khronos registry.

use vstd::prelude::*;

verus! {

pub const TEXTURE_2D: u32 = 0x0DE1;

pub const SCISSOR_TEST: u32 = 0x0C11;

pub const UNPACK_ALIGNMENT: u32 = 0x0CF5;

pub const UNSIGNED_BYTE: u32 = 0x1401;

pub const RGBA: u32 = 0x1908;

pub const LUMINANCE: u32 = 0x1909;

pub const LINEAR: u32 = 0x2601;

pub const TEXTURE_MAG_FILTER: u32 = 0x2800;

pub const TEXTURE_MIN_FILTER: u32 = 0x2801;

pub const TEXTURE_WRAP_S: u32 = 0x2802;

pub const TEXTURE_WRAP_T: u32 = 0x2803;

pub const CLAMP_TO_EDGE: u32 = 0x812F;

pub const DEPTH_COMPONENT24: u32 = 0x81A6;

pub const FRAMEBUFFER_COMPLETE: u32 = 0x8CD5;

pub const COLOR_ATTACHMENT0: u32 = 0x8CE0;

pub const DEPTH_ATTACHMENT: u32 = 0x8D00;

pub const FRAMEBUFFER: u32 = 0x8D40;

pub const RENDERBUFFER: u32 = 0x8D41;

/// One call into the GL, or into one of its image extensions.
#[derive(Debug, Clone, Copy, PartialEq, Eq, Structural)]
pub enum GlCall {
    BindFramebuffer { target: u32, framebuffer: u32 },
    Viewport { x: i32, y: i32, width: i32, height: i32 },
    Enable { capability: u32 },
    Disable { capability: u32 },
    Scissor { x: i32, y: i32, width: i32, height: i32 },
    BindTexture { target: u32, texture: Option<u32> },
    PixelStore { parameter: u32, value: i32 },
    /// The pixels are the data that comes with the upload.
    TexImage2d {
        target: u32,
        level: i32,
        internal_format: i32,
        width: i32,
        height: i32,
        border: i32,
        format: u32,
        data_type: u32,
    },
    TexParameter { target: u32, parameter: u32, value: i32 },
    BindRenderbuffer { target: u32, renderbuffer: u32 },
    /// Back the bound renderbuffer's storage with an EGL image.
    RenderbufferImage { target: u32, image: u64 },
    RenderbufferStorage { target: u32, format: u32, width: i32, height: i32 },
    FramebufferRenderbuffer {
        target: u32,
        attachment: u32,
        renderbuffer_target: u32,
        renderbuffer: u32,
    },
    /// Read the bound framebuffer into the buffer that comes with the request.
    ReadPixels { x: i32, y: i32, width: i32, height: i32, format: u32, data_type: u32 },
    DeleteFramebuffer { framebuffer: u32 },
    DeleteRenderbuffer { renderbuffer: u32 },
    DestroyImage { image: u64 },
    /// Wait for every pending command.
    Finish,
}

/// `v` reduced to 32 bits and read as a signed number, which is how an unsigned size reaches
/// the GL.
pub open spec fn signed_bits(v: int) -> int {
    let low = v % 0x1_0000_0000;
    if low < 0x8000_0000 {
        low
    } else {
        low - 0x1_0000_0000
    }
}

/// The 32 bits of `v`, read as a signed number.
pub fn signed32(v: u32) -> (r: i32)
    ensures
        r == signed_bits(v as int),
        v <= i32::MAX ==> r == v,
{
    proof {
        assert(v < 0x8000_0000u32 ==> (v as i32) as int == v as int) by (bit_vector);
        assert(v >= 0x8000_0000u32 ==> (v as i32) as int == v as int - 0x1_0000_0000int)
            by (bit_vector);
    }
    #[verifier::truncate]
    (v as i32)
}

/// A number of 32 bits keeps its bits: one below 2^31 is itself, and any other is 2^32 less, which
/// is negative.
pub proof fn signed_bits_are_the_same_bits(v: u32)
    ensures
        v < 0x8000_0000 ==> signed_bits(v as int) == v,
        v >= 0x8000_0000 ==> signed_bits(v as int) + 0x1_0000_0000 == v,
        i32::MIN <= signed_bits(v as int) <= i32::MAX,
{
}

} // verus!
