//! Per-frame shader parameters and their GPU memory layout.
//!
//! The shader reads a single uniform buffer holding the elapsed time and
//! the viewport resolution as three single-precision floats plus one float
//! of padding, 16 bytes in all, little-endian, in a fixed field order.
//! The library works on the IEEE-754 bit patterns of those floats as plain
//! 32-bit values: the layout contract is about bytes, not about float
//! arithmetic, which the library never performs.

use vstd::prelude::*;

verus! {

/// Size in bytes of the packed frame-parameter block: four 32-bit words
/// (time, padding, resolution x, resolution y).
pub const FRAME_PARAMS_SIZE: usize = 16;

/// The host-side frame parameters, as the bit patterns of the three
/// single-precision floats the shader reads. The padding word between the
/// time and the resolution exists only to satisfy the GPU uniform-buffer
/// alignment rule and is always zero.
#[derive(Clone, Copy, Debug, PartialEq, Eq, Structural)]
pub struct FrameParams {
    /// Bit pattern of the elapsed-seconds float.
    pub time_bits: u32,
    /// Bit pattern of the viewport-width float.
    pub width_bits: u32,
    /// Bit pattern of the viewport-height float.
    pub height_bits: u32,
}

/// The four little-endian bytes of a 32-bit word.
pub open spec fn u32_le_bytes(x: u32) -> Seq<u8> {
    seq![
        (x % 256) as u8,
        ((x / 256) % 256) as u8,
        ((x / 65536) % 256) as u8,
        ((x / 16777216) % 256) as u8,
    ]
}

/// The exact 16-byte GPU layout of a frame-parameter block: time word,
/// zero padding word, then the two resolution words, each little-endian.
pub open spec fn frame_params_layout(p: FrameParams) -> Seq<u8> {
    u32_le_bytes(p.time_bits) + u32_le_bytes(0) + u32_le_bytes(p.width_bits)
        + u32_le_bytes(p.height_bits)
}

/// Appends the four little-endian bytes of `x` to `out`.
fn push_u32_le(out: &mut Vec<u8>, x: u32)
    ensures
        final(out)@ == old(out)@ + u32_le_bytes(x),
{
    out.push((x % 256) as u8);
    out.push((x / 256 % 256) as u8);
    out.push((x / 65536 % 256) as u8);
    out.push((x / 16777216 % 256) as u8);
    proof {
        assert(out@ =~= old(out)@ + u32_le_bytes(x));
    }
}

/// Packs a frame-parameter block into the exact byte image that is written
/// to the GPU-side uniform buffer each frame.
pub fn pack_frame_params(p: &FrameParams) -> (r: Vec<u8>)
    ensures
        r@ == frame_params_layout(*p),
        r@.len() == FRAME_PARAMS_SIZE,
{
    let mut out: Vec<u8> = Vec::new();
    push_u32_le(&mut out, p.time_bits);
    push_u32_le(&mut out, 0);
    push_u32_le(&mut out, p.width_bits);
    push_u32_le(&mut out, p.height_bits);
    proof {
        assert(out@ =~= frame_params_layout(*p));
    }
    out
}

} // verus!
