//! The sky uniform's GPU byte layout.
//!
//! The shader expects the per-frame payload bit-for-bit: a 3x3 rotation
//! matrix stored as three vec4-aligned rows of three 32-bit words (the
//! fourth lane of each row zeroed), the sidereal angle as one 32-bit
//! word at byte offset 48, and zero padding to a 64-byte, 16-aligned
//! total.  Words are little-endian.  The rotation entries and the
//! sidereal angle arrive as IEEE-754 single-precision bit patterns that
//! the host produced; this module fixes where every byte goes.

use vstd::prelude::*;
use crate::catalog::{push_word_le, word_byte};
use crate::frame::Mat3Bits;

verus! {

/// Total byte size of the packed sky uniform.
pub const SKY_UNIFORM_BYTES: usize = 64;

/// Byte offset of the sidereal-angle word.
pub const SIDEREAL_BYTE_OFFSET: usize = 48;

/// Byte `j` of the packed sky uniform: matrix row `r` occupies bytes
/// `16 * r .. 16 * r + 12`, the rest of each row lane is zero, the
/// sidereal word sits at 48..52, and everything beyond is zero padding.
pub open spec fn uniform_byte(m: Mat3Bits, sidereal_bits: u32, j: int) -> u8 {
    if j < 4 {
        word_byte(m.e00, j)
    } else if j < 8 {
        word_byte(m.e01, j - 4)
    } else if j < 12 {
        word_byte(m.e02, j - 8)
    } else if j < 16 {
        0
    } else if j < 20 {
        word_byte(m.e10, j - 16)
    } else if j < 24 {
        word_byte(m.e11, j - 20)
    } else if j < 28 {
        word_byte(m.e12, j - 24)
    } else if j < 32 {
        0
    } else if j < 36 {
        word_byte(m.e20, j - 32)
    } else if j < 40 {
        word_byte(m.e21, j - 36)
    } else if j < 44 {
        word_byte(m.e22, j - 40)
    } else if j < 48 {
        0
    } else if j < 52 {
        word_byte(sidereal_bits, j - 48)
    } else {
        0
    }
}

/// Append four zero padding bytes.
fn push_zero_lane(out: &mut Vec<u8>)
    ensures
        final (out)@.len() == old(out)@.len() + 4,
        forall|j: int| 0 <= j < old(out)@.len() ==> final (out)@[j] == old(out)@[j],
        forall|j: int|
            old(out)@.len() <= j < old(out)@.len() + 4 ==> final (out)@[j] == 0u8,
{
    out.push(0);
    out.push(0);
    out.push(0);
    out.push(0);
}

/// Pack the sky uniform exactly as the shader expects it: the rotation's
/// rows vec4-aligned, the sidereal word at its fixed offset, zero
/// padding elsewhere, 64 bytes in all.
pub fn pack_sky_uniform(m: &Mat3Bits, sidereal_bits: u32) -> (r: Vec<u8>)
    ensures
        r@.len() == SKY_UNIFORM_BYTES,
        forall|j: int| 0 <= j < r@.len() ==> r@[j] == uniform_byte(*m, sidereal_bits, j),
{
    let mut out: Vec<u8> = Vec::new();
    push_word_le(&mut out, m.e00);
    push_word_le(&mut out, m.e01);
    push_word_le(&mut out, m.e02);
    push_zero_lane(&mut out);
    push_word_le(&mut out, m.e10);
    push_word_le(&mut out, m.e11);
    push_word_le(&mut out, m.e12);
    push_zero_lane(&mut out);
    push_word_le(&mut out, m.e20);
    push_word_le(&mut out, m.e21);
    push_word_le(&mut out, m.e22);
    push_zero_lane(&mut out);
    push_word_le(&mut out, sidereal_bits);
    push_zero_lane(&mut out);
    push_zero_lane(&mut out);
    push_zero_lane(&mut out);
    out
}

} // verus!
