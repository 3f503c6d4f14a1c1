use starfield::frame::Mat3Bits;
use starfield::uniform::{pack_sky_uniform, SIDEREAL_BYTE_OFFSET, SKY_UNIFORM_BYTES};

#[test]
fn identity_packs_one_on_the_diagonal() {
    let bytes = pack_sky_uniform(&Mat3Bits::identity(), 0);
    assert_eq!(bytes.len(), SKY_UNIFORM_BYTES);
    let one = 1.0_f32.to_bits().to_le_bytes();
    assert_eq!(&bytes[0..4], &one);
    assert_eq!(&bytes[20..24], &one);
    assert_eq!(&bytes[40..44], &one);
    // Everything else, the padding lanes included, is zero.
    for (j, b) in bytes.iter().enumerate() {
        let on_diagonal = (0..4).contains(&j) || (20..24).contains(&j) || (40..44).contains(&j);
        if !on_diagonal {
            assert_eq!(*b, 0, "byte {} must be zero", j);
        }
    }
}

#[test]
fn rows_are_vec4_aligned_and_sidereal_sits_at_48() {
    let m = Mat3Bits {
        e00: 0x0101_0101,
        e01: 0x0202_0202,
        e02: 0x0303_0303,
        e10: 0x0404_0404,
        e11: 0x0505_0505,
        e12: 0x0606_0606,
        e20: 0x0707_0707,
        e21: 0x0808_0808,
        e22: 0x0909_0909,
    };
    let sidereal_bits = 123.456_f32.to_bits();
    let bytes = pack_sky_uniform(&m, sidereal_bits);
    assert_eq!(bytes.len(), 64);
    // Row r occupies bytes 16r .. 16r + 12; the fourth lane is zero.
    assert_eq!(&bytes[0..4], &[1, 1, 1, 1]);
    assert_eq!(&bytes[4..8], &[2, 2, 2, 2]);
    assert_eq!(&bytes[8..12], &[3, 3, 3, 3]);
    assert_eq!(&bytes[12..16], &[0, 0, 0, 0]);
    assert_eq!(&bytes[16..20], &[4, 4, 4, 4]);
    assert_eq!(&bytes[28..32], &[0, 0, 0, 0]);
    assert_eq!(&bytes[32..36], &[7, 7, 7, 7]);
    assert_eq!(&bytes[40..44], &[9, 9, 9, 9]);
    assert_eq!(&bytes[44..48], &[0, 0, 0, 0]);
    assert_eq!(&bytes[48..52], &sidereal_bits.to_le_bytes());
    assert_eq!(&bytes[52..64], &[0u8; 12]);
    assert_eq!(SIDEREAL_BYTE_OFFSET, 48);
}

#[test]
fn sidereal_word_is_little_endian() {
    let m = Mat3Bits::identity();
    let bytes = pack_sky_uniform(&m, 0x1234_5678);
    assert_eq!(&bytes[48..52], &[0x78, 0x56, 0x34, 0x12]);
}
