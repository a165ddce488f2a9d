use jpeg_encoder::blocks::rgb_to_ycbcr;
use jpeg_encoder::blocks::value_at;
use jpeg_encoder::coeff::encode_coefficient;
use jpeg_encoder::fdct::fdct;
use jpeg_encoder::fdct::quantize;
use jpeg_encoder::huffman::build_huff_lut;
use jpeg_encoder::segments::build_huffman_segment;
use jpeg_encoder::segments::build_jfif_header;
use jpeg_encoder::segments::build_quantization_segment;
use jpeg_encoder::tables::STD_LUMA_AC_CODE_LENGTHS;
use jpeg_encoder::tables::STD_LUMA_AC_VALUES;
use jpeg_encoder::tables::STD_LUMA_DC_CODE_LENGTHS;
use jpeg_encoder::tables::STD_LUMA_DC_VALUES;
use jpeg_encoder::tables::STD_LUMA_QTABLE;

#[test]
fn coefficient_zero() {
    assert_eq!(encode_coefficient(0), (0, 0));
}

#[test]
fn coefficient_small_values() {
    assert_eq!(encode_coefficient(1), (1, 1));
    assert_eq!(encode_coefficient(-1), (1, 0));
    assert_eq!(encode_coefficient(2), (2, 2));
    assert_eq!(encode_coefficient(3), (2, 3));
    assert_eq!(encode_coefficient(-2), (2, 1));
    assert_eq!(encode_coefficient(-3), (2, 0));
}

#[test]
fn coefficient_larger_values() {
    assert_eq!(encode_coefficient(255), (8, 255));
    assert_eq!(encode_coefficient(-255), (8, 0));
    assert_eq!(encode_coefficient(128), (8, 128));
    assert_eq!(encode_coefficient(-128), (8, 127));
    assert_eq!(encode_coefficient(1023), (10, 1023));
    assert_eq!(encode_coefficient(-1023), (10, 0));
}

#[test]
fn coefficient_size_and_payload_ranges() {
    // The size stays within 0..=16 and the payload below 2^size for a spread
    // of inputs, and the JPEG decoding rule gives the input back.
    for c in [-2047i32, -1024, -513, -1, 1, 7, 64, 999, 2047] {
        let (s, p) = encode_coefficient(c);
        assert!(s <= 16);
        assert!((p as u32) < (1u32 << s));
        let decoded = if (p as u32) < (1u32 << (s - 1)) {
            p as i32 - (1i32 << s) + 1
        } else {
            p as i32
        };
        assert_eq!(decoded, c);
    }
}

#[test]
fn canonical_luma_dc_codes() {
    let lut = build_huff_lut(&STD_LUMA_DC_CODE_LENGTHS, &STD_LUMA_DC_VALUES);
    assert_eq!(lut.len(), 256);
    assert_eq!(lut[0], (2, 0));
    assert_eq!(lut[1], (3, 2));
    assert_eq!(lut[2], (3, 3));
    assert_eq!(lut[5], (3, 6));
    assert_eq!(lut[6], (4, 14));
    assert_eq!(lut[7], (5, 30));
    assert_eq!(lut[8], (6, 62));
    assert_eq!(lut[11], (9, 510));
    // Unassigned symbols keep the invalid marker length.
    assert_eq!(lut[12], (17, 0));
    assert_eq!(lut[255], (17, 0));
}

#[test]
fn canonical_luma_ac_codes() {
    let lut = build_huff_lut(&STD_LUMA_AC_CODE_LENGTHS, &STD_LUMA_AC_VALUES);
    // End-of-block and the zero-run symbol of annex K.5.
    assert_eq!(lut[0x00], (4, 0b1010));
    assert_eq!(lut[0x01], (2, 0b00));
    assert_eq!(lut[0x02], (2, 0b01));
    assert_eq!(lut[0xF0], (11, 0b11111111001));
    // Every run/size pair the coder can emit is assigned.
    for run in 0..16u16 {
        for size in 1..11u16 {
            let (len, _) = lut[(run * 16 + size) as usize];
            assert!(len >= 1 && len <= 16);
        }
    }
}

#[test]
fn ycbcr_conversion() {
    assert_eq!(rgb_to_ycbcr(0, 0, 0), (0, 128, 128));
    assert_eq!(rgb_to_ycbcr(255, 255, 255), (255, 128, 128));
    assert_eq!(rgb_to_ycbcr(255, 0, 0), (76, 84, 255));
    assert_eq!(rgb_to_ycbcr(0, 255, 0), (149, 43, 21));
    assert_eq!(rgb_to_ycbcr(0, 0, 255), (29, 255, 107));
}

#[test]
fn value_at_clamps_to_last_byte() {
    let s = [5u8, 6, 7];
    assert_eq!(value_at(&s, 0), 5);
    assert_eq!(value_at(&s, 2), 7);
    assert_eq!(value_at(&s, 3), 7);
    assert_eq!(value_at(&s, 1000), 7);
}

#[test]
fn jfif_payload_bytes() {
    let p = build_jfif_header();
    assert_eq!(
        p,
        vec![0x4A, 0x46, 0x49, 0x46, 0x00, 0x01, 0x02, 0x00, 0x00, 0x01, 0x00, 0x01, 0x00, 0x00]
    );
}

#[test]
fn quantization_segment_is_zigzagged() {
    let p = build_quantization_segment(8, 0, &STD_LUMA_QTABLE);
    assert_eq!(p.len(), 65);
    assert_eq!(p[0], 0x00);
    // First zig-zag entries of K.1: positions 0, 1, 8, 16, 9, 2.
    assert_eq!(&p[1..7], &[16, 11, 12, 14, 12, 10]);
    // Last zig-zag entry is the bottom-right corner.
    assert_eq!(p[64], 99);
}

#[test]
fn huffman_segment_layout() {
    let p = build_huffman_segment(0, 0, &STD_LUMA_DC_CODE_LENGTHS, &STD_LUMA_DC_VALUES);
    assert_eq!(p.len(), 1 + 16 + 12);
    assert_eq!(p[0], 0x00);
    assert_eq!(&p[1..17], &STD_LUMA_DC_CODE_LENGTHS);
    assert_eq!(&p[17..29], &STD_LUMA_DC_VALUES);
    let p2 = build_huffman_segment(1, 1, &STD_LUMA_AC_CODE_LENGTHS, &STD_LUMA_AC_VALUES);
    assert_eq!(p2[0], 0x11);
    assert_eq!(p2.len(), 1 + 16 + 162);
}

#[test]
fn fdct_constant_block_has_dc_only() {
    // A flat block transforms to a lone DC value of 64 * (sample - 128).
    let samples = [200u8; 64];
    let coeffs = fdct(&samples);
    assert_eq!(coeffs[0], 64 * (200 - 128));
    for i in 1..64 {
        assert_eq!(coeffs[i], 0, "AC coefficient {} not zero", i);
    }
    let mid = [128u8; 64];
    let coeffs = fdct(&mid);
    for i in 0..64 {
        assert_eq!(coeffs[i], 0);
    }
}

#[test]
fn quantize_rounds_half_away_from_zero() {
    assert_eq!(quantize(8 * 16, 16), 1);
    assert_eq!(quantize(8 * 8, 16), 1); // 8 / 16 rounds up from exactly half
    assert_eq!(quantize(8 * 7, 16), 0);
    assert_eq!(quantize(-8 * 8, 16), -1);
    assert_eq!(quantize(-8 * 7, 16), 0);
    assert_eq!(quantize(0, 10), 0);
}
