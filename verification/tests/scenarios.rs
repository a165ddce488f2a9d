use jpeg_encoder::encoder::ColorType;
use jpeg_encoder::encoder::JPEGEncoder;
use jpeg_encoder::encoder::JpegError;

fn encode_bytes(image: &[u8], width: u32, height: u32, c: ColorType) -> Vec<u8> {
    let mut enc = JPEGEncoder::new();
    enc.encode(image, width, height, c).unwrap();
    enc.into_bytes()
}

fn find(haystack: &[u8], needle: &[u8]) -> Option<usize> {
    if needle.len() > haystack.len() {
        return None;
    }
    (0..=haystack.len() - needle.len()).find(|&i| &haystack[i..i + needle.len()] == needle)
}

#[test]
fn one_pixel_rgb_black() {
    let bytes = encode_bytes(&[0, 0, 0], 1, 1, ColorType::RGB(8));
    let expected_prefix = [
        0xFF, 0xD8, 0xFF, 0xE0, 0x00, 0x10, 0x4A, 0x46, 0x49, 0x46, 0x00, 0x01, 0x02, 0x00,
        0x00, 0x01, 0x00, 0x01, 0x00, 0x00,
    ];
    assert_eq!(&bytes[..20], &expected_prefix);
    // One SOF0 with precision 8, height 1, width 1, three components.
    let sof = [0xFF, 0xC0, 0x00, 0x11, 0x08, 0x00, 0x01, 0x00, 0x01, 0x03];
    let pos = find(&bytes, &sof).expect("SOF0 not found");
    assert!(find(&bytes[pos + 2..], &[0xFF, 0xC0]).is_none(), "more than one SOF0");
    assert_eq!(&bytes[bytes.len() - 2..], &[0xFF, 0xD9]);
}

#[test]
fn flat_gray_block_entropy_bytes() {
    // All samples 128: after the level shift and transform only the DC
    // remains, and it is zero, so the scan data is the size-0 DC symbol (00)
    // plus end-of-block (1010), padded with ones: one byte 0x2B.
    let bytes = encode_bytes(&[128u8; 64], 8, 8, ColorType::Gray(8));
    assert_eq!(&bytes[bytes.len() - 3..], &[0x2B, 0xFF, 0xD9]);
}

#[test]
fn pure_red_block_is_dc_only() {
    // Red converts to roughly Y 76, Cb 85, Cr 255; each of the three blocks
    // holds a DC coefficient and an end-of-block, nothing more, so the
    // entropy-coded data fits a handful of bytes.
    let bytes = encode_bytes(&[[255u8, 0, 0]; 64].concat(), 8, 8, ColorType::RGB(8));
    let sos = find(&bytes, &[0xFF, 0xDA]).expect("SOS not found");
    let sos_len = ((bytes[sos + 2] as usize) << 8) | bytes[sos + 3] as usize;
    let entropy_start = sos + 2 + sos_len;
    let entropy_end = bytes.len() - 2;
    assert!(entropy_end - entropy_start <= 6, "entropy data longer than DC + EOB");
    assert_eq!(&bytes[bytes.len() - 2..], &[0xFF, 0xD9]);
}

#[test]
fn half_black_half_white_dc_chain() {
    // Two luma blocks: the first all 0, the second all 255. The second DC is
    // coded as the difference against the first, which pins the whole scan:
    // size-7 symbol (11110), payload 0111111, EOB; size-8 symbol (111110),
    // payload 10000000, EOB; then 1-padding.
    let mut image = Vec::new();
    for _ in 0..8 {
        image.extend_from_slice(&[0u8; 8]);
        image.extend_from_slice(&[255u8; 8]);
    }
    let bytes = encode_bytes(&image, 16, 8, ColorType::Gray(8));
    assert_eq!(
        &bytes[bytes.len() - 7..],
        &[0xF3, 0xFA, 0xFA, 0x02, 0xBF, 0xFF, 0xD9]
    );
}

#[test]
fn alpha_is_ignored() {
    // A 1x1 black RGBA pixel with alpha 0 encodes to the same stream as the
    // bare RGB pixel. (Edge padding clamps to the buffer's last byte, so the
    // two layouts coincide when that byte has the same value, as here.)
    let rgba = encode_bytes(&[0, 0, 0, 0], 1, 1, ColorType::RGBA(8));
    let rgb = encode_bytes(&[0, 0, 0], 1, 1, ColorType::RGB(8));
    assert_eq!(rgba, rgb);
    let ga = encode_bytes(&[0, 0], 1, 1, ColorType::GrayA(8));
    let g = encode_bytes(&[0], 1, 1, ColorType::Gray(8));
    assert_eq!(ga, g);
}

#[test]
fn single_pixel_images_encode() {
    for (image, c) in [
        (vec![0u8], ColorType::Gray(8)),
        (vec![255u8, 255, 255], ColorType::RGB(8)),
    ] {
        let bytes = encode_bytes(&image, 1, 1, c);
        assert_eq!(&bytes[..2], &[0xFF, 0xD8]);
        assert_eq!(&bytes[bytes.len() - 2..], &[0xFF, 0xD9]);
    }
}

#[test]
fn unsupported_color_type_is_refused() {
    let mut enc = JPEGEncoder::new();
    let r = enc.encode(&[0u8; 12], 1, 1, ColorType::RGB(16));
    assert_eq!(r, Err(JpegError::UnsupportedColorType(ColorType::RGB(16))));
    let bytes = enc.into_bytes();
    // The headers were buffered, but nothing of the scan was written: the
    // stream still ends with the SOS header tail, not with EOI.
    assert_ne!(&bytes[bytes.len() - 2..], &[0xFF, 0xD9]);
    assert_eq!(&bytes[bytes.len() - 3..], &[0x00, 0x3F, 0x00]);

    let mut enc = JPEGEncoder::new();
    let r = enc.encode(&[0u8; 3], 1, 1, ColorType::Palette(8));
    assert_eq!(r, Err(JpegError::UnsupportedColorType(ColorType::Palette(8))));
}

#[test]
fn no_unstuffed_ff_between_sos_and_eoi() {
    // A noisy image exercises many coefficient patterns; inside the scan
    // every 0xFF must be followed by 0x00.
    let mut image = Vec::new();
    let mut v: u32 = 0x12345678;
    for _ in 0..(24 * 24) {
        v = v.wrapping_mul(1103515245).wrapping_add(12345);
        image.push((v >> 16) as u8);
    }
    let bytes = encode_bytes(&image, 24, 24, ColorType::Gray(8));
    let sos = find(&bytes, &[0xFF, 0xDA]).expect("SOS not found");
    let sos_len = ((bytes[sos + 2] as usize) << 8) | bytes[sos + 3] as usize;
    let entropy_start = sos + 2 + sos_len;
    let entropy_end = bytes.len() - 2;
    let mut i = entropy_start;
    while i < entropy_end {
        if bytes[i] == 0xFF {
            assert!(i + 1 < entropy_end, "trailing 0xFF in entropy data");
            assert_eq!(bytes[i + 1], 0x00, "unstuffed 0xFF at offset {}", i);
            i += 2;
        } else {
            i += 1;
        }
    }
    assert_eq!(&bytes[bytes.len() - 2..], &[0xFF, 0xD9]);
}
