use jpeg_encoder::encoder::ColorType;
use jpeg_encoder::encoder::JPEGEncoder;

fn encode_bytes(image: &[u8], width: u32, height: u32, c: ColorType) -> Vec<u8> {
    let mut enc = JPEGEncoder::new();
    enc.encode(image, width, height, c).unwrap();
    enc.into_bytes()
}

fn decode(bytes: &[u8]) -> (Vec<u8>, jpeg_decoder::ImageInfo) {
    let mut decoder = jpeg_decoder::Decoder::new(bytes);
    let pixels = decoder.decode().expect("decoding failed");
    (pixels, decoder.info().expect("no image info"))
}

#[test]
fn flat_gray_roundtrip_is_tight() {
    let bytes = encode_bytes(&[128u8; 16 * 16], 16, 16, ColorType::Gray(8));
    let (pixels, info) = decode(&bytes);
    assert_eq!(info.width, 16);
    assert_eq!(info.height, 16);
    assert_eq!(pixels.len(), 16 * 16);
    for p in pixels {
        assert!((p as i32 - 128).abs() <= 2, "flat gray off by more than 2: {}", p);
    }
}

#[test]
fn black_and_white_rgb_roundtrip_is_tight() {
    for v in [0u8, 255u8] {
        let image: Vec<u8> = std::iter::repeat(v).take(8 * 8 * 3).collect();
        let bytes = encode_bytes(&image, 8, 8, ColorType::RGB(8));
        let (pixels, info) = decode(&bytes);
        assert_eq!((info.width, info.height), (8, 8));
        for p in pixels {
            assert!((p as i32 - v as i32).abs() <= 2, "{} decoded as {}", v, p);
        }
    }
}

#[test]
fn smooth_gradient_roundtrip() {
    let mut image = Vec::new();
    for y in 0..16u32 {
        for x in 0..16u32 {
            image.push((8 * (x + y)) as u8);
        }
    }
    let bytes = encode_bytes(&image, 16, 16, ColorType::Gray(8));
    let (pixels, _) = decode(&bytes);
    for (i, p) in pixels.iter().enumerate() {
        let want = image[i] as i32;
        assert!(
            (*p as i32 - want).abs() <= 8,
            "pixel {} decoded as {}, wanted about {}",
            i,
            p,
            want
        );
    }
}

#[test]
fn pure_red_roundtrip() {
    let image: Vec<u8> = [[255u8, 0, 0]; 64].concat();
    let bytes = encode_bytes(&image, 8, 8, ColorType::RGB(8));
    let (pixels, info) = decode(&bytes);
    assert_eq!(info.pixel_format, jpeg_decoder::PixelFormat::RGB24);
    for px in pixels.chunks(3) {
        assert!(px[0] as i32 >= 247, "red channel too low: {}", px[0]);
        assert!(px[1] as i32 <= 8, "green channel too high: {}", px[1]);
        assert!(px[2] as i32 <= 8, "blue channel too high: {}", px[2]);
    }
}

#[test]
fn odd_dimensions_clamp_and_crop() {
    // 10x10 is not a multiple of 8: the encoder pads by clamping to the last
    // valid sample; the decoder crops back to 10x10 and the interior pixels
    // survive within the round-trip tolerance.
    let mut image = Vec::new();
    for y in 0..10u32 {
        for x in 0..10u32 {
            image.push(if (x + y) % 2 == 0 { 96 } else { 160 });
        }
    }
    let bytes = encode_bytes(&image, 10, 10, ColorType::Gray(8));
    let (pixels, info) = decode(&bytes);
    assert_eq!((info.width, info.height), (10, 10));
    assert_eq!(pixels.len(), 100);
    let mut total_err: i64 = 0;
    for (i, p) in pixels.iter().enumerate() {
        total_err += (*p as i64 - image[i] as i64).abs();
    }
    assert!(total_err / 100 <= 40, "average error too large: {}", total_err / 100);
}

#[test]
fn single_pixel_file_is_valid() {
    let bytes = encode_bytes(&[200u8], 1, 1, ColorType::Gray(8));
    let (pixels, info) = decode(&bytes);
    assert_eq!((info.width, info.height), (1, 1));
    assert!((pixels[0] as i32 - 200).abs() <= 8);
}
