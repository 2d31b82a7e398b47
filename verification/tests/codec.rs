use pngpix::image::{Image, ImageError, ImageFormat};
use pngpix::limits::Limits;
use pngpix::rgb::Rgb;

/// CRC-32 as PNG uses it (IEEE polynomial, reflected).
fn crc32(data: &[u8]) -> u32 {
    let mut c: u32 = 0xffff_ffff;
    for &b in data {
        c ^= b as u32;
        for _ in 0..8 {
            if c & 1 != 0 {
                c = (c >> 1) ^ 0xedb8_8320;
            } else {
                c >>= 1;
            }
        }
    }
    c ^ 0xffff_ffff
}

fn chunk(kind: &[u8; 4], data: &[u8]) -> Vec<u8> {
    let mut out = Vec::new();
    out.extend_from_slice(&(data.len() as u32).to_be_bytes());
    out.extend_from_slice(kind);
    out.extend_from_slice(data);
    let mut body = kind.to_vec();
    body.extend_from_slice(data);
    out.extend_from_slice(&crc32(&body).to_be_bytes());
    out
}

/// A byte stream with a valid PNG signature and a valid IHDR declaring the
/// given dimensions (8-bit RGB), followed by an empty IDAT chunk.
fn png_with_header(width: u32, height: u32) -> Vec<u8> {
    let mut out = vec![0x89, b'P', b'N', b'G', 0x0d, 0x0a, 0x1a, 0x0a];
    let mut ihdr = Vec::new();
    ihdr.extend_from_slice(&width.to_be_bytes());
    ihdr.extend_from_slice(&height.to_be_bytes());
    ihdr.extend_from_slice(&[8, 2, 0, 0, 0]); // depth 8, RGB, deflate, adaptive, no interlace
    out.extend_from_slice(&chunk(b"IHDR", &ihdr));
    out.extend_from_slice(&chunk(b"IDAT", &[]));
    out
}

fn two_by_two() -> Image {
    let pixels = vec![
        Rgb::new(255, 0, 0),
        Rgb::new(0, 255, 0),
        Rgb::new(0, 0, 255),
        Rgb::new(255, 255, 255),
    ];
    Image::from_pixels(pixels, 2, 2)
}

#[test]
fn from_png_maps_to_corrupted_image() {
    let inner = std::io::Error::new(std::io::ErrorKind::UnexpectedEof, "eof");
    let e = png::DecodingError::from(inner);
    assert_eq!(ImageError::from_png(e), ImageError::CorruptedImage);
}

#[test]
fn sniffer_classifies_signatures() {
    let png = png_with_header(1, 1);
    assert_eq!(Image::guess_format(&png), Ok(ImageFormat::Png));
    assert_eq!(
        Image::guess_format(&[0xff, 0xd8, 0xff, 0xe0]),
        Ok(ImageFormat::Jpeg)
    );
    assert_eq!(Image::guess_format(b"GIF89a..."), Ok(ImageFormat::Gif));
    assert_eq!(Image::guess_format(b"GIF87a..."), Ok(ImageFormat::Gif));
    assert_eq!(Image::guess_format(b"RIFF....WEBP"), Ok(ImageFormat::WebP));
    assert_eq!(Image::guess_format(b"GIF88a"), Err(ImageError::Unsupported));
    assert_eq!(Image::guess_format(&[]), Err(ImageError::Unsupported));
}

#[test]
fn decode_rejects_non_png_signatures() {
    // one byte sequence per foreign signature: JPEG, GIF, WebP
    let jpeg = [0xffu8, 0xd8, 0xff, 0xe0, 0x00, 0x10];
    let gif = *b"GIF89a-not-really-a-gif";
    let webp = *b"RIFF\x24\x00\x00\x00WEBPVP8 ";
    for bytes in [&jpeg[..], &gif[..], &webp[..]] {
        let mut limits = Limits::default();
        match Image::load(bytes, &mut limits) {
            Err(ImageError::Unsupported) => {}
            other => panic!("expected Unsupported, got {:?}", other.map(|_| ())),
        }
        // nothing was reserved
        assert_eq!(limits.max_alloc, Limits::default().max_alloc);
    }
}

#[test]
fn decode_rejects_corrupted_png() {
    // correct signature, then garbage instead of chunk data
    let mut bytes = vec![0x89, b'P', b'N', b'G', 0x0d, 0x0a, 0x1a, 0x0a];
    bytes.extend_from_slice(&[0xde, 0xad, 0xbe, 0xef, 0x01, 0x02, 0x03, 0x04]);
    let mut limits = Limits::default();
    match Image::load(&bytes, &mut limits) {
        Err(ImageError::CorruptedImage) => {}
        other => panic!("expected CorruptedImage, got {:?}", other.map(|_| ())),
    }
}

#[test]
fn decode_rejects_truncated_stream() {
    // a valid header but no pixel data behind the empty IDAT
    let bytes = png_with_header(2, 2);
    let mut limits = Limits::default();
    match Image::load(&bytes, &mut limits) {
        Err(ImageError::CorruptedImage) => {}
        other => panic!("expected CorruptedImage, got {:?}", other.map(|_| ())),
    }
}

#[test]
fn decode_oversized_header_hits_alloc_limit() {
    // 20000 * 20000 * 3 bytes is over the default 512 MiB budget; the
    // header alone must trip the Limits error, with no rows behind it.
    let bytes = png_with_header(20000, 20000);
    let mut limits = Limits::default();
    match Image::load(&bytes, &mut limits) {
        Err(ImageError::Limits) => {}
        other => panic!("expected Limits, got {:?}", other.map(|_| ())),
    }
}

#[test]
fn decode_respects_small_alloc_budget() {
    let encoded = two_by_two().encode().unwrap();
    let mut limits = Limits {
        max_image_width: None,
        max_image_height: None,
        max_alloc: Some(11), // a 2x2 RGB image needs 12 bytes
    };
    match Image::load(&encoded, &mut limits) {
        Err(ImageError::Limits) => {}
        other => panic!("expected Limits, got {:?}", other.map(|_| ())),
    }
    assert_eq!(limits.max_alloc, Some(11));
}

#[test]
fn decode_respects_dimension_ceilings() {
    let encoded = two_by_two().encode().unwrap();
    let mut limits = Limits {
        max_image_width: Some(1),
        max_image_height: None,
        max_alloc: None,
    };
    match Image::load(&encoded, &mut limits) {
        Err(ImageError::Limits) => {}
        other => panic!("expected Limits, got {:?}", other.map(|_| ())),
    }
    let mut limits = Limits {
        max_image_width: None,
        max_image_height: Some(1),
        max_alloc: None,
    };
    match Image::load(&encoded, &mut limits) {
        Err(ImageError::Limits) => {}
        other => panic!("expected Limits, got {:?}", other.map(|_| ())),
    }
}

#[test]
fn decode_reserves_exactly_the_output_bytes() {
    let encoded = two_by_two().encode().unwrap();
    let mut limits = Limits::default();
    let img = Image::load(&encoded, &mut limits).unwrap();
    assert_eq!(img.width(), 2);
    assert_eq!(limits.max_alloc, Some(512 * 1024 * 1024 - 12));
}

#[test]
fn encode_decode_round_trip_is_exact() {
    let img = two_by_two();
    let encoded = img.encode().unwrap();
    assert_eq!(Image::guess_format(&encoded), Ok(ImageFormat::Png));
    let mut limits = Limits::default();
    let back = Image::load(&encoded, &mut limits).unwrap();
    assert_eq!(back.width(), 2);
    assert_eq!(back.height(), 2);
    assert_eq!(back.as_slice(), img.as_slice());
}

#[test]
fn encode_rejects_zero_dimension() {
    let empty = Image::from_pixels(Vec::new(), 0, 5);
    match empty.encode() {
        Err(ImageError::Unsupported) => {}
        other => panic!("expected Unsupported, got {:?}", other.map(|_| ())),
    }
}

#[test]
fn end_to_end_known_image() {
    // decode a known 2x2 PNG, inspect a corner, invert, inspect again
    let encoded = two_by_two().encode().unwrap();
    let mut limits = Limits::default();
    let img = Image::load(&encoded, &mut limits).unwrap();
    assert_eq!(img.width(), 2);
    assert_eq!(img.height(), 2);
    // full intensity red: the unit-range (1.0, 0.0, 0.0)
    assert_eq!(img.get_pixel(0, 0), Rgb::new(255, 0, 0));
    assert_eq!(img.get_pixel(1, 0), Rgb::new(0, 255, 0));
    assert_eq!(img.get_pixel(0, 1), Rgb::new(0, 0, 255));
    assert_eq!(img.get_pixel(1, 1), Rgb::new(255, 255, 255));
    let inv = img.invert();
    // the unit-range (0.0, 1.0, 1.0)
    assert_eq!(inv.get_pixel(0, 0), Rgb::new(0, 255, 255));
}

#[test]
fn decode_normalises_grayscale_to_rgb() {
    // write a 2x1 grayscale PNG with the png crate directly
    let mut encoded = Vec::new();
    {
        let mut enc = png::Encoder::new(&mut encoded, 2, 1);
        enc.set_color(png::ColorType::Grayscale);
        enc.set_depth(png::BitDepth::Eight);
        let mut w = enc.write_header().unwrap();
        w.write_image_data(&[40, 200]).unwrap();
        w.finish().unwrap();
    }
    let mut limits = Limits::default();
    let img = Image::load(&encoded, &mut limits).unwrap();
    assert_eq!(img.get_pixel(0, 0), Rgb::new(40, 40, 40));
    assert_eq!(img.get_pixel(1, 0), Rgb::new(200, 200, 200));
}

#[test]
fn decode_drops_alpha_channel() {
    let mut encoded = Vec::new();
    {
        let mut enc = png::Encoder::new(&mut encoded, 1, 2);
        enc.set_color(png::ColorType::Rgba);
        enc.set_depth(png::BitDepth::Eight);
        let mut w = enc.write_header().unwrap();
        w.write_image_data(&[1, 2, 3, 128, 4, 5, 6, 0]).unwrap();
        w.finish().unwrap();
    }
    let mut limits = Limits::default();
    let img = Image::load(&encoded, &mut limits).unwrap();
    assert_eq!(img.get_pixel(0, 0), Rgb::new(1, 2, 3));
    assert_eq!(img.get_pixel(0, 1), Rgb::new(4, 5, 6));
}

#[test]
fn decode_declines_sixteen_bit_depth() {
    let mut encoded = Vec::new();
    {
        let mut enc = png::Encoder::new(&mut encoded, 1, 1);
        enc.set_color(png::ColorType::Grayscale);
        enc.set_depth(png::BitDepth::Sixteen);
        let mut w = enc.write_header().unwrap();
        w.write_image_data(&[0x12, 0x34]).unwrap();
        w.finish().unwrap();
    }
    let mut limits = Limits::default();
    match Image::load(&encoded, &mut limits) {
        Err(ImageError::Unsupported) => {}
        other => panic!("expected Unsupported, got {:?}", other.map(|_| ())),
    }
}
