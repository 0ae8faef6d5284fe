use base64::Engine;

use filesaver::mime::classify_file_type;
use filesaver::mime::FileType;
use filesaver::save::plan_save_file;
use filesaver::transcode::webp_to_avif;
use filesaver::transcode::webp_to_jxl;

fn b64(s: &[u8]) -> Vec<u8> {
    base64::prelude::BASE64_STANDARD.encode(s).into_bytes()
}

/// A small lossless WebP image: `width` x `height`, with a deterministic
/// RGB gradient.
fn sample_webp(width: u32, height: u32) -> Vec<u8> {
    let mut rgb = Vec::new();
    for y in 0..height {
        for x in 0..width {
            rgb.push((x * 31 % 256) as u8);
            rgb.push((y * 57 % 256) as u8);
            rgb.push(((x + y) * 11 % 256) as u8);
        }
    }
    let mut out = Vec::new();
    image::codecs::webp::WebPEncoder::new_lossless(std::io::Cursor::new(&mut out))
        .encode(&rgb, width, height, image::ExtendedColorType::Rgb8)
        .unwrap();
    out
}

/// Extract the width and height recorded in the `ispe` box of an AVIF file.
fn avif_dimensions(data: &[u8]) -> Option<(u32, u32)> {
    let pat = b"ispe";
    for i in 0..data.len().saturating_sub(16) {
        if &data[i..i + 4] == pat {
            let w = u32::from_be_bytes([data[i + 8], data[i + 9], data[i + 10], data[i + 11]]);
            let h = u32::from_be_bytes([data[i + 12], data[i + 13], data[i + 14], data[i + 15]]);
            return Some((w, h));
        }
    }
    None
}

#[test]
fn unrecognized_type_written_unchanged() {
    let body: Vec<u8> = (0u16..600).map(|i| (i % 251) as u8).collect();
    let plan = plan_save_file(
        Some(body.clone()),
        Some(b64(b"out/raw.bin")),
        Some(b64(b"application/octet-stream")),
    )
    .unwrap();
    assert_eq!(plan.path, "out/raw.bin");
    assert_eq!(plan.bytes, body);
}

#[test]
fn empty_body_with_unknown_type_written_unchanged() {
    let plan = plan_save_file(
        Some(Vec::new()),
        Some(b64(b"empty.bin")),
        Some(b64(b"text/plain")),
    )
    .unwrap();
    assert_eq!(plan.path, "empty.bin");
    assert!(plan.bytes.is_empty());
}

#[test]
fn avif_type_produces_valid_avif_of_same_dimensions() {
    let body = sample_webp(16, 12);
    let plan = plan_save_file(
        Some(body),
        Some(b64(b"picture.avif")),
        Some(b64(b"image/avif")),
    )
    .unwrap();
    assert_eq!(plan.path, "picture.avif");
    // An AVIF file is an ISO-BMFF container whose first box is `ftyp` with
    // the `avif` brand.
    assert_eq!(&plan.bytes[4..8], b"ftyp");
    assert_eq!(&plan.bytes[8..12], b"avif");
    assert_eq!(avif_dimensions(&plan.bytes), Some((16, 12)));
}

#[test]
fn jpeg_xl_type_produces_valid_jxl_of_same_dimensions() {
    let body = sample_webp(16, 12);
    let plan = plan_save_file(
        Some(body),
        Some(b64(b"picture.jxl")),
        Some(b64(b"image/jpeg-xl")),
    )
    .unwrap();
    assert_eq!(plan.path, "picture.jxl");
    let decoded = jxl_oxide::JxlImage::builder().read(&plan.bytes[..]).unwrap();
    assert_eq!(decoded.width(), 16);
    assert_eq!(decoded.height(), 12);
}

#[test]
fn missing_path_header_fails() {
    let r = plan_save_file(Some(vec![1, 2, 3]), None, Some(b64(b"text/plain")));
    assert!(r.is_err());
}

#[test]
fn missing_type_header_fails() {
    let r = plan_save_file(Some(vec![1, 2, 3]), Some(b64(b"file.bin")), None);
    assert!(r.is_err());
}

#[test]
fn non_utf8_path_header_fails() {
    // 0xff 0xfe is not valid UTF-8, though it is valid base64 payload.
    let r = plan_save_file(
        Some(vec![1, 2, 3]),
        Some(b64(&[0xff, 0xfe, 0x01])),
        Some(b64(b"text/plain")),
    );
    assert!(r.is_err());
}

#[test]
fn non_utf8_type_header_fails() {
    let r = plan_save_file(
        Some(vec![1, 2, 3]),
        Some(b64(b"file.bin")),
        Some(b64(&[0xc0, 0xaf])),
    );
    assert!(r.is_err());
}

#[test]
fn invalid_base64_header_fails() {
    let r = plan_save_file(
        Some(vec![1, 2, 3]),
        Some(b"not base64!".to_vec()),
        Some(b64(b"text/plain")),
    );
    assert!(r.is_err());
}

#[test]
fn non_raw_body_fails() {
    let r = plan_save_file(None, Some(b64(b"file.bin")), Some(b64(b"text/plain")));
    assert!(r.is_err());
}

#[test]
fn avif_type_with_undecodable_payload_fails() {
    let r = plan_save_file(
        Some(vec![0u8; 64]),
        Some(b64(b"picture.avif")),
        Some(b64(b"image/avif")),
    );
    assert!(r.is_err());
}

#[test]
fn jpeg_xl_type_with_undecodable_payload_fails() {
    let r = plan_save_file(
        Some(vec![0u8; 64]),
        Some(b64(b"picture.jxl")),
        Some(b64(b"image/jpeg-xl")),
    );
    assert!(r.is_err());
}

#[test]
fn jpeg_xl_rejects_one_pixel_image() {
    // The JPEG XL encoder asks for both dimensions to be at least two.
    let body = sample_webp(1, 1);
    let r = plan_save_file(
        Some(body),
        Some(b64(b"tiny.jxl")),
        Some(b64(b"image/jpeg-xl")),
    );
    assert!(r.is_err());
}

#[test]
fn classify_recognizes_the_two_conversion_types() {
    assert!(matches!(
        classify_file_type(&b"image/avif".to_vec()),
        FileType::Avif
    ));
    assert!(matches!(
        classify_file_type(&b"image/jpeg-xl".to_vec()),
        FileType::JpegXl
    ));
    assert!(matches!(
        classify_file_type(&b"image/png".to_vec()),
        FileType::Other
    ));
    assert!(matches!(classify_file_type(&Vec::new()), FileType::Other));
}

#[test]
fn transcode_jxl_directly() {
    let data = sample_webp(8, 8);
    let out = webp_to_jxl(&data).unwrap();
    let decoded = jxl_oxide::JxlImage::builder().read(&out[..]).unwrap();
    assert_eq!(decoded.width(), 8);
    assert_eq!(decoded.height(), 8);
    assert!(webp_to_jxl(&vec![0u8; 10]).is_err());
}

#[test]
fn transcode_avif_directly() {
    let data = sample_webp(8, 8);
    let out = webp_to_avif(&data).unwrap();
    assert_eq!(&out[4..8], b"ftyp");
    assert!(webp_to_avif(&vec![0u8; 10]).is_err());
}
