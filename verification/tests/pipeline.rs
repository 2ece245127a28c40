use api_s3::services::errors::ImageProcessingError;
use api_s3::services::image_processor::decoder::{
    decode_image, fallback_result, is_jpeg, is_webp, jpeg_result, webp_result, FallbackPixels, RawImage,
};
use api_s3::services::image_processor::encoder::{encode_image, encoded_result, WebpFault};
use api_s3::services::image_processor::extract_dimensions;
use api_s3::services::image_processor::resizer::{extract_pixels, resize_image, resized_result, PixelType, ResizeFault};
use std::io::Cursor;

fn png_rgb(w: u32, h: u32) -> Vec<u8> {
    let img = image::ImageBuffer::from_fn(w, h, |x, y| image::Rgb([(x * 7) as u8, (y * 5) as u8, 90u8]));
    let mut bytes = Vec::new();
    img.write_to(&mut Cursor::new(&mut bytes), image::ImageFormat::Png).unwrap();
    bytes
}

fn png_rgba(w: u32, h: u32) -> Vec<u8> {
    let img = image::ImageBuffer::from_fn(w, h, |_, _| image::Rgba([1u8, 2, 3, 4]));
    let mut bytes = Vec::new();
    img.write_to(&mut Cursor::new(&mut bytes), image::ImageFormat::Png).unwrap();
    bytes
}

fn png_luma(w: u32, h: u32) -> Vec<u8> {
    let img = image::ImageBuffer::from_fn(w, h, |_, _| image::Luma([128u8]));
    let mut bytes = Vec::new();
    img.write_to(&mut Cursor::new(&mut bytes), image::ImageFormat::Png).unwrap();
    bytes
}

fn jpeg_rgb(w: u32, h: u32) -> Vec<u8> {
    let img = image::ImageBuffer::from_fn(w, h, |x, _| image::Rgb([(x * 3) as u8, 40u8, 200u8]));
    let mut bytes = Vec::new();
    img.write_to(&mut Cursor::new(&mut bytes), image::ImageFormat::Jpeg).unwrap();
    bytes
}

#[test]
fn signatures() {
    assert!(is_webp(b"RIFF\0\0\0\0WEBPVP8 "));
    assert!(!is_webp(b"RIFF\0\0\0\0WEBP"[..11].as_ref()));
    assert!(!is_webp(b"RIFX\0\0\0\0WEBP"));
    assert!(is_jpeg(&[0xFF, 0xD8, 0xFF]));
    assert!(!is_jpeg(&[0xFF, 0xD8]));
    assert!(!is_jpeg(&[0x89, 0x50, 0x4E]));
}

#[test]
fn dimensions_of_png() {
    assert_eq!(extract_dimensions(&png_rgb(40, 30)).unwrap(), (40, 30));
    assert!(matches!(extract_dimensions(b"not an image"), Err(ImageProcessingError::DecodeError(_))));
}

#[test]
fn decode_png_layouts() {
    match decode_image(&png_rgb(4, 3)).unwrap() {
        RawImage::Fallback { width: 4, height: 3, pixels: FallbackPixels::Rgb8(p) } => assert_eq!(p.len(), 36),
        _ => panic!("expected RGB fallback"),
    }
    match decode_image(&png_rgba(2, 2)).unwrap() {
        RawImage::Fallback { width: 2, height: 2, pixels: FallbackPixels::Rgba8(p) } => {
            assert_eq!(p, vec![1, 2, 3, 4, 1, 2, 3, 4, 1, 2, 3, 4, 1, 2, 3, 4])
        }
        _ => panic!("expected RGBA fallback"),
    }
    let luma = decode_image(&png_luma(2, 2)).unwrap();
    assert!(matches!(luma, RawImage::Fallback { pixels: FallbackPixels::Other, .. }));
    let e = extract_pixels(&luma).unwrap_err();
    assert!(matches!(&e, ImageProcessingError::InternalError(m) if m == "Unsupported DynamicImage type"));
}

#[test]
fn decode_jpeg_with_zune() {
    let img = decode_image(&jpeg_rgb(16, 8)).unwrap();
    assert_eq!((img.width(), img.height()), (16, 8));
    match img {
        RawImage::Jpeg { data, .. } => assert_eq!(data.len(), 16 * 8 * 3),
        _ => panic!("expected zune-jpeg output"),
    }
}

#[test]
fn decode_failures() {
    assert!(matches!(decode_image(b"garbage"), Err(ImageProcessingError::DecodeError(_))));
    let e = decode_image(b"RIFF\0\0\0\0WEBPjunkjunk").unwrap_err();
    assert!(matches!(&e, ImageProcessingError::DecodeError(m) if m == "Failed to decode WebP"));
    // A broken JPEG falls back to the general decoder, which rejects it too.
    assert!(matches!(decode_image(&[0xFF, 0xD8, 0x00, 0x01]), Err(ImageProcessingError::DecodeError(_))));
}

#[test]
fn decoder_answers() {
    assert!(matches!(
        webp_result(Some((2, 1, true, vec![0; 8]))),
        Ok(RawImage::WebP { width: 2, height: 1, has_alpha: true, .. })
    ));
    assert!(matches!(webp_result(None), Err(ImageProcessingError::DecodeError(_))));
    assert!(jpeg_result(None).is_none());
    assert!(matches!(jpeg_result(Some((3, 4, vec![]))), Some(Ok(RawImage::Jpeg { width: 3, height: 4, .. }))));
    let e = fallback_result(Err("Format error".into())).unwrap_err();
    assert!(matches!(&e, ImageProcessingError::DecodeError(m) if m == "Format error"));
}

#[test]
fn resize_png() {
    let img = decode_image(&png_rgb(40, 30)).unwrap();
    let (out, pt) = resize_image(&img, 40, 30, 20, 15).unwrap();
    assert_eq!(pt, PixelType::U8x3);
    assert_eq!(out.len(), 20 * 15 * 3);
    let rgba = decode_image(&png_rgba(8, 8)).unwrap();
    let (out, pt) = resize_image(&rgba, 8, 8, 3, 5).unwrap();
    assert_eq!(pt, PixelType::U8x4);
    assert_eq!(out.len(), 3 * 5 * 4);
}

#[test]
fn resize_failures() {
    let img = RawImage::Jpeg { width: 4, height: 4, data: vec![0; 48] };
    let e = resize_image(&img, 4, 4, 0, 2).unwrap_err();
    assert!(matches!(&e, ImageProcessingError::InternalError(m) if m == "Image dimension is 0"));
    let short = RawImage::Jpeg { width: 4, height: 4, data: vec![0; 10] };
    let e = resize_image(&short, 4, 4, 2, 2).unwrap_err();
    assert!(matches!(&e, ImageProcessingError::InternalError(m) if m.starts_with("Failed to create source image ref: ")));
    let e = resized_result(Err(ResizeFault::Failed("X".into())), PixelType::U8x3).unwrap_err();
    assert!(matches!(&e, ImageProcessingError::InternalError(m) if m == "Resize failed: X"));
}

#[test]
fn encode_and_decode_back() {
    let pixels: Vec<u8> = (0..(20 * 15 * 3)).map(|i| (i % 251) as u8).collect();
    let webp = encode_image(&pixels, 20, 15, PixelType::U8x3, 80).unwrap();
    assert_eq!(&webp[0..4], b"RIFF");
    assert_eq!(&webp[8..12], b"WEBP");
    assert!(is_webp(&webp));
    match decode_image(&webp).unwrap() {
        RawImage::WebP { width, height, has_alpha, pixels } => {
            assert_eq!((width, height, has_alpha), (20, 15, false));
            assert_eq!(pixels.len(), 20 * 15 * 3);
        }
        _ => panic!("expected libwebp output"),
    }
    assert_eq!(extract_dimensions(&webp).unwrap(), (20, 15));
}

#[test]
fn encode_refusals() {
    let e = encode_image(&[0; 12], 2, 2, PixelType::Other, 80).unwrap_err();
    assert!(matches!(&e, ImageProcessingError::EncodeError(m) if m == "Unsupported pixel type for encoding"));
    let e = encoded_result(Err(WebpFault::ConfigInit)).unwrap_err();
    assert!(matches!(&e, ImageProcessingError::EncodeError(m) if m == "WebPConfig init failed"));
    let e = encoded_result(Err(WebpFault::Encode("VP8_ENC_ERROR_BAD_DIMENSION".into()))).unwrap_err();
    assert!(matches!(&e, ImageProcessingError::EncodeError(m) if m == "WebP encode failed: VP8_ENC_ERROR_BAD_DIMENSION"));
}

#[test]
fn encode_refuses_other_layout_at_any_width() {
    let e = encode_image(&[], 600_000_000, 0, PixelType::Other, 80).unwrap_err();
    assert!(matches!(&e, ImageProcessingError::EncodeError(m) if m == "Unsupported pixel type for encoding"));
}

#[test]
fn unknown_format_is_reported_as_such() {
    let e = extract_dimensions(b"not an image").unwrap_err();
    assert!(matches!(&e, ImageProcessingError::DecodeError(m) if m == "The image format could not be determined"));
    let e = decode_image(b"not an image").unwrap_err();
    assert!(matches!(&e, ImageProcessingError::DecodeError(m) if m == "The image format could not be determined"));
}
