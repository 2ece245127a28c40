//! Decoding source images: WebP through libwebp, JPEG through zune-jpeg,
//! anything else (and JPEGs zune-jpeg rejects) through the `image` crate.

use vstd::prelude::*;
use crate::services::errors::{ImageProcessingError, ProcessingFault};
use crate::text::string_of;

verus! {

broadcast use vstd::string::group_string_axioms;

/// The pixels of an image decoded by the `image` crate, by layout: 8-bit
/// RGB, 8-bit RGBA, or any other layout (whose pixels the pipeline does not use).
#[derive(Debug)]
pub enum FallbackPixels {
    Rgb8(Vec<u8>),
    Rgba8(Vec<u8>),
    Other,
}

/// A decoded source image, by the decoder that produced it.
#[derive(Debug)]
pub enum RawImage {
    /// Decoded by libwebp: RGBA pixels when the image has alpha, RGB otherwise.
    WebP { width: u32, height: u32, has_alpha: bool, pixels: Vec<u8> },
    /// Decoded by zune-jpeg: RGB pixels.
    Jpeg { width: u32, height: u32, data: Vec<u8> },
    /// Decoded by the `image` crate.
    Fallback { width: u32, height: u32, pixels: FallbackPixels },
}

/// The abstract value of [`FallbackPixels`].
pub enum FallbackPixelsView {
    Rgb8(Seq<u8>),
    Rgba8(Seq<u8>),
    Other,
}

/// The abstract value of a [`RawImage`].
pub enum RawImageView {
    WebP { width: u32, height: u32, has_alpha: bool, pixels: Seq<u8> },
    Jpeg { width: u32, height: u32, data: Seq<u8> },
    Fallback { width: u32, height: u32, pixels: FallbackPixelsView },
}

impl View for FallbackPixels {
    type V = FallbackPixelsView;

    open spec fn view(&self) -> FallbackPixelsView {
        match self {
            FallbackPixels::Rgb8(p) => FallbackPixelsView::Rgb8(p@),
            FallbackPixels::Rgba8(p) => FallbackPixelsView::Rgba8(p@),
            FallbackPixels::Other => FallbackPixelsView::Other,
        }
    }
}

impl View for RawImage {
    type V = RawImageView;

    open spec fn view(&self) -> RawImageView {
        match self {
            RawImage::WebP { width, height, has_alpha, pixels } =>
                RawImageView::WebP { width: *width, height: *height, has_alpha: *has_alpha, pixels: pixels@ },
            RawImage::Jpeg { width, height, data } =>
                RawImageView::Jpeg { width: *width, height: *height, data: data@ },
            RawImage::Fallback { width, height, pixels } =>
                RawImageView::Fallback { width: *width, height: *height, pixels: pixels@ },
        }
    }
}

impl RawImageView {
    pub open spec fn width(self) -> u32 {
        match self {
            RawImageView::WebP { width, .. } => width,
            RawImageView::Jpeg { width, .. } => width,
            RawImageView::Fallback { width, .. } => width,
        }
    }

    pub open spec fn height(self) -> u32 {
        match self {
            RawImageView::WebP { height, .. } => height,
            RawImageView::Jpeg { height, .. } => height,
            RawImageView::Fallback { height, .. } => height,
        }
    }
}

impl RawImage {
    /// The width of the image in pixels.
    pub fn width(&self) -> (w: u32)
        ensures
            w == self@.width(),
    {
        match self {
            RawImage::WebP { width, .. } => *width,
            RawImage::Jpeg { width, .. } => *width,
            RawImage::Fallback { width, .. } => *width,
        }
    }

    /// The height of the image in pixels.
    pub fn height(&self) -> (h: u32)
        ensures
            h == self@.height(),
    {
        match self {
            RawImage::WebP { height, .. } => *height,
            RawImage::Jpeg { height, .. } => *height,
            RawImage::Fallback { height, .. } => *height,
        }
    }
}

/// What libwebp's decoder returns for `data`: width, height, whether the
/// image has alpha, and the decoded pixels; `None` when it rejects the data.
pub uninterp spec fn webp_decoding(data: Seq<u8>) -> Option<(u32, u32, bool, Seq<u8>)>;

/// What zune-jpeg returns for `data`: width, height and the decoded pixels;
/// `None` when decoding fails or yields no dimensions.
pub uninterp spec fn jpeg_decoding(data: Seq<u8>) -> Option<(usize, usize, Seq<u8>)>;

/// What the `image` crate's built-in decoders return for `data`, in the
/// format its built-in signatures give: width, height and the pixels by
/// layout, or the message of its error.
pub uninterp spec fn image_decoding(data: Seq<u8>) -> Result<(u32, u32, FallbackPixelsView), Seq<char>>;

/// Decodes `data` with `webp::Decoder::decode`. The result is a function of
/// `data` alone, named `webp_decoding`; what libwebp computes is not stated.
#[verifier::external_body]
fn webp_decode(data: &[u8]) -> (r: Option<(u32, u32, bool, Vec<u8>)>)
    ensures
        match r {
            Some((w, h, a, p)) => webp_decoding(data@) == Some((w, h, a, p@)),
            None => webp_decoding(data@) is None,
        },
{
    match webp::Decoder::new(data).decode() {
        Some(img) => Some((img.width(), img.height(), img.is_alpha(), img.to_vec())),
        None => None,
    }
}

/// Decodes `data` with `zune_jpeg::JpegDecoder::decode`, then reads
/// `dimensions`. The result is a function of `data` alone, named
/// `jpeg_decoding`; what zune-jpeg computes is not stated.
#[verifier::external_body]
fn jpeg_decode(data: &[u8]) -> (r: Option<(usize, usize, Vec<u8>)>)
    ensures
        match r {
            Some((w, h, p)) => jpeg_decoding(data@) == Some((w, h, p@)),
            None => jpeg_decoding(data@) is None,
        },
{
    let mut decoder = zune_jpeg::JpegDecoder::new(zune_core::bytestream::ZCursor::new(data));
    match decoder.decode() {
        Ok(pixels) => match decoder.dimensions() {
            Some((w, h)) => Some((w, h, pixels)),
            None => None,
        },
        Err(_) => None,
    }
}

/// Decodes `data` with the `image` crate: the format is taken from the
/// built-in signatures with `image::guess_format`, then the data is decoded
/// with `image::load_from_memory_with_format` in that format. The pixels of
/// 8-bit RGB and RGBA images are kept, and the message of an error. Neither
/// call consults the crate's process-wide format hooks, so the result is a
/// function of `data` alone, named `image_decoding`; what the `image` crate
/// computes is not stated.
#[verifier::external_body]
fn image_load(data: &[u8]) -> (r: Result<(u32, u32, FallbackPixels), String>)
    ensures
        match r {
            Ok((w, h, p)) => image_decoding(data@) == Ok::<(u32, u32, FallbackPixelsView), Seq<char>>((w, h, p@)),
            Err(m) => image_decoding(data@) == Err::<(u32, u32, FallbackPixelsView), Seq<char>>(m@),
        },
{
    let format = image::guess_format(data).map_err(|e| e.to_string())?;
    match image::load_from_memory_with_format(data, format) {
        Ok(img) => {
            let (w, h) = (img.width(), img.height());
            let pixels = match img {
                image::DynamicImage::ImageRgb8(b) => FallbackPixels::Rgb8(b.into_raw()),
                image::DynamicImage::ImageRgba8(b) => FallbackPixels::Rgba8(b.into_raw()),
                _ => FallbackPixels::Other,
            };
            Ok((w, h, pixels))
        },
        Err(e) => Err(e.to_string()),
    }
}

/// `data` starts like a WebP file: `RIFF`, four size bytes, `WEBP`.
pub open spec fn looks_like_webp(data: Seq<u8>) -> bool {
    &&& data.len() >= 12
    &&& data[0] == 0x52u8 && data[1] == 0x49u8 && data[2] == 0x46u8 && data[3] == 0x46u8
    &&& data[8] == 0x57u8 && data[9] == 0x45u8 && data[10] == 0x42u8 && data[11] == 0x50u8
}

/// `data` starts like a JPEG file (`FF D8`) and is longer than two bytes.
pub open spec fn looks_like_jpeg(data: Seq<u8>) -> bool {
    data.len() > 2 && data[0] == 0xFFu8 && data[1] == 0xD8u8
}

/// The decoded image, or the decode error, that libwebp's answer gives.
pub open spec fn webp_outcome(frame: Option<(u32, u32, bool, Seq<u8>)>) -> Result<RawImageView, ProcessingFault> {
    match frame {
        Some((w, h, a, p)) => Ok(RawImageView::WebP { width: w, height: h, has_alpha: a, pixels: p }),
        None => Err(ProcessingFault::Decode("Failed to decode WebP"@)),
    }
}

/// The decoded image, or the decode error, that zune-jpeg's answer gives;
/// `None` when the data has to go to the general decoder instead.
pub open spec fn jpeg_outcome(frame: Option<(usize, usize, Seq<u8>)>) -> Option<Result<RawImageView, ProcessingFault>> {
    match frame {
        Some((w, h, p)) => if w <= u32::MAX && h <= u32::MAX {
            Some(Ok(RawImageView::Jpeg { width: w as u32, height: h as u32, data: p }))
        } else {
            Some(Err(ProcessingFault::Decode("Failed to decode JPEG"@)))
        },
        None => None,
    }
}

/// The decoded image, or the decode error, that the `image` crate's answer gives.
pub open spec fn fallback_outcome(r: Result<(u32, u32, FallbackPixelsView), Seq<char>>) -> Result<RawImageView, ProcessingFault> {
    match r {
        Ok((w, h, p)) => Ok(RawImageView::Fallback { width: w, height: h, pixels: p }),
        Err(m) => Err(ProcessingFault::Decode(m)),
    }
}

/// What decoding `data` gives: WebP data goes to libwebp, JPEG data to
/// zune-jpeg (falling back to the general decoder when zune-jpeg fails),
/// anything else to the general decoder.
pub open spec fn decode_outcome(data: Seq<u8>) -> Result<RawImageView, ProcessingFault> {
    if looks_like_webp(data) {
        webp_outcome(webp_decoding(data))
    } else if looks_like_jpeg(data) {
        match jpeg_outcome(jpeg_decoding(data)) {
            Some(r) => r,
            None => fallback_outcome(image_decoding(data)),
        }
    } else {
        fallback_outcome(image_decoding(data))
    }
}

/// Views a decode result by its abstract values.
pub open spec fn decoded_view(r: Result<RawImage, ImageProcessingError>) -> Result<RawImageView, ProcessingFault> {
    match r {
        Ok(img) => Ok(img@),
        Err(e) => Err(e@),
    }
}

/// Whether `data` starts like a WebP file.
pub fn is_webp(data: &[u8]) -> (r: bool)
    ensures
        r == looks_like_webp(data@),
{
    data.len() >= 12
        && data[0] == 0x52u8 && data[1] == 0x49u8 && data[2] == 0x46u8 && data[3] == 0x46u8
        && data[8] == 0x57u8 && data[9] == 0x45u8 && data[10] == 0x42u8 && data[11] == 0x50u8
}

/// Whether `data` starts like a JPEG file.
pub fn is_jpeg(data: &[u8]) -> (r: bool)
    ensures
        r == looks_like_jpeg(data@),
{
    data.len() > 2 && data[0] == 0xFFu8 && data[1] == 0xD8u8
}

/// Turns libwebp's answer into the decoded image or a decode error.
pub fn webp_result(frame: Option<(u32, u32, bool, Vec<u8>)>) -> (r: Result<RawImage, ImageProcessingError>)
    ensures
        decoded_view(r) == webp_outcome(match frame {
            Some((w, h, a, p)) => Some((w, h, a, p@)),
            None => None,
        }),
{
    match frame {
        Some((width, height, has_alpha, pixels)) => Ok(RawImage::WebP { width, height, has_alpha, pixels }),
        None => Err(ImageProcessingError::DecodeError(string_of("Failed to decode WebP"))),
    }
}

/// Turns zune-jpeg's answer into the decoded image or a decode error;
/// `None` sends the data to the general decoder.
pub fn jpeg_result(frame: Option<(usize, usize, Vec<u8>)>) -> (r: Option<Result<RawImage, ImageProcessingError>>)
    ensures
        match r {
            Some(x) => jpeg_outcome(match frame {
                Some((w, h, p)) => Some((w, h, p@)),
                None => None,
            }) == Some(decoded_view(x)),
            None => frame is None,
        },
{
    match frame {
        Some((w, h, data)) => {
            if w > 0xFFFF_FFFFusize || h > 0xFFFF_FFFFusize {
                Some(Err(ImageProcessingError::DecodeError(string_of("Failed to decode JPEG"))))
            } else {
                Some(Ok(RawImage::Jpeg { width: w as u32, height: h as u32, data }))
            }
        },
        None => None,
    }
}

/// Turns the `image` crate's answer into the decoded image or a decode error.
pub fn fallback_result(r: Result<(u32, u32, FallbackPixels), String>) -> (out: Result<RawImage, ImageProcessingError>)
    ensures
        decoded_view(out) == fallback_outcome(match r {
            Ok((w, h, p)) => Ok((w, h, p@)),
            Err(m) => Err(m@),
        }),
{
    match r {
        Ok((width, height, pixels)) => Ok(RawImage::Fallback { width, height, pixels }),
        Err(m) => Err(ImageProcessingError::DecodeError(m)),
    }
}

fn decode_fallback(data: &[u8]) -> (r: Result<RawImage, ImageProcessingError>)
    ensures
        decoded_view(r) == fallback_outcome(image_decoding(data@)),
{
    fallback_result(image_load(data))
}

/// Decodes an image from its file bytes.
pub fn decode_image(data: &[u8]) -> (r: Result<RawImage, ImageProcessingError>)
    ensures
        decoded_view(r) == decode_outcome(data@),
{
    if is_webp(data) {
        return webp_result(webp_decode(data));
    }
    if is_jpeg(data) {
        match jpeg_result(jpeg_decode(data)) {
            Some(r) => return r,
            None => {},
        }
    }
    decode_fallback(data)
}

} // verus!
