//! Encoding resized pixels to lossy WebP with libwebp.

use vstd::prelude::*;
use crate::services::errors::{ImageProcessingError, ProcessingFault};
use crate::services::image_processor::resizer::{PixelType, bytes_per_pixel};
use crate::text::{concat2, string_of};

verus! {

broadcast use vstd::string::group_string_axioms;

/// The libwebp compression method used: 0, the fastest.
pub const FASTEST_METHOD: i32 = 0;

/// Why the WebP encoder failed: its configuration could not be initialised,
/// or encoding failed (with the encoder's error code).
pub enum WebpFault {
    ConfigInit,
    Encode(String),
}

/// The abstract value of a [`WebpFault`].
pub enum WebpFaultView {
    ConfigInit,
    Encode(Seq<char>),
}

impl View for WebpFault {
    type V = WebpFaultView;

    open spec fn view(&self) -> WebpFaultView {
        match self {
            WebpFault::ConfigInit => WebpFaultView::ConfigInit,
            WebpFault::Encode(m) => WebpFaultView::Encode(m@),
        }
    }
}

/// What libwebp returns when encoding the `width`x`height` pixels `data` of
/// layout `pt` at `quality` with compression `method`.
pub uninterp spec fn webp_encoding(data: Seq<u8>, width: u32, height: u32, pt: PixelType, quality: u8, method: i32) -> Result<Seq<u8>, WebpFaultView>;

/// The row stride of a `width`-pixel row of layout `pt`, as libwebp's
/// bindings compute it in an `i32`, does not overflow.
pub open spec fn stride_fits(width: u32, pt: PixelType) -> bool {
    width as int * bytes_per_pixel(pt) <= i32::MAX
}

/// Encodes with libwebp: `webp::Encoder::new` with the RGB or RGBA layout,
/// a `WebPConfig::new` whose `quality` is set from `quality` and whose
/// `method` is `method`, then `Encoder::encode_advanced`. The result is a
/// function of the arguments alone, named `webp_encoding`; the encoded bytes
/// are not stated. `Encoder::new` panics when `data` is shorter than
/// `width * height` pixels, and the bindings compute the row stride as
/// `width as i32` times the bytes per pixel; the precondition rules out both
/// the short buffer and an overflowing stride.
#[verifier::external_body]
fn webp_encode(data: &[u8], width: u32, height: u32, pt: PixelType, quality: u8, method: i32) -> (r: Result<Vec<u8>, WebpFault>)
    requires
        pt != PixelType::Other,
        data@.len() >= width as nat * height as nat * bytes_per_pixel(pt),
        stride_fits(width, pt),
    ensures
        match r {
            Ok(v) => webp_encoding(data@, width, height, pt, quality, method) == Ok::<Seq<u8>, WebpFaultView>(v@),
            Err(f) => webp_encoding(data@, width, height, pt, quality, method) == Err::<Seq<u8>, WebpFaultView>(f@),
        },
{
    let layout = match pt {
        PixelType::U8x3 => webp::PixelLayout::Rgb,
        _ => webp::PixelLayout::Rgba,
    };
    let encoder = webp::Encoder::new(data, layout, width, height);
    let mut config = webp::WebPConfig::new().map_err(|()| WebpFault::ConfigInit)?;
    config.quality = quality.into();
    config.method = method;
    let encoded = encoder.encode_advanced(&config).map_err(|e| WebpFault::Encode(format!("{e:?}")))?;
    Ok(encoded.to_vec())
}

/// What encoding gives: an unsupported layout is refused, a libwebp failure
/// becomes an encode error, otherwise the WebP bytes.
pub open spec fn encode_outcome(data: Seq<u8>, width: u32, height: u32, pt: PixelType, quality: u8) -> Result<Seq<u8>, ProcessingFault> {
    if pt == PixelType::Other {
        Err(ProcessingFault::Encode("Unsupported pixel type for encoding"@))
    } else {
        match webp_encoding(data, width, height, pt, quality, FASTEST_METHOD) {
            Ok(out) => Ok(out),
            Err(WebpFaultView::ConfigInit) => Err(ProcessingFault::Encode("WebPConfig init failed"@)),
            Err(WebpFaultView::Encode(m)) => Err(ProcessingFault::Encode("WebP encode failed: "@ + m)),
        }
    }
}

/// Views an encode result by its abstract values.
pub open spec fn encoded_view(r: Result<Vec<u8>, ImageProcessingError>) -> Result<Seq<u8>, ProcessingFault> {
    match r {
        Ok(v) => Ok(v@),
        Err(e) => Err(e@),
    }
}

/// Turns libwebp's answer into the encoded bytes or an encode error.
pub fn encoded_result(r: Result<Vec<u8>, WebpFault>) -> (out: Result<Vec<u8>, ImageProcessingError>)
    ensures
        match r {
            Ok(v) => out matches Ok(o) && o@ == v@,
            Err(WebpFault::ConfigInit) => out matches Err(e) && e@ == ProcessingFault::Encode("WebPConfig init failed"@),
            Err(WebpFault::Encode(m)) => out matches Err(e) && e@ == ProcessingFault::Encode("WebP encode failed: "@ + m@),
        },
{
    match r {
        Ok(v) => Ok(v),
        Err(WebpFault::ConfigInit) => Err(ImageProcessingError::EncodeError(string_of("WebPConfig init failed"))),
        Err(WebpFault::Encode(m)) => Err(ImageProcessingError::EncodeError(concat2("WebP encode failed: ", m.as_str()))),
    }
}

/// Encodes the `width`x`height` pixels `data` of layout `pixel_type` to lossy
/// WebP at `quality`, with the fastest compression method.
pub fn encode_image(data: &[u8], width: u32, height: u32, pixel_type: PixelType, quality: u8) -> (r: Result<Vec<u8>, ImageProcessingError>)
    requires
        pixel_type != PixelType::Other ==> data@.len() >= width as nat * height as nat * bytes_per_pixel(pixel_type),
        pixel_type != PixelType::Other ==> stride_fits(width, pixel_type),
    ensures
        encoded_view(r) == encode_outcome(data@, width, height, pixel_type, quality),
{
    if pixel_type == PixelType::Other {
        return Err(ImageProcessingError::EncodeError(string_of("Unsupported pixel type for encoding")));
    }
    encoded_result(webp_encode(data, width, height, pixel_type, quality, FASTEST_METHOD))
}

} // verus!
