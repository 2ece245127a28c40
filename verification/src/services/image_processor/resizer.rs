//! Resizing decoded images with Lanczos3 convolution.

use vstd::prelude::*;
use fast_image_resize::images::{Image, ImageRef};
use fast_image_resize::{FilterType, ResizeAlg, ResizeOptions, Resizer};
use crate::services::errors::{ImageProcessingError, ProcessingFault};
use crate::services::image_processor::decoder::{FallbackPixels, FallbackPixelsView, RawImage, RawImageView};
use crate::text::{concat2, string_of};

verus! {

broadcast use vstd::string::group_string_axioms;

/// The layout of a pixel buffer: 8-bit RGB, 8-bit RGBA, or any other layout
/// (which the pipeline does not process).
#[derive(Clone, Copy, Debug, PartialEq, Eq, Structural)]
pub enum PixelType {
    U8x3,
    U8x4,
    Other,
}

/// Bytes per pixel of the layouts the pipeline processes.
pub open spec fn bytes_per_pixel(pt: PixelType) -> nat {
    match pt {
        PixelType::U8x3 => 3,
        PixelType::U8x4 => 4,
        PixelType::Other => 0,
    }
}

/// Why the resizer failed: the source buffer was refused, or the resize itself.
pub enum ResizeFault {
    InvalidSource(String),
    Failed(String),
}

/// The abstract value of a [`ResizeFault`].
pub enum ResizeFaultView {
    InvalidSource(Seq<char>),
    Failed(Seq<char>),
}

impl View for ResizeFault {
    type V = ResizeFaultView;

    open spec fn view(&self) -> ResizeFaultView {
        match self {
            ResizeFault::InvalidSource(m) => ResizeFaultView::InvalidSource(m@),
            ResizeFault::Failed(m) => ResizeFaultView::Failed(m@),
        }
    }
}

/// What `fast_image_resize` returns when resizing the `w`x`h` buffer `src`
/// of layout `pt` to `tw`x`th` with Lanczos3 convolution.
pub uninterp spec fn lanczos3_resizing(src: Seq<u8>, w: u32, h: u32, pt: PixelType, tw: u32, th: u32) -> Result<Seq<u8>, ResizeFaultView>;

/// Resizes with `fast_image_resize`: wraps `src` in `ImageRef::new`, allocates
/// the destination with `Image::new`, runs `Resizer::resize` with Lanczos3
/// convolution and returns `Image::into_vec`. The result is a function of the
/// arguments alone, named `lanczos3_resizing`; the resampled pixels are not
/// stated. A resized buffer holds `tw * th` pixels: `Image::new` allocates
/// exactly that many and resizing writes in place.
#[verifier::external_body]
fn lanczos3_resize(src: &[u8], w: u32, h: u32, pt: PixelType, tw: u32, th: u32) -> (r: Result<Vec<u8>, ResizeFault>)
    requires
        pt != PixelType::Other,
    ensures
        match r {
            Ok(v) => lanczos3_resizing(src@, w, h, pt, tw, th) == Ok::<Seq<u8>, ResizeFaultView>(v@)
                && v@.len() == tw as nat * th as nat * bytes_per_pixel(pt),
            Err(f) => lanczos3_resizing(src@, w, h, pt, tw, th) == Err::<Seq<u8>, ResizeFaultView>(f@),
        },
{
    let layout = match pt {
        PixelType::U8x3 => fast_image_resize::PixelType::U8x3,
        _ => fast_image_resize::PixelType::U8x4,
    };
    let src_image = ImageRef::new(w, h, src, layout).map_err(|e| ResizeFault::InvalidSource(format!("{e:?}")))?;
    let mut dst_image = Image::new(tw, th, layout);
    let options = ResizeOptions::new().resize_alg(ResizeAlg::Convolution(FilterType::Lanczos3));
    Resizer::new().resize(&src_image, &mut dst_image, &options).map_err(|e| ResizeFault::Failed(format!("{e:?}")))?;
    Ok(dst_image.into_vec())
}

/// The pixels of a decoded image and their layout, or why the pipeline
/// cannot process them.
pub open spec fn pixels_of(img: RawImageView) -> Result<(Seq<u8>, PixelType), ProcessingFault> {
    match img {
        RawImageView::WebP { has_alpha, pixels, .. } =>
            Ok((pixels, if has_alpha { PixelType::U8x4 } else { PixelType::U8x3 })),
        RawImageView::Jpeg { data, .. } => Ok((data, PixelType::U8x3)),
        RawImageView::Fallback { pixels, .. } => match pixels {
            FallbackPixelsView::Rgb8(p) => Ok((p, PixelType::U8x3)),
            FallbackPixelsView::Rgba8(p) => Ok((p, PixelType::U8x4)),
            FallbackPixelsView::Other => Err(ProcessingFault::Internal("Unsupported DynamicImage type"@)),
        },
    }
}

/// What resizing the decoded image `img` (`w`x`h`) to `tw`x`th` gives.
pub open spec fn resize_outcome(img: RawImageView, w: u32, h: u32, tw: u32, th: u32) -> Result<(Seq<u8>, PixelType), ProcessingFault> {
    if w == 0 || h == 0 || tw == 0 || th == 0 {
        Err(ProcessingFault::Internal("Image dimension is 0"@))
    } else {
        match pixels_of(img) {
            Err(f) => Err(f),
            Ok((src, pt)) => match lanczos3_resizing(src, w, h, pt, tw, th) {
                Ok(out) => Ok((out, pt)),
                Err(ResizeFaultView::InvalidSource(m)) =>
                    Err(ProcessingFault::Internal("Failed to create source image ref: "@ + m)),
                Err(ResizeFaultView::Failed(m)) => Err(ProcessingFault::Internal("Resize failed: "@ + m)),
            },
        }
    }
}

/// The pixels of a decoded image and their layout.
pub fn extract_pixels(src_image: &RawImage) -> (r: Result<(&[u8], PixelType), ImageProcessingError>)
    ensures
        match r {
            Ok((p, pt)) => pixels_of(src_image@) == Ok::<(Seq<u8>, PixelType), ProcessingFault>((p@, pt)),
            Err(e) => pixels_of(src_image@) == Err::<(Seq<u8>, PixelType), ProcessingFault>(e@),
        },
{
    match src_image {
        RawImage::WebP { has_alpha, pixels, .. } => {
            let pt = if *has_alpha { PixelType::U8x4 } else { PixelType::U8x3 };
            Ok((pixels.as_slice(), pt))
        },
        RawImage::Jpeg { data, .. } => Ok((data.as_slice(), PixelType::U8x3)),
        RawImage::Fallback { pixels, .. } => match pixels {
            FallbackPixels::Rgb8(p) => Ok((p.as_slice(), PixelType::U8x3)),
            FallbackPixels::Rgba8(p) => Ok((p.as_slice(), PixelType::U8x4)),
            FallbackPixels::Other =>
                Err(ImageProcessingError::InternalError(string_of("Unsupported DynamicImage type"))),
        },
    }
}

/// Turns the resizer's answer into the resized pixels or an internal error.
pub fn resized_result(r: Result<Vec<u8>, ResizeFault>, pt: PixelType) -> (out: Result<(Vec<u8>, PixelType), ImageProcessingError>)
    ensures
        match r {
            Ok(v) => out matches Ok((o, opt)) && o@ == v@ && opt == pt,
            Err(ResizeFault::InvalidSource(m)) => out matches Err(e)
                && e@ == ProcessingFault::Internal("Failed to create source image ref: "@ + m@),
            Err(ResizeFault::Failed(m)) => out matches Err(e)
                && e@ == ProcessingFault::Internal("Resize failed: "@ + m@),
        },
{
    match r {
        Ok(v) => Ok((v, pt)),
        Err(ResizeFault::InvalidSource(m)) =>
            Err(ImageProcessingError::InternalError(concat2("Failed to create source image ref: ", m.as_str()))),
        Err(ResizeFault::Failed(m)) =>
            Err(ImageProcessingError::InternalError(concat2("Resize failed: ", m.as_str()))),
    }
}

/// Resizes the decoded image `src_image` (`w`x`h`) to `target_w`x`target_h`.
/// A resized buffer holds `target_w * target_h` pixels of the returned layout.
pub fn resize_image(src_image: &RawImage, w: u32, h: u32, target_w: u32, target_h: u32)
    -> (r: Result<(Vec<u8>, PixelType), ImageProcessingError>)
    ensures
        match r {
            Ok((v, pt)) => resize_outcome(src_image@, w, h, target_w, target_h)
                    == Ok::<(Seq<u8>, PixelType), ProcessingFault>((v@, pt))
                && v@.len() == target_w as nat * target_h as nat * bytes_per_pixel(pt),
            Err(e) => resize_outcome(src_image@, w, h, target_w, target_h)
                == Err::<(Seq<u8>, PixelType), ProcessingFault>(e@),
        },
{
    if w == 0 || h == 0 || target_w == 0 || target_h == 0 {
        return Err(ImageProcessingError::InternalError(string_of("Image dimension is 0")));
    }
    let (src_buffer, pixel_type) = match extract_pixels(src_image) {
        Ok(x) => x,
        Err(e) => return Err(e),
    };
    let resized = lanczos3_resize(src_buffer, w, h, pixel_type, target_w, target_h);
    resized_result(resized, pixel_type)
}


/// The pixels handed to the resizer are the decoded buffer itself, read in
/// the layout the decoder produced: a WebP with alpha as 4-byte RGBA pixels
/// and one without as 3-byte RGB pixels, a JPEG as RGB, and an `image`
/// decode as RGB or RGBA by its own layout.
pub proof fn law_pixels_keep_the_decoded_layout(img: RawImageView)
    ensures
        img matches RawImageView::WebP { has_alpha, pixels, .. } ==>
            pixels_of(img) matches Ok((p, pt)) && p == pixels
                && bytes_per_pixel(pt) == (if has_alpha { 4nat } else { 3nat }),
        img matches RawImageView::Jpeg { data, .. } ==>
            pixels_of(img) matches Ok((p, pt)) && p == data && bytes_per_pixel(pt) == 3,
        img matches RawImageView::Fallback { pixels: FallbackPixelsView::Rgb8(px), .. } ==>
            pixels_of(img) matches Ok((p, pt)) && p == px && bytes_per_pixel(pt) == 3,
        img matches RawImageView::Fallback { pixels: FallbackPixelsView::Rgba8(px), .. } ==>
            pixels_of(img) matches Ok((p, pt)) && p == px && bytes_per_pixel(pt) == 4,
{
}

/// A resize with non-zero sizes of a decoded image whose pixels the pipeline
/// can read hands exactly those pixels, in their decoded layout, to the
/// resizer, and answers what the resizer answers.
pub proof fn law_resize_uses_decoded_pixels(img: RawImageView, w: u32, h: u32, tw: u32, th: u32, px: Seq<u8>, pt: PixelType)
    requires
        w > 0, h > 0, tw > 0, th > 0,
        pixels_of(img) == Ok::<(Seq<u8>, PixelType), ProcessingFault>((px, pt)),
        lanczos3_resizing(px, w, h, pt, tw, th) is Ok,
    ensures
        resize_outcome(img, w, h, tw, th) == Ok::<(Seq<u8>, PixelType), ProcessingFault>(
            (lanczos3_resizing(px, w, h, pt, tw, th)->Ok_0, pt)),
{
}

} // verus!
