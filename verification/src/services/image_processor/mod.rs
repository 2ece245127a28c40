//! The image pipeline: probe, decode, resize, encode.

pub mod decoder;
pub mod encoder;
pub mod resizer;

use std::io::Cursor;
use vstd::prelude::*;
use crate::services::errors::{ImageProcessingError, ProcessingFault};

verus! {

/// What the `image` crate's built-in decoders report as the dimensions of the
/// image file `data`, in the format its built-in signatures give, or the
/// message of its error.
pub uninterp spec fn probed_dimensions(data: Seq<u8>) -> Result<(u32, u32), Seq<char>>;

/// Reads the dimensions of the image file `data` without decoding the pixels:
/// the format is taken from the built-in signatures with
/// `image::guess_format`, then `image::ImageReader::with_format` and
/// `into_dimensions` read the header in that format; errors are kept as their
/// message. Neither call consults the crate's process-wide format hooks, so
/// the result is a function of `data` alone, named `probed_dimensions`.
#[verifier::external_body]
fn probe_dimensions(data: &[u8]) -> (r: Result<(u32, u32), String>)
    ensures
        match r {
            Ok(d) => probed_dimensions(data@) == Ok::<(u32, u32), Seq<char>>(d),
            Err(m) => probed_dimensions(data@) == Err::<(u32, u32), Seq<char>>(m@),
        },
{
    let format = image::guess_format(data).map_err(|e| e.to_string())?;
    image::ImageReader::with_format(Cursor::new(data), format).into_dimensions().map_err(|e| e.to_string())
}

/// The dimensions, or the decode error, that the probe's answer gives.
pub open spec fn dimensions_outcome(r: Result<(u32, u32), Seq<char>>) -> Result<(u32, u32), ProcessingFault> {
    match r {
        Ok(d) => Ok(d),
        Err(m) => Err(ProcessingFault::Decode(m)),
    }
}

/// Turns the probe's answer into the dimensions or a decode error.
pub fn dimensions_result(r: Result<(u32, u32), String>) -> (out: Result<(u32, u32), ImageProcessingError>)
    ensures
        match out {
            Ok(d) => dimensions_outcome(match r { Ok(d) => Ok(d), Err(m) => Err(m@) })
                == Ok::<(u32, u32), ProcessingFault>(d),
            Err(e) => dimensions_outcome(match r { Ok(d) => Ok(d), Err(m) => Err(m@) })
                == Err::<(u32, u32), ProcessingFault>(e@),
        },
{
    match r {
        Ok(d) => Ok(d),
        Err(m) => Err(ImageProcessingError::DecodeError(m)),
    }
}

/// The width and height of the image file `data`, read without decoding it.
pub fn extract_dimensions(data: &[u8]) -> (r: Result<(u32, u32), ImageProcessingError>)
    ensures
        match r {
            Ok(d) => dimensions_outcome(probed_dimensions(data@)) == Ok::<(u32, u32), ProcessingFault>(d),
            Err(e) => dimensions_outcome(probed_dimensions(data@)) == Err::<(u32, u32), ProcessingFault>(e@),
        },
{
    dimensions_result(probe_dimensions(data))
}


/// The dimensions read are the probe's, unchanged and in the same order
/// (width first, then height); a probe failure is a decode error with the
/// probe's message.
pub proof fn law_dimensions_pass_through(data: Seq<u8>, w: u32, h: u32, m: Seq<char>)
    ensures
        probed_dimensions(data) == Ok::<(u32, u32), Seq<char>>((w, h))
            ==> dimensions_outcome(probed_dimensions(data)) == Ok::<(u32, u32), ProcessingFault>((w, h)),
        probed_dimensions(data) == Err::<(u32, u32), Seq<char>>(m)
            ==> dimensions_outcome(probed_dimensions(data)) == Err::<(u32, u32), ProcessingFault>(ProcessingFault::Decode(m)),
{
}

} // verus!
