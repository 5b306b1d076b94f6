//! The encode entry point: decode, hand the pixels to the AVIF encoder, and
//! record every failure in the caller's error slot.
use vstd::prelude::*;
use crate::error::{update_last_error, ErrorKind, ErrorSlot, FfiAvifError};
use crate::ingest::{ingested, load_rgba};
use crate::pixels::PixelBuffer;

verus! {

pub const NO_INPUT: &'static str = "No input data pointer provided";

pub const SIZE_UNSUPPORTED: &'static str = "Image dimensions are outside what the encoder accepts";

/// The encoder's settings; this layer passes them through untouched.
#[verifier::external_type_specification]
#[verifier::external_body]
pub struct ExConfig(ravif::Config);

/// Whether the encoder's image view accepts these dimensions: a width of at
/// least one pixel, and both sides within 32 bits.
pub open spec fn encodable_size(width: usize, height: usize) -> bool {
    0 < width <= u32::MAX && height <= u32::MAX
}

/// Relies on `ravif::encode_rgba`: it encodes RGBA pixels to an AVIF file or
/// reports a failure. Building its `imgref::Img` view panics on a zero width
/// or a side beyond 32 bits, hence the `requires`.
#[verifier::external_body]
fn encode_avif(img: &PixelBuffer, config: &ravif::Config) -> (r: Result<Vec<u8>, String>)
    requires
        img.wf(),
        encodable_size(img.width, img.height),
{
    let px: Vec<rgb::RGBA8> = img.pixels.iter().map(|p| rgb::RGBA8::new(p.r, p.g, p.b, p.a)).collect();
    match ravif::encode_rgba(imgref::Img::new(&px[..], img.width, img.height), config) {
        Ok((avif, _, _)) => Ok(avif),
        Err(e) => Err(e.to_string()),
    }
}

/// Hands out the encoder's bytes, or records its failure and hands out
/// nothing.
pub fn deliver_encoded(outcome: Result<Vec<u8>, String>, errors: &mut ErrorSlot) -> (r: Option<Vec<u8>>)
    ensures
        match outcome {
            Ok(bytes) => r == Some(bytes) && *final(errors) == *old(errors),
            Err(m) => r.is_none() && final(errors).model() == Some((ErrorKind::EncodeFailure, m@)),
        },
{
    match outcome {
        Ok(bytes) => Some(bytes),
        Err(m) => {
            update_last_error(errors, FfiAvifError::with_message(ErrorKind::EncodeFailure, m));
            None
        },
    }
}

/// Encodes PNG or JPEG bytes to AVIF. `None` for `data` stands for a missing
/// input. On every failure the result is `None` and the failure is recorded
/// in `errors`; on success `errors` is left as it was.
pub fn enc_rgba(data: Option<&[u8]>, config: &ravif::Config, errors: &mut ErrorSlot) -> (r: Option<Vec<u8>>)
    ensures
        data.is_none() ==> r.is_none() && final(errors).model() == Some((ErrorKind::InvalidArgument, NO_INPUT@)),
        data.is_some() ==> match ingested(data.unwrap()@, false) {
            Err(e) => r.is_none() && final(errors).model() == Some(e),
            Ok((px, w, h)) => if encodable_size(w, h) {
                (r.is_some() && *final(errors) == *old(errors)) || (r.is_none() && final(errors).last.is_some()
                    && final(errors).last.unwrap().kind == ErrorKind::EncodeFailure)
            } else {
                r.is_none() && final(errors).model() == Some((ErrorKind::EncodeFailure, SIZE_UNSUPPORTED@))
            },
        },
{
    let bytes = match data {
        Some(b) => b,
        None => {
            update_last_error(errors, FfiAvifError::new(ErrorKind::InvalidArgument, NO_INPUT));
            return None;
        },
    };
    let img = match load_rgba(bytes, false) {
        Ok(i) => i,
        Err(e) => {
            update_last_error(errors, e);
            return None;
        },
    };
    if img.width == 0 || img.width > u32::MAX as usize || img.height > u32::MAX as usize {
        update_last_error(errors, FfiAvifError::new(ErrorKind::EncodeFailure, SIZE_UNSUPPORTED));
        return None;
    }
    deliver_encoded(encode_avif(&img, config), errors)
}

} // verus!
