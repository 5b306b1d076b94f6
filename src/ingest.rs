//! Format sniffing and decoding: PNG or JPEG bytes in, an RGBA image out.
use vstd::prelude::*;
use jpeg_decoder::PixelFormat as F;
use crate::error::{ErrorKind, ErrorModel, FfiAvifError};
use crate::pixels::{
    gray_pixels, gray_to_rgba, premultiplied_pixels, premultiply, rgb_pixels, rgb_to_rgba,
    ImageModel, PixelBuffer, Rgba8,
};

verus! {

/// The first four bytes of every PNG stream.
pub const PNG_SIGNATURE: [u8; 4] = [0x89, 0x50, 0x4E, 0x47];

pub const JPEG_INFO_MISSING: &'static str = "Error reading JPEG info";

pub const CMYK_UNSUPPORTED: &'static str = "CMYK JPEG is not supported. Please convert to PNG first";

pub const PIXEL_COUNT_MISMATCH: &'static str = "Decoded pixel data does not match the image dimensions";

/// Which decoder a byte stream goes to.
#[derive(Clone, Copy, Debug, PartialEq, Eq, Structural)]
pub enum SourceFormat {
    Png,
    Jpeg,
}

/// The sample layout a JPEG stream decodes to.
#[derive(Clone, Copy, Debug, PartialEq, Eq, Structural)]
pub enum JpegPixelFormat {
    /// One 8-bit luminance sample per pixel.
    L8,
    /// Three 8-bit samples per pixel: R, G, B.
    Rgb24,
    /// Four 8-bit samples per pixel: C, M, Y, K.
    Cmyk32,
}

/// What the JPEG decoder reports of a frame.
#[derive(Clone, Copy, Debug, PartialEq, Eq, Structural)]
pub struct JpegInfo {
    pub width: u16,
    pub height: u16,
    pub pixel_format: JpegPixelFormat,
}

/// The outcome of decoding a PNG stream to 8-bit RGBA: pixels, width and
/// height, or the decoder's message.
pub uninterp spec fn png_decoded(data: Seq<u8>) -> Result<ImageModel, Seq<char>>;

/// The outcome of decoding a JPEG stream: its samples and frame info, or the
/// decoder's message.
pub uninterp spec fn jpeg_decoded(data: Seq<u8>) -> Result<(Seq<u8>, Option<JpegInfo>), Seq<char>>;

/// Relies on `lodepng::decode32`: it decodes a PNG stream to RGBA pixels, and
/// what it returns depends on the bytes alone.
#[verifier::external_body]
fn decode_png(data: &[u8]) -> (r: Result<(Vec<Rgba8>, usize, usize), String>)
    ensures
        match r {
            Ok((px, w, h)) => png_decoded(data@) == Ok::<ImageModel, Seq<char>>((px@, w, h)),
            Err(m) => png_decoded(data@) == Err::<ImageModel, Seq<char>>(m@),
        },
{
    match lodepng::decode32(data) {
        Ok(img) => {
            let px = img.buffer.iter().map(|p| Rgba8 { r: p.r, g: p.g, b: p.b, a: p.a }).collect();
            Ok((px, img.width, img.height))
        },
        Err(e) => Err(e.to_string()),
    }
}

/// Relies on `jpeg_decoder::Decoder` (`new`, `decode`, then `info`): it
/// decodes a JPEG stream to its samples and reports the frame's size and
/// layout; what it returns depends on the bytes alone.
#[verifier::external_body]
fn decode_jpeg(data: &[u8]) -> (r: Result<(Vec<u8>, Option<JpegInfo>), String>)
    ensures
        match r {
            Ok((s, info)) => jpeg_decoded(data@) == Ok::<(Seq<u8>, Option<JpegInfo>), Seq<char>>((s@, info)),
            Err(m) => jpeg_decoded(data@) == Err::<(Seq<u8>, Option<JpegInfo>), Seq<char>>(m@),
        },
{
    let mut reader = data;
    let mut decoder = jpeg_decoder::Decoder::new(&mut reader);
    let samples = decoder.decode().map_err(|e| e.to_string())?;
    let info = decoder.info().map(|i| JpegInfo {
        width: i.width,
        height: i.height,
        pixel_format: match i.pixel_format { F::L8 => JpegPixelFormat::L8, F::RGB24 => JpegPixelFormat::Rgb24, F::CMYK32 => JpegPixelFormat::Cmyk32 },
    });
    Ok((samples, info))
}

pub open spec fn has_png_signature(data: Seq<u8>) -> bool {
    &&& data.len() >= 4
    &&& data[0] == 0x89u8
    &&& data[1] == 0x50u8
    &&& data[2] == 0x4Eu8
    &&& data[3] == 0x47u8
}

pub open spec fn error_model(kind: ErrorKind, msg: Seq<char>) -> ErrorModel {
    (kind, msg)
}

/// An image whose pixel count matches its size, or the mismatch error.
pub open spec fn sized_image(px: Seq<Rgba8>, width: usize, height: usize) -> Result<ImageModel, ErrorModel> {
    if px.len() == width * height {
        Ok((px, width, height))
    } else {
        Err(error_model(ErrorKind::DecodeFailure, PIXEL_COUNT_MISMATCH@))
    }
}

/// The image made from a PNG decoder outcome.
pub open spec fn png_image(decoded: Result<ImageModel, Seq<char>>) -> Result<ImageModel, ErrorModel> {
    match decoded {
        Ok((px, w, h)) => sized_image(px, w, h),
        Err(m) => Err(error_model(ErrorKind::DecodeFailure, m)),
    }
}

/// The image made from a JPEG decoder's samples and frame info.
pub open spec fn jpeg_image(samples: Seq<u8>, info: Option<JpegInfo>) -> Result<ImageModel, ErrorModel> {
    match info {
        None => Err(error_model(ErrorKind::DecodeFailure, JPEG_INFO_MISSING@)),
        Some(i) => match i.pixel_format {
            JpegPixelFormat::L8 => sized_image(gray_pixels(samples), i.width as usize, i.height as usize),
            JpegPixelFormat::Rgb24 => sized_image(rgb_pixels(samples), i.width as usize, i.height as usize),
            JpegPixelFormat::Cmyk32 => Err(error_model(ErrorKind::UnsupportedFormat, CMYK_UNSUPPORTED@)),
        },
    }
}

/// The image made from a JPEG decoder outcome.
pub open spec fn jpeg_outcome_image(decoded: Result<(Seq<u8>, Option<JpegInfo>), Seq<char>>) -> Result<ImageModel, ErrorModel> {
    match decoded {
        Ok((s, info)) => jpeg_image(s, info),
        Err(m) => Err(error_model(ErrorKind::DecodeFailure, m)),
    }
}

/// The image before premultiplication: PNG bytes go to the PNG decoder,
/// everything else to the JPEG decoder.
pub open spec fn decoded_image(data: Seq<u8>) -> Result<ImageModel, ErrorModel> {
    if has_png_signature(data) {
        png_image(png_decoded(data))
    } else {
        jpeg_outcome_image(jpeg_decoded(data))
    }
}

/// A decoded image, premultiplied when asked.
pub open spec fn finished_image(decoded: Result<ImageModel, ErrorModel>, premultiply: bool) -> Result<ImageModel, ErrorModel> {
    match decoded {
        Ok((px, w, h)) => Ok((if premultiply { premultiplied_pixels(px) } else { px }, w, h)),
        Err(e) => Err(e),
    }
}

/// What `load_rgba(data, premultiply)` returns.
pub open spec fn ingested(data: Seq<u8>, premultiply: bool) -> Result<ImageModel, ErrorModel> {
    finished_image(decoded_image(data), premultiply)
}

pub open spec fn outcome_model(r: Result<PixelBuffer, FfiAvifError>) -> Result<ImageModel, ErrorModel> {
    match r {
        Ok(img) => Ok(img.model()),
        Err(e) => Err(e.model()),
    }
}

pub open spec fn outcome_wf(r: Result<PixelBuffer, FfiAvifError>) -> bool {
    match r {
        Ok(img) => img.wf(),
        Err(_) => true,
    }
}

/// Picks the decoder: PNG when the first four bytes are the PNG signature,
/// JPEG otherwise.
pub fn sniff_format(data: &[u8]) -> (r: SourceFormat)
    ensures
        r == SourceFormat::Png <==> has_png_signature(data@),
{
    if data.len() >= 4 && data[0] == PNG_SIGNATURE[0] && data[1] == PNG_SIGNATURE[1]
        && data[2] == PNG_SIGNATURE[2] && data[3] == PNG_SIGNATURE[3] {
        SourceFormat::Png
    } else {
        SourceFormat::Jpeg
    }
}

/// Wraps pixels as an image, refusing a pixel count other than
/// `width * height`.
pub fn sized_buffer(pixels: Vec<Rgba8>, width: usize, height: usize) -> (r: Result<PixelBuffer, FfiAvifError>)
    ensures
        outcome_model(r) == sized_image(pixels@, width, height),
        outcome_wf(r),
{
    let len = pixels.len();
    let fits = match width.checked_mul(height) {
        Some(n) => len == n,
        None => false,
    };
    if fits {
        Ok(PixelBuffer { pixels, width, height })
    } else {
        Err(FfiAvifError::new(ErrorKind::DecodeFailure, PIXEL_COUNT_MISMATCH))
    }
}

/// Turns a PNG decoder outcome into an image or a decode failure.
pub fn rgba_from_png(decoded: Result<(Vec<Rgba8>, usize, usize), String>) -> (r: Result<PixelBuffer, FfiAvifError>)
    ensures
        outcome_model(r) == png_image(match decoded {
            Ok((px, w, h)) => Ok::<ImageModel, Seq<char>>((px@, w, h)),
            Err(m) => Err::<ImageModel, Seq<char>>(m@),
        }),
        outcome_wf(r),
{
    match decoded {
        Ok((px, w, h)) => sized_buffer(px, w, h),
        Err(m) => Err(FfiAvifError::with_message(ErrorKind::DecodeFailure, m)),
    }
}

/// Normalizes JPEG samples to opaque RGBA: grey is broadcast to R, G and B,
/// RGB gets alpha 255, and CMYK is refused.
pub fn rgba_from_jpeg(samples: Vec<u8>, info: Option<JpegInfo>) -> (r: Result<PixelBuffer, FfiAvifError>)
    ensures
        outcome_model(r) == jpeg_image(samples@, info),
        outcome_wf(r),
{
    match info {
        None => Err(FfiAvifError::new(ErrorKind::DecodeFailure, JPEG_INFO_MISSING)),
        Some(i) => match i.pixel_format {
            JpegPixelFormat::L8 => sized_buffer(gray_to_rgba(&samples), i.width as usize, i.height as usize),
            JpegPixelFormat::Rgb24 => sized_buffer(rgb_to_rgba(&samples), i.width as usize, i.height as usize),
            JpegPixelFormat::Cmyk32 => Err(FfiAvifError::new(ErrorKind::UnsupportedFormat, CMYK_UNSUPPORTED)),
        },
    }
}

/// Decodes PNG or JPEG bytes to an RGBA image, premultiplying alpha when
/// asked.
pub fn load_rgba(data: &[u8], premultiplied_alpha: bool) -> (r: Result<PixelBuffer, FfiAvifError>)
    ensures
        outcome_model(r) == ingested(data@, premultiplied_alpha),
        outcome_wf(r),
{
    let decoded = match sniff_format(data) {
        SourceFormat::Png => rgba_from_png(decode_png(data)),
        SourceFormat::Jpeg => match decode_jpeg(data) {
            Ok((samples, info)) => rgba_from_jpeg(samples, info),
            Err(m) => Err(FfiAvifError::with_message(ErrorKind::DecodeFailure, m)),
        },
    };
    match decoded {
        Ok(mut img) => {
            if premultiplied_alpha {
                premultiply(&mut img.pixels);
            }
            Ok(img)
        },
        Err(e) => Err(e),
    }
}

/// Bytes that start with the PNG signature go to the PNG decoder, whatever
/// follows: the result is made from the PNG decoder's outcome alone.
pub proof fn lemma_png_signature_routes_to_png(data: Seq<u8>, premultiply: bool)
    requires
        has_png_signature(data),
    ensures
        ingested(data, premultiply) == finished_image(png_image(png_decoded(data)), premultiply),
{
}

/// Bytes without the PNG signature go to the JPEG decoder; a JPEG frame in
/// CMYK always fails as unsupported, whatever its samples.
pub proof fn lemma_other_bytes_route_to_jpeg(data: Seq<u8>, premultiply: bool)
    requires
        !has_png_signature(data),
    ensures
        ingested(data, premultiply) == finished_image(jpeg_outcome_image(jpeg_decoded(data)), premultiply),
        jpeg_decoded(data) matches Ok((_, Some(info))) && info.pixel_format == JpegPixelFormat::Cmyk32
            ==> ingested(data, premultiply) == Err::<ImageModel, ErrorModel>(
                (ErrorKind::UnsupportedFormat, CMYK_UNSUPPORTED@),
            ),
{
}

/// Asking for premultiplication changes only the pixels, each premultiplied
/// once; size and failures are those of the plain decode.
pub proof fn lemma_premultiply_after_decode(data: Seq<u8>)
    ensures
        match ingested(data, false) {
            Ok((px, w, h)) => ingested(data, true) == Ok::<ImageModel, ErrorModel>(
                (premultiplied_pixels(px), w, h),
            ),
            Err(e) => ingested(data, true) == Err::<ImageModel, ErrorModel>(e),
        },
{
}

} // verus!
