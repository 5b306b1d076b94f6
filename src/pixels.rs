//! Pixel data: the RGBA buffer, normalization of decoder output into it, and
//! alpha premultiplication.
use vstd::prelude::*;

verus! {

/// One RGBA pixel, 8 bits per channel, alpha last and not premultiplied
/// unless a premultiplication pass ran over it.
#[derive(Clone, Copy, Debug, PartialEq, Eq, Structural)]
pub struct Rgba8 {
    pub r: u8,
    pub g: u8,
    pub b: u8,
    pub a: u8,
}

/// A decoded image: `width * height` pixels in rows, with no padding
/// between rows (the stride equals the width).
#[derive(Debug)]
pub struct PixelBuffer {
    pub pixels: Vec<Rgba8>,
    pub width: usize,
    pub height: usize,
}

/// What a caller can observe of an image: its pixels, width and height.
pub type ImageModel = (Seq<Rgba8>, usize, usize);

impl PixelBuffer {
    pub open spec fn wf(&self) -> bool {
        self.pixels@.len() == self.width * self.height
    }

    pub open spec fn model(&self) -> ImageModel {
        (self.pixels@, self.width, self.height)
    }
}

pub open spec fn opaque_gray(g: u8) -> Rgba8 {
    Rgba8 { r: g, g: g, b: g, a: 255 }
}

/// Each luminance sample broadcast to R, G and B, fully opaque.
pub open spec fn gray_pixels(samples: Seq<u8>) -> Seq<Rgba8> {
    Seq::new(samples.len(), |i: int| opaque_gray(samples[i]))
}

/// Each complete triple of samples read as R, G, B, fully opaque; a trailing
/// partial triple is ignored.
pub open spec fn rgb_pixels(samples: Seq<u8>) -> Seq<Rgba8> {
    Seq::new(
        samples.len() / 3,
        |i: int| Rgba8 { r: samples[3 * i], g: samples[3 * i + 1], b: samples[3 * i + 2], a: 255 },
    )
}

/// `floor(c * a / 255)`.
pub open spec fn scaled_channel(c: u8, a: u8) -> u8 {
    (c as int * a as int / 255) as u8
}

/// A pixel with its colour channels scaled by its alpha; alpha unchanged.
pub open spec fn premultiplied(p: Rgba8) -> Rgba8 {
    Rgba8 { r: scaled_channel(p.r, p.a), g: scaled_channel(p.g, p.a), b: scaled_channel(p.b, p.a), a: p.a }
}

pub open spec fn premultiplied_pixels(px: Seq<Rgba8>) -> Seq<Rgba8> {
    Seq::new(px.len(), |i: int| premultiplied(px[i]))
}

/// Broadcasts each luminance sample to an opaque grey pixel.
pub fn gray_to_rgba(samples: &Vec<u8>) -> (r: Vec<Rgba8>)
    ensures
        r@ == gray_pixels(samples@),
{
    let mut out: Vec<Rgba8> = Vec::new();
    let mut i: usize = 0;
    while i < samples.len()
        invariant
            i <= samples@.len(),
            out@ == gray_pixels(samples@.take(i as int)),
        decreases samples@.len() - i,
    {
        let g = samples[i];
        out.push(Rgba8 { r: g, g: g, b: g, a: 255 });
        i = i + 1;
        assert(out@ =~= gray_pixels(samples@.take(i as int)));
    }
    assert(samples@.take(i as int) =~= samples@);
    out
}

/// Reads the samples as RGB triples and makes each an opaque pixel.
pub fn rgb_to_rgba(samples: &Vec<u8>) -> (r: Vec<Rgba8>)
    ensures
        r@ == rgb_pixels(samples@),
{
    let n = samples.len() / 3;
    let mut out: Vec<Rgba8> = Vec::new();
    let mut i: usize = 0;
    while i < n
        invariant
            n == samples@.len() / 3,
            i <= n,
            out@.len() == i,
            forall|j: int| 0 <= j < i ==> out@[j] == #[trigger] rgb_pixels(samples@)[j],
        decreases n - i,
    {
        let len = samples.len();
        assert(3 * i + 2 < len) by (nonlinear_arith)
            requires i < n, n == len / 3;
        let k = 3 * i;
        out.push(Rgba8 { r: samples[k], g: samples[k + 1], b: samples[k + 2], a: 255 });
        i = i + 1;
    }
    assert(out@ =~= rgb_pixels(samples@));
    out
}

/// `floor(c * a / 255)`, computed without overflow.
pub fn scale_channel(c: u8, a: u8) -> (r: u8)
    ensures
        r == scaled_channel(c, a),
{
    assert(c as int * a as int <= 255 * 255) by (nonlinear_arith)
        requires c <= 255, a <= 255;
    let v = c as u16 * a as u16 / 255;
    v as u8
}

pub fn premultiply_pixel(p: Rgba8) -> (r: Rgba8)
    ensures
        r == premultiplied(p),
{
    Rgba8 { r: scale_channel(p.r, p.a), g: scale_channel(p.g, p.a), b: scale_channel(p.b, p.a), a: p.a }
}

/// Premultiplies every pixel in place, exactly once.
pub fn premultiply(pixels: &mut Vec<Rgba8>)
    ensures
        final(pixels)@ == premultiplied_pixels(old(pixels)@),
{
    let ghost before = pixels@;
    let mut i: usize = 0;
    while i < pixels.len()
        invariant
            i <= pixels@.len(),
            pixels@.len() == before.len(),
            forall|j: int| 0 <= j < i ==> pixels@[j] == premultiplied(before[j]),
            forall|j: int| i <= j < before.len() ==> pixels@[j] == before[j],
        decreases pixels@.len() - i,
    {
        let p = premultiply_pixel(pixels[i]);
        pixels.set(i, p);
        i = i + 1;
    }
    assert(pixels@ =~= premultiplied_pixels(before));
}

/// Premultiplication keeps alpha and sets each colour channel to
/// `floor(channel * alpha / 255)`; it leaves an opaque pixel as it is and
/// turns a fully transparent one black.
pub proof fn lemma_premultiply_pixel(p: Rgba8)
    ensures
        premultiplied(p).a == p.a,
        premultiplied(p).r as int == p.r as int * p.a as int / 255,
        premultiplied(p).g as int == p.g as int * p.a as int / 255,
        premultiplied(p).b as int == p.b as int * p.a as int / 255,
        p.a == 255 ==> premultiplied(p) == p,
        p.a == 0 ==> premultiplied(p).r == 0 && premultiplied(p).g == 0 && premultiplied(p).b == 0,
{
    lemma_scaled_channel(p.r, p.a);
    lemma_scaled_channel(p.g, p.a);
    lemma_scaled_channel(p.b, p.a);
}

proof fn lemma_scaled_channel(c: u8, a: u8)
    ensures
        scaled_channel(c, a) as int == c as int * a as int / 255,
        a == 255 ==> scaled_channel(c, a) == c,
        a == 0 ==> scaled_channel(c, a) == 0,
{
    assert(0 <= c as int * a as int / 255 <= 255) by (nonlinear_arith)
        requires 0 <= c <= 255, 0 <= a <= 255;
    assert(a == 255 ==> c as int * a as int / 255 == c) by (nonlinear_arith);
}

} // verus!
