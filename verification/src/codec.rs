//! Pixel formats, sample packing, and the image container boundary.
//!
//! Elevation buffers become pixel samples here — 8-bit grey, 16-bit grey or
//! 24-bit packed colour — and the samples are handed to the outside PNG
//! encoder, whose output bytes are named but otherwise opaque.

use vstd::prelude::*;
use vstd::arithmetic::div_mod::{
    lemma_fundamental_div_mod_converse_div, lemma_fundamental_div_mod_converse_mod,
};
use crate::quantize::{quantize, quantize_of, quantize_trunc, trunc_of};

verus! {

/// The pixel format of an output image, fixing bit depth and channel count.
#[derive(Clone, Copy, PartialEq, Eq, Structural, Debug)]
pub enum OutputFormat {
    Greyscale8,
    Greyscale16,
    Colour24,
}

/// The image container could not encode the pixel data.
#[derive(Clone, Copy, PartialEq, Eq, Structural, Debug)]
pub enum CodecError {
    Encode,
}

/// An elevation as an 8-bit grey sample.
pub open spec fn grey8_of(v: u64) -> u8 {
    quantize_of(v, 255) as u8
}

/// An elevation as a 16-bit grey sample; truncated, as the deeper formats
/// are.
pub open spec fn grey16_of(v: u64) -> u16 {
    trunc_of(v, 65535) as u16
}

/// An elevation packed into a 24-bit integer (truncated, as the deeper
/// formats are), split into R, G, B bytes by bit position: a visualization
/// ramp, not a biome colouring.
pub open spec fn colour24_of(v: u64) -> u32 {
    trunc_of(v, 16777215)
}

/// A whole buffer as 8-bit grey samples.
pub open spec fn grey8_bytes_of(elev: Seq<u64>) -> Seq<u8> {
    elev.map_values(|v: u64| grey8_of(v))
}

/// A whole buffer as 16-bit grey samples.
pub open spec fn grey16_words_of(elev: Seq<u64>) -> Seq<u16> {
    elev.map_values(|v: u64| grey16_of(v))
}

/// A 16-bit sample buffer as big-endian bytes, two per sample.
pub open spec fn be16_bytes_of(words: Seq<u16>) -> Seq<u8> {
    Seq::new(
        (2 * words.len()) as nat,
        |i: int|
            if i % 2 == 0 {
                (words[i / 2] >> 8) as u8
            } else {
                (words[i / 2] & 0xFF) as u8
            },
    )
}

/// A whole buffer as packed 24-bit colour bytes, three per pixel, R first.
pub open spec fn colour24_bytes_of(elev: Seq<u64>) -> Seq<u8> {
    Seq::new(
        (3 * elev.len()) as nat,
        |i: int|
            {
                let q = colour24_of(elev[i / 3]);
                if i % 3 == 0 {
                    ((q >> 16) & 0xFF) as u8
                } else if i % 3 == 1 {
                    ((q >> 8) & 0xFF) as u8
                } else {
                    (q & 0xFF) as u8
                }
            },
    )
}

/// Packs elevations into 8-bit grey samples.
pub fn grey8_pixels(elev: &Vec<u64>) -> (out: Vec<u8>)
    ensures
        out@ == grey8_bytes_of(elev@),
{
    let n = elev.len();
    let mut out: Vec<u8> = Vec::new();
    let mut i: usize = 0;
    while i < n
        invariant
            n == elev@.len(),
            i <= n,
            out@.len() == i,
            forall|j: int| 0 <= j < i ==> out@[j] == grey8_of(elev@[j]),
        decreases n - i,
    {
        let q = quantize(elev[i], 255);
        out.push(q as u8);
        i = i + 1;
    }
    proof {
        assert(out@ =~= grey8_bytes_of(elev@));
    }
    out
}

/// Packs elevations into 16-bit grey samples.
pub fn grey16_pixels(elev: &Vec<u64>) -> (out: Vec<u16>)
    ensures
        out@ == grey16_words_of(elev@),
{
    let n = elev.len();
    let mut out: Vec<u16> = Vec::new();
    let mut i: usize = 0;
    while i < n
        invariant
            n == elev@.len(),
            i <= n,
            out@.len() == i,
            forall|j: int| 0 <= j < i ==> out@[j] == grey16_of(elev@[j]),
        decreases n - i,
    {
        let q = quantize_trunc(elev[i], 65535);
        out.push(q as u16);
        i = i + 1;
    }
    proof {
        assert(out@ =~= grey16_words_of(elev@));
    }
    out
}

/// Packs 16-bit samples into big-endian bytes, two per sample.
pub fn be16_pixels(words: &Vec<u16>) -> (out: Vec<u8>)
    requires
        words@.len() * 2 <= usize::MAX,
    ensures
        out@ == be16_bytes_of(words@),
{
    let n = words.len();
    let mut out: Vec<u8> = Vec::new();
    let mut i: usize = 0;
    while i < n
        invariant
            n == words@.len(),
            n * 2 <= usize::MAX,
            i <= n,
            out@.len() == 2 * i,
            forall|j: int| 0 <= j < 2 * i ==> out@[j] == be16_bytes_of(words@)[j],
        decreases n - i,
    {
        let w = words[i];
        out.push((w >> 8) as u8);
        out.push((w & 0xFF) as u8);
        proof {
            lemma_pair_index(i as int, 2 * i as int);
            lemma_pair_index(i as int, 2 * i as int + 1);
        }
        i = i + 1;
    }
    proof {
        assert(out@ =~= be16_bytes_of(words@));
    }
    out
}

/// Packs elevations into 24-bit colour bytes, three per pixel.
pub fn colour24_pixels(elev: &Vec<u64>) -> (out: Vec<u8>)
    requires
        elev@.len() * 3 <= usize::MAX,
    ensures
        out@ == colour24_bytes_of(elev@),
{
    let n = elev.len();
    let mut out: Vec<u8> = Vec::new();
    let mut i: usize = 0;
    while i < n
        invariant
            n == elev@.len(),
            n * 3 <= usize::MAX,
            i <= n,
            out@.len() == 3 * i,
            forall|j: int| 0 <= j < 3 * i ==> out@[j] == colour24_bytes_of(elev@)[j],
        decreases n - i,
    {
        let q = quantize_trunc(elev[i], 16777215);
        out.push(((q >> 16) & 0xFF) as u8);
        out.push(((q >> 8) & 0xFF) as u8);
        out.push((q & 0xFF) as u8);
        proof {
            lemma_triple_index(i as int, 3 * i as int);
            lemma_triple_index(i as int, 3 * i as int + 1);
            lemma_triple_index(i as int, 3 * i as int + 2);
        }
        i = i + 1;
    }
    proof {
        assert(out@ =~= colour24_bytes_of(elev@));
    }
    out
}

/// Index arithmetic for two bytes per sample.
proof fn lemma_pair_index(i: int, j: int)
    requires
        0 <= i,
        2 * i <= j <= 2 * i + 1,
    ensures
        j / 2 == i,
        j % 2 == j - 2 * i,
{
    lemma_fundamental_div_mod_converse_div(j, 2, i, j - 2 * i);
    lemma_fundamental_div_mod_converse_mod(j, 2, i, j - 2 * i);
}

/// Index arithmetic for three bytes per pixel.
proof fn lemma_triple_index(i: int, j: int)
    requires
        0 <= i,
        3 * i <= j <= 3 * i + 2,
    ensures
        j / 3 == i,
        j % 3 == j - 3 * i,
{
    lemma_fundamental_div_mod_converse_div(j, 3, i, j - 3 * i);
    lemma_fundamental_div_mod_converse_mod(j, 3, i, j - 3 * i);
}

/// The PNG container bytes the outside encoder produces for 8-bit samples:
/// one byte per pixel when `rgb` is false, an R, G, B triple when true.
pub uninterp spec fn png8_of(data: Seq<u8>, width: u32, height: u32, rgb: bool) -> Seq<u8>;

/// The PNG container bytes the outside encoder produces for 16-bit grey
/// samples.
pub uninterp spec fn png16_of(data: Seq<u16>, width: u32, height: u32) -> Seq<u8>;

/// Relies on image's `PngEncoder::write_image` with 8-bit grey or RGB
/// samples: the container bytes depend only on the samples and dimensions,
/// and writing into a vector fails only for an image with a zero dimension.
#[verifier::external_body]
pub(crate) fn encode_png8(data: &Vec<u8>, width: u32, height: u32, rgb: bool) -> (r: Result<
    Vec<u8>,
    CodecError,
>)
    requires
        data@.len() == width * height * (if rgb {
            3int
        } else {
            1int
        }),
    ensures
        r matches Ok(png) ==> png@ == png8_of(data@, width, height, rgb),
        width >= 1 && height >= 1 ==> r is Ok,
{
    let mut out: Vec<u8> = Vec::new();
    let enc = image::codecs::png::PngEncoder::new(&mut out);
    let ct = if rgb {
        image::ExtendedColorType::Rgb8
    } else {
        image::ExtendedColorType::L8
    };
    match image::ImageEncoder::write_image(enc, data, width, height, ct) {
        Ok(()) => Ok(out),
        Err(_) => Err(CodecError::Encode),
    }
}

/// Relies on image's `PngEncoder::write_image` with 16-bit grey samples,
/// handed over in the byte order of this machine as that function expects:
/// the container bytes depend only on the samples and dimensions, and
/// writing into a vector fails only for an image with a zero dimension.
#[verifier::external_body]
pub(crate) fn encode_png16(data: &Vec<u16>, width: u32, height: u32) -> (r: Result<
    Vec<u8>,
    CodecError,
>)
    requires
        data@.len() == width * height,
    ensures
        r matches Ok(png) ==> png@ == png16_of(data@, width, height),
        width >= 1 && height >= 1 ==> r is Ok,
{
    let mut bytes: Vec<u8> = Vec::new();
    for w in data.iter() {
        bytes.extend_from_slice(&w.to_ne_bytes());
    }
    let mut out: Vec<u8> = Vec::new();
    let enc = image::codecs::png::PngEncoder::new(&mut out);
    let ct = image::ExtendedColorType::L16;
    match image::ImageEncoder::write_image(enc, &bytes, width, height, ct) {
        Ok(()) => Ok(out),
        Err(_) => Err(CodecError::Encode),
    }
}

/// The PNG container bytes of an elevation buffer in a format.
pub open spec fn image_png_of(elev: Seq<u64>, width: u32, height: u32, format: OutputFormat) -> Seq<
    u8,
> {
    match format {
        OutputFormat::Greyscale8 => png8_of(grey8_bytes_of(elev), width, height, false),
        OutputFormat::Greyscale16 => png16_of(grey16_words_of(elev), width, height),
        OutputFormat::Colour24 => png8_of(colour24_bytes_of(elev), width, height, true),
    }
}

/// Quantizes an elevation buffer and encodes it as a PNG image.
pub fn encode_image(elev: &Vec<u64>, width: u32, height: u32, format: OutputFormat) -> (r: Result<
    Vec<u8>,
    CodecError,
>)
    requires
        elev@.len() == width * height,
        elev@.len() * 3 <= usize::MAX,
    ensures
        r matches Ok(png) ==> png@ == image_png_of(elev@, width, height, format),
        width >= 1 && height >= 1 ==> r is Ok,
{
    match format {
        OutputFormat::Greyscale8 => {
            let pixels = grey8_pixels(elev);
            encode_png8(&pixels, width, height, false)
        },
        OutputFormat::Greyscale16 => {
            let words = grey16_pixels(elev);
            encode_png16(&words, width, height)
        },
        OutputFormat::Colour24 => {
            let pixels = colour24_pixels(elev);
            encode_png8(&pixels, width, height, true)
        },
    }
}

/// Reads a pixel-format name: exactly "greyscale8", "greyscale16" or
/// "colour24".
pub fn parse_output_format(name: &String) -> (r: Option<OutputFormat>)
    ensures
        r == Some(OutputFormat::Greyscale8) <==> name@ == "greyscale8"@,
        r == Some(OutputFormat::Greyscale16) <==> name@ == "greyscale16"@,
        r == Some(OutputFormat::Colour24) <==> name@ == "colour24"@,
        r is None <==> (name@ != "greyscale8"@ && name@ != "greyscale16"@ && name@
            != "colour24"@),
{
    proof {
        reveal_strlit("greyscale8");
        reveal_strlit("greyscale16");
        reveal_strlit("colour24");
        assert("greyscale8"@.len() == 10);
        assert("greyscale16"@.len() == 11);
        assert("colour24"@.len() == 8);
    }
    if *name == "greyscale8".to_owned() {
        Some(OutputFormat::Greyscale8)
    } else if *name == "greyscale16".to_owned() {
        Some(OutputFormat::Greyscale16)
    } else if *name == "colour24".to_owned() {
        Some(OutputFormat::Colour24)
    } else {
        None
    }
}

} // verus!
