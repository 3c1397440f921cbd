//! Frames: the pixel conversions around JPEG coding, and the JPEG coding
//! itself through the `image` crate.

use vstd::prelude::*;
use image::ImageDecoder;
use image::ImageEncoder;

verus! {

/// A frame as JPEG, ready to send.
#[derive(Debug)]
pub struct CapturedFrame {
    pub width: u16,
    pub height: u16,
    pub jpeg_data: Vec<u8>,
}

/// A frame as captured: four bytes per pixel in blue, green, red, alpha
/// order.
pub struct RawFrame {
    pub width: usize,
    pub height: usize,
    pub bgra_data: Vec<u8>,
}

/// A decoded frame: one `0x00RRGGBB` word per pixel.
pub struct DecodedFrame {
    pub width: usize,
    pub height: usize,
    pub pixels: Vec<u32>,
}

/// The red, green, blue bytes of each whole four-byte pixel of `bgra`; a
/// trailing partial pixel is dropped.
pub open spec fn rgb_of_bgra(bgra: Seq<u8>) -> Seq<u8> {
    Seq::new(3 * (bgra.len() / 4), |i: int| bgra[4 * (i / 3) + 2 - i % 3])
}

/// One `0x00RRGGBB` word for each whole three-byte pixel of `rgb`; a
/// trailing partial pixel is dropped.
pub open spec fn pixels_of_rgb(rgb: Seq<u8>) -> Seq<u32> {
    Seq::new(
        rgb.len() / 3,
        |i: int| (rgb[3 * i] * 65536 + rgb[3 * i + 1] * 256 + rgb[3 * i + 2]) as u32,
    )
}

/// Reorders BGRA pixels into RGB, dropping alpha.
pub fn bgra_to_rgb(bgra: &[u8]) -> (r: Vec<u8>)
    ensures
        r@ == rgb_of_bgra(bgra@),
{
    let n = bgra.len() / 4;
    let mut out: Vec<u8> = Vec::new();
    let mut p: usize = 0;
    while p < n
        invariant
            n == bgra@.len() / 4,
            bgra@.len() <= usize::MAX,
            0 <= p <= n,
            out@.len() == 3 * p,
            forall|j: int| 0 <= j < 3 * p ==> out@[j] == bgra@[4 * (j / 3) + 2 - j % 3],
        decreases n - p,
    {
        let base = 4 * p;
        out.push(bgra[base + 2]);
        out.push(bgra[base + 1]);
        out.push(bgra[base]);
        p += 1;
        assert forall|j: int| 0 <= j < 3 * p implies out@[j] == bgra@[4 * (j / 3) + 2 - j % 3] by {
            if j >= 3 * (p - 1) {
                assert(j / 3 == p - 1);
            }
        }
    }
    assert(out@ =~= rgb_of_bgra(bgra@));
    out
}

/// Packs RGB pixels into `0x00RRGGBB` words.
pub fn rgb_to_pixels(rgb: &[u8]) -> (r: Vec<u32>)
    ensures
        r@ == pixels_of_rgb(rgb@),
{
    let n = rgb.len() / 3;
    let mut out: Vec<u32> = Vec::new();
    let mut p: usize = 0;
    while p < n
        invariant
            n == rgb@.len() / 3,
            rgb@.len() <= usize::MAX,
            0 <= p <= n,
            out@.len() == p,
            forall|j: int| 0 <= j < p ==> out@[j] == (rgb@[3 * j] * 65536 + rgb@[3 * j + 1] * 256
                + rgb@[3 * j + 2]) as u32,
        decreases n - p,
    {
        let base = 3 * p;
        let w: u32 = rgb[base] as u32 * 65536 + rgb[base + 1] as u32 * 256 + rgb[base + 2] as u32;
        out.push(w);
        p += 1;
    }
    assert(out@ =~= pixels_of_rgb(rgb@));
    out
}

/// The JPEG that the `image` crate's encoder makes of an RGB image of the
/// given size at the given quality, or `None` where it refuses it.
pub uninterp spec fn jpeg_encoding(rgb: Seq<u8>, width: u32, height: u32, quality: u8) -> Option<
    Seq<u8>,
>;

/// The image that the `image` crate's JPEG decoder makes of `data`: width,
/// height and the decoded bytes, or `None` where it refuses the data.
pub uninterp spec fn jpeg_decoding(data: Seq<u8>) -> Option<(u32, u32, Seq<u8>)>;

/// Encodes RGB pixels as JPEG with `image::codecs::jpeg::JpegEncoder`
/// (`new_with_quality`, then `write_image` as `Rgb8`). Claimed: the result
/// is the encoder's, named `jpeg_encoding`. The encoder asserts that the
/// buffer holds `width * height * 3` bytes, so that is required.
#[verifier::external_body]
fn jpeg_encode_rgb(rgb: &[u8], width: u32, height: u32, quality: u8) -> (r: Option<Vec<u8>>)
    requires
        rgb@.len() == width as int * height as int * 3,
    ensures
        match jpeg_encoding(rgb@, width, height, quality) {
            Some(j) => r matches Some(v) && v@ == j,
            None => r is None,
        },
{
    let mut buf = std::io::Cursor::new(Vec::with_capacity(256 * 1024));
    let encoder = image::codecs::jpeg::JpegEncoder::new_with_quality(&mut buf, quality);
    match encoder.write_image(rgb, width, height, image::ColorType::Rgb8.into()) {
        Ok(()) => Some(buf.into_inner()),
        Err(_) => None,
    }
}

/// Decodes JPEG data with `image::codecs::jpeg::JpegDecoder` (`new`,
/// `dimensions`, `total_bytes`, `read_image`). Claimed: the result is the
/// decoder's, named `jpeg_decoding`.
#[verifier::external_body]
fn jpeg_decode(data: &[u8]) -> (r: Option<(u32, u32, Vec<u8>)>)
    ensures
        match jpeg_decoding(data@) {
            Some((w, h, bytes)) => r matches Some((rw, rh, rb)) && rw == w && rh == h && rb@
                == bytes,
            None => r is None,
        },
{
    let decoder = match image::codecs::jpeg::JpegDecoder::new(std::io::Cursor::new(data)) {
        Ok(d) => d,
        Err(_) => return None,
    };
    let (w, h) = decoder.dimensions();
    let mut bytes = vec![0u8; decoder.total_bytes() as usize];
    match decoder.read_image(&mut bytes) {
        Ok(()) => Some((w, h, bytes)),
        Err(_) => None,
    }
}

/// Whether a captured frame's bytes are exactly its pixels, as the JPEG
/// encoder requires of the converted image.
pub open spec fn raw_frame_complete(raw: &RawFrame) -> bool {
    raw.bgra_data@.len() / 4 == (raw.width as u32) as int * (raw.height as u32) as int
}

/// Whether a captured frame's bytes are exactly its pixels.
pub fn raw_frame_ok(raw: &RawFrame) -> (r: bool)
    ensures
        r == raw_frame_complete(raw),
{
    let px: u64 = (raw.bgra_data.len() / 4) as u64;
    let w: u64 = (raw.width as u32) as u64;
    let h: u64 = (raw.height as u32) as u64;
    if w == 0 {
        assert(w * h == 0);
        return px == 0;
    }
    assert(px == w * h <==> (px % w == 0 && px / w == h)) by (nonlinear_arith)
        requires
            w > 0,
    ;
    if px % w != 0 {
        return false;
    }
    px / w == h
}

/// Compresses a captured frame to JPEG at `quality`. Sizes are cut to 32
/// bits for the encoder and to 16 bits for the frame, as the sender does.
pub fn encode_raw_frame(raw: &RawFrame, quality: u8) -> (r: Option<CapturedFrame>)
    requires
        raw_frame_complete(raw),
    ensures
        match jpeg_encoding(rgb_of_bgra(raw.bgra_data@), raw.width as u32, raw.height as u32, quality) {
            Some(j) => r matches Some(f) && f.width == raw.width as u16 && f.height
                == raw.height as u16 && f.jpeg_data@ == j,
            None => r is None,
        },
{
    let rgb = bgra_to_rgb(raw.bgra_data.as_slice());
    match jpeg_encode_rgb(rgb.as_slice(), raw.width as u32, raw.height as u32, quality) {
        Some(jpeg_data) => Some(
            CapturedFrame { width: raw.width as u16, height: raw.height as u16, jpeg_data },
        ),
        None => None,
    }
}

/// Decodes a received JPEG into `0x00RRGGBB` pixels for the viewer.
pub fn decode_jpeg(jpeg_data: &[u8]) -> (r: Option<DecodedFrame>)
    ensures
        match jpeg_decoding(jpeg_data@) {
            Some((w, h, bytes)) => r matches Some(f) && f.width == w as usize && f.height
                == h as usize && f.pixels@ == pixels_of_rgb(bytes),
            None => r is None,
        },
{
    match jpeg_decode(jpeg_data) {
        Some((w, h, bytes)) => {
            let pixels = rgb_to_pixels(bytes.as_slice());
            Some(DecodedFrame { width: w as usize, height: h as usize, pixels })
        },
        None => None,
    }
}

} // verus!
