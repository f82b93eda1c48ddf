//! Icon rendering: pixel conversion and encoding.
//!
//! A platform that can extract an icon hands over a bottom-up BGRA
//! bitmap; the library converts it to a top-down RGBA buffer (verified
//! exactly), encodes it as PNG and then base64 (both through trusted
//! wrappers around outside encoders). Where no extraction facility
//! exists, `extract_icon_base64` reports failure and the caller
//! degrades to "no icon".

use vstd::prelude::*;
use base64::Engine;

verus! {

/// What base64's standard alphabet with padding makes of a byte
/// sequence; the result depends on the bytes alone.
pub uninterp spec fn base64_of(bytes: Seq<u8>) -> Seq<char>;

/// What the PNG encoder makes of an RGBA buffer of the given
/// dimensions; the result depends on buffer and dimensions alone.
pub uninterp spec fn png_of(rgba: Seq<u8>, width: u32, height: u32) -> Seq<u8>;

/// Relies on base64's `STANDARD` engine `encode`: standard alphabet,
/// padded, so four output characters for every three input bytes; the
/// result depends on the bytes alone. The length bound keeps the
/// encoder's own size computation from overflowing.
#[verifier::external_body]
pub(crate) fn base64_encode(data: &Vec<u8>) -> (r: String)
    requires
        data@.len() <= usize::MAX as int / 4,
    ensures
        r@ == base64_of(data@),
        r@.len() == 4 * ((data@.len() + 2) / 3),
{
    base64::engine::general_purpose::STANDARD.encode(data.as_slice())
}

/// Relies on image's `PngEncoder` (through `ImageEncoder::write_image`
/// with `ExtendedColorType::Rgba8`): encodes the RGBA buffer as PNG
/// into a byte vector; the result depends on buffer and dimensions
/// alone. The buffer length must match the dimensions exactly.
#[verifier::external_body]
pub(crate) fn png_encode_rgba(data: &Vec<u8>, width: u32, height: u32) -> (r: Option<Vec<u8>>)
    requires
        data@.len() == 4 * ((width as int) * (height as int)),
    ensures
        r matches Some(png) ==> png@ == png_of(data@, width, height),
{
    let mut buf: Vec<u8> = Vec::new();
    let enc = image::codecs::png::PngEncoder::new(&mut buf);
    let res = image::ImageEncoder::write_image(
        enc,
        data.as_slice(),
        width,
        height,
        image::ExtendedColorType::Rgba8,
    );
    match res {
        Ok(()) => Some(buf),
        Err(_) => None,
    }
}

/// Which source (BGRA) channel feeds each destination (RGBA) channel.
pub open spec fn bgra_source_channel(c: int) -> int {
    if c == 0 {
        2
    } else if c == 1 {
        1
    } else if c == 2 {
        0
    } else {
        3
    }
}

/// Byte offset of channel `c` of pixel `(x, y)` in a row-major
/// four-byte-per-pixel buffer `w` pixels wide.
pub open spec fn byte_at(w: int, x: int, y: int, c: int) -> int {
    4 * (y * w + x) + c
}

/// `dst` is `src` flipped vertically with each pixel's BGRA channels
/// reordered to RGBA.
pub open spec fn is_flipped_rgba(src: Seq<u8>, width: u32, height: u32, dst: Seq<u8>) -> bool {
    &&& dst.len() == src.len()
    &&& forall|x: int, y: int, c: int|
        #![trigger byte_at(width as int, x, y, c)]
        0 <= x < width && 0 <= y < height && 0 <= c < 4 ==> dst[byte_at(width as int, x, y, c)]
            == src[byte_at(width as int, x, height - 1 - y, bgra_source_channel(c))]
}

/// Converts a bottom-up BGRA bitmap to a top-down RGBA buffer.
pub fn bgra_flip_to_rgba(pixels: &Vec<u8>, width: u32, height: u32) -> (out: Vec<u8>)
    requires
        pixels@.len() == 4 * ((width as int) * (height as int)),
    ensures
        is_flipped_rgba(pixels@, width, height, out@),
{
    let total = pixels.len();
    let w = width as usize;
    let h = height as usize;
    let ghost wi = width as int;
    let mut out: Vec<u8> = Vec::new();
    let mut y: usize = 0;
    while y < h
        invariant
            w == width as int,
            h == height as int,
            total == pixels@.len(),
            total == 4 * ((w as int) * (h as int)),
            y <= h,
            wi == w as int,
            out@.len() == 4 * ((y as int) * (w as int)),
            forall|xx: int, yy: int, cc: int|
                #![trigger byte_at(wi, xx, yy, cc)]
                0 <= xx < w && 0 <= yy < y && 0 <= cc < 4 ==> out@[byte_at(wi, xx, yy, cc)]
                    == pixels@[byte_at(wi, xx, h - 1 - yy, bgra_source_channel(cc))],
        decreases h - y,
    {
        let src_row = h - 1 - y;
        let mut x: usize = 0;
        proof {
            assert((y as int) * (w as int) <= (h as int) * (w as int)) by (nonlinear_arith)
                requires
                    0 <= y as int,
                    (y as int) <= (h as int),
                    0 <= w as int,
            ;
        }
        while x < w
            invariant
                w == width as int,
                h == height as int,
                total == pixels@.len(),
                total == 4 * ((w as int) * (h as int)),
                y < h,
                x <= w,
                wi == w as int,
                src_row == h - 1 - y,
                out@.len() == 4 * ((y as int) * (w as int)) + 4 * (x as int),
                forall|xx: int, yy: int, cc: int|
                    #![trigger byte_at(wi, xx, yy, cc)]
                    0 <= xx < w && 0 <= yy < y && 0 <= cc < 4 ==> out@[byte_at(wi, xx, yy, cc)]
                        == pixels@[byte_at(wi, xx, h - 1 - yy, bgra_source_channel(cc))],
                forall|xx: int, cc: int|
                    #![trigger byte_at(wi, xx, y as int, cc)]
                    0 <= xx < x && 0 <= cc < 4 ==> out@[byte_at(wi, xx, y as int, cc)]
                        == pixels@[byte_at(wi, xx, h - 1 - y, bgra_source_channel(cc))],
            decreases w - x,
        {
            proof {
                assert((src_row as int) * (w as int) + (x as int) < (w as int) * (h as int))
                    by (nonlinear_arith)
                    requires
                        0 <= src_row as int,
                        (src_row as int) < (h as int),
                        0 <= x as int,
                        (x as int) < (w as int),
                ;
                assert((y as int) * (w as int) + (x as int) < (w as int) * (h as int))
                    by (nonlinear_arith)
                    requires
                        0 <= y as int,
                        (y as int) < (h as int),
                        0 <= x as int,
                        (x as int) < (w as int),
                ;
            }
            let src = 4 * (src_row * w + x);
            let bb = pixels[src];
            let gg = pixels[src + 1];
            let rr = pixels[src + 2];
            let aa = pixels[src + 3];
            let ghost len_before = out@.len() as int;
            let ghost out_before = out@;
            out.push(rr);
            out.push(gg);
            out.push(bb);
            out.push(aa);
            proof {
                let xi = x as int;
                let yi = y as int;
                let hi = h as int;
                assert(out@ == out_before.push(rr).push(gg).push(bb).push(aa));
                assert forall|idx: int| 0 <= idx < len_before implies out@[idx]
                    == out_before[idx] by {
                    assert(out_before.push(rr)[idx] == out_before[idx]);
                    assert(out_before.push(rr).push(gg)[idx] == out_before.push(rr)[idx]);
                    assert(out_before.push(rr).push(gg).push(bb)[idx] == out_before.push(rr).push(
                        gg,
                    )[idx]);
                }
                assert(len_before == byte_at(wi, xi, yi, 0));
                assert(out@[len_before] == rr);
                assert(out@[len_before + 1] == gg);
                assert(out@[len_before + 2] == bb);
                assert(out@[len_before + 3] == aa);
                assert(src == byte_at(wi, xi, hi - 1 - yi, 0));
                assert forall|cc: int| 0 <= cc < 4 implies out@[byte_at(wi, xi, yi, cc)]
                    == pixels@[byte_at(wi, xi, hi - 1 - yi, bgra_source_channel(cc))] by {
                    assert(byte_at(wi, xi, yi, cc) == len_before + cc);
                    assert(byte_at(wi, xi, hi - 1 - yi, bgra_source_channel(cc)) == src
                        + bgra_source_channel(cc));
                }
                assert forall|xx: int, yy: int, cc: int|
                    0 <= xx < wi && 0 <= yy < yi && 0 <= cc < 4 implies out@[#[trigger] byte_at(
                    wi,
                    xx,
                    yy,
                    cc,
                )] == pixels@[byte_at(wi, xx, hi - 1 - yy, bgra_source_channel(cc))] by {
                    assert(yy * wi + xx < yi * wi) by (nonlinear_arith)
                        requires
                            0 <= xx,
                            xx < wi,
                            0 <= yy,
                            yy < yi,
                    ;
                    assert(byte_at(wi, xx, yy, cc) < len_before);
                    assert(out@[byte_at(wi, xx, yy, cc)] == out_before[byte_at(wi, xx, yy, cc)]);
                    assert(out_before[byte_at(wi, xx, yy, cc)] == pixels@[byte_at(
                        wi,
                        xx,
                        hi - 1 - yy,
                        bgra_source_channel(cc),
                    )]);
                }
                assert forall|xx: int, cc: int|
                    0 <= xx < xi && 0 <= cc < 4 implies out@[#[trigger] byte_at(
                    wi,
                    xx,
                    yi,
                    cc,
                )] == pixels@[byte_at(wi, xx, hi - 1 - yi, bgra_source_channel(cc))] by {
                    assert(byte_at(wi, xx, yi, cc) < len_before);
                    assert(out@[byte_at(wi, xx, yi, cc)] == out_before[byte_at(wi, xx, yi, cc)]);
                    assert(out_before[byte_at(wi, xx, yi, cc)] == pixels@[byte_at(
                        wi,
                        xx,
                        hi - 1 - yi,
                        bgra_source_channel(cc),
                    )]);
                }
            }
            x = x + 1;
        }
        proof {
            assert(4 * ((y as int + 1) * (w as int)) == 4 * ((y as int) * (w as int)) + 4 * (
            w as int)) by (nonlinear_arith);
            assert forall|xx: int, yy: int, cc: int|
                0 <= xx < w && 0 <= yy < y + 1 && 0 <= cc < 4 implies out@[#[trigger] byte_at(
                wi,
                xx,
                yy,
                cc,
            )] == pixels@[byte_at(wi, xx, h - 1 - yy, bgra_source_channel(cc))] by {
                if yy < y {
                } else {
                    assert(yy == y as int);
                    assert(byte_at(wi, xx, yy, cc) == byte_at(wi, xx, y as int, cc));
                }
            }
        }
        y = y + 1;
    }
    proof {
        assert((h as int) * (w as int) == (w as int) * (h as int)) by (nonlinear_arith);
    }
    out
}

/// Encodes a top-down RGBA buffer as PNG and then base64. `None` when
/// the PNG encoder refuses the buffer or its output is too large to
/// re-encode.
pub fn encode_rgba_png_base64(rgba: &Vec<u8>, width: u32, height: u32) -> (r: Option<String>)
    requires
        rgba@.len() == 4 * ((width as int) * (height as int)),
    ensures
        r matches Some(s) ==> s@ == base64_of(png_of(rgba@, width, height)),
{
    match png_encode_rgba(rgba, width, height) {
        Some(png) => {
            if png.len() <= usize::MAX / 4 {
                Some(base64_encode(&png))
            } else {
                None
            }
        },
        None => None,
    }
}

/// Renders one extracted icon bitmap: flips and reorders the pixels,
/// then encodes them as a base64 PNG payload.
pub fn render_icon_png_base64(pixels: &Vec<u8>, width: u32, height: u32) -> (r: Option<String>)
    requires
        pixels@.len() == 4 * ((width as int) * (height as int)),
    ensures
        r matches Some(s) ==> exists|rgba: Seq<u8>|
            #[trigger] is_flipped_rgba(pixels@, width, height, rgba) && s@ == base64_of(
                png_of(rgba, width, height),
            ),
{
    let rgba = bgra_flip_to_rgba(pixels, width, height);
    encode_rgba_png_base64(&rgba, width, height)
}

/// Extracts and encodes the icon of the executable at `exe_path`. On
/// a platform without an icon-extraction facility the capability is
/// absent: the call reports failure, and a caller degrades to "no
/// icon" rather than failing its listing.
pub fn extract_icon_base64(_exe_path: &str) -> (r: Result<String, ()>)
    ensures
        r is Err,
{
    Err(())
}

} // verus!
