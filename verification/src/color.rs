use vstd::prelude::*;
use crate::error::Error;

verus! {

/// Pack four channel bytes into a `u32`, most-significant byte first.
pub open spec fn spec_pack(c0: u8, c1: u8, c2: u8, c3: u8) -> u32 {
    ((c0 as u32) << 24) | ((c1 as u32) << 16) | ((c2 as u32) << 8) | (c3 as u32)
}

/// Rotate a packed RGBA value into the rasterizer's ARGB layout:
/// the alpha byte moves to the most-significant position.
pub open spec fn spec_rgba_to_arbg(rgba: u32) -> u32 {
    (rgba << 24) | (rgba >> 8)
}

/// The inverse rotation, from ARGB back to RGBA.
pub open spec fn spec_arbg_to_rgba(arbg: u32) -> u32 {
    (arbg >> 24) | (arbg << 8)
}

/// Split a packed RGBA value into its four channel bytes,
/// most-significant byte first (red).
pub fn split_rgba(rgba: u32) -> (parts: (u8, u8, u8, u8))
    ensures
        parts.0 == (rgba >> 24) as u8,
        parts.1 == ((rgba >> 16) & 255) as u8,
        parts.2 == ((rgba >> 8) & 255) as u8,
        parts.3 == (rgba & 255) as u8,
        spec_pack(parts.0, parts.1, parts.2, parts.3) == rgba,
{
    let parts = (
        (rgba >> 24) as u8,
        ((rgba >> 16) & 255) as u8,
        ((rgba >> 8) & 255) as u8,
        (rgba & 255) as u8,
    );
    proof {
        lemma_split_pack_round_trip(rgba);
    }
    parts
}

/// Repack the four channel bytes produced by `split_rgba`.
pub fn pack_rgba(c0: u8, c1: u8, c2: u8, c3: u8) -> (rgba: u32)
    ensures
        rgba == spec_pack(c0, c1, c2, c3),
{
    ((c0 as u32) << 24) | ((c1 as u32) << 16) | ((c2 as u32) << 8) | (c3 as u32)
}

/// Convert a packed RGBA value to the rasterizer's layout by bit rotation.
pub fn rgba_to_arbg(rgba: u32) -> (arbg: u32)
    ensures
        arbg == spec_rgba_to_arbg(rgba),
{
    (rgba << 24) | (rgba >> 8)
}

/// Invert the rotation done by `rgba_to_arbg`.
pub fn arbg_to_rgba(arbg: u32) -> (rgba: u32)
    ensures
        rgba == spec_arbg_to_rgba(arbg),
{
    (arbg >> 24) | (arbg << 8)
}

/// Splitting a packed value into bytes and packing them again gives the
/// original value back, for every `u32`.
pub proof fn lemma_split_pack_round_trip(rgba: u32)
    ensures
        spec_pack(
            (rgba >> 24) as u8,
            ((rgba >> 16) & 255) as u8,
            ((rgba >> 8) & 255) as u8,
            (rgba & 255) as u8,
        ) == rgba,
{
    assert(((((rgba >> 24) as u8) as u32) << 24) | ((((rgba >> 16) & 255) as u8 as u32) << 16)
        | ((((rgba >> 8) & 255) as u8 as u32) << 8) | ((rgba & 255) as u8 as u32) == rgba)
        by (bit_vector);
}

/// The byte rotation into the rasterizer's layout is a bijection on the
/// 32-bit space: the inverse rotation undoes it in both directions.
pub proof fn lemma_arbg_round_trip(x: u32)
    ensures
        spec_arbg_to_rgba(spec_rgba_to_arbg(x)) == x,
        spec_rgba_to_arbg(spec_arbg_to_rgba(x)) == x,
{
    assert((((x << 24) | (x >> 8)) >> 24) | (((x << 24) | (x >> 8)) << 8) == x) by (bit_vector);
    assert((((x >> 24) | (x << 8)) << 24) | (((x >> 24) | (x << 8)) >> 8) == x) by (bit_vector);
}

/// The fixed-point approximation of `round(x * a / 255)` used when
/// premultiplying a color channel by its alpha.
pub open spec fn spec_premul(x: u8, a: u8) -> u32 {
    let p = ((x as u32) * (a as u32)) as u32;
    ((p + (p >> 8) + 0x80) as u32) >> 8
}

/// Premultiply the channel `x` by the alpha `a` with integer rounding.
pub fn premul(x: u8, a: u8) -> (r: u8)
    ensures
        r as u32 == spec_premul(x, a),
        r as u32 <= 255,
{
    proof {
        assert((x as u32) * (a as u32) <= 255 * 255) by (nonlinear_arith)
            requires
                x as u32 <= 255,
                a as u32 <= 255,
        ;
    }
    let p: u32 = (x as u32) * (a as u32);
    proof {
        let q = p;
        assert(q <= 65025 ==> (q >> 8) <= 255) by (bit_vector);
        assert(q <= 65025 ==> ((q + (q >> 8) + 0x80) as u32) >> 8 < 256) by (bit_vector);
    }
    let r: u32 = (p + (p >> 8) + 0x80) >> 8;
    r as u8
}

/// The pixel layouts a buffer can declare. `Other` stands for every
/// format this backend does not implement a conversion for.
#[derive(Clone, Copy, Debug, PartialEq, Eq, Structural)]
pub enum ImageFormat {
    /// 3 bytes per pixel, in RGB order; the pixel is opaque.
    Rgb,
    /// 4 bytes per pixel, in RGBA order, alpha not yet applied.
    RgbaSeparate,
    /// 4 bytes per pixel, in RGBA order, alpha already applied.
    RgbaPremul,
    /// An unrecognized format; ingestion fails.
    Other,
}

/// A bitmap in the rasterizer's native representation: packed 32-bit
/// pixels, premultiplied, alpha in the most-significant byte.
#[derive(Debug)]
pub struct Image {
    pub width: usize,
    pub height: usize,
    pub pixels: Vec<u32>,
}

pub open spec fn format_supported(format: ImageFormat) -> bool {
    format != ImageFormat::Other
}

pub open spec fn spec_bytes_per_pixel(format: ImageFormat) -> int {
    match format {
        ImageFormat::Rgb => 3,
        ImageFormat::RgbaSeparate => 4,
        ImageFormat::RgbaPremul => 4,
        ImageFormat::Other => 0,
    }
}

/// The native packed pixel that pixel number `i` of a buffer in the given
/// layout converts to: alpha first, color channels premultiplied.
pub open spec fn spec_native_pixel(format: ImageFormat, buf: Seq<u8>, i: int) -> u32 {
    match format {
        ImageFormat::Rgb => spec_pack(255, buf[3 * i], buf[3 * i + 1], buf[3 * i + 2]),
        ImageFormat::RgbaSeparate => spec_pack(
            buf[4 * i + 3],
            spec_premul(buf[4 * i], buf[4 * i + 3]) as u8,
            spec_premul(buf[4 * i + 1], buf[4 * i + 3]) as u8,
            spec_premul(buf[4 * i + 2], buf[4 * i + 3]) as u8,
        ),
        ImageFormat::RgbaPremul => spec_pack(
            buf[4 * i + 3],
            buf[4 * i],
            buf[4 * i + 1],
            buf[4 * i + 2],
        ),
        ImageFormat::Other => 0,
    }
}

/// Convert a raw pixel buffer into the rasterizer's native premultiplied
/// representation. A buffer with an unrecognized format is rejected with
/// `UnsupportedFormat` and no image is produced.
pub fn image_from_buffer(width: usize, height: usize, buf: &[u8], format: ImageFormat) -> (r:
    Result<Image, Error>)
    requires
        format_supported(format) ==> buf@.len() == width * height * spec_bytes_per_pixel(format),
    ensures
        !format_supported(format) ==> r == Err::<Image, Error>(Error::UnsupportedFormat),
        format_supported(format) ==> match r {
            Ok(img) => img.width == width && img.height == height && img.pixels@.len() == width
                * height && (forall|i: int|
                0 <= i < width * height ==> img.pixels@[i] == spec_native_pixel(
                    format,
                    buf@,
                    i,
                )),
            Err(_) => false,
        },
{
    let bpp: usize = match format {
        ImageFormat::Rgb => 3,
        ImageFormat::RgbaSeparate => 4,
        ImageFormat::RgbaPremul => 4,
        ImageFormat::Other => {
            return Err(Error::UnsupportedFormat);
        },
    };
    let len: usize = buf.len();
    proof {
        assert(width * height <= width * height * (bpp as int)) by (nonlinear_arith)
            requires
                bpp >= 1,
                width >= 0,
                height >= 0,
        ;
        assert(width * height <= len);
    }
    let n: usize = width * height;
    let mut pixels: Vec<u32> = Vec::new();
    let mut i: usize = 0;
    while i < n
        invariant
            format_supported(format),
            bpp == spec_bytes_per_pixel(format),
            n == width * height,
            len == buf@.len(),
            buf@.len() == n * bpp,
            i <= n,
            pixels@.len() == i,
            forall|j: int| 0 <= j < i ==> pixels@[j] == spec_native_pixel(format, buf@, j),
        decreases n - i,
    {
        proof {
            assert((i + 1) * (bpp as int) <= n * bpp && i * bpp + bpp == (i + 1) * (bpp as int))
                by (nonlinear_arith)
                requires
                    i < n,
                    bpp >= 0,
            ;
            assert(i * bpp + bpp <= len);
        }
        let base: usize = i * bpp;
        let px: u32 = match format {
            ImageFormat::Rgb => pack_rgba(255, buf[base], buf[base + 1], buf[base + 2]),
            ImageFormat::RgbaSeparate => {
                let a = buf[base + 3];
                pack_rgba(
                    a,
                    premul(buf[base], a),
                    premul(buf[base + 1], a),
                    premul(buf[base + 2], a),
                )
            },
            ImageFormat::RgbaPremul => pack_rgba(
                buf[base + 3],
                buf[base],
                buf[base + 1],
                buf[base + 2],
            ),
            ImageFormat::Other => 0,
        };
        pixels.push(px);
        i = i + 1;
    }
    Ok(Image { width, height, pixels })
}

} // verus!
