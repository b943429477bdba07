use vstd::prelude::*;
use crate::color::Image;
use crate::native::{
    gradient_stop_count, image_source_of, linear_source_of, make_image_source,
    make_linear_gradient_source, make_radial_gradient_source, radial_source_of, source_ok,
};

verus! {

/// A linear-gradient paint source of exactly the given stops, spread
/// and rasterizer-space transform. The rasterizer cannot sample a
/// gradient without stops, so an empty stop list yields `None` and no
/// source.
pub fn linear_gradient_brush(
    g: raqote::Gradient,
    spread: raqote::Spread,
    t: raqote::Transform,
) -> (r: Option<raqote::Source<'static>>)
    ensures
        match r {
            Some(s) => gradient_stop_count(g) >= 1 && s == linear_source_of(g, spread, t)
                && source_ok(s),
            None => gradient_stop_count(g) < 1,
        },
{
    if crate::native::gradient_len(&g) >= 1 {
        Some(make_linear_gradient_source(g, spread, t))
    } else {
        None
    }
}

/// A radial-gradient paint source of exactly the given stops, spread
/// and rasterizer-space transform; `None` on an empty stop list, as for
/// the linear case.
pub fn radial_gradient_brush(
    g: raqote::Gradient,
    spread: raqote::Spread,
    t: raqote::Transform,
) -> (r: Option<raqote::Source<'static>>)
    ensures
        match r {
            Some(s) => gradient_stop_count(g) >= 1 && s == radial_source_of(g, spread, t)
                && source_ok(s),
            None => gradient_stop_count(g) < 1,
        },
{
    if crate::native::gradient_len(&g) >= 1 {
        Some(make_radial_gradient_source(g, spread, t))
    } else {
        None
    }
}

/// An image paint source of exactly the given bitmap, modes and
/// rasterizer-space transform, borrowing the bitmap's pixels. The
/// rasterizer samples the pixel slice through clamped 32-bit indices,
/// so the source exists exactly when the dimensions are positive, the
/// slice covers them, and the pixel count stays within that index
/// space.
pub fn image_brush<'a>(
    img: &'a Image,
    extend: raqote::ExtendMode,
    filter: raqote::FilterMode,
    t: raqote::Transform,
) -> (r: Option<raqote::Source<'a>>)
    ensures
        r is Some <==> 1 <= img.width && 1 <= img.height && img.width * img.height
            == img.pixels@.len() && img.width * img.height <= 0x7fffffff,
        match r {
            Some(s) => s == image_source_of(img, extend, filter, t) && source_ok(s),
            None => true,
        },
{
    if img.width < 1 || img.height < 1 {
        return None;
    }
    match img.width.checked_mul(img.height) {
        Some(n) => {
            if n == img.pixels.len() && n <= 0x7fffffff {
                Some(make_image_source(img, extend, filter, t))
            } else {
                None
            }
        },
        None => None,
    }
}

} // verus!
