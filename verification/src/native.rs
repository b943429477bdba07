//! The boundary to the rasterizer and to the geometry crates.
//!
//! Everything in this module is trusted: the declarations make the
//! outside types visible to the verifier, the uninterpreted functions
//! name what the outside calls return, and each wrapper's contract
//! states what the named outside function does, as its source shows it.

use vstd::prelude::*;
use crate::color::Image;
use crate::path::PathElement;
use crate::style::FillRule;

verus! {

// ---------- outside types that stand in signatures and fields ----------

/// kurbo's 2D affine transform, six `f64` coefficients; opaque here.
#[verifier::external_type_specification]
#[verifier::external_body]
pub struct ExAffine(kurbo::Affine);

/// raqote's drawing surface: a pixel buffer with a transform register.
#[verifier::external_type_specification]
#[verifier::external_body]
#[verifier::reject_recursive_types(Backing)]
pub struct ExDrawTarget<Backing>(raqote::DrawTarget<Backing>);

/// raqote's path builder, which accumulates path commands.
#[verifier::external_type_specification]
#[verifier::external_body]
pub struct ExPathBuilder(raqote::PathBuilder);

/// raqote's finished path: the commands plus a winding rule.
#[verifier::external_type_specification]
#[verifier::external_body]
pub struct ExPath(raqote::Path);

/// raqote's paint source (solid color, gradient or image).
#[verifier::external_type_specification]
#[verifier::external_body]
pub struct ExSource<'a>(raqote::Source<'a>);

/// raqote's stroke style record.
#[verifier::external_type_specification]
#[verifier::external_body]
pub struct ExStrokeStyle(raqote::StrokeStyle);

/// raqote's gradient: a list of color stops.
#[verifier::external_type_specification]
#[verifier::external_body]
pub struct ExGradient(raqote::Gradient);

/// raqote's spread mode for gradients outside the stop range.
#[verifier::external_type_specification]
#[verifier::external_body]
pub struct ExSpread(raqote::Spread);

/// raqote's sampling filter for image sources.
#[verifier::external_type_specification]
#[verifier::external_body]
pub struct ExFilterMode(raqote::FilterMode);

/// raqote's extend mode for image sources outside their bounds.
#[verifier::external_type_specification]
#[verifier::external_body]
pub struct ExExtendMode(raqote::ExtendMode);

/// euclid's marker for unitless coordinates.
#[verifier::external_type_specification]
#[verifier::external_body]
pub struct ExUnknownUnit(euclid::UnknownUnit);

/// euclid's 2D point, used by raqote as its single-precision `Point`.
#[verifier::external_type_specification]
#[verifier::external_body]
#[verifier::reject_recursive_types(T)]
#[verifier::reject_recursive_types(U)]
pub struct ExPoint2D<T, U>(euclid::Point2D<T, U>);

/// euclid's 2D transform, used by raqote as its `Transform`.
#[verifier::external_type_specification]
#[verifier::external_body]
#[verifier::reject_recursive_types(T)]
#[verifier::reject_recursive_types(Src)]
#[verifier::reject_recursive_types(Dst)]
pub struct ExTransform2D<T, Src, Dst>(euclid::Transform2D<T, Src, Dst>);

// ---------- names for what the outside calls return ----------

/// The composition of two affine transforms, as kurbo's multiplication
/// computes it; a function of the two coefficient sets alone.
pub uninterp spec fn affine_product(a: kurbo::Affine, b: kurbo::Affine) -> kurbo::Affine;

/// The rasterizer-side transform holding an affine's coefficients
/// narrowed to single precision; a function of the coefficients alone.
pub uninterp spec fn native_of(a: kurbo::Affine) -> raqote::Transform;

/// The commands a path builder has accumulated so far, in order.
pub uninterp spec fn builder_cmds(b: raqote::PathBuilder) -> Seq<PathElement>;

/// The commands of a finished path, in order.
pub uninterp spec fn path_cmds(p: raqote::Path) -> Seq<PathElement>;

/// The winding rule a finished path carries.
pub uninterp spec fn path_winding(p: raqote::Path) -> FillRule;

/// The transform stored in a drawing surface's transform register.
pub uninterp spec fn dt_transform(dt: raqote::DrawTarget) -> raqote::Transform;

/// The solid paint source of the four channel bytes red, green, blue,
/// alpha, as raqote's `Source::Solid` of a `SolidSource` holds them.
pub uninterp spec fn solid_of(r: u8, g: u8, b: u8, a: u8) -> raqote::Source<'static>;

/// kurbo's identity transform, the value `Affine::default` returns.
pub uninterp spec fn id_affine(u: ()) -> kurbo::Affine;

/// Holds of the paint sources the rasterizer can sample without
/// panicking: solid sources, gradients with at least one stop, and
/// images whose pixel slice covers their dimensions. Every source this
/// library constructs satisfies it; the drawing wrappers require it.
pub uninterp spec fn source_ok(s: raqote::Source) -> bool;

/// How many stops a gradient holds.
pub uninterp spec fn gradient_stop_count(g: raqote::Gradient) -> int;

/// The linear-gradient paint source raqote's `Source::LinearGradient`
/// builds of exactly these stops, this spread and this transform.
pub uninterp spec fn linear_source_of(
    g: raqote::Gradient,
    spread: raqote::Spread,
    t: raqote::Transform,
) -> raqote::Source<'static>;

/// The radial-gradient paint source raqote's `Source::RadialGradient`
/// builds of exactly these stops, this spread and this transform.
pub uninterp spec fn radial_source_of(
    g: raqote::Gradient,
    spread: raqote::Spread,
    t: raqote::Transform,
) -> raqote::Source<'static>;

/// The image paint source raqote's `Source::Image` builds of exactly
/// this bitmap's dimensions and pixels, these two modes and this
/// transform.
pub uninterp spec fn image_source_of(
    img: &Image,
    extend: raqote::ExtendMode,
    filter: raqote::FilterMode,
    t: raqote::Transform,
) -> raqote::Source;

/// The drawing surface after raqote's `DrawTarget::fill`, under the
/// default draw options, of the path with the given commands and winding
/// rule using the given source: a function of those four values alone.
pub uninterp spec fn dt_filled(
    dt: raqote::DrawTarget,
    cmds: Seq<PathElement>,
    rule: FillRule,
    src: raqote::Source,
) -> raqote::DrawTarget;

/// The drawing surface after raqote's `DrawTarget::stroke`, under the
/// default draw options, of the path with the given commands using the
/// given style and source: a function of those four values alone. The
/// path's winding rule plays no part in stroking.
pub uninterp spec fn dt_stroked(
    dt: raqote::DrawTarget,
    cmds: Seq<PathElement>,
    style: raqote::StrokeStyle,
    src: raqote::Source,
) -> raqote::DrawTarget;

/// The pixel content of a drawing surface.
pub uninterp spec fn dt_pixels(dt: raqote::DrawTarget) -> Seq<u32>;

// ---------- trusted wrappers ----------

/// Relies on kurbo's `Affine` multiplication: composes two transforms;
/// the result depends on the two coefficient sets alone.
#[verifier::external_body]
pub(crate) fn affine_mul(a: &kurbo::Affine, b: &kurbo::Affine) -> (r: kurbo::Affine)
    ensures
        r == affine_product(*a, *b),
{
    (*a) * (*b)
}

/// Relies on kurbo's `Affine::default`, which returns the identity
/// transform, named `id_affine` here.
#[verifier::external_body]
pub(crate) fn affine_identity() -> (r: kurbo::Affine)
    ensures
        r == id_affine(()),
{
    kurbo::Affine::default()
}

/// Relies on kurbo's `Affine::as_coeffs` and euclid's `Transform2D::new`
/// and `Transform2D::cast`: reads the six coefficients and narrows them
/// into the rasterizer's single-precision transform. The result depends
/// on the coefficients alone.
#[verifier::external_body]
pub(crate) fn affine_to_transform(a: &kurbo::Affine) -> (r: raqote::Transform)
    ensures
        r == native_of(*a),
{
    let c = a.as_coeffs();
    euclid::Transform2D::new(c[0], c[1], c[2], c[3], c[4], c[5]).cast()
}

/// Relies on raqote's `PathBuilder::new`: a new builder holds no commands.
pub assume_specification [ raqote::PathBuilder::new ]() -> (b: raqote::PathBuilder)
    ensures
        builder_cmds(b) == Seq::<PathElement>::empty(),
;

/// Relies on raqote's `PathBuilder::move_to`: appends a move-to of the
/// given point to the commands.
#[verifier::external_body]
pub(crate) fn pb_move_to(b: &mut raqote::PathBuilder, p: raqote::Point)
    ensures
        builder_cmds(*final(b)) == builder_cmds(*old(b)).push(PathElement::MoveTo(p)),
{
    b.move_to(p.x, p.y)
}

/// Relies on raqote's `PathBuilder::line_to`: appends a line-to of the
/// given point to the commands.
#[verifier::external_body]
pub(crate) fn pb_line_to(b: &mut raqote::PathBuilder, p: raqote::Point)
    ensures
        builder_cmds(*final(b)) == builder_cmds(*old(b)).push(PathElement::LineTo(p)),
{
    b.line_to(p.x, p.y)
}

/// Relies on raqote's `PathBuilder::quad_to`: appends a quadratic curve
/// through the control point to the end point.
#[verifier::external_body]
pub(crate) fn pb_quad_to(b: &mut raqote::PathBuilder, p1: raqote::Point, p2: raqote::Point)
    ensures
        builder_cmds(*final(b)) == builder_cmds(*old(b)).push(PathElement::QuadTo(p1, p2)),
{
    b.quad_to(p1.x, p1.y, p2.x, p2.y)
}

/// Relies on raqote's `PathBuilder::cubic_to`: appends a cubic curve
/// through the two control points to the end point.
#[verifier::external_body]
pub(crate) fn pb_cubic_to(
    b: &mut raqote::PathBuilder,
    p1: raqote::Point,
    p2: raqote::Point,
    p3: raqote::Point,
)
    ensures
        builder_cmds(*final(b)) == builder_cmds(*old(b)).push(PathElement::CurveTo(p1, p2, p3)),
{
    b.cubic_to(p1.x, p1.y, p2.x, p2.y, p3.x, p3.y)
}

/// Relies on raqote's `PathBuilder::close`: appends a close command.
pub assume_specification [ raqote::PathBuilder::close ](b: &mut raqote::PathBuilder)
    ensures
        builder_cmds(*final(b)) == builder_cmds(*old(b)).push(PathElement::Close),
;

/// Relies on raqote's `PathBuilder::finish`: hands the accumulated
/// commands over unchanged. Nothing is claimed of the winding rule: a
/// builder can also be made from an existing path, whose winding it
/// would keep.
pub assume_specification [ raqote::PathBuilder::finish ](b: raqote::PathBuilder) -> (p:
    raqote::Path)
    ensures
        path_cmds(p) == builder_cmds(b),
;

/// Relies on the public `winding` field of raqote's `Path`: selects the
/// winding rule the rasterizer applies when the path is filled; the
/// commands stay as they are.
#[verifier::external_body]
pub(crate) fn path_set_winding(p: &mut raqote::Path, rule: FillRule)
    ensures
        path_cmds(*final(p)) == path_cmds(*old(p)),
        path_winding(*final(p)) == rule,
{
    p.winding = match rule {
        FillRule::NonZero => raqote::Winding::NonZero,
        FillRule::EvenOdd => raqote::Winding::EvenOdd,
    };
}

/// Relies on raqote's `DrawTarget::set_transform`, which stores the given
/// transform in the target's transform register and changes nothing else;
/// in particular the pixel content stays as it is.
#[verifier::external_body]
pub(crate) fn dt_set_transform(dt: &mut raqote::DrawTarget, t: &raqote::Transform)
    ensures
        dt_transform(*final(dt)) == *t,
        dt_pixels(*final(dt)) == dt_pixels(*old(dt)),
{
    dt.set_transform(t)
}

/// Relies on raqote's `DrawTarget::fill`, called with the default draw
/// options: paints the path's area on the pixel buffer, leaving the
/// surface exactly at `dt_filled` of the old surface, the path's
/// commands and winding rule, and the source. The transform register is
/// not touched. The source must be one the rasterizer can sample.
#[verifier::external_body]
pub(crate) fn dt_fill(dt: &mut raqote::DrawTarget, path: &raqote::Path, src: &raqote::Source)
    requires
        source_ok(*src),
    ensures
        *final(dt) == dt_filled(*old(dt), path_cmds(*path), path_winding(*path), *src),
        dt_transform(*final(dt)) == dt_transform(*old(dt)),
{
    dt.fill(path, src, &raqote::DrawOptions::new())
}

/// Relies on raqote's `DrawTarget::stroke`, called with the default draw
/// options: strokes the path's commands with the given style, leaving
/// the surface exactly at `dt_stroked` of the old surface, the commands,
/// the style and the source. The transform register is not touched. The
/// source must be one the rasterizer can sample.
#[verifier::external_body]
pub(crate) fn dt_stroke(
    dt: &mut raqote::DrawTarget,
    path: &raqote::Path,
    style: &raqote::StrokeStyle,
    src: &raqote::Source,
)
    requires
        source_ok(*src),
    ensures
        *final(dt) == dt_stroked(*old(dt), path_cmds(*path), *style, *src),
        dt_transform(*final(dt)) == dt_transform(*old(dt)),
{
    dt.stroke(path, src, style, &raqote::DrawOptions::new())
}

/// Relies on raqote's `Source::Solid` and `SolidSource`: builds the solid
/// paint source of the four channel bytes. Solid sources are always safe
/// to sample.
#[verifier::external_body]
pub(crate) fn solid_source(r: u8, g: u8, b: u8, a: u8) -> (s: raqote::Source<'static>)
    ensures
        s == solid_of(r, g, b, a),
        source_ok(s),
{
    raqote::Source::Solid(raqote::SolidSource { r, g, b, a })
}

/// Relies on the public `stops` field of raqote's `Gradient`: reads how
/// many stops it holds.
#[verifier::external_body]
pub(crate) fn gradient_len(g: &raqote::Gradient) -> (n: usize)
    ensures
        n == gradient_stop_count(*g),
{
    g.stops.len()
}

/// Relies on raqote's `Source::LinearGradient`: builds the linear
/// gradient source of the stops, spread and transform. With at least one
/// stop the rasterizer's gradient table construction cannot index out of
/// bounds, so the source is safe to sample.
#[verifier::external_body]
pub(crate) fn make_linear_gradient_source(
    g: raqote::Gradient,
    spread: raqote::Spread,
    t: raqote::Transform,
) -> (s: raqote::Source<'static>)
    requires
        gradient_stop_count(g) >= 1,
    ensures
        s == linear_source_of(g, spread, t),
        source_ok(s),
{
    raqote::Source::LinearGradient(g, spread, t)
}

/// Relies on raqote's `Source::RadialGradient`: builds the radial
/// gradient source of the stops, spread and transform; safe to sample
/// with at least one stop, as for the linear case.
#[verifier::external_body]
pub(crate) fn make_radial_gradient_source(
    g: raqote::Gradient,
    spread: raqote::Spread,
    t: raqote::Transform,
) -> (s: raqote::Source<'static>)
    requires
        gradient_stop_count(g) >= 1,
    ensures
        s == radial_source_of(g, spread, t),
        source_ok(s),
{
    raqote::Source::RadialGradient(g, spread, t)
}

/// Relies on raqote's `Source::Image` and `Image`: builds the image
/// paint source borrowing the bitmap's pixels. The rasterizer clamps
/// sample coordinates into the image's bounds and then indexes the pixel
/// slice, so a source whose slice covers its positive dimensions, with
/// the pixel count within the rasterizer's 32-bit index space, is safe
/// to sample.
#[verifier::external_body]
pub(crate) fn make_image_source<'a>(
    img: &'a Image,
    extend: raqote::ExtendMode,
    filter: raqote::FilterMode,
    t: raqote::Transform,
) -> (s: raqote::Source<'a>)
    requires
        1 <= img.width,
        1 <= img.height,
        img.width * img.height == img.pixels@.len(),
        img.width * img.height <= 0x7fffffff,
    ensures
        s == image_source_of(img, extend, filter, t),
        source_ok(s),
{
    raqote::Source::Image(
        raqote::Image { width: img.width as i32, height: img.height as i32, data: &img.pixels },
        extend,
        filter,
        t,
    )
}

} // verus!
