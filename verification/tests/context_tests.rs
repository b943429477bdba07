use piet_raqote::color::ImageFormat;
use piet_raqote::path::PathElement;
use piet_raqote::style::FillRule;
use piet_raqote::{Error, RaqoteRenderContext};

#[test]
fn save_restore_balance_then_finish() {
    let mut dt = raqote::DrawTarget::new(4, 4);
    let mut ctx = RaqoteRenderContext::new();
    assert_eq!(ctx.depth(), 1);
    ctx.save().unwrap();
    ctx.save().unwrap();
    ctx.save().unwrap();
    assert_eq!(ctx.depth(), 4);
    ctx.restore(&mut dt).unwrap();
    ctx.restore(&mut dt).unwrap();
    ctx.restore(&mut dt).unwrap();
    assert_eq!(ctx.depth(), 1);
    assert!(ctx.finish().is_ok());
    assert_eq!(ctx.depth(), 0);
}

#[test]
fn extra_restore_fails_and_leaves_depth_unchanged() {
    let mut dt = raqote::DrawTarget::new(4, 4);
    let mut ctx = RaqoteRenderContext::new();
    ctx.save().unwrap();
    ctx.restore(&mut dt).unwrap();
    let r = ctx.restore(&mut dt);
    assert!(matches!(r, Err(Error::StackImbalance)));
    assert_eq!(ctx.depth(), 1);
}

#[test]
fn finish_with_open_scope_fails() {
    let mut ctx = RaqoteRenderContext::new();
    ctx.save().unwrap();
    let r = ctx.finish();
    assert!(matches!(r, Err(Error::StackImbalance)));
    assert_eq!(ctx.depth(), 2);
}

#[test]
fn finish_twice_fails() {
    let mut ctx = RaqoteRenderContext::new();
    ctx.finish().unwrap();
    let r = ctx.finish();
    assert!(matches!(r, Err(Error::StackImbalance)));
}

#[test]
fn transform_composes_in_order_and_restore_reverts() {
    let mut dt = raqote::DrawTarget::new(4, 4);
    let mut ctx = RaqoteRenderContext::new();
    let before = ctx.current_transform();
    ctx.save().unwrap();
    let m1 = kurbo::Affine::new([2.0, 0.0, 0.0, 2.0, 10.0, 0.0]);
    let m2 = kurbo::Affine::new([1.0, 0.5, -0.5, 1.0, 5.0, 7.0]);
    ctx.transform(&mut dt, m1);
    ctx.transform(&mut dt, m2);
    let expected = before * m1 * m2;
    assert_eq!(ctx.current_transform().as_coeffs(), expected.as_coeffs());
    ctx.restore(&mut dt).unwrap();
    assert_eq!(ctx.current_transform().as_coeffs(), before.as_coeffs());
}

#[test]
fn transform_is_pushed_to_surface_register() {
    let mut dt = raqote::DrawTarget::new(4, 4);
    let mut ctx = RaqoteRenderContext::new();
    let before = ctx.current_transform();
    let m = kurbo::Affine::new([3.0, 0.0, 0.0, 4.0, 1.0, 2.0]);
    ctx.transform(&mut dt, m);
    let c = (before * m).as_coeffs();
    let expected = raqote::Transform::new(
        c[0] as f32,
        c[1] as f32,
        c[2] as f32,
        c[3] as f32,
        c[4] as f32,
        c[5] as f32,
    );
    assert_eq!(*dt.get_transform(), expected);
}

#[test]
fn restore_pushes_enclosing_transform_to_register() {
    let mut dt = raqote::DrawTarget::new(4, 4);
    let mut ctx = RaqoteRenderContext::new();
    let root = ctx.current_transform();
    ctx.save().unwrap();
    ctx.transform(&mut dt, kurbo::Affine::new([2.0, 0.0, 0.0, 2.0, 0.0, 0.0]));
    ctx.restore(&mut dt).unwrap();
    let c = root.as_coeffs();
    let expected = raqote::Transform::new(
        c[0] as f32,
        c[1] as f32,
        c[2] as f32,
        c[3] as f32,
        c[4] as f32,
        c[5] as f32,
    );
    assert_eq!(*dt.get_transform(), expected);
}

#[test]
fn solid_brush_splits_channels() {
    let mut ctx = RaqoteRenderContext::new();
    let brush = ctx.solid_brush(0x11223380).unwrap();
    match brush {
        raqote::Source::Solid(s) => {
            assert_eq!((s.r, s.g, s.b, s.a), (0x11, 0x22, 0x33, 0x80));
        }
        _ => panic!("expected a solid source"),
    }
}

#[test]
fn status_always_ok() {
    let mut ctx = RaqoteRenderContext::new();
    assert!(ctx.status().is_ok());
}

#[test]
fn fill_paints_and_preserves_register() {
    let mut dt = raqote::DrawTarget::new(4, 4);
    let mut ctx = RaqoteRenderContext::new();
    let register_before = *dt.get_transform();
    let brush = ctx.solid_brush(0xffffffff).unwrap();
    let els = vec![
        PathElement::MoveTo(raqote::Point::new(0.0, 0.0)),
        PathElement::LineTo(raqote::Point::new(4.0, 0.0)),
        PathElement::LineTo(raqote::Point::new(4.0, 4.0)),
        PathElement::LineTo(raqote::Point::new(0.0, 4.0)),
        PathElement::Close,
    ];
    ctx.fill(&mut dt, &els, &brush, FillRule::NonZero);
    assert_eq!(*dt.get_transform(), register_before);
    assert_eq!(dt.get_data()[5], 0xffffffff);
}

#[test]
fn stroke_paints_and_preserves_register() {
    let mut dt = raqote::DrawTarget::new(8, 8);
    let mut ctx = RaqoteRenderContext::new();
    let register_before = *dt.get_transform();
    let brush = ctx.solid_brush(0xffffffff).unwrap();
    let els = vec![
        PathElement::MoveTo(raqote::Point::new(0.0, 4.0)),
        PathElement::LineTo(raqote::Point::new(8.0, 4.0)),
    ];
    let style = raqote::StrokeStyle {
        width: 2.0,
        ..raqote::StrokeStyle::default()
    };
    ctx.stroke(&mut dt, &els, &brush, &style);
    assert_eq!(*dt.get_transform(), register_before);
    assert_eq!(dt.get_data()[4 * 8 + 4], 0xffffffff);
}

#[test]
fn make_image_rejects_unknown_format() {
    let mut ctx = RaqoteRenderContext::new();
    let r = ctx.make_image(1, 1, &[0u8, 0, 0, 0], ImageFormat::Other);
    assert!(matches!(r, Err(Error::UnsupportedFormat)));
}

#[test]
fn make_image_converts_supported_format() {
    let mut ctx = RaqoteRenderContext::new();
    let img = ctx.make_image(1, 1, &[9u8, 8, 7], ImageFormat::Rgb).unwrap();
    assert_eq!(img.pixels, vec![0xff090807]);
}
