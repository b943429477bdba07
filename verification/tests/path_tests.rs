use piet_raqote::path::{build_path, PathElement};
use piet_raqote::style::{resolve_cap, resolve_join, FillRule, LineCap, LineJoin};

#[test]
fn path_fidelity_move_cubic_close() {
    let els = vec![
        PathElement::MoveTo(raqote::Point::new(1.5, 2.5)),
        PathElement::CurveTo(
            raqote::Point::new(3.0, 4.0),
            raqote::Point::new(5.0, 6.0),
            raqote::Point::new(7.0, 8.0),
        ),
        PathElement::Close,
    ];
    let p = build_path(&els, FillRule::NonZero);
    assert_eq!(p.ops.len(), 3);
    match p.ops[0] {
        raqote::PathOp::MoveTo(pt) => assert_eq!((pt.x, pt.y), (1.5, 2.5)),
        _ => panic!("expected a move-to"),
    }
    match p.ops[1] {
        raqote::PathOp::CubicTo(a, b, c) => {
            assert_eq!((a.x, a.y), (3.0, 4.0));
            assert_eq!((b.x, b.y), (5.0, 6.0));
            assert_eq!((c.x, c.y), (7.0, 8.0));
        }
        _ => panic!("expected a cubic-to"),
    }
    assert!(matches!(p.ops[2], raqote::PathOp::Close));
    assert!(matches!(p.winding, raqote::Winding::NonZero));
}

#[test]
fn path_keeps_every_kind_in_order() {
    let els = vec![
        PathElement::MoveTo(raqote::Point::new(0.0, 0.0)),
        PathElement::LineTo(raqote::Point::new(1.0, 0.0)),
        PathElement::QuadTo(raqote::Point::new(2.0, 1.0), raqote::Point::new(3.0, 0.0)),
        PathElement::CurveTo(
            raqote::Point::new(4.0, 1.0),
            raqote::Point::new(5.0, -1.0),
            raqote::Point::new(6.0, 0.0),
        ),
        PathElement::Close,
    ];
    let p = build_path(&els, FillRule::NonZero);
    assert_eq!(p.ops.len(), 5);
    assert!(matches!(p.ops[0], raqote::PathOp::MoveTo(_)));
    match p.ops[1] {
        raqote::PathOp::LineTo(pt) => assert_eq!((pt.x, pt.y), (1.0, 0.0)),
        _ => panic!("expected a line-to"),
    }
    match p.ops[2] {
        raqote::PathOp::QuadTo(c, pt) => {
            assert_eq!((c.x, c.y), (2.0, 1.0));
            assert_eq!((pt.x, pt.y), (3.0, 0.0));
        }
        _ => panic!("expected a quad-to"),
    }
    assert!(matches!(p.ops[3], raqote::PathOp::CubicTo(_, _, _)));
    assert!(matches!(p.ops[4], raqote::PathOp::Close));
}

#[test]
fn path_carries_requested_winding() {
    let els = vec![
        PathElement::MoveTo(raqote::Point::new(0.0, 0.0)),
        PathElement::LineTo(raqote::Point::new(1.0, 1.0)),
        PathElement::Close,
    ];
    let p = build_path(&els, FillRule::EvenOdd);
    assert!(matches!(p.winding, raqote::Winding::EvenOdd));
}

#[test]
fn empty_command_list_builds_empty_path() {
    let els: Vec<PathElement> = vec![];
    let p = build_path(&els, FillRule::NonZero);
    assert_eq!(p.ops.len(), 0);
}

#[test]
fn unset_cap_defaults_to_butt() {
    assert_eq!(resolve_cap(None), LineCap::Butt);
    assert_eq!(resolve_cap(Some(LineCap::Round)), LineCap::Round);
    assert_eq!(resolve_cap(Some(LineCap::Square)), LineCap::Square);
}

#[test]
fn unset_join_defaults_to_miter() {
    assert_eq!(resolve_join(None), LineJoin::Miter);
    assert_eq!(resolve_join(Some(LineJoin::Bevel)), LineJoin::Bevel);
    assert_eq!(resolve_join(Some(LineJoin::Round)), LineJoin::Round);
}
