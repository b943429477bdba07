use vstd::prelude::*;
use crate::native::{
    builder_cmds, path_cmds, path_winding, path_set_winding, pb_cubic_to, pb_line_to, pb_move_to,
    pb_quad_to,
};
use crate::style::FillRule;

verus! {

/// One command of a path in the rasterizer's primitive vocabulary.
/// The points are the rasterizer's single-precision points.
#[derive(Clone, Copy, Debug)]
pub enum PathElement {
    MoveTo(raqote::Point),
    LineTo(raqote::Point),
    QuadTo(raqote::Point, raqote::Point),
    CurveTo(raqote::Point, raqote::Point, raqote::Point),
    Close,
}

/// Build a rasterizer path from the given commands under the given
/// winding rule. The commands are handed to the builder in order, none
/// is dropped, merged or reordered, and every point is passed through
/// unchanged.
pub fn build_path(els: &Vec<PathElement>, rule: FillRule) -> (p: raqote::Path)
    ensures
        path_cmds(p) == els@,
        path_winding(p) == rule,
{
    let mut builder = raqote::PathBuilder::new();
    let n: usize = els.len();
    let mut i: usize = 0;
    while i < n
        invariant
            n == els@.len(),
            i <= n,
            builder_cmds(builder) == els@.take(i as int),
        decreases n - i,
    {
        match els[i] {
            PathElement::MoveTo(p) => pb_move_to(&mut builder, p),
            PathElement::LineTo(p) => pb_line_to(&mut builder, p),
            PathElement::QuadTo(p1, p2) => pb_quad_to(&mut builder, p1, p2),
            PathElement::CurveTo(p1, p2, p3) => pb_cubic_to(&mut builder, p1, p2, p3),
            PathElement::Close => builder.close(),
        }
        proof {
            assert(els@.take(i + 1 as int) =~= els@.take(i as int).push(els@[i as int]));
        }
        i = i + 1;
    }
    let mut path = builder.finish();
    proof {
        assert(els@.take(n as int) =~= els@);
    }
    path_set_winding(&mut path, rule);
    path
}

} // verus!
