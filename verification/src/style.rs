use vstd::prelude::*;

verus! {

/// The shape drawn at the ends of a stroked line.
#[derive(Clone, Copy, Debug, PartialEq, Eq, Structural)]
pub enum LineCap {
    Butt,
    Round,
    Square,
}

/// The shape drawn where two stroked segments meet.
#[derive(Clone, Copy, Debug, PartialEq, Eq, Structural)]
pub enum LineJoin {
    Miter,
    Round,
    Bevel,
}

/// The winding rule that decides which enclosed regions a fill covers.
#[derive(Clone, Copy, Debug, PartialEq, Eq, Structural)]
pub enum FillRule {
    NonZero,
    EvenOdd,
}

/// Apply the stroke-style default: an unset line cap means `Butt`.
pub fn resolve_cap(cap: Option<LineCap>) -> (r: LineCap)
    ensures
        r == match cap {
            Some(c) => c,
            None => LineCap::Butt,
        },
{
    match cap {
        Some(c) => c,
        None => LineCap::Butt,
    }
}

/// Apply the stroke-style default: an unset line join means `Miter`.
pub fn resolve_join(join: Option<LineJoin>) -> (r: LineJoin)
    ensures
        r == match join {
            Some(j) => j,
            None => LineJoin::Miter,
        },
{
    match join {
        Some(j) => j,
        None => LineJoin::Miter,
    }
}

} // verus!
