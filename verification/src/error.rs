use vstd::prelude::*;

verus! {

/// The failures this backend can report.
///
/// `StackImbalance` is returned by `restore` when there is no enclosing
/// scope to pop, and by `finish` when open scopes remain unmatched.
/// `UnsupportedFormat` is returned when a pixel buffer is ingested with a
/// format this backend does not implement a conversion for.
#[derive(Clone, Copy, Debug, PartialEq, Eq, Structural)]
pub enum Error {
    StackImbalance,
    UnsupportedFormat,
}

} // verus!
