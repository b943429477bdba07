use vstd::prelude::*;

verus! {

/// Placeholder for the text factory: text shaping and layout are not
/// implemented by this backend.
pub struct RaqoteText;

/// Placeholder for a loaded font; not implemented.
pub struct RaqoteFont;

/// Placeholder for a font builder; not implemented.
pub struct RaqoteFontBuilder;

/// Placeholder for a laid-out text run; not implemented.
pub struct RaqoteTextLayout;

/// Placeholder for a text-layout builder; not implemented.
pub struct RaqoteTextLayoutBuilder;

} // verus!
