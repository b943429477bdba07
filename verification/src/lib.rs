//! A software-rasterizer backend for an abstract 2D vector-graphics
//! drawing interface.
//!
//! The crate translates high-level drawing primitives into the
//! rasterizer's native representations: packed colors into its
//! premultiplied alpha-first layout, abstract path elements into its
//! path-builder calls, and a nested save/restore transform stack into
//! updates of its transform register.

pub mod brush;
pub mod color;
pub mod context;
pub mod error;
pub mod native;
pub mod path;
pub mod style;
pub mod text;

pub use color::{arbg_to_rgba, pack_rgba, premul, rgba_to_arbg, split_rgba};
pub use context::RaqoteRenderContext;
pub use error::Error;
pub use text::{RaqoteFont, RaqoteFontBuilder, RaqoteText, RaqoteTextLayout, RaqoteTextLayoutBuilder};
