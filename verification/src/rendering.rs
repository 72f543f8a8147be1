//! What a value is written as.
//!
//! The library writes integers, text and dates itself. It holds a float only
//! as bits and does not format it, and it leaves lists and maps to a JSON
//! renderer: for those it says what is to be written, and the caller writes it.

use vstd::prelude::*;
use crate::float::Float32;
use crate::float::Float64;

verus! {

/// The two layouts of a JSON renderer.
#[derive(Debug, Clone, Copy, PartialEq, Eq, Structural)]
pub enum JsonMode {
    Indented,
    Inline,
}

/// The outcome of writing a value.
#[derive(Debug)]
pub enum Rendering {
    /// The text of the value.
    Text(String),
    /// A binary32 number, to be formatted by the caller.
    Float32(Float32),
    /// A binary64 number, to be formatted by the caller.
    Float64(Float64),
    /// A list or a map, to be rendered as JSON in the given layout.
    Json(JsonMode),
}

/// A `Rendering` with its text as a sequence of characters.
pub enum RenderingView {
    Text(Seq<char>),
    Float32(Float32),
    Float64(Float64),
    Json(JsonMode),
}

impl View for Rendering {
    type V = RenderingView;

    open spec fn view(&self) -> RenderingView {
        match self {
            Rendering::Text(s) => RenderingView::Text(s@),
            Rendering::Float32(f) => RenderingView::Float32(*f),
            Rendering::Float64(f) => RenderingView::Float64(*f),
            Rendering::Json(mode) => RenderingView::Json(*mode),
        }
    }
}

} // verus!
