//! The render record: the flat description of one SVG drawing.

use crate::text::{optional_text, optional_text_eq, text_eq};
use vstd::prelude::*;

verus! {

/// One SVG drawing, as a renderer reads it: eleven optional attributes and
/// the body markup. Every string lives for the whole program, so a record is
/// copied by value and never owns a buffer.
///
/// An absent attribute (`None`) is distinct from a present but empty one
/// (`Some("")`): a renderer leaves absent attributes out of the markup.
#[derive(Debug, Clone, Copy, Eq)]
pub struct IconData {
    /// Inline `style` attribute.
    pub style: Option<&'static str>,
    /// Horizontal placement origin.
    pub x: Option<&'static str>,
    /// Vertical placement origin.
    pub y: Option<&'static str>,
    /// Intrinsic width.
    pub width: Option<&'static str>,
    /// Intrinsic height.
    pub height: Option<&'static str>,
    /// The `viewBox` attribute.
    pub view_box: Option<&'static str>,
    /// The `stroke-linecap` attribute.
    pub stroke_linecap: Option<&'static str>,
    /// The `stroke-linejoin` attribute.
    pub stroke_linejoin: Option<&'static str>,
    /// The `stroke-width` attribute.
    pub stroke_width: Option<&'static str>,
    /// The `stroke` attribute.
    pub stroke: Option<&'static str>,
    /// The `fill` attribute.
    pub fill: Option<&'static str>,
    /// The SVG body markup.
    pub data: &'static str,
}

/// What a record says, character by character: the mathematical content of
/// an `IconData` and of a `CustomIcon` alike.
pub ghost struct RecordView {
    pub style: Option<Seq<char>>,
    pub x: Option<Seq<char>>,
    pub y: Option<Seq<char>>,
    pub width: Option<Seq<char>>,
    pub height: Option<Seq<char>>,
    pub view_box: Option<Seq<char>>,
    pub stroke_linecap: Option<Seq<char>>,
    pub stroke_linejoin: Option<Seq<char>>,
    pub stroke_width: Option<Seq<char>>,
    pub stroke: Option<Seq<char>>,
    pub fill: Option<Seq<char>>,
    pub data: Seq<char>,
}

impl View for IconData {
    type V = RecordView;

    open spec fn view(&self) -> RecordView {
        RecordView {
            style: optional_text(self.style),
            x: optional_text(self.x),
            y: optional_text(self.y),
            width: optional_text(self.width),
            height: optional_text(self.height),
            view_box: optional_text(self.view_box),
            stroke_linecap: optional_text(self.stroke_linecap),
            stroke_linejoin: optional_text(self.stroke_linejoin),
            stroke_width: optional_text(self.stroke_width),
            stroke: optional_text(self.stroke),
            fill: optional_text(self.fill),
            data: self.data@,
        }
    }
}

impl PartialEq for IconData {
    /// Structural equality: every attribute is absent in both records or
    /// holds the same characters in both, and the bodies are the same.
    fn eq(&self, other: &Self) -> (r: bool)
        ensures
            r == (self@ == other@),
    {
        optional_text_eq(self.style, other.style)
            && optional_text_eq(self.x, other.x)
            && optional_text_eq(self.y, other.y)
            && optional_text_eq(self.width, other.width)
            && optional_text_eq(self.height, other.height)
            && optional_text_eq(self.view_box, other.view_box)
            && optional_text_eq(self.stroke_linecap, other.stroke_linecap)
            && optional_text_eq(self.stroke_linejoin, other.stroke_linejoin)
            && optional_text_eq(self.stroke_width, other.stroke_width)
            && optional_text_eq(self.stroke, other.stroke)
            && optional_text_eq(self.fill, other.fill)
            && text_eq(self.data, other.data)
    }
}

impl vstd::std_specs::cmp::PartialEqSpecImpl for IconData {
    open spec fn obeys_eq_spec() -> bool {
        true
    }

    open spec fn eq_spec(&self, other: &Self) -> bool {
        self@ == other@
    }
}

} // verus!
