//! The custom icon: a drawing written by hand, outside every curated set.

use crate::order::{reversed, then_order};
use crate::record::{IconData, RecordView};
use crate::text::{
    lemma_optional_text_order_equal, lemma_optional_text_order_reflexive,
    lemma_optional_text_order_reversed, lemma_optional_text_order_transitive,
    lemma_text_order_equal, lemma_text_order_reflexive, lemma_text_order_reversed,
    lemma_text_order_transitive, optional_text, optional_text_compare, optional_text_eq,
    optional_text_order, text_compare, text_eq, text_order,
};
use std::cmp::Ordering;
use vstd::prelude::*;

verus! {

/// A drawing supplied by the user. It has the fields of the render record,
/// one for one, and turns into it by a plain copy of the fields.
#[derive(Debug, Clone, Copy, Eq, Ord)]
pub struct CustomIcon {
    /// Inline `style` attribute.
    pub style: Option<&'static str>,
    /// Horizontal placement origin.
    pub x: Option<&'static str>,
    /// Vertical placement origin.
    pub y: Option<&'static str>,
    /// Intrinsic width.
    pub width: Option<&'static str>,
    /// Intrinsic height.
    pub height: Option<&'static str>,
    /// The `viewBox` attribute.
    pub view_box: Option<&'static str>,
    /// The `stroke-linecap` attribute.
    pub stroke_linecap: Option<&'static str>,
    /// The `stroke-linejoin` attribute.
    pub stroke_linejoin: Option<&'static str>,
    /// The `stroke-width` attribute.
    pub stroke_width: Option<&'static str>,
    /// The `stroke` attribute.
    pub stroke: Option<&'static str>,
    /// The `fill` attribute.
    pub fill: Option<&'static str>,
    /// The SVG body markup.
    pub data: &'static str,
}

impl View for CustomIcon {
    type V = RecordView;

    open spec fn view(&self) -> RecordView {
        RecordView {
            style: optional_text(self.style),
            x: optional_text(self.x),
            y: optional_text(self.y),
            width: optional_text(self.width),
            height: optional_text(self.height),
            view_box: optional_text(self.view_box),
            stroke_linecap: optional_text(self.stroke_linecap),
            stroke_linejoin: optional_text(self.stroke_linejoin),
            stroke_width: optional_text(self.stroke_width),
            stroke: optional_text(self.stroke),
            fill: optional_text(self.fill),
            data: self.data@,
        }
    }
}

/// Order of two records: lexicographic over the twelve fields in the order
/// of their declaration, each optional attribute by `optional_text_order`
/// and the body by `text_order`.
pub open spec fn record_order(a: RecordView, b: RecordView) -> Ordering {
    then_order(
        optional_text_order(a.style, b.style),
        then_order(
            optional_text_order(a.x, b.x),
            then_order(
                optional_text_order(a.y, b.y),
                then_order(
                    optional_text_order(a.width, b.width),
                    then_order(
                        optional_text_order(a.height, b.height),
                        then_order(
                            optional_text_order(a.view_box, b.view_box),
                            stroke_and_body_order(a, b),
                        ),
                    ),
                ),
            ),
        ),
    )
}

/// The second half of `record_order`: the stroke attributes, the fill and
/// the body.
pub open spec fn stroke_and_body_order(a: RecordView, b: RecordView) -> Ordering {
    then_order(
        optional_text_order(a.stroke_linecap, b.stroke_linecap),
        then_order(
            optional_text_order(a.stroke_linejoin, b.stroke_linejoin),
            then_order(
                optional_text_order(a.stroke_width, b.stroke_width),
                then_order(
                    optional_text_order(a.stroke, b.stroke),
                    then_order(optional_text_order(a.fill, b.fill), text_order(a.data, b.data)),
                ),
            ),
        ),
    )
}

impl CustomIcon {
    /// The render record of a custom icon: each field copied as it is.
    pub open spec fn record(self) -> IconData {
        IconData {
            style: self.style,
            x: self.x,
            y: self.y,
            width: self.width,
            height: self.height,
            view_box: self.view_box,
            stroke_linecap: self.stroke_linecap,
            stroke_linejoin: self.stroke_linejoin,
            stroke_width: self.stroke_width,
            stroke: self.stroke,
            fill: self.fill,
            data: self.data,
        }
    }
}

impl From<CustomIcon> for IconData {
    /// Projects a custom icon to its render record: a copy, field for field.
    fn from(icon: CustomIcon) -> (r: IconData)
        ensures
            r == icon.record(),
    {
        IconData {
            style: icon.style,
            x: icon.x,
            y: icon.y,
            width: icon.width,
            height: icon.height,
            view_box: icon.view_box,
            stroke_linecap: icon.stroke_linecap,
            stroke_linejoin: icon.stroke_linejoin,
            stroke_width: icon.stroke_width,
            stroke: icon.stroke,
            fill: icon.fill,
            data: icon.data,
        }
    }
}

impl vstd::std_specs::convert::FromSpecImpl<CustomIcon> for IconData {
    open spec fn obeys_from_spec() -> bool {
        true
    }

    open spec fn from_spec(icon: CustomIcon) -> IconData {
        icon.record()
    }
}

impl PartialEq for CustomIcon {
    /// Structural equality: every attribute is absent in both icons or holds
    /// the same characters in both, and the bodies are the same.
    fn eq(&self, other: &Self) -> (r: bool)
        ensures
            r == (self@ == other@),
    {
        optional_text_eq(self.style, other.style)
            && optional_text_eq(self.x, other.x)
            && optional_text_eq(self.y, other.y)
            && optional_text_eq(self.width, other.width)
            && optional_text_eq(self.height, other.height)
            && optional_text_eq(self.view_box, other.view_box)
            && optional_text_eq(self.stroke_linecap, other.stroke_linecap)
            && optional_text_eq(self.stroke_linejoin, other.stroke_linejoin)
            && optional_text_eq(self.stroke_width, other.stroke_width)
            && optional_text_eq(self.stroke, other.stroke)
            && optional_text_eq(self.fill, other.fill)
            && text_eq(self.data, other.data)
    }
}

impl vstd::std_specs::cmp::PartialEqSpecImpl for CustomIcon {
    open spec fn obeys_eq_spec() -> bool {
        true
    }

    open spec fn eq_spec(&self, other: &Self) -> bool {
        self@ == other@
    }
}

impl PartialOrd for CustomIcon {
    /// Compares two custom icons field by field, in the order of the fields'
    /// declaration; the first field that differs decides.
    fn partial_cmp(&self, other: &Self) -> (r: Option<Ordering>)
        ensures
            r == Some(record_order(self@, other@)),
    {
        let o = optional_text_compare(self.style, other.style);
        if !matches!(o, Ordering::Equal) {
            return Some(o);
        }
        let o = optional_text_compare(self.x, other.x);
        if !matches!(o, Ordering::Equal) {
            return Some(o);
        }
        let o = optional_text_compare(self.y, other.y);
        if !matches!(o, Ordering::Equal) {
            return Some(o);
        }
        let o = optional_text_compare(self.width, other.width);
        if !matches!(o, Ordering::Equal) {
            return Some(o);
        }
        let o = optional_text_compare(self.height, other.height);
        if !matches!(o, Ordering::Equal) {
            return Some(o);
        }
        let o = optional_text_compare(self.view_box, other.view_box);
        if !matches!(o, Ordering::Equal) {
            return Some(o);
        }
        let o = optional_text_compare(self.stroke_linecap, other.stroke_linecap);
        if !matches!(o, Ordering::Equal) {
            return Some(o);
        }
        let o = optional_text_compare(self.stroke_linejoin, other.stroke_linejoin);
        if !matches!(o, Ordering::Equal) {
            return Some(o);
        }
        let o = optional_text_compare(self.stroke_width, other.stroke_width);
        if !matches!(o, Ordering::Equal) {
            return Some(o);
        }
        let o = optional_text_compare(self.stroke, other.stroke);
        if !matches!(o, Ordering::Equal) {
            return Some(o);
        }
        let o = optional_text_compare(self.fill, other.fill);
        if !matches!(o, Ordering::Equal) {
            return Some(o);
        }
        Some(text_compare(self.data, other.data))
    }
}

impl vstd::std_specs::cmp::PartialOrdSpecImpl for CustomIcon {
    open spec fn obeys_partial_cmp_spec() -> bool {
        true
    }

    open spec fn partial_cmp_spec(&self, other: &Self) -> Option<Ordering> {
        Some(record_order(self@, other@))
    }
}

/// Every record is `Equal` to itself.
pub proof fn lemma_record_order_reflexive(a: RecordView)
    ensures
        record_order(a, a) == Ordering::Equal,
{
    lemma_optional_text_order_reflexive(a.style);
    lemma_optional_text_order_reflexive(a.x);
    lemma_optional_text_order_reflexive(a.y);
    lemma_optional_text_order_reflexive(a.width);
    lemma_optional_text_order_reflexive(a.height);
    lemma_optional_text_order_reflexive(a.view_box);
    lemma_optional_text_order_reflexive(a.stroke_linecap);
    lemma_optional_text_order_reflexive(a.stroke_linejoin);
    lemma_optional_text_order_reflexive(a.stroke_width);
    lemma_optional_text_order_reflexive(a.stroke);
    lemma_optional_text_order_reflexive(a.fill);
    lemma_text_order_reflexive(a.data);
}

/// Two records compare `Equal` only if they are the same record.
pub proof fn lemma_record_order_equal(a: RecordView, b: RecordView)
    requires
        record_order(a, b) == Ordering::Equal,
    ensures
        a == b,
{
    lemma_optional_text_order_equal(a.style, b.style);
    lemma_optional_text_order_equal(a.x, b.x);
    lemma_optional_text_order_equal(a.y, b.y);
    lemma_optional_text_order_equal(a.width, b.width);
    lemma_optional_text_order_equal(a.height, b.height);
    lemma_optional_text_order_equal(a.view_box, b.view_box);
    lemma_optional_text_order_equal(a.stroke_linecap, b.stroke_linecap);
    lemma_optional_text_order_equal(a.stroke_linejoin, b.stroke_linejoin);
    lemma_optional_text_order_equal(a.stroke_width, b.stroke_width);
    lemma_optional_text_order_equal(a.stroke, b.stroke);
    lemma_optional_text_order_equal(a.fill, b.fill);
    lemma_text_order_equal(a.data, b.data);
}

/// Exchanging the two records reverses the result.
pub proof fn lemma_record_order_reversed(a: RecordView, b: RecordView)
    ensures
        record_order(b, a) == reversed(record_order(a, b)),
{
    lemma_optional_text_order_reversed(a.style, b.style);
    lemma_optional_text_order_reversed(a.x, b.x);
    lemma_optional_text_order_reversed(a.y, b.y);
    lemma_optional_text_order_reversed(a.width, b.width);
    lemma_optional_text_order_reversed(a.height, b.height);
    lemma_optional_text_order_reversed(a.view_box, b.view_box);
    lemma_optional_text_order_reversed(a.stroke_linecap, b.stroke_linecap);
    lemma_optional_text_order_reversed(a.stroke_linejoin, b.stroke_linejoin);
    lemma_optional_text_order_reversed(a.stroke_width, b.stroke_width);
    lemma_optional_text_order_reversed(a.stroke, b.stroke);
    lemma_optional_text_order_reversed(a.fill, b.fill);
    lemma_text_order_reversed(a.data, b.data);
}

/// `record_order` is transitive: if `a` is not after `b` and `b` is not
/// after `c`, then `a` is not after `c`, and `a` compares `Equal` to `c`
/// only if both steps were `Equal`.
pub proof fn lemma_record_order_transitive(a: RecordView, b: RecordView, c: RecordView)
    requires
        record_order(a, b) != Ordering::Greater,
        record_order(b, c) != Ordering::Greater,
    ensures
        record_order(a, c) != Ordering::Greater,
        record_order(a, c) == Ordering::Equal ==> record_order(a, b) == Ordering::Equal
            && record_order(b, c) == Ordering::Equal,
{
    if optional_text_order(a.style, b.style) != Ordering::Greater && optional_text_order(
        b.style,
        c.style,
    ) != Ordering::Greater {
        lemma_optional_text_order_transitive(a.style, b.style, c.style);
    }
    if optional_text_order(a.x, b.x) != Ordering::Greater && optional_text_order(
        b.x,
        c.x,
    ) != Ordering::Greater {
        lemma_optional_text_order_transitive(a.x, b.x, c.x);
    }
    if optional_text_order(a.y, b.y) != Ordering::Greater && optional_text_order(
        b.y,
        c.y,
    ) != Ordering::Greater {
        lemma_optional_text_order_transitive(a.y, b.y, c.y);
    }
    if optional_text_order(a.width, b.width) != Ordering::Greater && optional_text_order(
        b.width,
        c.width,
    ) != Ordering::Greater {
        lemma_optional_text_order_transitive(a.width, b.width, c.width);
    }
    if optional_text_order(a.height, b.height) != Ordering::Greater && optional_text_order(
        b.height,
        c.height,
    ) != Ordering::Greater {
        lemma_optional_text_order_transitive(a.height, b.height, c.height);
    }
    if optional_text_order(a.view_box, b.view_box) != Ordering::Greater && optional_text_order(
        b.view_box,
        c.view_box,
    ) != Ordering::Greater {
        lemma_optional_text_order_transitive(a.view_box, b.view_box, c.view_box);
    }
    if optional_text_order(a.stroke_linecap, b.stroke_linecap) != Ordering::Greater && optional_text_order(
        b.stroke_linecap,
        c.stroke_linecap,
    ) != Ordering::Greater {
        lemma_optional_text_order_transitive(a.stroke_linecap, b.stroke_linecap, c.stroke_linecap);
    }
    if optional_text_order(a.stroke_linejoin, b.stroke_linejoin) != Ordering::Greater && optional_text_order(
        b.stroke_linejoin,
        c.stroke_linejoin,
    ) != Ordering::Greater {
        lemma_optional_text_order_transitive(a.stroke_linejoin, b.stroke_linejoin, c.stroke_linejoin);
    }
    if optional_text_order(a.stroke_width, b.stroke_width) != Ordering::Greater && optional_text_order(
        b.stroke_width,
        c.stroke_width,
    ) != Ordering::Greater {
        lemma_optional_text_order_transitive(a.stroke_width, b.stroke_width, c.stroke_width);
    }
    if optional_text_order(a.stroke, b.stroke) != Ordering::Greater && optional_text_order(
        b.stroke,
        c.stroke,
    ) != Ordering::Greater {
        lemma_optional_text_order_transitive(a.stroke, b.stroke, c.stroke);
    }
    if optional_text_order(a.fill, b.fill) != Ordering::Greater && optional_text_order(
        b.fill,
        c.fill,
    ) != Ordering::Greater {
        lemma_optional_text_order_transitive(a.fill, b.fill, c.fill);
    }
    if text_order(a.data, b.data) != Ordering::Greater && text_order(b.data, c.data)
        != Ordering::Greater {
        lemma_text_order_transitive(a.data, b.data, c.data);
    }
}

} // verus!
