//! VS Code Icons: the icon set with the prefix `Vs`.

use crate::order::int_order;
use crate::record::IconData;
use icondata_vs::VsIcon;
use std::cmp::Ordering;
use vstd::prelude::*;

verus! {

/// `icondata_vs::VsIcon`, the enumeration of the set's icons: one unit variant
/// per icon. Nothing inside a value is visible to the verifier; in contracts
/// `vs_rank` stands for it.
#[verifier::external_type_specification]
#[verifier::external_body]
pub struct ExVsIcon(icondata_vs::VsIcon);

/// The position of an icon in the declaration of `VsIcon`, counted from zero.
pub uninterp spec fn vs_rank(icon: VsIcon) -> int;

/// The position of `VsBlank`, the one icon of the set whose body is empty.
pub open spec fn vs_blank_rank() -> int {
    26
}

/// The record that `icondata_vs` holds for the icon at a given position.
pub uninterp spec fn vs_record(rank: int) -> IconData;

/// Calls `IconData::from` of `icondata_core` on a `VsIcon` and moves the
/// outcome over field by field. The outside function is a `match` over the
/// variants with one constant record per arm, so its result depends on the
/// variant alone. Every constant in that table has a
/// non-empty `data` but the one of `VsBlank`, the variant at position 26,
/// whose `data` is the empty string.
#[verifier::external_body]
fn vs_project(icon: VsIcon) -> (r: IconData)
    ensures
        r == vs_record(vs_rank(icon)),
        vs_rank(icon) != vs_blank_rank() ==> r.data@.len() > 0,
{
    let d = icondata_core::IconData::from(icon);
    IconData {
        style: d.style,
        x: d.x,
        y: d.y,
        width: d.width,
        height: d.height,
        view_box: d.view_box,
        stroke_linecap: d.stroke_linecap,
        stroke_linejoin: d.stroke_linejoin,
        stroke_width: d.stroke_width,
        stroke: d.stroke,
        fill: d.fill,
        data: d.data,
    }
}

impl From<VsIcon> for IconData {
    /// Projects a `VsIcon` to its render record: the record that the set
    /// holds for the icon. Its body is not empty unless the icon is `VsBlank`.
    fn from(icon: VsIcon) -> (r: IconData)
        ensures
            r == vs_record(vs_rank(icon)),
            vs_rank(icon) != vs_blank_rank() ==> r.data@.len() > 0,
    {
        vs_project(icon)
    }
}

impl vstd::std_specs::convert::FromSpecImpl<VsIcon> for IconData {
    open spec fn obeys_from_spec() -> bool {
        true
    }

    open spec fn from_spec(icon: VsIcon) -> IconData {
        vs_record(vs_rank(icon))
    }
}

/// Calls `Ord::cmp` as `VsIcon` derives it. std documents the derived order
/// of an enum as the order in which its variants are declared, so the result
/// is the comparison of the two positions.
#[verifier::external_body]
pub(crate) fn vs_compare(a: VsIcon, b: VsIcon) -> (r: Ordering)
    ensures
        r == int_order(vs_rank(a), vs_rank(b)),
{
    a.cmp(&b)
}

} // verus!
