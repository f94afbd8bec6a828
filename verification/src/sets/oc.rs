//! Github Octicons: the icon set with the prefix `Oc`.

use crate::order::int_order;
use crate::record::IconData;
use icondata_oc::OcIcon;
use std::cmp::Ordering;
use vstd::prelude::*;

verus! {

/// `icondata_oc::OcIcon`, the enumeration of the set's icons: one unit variant
/// per icon. Nothing inside a value is visible to the verifier; in contracts
/// `oc_rank` stands for it.
#[verifier::external_type_specification]
#[verifier::external_body]
pub struct ExOcIcon(icondata_oc::OcIcon);

/// The position of an icon in the declaration of `OcIcon`, counted from zero.
pub uninterp spec fn oc_rank(icon: OcIcon) -> int;

/// The record that `icondata_oc` holds for the icon at a given position.
pub uninterp spec fn oc_record(rank: int) -> IconData;

/// Calls `IconData::from` of `icondata_core` on an `OcIcon` and moves the
/// outcome over field by field. The outside function is a `match` over the
/// variants with one constant record per arm, so its result depends on the
/// variant alone. Every constant in that table has a
/// non-empty `data`.
#[verifier::external_body]
fn oc_project(icon: OcIcon) -> (r: IconData)
    ensures
        r == oc_record(oc_rank(icon)),
        r.data@.len() > 0,
{
    let d = icondata_core::IconData::from(icon);
    IconData {
        style: d.style,
        x: d.x,
        y: d.y,
        width: d.width,
        height: d.height,
        view_box: d.view_box,
        stroke_linecap: d.stroke_linecap,
        stroke_linejoin: d.stroke_linejoin,
        stroke_width: d.stroke_width,
        stroke: d.stroke,
        fill: d.fill,
        data: d.data,
    }
}

impl From<OcIcon> for IconData {
    /// Projects an `OcIcon` to its render record: the record that the set
    /// holds for the icon. Its body is not empty.
    fn from(icon: OcIcon) -> (r: IconData)
        ensures
            r == oc_record(oc_rank(icon)),
            r.data@.len() > 0,
    {
        oc_project(icon)
    }
}

impl vstd::std_specs::convert::FromSpecImpl<OcIcon> for IconData {
    open spec fn obeys_from_spec() -> bool {
        true
    }

    open spec fn from_spec(icon: OcIcon) -> IconData {
        oc_record(oc_rank(icon))
    }
}

/// Calls `Ord::cmp` as `OcIcon` derives it. std documents the derived order
/// of an enum as the order in which its variants are declared, so the result
/// is the comparison of the two positions.
#[verifier::external_body]
pub(crate) fn oc_compare(a: OcIcon, b: OcIcon) -> (r: Ordering)
    ensures
        r == int_order(oc_rank(a), oc_rank(b)),
{
    a.cmp(&b)
}

} // verus!
