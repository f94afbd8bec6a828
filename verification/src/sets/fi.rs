//! Feather: the icon set with the prefix `Fi`.

use crate::order::int_order;
use crate::record::IconData;
use icondata_fi::FiIcon;
use std::cmp::Ordering;
use vstd::prelude::*;

verus! {

/// `icondata_fi::FiIcon`, the enumeration of the set's icons: one unit variant
/// per icon. Nothing inside a value is visible to the verifier; in contracts
/// `fi_rank` stands for it.
#[verifier::external_type_specification]
#[verifier::external_body]
pub struct ExFiIcon(icondata_fi::FiIcon);

/// The position of an icon in the declaration of `FiIcon`, counted from zero.
pub uninterp spec fn fi_rank(icon: FiIcon) -> int;

/// The record that `icondata_fi` holds for the icon at a given position.
pub uninterp spec fn fi_record(rank: int) -> IconData;

/// Calls `IconData::from` of `icondata_core` on a `FiIcon` and moves the
/// outcome over field by field. The outside function is a `match` over the
/// variants with one constant record per arm, so its result depends on the
/// variant alone. Every constant in that table has a
/// non-empty `data`.
#[verifier::external_body]
fn fi_project(icon: FiIcon) -> (r: IconData)
    ensures
        r == fi_record(fi_rank(icon)),
        r.data@.len() > 0,
{
    let d = icondata_core::IconData::from(icon);
    IconData {
        style: d.style,
        x: d.x,
        y: d.y,
        width: d.width,
        height: d.height,
        view_box: d.view_box,
        stroke_linecap: d.stroke_linecap,
        stroke_linejoin: d.stroke_linejoin,
        stroke_width: d.stroke_width,
        stroke: d.stroke,
        fill: d.fill,
        data: d.data,
    }
}

impl From<FiIcon> for IconData {
    /// Projects a `FiIcon` to its render record: the record that the set
    /// holds for the icon. Its body is not empty.
    fn from(icon: FiIcon) -> (r: IconData)
        ensures
            r == fi_record(fi_rank(icon)),
            r.data@.len() > 0,
    {
        fi_project(icon)
    }
}

impl vstd::std_specs::convert::FromSpecImpl<FiIcon> for IconData {
    open spec fn obeys_from_spec() -> bool {
        true
    }

    open spec fn from_spec(icon: FiIcon) -> IconData {
        fi_record(fi_rank(icon))
    }
}

/// Calls `Ord::cmp` as `FiIcon` derives it. std documents the derived order
/// of an enum as the order in which its variants are declared, so the result
/// is the comparison of the two positions.
#[verifier::external_body]
pub(crate) fn fi_compare(a: FiIcon, b: FiIcon) -> (r: Ordering)
    ensures
        r == int_order(fi_rank(a), fi_rank(b)),
{
    a.cmp(&b)
}

} // verus!
