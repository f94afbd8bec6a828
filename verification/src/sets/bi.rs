//! BoxIcons: the icon set with the prefix `Bi`.

use crate::order::int_order;
use crate::record::IconData;
use icondata_bi::BiIcon;
use std::cmp::Ordering;
use vstd::prelude::*;

verus! {

/// `icondata_bi::BiIcon`, the enumeration of the set's icons: one unit variant
/// per icon. Nothing inside a value is visible to the verifier; in contracts
/// `bi_rank` stands for it.
#[verifier::external_type_specification]
#[verifier::external_body]
pub struct ExBiIcon(icondata_bi::BiIcon);

/// The position of an icon in the declaration of `BiIcon`, counted from zero.
pub uninterp spec fn bi_rank(icon: BiIcon) -> int;

/// The record that `icondata_bi` holds for the icon at a given position.
pub uninterp spec fn bi_record(rank: int) -> IconData;

/// Calls `IconData::from` of `icondata_core` on a `BiIcon` and moves the
/// outcome over field by field. The outside function is a `match` over the
/// variants with one constant record per arm, so its result depends on the
/// variant alone. Every constant in that table has a
/// non-empty `data`.
#[verifier::external_body]
fn bi_project(icon: BiIcon) -> (r: IconData)
    ensures
        r == bi_record(bi_rank(icon)),
        r.data@.len() > 0,
{
    let d = icondata_core::IconData::from(icon);
    IconData {
        style: d.style,
        x: d.x,
        y: d.y,
        width: d.width,
        height: d.height,
        view_box: d.view_box,
        stroke_linecap: d.stroke_linecap,
        stroke_linejoin: d.stroke_linejoin,
        stroke_width: d.stroke_width,
        stroke: d.stroke,
        fill: d.fill,
        data: d.data,
    }
}

impl From<BiIcon> for IconData {
    /// Projects a `BiIcon` to its render record: the record that the set
    /// holds for the icon. Its body is not empty.
    fn from(icon: BiIcon) -> (r: IconData)
        ensures
            r == bi_record(bi_rank(icon)),
            r.data@.len() > 0,
    {
        bi_project(icon)
    }
}

impl vstd::std_specs::convert::FromSpecImpl<BiIcon> for IconData {
    open spec fn obeys_from_spec() -> bool {
        true
    }

    open spec fn from_spec(icon: BiIcon) -> IconData {
        bi_record(bi_rank(icon))
    }
}

/// Calls `Ord::cmp` as `BiIcon` derives it. std documents the derived order
/// of an enum as the order in which its variants are declared, so the result
/// is the comparison of the two positions.
#[verifier::external_body]
pub(crate) fn bi_compare(a: BiIcon, b: BiIcon) -> (r: Ordering)
    ensures
        r == int_order(bi_rank(a), bi_rank(b)),
{
    a.cmp(&b)
}

} // verus!
