//! Charm: the icon set with the prefix `Ch`.

use crate::order::int_order;
use crate::record::IconData;
use icondata_ch::ChIcon;
use std::cmp::Ordering;
use vstd::prelude::*;

verus! {

/// `icondata_ch::ChIcon`, the enumeration of the set's icons: one unit variant
/// per icon. Nothing inside a value is visible to the verifier; in contracts
/// `ch_rank` stands for it.
#[verifier::external_type_specification]
#[verifier::external_body]
pub struct ExChIcon(icondata_ch::ChIcon);

/// The position of an icon in the declaration of `ChIcon`, counted from zero.
pub uninterp spec fn ch_rank(icon: ChIcon) -> int;

/// The record that `icondata_ch` holds for the icon at a given position.
pub uninterp spec fn ch_record(rank: int) -> IconData;

/// Calls `IconData::from` of `icondata_core` on a `ChIcon` and moves the
/// outcome over field by field. The outside function is a `match` over the
/// variants with one constant record per arm, so its result depends on the
/// variant alone. Every constant in that table has a
/// non-empty `data`.
#[verifier::external_body]
fn ch_project(icon: ChIcon) -> (r: IconData)
    ensures
        r == ch_record(ch_rank(icon)),
        r.data@.len() > 0,
{
    let d = icondata_core::IconData::from(icon);
    IconData {
        style: d.style,
        x: d.x,
        y: d.y,
        width: d.width,
        height: d.height,
        view_box: d.view_box,
        stroke_linecap: d.stroke_linecap,
        stroke_linejoin: d.stroke_linejoin,
        stroke_width: d.stroke_width,
        stroke: d.stroke,
        fill: d.fill,
        data: d.data,
    }
}

impl From<ChIcon> for IconData {
    /// Projects a `ChIcon` to its render record: the record that the set
    /// holds for the icon. Its body is not empty.
    fn from(icon: ChIcon) -> (r: IconData)
        ensures
            r == ch_record(ch_rank(icon)),
            r.data@.len() > 0,
    {
        ch_project(icon)
    }
}

impl vstd::std_specs::convert::FromSpecImpl<ChIcon> for IconData {
    open spec fn obeys_from_spec() -> bool {
        true
    }

    open spec fn from_spec(icon: ChIcon) -> IconData {
        ch_record(ch_rank(icon))
    }
}

/// Calls `Ord::cmp` as `ChIcon` derives it. std documents the derived order
/// of an enum as the order in which its variants are declared, so the result
/// is the comparison of the two positions.
#[verifier::external_body]
pub(crate) fn ch_compare(a: ChIcon, b: ChIcon) -> (r: Ordering)
    ensures
        r == int_order(ch_rank(a), ch_rank(b)),
{
    a.cmp(&b)
}

} // verus!
