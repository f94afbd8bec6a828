//! IcoMoon Free: the icon set with the prefix `Im`.

use crate::order::int_order;
use crate::record::IconData;
use icondata_im::ImIcon;
use std::cmp::Ordering;
use vstd::prelude::*;

verus! {

/// `icondata_im::ImIcon`, the enumeration of the set's icons: one unit variant
/// per icon. Nothing inside a value is visible to the verifier; in contracts
/// `im_rank` stands for it.
#[verifier::external_type_specification]
#[verifier::external_body]
pub struct ExImIcon(icondata_im::ImIcon);

/// The position of an icon in the declaration of `ImIcon`, counted from zero.
pub uninterp spec fn im_rank(icon: ImIcon) -> int;

/// The record that `icondata_im` holds for the icon at a given position.
pub uninterp spec fn im_record(rank: int) -> IconData;

/// Calls `IconData::from` of `icondata_core` on an `ImIcon` and moves the
/// outcome over field by field. The outside function is a `match` over the
/// variants with one constant record per arm, so its result depends on the
/// variant alone. Every constant in that table has a
/// non-empty `data`.
#[verifier::external_body]
fn im_project(icon: ImIcon) -> (r: IconData)
    ensures
        r == im_record(im_rank(icon)),
        r.data@.len() > 0,
{
    let d = icondata_core::IconData::from(icon);
    IconData {
        style: d.style,
        x: d.x,
        y: d.y,
        width: d.width,
        height: d.height,
        view_box: d.view_box,
        stroke_linecap: d.stroke_linecap,
        stroke_linejoin: d.stroke_linejoin,
        stroke_width: d.stroke_width,
        stroke: d.stroke,
        fill: d.fill,
        data: d.data,
    }
}

impl From<ImIcon> for IconData {
    /// Projects an `ImIcon` to its render record: the record that the set
    /// holds for the icon. Its body is not empty.
    fn from(icon: ImIcon) -> (r: IconData)
        ensures
            r == im_record(im_rank(icon)),
            r.data@.len() > 0,
    {
        im_project(icon)
    }
}

impl vstd::std_specs::convert::FromSpecImpl<ImIcon> for IconData {
    open spec fn obeys_from_spec() -> bool {
        true
    }

    open spec fn from_spec(icon: ImIcon) -> IconData {
        im_record(im_rank(icon))
    }
}

/// Calls `Ord::cmp` as `ImIcon` derives it. std documents the derived order
/// of an enum as the order in which its variants are declared, so the result
/// is the comparison of the two positions.
#[verifier::external_body]
pub(crate) fn im_compare(a: ImIcon, b: ImIcon) -> (r: Ordering)
    ensures
        r == int_order(im_rank(a), im_rank(b)),
{
    a.cmp(&b)
}

} // verus!
