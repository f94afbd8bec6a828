//! Ionicons: the icon set with the prefix `Io`.

use crate::order::int_order;
use crate::record::IconData;
use icondata_io::IoIcon;
use std::cmp::Ordering;
use vstd::prelude::*;

verus! {

/// `icondata_io::IoIcon`, the enumeration of the set's icons: one unit variant
/// per icon. Nothing inside a value is visible to the verifier; in contracts
/// `io_rank` stands for it.
#[verifier::external_type_specification]
#[verifier::external_body]
pub struct ExIoIcon(icondata_io::IoIcon);

/// The position of an icon in the declaration of `IoIcon`, counted from zero.
pub uninterp spec fn io_rank(icon: IoIcon) -> int;

/// The record that `icondata_io` holds for the icon at a given position.
pub uninterp spec fn io_record(rank: int) -> IconData;

/// Calls `IconData::from` of `icondata_core` on an `IoIcon` and moves the
/// outcome over field by field. The outside function is a `match` over the
/// variants with one constant record per arm, so its result depends on the
/// variant alone. Every constant in that table has a
/// non-empty `data`.
#[verifier::external_body]
fn io_project(icon: IoIcon) -> (r: IconData)
    ensures
        r == io_record(io_rank(icon)),
        r.data@.len() > 0,
{
    let d = icondata_core::IconData::from(icon);
    IconData {
        style: d.style,
        x: d.x,
        y: d.y,
        width: d.width,
        height: d.height,
        view_box: d.view_box,
        stroke_linecap: d.stroke_linecap,
        stroke_linejoin: d.stroke_linejoin,
        stroke_width: d.stroke_width,
        stroke: d.stroke,
        fill: d.fill,
        data: d.data,
    }
}

impl From<IoIcon> for IconData {
    /// Projects an `IoIcon` to its render record: the record that the set
    /// holds for the icon. Its body is not empty.
    fn from(icon: IoIcon) -> (r: IconData)
        ensures
            r == io_record(io_rank(icon)),
            r.data@.len() > 0,
    {
        io_project(icon)
    }
}

impl vstd::std_specs::convert::FromSpecImpl<IoIcon> for IconData {
    open spec fn obeys_from_spec() -> bool {
        true
    }

    open spec fn from_spec(icon: IoIcon) -> IconData {
        io_record(io_rank(icon))
    }
}

/// Calls `Ord::cmp` as `IoIcon` derives it. std documents the derived order
/// of an enum as the order in which its variants are declared, so the result
/// is the comparison of the two positions.
#[verifier::external_body]
pub(crate) fn io_compare(a: IoIcon, b: IoIcon) -> (r: Ordering)
    ensures
        r == int_order(io_rank(a), io_rank(b)),
{
    a.cmp(&b)
}

} // verus!
