//! Ant Design Icons: the icon set with the prefix `Ai`.

use crate::order::int_order;
use crate::record::IconData;
use icondata_ai::AiIcon;
use std::cmp::Ordering;
use vstd::prelude::*;

verus! {

/// `icondata_ai::AiIcon`, the enumeration of the set's icons: one unit variant
/// per icon. Nothing inside a value is visible to the verifier; in contracts
/// `ai_rank` stands for it.
#[verifier::external_type_specification]
#[verifier::external_body]
pub struct ExAiIcon(icondata_ai::AiIcon);

/// The position of an icon in the declaration of `AiIcon`, counted from zero.
pub uninterp spec fn ai_rank(icon: AiIcon) -> int;

/// The record that `icondata_ai` holds for the icon at a given position.
pub uninterp spec fn ai_record(rank: int) -> IconData;

/// Calls `IconData::from` of `icondata_core` on an `AiIcon` and moves the
/// outcome over field by field. The outside function is a `match` over the
/// variants with one constant record per arm, so its result depends on the
/// variant alone. Every constant in that table has a
/// non-empty `data`.
#[verifier::external_body]
fn ai_project(icon: AiIcon) -> (r: IconData)
    ensures
        r == ai_record(ai_rank(icon)),
        r.data@.len() > 0,
{
    let d = icondata_core::IconData::from(icon);
    IconData {
        style: d.style,
        x: d.x,
        y: d.y,
        width: d.width,
        height: d.height,
        view_box: d.view_box,
        stroke_linecap: d.stroke_linecap,
        stroke_linejoin: d.stroke_linejoin,
        stroke_width: d.stroke_width,
        stroke: d.stroke,
        fill: d.fill,
        data: d.data,
    }
}

impl From<AiIcon> for IconData {
    /// Projects an `AiIcon` to its render record: the record that the set
    /// holds for the icon. Its body is not empty.
    fn from(icon: AiIcon) -> (r: IconData)
        ensures
            r == ai_record(ai_rank(icon)),
            r.data@.len() > 0,
    {
        ai_project(icon)
    }
}

impl vstd::std_specs::convert::FromSpecImpl<AiIcon> for IconData {
    open spec fn obeys_from_spec() -> bool {
        true
    }

    open spec fn from_spec(icon: AiIcon) -> IconData {
        ai_record(ai_rank(icon))
    }
}

/// Calls `Ord::cmp` as `AiIcon` derives it. std documents the derived order
/// of an enum as the order in which its variants are declared, so the result
/// is the comparison of the two positions.
#[verifier::external_body]
pub(crate) fn ai_compare(a: AiIcon, b: AiIcon) -> (r: Ordering)
    ensures
        r == int_order(ai_rank(a), ai_rank(b)),
{
    a.cmp(&b)
}

} // verus!
