//! Three-way comparison results and the ways this crate combines them.

use std::cmp::Ordering;
use vstd::prelude::*;

verus! {

/// The result of comparing two integers.
pub open spec fn int_order(a: int, b: int) -> Ordering {
    if a < b {
        Ordering::Less
    } else if a == b {
        Ordering::Equal
    } else {
        Ordering::Greater
    }
}

/// The result of the same comparison with its two sides exchanged.
pub open spec fn reversed(o: Ordering) -> Ordering {
    match o {
        Ordering::Less => Ordering::Greater,
        Ordering::Equal => Ordering::Equal,
        Ordering::Greater => Ordering::Less,
    }
}

/// Lexicographic combination: `first` decides unless it is `Equal`, in which
/// case `rest` decides.
pub open spec fn then_order(first: Ordering, rest: Ordering) -> Ordering {
    match first {
        Ordering::Equal => rest,
        _ => first,
    }
}

} // verus!
