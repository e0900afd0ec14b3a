//! Which segment an index names, counted from either end.

use vstd::prelude::*;

verus! {

/// The position, counted from the left, of the `i`-th of `count` segments:
/// `i` itself when counting from the left, its mirror image when counting
/// from the right, and nothing when `i` is out of range.
pub open spec fn selected(count: nat, i: nat, from_left: bool) -> Option<nat> {
    if i >= count {
        None
    } else if from_left {
        Some(i)
    } else {
        Some((count - 1 - i) as nat)
    }
}

/// Computes [`selected`]; an index that is out of range gives `None` in both
/// directions.
pub fn segment_index(count: usize, i: usize, from_left: bool) -> (r: Option<usize>)
    ensures
        match r {
            Some(k) => selected(count as nat, i as nat, from_left) == Some(k as nat),
            None => selected(count as nat, i as nat, from_left) is None,
        },
{
    if i >= count {
        None
    } else if from_left {
        Some(i)
    } else {
        Some(count - 1 - i)
    }
}

/// Counting `i` from the left and `count - 1 - i` from the right name the
/// same position.
pub proof fn lemma_selected_mirror(count: nat, i: nat)
    requires
        i < count,
    ensures
        selected(count, i, true) == selected(count, (count - 1 - i) as nat, false),
        selected(count, i, true) == Some(i),
{
}

/// An index at or past the number of segments names nothing, from either
/// end.
pub proof fn lemma_selected_out_of_range(count: nat, i: nat, from_left: bool)
    requires
        i >= count,
    ensures
        selected(count, i, from_left) is None,
{
}

} // verus!
