//! The mathematical model of a path: a sequence of segments.

use vstd::prelude::*;

verus! {

/// What a segment is, as the host's path type tells its components apart.
pub enum SegmentKind {
    /// A platform prefix such as a drive or a share.
    Prefix,
    /// The root marker.
    RootDir,
    /// A leading `.`.
    CurDir,
    /// A `..`.
    ParentDir,
    /// A directory or file name.
    Normal,
}

/// One segment of a path: its kind and the bytes it is written with.
pub struct Segment {
    pub kind: SegmentKind,
    pub text: Seq<u8>,
}

/// The host finds a parent for a path that has a last segment which is
/// neither a root nor a prefix. For a path of one such segment the parent it
/// finds is the empty path.
pub open spec fn has_parent(segs: Seq<Segment>) -> bool {
    &&& segs.len() > 0
    &&& !(segs.last().kind is RootDir)
    &&& !(segs.last().kind is Prefix)
}

/// A path has an ancestor to go up to when the host finds a parent for it
/// and that parent is not the empty path: the path has two segments or more,
/// and the last is neither a root nor a prefix.
pub open spec fn has_ancestor(segs: Seq<Segment>) -> bool {
    has_parent(segs) && segs.len() >= 2
}

/// The segments of the parent: all but the last, where the path has an
/// ancestor. The empty path, a path of one segment and a path that ends in a
/// root or a prefix have none and are their own parent.
pub open spec fn parent_segments(segs: Seq<Segment>) -> Seq<Segment> {
    if has_ancestor(segs) {
        segs.drop_last()
    } else {
        segs
    }
}

/// The result of taking the parent `n` times.
pub open spec fn ancestor(segs: Seq<Segment>, n: nat) -> Seq<Segment>
    decreases n,
{
    if n == 0 {
        segs
    } else {
        ancestor(parent_segments(segs), (n - 1) as nat)
    }
}

/// The path that is only the root.
pub open spec fn is_root(segs: Seq<Segment>) -> bool {
    segs.len() == 1 && segs[0].kind is RootDir
}

/// Taking the parent never adds a segment and never takes the last one
/// away; it changes the path exactly when the path has an ancestor.
pub proof fn lemma_parent_shrinks(segs: Seq<Segment>)
    ensures
        parent_segments(segs).len() <= segs.len(),
        segs.len() > 0 ==> parent_segments(segs).len() > 0,
        parent_segments(segs).len() == segs.len() <==> !has_ancestor(segs),
        parent_segments(segs) == segs <==> !has_ancestor(segs),
{
}

/// The empty path and a path of one segment are their own parent.
pub proof fn lemma_parent_of_short(segs: Seq<Segment>)
    requires
        segs.len() <= 1,
    ensures
        !has_ancestor(segs),
        parent_segments(segs) == segs,
{
}

/// A path without an ancestor is its own ancestor at every distance.
pub proof fn lemma_ancestor_fixed(segs: Seq<Segment>, n: nat)
    requires
        !has_ancestor(segs),
    ensures
        ancestor(segs, n) == segs,
    decreases n,
{
    if n > 0 {
        lemma_ancestor_fixed(segs, (n - 1) as nat);
    }
}

/// The root is its own parent, however often the parent is taken.
pub proof fn lemma_root_is_stable(segs: Seq<Segment>, n: nat)
    requires
        is_root(segs),
    ensures
        !has_ancestor(segs),
        parent_segments(segs) == segs,
        ancestor(segs, n) == segs,
{
    lemma_ancestor_fixed(segs, n);
}

/// Taking the parent over and over comes to rest: after as many steps as the
/// path has segments the result has no ancestor, and further steps change
/// nothing.
pub proof fn lemma_ancestors_settle(segs: Seq<Segment>, n: nat)
    requires
        n >= segs.len(),
    ensures
        ancestor(segs, n) == ancestor(segs, segs.len()),
        !has_ancestor(ancestor(segs, n)),
        parent_segments(ancestor(segs, n)) == ancestor(segs, n),
    decreases segs.len(),
{
    if !has_ancestor(segs) {
        lemma_ancestor_fixed(segs, n);
        lemma_ancestor_fixed(segs, segs.len());
    } else {
        let up = parent_segments(segs);
        lemma_ancestors_settle(up, (n - 1) as nat);
        lemma_ancestors_settle(up, (segs.len() - 1) as nat);
    }
}

} // verus!
