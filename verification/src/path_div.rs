//! The path value and its operations.

use crate::host::{
    buf_bytes, byte_segments, join_paths, joined_bytes, parent_bytes, path_bytes, path_segments,
    segment_paths,
};
use crate::index::{lemma_selected_mirror, segment_index, selected};
use crate::segment::{
    ancestor, has_ancestor, is_root, lemma_root_is_stable, parent_segments, Segment,
};
use std::ops::{Div, Not, Shl, Shr};
use std::path::{Path, PathBuf};
use vstd::prelude::*;
use vstd::std_specs::ops::{DivSpecImpl, NotSpecImpl, ShlSpecImpl, ShrSpecImpl};
use vstd::utf8::{decode_utf8, valid_utf8};

verus! {

/// An owned path that is never changed after it is made: every operation
/// gives a new value.
///
/// Two values are equal when the host's path type holds their paths equal,
/// and they are ordered and hashed as it orders and hashes them.
#[derive(PartialEq, Eq, PartialOrd, Ord, Hash, Debug)]
pub struct PathDiv {
    inner: PathBuf,
}

impl View for PathDiv {
    type V = Seq<Segment>;

    /// The segments of the path, in order.
    open spec fn view(&self) -> Seq<Segment> {
        byte_segments(self.bytes())
    }
}

impl Clone for PathDiv {
    /// The copy is written with the same bytes.
    fn clone(&self) -> (r: PathDiv)
        ensures
            r.bytes() == self.bytes(),
    {
        PathDiv { inner: self.inner.clone() }
    }
}

impl PathDiv {
    /// The bytes that the path is written with. They decide everything else
    /// about it.
    pub closed spec fn bytes(&self) -> Seq<u8> {
        buf_bytes(self.inner)
    }

    /// The path as text: what its bytes decode to, where they are valid
    /// UTF-8.
    pub open spec fn text(&self) -> Option<Seq<char>> {
        if valid_utf8(self.bytes()) {
            Some(decode_utf8(self.bytes()))
        } else {
            None
        }
    }

    /// The empty path, which stands in where a segment is asked for that the
    /// path does not have.
    fn empty() -> (r: PathDiv)
        ensures
            r.bytes() == Seq::<u8>::empty(),
    {
        PathDiv { inner: PathBuf::new() }
    }

    /// What `>>` and `<<` give for a segment that `get` found or did not
    /// find: the bytes of the segment, or no bytes at all.
    pub open spec fn segment_or_empty(found: Option<Segment>) -> Seq<u8> {
        match found {
            Some(seg) => seg.text,
            None => Seq::<u8>::empty(),
        }
    }

    /// The path as text, and the empty text where it is not valid text.
    pub open spec fn text_or_empty(&self) -> Seq<char> {
        match self.text() {
            Some(t) => t,
            None => Seq::<char>::empty(),
        }
    }

    /// Whether the value is written with the bytes of `p`: it was made of
    /// `p`, or `p` is borrowed from it.
    pub open spec fn is_copy_of(&self, p: &Path) -> bool {
        self.bytes() == path_bytes(p)
    }

    /// A value that owns a copy of `p`.
    pub fn new(p: &Path) -> (r: PathDiv)
        ensures
            r.is_copy_of(p),
            r@ == path_segments(p),
    {
        PathDiv { inner: p.to_path_buf() }
    }

    /// The path, borrowed.
    pub fn path(&self) -> (r: &Path)
        ensures
            self.is_copy_of(r),
            path_segments(r) == self@,
    {
        self.inner.as_path()
    }

    /// The path as text, or `None` where it is not valid text.
    pub fn to_str(&self) -> (r: Option<&str>)
        ensures
            match r {
                Some(s) => self.text() == Some(s@),
                None => self.text() is None,
            },
    {
        self.path().to_str()
    }

    /// The segment that `get(i, from_left)` picks: the `i`-th from the left
    /// or from the right, counted from zero, and nothing when `i` is out of
    /// range.
    pub open spec fn segment_at(&self, i: nat, from_left: bool) -> Option<Segment> {
        match selected(self@.len(), i, from_left) {
            Some(k) => Some(self@[k as int]),
            None => None,
        }
    }

    /// The `i`-th segment as a path of its own, counted from the left when
    /// `from_left` holds and from the right when not; `None` when the path
    /// has no such segment.
    pub fn get(&self, i: usize, from_left: bool) -> (r: Option<PathDiv>)
        ensures
            match r {
                Some(q) => self.segment_at(i as nat, from_left) matches Some(seg) && q.bytes()
                    == seg.text,
                None => self.segment_at(i as nat, from_left) is None,
            },
            r is Some <==> i < self@.len(),
    {
        let segments = segment_paths(self.path());
        match segment_index(segments.len(), i, from_left) {
            Some(k) => Some(PathDiv::new(segments[k].as_path())),
            None => None,
        }
    }

    /// The path joined with `other`, by the platform's rules of joining.
    pub fn join(&self, other: &Path) -> (r: PathDiv)
        ensures
            r.bytes() == joined_bytes(self.bytes(), path_bytes(other)),
    {
        PathDiv { inner: join_paths(self.path(), other) }
    }

    /// The bytes that the parent is written with: the platform's, where the
    /// path has an ancestor, and else those of the path itself.
    pub open spec fn parent_text(&self) -> Seq<u8> {
        if has_ancestor(self@) {
            parent_bytes(self.bytes())
        } else {
            self.bytes()
        }
    }

    /// The parent of the path: the path without its last segment. A path
    /// without an ancestor (the empty path, a path of one segment such as the
    /// root or a single name, or one that ends in a root or a prefix) gives a
    /// copy of itself, never the empty path.
    pub fn parent(&self) -> (r: PathDiv)
        ensures
            r.bytes() == self.parent_text(),
            r@ == parent_segments(self@),
    {
        match self.path().parent() {
            Some(up) => {
                if segment_paths(up).len() == 0 {
                    self.clone()
                } else {
                    PathDiv::new(up)
                }
            },
            None => self.clone(),
        }
    }
}

impl PathDiv {
    /// The path that a value lends out is the path that the value was made
    /// of: it is written with the same bytes and splits into the same
    /// segments.
    pub proof fn lemma_path_of_new(p: &Path, made: PathDiv, lent: &Path)
        requires
            made.is_copy_of(p),
            made.is_copy_of(lent),
        ensures
            path_bytes(lent) == path_bytes(p),
            path_segments(lent) == path_segments(p),
            made@ == path_segments(p),
    {
    }

    /// The `i`-th segment from the left is the `(count - 1 - i)`-th from the
    /// right, where `count` is the number of segments and `i` is in range.
    pub proof fn lemma_get_mirror(self, i: nat)
        requires
            i < self@.len(),
        ensures
            self.segment_at(i, true) == self.segment_at((self@.len() - 1 - i) as nat, false),
            self.segment_at(i, true) == Some(self@[i as int]),
    {
        lemma_selected_mirror(self@.len(), i);
    }

    /// An index at or past the number of segments picks nothing, from either
    /// end.
    pub proof fn lemma_get_out_of_range(self, i: nat, from_left: bool)
        requires
            i >= self@.len(),
        ensures
            self.segment_at(i, from_left) is None,
            PathDiv::segment_or_empty(self.segment_at(i, from_left)) == Seq::<u8>::empty(),
    {
    }

    /// Taking the parent changes the segments of a path exactly when the path
    /// has an ancestor. Where it has none the result is written as the path
    /// is.
    pub proof fn lemma_parent_at_rest(self)
        ensures
            parent_segments(self@) == self@ <==> !has_ancestor(self@),
            !has_ancestor(self@) ==> self.parent_text() == self.bytes(),
    {
    }

    /// The empty path and a path of one segment, be it the root or a single
    /// name, are their own parent.
    pub proof fn lemma_parent_of_short(self)
        requires
            self@.len() <= 1,
        ensures
            self.parent_text() == self.bytes(),
            parent_segments(self@) == self@,
    {
    }

    /// The root is its own parent, however often the parent is taken.
    pub proof fn lemma_parent_of_root(self, n: nat)
        requires
            is_root(self@),
        ensures
            self.parent_text() == self.bytes(),
            parent_segments(self@) == self@,
            ancestor(self@, n) == self@,
    {
        lemma_root_is_stable(self@, n);
    }
}

/// `a / b` is `a.join(b)`.
impl<'a> Div<&'a Path> for PathDiv {
    type Output = PathDiv;

    fn div(self, rhs: &'a Path) -> (r: PathDiv)
        ensures
            r.bytes() == joined_bytes(self.bytes(), path_bytes(rhs)),
    {
        self.join(rhs)
    }
}

/// Every value can be joined with every path. What comes out is stated by
/// the contract of `div`; no spec function stands for it.
impl<'a> DivSpecImpl<&'a Path> for PathDiv {
    open spec fn obeys_div_spec() -> bool {
        false
    }

    open spec fn div_req(self, rhs: &'a Path) -> bool {
        true
    }

    open spec fn div_spec(self, rhs: &'a Path) -> PathDiv {
        arbitrary()
    }
}

/// `!a` is `a.parent()`.
impl Not for PathDiv {
    type Output = PathDiv;

    fn not(self) -> (r: PathDiv)
        ensures
            r.bytes() == self.parent_text(),
            r@ == parent_segments(self@),
    {
        self.parent()
    }
}

/// Every value has a parent or is returned as it is. What comes out is
/// stated by the contract of `not`; no spec function stands for it.
impl NotSpecImpl for PathDiv {
    open spec fn obeys_not_spec() -> bool {
        false
    }

    open spec fn not_req(self) -> bool {
        true
    }

    open spec fn not_spec(self) -> PathDiv {
        arbitrary()
    }
}

/// `a >> i` is the `i`-th segment from the left, and the empty path where
/// there is none.
impl Shr<usize> for PathDiv {
    type Output = PathDiv;

    fn shr(self, i: usize) -> (r: PathDiv)
        ensures
            r.bytes() == PathDiv::segment_or_empty(self.segment_at(i as nat, true)),
    {
        self.get(i, true).unwrap_or(PathDiv::empty())
    }
}

/// Every index is accepted. What comes out is stated by the contract of
/// `shr`; no spec function stands for it.
impl ShrSpecImpl<usize> for PathDiv {
    open spec fn obeys_shr_spec() -> bool {
        false
    }

    open spec fn shr_req(self, rhs: usize) -> bool {
        true
    }

    open spec fn shr_spec(self, rhs: usize) -> PathDiv {
        arbitrary()
    }
}

/// `a << i` is the `i`-th segment from the right, and the empty path where
/// there is none.
impl Shl<usize> for PathDiv {
    type Output = PathDiv;

    fn shl(self, i: usize) -> (r: PathDiv)
        ensures
            r.bytes() == PathDiv::segment_or_empty(self.segment_at(i as nat, false)),
    {
        self.get(i, false).unwrap_or(PathDiv::empty())
    }
}

/// Every index is accepted. What comes out is stated by the contract of
/// `shl`; no spec function stands for it.
impl ShlSpecImpl<usize> for PathDiv {
    open spec fn obeys_shl_spec() -> bool {
        false
    }

    open spec fn shl_req(self, rhs: usize) -> bool {
        true
    }

    open spec fn shl_spec(self, rhs: usize) -> PathDiv {
        arbitrary()
    }
}

/// The path as text, and the empty text where the path is not valid text.
impl AsRef<str> for PathDiv {
    fn as_ref(&self) -> (r: &str)
        ensures
            str::view(r) == self.text_or_empty(),
    {
        proof {
            reveal_strlit("");
        }
        self.to_str().unwrap_or("")
    }
}

/// The path, borrowed.
impl AsRef<Path> for PathDiv {
    fn as_ref(&self) -> (r: &Path)
        ensures
            path_bytes(r) == self.bytes(),
            path_segments(r) == self@,
    {
        self.path()
    }
}

} // verus!
