//! The host's path type, as far as this crate relies on it.
//!
//! Nothing in this file is proved. Each item states what the standard
//! library documents of `std::path`, and the rest of the crate is proved from
//! these statements. How a path splits into segments, joins and finds its
//! parent is the business of the platform that the crate is built for: those
//! results have names here, and no rule of any platform is written out.

use crate::segment::{has_parent, Segment};
use std::path::{Path, PathBuf};
use vstd::prelude::*;
use vstd::utf8::{decode_utf8, valid_utf8};

verus! {

/// `std::path::PathBuf`, an owned path. Opaque here: what it holds is spoken
/// of through [`buf_bytes`].
#[verifier::external_type_specification]
#[verifier::external_body]
pub struct ExPathBuf(PathBuf);

/// `std::path::Path`, a borrowed path. Opaque here: what it holds is spoken
/// of through [`path_bytes`].
#[verifier::external_type_specification]
#[verifier::external_body]
pub struct ExPath(Path);

/// The bytes that an owned path is written with (those of its OS string; a
/// path that is valid text is written in UTF-8).
pub uninterp spec fn buf_bytes(p: PathBuf) -> Seq<u8>;

/// The bytes that a borrowed path is written with.
pub uninterp spec fn path_bytes(p: &Path) -> Seq<u8>;

/// The segments into which the platform splits a path written with `bytes`:
/// what `Path::components` yields, each component with its kind and with the
/// bytes of its OS string.
pub uninterp spec fn byte_segments(bytes: Seq<u8>) -> Seq<Segment>;

/// The bytes of the path that `Path::join` makes of a path written with
/// `base` and one written with `other`.
pub uninterp spec fn joined_bytes(base: Seq<u8>, other: Seq<u8>) -> Seq<u8>;

/// The bytes of the path that `Path::parent` yields for a path written with
/// `bytes`, where it yields one.
pub uninterp spec fn parent_bytes(bytes: Seq<u8>) -> Seq<u8>;

/// The segments of a borrowed path.
pub open spec fn path_segments(p: &Path) -> Seq<Segment> {
    byte_segments(path_bytes(p))
}

/// `Path::to_path_buf` copies the path: the owned path is written with the
/// same bytes.
pub assume_specification[ Path::to_path_buf ](p: &Path) -> (r: PathBuf)
    ensures
        buf_bytes(r) == path_bytes(p),
;

/// `PathBuf::as_path` borrows the path as it is.
pub assume_specification<'a>[ PathBuf::as_path ](p: &'a PathBuf) -> (r: &'a Path)
    ensures
        path_bytes(r) == buf_bytes(*p),
;

/// Cloning a `PathBuf` gives a path written with the same bytes.
pub assume_specification[ <PathBuf as Clone>::clone ](p: &PathBuf) -> (r: PathBuf)
    ensures
        buf_bytes(r) == buf_bytes(*p),
;

/// `PathBuf::new` makes the empty path.
pub assume_specification[ PathBuf::new ]() -> (r: PathBuf)
    ensures
        buf_bytes(r) == Seq::<u8>::empty(),
;

/// `Path::to_str` yields the path as text exactly when its bytes are valid
/// UTF-8, and the text is then what they decode to.
pub assume_specification<'a>[ Path::to_str ](p: &'a Path) -> (r: Option<&'a str>)
    ensures
        match r {
            Some(s) => valid_utf8(path_bytes(p)) && s@ == decode_utf8(path_bytes(p)),
            None => !valid_utf8(path_bytes(p)),
        },
;

/// `Path::parent` yields the path without its final component, by its name
/// [`parent_bytes`]: its segments are those of `p` but the last. It yields
/// nothing when the path is empty or ends in a root or a prefix.
pub assume_specification<'a>[ Path::parent ](p: &'a Path) -> (r: Option<&'a Path>)
    ensures
        match r {
            Some(q) => {
                &&& has_parent(byte_segments(path_bytes(p)))
                &&& path_bytes(q) == parent_bytes(path_bytes(p))
                &&& byte_segments(path_bytes(q)) == byte_segments(path_bytes(p)).drop_last()
            },
            None => !has_parent(byte_segments(path_bytes(p))),
        },
;

/// `Path::join`: the joined path, by its name [`joined_bytes`]. The rules of
/// joining are the platform's and are not restated here.
#[verifier::external_body]
pub(crate) fn join_paths(base: &Path, other: &Path) -> (r: PathBuf)
    ensures
        buf_bytes(r) == joined_bytes(path_bytes(base), path_bytes(other)),
{
    base.join(other)
}

/// `Path::iter`: the segments of the path in order, each handed out as an
/// owned path written with the bytes of that segment.
#[verifier::external_body]
pub(crate) fn segment_paths(p: &Path) -> (r: Vec<PathBuf>)
    ensures
        r@.len() == byte_segments(path_bytes(p)).len(),
        forall|k: int|
            0 <= k < r@.len() ==> buf_bytes(#[trigger] r@[k]) == byte_segments(
                path_bytes(p),
            )[k].text,
{
    p.iter().map(PathBuf::from).collect()
}

} // verus!
