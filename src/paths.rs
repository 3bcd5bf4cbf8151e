//! Filesystem paths, held as text. What a path's parent is, and how two paths
//! join, is std's `Path` logic.
use vstd::prelude::*;

verus! {

/// The parent directory that std's `Path::parent` gives for a path.
pub uninterp spec fn parent_of_path(p: Seq<char>) -> Option<Seq<char>>;

/// Whether std's `Path::is_relative` holds of a path.
pub uninterp spec fn is_relative_path(p: Seq<char>) -> bool;

/// The path that std's `Path::join` builds from a base and a further path.
pub uninterp spec fn joined_path(base: Seq<char>, rest: Seq<char>) -> Seq<char>;

/// Relies on `std::path::Path::parent`: the path without its last component,
/// or none for a root or an empty path. A path made from UTF-8 text converts
/// back without loss.
#[verifier::external_body]
pub(crate) fn path_parent(p: &str) -> (r: Option<String>)
    ensures
        match r {
            Some(q) => parent_of_path(p@) == Some(q@),
            None => parent_of_path(p@) is None,
        },
{
    match std::path::Path::new(p).parent() {
        Some(q) => Some(q.to_string_lossy().into_owned()),
        None => None,
    }
}

/// Relies on `std::path::Path::is_relative`.
#[verifier::external_body]
pub(crate) fn path_is_relative(p: &str) -> (r: bool)
    ensures
        r == is_relative_path(p@),
{
    std::path::Path::new(p).is_relative()
}

/// Relies on `std::path::Path::join`. A path made from UTF-8 text converts back
/// without loss.
#[verifier::external_body]
pub(crate) fn path_join(base: &str, rest: &str) -> (r: String)
    ensures
        r@ == joined_path(base@, rest@),
{
    std::path::Path::new(base).join(rest).to_string_lossy().into_owned()
}

} // verus!
