//! The parent directory of a path, as the standard library computes it.

use vstd::prelude::*;

verus! {

/// The parent of `path` as `std::path::Path::parent` gives it on the platform
/// the library is built for: the path without its final component, or `None`
/// where the path ends in a root or is empty. The rules by which the standard
/// library cuts a path into components are not restated here.
pub uninterp spec fn path_parent(path: Seq<char>) -> Option<Seq<char>>;

/// Calls `std::path::Path::parent` on `path`. The contract claims only that
/// the answer is the one [`path_parent`] stands for: the method reads nothing
/// but the text of the path, so the same text always has the same parent. The
/// parent is a leading part of `path` that ends where a component ends, hence
/// valid UTF-8, and comes back as a `String` with nothing replaced.
#[verifier::external_body]
pub(crate) fn parent_directory(path: &str) -> (parent: Option<String>)
    ensures
        parent.deep_view() == path_parent(path@),
{
    match std::path::Path::new(path).parent() {
        Some(directory) => Some(directory.to_string_lossy().into_owned()),
        None => None,
    }
}

} // verus!
