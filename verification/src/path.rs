//! Paths as text, with `/` as the separator.

use crate::text::{chars_of, chain};
use vstd::prelude::*;
use vstd::string::StringExecFns;

verus! {

/// A path is absolute when it starts at the root.
pub open spec fn is_absolute(path: Seq<char>) -> bool {
    path.len() > 0 && path[0] == '/'
}

/// `rel` resolved against `base`: an absolute `rel` stands for itself, any other is
/// appended to `base`, after a separator unless `base` is empty or already ends with one.
pub open spec fn joined(base: Seq<char>, rel: Seq<char>) -> Seq<char> {
    if is_absolute(rel) {
        rel
    } else if base.len() == 0 || base.last() == '/' {
        base + rel
    } else {
        base + seq!['/'] + rel
    }
}

/// What `std::path::Path::parent` gives for a path.
pub uninterp spec fn path_parent(path: Seq<char>) -> Option<Seq<char>>;

/// What `std::path::Path::file_name` gives for a path.
pub uninterp spec fn path_file_name(path: Seq<char>) -> Option<Seq<char>>;

/// Calls `std::path::Path::parent`: the path without its final component, if there is one.
/// The contract only names the result. It is a function of the path alone: nothing is
/// looked up, and the separator and the rules for components are fixed when the library
/// is built.
#[verifier::external_body]
pub(crate) fn parent_of(path: &str) -> (r: Option<String>)
    ensures
        r.deep_view() == path_parent(path@),
{
    match std::path::Path::new(path).parent() {
        Some(parent) => Some(parent.to_string_lossy().into_owned()),
        None => None,
    }
}

/// Calls `std::path::Path::file_name`: the final component of the path, if it is a name.
/// The contract only names the result. It is a function of the path alone: nothing is
/// looked up, and the separator and the rules for components are fixed when the library
/// is built.
#[verifier::external_body]
pub(crate) fn file_name_of(path: &str) -> (r: Option<String>)
    ensures
        r.deep_view() == path_file_name(path@),
{
    match std::path::Path::new(path).file_name() {
        Some(name) => Some(name.to_string_lossy().into_owned()),
        None => None,
    }
}

/// Whether `path` starts at the root.
pub fn absolute(path: &str) -> (r: bool)
    ensures
        r == is_absolute(path@),
{
    let chars = chars_of(path);
    chars.len() > 0 && chars[0] == '/'
}

/// Resolves `rel` against `base`.
pub fn join_path(base: &str, rel: &str) -> (r: String)
    ensures
        r@ == joined(base@, rel@),
{
    if absolute(rel) {
        return rel.to_owned();
    }
    let chars = chars_of(base);
    if chars.len() == 0 || chars[chars.len() - 1] == '/' {
        chain(base, rel)
    } else {
        proof {
            reveal_strlit("/");
            assert("/"@ == seq!['/']);
        }
        let mut r = chain(base, "/");
        r.append(rel);
        r
    }
}

/// The directory that holds `path`: its parent, or `.` where it has none.
pub fn directory_of(path: &str) -> (r: String)
    ensures
        r@ == match path_parent(path@) {
            Some(parent) => parent,
            None => seq!['.'],
        },
{
    match parent_of(path) {
        Some(parent) => parent,
        None => {
            proof {
                reveal_strlit(".");
                assert("."@ == seq!['.']);
            }
            ".".to_owned()
        },
    }
}

} // verus!
