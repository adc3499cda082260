//! File-name handling for download destinations.
use vstd::prelude::*;

use crate::text::contains_spec;

verus! {

/// A path that every platform splits the same way: no backslash, no drive
/// letter (a `:` as second character) and no leading `//` (which Windows
/// reads as the start of a network share or device name).
pub open spec fn is_portable_path(path: Seq<char>) -> bool {
    &&& !path.contains('\\')
    &&& !(path.len() >= 2 && path[1] == ':')
    &&& !(path.len() >= 2 && path[0] == '/' && path[1] == '/')
}

/// The path starts like a Windows verbatim path (`\\?\`, with either kind of
/// slash). In such a path `/` is no separator and nothing is normalized.
pub open spec fn is_verbatim_like(path: Seq<char>) -> bool {
    &&& path.len() >= 4
    &&& (path[0] == '\\' || path[0] == '/')
    &&& (path[1] == '\\' || path[1] == '/')
    &&& path[2] == '?'
    &&& (path[3] == '\\' || path[3] == '/')
}

/// Scanning `s` from its end, with `acc` the part of the current component
/// already read: the last component that is neither empty nor `.`, unless
/// it is `..` or there is none, in which case there is no file name.
pub open spec fn final_name_from(s: Seq<char>, acc: Seq<char>) -> Option<Seq<char>>
    decreases s.len(),
{
    if s.len() == 0 || s.last() == '/' {
        if acc.len() == 0 || (acc.len() == 1 && acc[0] == '.') {
            if s.len() == 0 {
                None
            } else {
                final_name_from(s.drop_last(), Seq::empty())
            }
        } else if acc.len() == 2 && acc[0] == '.' && acc[1] == '.' {
            None
        } else {
            Some(acc)
        }
    } else {
        final_name_from(s.drop_last(), seq![s.last()] + acc)
    }
}

/// The file name of a `/`-separated path: its last component, where empty
/// components (repeated or trailing separators) and `.` are skipped; none
/// when that component is `..` or the path has no component (`""`, `"/"`).
pub open spec fn final_component(path: Seq<char>) -> Option<Seq<char>> {
    final_name_from(path, Seq::empty())
}

/// The final component of a path: `Path::file_name`, as a `String`.
///
/// Trusted: claims what `Path::file_name`'s documentation and the component
/// rules of `Path::components` give: on a portable path (`/` as the only
/// separator) the result is `final_component`; on any path that does not
/// start like a Windows verbatim path it is `None` when the path ends in
/// `..`; on any path a returned name is a piece of the path. On other paths
/// (backslashes, drive letters, network shares, verbatim paths) which
/// component comes back depends on the platform, and is not stated.
#[verifier::external_body]
fn path_file_name(path: &str) -> (r: Option<String>)
    ensures
        !is_verbatim_like(path@) && (path@ == ".."@ || "/.."@.is_suffix_of(path@)) ==> r is None,
        r matches Some(n) ==> contains_spec(path@, n@),
        is_portable_path(path@) ==> (match r {
            Some(n) => final_component(path@) == Some(n@),
            None => final_component(path@) is None,
        }),
{
    std::path::Path::new(path).file_name().map(|s| s.to_string_lossy().to_string())
}

/// The path ends in a `..` component.
pub open spec fn ends_in_parent_dir(path: Seq<char>) -> bool {
    path == ".."@ || "/.."@.is_suffix_of(path)
}

/// The file name of `path`, or the empty string when it has none.
pub fn file_basename(path: &str) -> (r: String)
    ensures
        !is_verbatim_like(path@) && ends_in_parent_dir(path@) ==> r@ == Seq::<char>::empty(),
        r@.len() > 0 ==> contains_spec(path@, r@),
        is_portable_path(path@) ==> r@ == (match final_component(path@) {
            Some(n) => n,
            None => Seq::<char>::empty(),
        }),
{
    match path_file_name(path) {
        Some(n) => n,
        None => String::new(),
    }
}

/// The file name of `path`, if it has one.
pub fn file_name_of(path: &str) -> (r: Option<String>)
    ensures
        !is_verbatim_like(path@) && ends_in_parent_dir(path@) ==> r is None,
        r matches Some(n) ==> contains_spec(path@, n@),
        is_portable_path(path@) ==> (match r {
            Some(n) => final_component(path@) == Some(n@),
            None => final_component(path@) is None,
        }),
{
    path_file_name(path)
}

} // verus!
