//! Paths of a Unix filesystem, held as text, and what the standard library
//! tells of their parts.

use vstd::prelude::*;

verus! {

/// What `std::path::Path::file_name` gives for a path: its last component
/// where that is an ordinary name, and `None` where the path is empty, is a
/// root, or ends in `..`.
pub uninterp spec fn path_file_name(path: Seq<char>) -> Option<Seq<char>>;

/// What `std::path::Path::parent` gives for a path: the path without its
/// last component, and `None` where the path is empty or a root.
pub uninterp spec fn path_parent(path: Seq<char>) -> Option<Seq<char>>;

/// What `std::path::PathBuf::push` makes of a path and a name pushed on it.
pub uninterp spec fn path_join(base: Seq<char>, name: Seq<char>) -> Seq<char>;

/// The index of the last `.` in `name`, or -1 where it holds none.
pub open spec fn last_dot(name: Seq<char>) -> int
    decreases name.len(),
{
    if name.len() == 0 {
        -1
    } else if name.last() == '.' {
        name.len() - 1
    } else {
        last_dot(name.drop_last())
    }
}

/// Whether a file name splits into a stem and an extension: it holds a `.`
/// that is not its first character.
pub open spec fn has_extension(name: Seq<char>) -> bool {
    last_dot(name) > 0
}

/// The stem of a file name: what stands before its last `.`, or the whole
/// name where it does not split.
pub open spec fn stem_of(name: Seq<char>) -> Seq<char> {
    if has_extension(name) {
        name.subrange(0, last_dot(name))
    } else {
        name
    }
}

/// The extension of a file name: what stands after its last `.`, or `None`
/// where the name does not split.
pub open spec fn extension_of(name: Seq<char>) -> Option<Seq<char>> {
    if has_extension(name) {
        Some(name.subrange(last_dot(name) + 1, name.len() as int))
    } else {
        None
    }
}

/// The stem of a file name, `None` where there is no file name.
pub open spec fn stem_of_optional(name: Option<Seq<char>>) -> Option<Seq<char>> {
    match name {
        Some(name) => Some(stem_of(name)),
        None => None,
    }
}

/// The extension of a file name, `None` where there is none.
pub open spec fn extension_of_optional(name: Option<Seq<char>>) -> Option<Seq<char>> {
    match name {
        Some(name) => extension_of(name),
        None => None,
    }
}

/// The stem of a path's file name, `None` where the path has no file name.
pub open spec fn path_file_stem(path: Seq<char>) -> Option<Seq<char>> {
    stem_of_optional(path_file_name(path))
}

/// The extension of a path's file name, `None` where there is none.
pub open spec fn path_extension(path: Seq<char>) -> Option<Seq<char>> {
    extension_of_optional(path_file_name(path))
}

/// The view of an optional text.
pub open spec fn text_of(text: Option<String>) -> Option<Seq<char>> {
    match text {
        Some(t) => Some(t@),
        None => None,
    }
}

/// Calls `std::path::Path::file_stem`: of the path's file name the part
/// before its last `.`, or all of it where no `.` follows its first
/// character; `None` where the path has no file name.
#[verifier::external_body]
pub(crate) fn file_stem(path: &str) -> (stem: Option<String>)
    ensures
        text_of(stem) == stem_of_optional(path_file_name(path@)),
{
    std::path::Path::new(path).file_stem().and_then(|s| s.to_str()).map(|s| s.to_string())
}

/// Calls `std::path::Path::extension`: of the path's file name the part
/// after its last `.`, where one follows its first character; else `None`.
#[verifier::external_body]
pub(crate) fn extension(path: &str) -> (ext: Option<String>)
    ensures
        text_of(ext) == extension_of_optional(path_file_name(path@)),
{
    std::path::Path::new(path).extension().and_then(|s| s.to_str()).map(|s| s.to_string())
}

/// Calls `std::path::Path::parent`.
#[verifier::external_body]
pub(crate) fn parent(path: &str) -> (dir: Option<String>)
    ensures
        text_of(dir) == path_parent(path@),
{
    std::path::Path::new(path).parent().and_then(|p| p.to_str()).map(|s| s.to_string())
}

/// Calls `std::path::PathBuf::push` on a copy of `base`.
#[verifier::external_body]
pub(crate) fn join(base: &str, name: &str) -> (joined: String)
    ensures
        joined@ == path_join(base@, name@),
{
    let mut path = std::path::PathBuf::from(base);
    path.push(name);
    path.to_string_lossy().into_owned()
}

/// Whether two texts hold the same characters.
pub fn same_text(a: &str, b: &str) -> (same: bool)
    ensures
        same == (a@ == b@),
{
    a.to_owned() == b.to_owned()
}

} // verus!
