//! Path text: where the lock folder and the marker file are.

use vstd::prelude::*;

verus! {

/// Name of the marker file, shared by every process that targets the same folder.
pub const LOCK_FILE: &'static str = "sm.lock";

/// The text of `std::path::Path::parent` applied to a path.
pub uninterp spec fn parent_of(p: Seq<char>) -> Option<Seq<char>>;

/// The text of `std::path::Path::join` applied to a base path and a further part.
pub uninterp spec fn joined(base: Seq<char>, tail: Seq<char>) -> Seq<char>;

/// The text that an optional string holds.
pub open spec fn text_of(o: Option<String>) -> Option<Seq<char>> {
    match o {
        Some(s) => Some(s@),
        None => None,
    }
}

/// Relies on `std::path::Path::parent`: the path without its final component,
/// or nothing for a root, a prefix or the empty path.
#[verifier::external_body]
fn path_parent(p: &str) -> (r: Option<String>)
    ensures
        text_of(r) == parent_of(p@),
        p@.len() == 0 ==> r is None,
{
    std::path::Path::new(p).parent().map(std::path::Path::to_string_lossy).map(
        std::borrow::Cow::into_owned,
    )
}

/// Relies on `std::path::Path::join`: the base path with a further part adjoined.
#[verifier::external_body]
fn path_join(base: &str, tail: &str) -> (r: String)
    ensures
        r@ == joined(base@, tail@),
{
    std::path::Path::new(base).join(tail).to_string_lossy().into_owned()
}

/// The folder that holds the marker file: the target itself, or in single-file
/// mode the target's parent.
pub open spec fn lock_folder_of(target: Seq<char>, single_file: bool) -> Option<Seq<char>> {
    if single_file {
        parent_of(target)
    } else {
        Some(target)
    }
}

/// The folder that holds the marker file for `target`; nothing where single-file
/// mode is asked for and the target has no parent.
pub fn lock_folder(target: &str, single_file: bool) -> (r: Option<String>)
    ensures
        text_of(r) == lock_folder_of(target@, single_file),
{
    if single_file {
        path_parent(target)
    } else {
        Some(target.to_string())
    }
}

/// Where the marker file stands inside `folder`.
pub fn lock_file_path(folder: &str) -> (r: String)
    ensures
        r@ == joined(folder@, LOCK_FILE@),
{
    path_join(folder, LOCK_FILE)
}

} // verus!
