//! Paths, which the crate carries around but never looks inside itself.

use std::path::PathBuf;
use vstd::prelude::*;

verus! {

/// `std::path::PathBuf`, carried through as an opaque value.
#[verifier::external_type_specification]
#[verifier::external_body]
pub struct ExPathBuf(std::path::PathBuf);

/// `PathBuf::clone`: the copy is the same path.
pub assume_specification[ <std::path::PathBuf as Clone>::clone ](p: &PathBuf) -> (r: PathBuf)
    ensures
        r == *p,
;

/// The display text of a path: what `Path::display` prints (lossy for
/// non-Unicode data). A function of the path alone.
pub uninterp spec fn path_display_text(p: PathBuf) -> Seq<char>;

/// The final component of a path as UTF-8 text, if it has one that is valid
/// UTF-8 (`Path::file_name`, then `OsStr::to_str`). A function of the path alone.
pub uninterp spec fn path_file_name_text(p: PathBuf) -> Option<Seq<char>>;

/// The display text of a path (`Path::display`, then `to_string`). Claims that
/// the text is a function of the path alone.
#[verifier::external_body]
pub(crate) fn path_display(p: &PathBuf) -> (r: String)
    ensures
        r@ == path_display_text(*p),
{
    p.display().to_string()
}

/// The final component of a path as UTF-8 text (`Path::file_name`, then
/// `OsStr::to_str`); `None` when there is none or it is not valid UTF-8.
/// Claims that the result is a function of the path alone.
#[verifier::external_body]
pub(crate) fn path_file_name(p: &PathBuf) -> (r: Option<String>)
    ensures
        match r {
            Some(t) => path_file_name_text(*p) == Some(t@),
            None => path_file_name_text(*p) is None,
        },
{
    match p.file_name() {
        Some(name) => match name.to_str() {
            Some(text) => Some(text.to_string()),
            None => None,
        },
        None => None,
    }
}

} // verus!
