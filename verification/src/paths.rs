//! File names, stems and extensions of path strings.
//!
//! Paths are taken apart by `std::path::Path`, in the path syntax of the
//! platform the library is built for.

use crate::text::{ends_with, has_suffix, or_empty, text_or_empty, text_view};
use vstd::prelude::*;

verus! {

/// The final component of a path, as `Path::file_name` gives it.
pub uninterp spec fn path_file_name(path: Seq<char>) -> Option<Seq<char>>;

/// The final component of a path without its extension, as `Path::file_stem` gives it.
pub uninterp spec fn path_file_stem(path: Seq<char>) -> Option<Seq<char>>;

/// The path without its final component, as `Path::parent` gives it.
pub uninterp spec fn path_parent(path: Seq<char>) -> Option<Seq<char>>;

/// The lowercase form of a text, as `str::to_lowercase` gives it.
pub uninterp spec fn lowercase(text: Seq<char>) -> Seq<char>;

/// `Path::file_name`: the last component of the path, if it names one. The
/// result depends on the path alone.
#[verifier::external_body]
pub(crate) fn file_name_of(path: &str) -> (res: Option<String>)
    ensures
        text_view(res) == path_file_name(path@),
{
    std::path::Path::new(path).file_name().map(|name| name.to_string_lossy().into_owned())
}

/// `Path::file_stem`: the file name up to its last dot. The result depends
/// on the path alone.
#[verifier::external_body]
pub(crate) fn file_stem_of(path: &str) -> (res: Option<String>)
    ensures
        text_view(res) == path_file_stem(path@),
{
    std::path::Path::new(path).file_stem().map(|stem| stem.to_string_lossy().into_owned())
}

/// `Path::parent`: the path of the containing directory, if there is one.
/// The result depends on the path alone.
#[verifier::external_body]
pub(crate) fn parent_of(path: &str) -> (res: Option<String>)
    ensures
        text_view(res) == path_parent(path@),
{
    std::path::Path::new(path).parent().map(|dir| dir.to_string_lossy().into_owned())
}

/// `str::to_lowercase`: the text with every character in lowercase. The
/// result depends on the text alone.
#[verifier::external_body]
pub(crate) fn to_lowercase(text: &str) -> (res: String)
    ensures
        res@ == lowercase(text@),
{
    text.to_lowercase()
}

/// The file name that a result row shows for `path`: its last component, or
/// nothing where the path has none.
pub fn display_file_name(path: &str) -> (res: String)
    ensures
        res@ == or_empty(path_file_name(path@)),
{
    text_or_empty(file_name_of(path))
}

/// The title that a result row shows for `path`: its file stem, or nothing
/// where the path has none.
pub fn display_title(path: &str) -> (res: String)
    ensures
        res@ == or_empty(path_file_stem(path@)),
{
    text_or_empty(file_stem_of(path))
}

/// Whether a text already in lowercase ends in `.pdf`.
pub fn has_pdf_extension(lowered: &str) -> (res: bool)
    ensures
        res == has_suffix(lowered@, ".pdf"@),
{
    ends_with(lowered, ".pdf")
}

/// Whether `path` names a PDF file: whether it ends in `.pdf`, letter case aside.
pub fn is_pdf_path(path: &str) -> (res: bool)
    ensures
        res == has_suffix(lowercase(path@), ".pdf"@),
{
    let lowered = to_lowercase(path);
    has_pdf_extension(lowered.as_str())
}

} // verus!
