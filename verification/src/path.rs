//! The parts of a file's path that name it, as the platform's path syntax
//! finds them.

use crate::track::tag_text;
use vstd::prelude::*;

verus! {

/// The file stem that the platform's path syntax finds in `path`: the last
/// component without its extension, or nothing where the path has no last
/// component.
pub uninterp spec fn stem_of(path: Seq<char>) -> Option<Seq<char>>;

/// The extension that the platform's path syntax finds in `path`: what
/// stands after the last dot of the last component, or nothing where that
/// component is missing, has no dot or only begins with one.
pub uninterp spec fn extension_of(path: Seq<char>) -> Option<Seq<char>>;

/// Calls `std::path::Path::file_stem` on `path` and gives the stem as text.
/// The result is a function of the path alone.
#[verifier::external_body]
pub(crate) fn file_stem(path: &str) -> (stem: Option<String>)
    ensures
        tag_text(stem) == stem_of(path@),
{
    std::path::Path::new(path).file_stem().map(|stem| stem.to_string_lossy().into_owned())
}

/// Calls `std::path::Path::extension` on `path` and gives the extension as
/// text. The result is a function of the path alone.
#[verifier::external_body]
pub(crate) fn extension(path: &str) -> (ext: Option<String>)
    ensures
        tag_text(ext) == extension_of(path@),
{
    std::path::Path::new(path).extension().map(|ext| ext.to_string_lossy().into_owned())
}

} // verus!
