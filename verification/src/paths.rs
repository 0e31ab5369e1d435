//! File-name parts of paths, as `std::path::Path` takes them apart.
use vstd::prelude::*;

verus! {

/// `Path::extension` of a path, as text.
pub uninterp spec fn spec_path_extension(path: Seq<char>) -> Option<Seq<char>>;

/// `Path::file_stem` of a path, as text.
pub uninterp spec fn spec_file_stem(path: Seq<char>) -> Option<Seq<char>>;

/// `format!("{:?}", Path::file_name().unwrap_or_default())` of a path.
pub uninterp spec fn spec_file_name_debug(path: Seq<char>) -> Seq<char>;

/// The text of an optional string.
pub open spec fn opt_text(o: Option<String>) -> Option<Seq<char>> {
    match o {
        Some(s) => Some(s@),
        None => None,
    }
}

/// `Path::new(path).extension()`, as text: the part of the file name after
/// its last `.`, absent when the file name has no `.` but a leading one, or
/// there is no file name. The result is a function of the path text alone;
/// how the path is split into components is not restated here.
#[verifier::external_body]
pub(crate) fn path_extension(path: &str) -> (r: Option<String>)
    ensures
        opt_text(r) == spec_path_extension(path@),
{
    std::path::Path::new(path).extension().and_then(|e| e.to_str()).map(|e| e.to_string())
}

/// `Path::new(path).file_stem()`, as text: the file name without its
/// extension. The result is a function of the path text alone.
#[verifier::external_body]
pub(crate) fn path_file_stem(path: &str) -> (r: Option<String>)
    ensures
        opt_text(r) == spec_file_stem(path@),
{
    std::path::Path::new(path).file_stem().and_then(|e| e.to_str()).map(|e| e.to_string())
}

/// The `Debug` text of the file name of a path (an empty name when there is
/// none): the name quoted, with `Debug` escapes. The result is a function of
/// the path text alone; the escaping is not restated here.
#[verifier::external_body]
pub(crate) fn file_name_debug(path: &str) -> (r: String)
    ensures
        r@ == spec_file_name_debug(path@),
{
    format!("{:?}", std::path::Path::new(path).file_name().unwrap_or_default())
}

} // verus!
