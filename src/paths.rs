//! Path components, read through `std::path::Path`.
use vstd::prelude::*;

verus! {

/// The file name of a path without its extension, as `Path::file_stem` gives it.
pub uninterp spec fn path_stem(p: Seq<char>) -> Option<Seq<char>>;

/// The extension of a path, as `Path::extension` gives it.
pub uninterp spec fn path_extension(p: Seq<char>) -> Option<Seq<char>>;

/// The final component of a path, as `Path::file_name` gives it.
pub uninterp spec fn path_file_name(p: Seq<char>) -> Option<Seq<char>>;

/// Relies on `std::path::Path::file_stem`; a stem taken from a `&str` path is
/// valid UTF-8, so `to_str` keeps it whole.
#[verifier::external_body]
pub(crate) fn file_stem(p: &str) -> (r: Option<String>)
    ensures
        match r {
            Some(s) => path_stem(p@) == Some(s@),
            None => path_stem(p@) is None,
        },
{
    std::path::Path::new(p).file_stem().and_then(|s| s.to_str()).map(|s| s.to_string())
}

/// Relies on `std::path::Path::extension`.
#[verifier::external_body]
pub(crate) fn file_extension(p: &str) -> (r: Option<String>)
    ensures
        match r {
            Some(s) => path_extension(p@) == Some(s@),
            None => path_extension(p@) is None,
        },
{
    std::path::Path::new(p).extension().and_then(|s| s.to_str()).map(|s| s.to_string())
}

/// Relies on `std::path::Path::file_name`.
#[verifier::external_body]
pub(crate) fn file_name(p: &str) -> (r: Option<String>)
    ensures
        match r {
            Some(s) => path_file_name(p@) == Some(s@),
            None => path_file_name(p@) is None,
        },
{
    std::path::Path::new(p).file_name().and_then(|s| s.to_str()).map(|s| s.to_string())
}

/// The extension that marks a FLAC file.
pub open spec fn flac_extension() -> Seq<char> {
    seq!['f', 'l', 'a', 'c']
}

/// Whether a path names a FLAC file: its extension is exactly `flac`.
pub open spec fn is_flac_path_spec(p: Seq<char>) -> bool {
    path_extension(p) == Some(flac_extension())
}

/// Whether a directory entry takes part in a scan.
pub fn is_flac_path(p: &str) -> (r: bool)
    ensures
        r == is_flac_path_spec(p@),
{
    let flac = String::from_str("flac");
    proof {
        reveal_strlit("flac");
    }
    assert(flac@ =~= flac_extension());
    match file_extension(p) {
        Some(ext) => ext == flac,
        None => false,
    }
}

} // verus!
