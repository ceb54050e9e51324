use vstd::prelude::*;

verus! {

/// The text of `std::path::Path::file_stem` for the path written as `path`:
/// the final component's name without its last extension, or nothing when
/// the path has no file name.
pub uninterp spec fn path_file_stem(path: Seq<char>) -> Option<Seq<char>>;

/// Calls `std::path::Path::file_stem` on `path` and converts the stem to
/// text. Claims that the result is `path_file_stem` of the path; a stem cut
/// out of valid UTF-8 text is itself valid, so the conversion loses nothing.
#[verifier::external_body]
fn path_stem(path: &str) -> (stem: Option<String>)
    ensures
        match stem {
            Some(s) => path_file_stem(path@) == Some(s@),
            None => path_file_stem(path@) is None,
        },
{
    match std::path::Path::new(path).file_stem() {
        Some(s) => Some(s.to_string_lossy().into_owned()),
        None => None,
    }
}

/// The name a trace is shown under: the file stem of its path, or the whole
/// path when it has none.
pub open spec fn spec_file_stem(path: Seq<char>) -> Seq<char> {
    match path_file_stem(path) {
        Some(s) => s,
        None => path,
    }
}

pub fn file_stem(path: &str) -> (name: String)
    ensures
        name@ == spec_file_stem(path@),
{
    match path_stem(path) {
        Some(s) => s,
        None => {
            let mut s = String::new();
            s.append(path);
            s
        },
    }
}

} // verus!
