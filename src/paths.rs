use crate::models::opt_text;
use vstd::prelude::*;

verus! {

/// The extension that `std::path::Path::extension` finds in a path, if any.
pub uninterp spec fn path_extension_of(path: Seq<char>) -> Option<Seq<char>>;

/// The file stem that `std::path::Path::file_stem` finds in a path, if any.
pub uninterp spec fn path_stem_of(path: Seq<char>) -> Option<Seq<char>>;

/// The Unicode lower-case form of a string.
pub uninterp spec fn lower_of(s: Seq<char>) -> Seq<char>;

/// Relies on `std::path::Path::extension`: the part of the file name after its
/// last `.`, if the name has one that does not start it.
#[verifier::external_body]
fn path_extension(path: &str) -> (r: Option<String>)
    ensures
        opt_text(r) == path_extension_of(path@),
{
    std::path::Path::new(path).extension().and_then(|e| e.to_str()).map(|e| e.to_string())
}

/// Relies on `std::path::Path::file_stem`: the file name without its extension.
#[verifier::external_body]
fn path_stem(path: &str) -> (r: Option<String>)
    ensures
        opt_text(r) == path_stem_of(path@),
{
    std::path::Path::new(path).file_stem().and_then(|e| e.to_str()).map(|e| e.to_string())
}

/// Relies on `str::to_lowercase`: the Unicode lower-case form of the text.
#[verifier::external_body]
fn lowercase(s: &str) -> (r: String)
    ensures
        r@ == lower_of(s@),
{
    s.to_lowercase()
}

/// The extension of a path as written, or the empty text where it has none.
pub open spec fn raw_extension(path: Seq<char>) -> Seq<char> {
    match path_extension_of(path) {
        Some(e) => e,
        None => Seq::empty(),
    }
}

/// The lower-case extension by which a file's format is recognised.
pub open spec fn extension_of(path: Seq<char>) -> Seq<char> {
    lower_of(raw_extension(path))
}

/// The name under which a file is shown: its stem, or the empty text.
pub open spec fn name_of(path: Seq<char>) -> Seq<char> {
    match path_stem_of(path) {
        Some(s) => s,
        None => Seq::empty(),
    }
}

/// The lower-case extension of the file at `path` (empty where it has none).
pub fn file_extension(path: &str) -> (r: String)
    ensures
        r@ == extension_of(path@),
{
    match path_extension(path) {
        Some(e) => lowercase(e.as_str()),
        None => {
            let r = lowercase("");
            proof {
                reveal_strlit("");
                assert(""@ =~= Seq::<char>::empty());
            }
            r
        },
    }
}

/// The stem of the file at `path` (empty where it has none).
pub fn file_name(path: &str) -> (r: String)
    ensures
        r@ == name_of(path@),
{
    match path_stem(path) {
        Some(s) => s,
        None => String::new(),
    }
}

} // verus!
