//! Where the editor's images are found.

use vstd::prelude::*;

verus! {

/// `std::path::Path`, carried through without a look inside.
#[verifier::external_type_specification]
#[verifier::external_body]
pub struct ExPath(std::path::Path);

/// The text that a path holds, as a sequence of characters. Nothing is proved
/// of it: it is what `std::path::Path` says that it wraps.
pub uninterp spec fn path_text(path: &std::path::Path) -> Seq<char>;

/// `std::path::Path::new` on a string slice. Believed, not proved: the path
/// wraps that very text; nothing is read from disk and nothing is normalised.
#[verifier::external_body]
fn path_from_str(text: &str) -> (path: &std::path::Path)
    ensures
        path_text(path) == text@,
{
    std::path::Path::new(text)
}

/// The location of the resource that `path` names: the same text, as a path.
pub fn get_path(path: &str) -> (location: &std::path::Path)
    ensures
        path_text(location) == path@,
{
    path_from_str(path)
}

} // verus!
