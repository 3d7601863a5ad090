//! File-system paths, held as text.

use vstd::prelude::*;
use crate::text::opt_view;

verus! {

/// The text of `base` joined with `part` by `std::path::Path::join`.
pub uninterp spec fn joined_path(base: Seq<char>, part: Seq<char>) -> Seq<char>;

/// `Path::new(base).join(part)`, as text (`to_string_lossy`). The contract
/// claims only that the result is the one that `joined_path` names for
/// these arguments.
#[verifier::external_body]
pub(crate) fn path_join(base: &str, part: &str) -> (r: String)
    ensures
        r@ == joined_path(base@, part@),
{
    std::path::Path::new(base).join(part).to_string_lossy().to_string()
}

/// `dirs::data_local_dir()`, as text. It depends on the environment, so
/// nothing is claimed of it.
#[verifier::external_body]
pub(crate) fn data_local_dir() -> (r: Option<String>) {
    dirs::data_local_dir().map(|p| p.to_string_lossy().to_string())
}

/// `dirs::download_dir()`, as text. It depends on the environment, so
/// nothing is claimed of it.
#[verifier::external_body]
pub(crate) fn download_dir() -> (r: Option<String>) {
    dirs::download_dir().map(|p| p.to_string_lossy().to_string())
}

/// `dirs::home_dir()`, as text. It depends on the environment, so nothing
/// is claimed of it.
#[verifier::external_body]
pub(crate) fn home_dir() -> (r: Option<String>) {
    dirs::home_dir().map(|p| p.to_string_lossy().to_string())
}

/// `std::path::MAIN_SEPARATOR`: the separator of path components on this
/// platform (`\` on Windows). Nothing is claimed of it.
#[verifier::external_body]
pub(crate) fn main_separator() -> (r: char) {
    std::path::MAIN_SEPARATOR
}

/// The text of the parent of `p` by `std::path::Path::parent`.
pub uninterp spec fn parent_of(p: Seq<char>) -> Option<Seq<char>>;

/// The text of the last component of `p` by `std::path::Path::file_name`.
pub uninterp spec fn file_name_of(p: Seq<char>) -> Option<Seq<char>>;

/// Whether `Path::new(a) == Path::new(b)`: the two paths have the same
/// components.
pub uninterp spec fn same_path(a: Seq<char>, b: Seq<char>) -> bool;

/// `Path::new(p).parent()`, as text. The contract claims only that the
/// result is the one that `parent_of` names for `p`.
#[verifier::external_body]
pub(crate) fn path_parent(p: &str) -> (r: Option<String>)
    ensures
        opt_view(r) == parent_of(p@),
{
    std::path::Path::new(p).parent().map(|q| q.to_string_lossy().to_string())
}

/// `Path::new(p).file_name()`, as text. The contract claims only that the
/// result is the one that `file_name_of` names for `p`.
#[verifier::external_body]
pub(crate) fn path_file_name(p: &str) -> (r: Option<String>)
    ensures
        opt_view(r) == file_name_of(p@),
{
    std::path::Path::new(p).file_name().map(|q| q.to_string_lossy().to_string())
}

/// `Path::new(a) == Path::new(b)`. The contract claims only that the
/// result is the one that `same_path` names for `a` and `b`.
#[verifier::external_body]
pub(crate) fn paths_equal(a: &str, b: &str) -> (r: bool)
    ensures
        r == same_path(a@, b@),
{
    std::path::Path::new(a) == std::path::Path::new(b)
}

} // verus!
