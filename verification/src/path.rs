//! What the library asks of file system paths. Paths are held as strings; the
//! questions are answered by `std::path`, whose answers are named here and not
//! spelled out. The answers are those for the paths of a Unix host, which is
//! where this library runs: components are separated by `/`.

use vstd::prelude::*;

verus! {

/// Whether `base` is a prefix of `path`, whole components only, as
/// `std::path::Path::starts_with` answers it.
pub uninterp spec fn path_starts_with(path: Seq<char>, base: Seq<char>) -> bool;

/// The extension of the file name of `path`, as `std::path::Path::extension`
/// gives it, where it is valid Unicode.
pub uninterp spec fn path_extension(path: Seq<char>) -> Option<Seq<char>>;

/// The final component of `path`, as `std::path::Path::file_name` gives it.
pub uninterp spec fn path_file_name(path: Seq<char>) -> Option<Seq<char>>;

/// `path` with `component` joined to it, as `std::path::Path::join` gives it.
pub uninterp spec fn path_join(path: Seq<char>, component: Seq<char>) -> Seq<char>;

/// Calls `std::path::Path::starts_with`. The contract only names the answer:
/// it is a function of the two paths and of nothing else.
#[verifier::external_body]
pub(crate) fn starts_with(path: &str, base: &str) -> (r: bool)
    ensures
        r == path_starts_with(path@, base@),
{
    std::path::Path::new(path).starts_with(base)
}

/// Calls `std::path::Path::extension`. The contract only names the answer; an
/// extension that is not valid Unicode cannot occur, since the path is a
/// string.
#[verifier::external_body]
pub(crate) fn extension(path: &str) -> (r: Option<String>)
    ensures
        match r {
            Some(e) => path_extension(path@) == Some(e@),
            None => path_extension(path@) is None,
        },
{
    std::path::Path::new(path).extension().and_then(|e| e.to_str()).map(|e| e.to_owned())
}

/// Calls `std::path::Path::file_name`. The contract only names the answer.
#[verifier::external_body]
pub(crate) fn file_name(path: &str) -> (r: Option<String>)
    ensures
        match r {
            Some(n) => path_file_name(path@) == Some(n@),
            None => path_file_name(path@) is None,
        },
{
    std::path::Path::new(path).file_name().and_then(|n| n.to_str()).map(|n| n.to_owned())
}

/// Calls `std::path::Path::join`. The contract only names the result, which
/// is a string again, since both parts are.
#[verifier::external_body]
pub(crate) fn join(path: &str, component: &str) -> (r: String)
    ensures
        r@ == path_join(path@, component@),
{
    std::path::Path::new(path).join(component).to_string_lossy().into_owned()
}

} // verus!
