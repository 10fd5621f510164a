//! Filesystem paths, held as UTF-8 strings, and the `std::path` operations
//! that the library applies to them.
//!
//! The library keeps every path as a `String`; each function below makes one
//! call into `std::path::Path` and converts the result back. The results are
//! named by the `std_path_*` functions, so that contracts elsewhere can state
//! exactly which path a function produces.

use vstd::prelude::*;

verus! {

/// On Unix a path is absolute exactly when it begins with `/`.
pub open spec fn is_absolute_path(p: Seq<char>) -> bool {
    p.len() > 0 && p[0] == '/'
}

/// The path that `Path::join(base, part)` produces.
pub uninterp spec fn std_path_join(base: Seq<char>, part: Seq<char>) -> Seq<char>;

/// The path that `Path::parent` returns, if any.
pub uninterp spec fn std_path_parent(path: Seq<char>) -> Option<Seq<char>>;

/// The final component that `Path::file_name` returns, if any.
pub uninterp spec fn std_path_file_name(path: Seq<char>) -> Option<Seq<char>>;

/// The path that `Path::with_file_name(path, name)` produces.
pub uninterp spec fn std_path_with_file_name(path: Seq<char>, name: Seq<char>) -> Seq<char>;

/// The path that `Path::with_extension(path, extension)` produces.
pub uninterp spec fn std_path_with_extension(path: Seq<char>, extension: Seq<char>) -> Seq<char>;

/// `Path::join`. Its documentation states that an absolute `part` replaces
/// the base; what a relative `part` gives is only named.
#[verifier::external_body]
pub(crate) fn path_join(base: &str, part: &str) -> (res: String)
    ensures
        res@ == std_path_join(base@, part@),
        is_absolute_path(part@) ==> res@ == part@,
{
    std::path::Path::new(base).join(part).to_string_lossy().into_owned()
}

/// `Path::is_absolute`. Its documentation states that on Unix a path is
/// absolute exactly when it has a root, that is, when it starts with `/`.
#[verifier::external_body]
pub(crate) fn path_is_absolute(path: &str) -> (res: bool)
    ensures
        res == is_absolute_path(path@),
{
    std::path::Path::new(path).is_absolute()
}

/// `Path::parent`. Its documentation states that the empty path and the
/// root have no parent; other results are only named.
#[verifier::external_body]
pub(crate) fn path_parent(path: &str) -> (res: Option<String>)
    ensures
        res matches Some(p) ==> std_path_parent(path@) == Some(p@),
        res is None ==> std_path_parent(path@) is None,
        path@.len() == 0 ==> res is None,
        path@ == seq!['/'] ==> res is None,
{
    match std::path::Path::new(path).parent() {
        Some(parent) => Some(parent.to_string_lossy().into_owned()),
        None => None,
    }
}

/// `Path::file_name`, read as UTF-8 (every path of this library is UTF-8,
/// so no name is lost in that step). The result is only named.
#[verifier::external_body]
pub(crate) fn path_file_name(path: &str) -> (res: Option<String>)
    ensures
        res matches Some(n) ==> std_path_file_name(path@) == Some(n@),
        res is None ==> std_path_file_name(path@) is None,
{
    match std::path::Path::new(path).file_name() {
        Some(name) => Some(name.to_string_lossy().into_owned()),
        None => None,
    }
}

/// `Path::with_file_name`. The result is only named.
#[verifier::external_body]
pub(crate) fn path_with_file_name(path: &str, name: &str) -> (res: String)
    ensures
        res@ == std_path_with_file_name(path@, name@),
{
    std::path::Path::new(path).with_file_name(name).to_string_lossy().into_owned()
}

/// `Path::with_extension`. Its documentation states that it panics when
/// the extension holds a path separator, so such an extension is not
/// admitted. The result is only named.
#[verifier::external_body]
pub(crate) fn path_with_extension(path: &str, extension: &str) -> (res: String)
    requires
        forall|i: int| 0 <= i < extension@.len() ==> extension@[i] != '/',
    ensures
        res@ == std_path_with_extension(path@, extension@),
{
    std::path::Path::new(path).with_extension(extension).to_string_lossy().into_owned()
}

/// A recorded path, taken as it is when absolute and otherwise relative to
/// `root`.
pub open spec fn resolved_path(root: Seq<char>, recorded: Seq<char>) -> Seq<char> {
    if is_absolute_path(recorded) {
        recorded
    } else {
        std_path_join(root, recorded)
    }
}

/// Resolves a path recorded in metadata: an absolute path stands as it is,
/// a relative one is joined onto the project root.
pub fn resolve_recorded_path(project_root: &str, recorded: &str) -> (res: String)
    ensures
        res@ == resolved_path(project_root@, recorded@),
        is_absolute_path(recorded@) ==> res@ == recorded@,
{
    if path_is_absolute(recorded) {
        String::from_str(recorded)
    } else {
        path_join(project_root, recorded)
    }
}

} // verus!
