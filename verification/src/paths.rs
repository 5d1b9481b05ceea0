//! Path canonicalization used when resolving configured file paths.

use vstd::prelude::*;

verus! {

#[verifier::external_type_specification]
#[verifier::external_body]
pub struct ExPathBuf(std::path::PathBuf);

/// Relies on `std::path::Path::canonicalize`: yields the canonical form of
/// the path when the filesystem can resolve it.  The result depends on the
/// filesystem, so nothing is promised of it.
#[verifier::external_body]
fn canonicalize_path(path: &std::path::PathBuf) -> (r: Option<std::path::PathBuf>) {
    path.canonicalize().ok()
}

/// The canonical form of a path when one was found, else the path itself.
pub fn abspath_from(canonical: Option<std::path::PathBuf>, path: std::path::PathBuf) -> (r:
    std::path::PathBuf)
    ensures
        match canonical {
            Option::Some(c) => r == c,
            Option::None => r == path,
        },
{
    match canonical {
        Option::Some(c) => c,
        Option::None => path,
    }
}

/// Shortcut for canonicalizing a path, if possible: the canonical form when
/// the filesystem yields one, else the path unchanged.
pub fn abspath(path: std::path::PathBuf) -> std::path::PathBuf {
    let canonical = canonicalize_path(&path);
    abspath_from(canonical, path)
}

} // verus!
