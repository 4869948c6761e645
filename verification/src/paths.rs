//! The boundary to the platform: where the user's configuration directory
//! lies, and how paths are put together. Nothing in this file is proved:
//! each contract restates what `dirs` and `std::path` do.

use std::path::PathBuf;
use vstd::prelude::*;

verus! {

/// `std::path::PathBuf`, a path of the file system, carried without looking
/// inside.
#[verifier::external_type_specification]
#[verifier::external_body]
pub struct ExPathBuf(PathBuf);

/// The path that `Path::join` gives for a base and a relative part, on the
/// platform that the library is built for.
pub uninterp spec fn joined(base: PathBuf, part: Seq<char>) -> PathBuf;

/// The path that `Path::with_extension` gives for a path and an extension,
/// on the platform that the library is built for.
pub uninterp spec fn extended(path: PathBuf, extension: Seq<char>) -> PathBuf;

/// Whether a text holds a character that separates the parts of a path on
/// some platform.
pub open spec fn has_separator(text: Seq<char>) -> bool {
    text.contains('/') || text.contains('\\')
}

/// `dirs::config_dir`: the configuration directory that the platform names
/// for the user, if it names one. It depends on the platform and on what the
/// process was started with, so nothing is said of it.
#[verifier::external_body]
pub(crate) fn platform_config_dir() -> Option<PathBuf> {
    dirs::config_dir()
}

/// `Path::join`: the base with the part adjoined.
#[verifier::external_body]
pub(crate) fn join(base: &PathBuf, part: &str) -> (path: PathBuf)
    ensures
        path == joined(*base, part@),
{
    base.join(part)
}

/// `Path::with_extension`: the path with its extension replaced. The
/// extension must hold no separator: on one that does, the call panics.
#[verifier::external_body]
pub(crate) fn with_extension(path: &PathBuf, extension: &str) -> (changed: PathBuf)
    requires
        !has_separator(extension@),
    ensures
        changed == extended(*path, extension@),
{
    path.with_extension(extension)
}

} // verus!
