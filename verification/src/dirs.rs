//! The base directories of the user who runs the tool.

use vstd::prelude::*;

verus! {

/// The name under which the tool keeps its files below each base directory.
pub const APP_PREFIX: &'static str = "slink";

#[verifier::external_type_specification]
#[verifier::external_body]
pub struct ExBaseDirectories(xdg::BaseDirectories);

#[verifier::external_type_specification]
#[verifier::external_body]
pub struct ExBaseDirectoriesError(xdg::BaseDirectoriesError);

/// Why the cache directory is not known.
#[derive(Debug)]
pub enum LookupError {
    /// The environment does not determine the base directories.
    Unresolved(xdg::BaseDirectoriesError),
    /// The directory's path is not valid Unicode.
    NotUnicode,
}

/// Calls `xdg::BaseDirectories::with_prefix`, which reads the base
/// directories from the environment of the process and keeps `prefix` for
/// the paths below them. Nothing is claimed of what it returns.
#[verifier::external_body]
fn base_directories(prefix: &str) -> Result<xdg::BaseDirectories, xdg::BaseDirectoriesError> {
    xdg::BaseDirectories::with_prefix(prefix)
}

/// Calls `xdg::BaseDirectories::get_cache_home` and gives the path as text,
/// `None` where it is not valid Unicode. Nothing is claimed of the text.
#[verifier::external_body]
fn cache_home_of(dirs: &xdg::BaseDirectories) -> Option<String> {
    dirs.get_cache_home().into_os_string().into_string().ok()
}

/// The base directories of this user, with the tool's prefix.
fn xdg_dirs() -> Result<xdg::BaseDirectories, xdg::BaseDirectoriesError> {
    base_directories(APP_PREFIX)
}

/// What a lookup of the cache directory comes to: its path where the base
/// directories were found and the path is text, an error otherwise.
pub fn resolve(found: Result<Option<String>, xdg::BaseDirectoriesError>) -> (r: Result<
    String,
    LookupError,
>)
    ensures
        r == match found {
            Ok(Some(home)) => Ok::<String, LookupError>(home),
            Ok(None) => Err(LookupError::NotUnicode),
            Err(e) => Err(LookupError::Unresolved(e)),
        },
{
    match found {
        Ok(Some(home)) => Ok(home),
        Ok(None) => Err(LookupError::NotUnicode),
        Err(e) => Err(LookupError::Unresolved(e)),
    }
}

/// The directory below which the tool keeps its cache files, the control
/// sockets among them, as the environment of the process gives it.
pub fn cache_home() -> Result<String, LookupError> {
    match xdg_dirs() {
        Ok(dirs) => resolve(Ok(cache_home_of(&dirs))),
        Err(e) => resolve(Err(e)),
    }
}

} // verus!
