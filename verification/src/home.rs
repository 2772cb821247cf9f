//! The current user's home directory, asked of the `dirs` crate.

use crate::library::{steam_root, steam_root_path};
use crate::paths::{app_paths, AppPaths, AppPathsModel};
use vstd::prelude::*;

verus! {

/// Asks for the current user's home directory.
///
/// Trusted: stands for `dirs::home_dir`, which reads the directory from the
/// environment and the user database. Nothing is promised of what comes
/// back; a path that is not Unicode is handed on with replacement
/// characters.
#[verifier::external_body]
pub(crate) fn home_directory() -> (home: Option<String>) {
    dirs::home_dir().map(|path| path.to_string_lossy().into_owned())
}

/// The installer locations that belong to a home directory, which may not
/// be known: those below it, and none without it.
pub open spec fn app_paths_below(home: Option<Seq<char>>) -> Option<AppPathsModel> {
    match home {
        Some(dir) => Some(app_paths(dir)),
        None => None,
    }
}

/// The primary library root that belongs to a home directory, which may
/// not be known: the one below it, and none without it.
pub open spec fn steam_root_below(home: Option<Seq<char>>) -> Option<Seq<char>> {
    match home {
        Some(dir) => Some(steam_root(dir)),
        None => None,
    }
}

/// Lays out the installer locations below `home`, the home directory as it
/// was asked for: there are none when it is not known.
pub fn app_paths_for(home: Option<String>) -> (paths: Option<AppPaths>)
    ensures
        match paths {
            Some(found) => app_paths_below(home.deep_view()) == Some(found@),
            None => app_paths_below(home.deep_view()) is None,
        },
{
    match home {
        Some(dir) => Some(AppPaths::new(dir.as_str())),
        None => None,
    }
}

/// The primary library root below `home`, the home directory as it was
/// asked for: there is none when it is not known.
pub fn steam_root_for(home: Option<String>) -> (root: Option<String>)
    ensures
        root.deep_view() == steam_root_below(home.deep_view()),
{
    match home {
        Some(dir) => Some(steam_root_path(dir.as_str())),
        None => None,
    }
}

/// The installer locations below the current user's home directory; none
/// when the home directory cannot be determined. Which directory that is,
/// and whether there is one, lies with the environment: [`app_paths_for`]
/// says what is made of each answer.
pub fn detect_app_paths() -> (paths: Option<AppPaths>)
    ensures
        paths matches Some(found) ==> exists|home: Seq<char>| found@ == #[trigger] app_paths(home),
{
    app_paths_for(home_directory())
}

/// The primary library root below the current user's home directory; none
/// when the home directory cannot be determined. Which directory that is,
/// and whether there is one, lies with the environment: [`steam_root_for`]
/// says what is made of each answer.
pub fn detect_steam_root() -> (root: Option<String>)
    ensures
        root matches Some(found) ==> exists|home: Seq<char>| found@ == #[trigger] steam_root(home),
{
    steam_root_for(home_directory())
}

} // verus!
