//! Paths as text: joining a relative component onto a base, and the fixed
//! locations the installer works with below a home directory.

use vstd::prelude::*;

verus! {

/// `rel` adjoined to `base`: an absolute `rel` replaces `base`; otherwise
/// the two are put together with exactly one separator between them, and
/// none when `base` is empty or already ends in one.
pub open spec fn joined(base: Seq<char>, rel: Seq<char>) -> Seq<char> {
    if rel.len() > 0 && rel[0] == '/' {
        rel
    } else if base.len() == 0 || base.last() == '/' {
        base + rel
    } else {
        base + seq!['/'] + rel
    }
}

/// Adjoins `rel` to `base`.
pub fn join(base: &str, rel: &str) -> (out: String)
    ensures
        out@ == joined(base@, rel@),
{
    let m: usize = rel.unicode_len();
    if m > 0 && rel.get_char(0) == '/' {
        return String::from_str(rel);
    }
    let n: usize = base.unicode_len();
    let mut out = String::from_str(base);
    if !(n == 0 || base.get_char(n - 1) == '/') {
        proof {
            reveal_strlit("/");
            assert("/"@ =~= seq!['/']);
        }
        out.append("/");
    }
    out.append(rel);
    out
}

/// The locations below a home directory that the installers use.
#[derive(Debug, PartialEq, Eq)]
pub struct AppPaths {
    pub home_dir: String,
    pub battlenet_installer: String,
    pub hoyoplay_installer: String,
}

/// The mathematical content of [`AppPaths`].
pub struct AppPathsModel {
    pub home_dir: Seq<char>,
    pub battlenet_installer: Seq<char>,
    pub hoyoplay_installer: Seq<char>,
}

impl View for AppPaths {
    type V = AppPathsModel;

    open spec fn view(&self) -> AppPathsModel {
        AppPathsModel {
            home_dir: self.home_dir@,
            battlenet_installer: self.battlenet_installer@,
            hoyoplay_installer: self.hoyoplay_installer@,
        }
    }
}

/// The paths that belong to the home directory `home`.
pub open spec fn app_paths(home: Seq<char>) -> AppPathsModel {
    AppPathsModel {
        home_dir: home,
        battlenet_installer: joined(home, ".battlenet/Battle.net-Setup.exe"@),
        hoyoplay_installer: joined(home, ".hoyoplay/HoYoPlay-Setup.exe"@),
    }
}

impl AppPaths {
    /// Lays out the installer locations below `home`.
    pub fn new(home: &str) -> (paths: AppPaths)
        ensures
            paths@ == app_paths(home@),
    {
        AppPaths {
            home_dir: String::from_str(home),
            battlenet_installer: join(home, ".battlenet/Battle.net-Setup.exe"),
            hoyoplay_installer: join(home, ".hoyoplay/HoYoPlay-Setup.exe"),
        }
    }
}

} // verus!
