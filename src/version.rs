//! The version line that the application reports.

use vstd::prelude::*;
use vstd::string::*;

verus! {

/// The application, as its host framework sees it.
pub struct App;

/// The build that a version line names: the build's own SHA, else the one
/// that CI set, else `dev`.
pub open spec fn build_label(build_sha: Option<Seq<char>>, github_sha: Option<Seq<char>>) -> Seq<
    char,
> {
    match build_sha {
        Some(s) => s,
        None => match github_sha {
            Some(s) => s,
            None => "dev"@,
        },
    }
}

/// The view of an optional string.
pub open spec fn opt_view(s: Option<&str>) -> Option<Seq<char>> {
    match s {
        Some(t) => Some(t@),
        None => None,
    }
}

impl App {
    /// `<package version> (<build>)`.
    pub fn app_version(pkg_version: &str, build_sha: Option<&str>, github_sha: Option<&str>) -> (r:
        String)
        ensures
            r@ == pkg_version@ + " ("@ + build_label(opt_view(build_sha), opt_view(github_sha))
                + ")"@,
    {
        let build = match build_sha {
            Some(s) => s,
            None => match github_sha {
                Some(s) => s,
                None => "dev",
            },
        };
        let mut r = pkg_version.to_owned();
        r.append(" (");
        r.append(build);
        r.append(")");
        r
    }
}

} // verus!
