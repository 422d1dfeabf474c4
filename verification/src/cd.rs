//! The `cd` built-in: home-path expansion and target resolution.
//!
//! Resolving the target directory is pure and verified here; the actual
//! change of the process working directory is a filesystem call made by the
//! surrounding program on the resolved path this module returns.

use vstd::prelude::*;

verus! {

/// Failure of the `cd` built-in before any filesystem call is made.
#[derive(Debug, Clone, Copy, PartialEq, Eq, Structural)]
pub enum CdError {
    /// `cd` was invoked without a path while no home directory is known.
    HomeDirNotFound,
}

impl CdError {
    /// The error text with which this failure is reported.
    pub fn message(&self) -> (r: String)
        ensures
            r@ == "Home directory not found"@,
    {
        String::from_str("Home directory not found")
    }
}

/// The home-expanded form of `p`: a leading `~` is replaced by the home
/// directory when one is known; otherwise `p` stands as written.
pub open spec fn expanded_path(p: Seq<char>, home_dir: Option<String>) -> Seq<char> {
    if p.len() > 0 && p[0] == '~' && home_dir is Some {
        home_dir->0@ + p.skip(1)
    } else {
        p
    }
}

/// Whether `p` starts from the filesystem root.
pub open spec fn is_absolute_path(p: Seq<char>) -> bool {
    p.len() > 0 && p[0] == '/'
}

/// The directory the `cd` built-in enters for the request `p`: the
/// home-expanded path if it is absolute, and otherwise that path appended
/// to the current working directory behind a path separator.
pub open spec fn resolved_path(p: Seq<char>, home_dir: Option<String>, cwd: Seq<char>) -> Seq<
    char,
> {
    let e = expanded_path(p, home_dir);
    if is_absolute_path(e) {
        e
    } else {
        cwd + "/"@ + e
    }
}

/// Expand a leading `~` in `path` to the home directory.
///
/// The expansion applies exactly when `path` starts with `~` and a home
/// directory is known: `~` alone becomes the home directory, and anything
/// after the `~` is appended to it. On any other input no expansion
/// happens and `None` is returned.
pub fn expand_home_path(path: &str, home_dir: &Option<String>) -> (r: Option<String>)
    requires
        path@.len() > 0,
    ensures
        r is Some <==> (path@[0] == '~' && home_dir is Some),
        r is Some ==> r->0@ == home_dir->0@ + path@.skip(1),
{
    if path.get_char(0) != '~' {
        return None;
    }
    match home_dir {
        None => None,
        Some(h) => {
            let rest = path.substring_char(1, path.unicode_len());
            let expanded = h.clone().concat(rest);
            proof {
                assert(path@.subrange(1, path@.len() as int) =~= path@.skip(1));
            }
            Some(expanded)
        },
    }
}

/// Whether `path` starts from the filesystem root.
fn is_absolute(path: &str) -> (r: bool)
    ensures
        r == is_absolute_path(path@),
{
    path.unicode_len() > 0 && path.get_char(0) == '/'
}

/// Resolve the target directory of a `cd` request.
///
/// With no path requested, the target is the home directory; if none is
/// known the request fails. With a path requested, the target is the
/// home-expanded path, made absolute against `cwd` if it is relative. The
/// caller changes the working directory to the returned target; this
/// function itself touches nothing.
pub fn cmd(home_dir: &Option<String>, path: Option<String>, cwd: &str) -> (r: Result<
    String,
    CdError,
>)
    requires
        path is Some ==> path->0@.len() > 0,
    ensures
        path is None && home_dir is Some ==> r is Ok && r->Ok_0@ == home_dir->0@,
        path is None && home_dir is None ==> r == Result::<String, CdError>::Err(
            CdError::HomeDirNotFound,
        ),
        path is Some ==> r is Ok && r->Ok_0@ == resolved_path(path->0@, *home_dir, cwd@),
{
    match path {
        None => match home_dir {
            Some(h) => Ok(h.clone()),
            None => Err(CdError::HomeDirNotFound),
        },
        Some(p) => {
            let expanded = match expand_home_path(p.as_str(), home_dir) {
                Some(e) => e,
                None => p,
            };
            if is_absolute(expanded.as_str()) {
                Ok(expanded)
            } else {
                let mut target = String::from_str(cwd);
                target.append("/");
                target.append(expanded.as_str());
                Ok(target)
            }
        },
    }
}

} // verus!
