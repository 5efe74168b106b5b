//! File-system paths as text, and the user directories the platform reports.
//!
//! Paths are joined by POSIX rules (`/` separators, a leading `/` makes a
//! path absolute). The application runs on Unix, where it sends signals and
//! reads `lsof`; Windows separators and drive letters are not modelled.
//! Paths reported by the platform become text with any non-UTF-8 bytes
//! replaced.
use vstd::prelude::*;
use crate::text::{chars_of, push_char};

verus! {

/// The operating system the application runs on.
#[derive(Debug, Clone, Copy, PartialEq, Eq, Structural)]
pub enum Platform {
    MacOs,
    Windows,
    Linux,
    Other,
}

/// `p` appended to `base` the way a POSIX `PathBuf::join` does it: an
/// absolute `p` replaces `base`; otherwise a `/` separates them unless `base`
/// is empty or already ends with one.
pub open spec fn path_join_spec(base: Seq<char>, p: Seq<char>) -> Seq<char> {
    if p.len() > 0 && p[0] == '/' {
        p
    } else if base.len() > 0 && base.last() != '/' {
        base + seq!['/'] + p
    } else {
        base + p
    }
}

/// Joins `p` onto `base` (POSIX path rules).
pub fn path_join(base: &str, p: &str) -> (r: String)
    ensures
        r@ == path_join_spec(base@, p@),
{
    let pv = chars_of(p);
    let bv = chars_of(base);
    if pv.len() > 0 && pv[0] == '/' {
        return String::from_str(p);
    }
    let mut r = String::from_str(base);
    if bv.len() > 0 && bv[bv.len() - 1] != '/' {
        push_char(&mut r, '/');
    }
    r.append(p);
    r
}

/// The text of an optional directory.
pub open spec fn opt_dir(o: Option<String>) -> Option<Seq<char>> {
    match o {
        Some(d) => Some(d@),
        None => None,
    }
}

/// A directory, or `.` when there is none.
pub open spec fn dir_or_dot(o: Option<Seq<char>>) -> Seq<char> {
    match o {
        Some(d) => d,
        None => "."@,
    }
}

/// Holds when the platform reported `dir` as the user's home directory
/// (`dirs::home_dir`). It records which answer a lookup gave and says
/// nothing of what the platform answers.
pub uninterp spec fn home_reported(dir: Option<Seq<char>>) -> bool;

/// Holds when the platform reported `dir` as the user's configuration
/// directory (`dirs::config_dir`). It records which answer a lookup gave and
/// says nothing of what the platform answers.
pub uninterp spec fn config_dir_reported(dir: Option<Seq<char>>) -> bool;

/// The user's home directory, if the platform reports one
/// (`dirs::home_dir`, converted to text, non-UTF-8 bytes replaced). It
/// depends on the environment; only that this is the answer is stated.
#[verifier::external_body]
pub(crate) fn home_dir() -> (r: Option<String>)
    ensures
        home_reported(opt_dir(r)),
{
    dirs::home_dir().map(|p| p.to_string_lossy().to_string())
}

/// The user's configuration directory, if the platform reports one
/// (`dirs::config_dir`, converted to text, non-UTF-8 bytes replaced). It
/// depends on the environment; only that this is the answer is stated.
#[verifier::external_body]
pub(crate) fn config_dir() -> (r: Option<String>)
    ensures
        config_dir_reported(opt_dir(r)),
{
    dirs::config_dir().map(|p| p.to_string_lossy().to_string())
}

/// Holds when a check whether something exists at `path`
/// (`std::path::Path::exists`) answered `found`. It records which path an
/// answer belongs to and says nothing of what a check answers: the disk
/// may change between two checks.
pub uninterp spec fn exists_reported(path: Seq<char>, found: bool) -> bool;

/// Whether something exists at `path` (`std::path::Path::exists`). It
/// depends on the disk; only that this answer is the check of `path` is
/// stated.
#[verifier::external_body]
pub(crate) fn path_exists(path: &str) -> (r: bool)
    ensures
        exists_reported(path@, r),
{
    std::path::Path::new(path).exists()
}

} // verus!
