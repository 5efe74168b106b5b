//! Which of the tools the application relies on are installed, and where.
use vstd::prelude::*;
use crate::error::{AppError, AppErrorView};

verus! {

/// Whether each tool was found.
#[derive(Debug, Clone, Copy, PartialEq, Eq, Structural)]
pub struct DepStatus {
    pub opencode: bool,
    pub bun: bool,
    pub node: bool,
    pub npm: bool,
    pub git: bool,
}

/// Holds when a lookup of `name` on `PATH` (`which::which`) answered
/// `found`. It records which name an answer belongs to and says nothing of
/// what a lookup answers: two lookups of one name may answer differently.
pub uninterp spec fn which_reported(name: Seq<char>, found: bool) -> bool;

/// Holds when a lookup of `name` on `PATH` (`which::which`) found the
/// executable at `path`. It records which name a found path belongs to and
/// says nothing of what a lookup finds.
pub uninterp spec fn which_found(name: Seq<char>, path: Seq<char>) -> bool;

/// The path of the executable named `cmd` that `which::which` finds on
/// `PATH` (with the platform's executable extensions), as text, or `None`
/// when it finds none. Whether it finds one depends on the environment and
/// the disk; only that this answer is the lookup of `cmd` is stated.
#[verifier::external_body]
fn find_executable(cmd: &str) -> (r: Option<String>)
    ensures
        which_reported(cmd@, r is Some),
        r matches Some(p) ==> which_found(cmd@, p@),
{
    match which::which(cmd) {
        Ok(p) => Some(p.to_string_lossy().to_string()),
        Err(_) => None,
    }
}

/// Whether an executable named `cmd` is found on `PATH`.
fn which(cmd: &str) -> (r: bool)
    ensures
        which_reported(cmd@, r),
{
    find_executable(cmd).is_some()
}

/// The tools the application relies on, in the order of `DepStatus`'s fields.
pub open spec fn dep_names_spec() -> Seq<Seq<char>> {
    seq!["opencode"@, "bun"@, "node"@, "npm"@, "git"@]
}

/// The names of the tools to look up, in the order of `DepStatus`'s fields.
pub fn dep_names() -> (r: [&'static str; 5])
    ensures
        r@.map_values(|s: &str| s@) == dep_names_spec(),
{
    let r = ["opencode", "bun", "node", "npm", "git"];
    assert(r@.map_values(|s: &str| s@) =~= dep_names_spec());
    r
}

/// The status of the tools, given whether each was found, in the order of
/// `dep_names`.
pub open spec fn dep_status_spec(found: Seq<bool>) -> DepStatus {
    DepStatus { opencode: found[0], bun: found[1], node: found[2], npm: found[3], git: found[4] }
}

/// Gathers the lookups of the tools, in the order of `dep_names`, into a status.
pub fn dep_status(found: [bool; 5]) -> (r: DepStatus)
    ensures
        r == dep_status_spec(found@),
{
    DepStatus { opencode: found[0], bun: found[1], node: found[2], npm: found[3], git: found[4] }
}

/// Looks up opencode, bun, node, npm and git on `PATH`; each field is the
/// answer of the lookup of its tool.
pub fn check_deps() -> (r: DepStatus)
    ensures
        which_reported("opencode"@, r.opencode),
        which_reported("bun"@, r.bun),
        which_reported("node"@, r.node),
        which_reported("npm"@, r.npm),
        which_reported("git"@, r.git),
{
    let names = dep_names();
    assert(names@[0]@ == "opencode"@ && names@[1]@ == "bun"@ && names@[2]@ == "node"@
        && names@[3]@ == "npm"@ && names@[4]@ == "git"@) by {
        assert(names@.map_values(|s: &str| s@)[0] == dep_names_spec()[0]);
        assert(names@.map_values(|s: &str| s@)[1] == dep_names_spec()[1]);
        assert(names@.map_values(|s: &str| s@)[2] == dep_names_spec()[2]);
        assert(names@.map_values(|s: &str| s@)[3] == dep_names_spec()[3]);
        assert(names@.map_values(|s: &str| s@)[4] == dep_names_spec()[4]);
    }
    let found = [which(names[0]), which(names[1]), which(names[2]), which(names[3]), which(names[4])];
    dep_status(found)
}

/// The error for a tool `name` that is not installed.
pub open spec fn not_found_spec(name: Seq<char>) -> AppErrorView {
    AppErrorView::EnvNotFound(name)
}

/// The program to run for tool `name`, given where it was `found`: that
/// path, or the error naming the missing tool.
pub fn program_or_missing(name: &str, found: Option<String>) -> (r: Result<String, AppError>)
    ensures
        match found {
            Some(p) => r matches Ok(q) && q@ == p@,
            None => r matches Err(e) && e@ == not_found_spec(name@),
        },
{
    match found {
        Some(p) => Ok(p),
        None => Err(AppError::EnvNotFound(String::from_str(name))),
    }
}

/// Resolves tool `name` to the path of its executable on `PATH`: it
/// succeeds as the lookup of `name` answers, and a tool that is not found is
/// reported as missing, by name.
pub fn resolve_program(name: &str) -> (r: Result<String, AppError>)
    ensures
        which_reported(name@, r is Ok),
        r matches Ok(p) ==> which_found(name@, p@),
        r matches Err(e) ==> e@ == not_found_spec(name@),
{
    let found = find_executable(name);
    let ghost was_found = found is Some;
    let r = program_or_missing(name, found);
    assert(was_found == r is Ok);
    r
}

} // verus!
