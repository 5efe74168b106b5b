//! Where the bridge is installed, and the decisions around installing and
//! updating it with git.
use vstd::prelude::*;
use crate::paths::{exists_reported, path_exists, path_join, path_join_spec};
use crate::error::{AppError, AppErrorView};
use crate::text::{chars_eq, strings_view, trim, trim_spec};

verus! {

/// The repository the bridge is cloned from.
pub const BRIDGE_REPO: &'static str = "https://github.com/ET06731/opencode-im-bridge";

/// The bridge's installation directory.
pub struct BridgeInstaller {
    path: String,
}

impl BridgeInstaller {
    /// The installation directory.
    pub closed spec fn path_spec(&self) -> Seq<char> {
        self.path@
    }

    /// An installer for the bridge in `path`.
    pub fn new(path: String) -> (r: Self)
        ensures
            r.path_spec() == path@,
    {
        BridgeInstaller { path }
    }

    /// The installation directory.
    pub fn path(&self) -> (r: &str)
        ensures
            r@ == self.path_spec(),
    {
        self.path.as_str()
    }

    /// The directory whose presence marks a git checkout of the bridge.
    pub fn git_dir(&self) -> (r: String)
        ensures
            r@ == path_join_spec(self.path_spec(), ".git"@),
    {
        path_join(self.path.as_str(), ".git")
    }

    /// Whether the bridge is installed: its directory holds a `.git`. It
    /// depends on the disk; what is checked is `git_dir`.
    pub fn is_installed(&self) -> (r: bool)
        ensures
            exists_reported(path_join_spec(self.path_spec(), ".git"@), r),
    {
        let g = self.git_dir();
        path_exists(g.as_str())
    }
}

/// The local checkout is current: the commit `git rev-parse HEAD` printed
/// equals the one `git rev-parse origin/main` printed, surrounding
/// whitespace aside.
pub open spec fn up_to_date_spec(local_out: Seq<char>, remote_out: Seq<char>) -> bool {
    trim_spec(local_out) == trim_spec(remote_out)
}

/// Compares the outputs of `git rev-parse HEAD` and `git rev-parse origin/main`.
pub fn is_up_to_date(local_out: &str, remote_out: &str) -> (r: bool)
    ensures
        r == up_to_date_spec(local_out@, remote_out@),
{
    let a = trim(local_out);
    let b = trim(remote_out);
    chars_eq(&a, &b)
}


/// The git commands run on the bridge's checkout.
#[derive(Debug, Clone, Copy, PartialEq, Eq, Structural)]
pub enum GitOp {
    /// `git clone <repo> <dir>`
    Clone,
    /// `git fetch`
    Fetch,
    /// `git rev-parse HEAD`
    RevParseHead,
    /// `git rev-parse origin/main`
    RevParseRemote,
    /// `git pull --ff-only`
    Pull,
}

/// The arguments given to git for `op` on the checkout in `dir`.
pub open spec fn git_args_spec(op: GitOp, dir: Seq<char>) -> Seq<Seq<char>> {
    match op {
        GitOp::Clone => seq!["clone"@, "https://github.com/ET06731/opencode-im-bridge"@, dir],
        GitOp::Fetch => seq!["fetch"@],
        GitOp::RevParseHead => seq!["rev-parse"@, "HEAD"@],
        GitOp::RevParseRemote => seq!["rev-parse"@, "origin/main"@],
        GitOp::Pull => seq!["pull"@, "--ff-only"@],
    }
}

/// The name of a git command in error messages.
pub open spec fn git_op_name(op: GitOp) -> Seq<char> {
    match op {
        GitOp::Clone => "git clone"@,
        GitOp::Fetch => "git fetch"@,
        GitOp::RevParseHead => "git rev-parse"@,
        GitOp::RevParseRemote => "git rev-parse"@,
        GitOp::Pull => "git pull"@,
    }
}

fn git_op_text(op: GitOp) -> (r: &'static str)
    ensures
        r@ == git_op_name(op),
{
    match op {
        GitOp::Clone => "git clone",
        GitOp::Fetch => "git fetch",
        GitOp::RevParseHead => "git rev-parse",
        GitOp::RevParseRemote => "git rev-parse",
        GitOp::Pull => "git pull",
    }
}

/// The arguments given to git for `op` on the checkout in `dir`.
pub fn git_args(op: GitOp, dir: &str) -> (r: Vec<String>)
    ensures
        strings_view(r@) == git_args_spec(op, dir@),
{
    let mut r: Vec<String> = Vec::new();
    match op {
        GitOp::Clone => {
            r.push(String::from_str("clone"));
            r.push(String::from_str(BRIDGE_REPO));
            r.push(String::from_str(dir));
        },
        GitOp::Fetch => {
            r.push(String::from_str("fetch"));
        },
        GitOp::RevParseHead => {
            r.push(String::from_str("rev-parse"));
            r.push(String::from_str("HEAD"));
        },
        GitOp::RevParseRemote => {
            r.push(String::from_str("rev-parse"));
            r.push(String::from_str("origin/main"));
        },
        GitOp::Pull => {
            r.push(String::from_str("pull"));
            r.push(String::from_str("--ff-only"));
        },
    }
    assert(strings_view(r@) =~= git_args_spec(op, dir@));
    r
}

/// The error when git could not be run for `op`.
pub fn git_spawn_error(op: GitOp, detail: &str) -> (e: AppError)
    ensures
        e@ == AppErrorView::BridgeInstall(git_op_name(op) + " failed: "@ + detail@),
{
    let mut m = String::from_str(git_op_text(op));
    m.append(" failed: ");
    m.append(detail);
    AppError::BridgeInstall(m)
}

/// The error when git ran for `op` and reported failure.
pub fn git_exit_error(op: GitOp) -> (e: AppError)
    ensures
        e@ == AppErrorView::BridgeInstall(git_op_name(op) + " returned non-zero"@),
{
    let mut m = String::from_str(git_op_text(op));
    m.append(" returned non-zero");
    AppError::BridgeInstall(m)
}

/// Updating and checking for updates need an installed bridge.
pub fn require_installed(installed: bool) -> (r: Result<(), AppError>)
    ensures
        installed <==> r is Ok,
        r matches Err(e) ==> e@ == AppErrorView::BridgeInstall("bridge not installed"@),
{
    if installed {
        Ok(())
    } else {
        Err(AppError::BridgeInstall(String::from_str("bridge not installed")))
    }
}

} // verus!
