//! Health checks of a running opencode server.
use vstd::prelude::*;
use crate::process::manager::ProcessStateKind;
use crate::text::{chars_of, push_chars, slice_chars};

verus! {

#[verifier::external_type_specification]
#[verifier::external_body]
pub struct ExClient(reqwest::Client);

#[verifier::external_type_specification]
#[verifier::external_body]
pub struct ExClientBuilder(reqwest::ClientBuilder);

#[verifier::external_type_specification]
#[verifier::external_body]
pub struct ExReqwestError(reqwest::Error);

/// The total request timeout a client builder is set to, in milliseconds
/// (`None`: no timeout). A function of the builder alone.
pub uninterp spec fn builder_timeout_ms(b: reqwest::ClientBuilder) -> Option<nat>;

/// The total request timeout of a client, in milliseconds (`None`: no
/// timeout). A function of the client alone.
pub uninterp spec fn client_timeout_ms(c: reqwest::Client) -> Option<nat>;

/// A fresh client builder (`reqwest::Client::builder`), with no timeout set.
#[verifier::external_body]
fn client_builder() -> (r: reqwest::ClientBuilder)
    ensures
        builder_timeout_ms(r) is None,
{
    reqwest::Client::builder()
}

/// The builder with a total request timeout of `secs` seconds
/// (`reqwest::ClientBuilder::timeout`).
#[verifier::external_body]
fn with_timeout_secs(b: reqwest::ClientBuilder, secs: u64) -> (r: reqwest::ClientBuilder)
    ensures
        builder_timeout_ms(r) == Some((secs * 1000) as nat),
{
    b.timeout(std::time::Duration::from_secs(secs))
}

/// The client the builder describes, with the builder's timeout, or why it
/// could not be built (`reqwest::ClientBuilder::build`). Which of the two
/// comes back is not stated.
#[verifier::external_body]
fn build_client(b: reqwest::ClientBuilder) -> (r: Result<reqwest::Client, reqwest::Error>)
    ensures
        r matches Ok(c) ==> client_timeout_ms(c) == builder_timeout_ms(b),
{
    b.build()
}

/// A client with default settings, so without a timeout
/// (`reqwest::Client::new`). It panics only
/// when building a default client fails, which needs a TLS backend or a
/// DNS resolver that reads system files; this crate enables neither.
#[verifier::external_body]
fn default_client() -> (r: reqwest::Client)
    ensures
        client_timeout_ms(r) is None,
{
    reqwest::Client::new()
}

/// `s` without any `/` at its end (`str::trim_end_matches('/')`).
pub open spec fn trim_slashes(s: Seq<char>) -> Seq<char>
    decreases s.len(),
{
    if s.len() > 0 && s.last() == '/' {
        trim_slashes(s.drop_last())
    } else {
        s
    }
}

/// The status endpoint of the server at `server_url`.
pub open spec fn health_url_spec(server_url: Seq<char>) -> Seq<char> {
    trim_slashes(server_url) + "/session/status"@
}

/// Polls one server's status endpoint.
pub struct HealthChecker {
    url: String,
    client: reqwest::Client,
}

impl HealthChecker {
    /// The URL this checker polls.
    pub closed spec fn url_spec(&self) -> Seq<char> {
        self.url@
    }

    /// A checker for the server at `server_url`, whose requests time out after
    /// three seconds (with default settings if such a client cannot be built).
    pub fn new(server_url: &str) -> (r: Self)
        ensures
            r.url_spec() == health_url_spec(server_url@),
            client_timeout_ms(r.client_spec()) == Some(3000nat) || client_timeout_ms(
                r.client_spec(),
            ) is None,
    {
        let v = chars_of(server_url);
        let mut n = v.len();
        assert(v@.take(n as int) =~= v@);
        while n > 0 && v[n - 1] == '/'
            invariant
                n <= v.len(),
                trim_slashes(v@.take(n as int)) == trim_slashes(v@),
            decreases n,
        {
            assert(v@.take(n as int).drop_last() =~= v@.take(n - 1));
            n -= 1;
        }
        let base = slice_chars(&v, 0, n);
        assert(base@ =~= v@.take(n as int));
        let mut url = String::new();
        push_chars(&mut url, &base);
        url.append("/session/status");
        let client = match build_client(with_timeout_secs(client_builder(), 3)) {
            Ok(c) => c,
            Err(_) => default_client(),
        };
        HealthChecker { url, client }
    }

    /// The URL this checker polls.
    pub fn url(&self) -> (r: &str)
        ensures
            r@ == self.url_spec(),
    {
        self.url.as_str()
    }

    /// The client this checker sends its requests with.
    pub closed spec fn client_spec(&self) -> reqwest::Client {
        self.client
    }

    /// The client requests are sent with: this checker's own.
    pub fn client(&self) -> (r: &reqwest::Client)
        ensures
            *r == self.client_spec(),
    {
        &self.client
    }
}

/// What the health loop does for one server in a round.
#[derive(Debug, Clone, Copy, PartialEq, Eq, Structural)]
pub enum HealthAction {
    /// The server is not running: nothing to check.
    Skip,
    /// Probe its status endpoint and report the verdict.
    Probe,
    /// No checker knows this server: report it unhealthy.
    ReportUnhealthy,
}

/// Only running servers are checked; one that no checker knows is unhealthy.
pub open spec fn health_action_spec(state: ProcessStateKind, has_checker: bool) -> HealthAction {
    if state != ProcessStateKind::Running {
        HealthAction::Skip
    } else if has_checker {
        HealthAction::Probe
    } else {
        HealthAction::ReportUnhealthy
    }
}

/// Decides what the health loop does for a server in state `state`, given
/// whether a checker for it exists.
pub fn health_action(state: ProcessStateKind, has_checker: bool) -> (r: HealthAction)
    ensures
        r == health_action_spec(state, has_checker),
{
    if state != ProcessStateKind::Running {
        HealthAction::Skip
    } else if has_checker {
        HealthAction::Probe
    } else {
        HealthAction::ReportUnhealthy
    }
}

/// Whether the checkers must be built again from the configuration: on the
/// first round (`last` is `None`) and whenever the configuration's version
/// changed since they were built.
pub fn checkers_stale(current: u64, last: Option<u64>) -> (r: bool)
    ensures
        r == (last != Some(current)),
{
    match last {
        Some(v) => v != current,
        None => true,
    }
}

} // verus!
