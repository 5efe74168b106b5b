//! The decisions behind the application's commands: reading their
//! arguments, choosing log entries, formatting exported logs, binding the
//! bridge to a server and assembling the state shown to the user.
use vstd::prelude::*;
use crate::config::renderer::{bound_server, env_lines, find_server, law_env_names_bound_server};
use crate::config::store::{
    config_env_unique, default_config_spec, env_keys_unique, migrate_spec, AppConfig, AppConfigView,
    BridgeConfigView, LegacyAppConfigView, ServerConfig, ServerConfigView,
};
use crate::error::{AppError, AppErrorView};
use crate::monitor::log_buffer::{
    last_n, law_recent_all_is_ordered, routes_to_server, sort_by_ts, sorted_by_ts, LogBuffer,
    LogBufferView, LogEntry,
};
use crate::process::launch::{server_launch_for_spec, server_not_found_spec, source_spec};
use crate::process::manager::{ProcessState, ProcessTarget};
use crate::text::{
    join_spec, push_chars, signed_decimal, signed_decimal_spec, str_eq, strings_view,
};

verus! {

/// The process a command names: `server` or `bridge`; anything else is an error.
pub open spec fn parse_target_spec(target: Seq<char>) -> Result<ProcessTarget, AppErrorView> {
    if target == "server"@ {
        Ok(ProcessTarget::Server)
    } else if target == "bridge"@ {
        Ok(ProcessTarget::Bridge)
    } else {
        Err(AppErrorView::Process("unknown target: "@ + target))
    }
}

/// The view of a target result.
pub open spec fn target_result_view(r: Result<ProcessTarget, AppError>) -> Result<ProcessTarget, AppErrorView> {
    match r {
        Ok(t) => Ok(t),
        Err(e) => Err(e@),
    }
}

/// Reads the process a command names.
pub fn parse_target(target: &str) -> (r: Result<ProcessTarget, AppError>)
    ensures
        target_result_view(r) == parse_target_spec(target@),
{
    if str_eq(target, "server") {
        Ok(ProcessTarget::Server)
    } else if str_eq(target, "bridge") {
        Ok(ProcessTarget::Bridge)
    } else {
        let mut m = String::from_str("unknown target: ");
        m.append(target);
        Err(AppError::Process(m))
    }
}

/// The error for a server command without a server id.
pub open spec fn missing_server_id_spec() -> AppErrorView {
    AppErrorView::Process("server_id required for server target"@)
}

/// The server id a server command needs.
pub fn require_server_id(server_id: Option<String>) -> (r: Result<String, AppError>)
    ensures
        match r {
            Ok(id) => server_id == Some(id),
            Err(e) => server_id is None && e@ == missing_server_id_spec(),
        },
{
    match server_id {
        Some(id) => Ok(id),
        None => Err(AppError::Process(String::from_str("server_id required for server target"))),
    }
}

/// The entries shown for `source`: `all` merges both histories by
/// timestamp, any other source reads its own history; at most `limit`,
/// the latest ones.
pub open spec fn log_history_spec(
    server: Seq<LogEntry>,
    bridge: Seq<LogEntry>,
    source: Seq<char>,
    limit: nat,
) -> Seq<LogEntry> {
    if source == "all"@ {
        last_n(sort_by_ts(server + bridge), limit)
    } else if routes_to_server(source) {
        last_n(server, limit)
    } else {
        last_n(bridge, limit)
    }
}

/// The latest `limit` entries for `source` (`all`, `server` or `bridge`).
pub fn log_history(buf: &LogBuffer, source: &str, limit: usize) -> (r: Vec<LogEntry>)
    ensures
        r@ == log_history_spec(buf@.server, buf@.bridge, source@, limit as nat),
{
    if str_eq(source, "all") {
        buf.recent_all(limit)
    } else {
        buf.recent(source, limit)
    }
}

/// How many entries an export holds at most.
pub const EXPORT_LIMIT: usize = 100000;

/// One exported line: `[ts] [source] [level] line`.
pub open spec fn export_line_spec(e: LogEntry) -> Seq<char> {
    "["@ + signed_decimal_spec(e.ts as int) + "] ["@ + e.source@ + "] ["@ + e.level@ + "] "@
        + e.line@
}

/// The exported text: one line per entry, separated by newlines.
pub open spec fn export_text_spec(entries: Seq<LogEntry>) -> Seq<char> {
    join_spec(entries.map_values(|e: LogEntry| export_line_spec(e)), "\n"@)
}

/// Formats entries for export.
pub fn export_text(entries: &Vec<LogEntry>) -> (r: String)
    ensures
        r@ == export_text_spec(entries@),
{
    let mut lines: Vec<String> = Vec::new();
    let mut i: usize = 0;
    while i < entries.len()
        invariant
            i <= entries.len(),
            strings_view(lines@) == entries@.map_values(|e: LogEntry| export_line_spec(e)).take(
                i as int,
            ),
        decreases entries.len() - i,
    {
        let e = &entries[i];
        let mut l = String::from_str("[");
        push_chars(&mut l, &signed_decimal(e.ts));
        l.append("] [");
        l.append(e.source.as_str());
        l.append("] [");
        l.append(e.level.as_str());
        l.append("] ");
        l.append(e.line.as_str());
        assert(l@ =~= export_line_spec(entries@[i as int]));
        let ghost before = strings_view(lines@);
        lines.push(l);
        assert(strings_view(lines@) =~= before.push(export_line_spec(entries@[i as int])));
        assert(entries@.map_values(|e: LogEntry| export_line_spec(e)).take(i + 1)
            =~= entries@.map_values(|e: LogEntry| export_line_spec(e)).take(i as int).push(
            export_line_spec(entries@[i as int]),
        ));
        i += 1;
    }
    assert(entries@.map_values(|e: LogEntry| export_line_spec(e)).take(entries.len() as int)
        =~= entries@.map_values(|e: LogEntry| export_line_spec(e)));
    crate::text::join(&lines, "\n")
}

/// The file name an export of `source` is offered under.
pub fn export_file_name(source: &str) -> (r: String)
    ensures
        r@ == "opencodedeck-logs-"@ + source@ + ".txt"@,
{
    let mut r = String::from_str("opencodedeck-logs-");
    r.append(source);
    r.append(".txt");
    r
}

/// The configuration with the bridge bound to server `id`; an error when no
/// server has that id.
pub open spec fn bind_spec(c: AppConfigView, id: Seq<char>) -> Result<AppConfigView, AppErrorView> {
    if find_server(c.servers, id) is Some {
        Ok(AppConfigView { bridge: BridgeConfigView { bound_server_id: id, ..c.bridge }, ..c })
    } else {
        Err(server_not_found_spec(id))
    }
}

/// The view of a configuration result.
pub open spec fn config_result_view(r: Result<AppConfig, AppError>) -> Result<AppConfigView, AppErrorView> {
    match r {
        Ok(c) => Ok(c@),
        Err(e) => Err(e@),
    }
}

fn has_server(servers: &Vec<ServerConfig>, id: &str) -> (r: bool)
    ensures
        r == find_server(servers@.map_values(|s: ServerConfig| s@), id@) is Some,
{
    let ghost all = servers@.map_values(|s: ServerConfig| s@);
    let mut i: usize = 0;
    assert(all.skip(0) =~= all);
    while i < servers.len()
        invariant
            i <= servers.len(),
            all == servers@.map_values(|s: ServerConfig| s@),
            find_server(all.skip(i as int), id@) == find_server(all, id@),
        decreases servers.len() - i,
    {
        let ghost rest = all.skip(i as int);
        assert(rest[0] == servers@[i as int]@);
        assert(rest.drop_first() =~= all.skip(i + 1));
        if str_eq(servers[i].id.as_str(), id) {
            return true;
        }
        i += 1;
    }
    assert(all.skip(i as int) =~= Seq::<ServerConfigView>::empty());
    false
}

/// Binds the bridge to server `id`.
pub fn bind_server(config: AppConfig, id: &str) -> (r: Result<AppConfig, AppError>)
    ensures
        config_result_view(r) == bind_spec(config@, id@),
{
    if !has_server(&config.servers, id) {
        let mut m = String::from_str("server not found: ");
        m.append(id);
        return Err(AppError::Config(m));
    }
    let mut c = config;
    c.bridge.bound_server_id = String::from_str(id);
    Ok(c)
}

/// One server as shown to the user: its id, name and process state.
#[derive(Debug, Clone)]
pub struct ServerStateItem {
    pub id: String,
    pub name: String,
    pub state: ProcessState,
}

/// Every server's state and the bridge's.
#[derive(Debug, Clone)]
pub struct FullState {
    pub servers: Vec<ServerStateItem>,
    pub bridge: ProcessState,
}

/// The state shown to the user: each configured server, in order, with the
/// state at the same position of `server_states`, and the bridge's state.
pub fn full_state(config: &AppConfig, server_states: &Vec<ProcessState>, bridge: ProcessState) -> (r: FullState)
    requires
        server_states.len() == config.servers.len(),
    ensures
        r.bridge == bridge,
        r.servers.len() == config.servers.len(),
        forall|i: int|
            0 <= i < r.servers.len() ==> (#[trigger] r.servers@[i]).id@ == config.servers@[i].id@
                && r.servers@[i].name@ == config.servers@[i].name@ && r.servers@[i].state
                == server_states@[i],
{
    let mut items: Vec<ServerStateItem> = Vec::new();
    let mut i: usize = 0;
    while i < config.servers.len()
        invariant
            i <= config.servers.len(),
            server_states.len() == config.servers.len(),
            items.len() == i,
            forall|k: int|
                0 <= k < i ==> (#[trigger] items@[k]).id@ == config.servers@[k].id@
                    && items@[k].name@ == config.servers@[k].name@ && items@[k].state
                    == server_states@[k],
        decreases config.servers.len() - i,
    {
        let s = &config.servers[i];
        items.push(ServerStateItem { id: s.id.clone(), name: s.name.clone(), state: server_states[i] });
        i += 1;
    }
    FullState { servers: items, bridge }
}


/// Law: once the bridge is bound to a server, the `.env` file rendered from
/// the result names that server's URL; binding to an unknown id changes
/// nothing and is refused.
pub proof fn law_bind_then_render(c: AppConfigView, id: Seq<char>)
    ensures
        find_server(c.servers, id) matches Some(s) ==> (bind_spec(c, id) matches Ok(b) && bound_server(
            b,
        ) == Some(s) && env_lines(b)[0] == "OPENCODE_SERVER_URL="@ + s.url),
        find_server(c.servers, id) is None ==> bind_spec(c, id) == Err::<AppConfigView, AppErrorView>(
            server_not_found_spec(id),
        ),
{
    if let Some(s) = find_server(c.servers, id) {
        let b = AppConfigView { bridge: BridgeConfigView { bound_server_id: id, ..c.bridge }, ..c };
        assert(b.servers == c.servers);
        law_env_names_bound_server(b);
    }
}

/// Law: the name a process's output is logged under names that process
/// again when a command gives it as its target.
pub proof fn law_log_source_names_its_target(target: ProcessTarget)
    ensures
        parse_target_spec(source_spec(target)) == Ok::<ProcessTarget, AppErrorView>(target),
{
    reveal_strlit("server");
    reveal_strlit("bridge");
    assert("server"@ != "bridge"@) by {
        assert("server"@[0] != "bridge"@[0]);
    }
}

proof fn lemma_found_server_is_listed(servers: Seq<ServerConfigView>, id: Seq<char>)
    ensures
        find_server(servers, id) matches Some(s) ==> exists|k: int|
            0 <= k < servers.len() && #[trigger] servers[k] == s,
    decreases servers.len(),
{
    if servers.len() > 0 && servers[0].id != id {
        lemma_found_server_is_listed(servers.drop_first(), id);
        if let Some(s) = find_server(servers, id) {
            let k = choose|k: int| 0 <= k < servers.drop_first().len() && #[trigger] servers.drop_first()[k] == s;
            assert(servers[k + 1] == s);
        }
    }
}

/// Law: each server's extra environment names every variable once in the
/// default configuration, in a migrated one whose old environment did, after
/// binding the bridge, and in the command that starts a configured server.
pub proof fn law_env_names_stay_unique(
    home: Seq<char>,
    l: LegacyAppConfigView,
    c: AppConfigView,
    id: Seq<char>,
)
    ensures
        config_env_unique(default_config_spec(home)),
        env_keys_unique(l.server.extra_env) ==> config_env_unique(migrate_spec(l)),
        config_env_unique(c) ==> (bind_spec(c, id) matches Ok(b) ==> config_env_unique(b)),
        config_env_unique(c) ==> (server_launch_for_spec(c.servers, id) matches Ok(launch)
            ==> env_keys_unique(launch.env)),
{
    assert(config_env_unique(default_config_spec(home))) by {
        assert forall|k: int| 0 <= k < default_config_spec(home).servers.len() implies env_keys_unique(
            #[trigger] default_config_spec(home).servers[k].extra_env,
        ) by {
            assert(k == 0);
        }
    }
    if env_keys_unique(l.server.extra_env) {
        assert forall|k: int| 0 <= k < migrate_spec(l).servers.len() implies env_keys_unique(
            #[trigger] migrate_spec(l).servers[k].extra_env,
        ) by {
            assert(k == 0);
        }
    }
    lemma_found_server_is_listed(c.servers, id);
}

/// Law: the history shown for any source, `all` included, holds at most
/// `limit` entries, and all of them when there are no more than `limit`; for
/// `all` they are ordered by timestamp and each comes from one of the two
/// histories; for one source they are the end of that source's history.
pub proof fn law_log_history_is_bounded(
    server: Seq<LogEntry>,
    bridge: Seq<LogEntry>,
    source: Seq<char>,
    limit: nat,
)
    ensures
        log_history_spec(server, bridge, source, limit).len() <= limit,
        source == "all"@ ==> log_history_spec(server, bridge, source, limit).len() == if server.len()
            + bridge.len() > limit {
            limit
        } else {
            (server.len() + bridge.len()) as nat
        },
        source == "all"@ ==> sorted_by_ts(log_history_spec(server, bridge, source, limit)),
        source == "all"@ ==> forall|e: LogEntry|
            log_history_spec(server, bridge, source, limit).contains(e) ==> (server
                + bridge).contains(e),
        source != "all"@ ==> ({
            let h = if routes_to_server(source) {
                server
            } else {
                bridge
            };
            let r = log_history_spec(server, bridge, source, limit);
            &&& r.len() == if h.len() > limit {
                limit
            } else {
                h.len()
            }
            &&& r == h.subrange(h.len() - r.len(), h.len() as int)
        }),
{
    law_recent_all_is_ordered(LogBufferView { server, bridge, capacity: 0 }, limit);
    if source != "all"@ {
        let h = if routes_to_server(source) {
            server
        } else {
            bridge
        };
        let r = log_history_spec(server, bridge, source, limit);
        assert(r =~= h.subrange(h.len() - r.len(), h.len() as int));
    }
}

} // verus!
