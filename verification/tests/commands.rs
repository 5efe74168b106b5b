use opencodedeck::commands::{
    bind_server, export_file_name, export_text, full_state, log_history, parse_target,
    require_server_id,
};
use opencodedeck::config::renderer::render_env;
use opencodedeck::config::store::{default_config_for_home, ServerConfig};
use opencodedeck::error::AppError;
use opencodedeck::monitor::log_buffer::{LogBuffer, LogEntry};
use opencodedeck::process::launch::source_str;
use opencodedeck::process::manager::{ProcessState, ProcessStateKind, ProcessTarget};

fn entry(src: &str, n: i64, line: &str) -> LogEntry {
    LogEntry { ts: n, source: src.to_string(), level: "info".to_string(), line: line.to_string() }
}

#[test]
fn targets_are_parsed() {
    assert_eq!(parse_target("server").unwrap(), ProcessTarget::Server);
    assert_eq!(parse_target("bridge").unwrap(), ProcessTarget::Bridge);
    match parse_target("db") {
        Err(AppError::Process(m)) => assert_eq!(m, "unknown target: db"),
        other => panic!("unexpected {:?}", other),
    }
}

#[test]
fn server_id_is_required() {
    assert_eq!(require_server_id(Some("a".to_string())).unwrap(), "a");
    match require_server_id(None) {
        Err(AppError::Process(m)) => assert_eq!(m, "server_id required for server target"),
        other => panic!("unexpected {:?}", other),
    }
}

#[test]
fn history_by_source() {
    let mut buf = LogBuffer::new(10);
    buf.push(entry("server", 3, "s3"));
    buf.push(entry("bridge", 1, "b1"));
    buf.push(entry("server", 2, "s2"));
    let all = log_history(&buf, "all", 10);
    assert_eq!(all.iter().map(|e| e.ts).collect::<Vec<_>>(), vec![1, 2, 3]);
    assert_eq!(log_history(&buf, "server", 1)[0].line, "s2");
    assert_eq!(log_history(&buf, "bridge", 5).len(), 1);
}

#[test]
fn export_format() {
    let entries = vec![entry("server", -5, "hello"), entry("bridge", 12, "world")];
    assert_eq!(export_text(&entries), "[-5] [server] [info] hello\n[12] [bridge] [info] world");
    assert_eq!(export_text(&vec![]), "");
    assert_eq!(export_file_name("all"), "opencodedeck-logs-all.txt");
}

#[test]
fn binding_changes_the_rendered_server() {
    let mut cfg = default_config_for_home(None);
    cfg.servers.push(ServerConfig {
        id: "b".to_string(),
        name: "B".to_string(),
        url: "http://127.0.0.1:5000".to_string(),
        cwd: String::new(),
        extra_env: vec![],
    });
    let bound = bind_server(cfg.clone(), "b").unwrap();
    assert_eq!(bound.bridge.bound_server_id, "b");
    assert!(render_env(&bound).starts_with("OPENCODE_SERVER_URL=http://127.0.0.1:5000\n"));
    match bind_server(cfg, "zzz") {
        Err(AppError::Config(m)) => assert_eq!(m, "server not found: zzz"),
        other => panic!("unexpected {:?}", other),
    }
}

#[test]
fn full_state_pairs_servers_with_states() {
    let cfg = default_config_for_home(None);
    let mut running = ProcessState::default();
    running.state = ProcessStateKind::Running;
    let fs = full_state(&cfg, &vec![running], ProcessState::default());
    assert_eq!(fs.servers.len(), 1);
    assert_eq!(fs.servers[0].id, "default");
    assert_eq!(fs.servers[0].state.state, ProcessStateKind::Running);
    assert_eq!(fs.bridge.state, ProcessStateKind::Stopped);
}

#[test]
fn error_messages() {
    assert_eq!(AppError::Io("x".to_string()).message(), "io error: x");
    assert_eq!(AppError::Config("x".to_string()).message(), "config error: x");
    assert_eq!(AppError::BridgeInstall("x".to_string()).message(), "bridge install error: x");
    assert_eq!(AppError::EnvNotFound("git".to_string()).message(), "dependency not found: git");
}

#[test]
fn log_source_parses_back_to_its_target() {
    for t in [ProcessTarget::Server, ProcessTarget::Bridge] {
        assert_eq!(parse_target(source_str(t)).unwrap(), t);
    }
}
