use opencodedeck::config::store::{
    default_config_for_home, migrate_legacy, ChannelsConfig, LauncherConfig, LegacyAppConfig, LegacyBridgeConfig,
    LegacyServerConfig, ProgressConfig,
};
use opencodedeck::error::AppError;
use opencodedeck::process::launch::{bridge_launch, server_launch, server_launch_for, source_str, url_port};
use opencodedeck::process::manager::{ProcessRecord, ProcessState, ProcessStateKind, ProcessTarget};
use opencodedeck::process::port_check::{
    kill_step, lsof_args, parse_pids, pids_from_lsof, KillAction, KillStage, SignalOutcome,
};

#[test]
fn lifecycle_start_run_stop() {
    let mut r = ProcessRecord::new();
    assert_eq!(r.state, ProcessState::default());
    assert!(r.begin_start(ProcessTarget::Server).is_ok());
    assert_eq!(r.state.state, ProcessStateKind::Starting);
    r.spawn_succeeded(Some(42), 1000);
    assert_eq!(r.state.state, ProcessStateKind::Running);
    assert_eq!(r.state.pid, Some(42));
    assert_eq!(r.state.started_at, Some(1000));
    assert_eq!(r.state.uptime_sec, Some(0));
    match r.begin_start(ProcessTarget::Server) {
        Err(AppError::Process(m)) => assert_eq!(m, "server already running"),
        other => panic!("unexpected {:?}", other),
    }
    assert!(r.report_health(true));
    assert_eq!(r.state.healthy, Some(true));
    assert_eq!(r.snapshot(Some(9)).uptime_sec, Some(9));
    assert!(r.begin_stop());
    assert_eq!(r.state.state, ProcessStateKind::Stopping);
    assert!(!r.report_health(false));
    r.process_exited(Some(0));
    assert_eq!(r.state.state, ProcessStateKind::Stopped);
    assert_eq!(r.state.exit_code, Some(0));
    assert_eq!(r.state.pid, None);
    assert!(!r.begin_stop());
}

#[test]
fn crash_without_stop_is_failure() {
    let mut r = ProcessRecord::new();
    r.begin_start(ProcessTarget::Bridge).unwrap();
    r.spawn_succeeded(Some(7), 5);
    r.process_exited(Some(3));
    assert_eq!(r.state.state, ProcessStateKind::Failed);
    assert_eq!(r.state.exit_code, Some(3));
}

#[test]
fn stop_finished_then_new_run_crash_is_failure() {
    let mut r = ProcessRecord::new();
    r.begin_start(ProcessTarget::Server).unwrap();
    r.spawn_succeeded(None, 1);
    assert!(r.begin_stop());
    r.stop_finished(Some(143));
    assert_eq!(r.state.state, ProcessStateKind::Stopped);
    assert_eq!(r.state.exit_code, Some(143));
    r.begin_start(ProcessTarget::Server).unwrap();
    r.spawn_succeeded(Some(2), 2);
    r.process_exited(None);
    assert_eq!(r.state.state, ProcessStateKind::Failed);
}

#[test]
fn spawn_failure_marks_failed_and_bridge_refusal_message() {
    let mut r = ProcessRecord::new();
    r.begin_start(ProcessTarget::Bridge).unwrap();
    match r.begin_start(ProcessTarget::Bridge) {
        Err(e) => assert_eq!(e.message(), "process error: bridge already running"),
        Ok(()) => panic!("second start accepted"),
    }
    r.spawn_failed();
    assert_eq!(r.state.state, ProcessStateKind::Failed);
    assert!(r.begin_start(ProcessTarget::Bridge).is_ok());
}

#[test]
fn launches() {
    let s = server_launch(4097, "", &vec![("K".to_string(), "V".to_string())]);
    assert_eq!(s.program, "opencode");
    assert_eq!(s.args, vec!["serve", "--port", "4097"]);
    assert_eq!(s.cwd, ".");
    assert_eq!(s.env, vec![("K".to_string(), "V".to_string())]);
    let b = bridge_launch("/b", true);
    assert_eq!((b.program.as_str(), b.args.clone()), ("bun", vec!["run".to_string(), "src/index.ts".to_string()]));
    let n = bridge_launch("/b", false);
    assert_eq!(n.program, "npx");
    assert_eq!(n.args, vec!["tsx", "src/index.ts"]);
    assert_eq!(n.cwd, "/b");
    assert_eq!(source_str(ProcessTarget::Server), "server");
    assert_eq!(source_str(ProcessTarget::Bridge), "bridge");
}

#[test]
fn url_ports() {
    assert_eq!(url_port("http://127.0.0.1:4097"), Some(4097));
    assert_eq!(url_port("http://127.0.0.1:4097/"), Some(4097));
    assert_eq!(url_port("http://localhost"), None);
    assert_eq!(url_port("http://h:70000"), None);
}

#[test]
fn server_launch_for_configured_servers() {
    let mut cfg = default_config_for_home(Some("/w".to_string()));
    let l = server_launch_for(&cfg, "default").unwrap();
    assert_eq!(l.args, vec!["serve", "--port", "4097"]);
    assert_eq!(l.cwd, "/w");
    match server_launch_for(&cfg, "nope") {
        Err(AppError::Config(m)) => assert_eq!(m, "server not found: nope"),
        other => panic!("unexpected {:?}", other),
    }
    cfg.servers[0].url = "http://example".to_string();
    assert!(matches!(server_launch_for(&cfg, "default"), Err(AppError::Config(_))));
}

#[test]
fn pids_are_read_line_by_line() {
    assert_eq!(parse_pids("123\n 456 \r\nabc\n+7\n-8\n\n99"), vec![123, 456, 7, 99]);
    assert_eq!(parse_pids(""), Vec::<u32>::new());
    assert_eq!(parse_pids("4294967295\n4294967296\n"), vec![4294967295]);
    assert_eq!(pids_from_lsof(false, "1\n2\n"), Vec::<u32>::new());
    assert_eq!(pids_from_lsof(true, "1\n2\n"), vec![1, 2]);
    assert_eq!(lsof_args(8080), vec!["-i", ":8080", "-t"]);
}

#[test]
fn kill_steps() {
    assert!(matches!(kill_step(KillStage::Terminate, 5, SignalOutcome::Delivered), KillAction::KillAfter(2000)));
    assert!(matches!(kill_step(KillStage::Kill, 5, SignalOutcome::Delivered), KillAction::FinishAfter(200)));
    assert!(matches!(kill_step(KillStage::Kill, 5, SignalOutcome::NoSuchProcess), KillAction::Finish));
    match kill_step(KillStage::Terminate, 77, SignalOutcome::Failed("EPERM".to_string())) {
        KillAction::Fail(AppError::Process(m)) => assert_eq!(m, "failed to SIGTERM pid 77: EPERM"),
        other => panic!("unexpected {:?}", other),
    }
    match kill_step(KillStage::Kill, 1, SignalOutcome::Failed("x".to_string())) {
        KillAction::Fail(e) => assert_eq!(e.message(), "process error: failed to SIGKILL pid 1: x"),
        other => panic!("unexpected {:?}", other),
    }
}

#[test]
fn migrated_server_starts_on_its_old_port() {
    let legacy = LegacyAppConfig {
        version: 1,
        server: LegacyServerConfig { port: 5123, cwd: "/home/user".to_string(), extra_env: vec![("K".to_string(), "V".to_string())] },
        bridge: LegacyBridgeConfig {
            install_path: None,
            default_agent: "build".to_string(),
            data_dir: "./data".to_string(),
            progress: ProgressConfig::default(),
            launcher: LauncherConfig::default(),
        },
        channels: ChannelsConfig::default(),
    };
    let l = server_launch_for(&migrate_legacy(legacy), "default").unwrap();
    assert_eq!(l.program, "opencode");
    assert_eq!(l.args, vec!["serve".to_string(), "--port".to_string(), "5123".to_string()]);
    assert_eq!(l.cwd, "/home/user");
    assert_eq!(l.env, vec![("K".to_string(), "V".to_string())]);
}
