use opencodedeck::bridge::env_check::{program_or_missing, resolve_program};
use opencodedeck::bridge::installer::{is_up_to_date, BridgeInstaller};
use opencodedeck::error::AppError;
use opencodedeck::monitor::health::HealthChecker;
use opencodedeck::monitor::log_buffer::LogEntry;
use opencodedeck::opencode_config::OpencodeConfigStore;
use opencodedeck::commands::{FullState, ServerStateItem};
use opencodedeck::process::manager::{ProcessState, ProcessStateKind};
use opencodedeck::tray::{
    bridge_menu_text, is_login_report, menu_action, server_menu_id, server_menu_text, state_label,
    state_symbol, toggle_for, tray_menu, MenuAction, Toggle, TrayItem,
};

#[test]
fn menu_texts() {
    assert_eq!(state_symbol(&ProcessStateKind::Running), "●");
    assert_eq!(state_symbol(&ProcessStateKind::Failed), "✕");
    assert_eq!(state_label(&ProcessStateKind::Stopped), "已停止");
    assert_eq!(server_menu_id("a1"), "server:a1");
    assert_eq!(server_menu_text(&ProcessStateKind::Starting, "默认"), "◐ 默认: 启动中");
    assert_eq!(bridge_menu_text(&ProcessStateKind::Stopping), "◐ bridge: 停止中");
}

#[test]
fn menu_actions() {
    assert_eq!(menu_action("show"), MenuAction::ShowWindow);
    assert_eq!(menu_action("quit"), MenuAction::Quit);
    assert_eq!(menu_action("server:abc"), MenuAction::ToggleServer("abc".to_string()));
    assert_eq!(menu_action("bridge"), MenuAction::ToggleBridge);
    assert_eq!(menu_action("other"), MenuAction::Ignore);
    assert_eq!(toggle_for(ProcessStateKind::Failed), Toggle::Start);
    assert_eq!(toggle_for(ProcessStateKind::Running), Toggle::Stop);
    assert_eq!(toggle_for(ProcessStateKind::Starting), Toggle::Wait);
}

fn e(src: &str, level: &str, line: &str) -> LogEntry {
    LogEntry { ts: 0, source: src.to_string(), level: level.to_string(), line: line.to_string() }
}

#[test]
fn login_reports() {
    assert!(is_login_report(&e("bridge", "info", "User LOGGED IN as bob")));
    assert!(is_login_report(&e("bridge", "info", "Login Success")));
    assert!(is_login_report(&e("bridge", "info", "微信登录成功")));
    assert!(!is_login_report(&e("server", "info", "logged in")));
    assert!(!is_login_report(&e("bridge", "error", "logged in")));
    assert!(!is_login_report(&e("bridge", "info", "logging in")));
}

#[test]
fn health_url_trims_slashes() {
    assert_eq!(HealthChecker::new("http://127.0.0.1:4097//").url(), "http://127.0.0.1:4097/session/status");
    assert_eq!(HealthChecker::new("http://h:1").url(), "http://h:1/session/status");
}

#[test]
fn installer_paths_and_update_check() {
    let i = BridgeInstaller::new("/nonexistent/bridge".to_string());
    assert_eq!(i.path(), "/nonexistent/bridge");
    assert_eq!(i.git_dir(), "/nonexistent/bridge/.git");
    assert!(!i.is_installed());
    assert!(is_up_to_date("abc\n", " abc "));
    assert!(!is_up_to_date("abc\n", "abd\n"));
}

#[test]
fn config_path_prefers_json_over_jsonc() {
    let s = OpencodeConfigStore::at("/tmp/cfg".to_string());
    assert!(s.choose_config_path(true, true).ends_with("opencode.json"));
}

#[test]
fn config_path_falls_back_to_jsonc() {
    let s = OpencodeConfigStore::at("/tmp/cfg".to_string());
    assert!(s.choose_config_path(false, true).ends_with("opencode.jsonc"));
}

#[test]
fn new_resolves_to_home_config_opencode() {
    let store = OpencodeConfigStore::new();
    let expected = dirs::config_dir().unwrap().join("opencode");
    assert_eq!(std::path::Path::new(store.config_dir()), expected.as_path());
}

#[test]
fn opencode_config_file_choice() {
    let s = OpencodeConfigStore::with_base(Some("/c".to_string()));
    assert_eq!(s.config_dir(), "/c/opencode");
    assert_eq!(s.choose_config_path(true, true), "/c/opencode/opencode.json");
    assert_eq!(s.choose_config_path(false, true), "/c/opencode/opencode.jsonc");
    assert_eq!(s.choose_config_path(false, false), "/c/opencode/opencode.json");
    let missing = OpencodeConfigStore::at("/nonexistent/dir".to_string());
    assert_eq!(missing.config_path(), "/nonexistent/dir/opencode.json");
}

fn idle(kind: ProcessStateKind) -> ProcessState {
    ProcessState { state: kind, pid: None, started_at: None, uptime_sec: None, exit_code: None, healthy: None }
}

#[test]
fn tray_menu_lists_servers_then_bridge_show_quit() {
    let full = FullState {
        servers: vec![
            ServerStateItem { id: "a".to_string(), name: "默认".to_string(), state: idle(ProcessStateKind::Running) },
            ServerStateItem { id: "b".to_string(), name: "work".to_string(), state: idle(ProcessStateKind::Failed) },
        ],
        bridge: idle(ProcessStateKind::Stopped),
    };
    let items = tray_menu(&full);
    assert_eq!(
        items,
        vec![
            TrayItem::Item("server:a".to_string(), "● 默认: 运行中".to_string()),
            TrayItem::Item("server:b".to_string(), "✕ work: 异常".to_string()),
            TrayItem::Item("bridge".to_string(), "○ bridge: 已停止".to_string()),
            TrayItem::Separator,
            TrayItem::Item("show".to_string(), "显示主窗口".to_string()),
            TrayItem::Separator,
            TrayItem::Item("quit".to_string(), "退出".to_string()),
        ]
    );
    let actions: Vec<MenuAction> = items
        .iter()
        .filter_map(|t| match t {
            TrayItem::Item(id, _) => Some(menu_action(id)),
            TrayItem::Separator => None,
        })
        .collect();
    assert_eq!(
        actions,
        vec![
            MenuAction::ToggleServer("a".to_string()),
            MenuAction::ToggleServer("b".to_string()),
            MenuAction::ToggleBridge,
            MenuAction::ShowWindow,
            MenuAction::Quit,
        ]
    );
}

#[test]
fn missing_tool_is_reported_by_name() {
    let e = program_or_missing("bun", None).unwrap_err();
    assert_eq!(e.message(), "dependency not found: bun");
    assert_eq!(program_or_missing("bun", Some("/usr/bin/bun".to_string())).unwrap(), "/usr/bin/bun");
    assert!(matches!(resolve_program("no-such-tool-4f2a9"), Err(AppError::EnvNotFound(n)) if n == "no-such-tool-4f2a9"));
}
