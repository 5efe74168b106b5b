use opencodedeck::config::store::{
    default_config_for_home, migrate_legacy, resolve_stored_config, ChannelsConfig, ConfigStore,
    LauncherConfig, LegacyAppConfig, LegacyBridgeConfig, LegacyServerConfig, LoadAction,
    ProgressConfig, StoredConfig,
};
use opencodedeck::paths::Platform;

fn legacy() -> LegacyAppConfig {
    LegacyAppConfig {
        version: 1,
        server: LegacyServerConfig { port: 4097, cwd: "/home/user".to_string(), extra_env: vec![] },
        bridge: LegacyBridgeConfig {
            install_path: None,
            default_agent: "build".to_string(),
            data_dir: "./data".to_string(),
            progress: ProgressConfig::default(),
            launcher: LauncherConfig::default(),
        },
        channels: ChannelsConfig::default(),
    }
}

#[test]
fn default_config_has_empty_servers_with_bound_id() {
    let cfg = ConfigStore::default_config();
    assert!(!cfg.servers.is_empty(), "default config should have at least one server");
    assert!(!cfg.bridge.bound_server_id.is_empty(), "default bound_server_id should be set");
    let default_id = &cfg.servers[0].id;
    assert_eq!(&cfg.bridge.bound_server_id, default_id, "default bound_server_id must point to first server");
}

#[test]
fn migrates_legacy_single_server_config() {
    let (cfg, action) = resolve_stored_config(StoredConfig::Legacy(legacy()), None);
    assert_eq!(action, LoadAction::SaveIgnoringErrors);
    assert_eq!(cfg.servers.len(), 1, "legacy server should migrate to one-element servers array");
    assert_eq!(cfg.servers[0].url, "http://127.0.0.1:4097");
    assert_eq!(cfg.servers[0].cwd, "/home/user");
    assert_eq!(cfg.servers[0].id, "default");
    assert_eq!(cfg.bridge.bound_server_id, "default");
}

#[test]
fn resolve_stored_config_by_kind() {
    let (c, a) = resolve_stored_config(StoredConfig::Missing, Some("/h".to_string()));
    assert_eq!(a, LoadAction::Save);
    assert_eq!(c.servers[0].cwd, "/h");
    let (c, a) = resolve_stored_config(StoredConfig::Unreadable, None);
    assert_eq!(a, LoadAction::BackUpThenSave);
    assert_eq!(c.servers[0].url, "http://127.0.0.1:4097");
    assert_eq!(c.servers[0].cwd, "");
    let mut l = legacy();
    l.server.port = 5000;
    let (c, a) = resolve_stored_config(StoredConfig::Legacy(l), None);
    assert_eq!(a, LoadAction::SaveIgnoringErrors);
    assert_eq!(c.servers[0].url, "http://127.0.0.1:5000");
    let mut cur = default_config_for_home(None);
    cur.version = 7;
    let (c, a) = resolve_stored_config(StoredConfig::Current(cur), None);
    assert_eq!(a, LoadAction::Keep);
    assert_eq!(c.version, 7);
}

#[test]
fn default_values() {
    let cfg = default_config_for_home(None);
    assert_eq!(cfg.version, 1);
    assert_eq!(cfg.servers[0].name, "默认");
    assert_eq!(cfg.bridge.default_agent, "build");
    assert_eq!(cfg.bridge.data_dir, "./data");
    assert_eq!(cfg.bridge.progress, ProgressConfig { debounce_ms: 500, max_debounce_ms: 3000 });
    assert!(cfg.bridge.launcher.enabled && cfg.bridge.launcher.auto_start_server);
    assert_eq!(cfg.bridge.launcher.server_command, "opencode serve");
    assert_eq!(cfg.bridge.launcher.server_start_timeout_ms, 30000);
    assert_eq!(cfg.bridge.launcher.probe_timeout_ms, 4000);
    assert_eq!(cfg.channels.feishu.webhook_port, 3001);
    assert!(!cfg.channels.feishu.enabled && !cfg.channels.wechat.enabled);
    assert_eq!(opencodedeck::config::store::default_webhook_port(), 3001);
    assert_eq!(opencodedeck::config::store::default_bound_server_id(), "default");
}

#[test]
fn store_paths() {
    let s = ConfigStore::with_base(Some("/cfg".to_string()), Platform::Linux);
    assert_eq!(s.config_dir(), "/cfg/opencodedeck");
    assert_eq!(s.config_path(), "/cfg/opencodedeck/config.json");
    let m = ConfigStore::with_base(None, Platform::MacOs);
    assert_eq!(m.config_dir(), "./OpenCodeDeck");
    let mut cfg = default_config_for_home(None);
    assert_eq!(s.bridge_install_path(&cfg), "/cfg/opencodedeck/bridges/opencode-im-bridge");
    cfg.bridge.install_path = Some("/opt/bridge".to_string());
    assert_eq!(s.bridge_install_path(&cfg), "/opt/bridge");
}

#[test]
fn migrate_legacy_directly() {
    let cfg = migrate_legacy(legacy());
    assert_eq!(cfg.servers.len(), 1);
    assert_eq!(cfg.servers[0].url, "http://127.0.0.1:4097");
    assert_eq!(cfg.bridge.bound_server_id, "default");
}

#[test]
fn load_backs_up_corrupt_file_and_returns_default() {
    let (cfg, action) = resolve_stored_config(StoredConfig::Unreadable, Some("/home/user".to_string()));
    assert_eq!(cfg.servers[0].url, "http://127.0.0.1:4097");
    assert_eq!(action, LoadAction::BackUpThenSave);
}
