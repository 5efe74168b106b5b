use opencodedeck::config::renderer::{render_env, render_jsonc};
use opencodedeck::config::store::{AppConfig, ConfigStore};

fn sample_config() -> AppConfig {
    let mut cfg = ConfigStore::default_config();
    cfg.channels.feishu.enabled = true;
    cfg.channels.feishu.app_id = "cli_abc".to_string();
    cfg.channels.feishu.app_secret = "secret123".to_string();
    cfg.channels.feishu.verification_token = "tok".to_string();
    cfg.channels.feishu.encrypt_key = "key".to_string();
    cfg.channels.wechat.enabled = true;
    cfg
}

#[test]
fn render_env_includes_enabled_channels() {
    let cfg = sample_config();
    let env = render_env(&cfg);
    assert!(env.contains("FEISHU_APP_ID=cli_abc"));
    assert!(env.contains("FEISHU_APP_SECRET=secret123"));
    assert!(env.contains("FEISHU_VERIFICATION_TOKEN=tok"));
    assert!(env.contains("FEISHU_ENCRYPT_KEY=key"));
    assert!(env.contains("WECHAT_ENABLED=true"));
    assert!(env.contains("OPENCODE_SERVER_URL=http://127.0.0.1:4097"));
}

#[test]
fn render_env_excludes_disabled_channels() {
    let cfg = ConfigStore::default_config();
    let env = render_env(&cfg);
    assert!(!env.contains("FEISHU_APP_ID="));
    assert!(!env.contains("WECHAT_ENABLED="));
}

#[test]
fn render_jsonc_has_required_fields() {
    let cfg = sample_config();
    let jsonc = render_jsonc(&cfg);
    assert!(jsonc.contains("\"defaultAgent\": \"build\""));
    assert!(jsonc.contains("\"appId\": \"cli_abc\""));
    assert!(jsonc.contains("\"webhookPort\": 3001"));
}

#[test]
fn render_env_telegram_joins_chat_ids() {
    let mut cfg = ConfigStore::default_config();
    cfg.channels.telegram.enabled = true;
    cfg.channels.telegram.bot_token = "tok".to_string();
    cfg.channels.telegram.allowed_chat_ids = vec!["111".to_string(), "222".to_string()];
    let env = render_env(&cfg);
    assert!(env.contains("TELEGRAM_BOT_TOKEN=tok"));
    assert!(env.contains("TELEGRAM_ALLOWED_CHAT_IDS=111,222"));
}

#[test]
fn render_env_server_url_derived_from_port() {
    let mut cfg = ConfigStore::default_config();
    cfg.servers[0].url = "http://127.0.0.1:4092".to_string();
    let env = render_env(&cfg);
    assert!(
        env.contains("OPENCODE_SERVER_URL=http://127.0.0.1:4092"),
        "OPENCODE_SERVER_URL must match config, got: {}",
        env
    );
}

#[test]
fn render_env_exact_text_for_a_full_config() {
    let mut cfg = opencodedeck::config::store::default_config_for_home(Some("/w".to_string()));
    cfg.channels.feishu.enabled = true;
    cfg.channels.feishu.app_id = "a".to_string();
    cfg.channels.feishu.app_secret = "s".to_string();
    cfg.channels.qq.enabled = true;
    cfg.channels.qq.app_id = "q".to_string();
    cfg.channels.qq.secret = "qs".to_string();
    cfg.channels.discord.enabled = true;
    cfg.channels.discord.bot_token = "d".to_string();
    let env = render_env(&cfg);
    assert_eq!(
        env,
        "OPENCODE_SERVER_URL=http://127.0.0.1:4097\nOPENCODE_CWD=/w\nFEISHU_APP_ID=a\nFEISHU_APP_SECRET=s\nFEISHU_WEBHOOK_PORT=3001\nQQ_APP_ID=q\nQQ_SECRET=qs\nDISCORD_BOT_TOKEN=d\n"
    );
}

#[test]
fn render_env_unknown_bound_server_uses_local_default() {
    let mut cfg = opencodedeck::config::store::default_config_for_home(None);
    cfg.servers[0].url = "http://10.0.0.1:9".to_string();
    cfg.bridge.bound_server_id = "missing".to_string();
    assert_eq!(render_env(&cfg), "OPENCODE_SERVER_URL=http://127.0.0.1:4097\n");
}

#[test]
fn render_jsonc_exact_text_without_feishu() {
    let cfg = opencodedeck::config::store::default_config_for_home(None);
    let expected = "{\n  \"defaultAgent\": \"build\",\n  \"dataDir\": \"./data\",\n  \"progress\": {\n    \"debounceMs\": 500,\n    \"maxDebounceMs\": 3000\n  },\n  \"launcher\": {\n    \"enabled\": true,\n    \"autoStartServer\": true,\n    \"serverCommand\": \"opencode serve\",\n    \"serverStartTimeoutMs\": 30000,\n    \"probeTimeoutMs\": 4000\n  }\n}\n";
    assert_eq!(render_jsonc(&cfg), expected);
}
