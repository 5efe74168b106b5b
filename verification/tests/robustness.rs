use opencodedeck::bridge::env_check::{check_deps, dep_names, dep_status, DepStatus};
use opencodedeck::config::renderer::{render_jsonc, validate_channels};
use opencodedeck::env_path::existing_extra_dirs;
use opencodedeck::paths::Platform;
use opencodedeck::config::store::{default_config_for_home, ChannelsConfig};
use opencodedeck::error::AppError;
use opencodedeck::monitor::health::{checkers_stale, health_action, HealthAction};
use opencodedeck::monitor::stdout_parser::{QrKind, StdoutParser};
use opencodedeck::opencode_config::{decide_opencode_load, opencode_config_text, OpencodeLoad};
use opencodedeck::process::manager::{stop_step, ProcessStateKind, StopAction, StopStage};

#[test]
fn stop_terminates_first_and_kills_after_five_seconds() {
    assert_eq!(stop_step(StopStage::Begin, false, 0), StopAction::Terminate);
    assert_eq!(stop_step(StopStage::Terminated, false, 0), StopAction::WaitUpTo(5000));
    assert_eq!(stop_step(StopStage::Terminated, false, 1200), StopAction::WaitUpTo(3800));
    assert_eq!(stop_step(StopStage::Terminated, false, 4999), StopAction::WaitUpTo(1));
    assert_eq!(stop_step(StopStage::Terminated, false, 5000), StopAction::Kill);
    assert_eq!(stop_step(StopStage::Killed, false, 9000), StopAction::WaitForExit);
    assert_eq!(stop_step(StopStage::Terminated, true, 100), StopAction::Finish);
    assert_eq!(stop_step(StopStage::Begin, true, 0), StopAction::Finish);
}

#[test]
fn deps_are_looked_up_by_name_into_their_fields() {
    assert_eq!(dep_names(), ["opencode", "bun", "node", "npm", "git"]);
    assert_eq!(
        dep_status([true, false, true, false, true]),
        DepStatus { opencode: true, bun: false, node: true, npm: false, git: true }
    );
    let _ = check_deps();
}

#[test]
fn opencode_config_content_decides_the_load() {
    assert!(matches!(decide_opencode_load(None), OpencodeLoad::Empty));
    assert!(matches!(decide_opencode_load(Some("{ not valid json")), OpencodeLoad::BackUpThenEmpty));
    match decide_opencode_load(Some(r#"{"plugin": ["superpowers"], "$schema": "x"}"#)) {
        OpencodeLoad::Parsed(v) => {
            assert_eq!(v["plugin"][0], "superpowers");
            assert_eq!(v["$schema"], "x");
        }
        other => panic!("expected a parsed value, got {:?}", other),
    }
    let v = match decide_opencode_load(Some(r#"{"a": {"b": 1}}"#)) {
        OpencodeLoad::Parsed(v) => v,
        other => panic!("expected a parsed value, got {:?}", other),
    };
    let text = opencode_config_text(&v).unwrap();
    assert_eq!(text, "{\n  \"a\": {\n    \"b\": 1\n  }\n}");
}

fn channels() -> ChannelsConfig {
    default_config_for_home(None).channels
}

fn message(r: Result<(), AppError>) -> String {
    match r {
        Err(AppError::Config(m)) => m,
        other => panic!("expected a config error, got {:?}", other),
    }
}

#[test]
fn enabled_channels_need_their_credentials() {
    assert!(validate_channels(&channels()).is_ok());
    let mut c = channels();
    c.feishu.enabled = true;
    assert_eq!(message(validate_channels(&c)), "feishu appId is required");
    c.feishu.app_id = "id".to_string();
    assert_eq!(message(validate_channels(&c)), "feishu appSecret is required");
    c.feishu.app_secret = "s".to_string();
    assert_eq!(message(validate_channels(&c)), "feishu verificationToken is required");
    c.feishu.verification_token = "t".to_string();
    c.feishu.webhook_port = 0;
    assert_eq!(message(validate_channels(&c)), "feishu webhookPort must be between 1 and 65535");
    c.feishu.webhook_port = 3001;
    assert!(validate_channels(&c).is_ok());
    c.qq.enabled = true;
    assert_eq!(message(validate_channels(&c)), "qq appId is required");
    c.qq.app_id = "q".to_string();
    assert_eq!(message(validate_channels(&c)), "qq secret is required");
    c.qq.secret = "qs".to_string();
    c.telegram.enabled = true;
    assert_eq!(message(validate_channels(&c)), "telegram botToken is required");
    c.telegram.bot_token = "tt".to_string();
    c.discord.enabled = true;
    assert_eq!(message(validate_channels(&c)), "discord botToken is required");
    c.discord.bot_token = "dt".to_string();
    assert!(validate_channels(&c).is_ok());
}

#[test]
fn health_loop_decisions() {
    assert_eq!(health_action(ProcessStateKind::Running, true), HealthAction::Probe);
    assert_eq!(health_action(ProcessStateKind::Running, false), HealthAction::ReportUnhealthy);
    assert_eq!(health_action(ProcessStateKind::Stopped, true), HealthAction::Skip);
    assert_eq!(health_action(ProcessStateKind::Starting, false), HealthAction::Skip);
    assert!(checkers_stale(0, None));
    assert!(!checkers_stale(3, Some(3)));
    assert!(checkers_stale(4, Some(3)));
}

#[test]
fn a_short_block_is_flushed_by_a_plain_line_and_the_parser_resets() {
    let mut p = StdoutParser::new();
    let block = "██████████ ▀▀▀▀";
    for _ in 0..12 {
        assert_eq!(p.feed_line(&format!("{}   ", block)), None);
    }
    let ev = p.feed_line("waiting for scan").unwrap();
    assert_eq!(ev.kind, QrKind::Ascii);
    let pieces: Vec<&str> = ev.data.split('\n').collect();
    assert_eq!(pieces.len(), 12);
    assert!(pieces.iter().all(|l| *l == block));
    assert_eq!(p.feed_line("waiting for scan"), None);
    for _ in 0..9 {
        assert_eq!(p.feed_line(block), None);
    }
    assert_eq!(p.feed_line("plain"), None);
}

#[test]
fn rendered_jsonc_is_json_with_the_settings() {
    let mut cfg = default_config_for_home(Some("/h".to_string()));
    let v: serde_json::Value = serde_json::from_str(&render_jsonc(&cfg)).unwrap();
    assert!(v.get("feishu").is_none());
    assert_eq!(v["defaultAgent"], "build");
    assert_eq!(v["dataDir"], "./data");
    assert_eq!(v["progress"]["debounceMs"], 500);
    assert_eq!(v["progress"]["maxDebounceMs"], 3000);
    assert_eq!(v["launcher"]["enabled"], true);
    assert_eq!(v["launcher"]["autoStartServer"], true);
    assert_eq!(v["launcher"]["serverCommand"], "opencode serve");
    assert_eq!(v["launcher"]["serverStartTimeoutMs"], 30000);
    assert_eq!(v["launcher"]["probeTimeoutMs"], 4000);
    cfg.channels.feishu.enabled = true;
    cfg.channels.feishu.app_id = "cli_a".to_string();
    cfg.channels.feishu.app_secret = "sec".to_string();
    cfg.channels.feishu.verification_token = "tok".to_string();
    cfg.channels.feishu.encrypt_key = "key".to_string();
    let v: serde_json::Value = serde_json::from_str(&render_jsonc(&cfg)).unwrap();
    assert_eq!(v["feishu"]["appId"], "cli_a");
    assert_eq!(v["feishu"]["appSecret"], "sec");
    assert_eq!(v["feishu"]["verificationToken"], "tok");
    assert_eq!(v["feishu"]["webhookPort"], 3001);
    assert_eq!(v["feishu"]["encryptKey"], "key");
}

#[test]
fn existing_extra_dirs_are_directories_among_the_candidates() {
    for platform in [Platform::Linux, Platform::MacOs, Platform::Other] {
        for d in existing_extra_dirs(platform) {
            assert!(std::path::Path::new(&d).is_dir(), "{} should be a directory", d);
        }
    }
}
