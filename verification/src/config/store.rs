//! The application's configuration model, its defaults, migration of the
//! older single-server layout, and where the configuration lives.
use vstd::prelude::*;
use crate::paths::{
    config_dir, config_dir_reported, dir_or_dot, home_dir, home_reported, opt_dir, path_join,
    path_join_spec, Platform,
};
use crate::text::{decimal, decimal_spec, push_chars};

verus! {

/// One opencode server the application can run.
#[derive(Debug, Clone)]
pub struct ServerConfig {
    pub id: String,
    pub name: String,
    pub url: String,
    pub cwd: String,
    pub extra_env: Vec<(String, String)>,
}

/// The whole configuration.
#[derive(Debug, Clone)]
pub struct AppConfig {
    pub version: u32,
    pub servers: Vec<ServerConfig>,
    pub bridge: BridgeConfig,
    pub channels: ChannelsConfig,
}

/// Settings of the IM bridge.
#[derive(Debug, Clone)]
pub struct BridgeConfig {
    pub install_path: Option<String>,
    pub default_agent: String,
    pub data_dir: String,
    pub progress: ProgressConfig,
    pub launcher: LauncherConfig,
    pub bound_server_id: String,
}

/// Debounce timings of progress messages.
#[derive(Debug, Clone, Copy, PartialEq, Eq, Structural)]
pub struct ProgressConfig {
    pub debounce_ms: u64,
    pub max_debounce_ms: u64,
}

/// How the bridge launches a server of its own.
#[derive(Debug, Clone)]
pub struct LauncherConfig {
    pub enabled: bool,
    pub auto_start_server: bool,
    pub server_command: String,
    pub server_start_timeout_ms: u64,
    pub probe_timeout_ms: u64,
}

/// The chat channels and their credentials.
#[derive(Debug, Clone)]
pub struct ChannelsConfig {
    pub feishu: FeishuConfig,
    pub qq: QqConfig,
    pub telegram: TelegramConfig,
    pub discord: DiscordConfig,
    pub wechat: WechatConfig,
}

/// The Feishu (Lark) channel: app credentials and the webhook port.
#[derive(Debug, Clone)]
pub struct FeishuConfig {
    pub enabled: bool,
    pub app_id: String,
    pub app_secret: String,
    pub verification_token: String,
    pub webhook_port: u16,
    pub encrypt_key: String,
}

/// The QQ channel: bot credentials.
#[derive(Debug, Clone)]
pub struct QqConfig {
    pub enabled: bool,
    pub app_id: String,
    pub secret: String,
}

/// The Telegram channel: bot token and the chats it may serve.
#[derive(Debug, Clone)]
pub struct TelegramConfig {
    pub enabled: bool,
    pub bot_token: String,
    pub allowed_chat_ids: Vec<String>,
}

/// The Discord channel: bot token and the channels it may serve.
#[derive(Debug, Clone)]
pub struct DiscordConfig {
    pub enabled: bool,
    pub bot_token: String,
    pub allowed_channel_ids: Vec<String>,
}

/// The WeChat channel, which needs no credentials.
#[derive(Debug, Clone, Copy, PartialEq, Eq, Structural)]
pub struct WechatConfig {
    pub enabled: bool,
}

/// The configuration of the older layout, with a single server given by port.
#[derive(Debug, Clone)]
pub struct LegacyAppConfig {
    pub version: u32,
    pub server: LegacyServerConfig,
    pub bridge: LegacyBridgeConfig,
    pub channels: ChannelsConfig,
}

/// The single server of the older layout.
#[derive(Debug, Clone)]
pub struct LegacyServerConfig {
    pub port: u16,
    pub cwd: String,
    pub extra_env: Vec<(String, String)>,
}

/// The bridge settings of the older layout.
#[derive(Debug, Clone)]
pub struct LegacyBridgeConfig {
    pub install_path: Option<String>,
    pub default_agent: String,
    pub data_dir: String,
    pub progress: ProgressConfig,
    pub launcher: LauncherConfig,
}

// ---------------------------------------------------------------- views

/// A server's settings as plain values.
pub struct ServerConfigView {
    pub id: Seq<char>,
    pub name: Seq<char>,
    pub url: Seq<char>,
    pub cwd: Seq<char>,
    pub extra_env: Seq<(Seq<char>, Seq<char>)>,
}

/// Launcher settings as plain values.
pub struct LauncherConfigView {
    pub enabled: bool,
    pub auto_start_server: bool,
    pub server_command: Seq<char>,
    pub server_start_timeout_ms: u64,
    pub probe_timeout_ms: u64,
}

/// Bridge settings as plain values.
pub struct BridgeConfigView {
    pub install_path: Option<Seq<char>>,
    pub default_agent: Seq<char>,
    pub data_dir: Seq<char>,
    pub progress: ProgressConfig,
    pub launcher: LauncherConfigView,
    pub bound_server_id: Seq<char>,
}

/// Feishu settings as plain values.
pub struct FeishuConfigView {
    pub enabled: bool,
    pub app_id: Seq<char>,
    pub app_secret: Seq<char>,
    pub verification_token: Seq<char>,
    pub webhook_port: u16,
    pub encrypt_key: Seq<char>,
}

/// QQ settings as plain values.
pub struct QqConfigView {
    pub enabled: bool,
    pub app_id: Seq<char>,
    pub secret: Seq<char>,
}

/// Telegram and Discord settings: a switch, a token and a list of ids.
pub struct BotConfigView {
    pub enabled: bool,
    pub bot_token: Seq<char>,
    pub allowed_ids: Seq<Seq<char>>,
}

/// Channel settings as plain values.
pub struct ChannelsConfigView {
    pub feishu: FeishuConfigView,
    pub qq: QqConfigView,
    pub telegram: BotConfigView,
    pub discord: BotConfigView,
    pub wechat: WechatConfig,
}

/// The whole configuration as plain values.
pub struct AppConfigView {
    pub version: u32,
    pub servers: Seq<ServerConfigView>,
    pub bridge: BridgeConfigView,
    pub channels: ChannelsConfigView,
}

/// An older-layout server as plain values.
pub struct LegacyServerConfigView {
    pub port: u16,
    pub cwd: Seq<char>,
    pub extra_env: Seq<(Seq<char>, Seq<char>)>,
}

/// Older-layout bridge settings as plain values.
pub struct LegacyBridgeConfigView {
    pub install_path: Option<Seq<char>>,
    pub default_agent: Seq<char>,
    pub data_dir: Seq<char>,
    pub progress: ProgressConfig,
    pub launcher: LauncherConfigView,
}

/// An older-layout configuration as plain values.
pub struct LegacyAppConfigView {
    pub version: u32,
    pub server: LegacyServerConfigView,
    pub bridge: LegacyBridgeConfigView,
    pub channels: ChannelsConfigView,
}

/// The text of each id in a list.
pub open spec fn ids_view(v: Seq<String>) -> Seq<Seq<char>> {
    v.map_values(|s: String| s@)
}

/// The text of each pair of an environment list.
pub open spec fn env_view(v: Seq<(String, String)>) -> Seq<(Seq<char>, Seq<char>)> {
    v.map_values(|p: (String, String)| (p.0@, p.1@))
}

/// No two entries of an environment list share a name, as in a map from
/// names to values.
pub open spec fn env_keys_unique(env: Seq<(Seq<char>, Seq<char>)>) -> bool {
    forall|i: int, j: int| 0 <= i < j < env.len() ==> #[trigger] env[i].0 != #[trigger] env[j].0
}

/// Every server's extra environment names each variable once.
pub open spec fn config_env_unique(c: AppConfigView) -> bool {
    forall|k: int| 0 <= k < c.servers.len() ==> env_keys_unique(#[trigger] c.servers[k].extra_env)
}

/// The text of an optional string.
pub open spec fn opt_text(o: Option<String>) -> Option<Seq<char>> {
    match o {
        Some(s) => Some(s@),
        None => None,
    }
}

impl View for ServerConfig {
    type V = ServerConfigView;

    open spec fn view(&self) -> ServerConfigView {
        ServerConfigView {
            id: self.id@,
            name: self.name@,
            url: self.url@,
            cwd: self.cwd@,
            extra_env: env_view(self.extra_env@),
        }
    }
}

impl View for LauncherConfig {
    type V = LauncherConfigView;

    open spec fn view(&self) -> LauncherConfigView {
        LauncherConfigView {
            enabled: self.enabled,
            auto_start_server: self.auto_start_server,
            server_command: self.server_command@,
            server_start_timeout_ms: self.server_start_timeout_ms,
            probe_timeout_ms: self.probe_timeout_ms,
        }
    }
}

impl View for BridgeConfig {
    type V = BridgeConfigView;

    open spec fn view(&self) -> BridgeConfigView {
        BridgeConfigView {
            install_path: opt_text(self.install_path),
            default_agent: self.default_agent@,
            data_dir: self.data_dir@,
            progress: self.progress,
            launcher: self.launcher@,
            bound_server_id: self.bound_server_id@,
        }
    }
}

impl View for FeishuConfig {
    type V = FeishuConfigView;

    open spec fn view(&self) -> FeishuConfigView {
        FeishuConfigView {
            enabled: self.enabled,
            app_id: self.app_id@,
            app_secret: self.app_secret@,
            verification_token: self.verification_token@,
            webhook_port: self.webhook_port,
            encrypt_key: self.encrypt_key@,
        }
    }
}

impl View for QqConfig {
    type V = QqConfigView;

    open spec fn view(&self) -> QqConfigView {
        QqConfigView { enabled: self.enabled, app_id: self.app_id@, secret: self.secret@ }
    }
}

impl View for TelegramConfig {
    type V = BotConfigView;

    open spec fn view(&self) -> BotConfigView {
        BotConfigView {
            enabled: self.enabled,
            bot_token: self.bot_token@,
            allowed_ids: ids_view(self.allowed_chat_ids@),
        }
    }
}

impl View for DiscordConfig {
    type V = BotConfigView;

    open spec fn view(&self) -> BotConfigView {
        BotConfigView {
            enabled: self.enabled,
            bot_token: self.bot_token@,
            allowed_ids: ids_view(self.allowed_channel_ids@),
        }
    }
}

impl View for ChannelsConfig {
    type V = ChannelsConfigView;

    open spec fn view(&self) -> ChannelsConfigView {
        ChannelsConfigView {
            feishu: self.feishu@,
            qq: self.qq@,
            telegram: self.telegram@,
            discord: self.discord@,
            wechat: self.wechat,
        }
    }
}

impl View for AppConfig {
    type V = AppConfigView;

    open spec fn view(&self) -> AppConfigView {
        AppConfigView {
            version: self.version,
            servers: self.servers@.map_values(|s: ServerConfig| s@),
            bridge: self.bridge@,
            channels: self.channels@,
        }
    }
}

impl View for LegacyAppConfig {
    type V = LegacyAppConfigView;

    open spec fn view(&self) -> LegacyAppConfigView {
        LegacyAppConfigView {
            version: self.version,
            server: LegacyServerConfigView {
                port: self.server.port,
                cwd: self.server.cwd@,
                extra_env: env_view(self.server.extra_env@),
            },
            bridge: LegacyBridgeConfigView {
                install_path: opt_text(self.bridge.install_path),
                default_agent: self.bridge.default_agent@,
                data_dir: self.bridge.data_dir@,
                progress: self.bridge.progress,
                launcher: self.bridge.launcher@,
            },
            channels: self.channels@,
        }
    }
}

// ---------------------------------------------------------------- defaults

/// The default launcher settings.
pub open spec fn default_launcher_spec() -> LauncherConfigView {
    LauncherConfigView {
        enabled: true,
        auto_start_server: true,
        server_command: "opencode serve"@,
        server_start_timeout_ms: 30000,
        probe_timeout_ms: 4000,
    }
}

/// The default channel settings: every channel off, no credentials, the
/// Feishu webhook on port 3001.
pub open spec fn default_channels_spec() -> ChannelsConfigView {
    ChannelsConfigView {
        feishu: FeishuConfigView {
            enabled: false,
            app_id: Seq::empty(),
            app_secret: Seq::empty(),
            verification_token: Seq::empty(),
            webhook_port: 3001,
            encrypt_key: Seq::empty(),
        },
        qq: QqConfigView { enabled: false, app_id: Seq::empty(), secret: Seq::empty() },
        telegram: BotConfigView { enabled: false, bot_token: Seq::empty(), allowed_ids: Seq::empty() },
        discord: BotConfigView { enabled: false, bot_token: Seq::empty(), allowed_ids: Seq::empty() },
        wechat: WechatConfig { enabled: false },
    }
}

/// The configuration written on first start: one server `default` on
/// `http://127.0.0.1:4097` working in `home`, the bridge bound to it.
pub open spec fn default_config_spec(home: Seq<char>) -> AppConfigView {
    AppConfigView {
        version: 1,
        servers: seq![
            ServerConfigView {
                id: "default"@,
                name: "默认"@,
                url: "http://127.0.0.1:4097"@,
                cwd: home,
                extra_env: Seq::empty(),
            },
        ],
        bridge: BridgeConfigView {
            install_path: None,
            default_agent: "build"@,
            data_dir: "./data"@,
            progress: ProgressConfig { debounce_ms: 500, max_debounce_ms: 3000 },
            launcher: default_launcher_spec(),
            bound_server_id: "default"@,
        },
        channels: default_channels_spec(),
    }
}

/// The bound server id a configuration gets when it names none.
pub fn default_bound_server_id() -> (r: String)
    ensures
        r@ == "default"@,
{
    String::from_str("default")
}

/// The debounce a configuration gets when it names none.
pub fn default_debounce_ms() -> (r: u64)
    ensures
        r == 500,
{
    500
}

/// The longest debounce a configuration gets when it names none.
pub fn default_max_debounce_ms() -> (r: u64)
    ensures
        r == 3000,
{
    3000
}

/// The value of switches that default to on.
pub fn default_true() -> (r: bool)
    ensures
        r,
{
    true
}

/// The server command a configuration gets when it names none.
pub fn default_server_command() -> (r: String)
    ensures
        r@ == "opencode serve"@,
{
    String::from_str("opencode serve")
}

/// The server start timeout a configuration gets when it names none.
pub fn default_server_start_timeout_ms() -> (r: u64)
    ensures
        r == 30000,
{
    30000
}

/// The probe timeout a configuration gets when it names none.
pub fn default_probe_timeout_ms() -> (r: u64)
    ensures
        r == 4000,
{
    4000
}

/// The Feishu webhook port a configuration gets when it names none.
pub fn default_webhook_port() -> (r: u16)
    ensures
        r == 3001,
{
    3001
}

/// The agent an older configuration gets when it names none.
pub fn default_agent_str() -> (r: String)
    ensures
        r@ == "build"@,
{
    String::from_str("build")
}

/// The data directory an older configuration gets when it names none.
pub fn default_data_dir() -> (r: String)
    ensures
        r@ == "./data"@,
{
    String::from_str("./data")
}

impl Default for ProgressConfig {
    fn default() -> (r: Self)
        ensures
            r == (ProgressConfig { debounce_ms: 500, max_debounce_ms: 3000 }),
    {
        ProgressConfig { debounce_ms: 500, max_debounce_ms: 3000 }
    }
}

impl Default for LauncherConfig {
    fn default() -> (r: Self)
        ensures
            r@ == default_launcher_spec(),
    {
        LauncherConfig {
            enabled: true,
            auto_start_server: true,
            server_command: String::from_str("opencode serve"),
            server_start_timeout_ms: 30000,
            probe_timeout_ms: 4000,
        }
    }
}

impl Default for FeishuConfig {
    fn default() -> (r: Self)
        ensures
            r@ == default_channels_spec().feishu,
    {
        FeishuConfig {
            enabled: false,
            app_id: String::new(),
            app_secret: String::new(),
            verification_token: String::new(),
            webhook_port: 3001,
            encrypt_key: String::new(),
        }
    }
}

impl Default for QqConfig {
    fn default() -> (r: Self)
        ensures
            r@ == default_channels_spec().qq,
    {
        QqConfig { enabled: false, app_id: String::new(), secret: String::new() }
    }
}

impl Default for TelegramConfig {
    fn default() -> (r: Self)
        ensures
            r@ == default_channels_spec().telegram,
    {
        let r = TelegramConfig { enabled: false, bot_token: String::new(), allowed_chat_ids: Vec::new() };
        assert(ids_view(r.allowed_chat_ids@) =~= Seq::<Seq<char>>::empty());
        r
    }
}

impl Default for DiscordConfig {
    fn default() -> (r: Self)
        ensures
            r@ == default_channels_spec().discord,
    {
        let r = DiscordConfig {
            enabled: false,
            bot_token: String::new(),
            allowed_channel_ids: Vec::new(),
        };
        assert(ids_view(r.allowed_channel_ids@) =~= Seq::<Seq<char>>::empty());
        r
    }
}

impl Default for WechatConfig {
    fn default() -> (r: Self)
        ensures
            r == (WechatConfig { enabled: false }),
    {
        WechatConfig { enabled: false }
    }
}

impl Default for ChannelsConfig {
    fn default() -> (r: Self)
        ensures
            r@ == default_channels_spec(),
    {
        ChannelsConfig {
            feishu: FeishuConfig::default(),
            qq: QqConfig::default(),
            telegram: TelegramConfig::default(),
            discord: DiscordConfig::default(),
            wechat: WechatConfig::default(),
        }
    }
}

/// The default configuration with the server working in `home` (or in no
/// directory when there is none).
pub fn default_config_for_home(home: Option<String>) -> (r: AppConfig)
    ensures
        r@ == default_config_spec(
            match home {
                Some(h) => h@,
                None => Seq::empty(),
            },
        ),
{
    let cwd = match home {
        Some(h) => h,
        None => String::new(),
    };
    let server = ServerConfig {
        id: String::from_str("default"),
        name: String::from_str("默认"),
        url: String::from_str("http://127.0.0.1:4097"),
        cwd,
        extra_env: Vec::new(),
    };
    assert(env_view(server.extra_env@) =~= Seq::<(Seq<char>, Seq<char>)>::empty());
    let mut servers = Vec::new();
    servers.push(server);
    let r = AppConfig {
        version: 1,
        servers,
        bridge: BridgeConfig {
            install_path: None,
            default_agent: String::from_str("build"),
            data_dir: String::from_str("./data"),
            progress: ProgressConfig::default(),
            launcher: LauncherConfig::default(),
            bound_server_id: String::from_str("default"),
        },
        channels: ChannelsConfig::default(),
    };
    assert(r@.servers =~= default_config_spec(r@.servers[0].cwd).servers);
    r
}

// ---------------------------------------------------------------- migration

/// An older configuration in the current layout: its one server becomes
/// server `default` on `http://127.0.0.1:<port>`, and the bridge is bound to it.
pub open spec fn migrate_spec(l: LegacyAppConfigView) -> AppConfigView {
    AppConfigView {
        version: l.version,
        servers: seq![
            ServerConfigView {
                id: "default"@,
                name: "默认"@,
                url: "http://127.0.0.1:"@ + decimal_spec(l.server.port as nat),
                cwd: l.server.cwd,
                extra_env: l.server.extra_env,
            },
        ],
        bridge: BridgeConfigView {
            install_path: l.bridge.install_path,
            default_agent: l.bridge.default_agent,
            data_dir: l.bridge.data_dir,
            progress: l.bridge.progress,
            launcher: l.bridge.launcher,
            bound_server_id: "default"@,
        },
        channels: l.channels,
    }
}

/// Moves an older configuration to the current layout.
pub fn migrate_legacy(legacy: LegacyAppConfig) -> (r: AppConfig)
    ensures
        r@ == migrate_spec(legacy@),
{
    let ghost lv = legacy@;
    let mut url = String::from_str("http://127.0.0.1:");
    push_chars(&mut url, &decimal(legacy.server.port as u64));
    let server = ServerConfig {
        id: default_bound_server_id(),
        name: String::from_str("默认"),
        url,
        cwd: legacy.server.cwd,
        extra_env: legacy.server.extra_env,
    };
    let mut servers = Vec::new();
    servers.push(server);
    let r = AppConfig {
        version: legacy.version,
        servers,
        bridge: BridgeConfig {
            install_path: legacy.bridge.install_path,
            default_agent: legacy.bridge.default_agent,
            data_dir: legacy.bridge.data_dir,
            progress: legacy.bridge.progress,
            launcher: legacy.bridge.launcher,
            bound_server_id: default_bound_server_id(),
        },
        channels: legacy.channels,
    };
    assert(r@.servers =~= migrate_spec(lv).servers);
    r
}

// ---------------------------------------------------------------- loading

/// What was found where the configuration is stored.
#[derive(Debug)]
pub enum StoredConfig {
    /// No file.
    Missing,
    /// A file in the current layout.
    Current(AppConfig),
    /// A file in the older layout.
    Legacy(LegacyAppConfig),
    /// A file that is neither.
    Unreadable,
}

/// What must be written back after loading.
#[derive(Debug, Clone, Copy, PartialEq, Eq, Structural)]
pub enum LoadAction {
    /// Nothing.
    Keep,
    /// Save the result; a failure to save is a failure to load.
    Save,
    /// Save the result; a failure to save is ignored.
    SaveIgnoringErrors,
    /// Move the unreadable file aside, then save the result, ignoring failures.
    BackUpThenSave,
}

/// The configuration to use given what was stored and the home directory:
/// the stored one when current, migrated when older, the default otherwise.
pub open spec fn resolve_spec(stored: StoredConfig, home: Seq<char>) -> (AppConfigView, LoadAction) {
    match stored {
        StoredConfig::Missing => (default_config_spec(home), LoadAction::Save),
        StoredConfig::Current(c) => (c@, LoadAction::Keep),
        StoredConfig::Legacy(l) => (migrate_spec(l@), LoadAction::SaveIgnoringErrors),
        StoredConfig::Unreadable => (default_config_spec(home), LoadAction::BackUpThenSave),
    }
}

/// Decides the configuration to use and what to write back.
pub fn resolve_stored_config(stored: StoredConfig, home: Option<String>) -> (r: (AppConfig, LoadAction))
    ensures
        (r.0@, r.1) == resolve_spec(
            stored,
            match home {
                Some(h) => h@,
                None => Seq::empty(),
            },
        ),
{
    match stored {
        StoredConfig::Missing => (default_config_for_home(home), LoadAction::Save),
        StoredConfig::Current(c) => (c, LoadAction::Keep),
        StoredConfig::Legacy(l) => (migrate_legacy(l), LoadAction::SaveIgnoringErrors),
        StoredConfig::Unreadable => (default_config_for_home(home), LoadAction::BackUpThenSave),
    }
}

// ---------------------------------------------------------------- store

/// Where the application keeps its configuration.
pub struct ConfigStore {
    config_dir: String,
}

/// The name of the application's directory inside the user's configuration directory.
pub open spec fn app_dir_name_spec(platform: Platform) -> Seq<char> {
    match platform {
        Platform::MacOs => "OpenCodeDeck"@,
        Platform::Windows => "OpenCodeDeck"@,
        _ => "opencodedeck"@,
    }
}

impl ConfigStore {
    /// The directory this store keeps the configuration in.
    pub closed spec fn dir_spec(&self) -> Seq<char> {
        self.config_dir@
    }

    /// A store in `base` (the user's configuration directory, or `.` when
    /// there is none) under the application's directory name.
    pub fn with_base(base: Option<String>, platform: Platform) -> (r: Self)
        ensures
            r.dir_spec() == path_join_spec(
                match base {
                    Some(b) => b@,
                    None => "."@,
                },
                app_dir_name_spec(platform),
            ),
    {
        let base = match base {
            Some(b) => b,
            None => String::from_str("."),
        };
        let name = match platform {
            Platform::MacOs => "OpenCodeDeck",
            Platform::Windows => "OpenCodeDeck",
            _ => "opencodedeck",
        };
        ConfigStore { config_dir: path_join(base.as_str(), name) }
    }

    /// A store in `dir`.
    pub fn at(dir: String) -> (r: Self)
        ensures
            r.dir_spec() == dir@,
    {
        ConfigStore { config_dir: dir }
    }

    /// The store in the user's configuration directory.
    pub fn new(platform: Platform) -> (r: Self)
        ensures
            exists|base: Option<Seq<char>>|
                #[trigger] config_dir_reported(base) && r.dir_spec() == path_join_spec(
                    dir_or_dot(base),
                    app_dir_name_spec(platform),
                ),
    {
        let base = config_dir();
        let r = Self::with_base(base, platform);
        assert(config_dir_reported(opt_dir(base)) && r.dir_spec() == path_join_spec(
            dir_or_dot(opt_dir(base)),
            app_dir_name_spec(platform),
        ));
        r
    }

    /// The directory the configuration is kept in.
    pub fn config_dir(&self) -> (r: &str)
        ensures
            r@ == self.dir_spec(),
    {
        self.config_dir.as_str()
    }

    /// The configuration file.
    pub fn config_path(&self) -> (r: String)
        ensures
            r@ == path_join_spec(self.dir_spec(), "config.json"@),
    {
        path_join(self.config_dir.as_str(), "config.json")
    }

    /// The default configuration, the server working in the user's home directory.
    pub fn default_config() -> (r: AppConfig)
        ensures
            exists|home: Option<Seq<char>>|
                #[trigger] home_reported(home) && r@ == default_config_spec(
                    match home {
                        Some(h) => h,
                        None => Seq::empty(),
                    },
                ),
    {
        let home = home_dir();
        let r = default_config_for_home(home);
        assert(home_reported(opt_dir(home)));
        r
    }

    /// Where the bridge is installed: the configured path, else
    /// `bridges/opencode-im-bridge` in the configuration directory.
    pub fn bridge_install_path(&self, config: &AppConfig) -> (r: String)
        ensures
            r@ == match config@.bridge.install_path {
                Some(p) => p,
                None => path_join_spec(
                    path_join_spec(self.dir_spec(), "bridges"@),
                    "opencode-im-bridge"@,
                ),
            },
    {
        match &config.bridge.install_path {
            Some(p) => p.clone(),
            None => {
                let b = path_join(self.config_dir.as_str(), "bridges");
                path_join(b.as_str(), "opencode-im-bridge")
            },
        }
    }
}

} // verus!
