//! The files the bridge reads its settings from, rendered from the configuration.
use vstd::prelude::*;
use crate::config::store::{
    default_config_spec, ids_view, migrate_spec, AppConfig, LegacyAppConfigView, AppConfigView, BotConfigView, FeishuConfig, FeishuConfigView,
    ChannelsConfig, ChannelsConfigView, LauncherConfig, LauncherConfigView, QqConfig, QqConfigView,
    ServerConfig, ServerConfigView,
};
use crate::error::{AppError, AppErrorView};
use crate::text::{
    bool_text, bool_text_spec, decimal, decimal_spec, join, join_spec, push_chars, strings_view,
};

verus! {

/// The first server in `servers` whose id is `id`.
pub open spec fn find_server(servers: Seq<ServerConfigView>, id: Seq<char>) -> Option<ServerConfigView>
    decreases servers.len(),
{
    if servers.len() == 0 {
        None
    } else if servers[0].id == id {
        Some(servers[0])
    } else {
        find_server(servers.drop_first(), id)
    }
}

/// The server the bridge is bound to.
pub open spec fn bound_server(c: AppConfigView) -> Option<ServerConfigView> {
    find_server(c.servers, c.bridge.bound_server_id)
}

/// `KEY=value` lines for the bound server: its URL (a fixed local URL when
/// no server is bound) and its working directory when it has one.
pub open spec fn server_lines(c: AppConfigView) -> Seq<Seq<char>> {
    match bound_server(c) {
        Some(s) => seq!["OPENCODE_SERVER_URL="@ + s.url] + if s.cwd.len() > 0 {
            seq!["OPENCODE_CWD="@ + s.cwd]
        } else {
            Seq::empty()
        },
        None => seq!["OPENCODE_SERVER_URL=http://127.0.0.1:4097"@],
    }
}

/// Lines for Feishu, empty when it is off; the token and key only when set.
pub open spec fn feishu_lines(f: FeishuConfigView) -> Seq<Seq<char>> {
    if f.enabled {
        seq!["FEISHU_APP_ID="@ + f.app_id, "FEISHU_APP_SECRET="@ + f.app_secret] + (if f.verification_token.len()
            > 0 {
            seq!["FEISHU_VERIFICATION_TOKEN="@ + f.verification_token]
        } else {
            Seq::empty()
        }) + seq!["FEISHU_WEBHOOK_PORT="@ + decimal_spec(f.webhook_port as nat)] + (if f.encrypt_key.len()
            > 0 {
            seq!["FEISHU_ENCRYPT_KEY="@ + f.encrypt_key]
        } else {
            Seq::empty()
        })
    } else {
        Seq::empty()
    }
}

/// Lines for QQ, empty when it is off.
pub open spec fn qq_lines(q: QqConfigView) -> Seq<Seq<char>> {
    if q.enabled {
        seq!["QQ_APP_ID="@ + q.app_id, "QQ_SECRET="@ + q.secret]
    } else {
        Seq::empty()
    }
}

/// Lines for a bot channel, empty when it is off; the ids, comma-separated, only when there are some.
pub open spec fn bot_lines(b: BotConfigView, token_key: Seq<char>, ids_key: Seq<char>) -> Seq<Seq<char>> {
    if b.enabled {
        seq![token_key + b.bot_token] + if b.allowed_ids.len() > 0 {
            seq![ids_key + join_spec(b.allowed_ids, ","@)]
        } else {
            Seq::empty()
        }
    } else {
        Seq::empty()
    }
}

/// The lines of the bridge's `.env` file, in order.
pub open spec fn env_lines(c: AppConfigView) -> Seq<Seq<char>> {
    server_lines(c) + feishu_lines(c.channels.feishu) + qq_lines(c.channels.qq) + bot_lines(
        c.channels.telegram,
        "TELEGRAM_BOT_TOKEN="@,
        "TELEGRAM_ALLOWED_CHAT_IDS="@,
    ) + bot_lines(c.channels.discord, "DISCORD_BOT_TOKEN="@, "DISCORD_ALLOWED_CHANNEL_IDS="@) + if c.channels.wechat.enabled {
        seq!["WECHAT_ENABLED=true"@]
    } else {
        Seq::empty()
    }
}

/// The bridge's `.env` file: its lines, each ended by a newline.
pub open spec fn render_env_spec(c: AppConfigView) -> Seq<char> {
    join_spec(env_lines(c), "\n"@) + "\n"@
}

fn find_bound<'a>(servers: &'a Vec<ServerConfig>, id: &String) -> (r: Option<&'a ServerConfig>)
    ensures
        match r {
            Some(s) => find_server(servers@.map_values(|s: ServerConfig| s@), id@) == Some(s@),
            None => find_server(servers@.map_values(|s: ServerConfig| s@), id@) is None,
        },
{
    let ghost all = servers@.map_values(|s: ServerConfig| s@);
    let mut i: usize = 0;
    assert(all.skip(0) =~= all);
    while i < servers.len()
        invariant
            i <= servers.len(),
            all == servers@.map_values(|s: ServerConfig| s@),
            find_server(all.skip(i as int), id@) == find_server(all, id@),
        decreases servers.len() - i,
    {
        let ghost rest = all.skip(i as int);
        assert(rest[0] == servers@[i as int]@);
        assert(rest.drop_first() =~= all.skip(i + 1));
        if servers[i].id == *id {
            return Some(&servers[i]);
        }
        i += 1;
    }
    assert(all.skip(i as int) =~= Seq::<ServerConfigView>::empty());
    None
}

fn line(key: &str, value: &str) -> (r: String)
    ensures
        r@ == key@ + value@,
{
    let mut r = String::from_str(key);
    r.append(value);
    r
}

fn push_line(lines: &mut Vec<String>, l: String)
    ensures
        strings_view(final(lines)@) == strings_view(old(lines)@).push(l@),
{
    lines.push(l);
    assert(strings_view(lines@) =~= strings_view(old(lines)@).push(l@));
}

fn push_server_lines(lines: &mut Vec<String>, config: &AppConfig)
    ensures
        strings_view(final(lines)@) == strings_view(old(lines)@) + server_lines(config@),
{
    let ghost before = strings_view(lines@);
    match find_bound(&config.servers, &config.bridge.bound_server_id) {
        Some(s) => {
            push_line(lines, line("OPENCODE_SERVER_URL=", s.url.as_str()));
            if !s.cwd.as_str().is_empty() {
                push_line(lines, line("OPENCODE_CWD=", s.cwd.as_str()));
            }
        },
        None => {
            push_line(lines, String::from_str("OPENCODE_SERVER_URL=http://127.0.0.1:4097"));
        },
    }
    assert(strings_view(lines@) =~= before + server_lines(config@));
}

fn push_feishu_lines(lines: &mut Vec<String>, f: &FeishuConfig)
    ensures
        strings_view(final(lines)@) == strings_view(old(lines)@) + feishu_lines(f@),
{
    let ghost before = strings_view(lines@);
    if f.enabled {
        push_line(lines, line("FEISHU_APP_ID=", f.app_id.as_str()));
        push_line(lines, line("FEISHU_APP_SECRET=", f.app_secret.as_str()));
        if !f.verification_token.as_str().is_empty() {
            push_line(lines, line("FEISHU_VERIFICATION_TOKEN=", f.verification_token.as_str()));
        }
        let mut port_line = String::from_str("FEISHU_WEBHOOK_PORT=");
        push_chars(&mut port_line, &decimal(f.webhook_port as u64));
        push_line(lines, port_line);
        if !f.encrypt_key.as_str().is_empty() {
            push_line(lines, line("FEISHU_ENCRYPT_KEY=", f.encrypt_key.as_str()));
        }
    }
    assert(strings_view(lines@) =~= before + feishu_lines(f@));
}

fn push_qq_lines(lines: &mut Vec<String>, q: &QqConfig)
    ensures
        strings_view(final(lines)@) == strings_view(old(lines)@) + qq_lines(q@),
{
    let ghost before = strings_view(lines@);
    if q.enabled {
        push_line(lines, line("QQ_APP_ID=", q.app_id.as_str()));
        push_line(lines, line("QQ_SECRET=", q.secret.as_str()));
    }
    assert(strings_view(lines@) =~= before + qq_lines(q@));
}

fn push_bot_lines(
    lines: &mut Vec<String>,
    enabled: bool,
    token: &String,
    ids: &Vec<String>,
    token_key: &str,
    ids_key: &str,
)
    ensures
        strings_view(final(lines)@) == strings_view(old(lines)@) + bot_lines(
            BotConfigView { enabled, bot_token: token@, allowed_ids: ids_view(ids@) },
            token_key@,
            ids_key@,
        ),
{
    let ghost before = strings_view(lines@);
    if enabled {
        push_line(lines, line(token_key, token.as_str()));
        if ids.len() > 0 {
            let joined = join(ids, ",");
            assert(strings_view(ids@) =~= ids_view(ids@));
            push_line(lines, line(ids_key, joined.as_str()));
        }
    }
    assert(strings_view(lines@) =~= before + bot_lines(
        BotConfigView { enabled, bot_token: token@, allowed_ids: ids_view(ids@) },
        token_key@,
        ids_key@,
    ));
}

/// Renders the bridge's `.env` file.
pub fn render_env(config: &AppConfig) -> (r: String)
    ensures
        r@ == render_env_spec(config@),
{
    let ghost c = config@;
    let mut lines: Vec<String> = Vec::new();
    assert(strings_view(lines@) =~= Seq::<Seq<char>>::empty());
    push_server_lines(&mut lines, config);
    push_feishu_lines(&mut lines, &config.channels.feishu);
    push_qq_lines(&mut lines, &config.channels.qq);
    let t = &config.channels.telegram;
    push_bot_lines(
        &mut lines,
        t.enabled,
        &t.bot_token,
        &t.allowed_chat_ids,
        "TELEGRAM_BOT_TOKEN=",
        "TELEGRAM_ALLOWED_CHAT_IDS=",
    );
    let d = &config.channels.discord;
    push_bot_lines(
        &mut lines,
        d.enabled,
        &d.bot_token,
        &d.allowed_channel_ids,
        "DISCORD_BOT_TOKEN=",
        "DISCORD_ALLOWED_CHANNEL_IDS=",
    );
    let ghost before = strings_view(lines@);
    if config.channels.wechat.enabled {
        push_line(&mut lines, String::from_str("WECHAT_ENABLED=true"));
    }
    assert(strings_view(lines@) =~= before + if c.channels.wechat.enabled {
        seq!["WECHAT_ENABLED=true"@]
    } else {
        Seq::<Seq<char>>::empty()
    });
    assert(c.channels.telegram == BotConfigView {
        enabled: t.enabled,
        bot_token: t.bot_token@,
        allowed_ids: ids_view(t.allowed_chat_ids@),
    });
    assert(c.channels.discord == BotConfigView {
        enabled: d.enabled,
        bot_token: d.bot_token@,
        allowed_ids: ids_view(d.allowed_channel_ids@),
    });
    assert(strings_view(lines@) =~= env_lines(c));
    let mut r = join(&lines, "\n");
    r.append("\n");
    r
}

/// The `feishu` block of the bridge's settings file, present only when Feishu is on.
pub open spec fn jsonc_feishu(f: FeishuConfigView) -> Seq<char> {
    if f.enabled {
        "  \"feishu\": {\n"@ + ("    \"appId\": \""@ + f.app_id + "\",\n"@) + ("    \"appSecret\": \""@
            + f.app_secret + "\",\n"@) + ("    \"verificationToken\": \""@ + f.verification_token
            + "\",\n"@) + ("    \"webhookPort\": "@ + decimal_spec(f.webhook_port as nat) + ",\n"@)
            + ("    \"encryptKey\": \""@ + f.encrypt_key + "\"\n"@) + "  },\n"@
    } else {
        Seq::empty()
    }
}

/// The agent, data directory and `progress` block of the settings file.
pub open spec fn jsonc_bridge(c: AppConfigView) -> Seq<char> {
    ("  \"defaultAgent\": \""@ + c.bridge.default_agent + "\",\n"@) + ("  \"dataDir\": \""@
        + c.bridge.data_dir + "\",\n"@) + "  \"progress\": {\n"@ + ("    \"debounceMs\": "@
        + decimal_spec(c.bridge.progress.debounce_ms as nat) + ",\n"@) + ("    \"maxDebounceMs\": "@
        + decimal_spec(c.bridge.progress.max_debounce_ms as nat) + "\n"@) + "  },\n"@
}

/// The `launcher` block of the settings file.
pub open spec fn jsonc_launcher(l: LauncherConfigView) -> Seq<char> {
    "  \"launcher\": {\n"@ + ("    \"enabled\": "@ + bool_text_spec(l.enabled) + ",\n"@) + (
    "    \"autoStartServer\": "@ + bool_text_spec(l.auto_start_server) + ",\n"@) + (
    "    \"serverCommand\": \""@ + l.server_command + "\",\n"@) + ("    \"serverStartTimeoutMs\": "@
        + decimal_spec(l.server_start_timeout_ms as nat) + ",\n"@) + ("    \"probeTimeoutMs\": "@
        + decimal_spec(l.probe_timeout_ms as nat) + "\n"@) + "  }\n"@
}

/// The bridge's `opencode-im.jsonc` settings file. Values are written as
/// they are, without JSON escaping.
pub open spec fn render_jsonc_spec(c: AppConfigView) -> Seq<char> {
    "{\n"@ + jsonc_feishu(c.channels.feishu) + jsonc_bridge(c) + jsonc_launcher(c.bridge.launcher)
        + "}\n"@
}

fn append3(s: &mut String, a: &str, b: &str, c: &str)
    ensures
        final(s)@ == old(s)@ + (a@ + b@ + c@),
{
    s.append(a);
    s.append(b);
    s.append(c);
    assert(s@ =~= old(s)@ + (a@ + b@ + c@));
}

fn append_number(s: &mut String, a: &str, n: u64, c: &str)
    ensures
        final(s)@ == old(s)@ + (a@ + decimal_spec(n as nat) + c@),
{
    s.append(a);
    push_chars(s, &decimal(n));
    s.append(c);
    assert(s@ =~= old(s)@ + (a@ + decimal_spec(n as nat) + c@));
}

fn append_flag(s: &mut String, a: &str, b: bool, c: &str)
    ensures
        final(s)@ == old(s)@ + (a@ + bool_text_spec(b) + c@),
{
    s.append(a);
    push_chars(s, &bool_text(b));
    s.append(c);
    assert(s@ =~= old(s)@ + (a@ + bool_text_spec(b) + c@));
}

fn append_feishu(s: &mut String, f: &FeishuConfig)
    ensures
        final(s)@ == old(s)@ + jsonc_feishu(f@),
{
    if f.enabled {
        let ghost s0 = s@;
        s.append("  \"feishu\": {\n");
        append3(s, "    \"appId\": \"", f.app_id.as_str(), "\",\n");
        append3(s, "    \"appSecret\": \"", f.app_secret.as_str(), "\",\n");
        append3(s, "    \"verificationToken\": \"", f.verification_token.as_str(), "\",\n");
        append_number(s, "    \"webhookPort\": ", f.webhook_port as u64, ",\n");
        append3(s, "    \"encryptKey\": \"", f.encrypt_key.as_str(), "\"\n");
        s.append("  },\n");
        assert(s@ =~= s0 + jsonc_feishu(f@));
    } else {
        assert(s@ =~= old(s)@ + jsonc_feishu(f@));
    }
}

fn append_bridge(s: &mut String, config: &AppConfig)
    ensures
        final(s)@ == old(s)@ + jsonc_bridge(config@),
{
    append3(s, "  \"defaultAgent\": \"", config.bridge.default_agent.as_str(), "\",\n");
    append3(s, "  \"dataDir\": \"", config.bridge.data_dir.as_str(), "\",\n");
    s.append("  \"progress\": {\n");
    append_number(s, "    \"debounceMs\": ", config.bridge.progress.debounce_ms, ",\n");
    append_number(s, "    \"maxDebounceMs\": ", config.bridge.progress.max_debounce_ms, "\n");
    s.append("  },\n");
    assert(s@ =~= old(s)@ + jsonc_bridge(config@));
}

fn append_launcher(s: &mut String, l: &LauncherConfig)
    ensures
        final(s)@ == old(s)@ + jsonc_launcher(l@),
{
    s.append("  \"launcher\": {\n");
    append_flag(s, "    \"enabled\": ", l.enabled, ",\n");
    append_flag(s, "    \"autoStartServer\": ", l.auto_start_server, ",\n");
    append3(s, "    \"serverCommand\": \"", l.server_command.as_str(), "\",\n");
    append_number(s, "    \"serverStartTimeoutMs\": ", l.server_start_timeout_ms, ",\n");
    append_number(s, "    \"probeTimeoutMs\": ", l.probe_timeout_ms, "\n");
    s.append("  }\n");
    assert(s@ =~= old(s)@ + jsonc_launcher(l@));
}

/// Renders the bridge's `opencode-im.jsonc` settings file.
pub fn render_jsonc(config: &AppConfig) -> (r: String)
    ensures
        r@ == render_jsonc_spec(config@),
{
    let mut s = String::from_str("{\n");
    append_feishu(&mut s, &config.channels.feishu);
    append_bridge(&mut s, config);
    append_launcher(&mut s, &config.bridge.launcher);
    s.append("}\n");
    assert(s@ =~= render_jsonc_spec(config@));
    s
}


/// The first setting an enabled channel lacks, as the message reporting it:
/// Feishu needs its app id, app secret and verification token and a webhook
/// port from 1 to 65535; QQ its app id and secret; Telegram and Discord their
/// bot tokens. WeChat needs nothing.
pub open spec fn channel_problem(c: ChannelsConfigView) -> Option<Seq<char>> {
    if c.feishu.enabled && c.feishu.app_id.len() == 0 {
        Some("feishu appId is required"@)
    } else if c.feishu.enabled && c.feishu.app_secret.len() == 0 {
        Some("feishu appSecret is required"@)
    } else if c.feishu.enabled && c.feishu.verification_token.len() == 0 {
        Some("feishu verificationToken is required"@)
    } else if c.feishu.enabled && c.feishu.webhook_port == 0 {
        Some("feishu webhookPort must be between 1 and 65535"@)
    } else if c.qq.enabled && c.qq.app_id.len() == 0 {
        Some("qq appId is required"@)
    } else if c.qq.enabled && c.qq.secret.len() == 0 {
        Some("qq secret is required"@)
    } else if c.telegram.enabled && c.telegram.bot_token.len() == 0 {
        Some("telegram botToken is required"@)
    } else if c.discord.enabled && c.discord.bot_token.len() == 0 {
        Some("discord botToken is required"@)
    } else {
        None
    }
}

fn problem(m: &str) -> (r: Result<(), AppError>)
    ensures
        r matches Err(e) && e@ == AppErrorView::Config(m@),
{
    Err(AppError::Config(String::from_str(m)))
}

/// Checks, before the bridge's files are written, that every enabled channel
/// has the settings it needs; the first one missing is a configuration error.
pub fn validate_channels(c: &ChannelsConfig) -> (r: Result<(), AppError>)
    ensures
        match channel_problem(c@) {
            None => r is Ok,
            Some(m) => r matches Err(e) && e@ == AppErrorView::Config(m),
        },
{
    let f = &c.feishu;
    if f.enabled && f.app_id.as_str().is_empty() {
        return problem("feishu appId is required");
    }
    if f.enabled && f.app_secret.as_str().is_empty() {
        return problem("feishu appSecret is required");
    }
    if f.enabled && f.verification_token.as_str().is_empty() {
        return problem("feishu verificationToken is required");
    }
    if f.enabled && f.webhook_port == 0 {
        return problem("feishu webhookPort must be between 1 and 65535");
    }
    if c.qq.enabled && c.qq.app_id.as_str().is_empty() {
        return problem("qq appId is required");
    }
    if c.qq.enabled && c.qq.secret.as_str().is_empty() {
        return problem("qq secret is required");
    }
    if c.telegram.enabled && c.telegram.bot_token.as_str().is_empty() {
        return problem("telegram botToken is required");
    }
    if c.discord.enabled && c.discord.bot_token.as_str().is_empty() {
        return problem("discord botToken is required");
    }
    Ok(())
}

/// Law: an enabled bot channel writes its token, and, when it has allowed
/// ids, the line naming those ids joined by commas: the Telegram chats and
/// the Discord channels the bridge may serve are never dropped.
pub proof fn law_bot_channels_write_token_and_allow_list(c: AppConfigView)
    ensures
        c.channels.telegram.enabled ==> env_lines(c).contains(
            "TELEGRAM_BOT_TOKEN="@ + c.channels.telegram.bot_token,
        ),
        c.channels.telegram.enabled && c.channels.telegram.allowed_ids.len() > 0 ==> env_lines(
            c,
        ).contains("TELEGRAM_ALLOWED_CHAT_IDS="@ + join_spec(c.channels.telegram.allowed_ids, ","@)),
        c.channels.discord.enabled ==> env_lines(c).contains(
            "DISCORD_BOT_TOKEN="@ + c.channels.discord.bot_token,
        ),
        c.channels.discord.enabled && c.channels.discord.allowed_ids.len() > 0 ==> env_lines(
            c,
        ).contains("DISCORD_ALLOWED_CHANNEL_IDS="@ + join_spec(c.channels.discord.allowed_ids, ","@)),
{
    let a = server_lines(c) + feishu_lines(c.channels.feishu) + qq_lines(c.channels.qq);
    let t = bot_lines(c.channels.telegram, "TELEGRAM_BOT_TOKEN="@, "TELEGRAM_ALLOWED_CHAT_IDS="@);
    let d = bot_lines(c.channels.discord, "DISCORD_BOT_TOKEN="@, "DISCORD_ALLOWED_CHANNEL_IDS="@);
    let w = if c.channels.wechat.enabled {
        seq!["WECHAT_ENABLED=true"@]
    } else {
        Seq::<Seq<char>>::empty()
    };
    let e = env_lines(c);
    assert(e == a + t + d + w);
    if c.channels.telegram.enabled {
        assert(e[a.len() as int] == t[0]);
        if c.channels.telegram.allowed_ids.len() > 0 {
            assert(e[(a.len() + 1) as int] == t[1]);
        }
    }
    if c.channels.discord.enabled {
        assert(e[(a.len() + t.len()) as int] == d[0]);
        if c.channels.discord.allowed_ids.len() > 0 {
            assert(e[(a.len() + t.len() + 1) as int] == d[1]);
        }
    }
}

/// Law: the `.env` file starts with the URL of the server the bridge is
/// bound to (a fixed local URL when no server is bound).
pub proof fn law_env_names_bound_server(c: AppConfigView)
    ensures
        env_lines(c).len() >= 1,
        env_lines(c)[0] == "OPENCODE_SERVER_URL="@ + match bound_server(c) {
            Some(s) => s.url,
            None => "http://127.0.0.1:4097"@,
        },
{
    match bound_server(c) {
        Some(s) => {
            assert(server_lines(c)[0] == "OPENCODE_SERVER_URL="@ + s.url);
        },
        None => {
            assert(server_lines(c)[0] == "OPENCODE_SERVER_URL=http://127.0.0.1:4097"@);
            assert("OPENCODE_SERVER_URL=http://127.0.0.1:4097"@ =~= "OPENCODE_SERVER_URL="@
                + "http://127.0.0.1:4097"@) by {
                reveal_strlit("OPENCODE_SERVER_URL=http://127.0.0.1:4097");
                reveal_strlit("OPENCODE_SERVER_URL=");
                reveal_strlit("http://127.0.0.1:4097");
            }
        },
    }
}

/// Law: channels that are off add nothing; with every channel off the
/// `.env` file holds only the server lines.
pub proof fn law_disabled_channels_add_nothing(c: AppConfigView)
    requires
        !c.channels.feishu.enabled,
        !c.channels.qq.enabled,
        !c.channels.telegram.enabled,
        !c.channels.discord.enabled,
        !c.channels.wechat.enabled,
    ensures
        env_lines(c) == server_lines(c),
        jsonc_feishu(c.channels.feishu) == Seq::<char>::empty(),
{
    assert(env_lines(c) =~= server_lines(c));
}

/// Law: the default configuration binds the bridge to its one server.
pub proof fn law_default_config_is_bound(home: Seq<char>)
    ensures
        default_config_spec(home).servers.len() == 1,
        bound_server(default_config_spec(home)) == Some(default_config_spec(home).servers[0]),
{
    let c = default_config_spec(home);
    assert(c.servers[0].id == c.bridge.bound_server_id);
}

/// Law: a migrated configuration binds the bridge to its one server, whose
/// URL is the local address on the old configuration's port; the `.env`
/// file therefore names that URL.
pub proof fn law_migrated_config_is_bound(l: LegacyAppConfigView)
    ensures
        migrate_spec(l).servers.len() == 1,
        bound_server(migrate_spec(l)) == Some(migrate_spec(l).servers[0]),
        migrate_spec(l).servers[0].url == "http://127.0.0.1:"@ + decimal_spec(l.server.port as nat),
        env_lines(migrate_spec(l))[0] == "OPENCODE_SERVER_URL="@ + ("http://127.0.0.1:"@
            + decimal_spec(l.server.port as nat)),
{
    let c = migrate_spec(l);
    assert(c.servers[0].id == c.bridge.bound_server_id);
    law_env_names_bound_server(c);
}

} // verus!
