//! The bridge's settings file read as JSON: a small model of the JSON it
//! holds, the standard two-space printing of that model, and the law that
//! the rendered file is that printing of the configuration's values.
use vstd::prelude::*;
use crate::config::renderer::{jsonc_bridge, jsonc_feishu, jsonc_launcher, render_jsonc_spec};
use crate::config::store::{AppConfigView, FeishuConfigView, LauncherConfigView};
use crate::text::{bool_text_spec, decimal_spec};

verus! {

/// A JSON scalar: a string, a non-negative integer or a boolean.
pub enum JsonScalar {
    Str(Seq<char>),
    Num(nat),
    Bool(bool),
}

/// A member of a top-level JSON object: a scalar, or an object of scalars.
pub enum JsonMember {
    Scalar(Seq<char>, JsonScalar),
    Object(Seq<char>, Seq<(Seq<char>, JsonScalar)>),
}

/// A JSON string literal for `s`, written without escapes.
pub open spec fn quoted(s: Seq<char>) -> Seq<char> {
    "\""@ + s + "\""@
}

/// A text that a JSON string literal can hold without escapes: no quote,
/// no backslash, no control character.
pub open spec fn json_safe(s: Seq<char>) -> bool {
    forall|i: int| 0 <= i < s.len() ==> #[trigger] s[i] != '"' && s[i] != '\\' && (s[i] as u32)
        >= 0x20
}

/// The JSON text of a scalar.
pub open spec fn scalar_text(v: JsonScalar) -> Seq<char> {
    match v {
        JsonScalar::Str(s) => quoted(s),
        JsonScalar::Num(n) => decimal_spec(n),
        JsonScalar::Bool(b) => bool_text_spec(b),
    }
}

/// One `"key": value` line, after `indent`.
#[verifier::opaque]
pub open spec fn field_text(indent: Seq<char>, key: Seq<char>, v: JsonScalar) -> Seq<char> {
    indent + quoted(key) + ": "@ + scalar_text(v)
}

/// Fields at `indent`, separated by a comma and a newline.
pub open spec fn fields_text(indent: Seq<char>, fs: Seq<(Seq<char>, JsonScalar)>) -> Seq<char>
    decreases fs.len(),
{
    if fs.len() == 0 {
        Seq::empty()
    } else if fs.len() == 1 {
        field_text(indent, fs[0].0, fs[0].1)
    } else {
        fields_text(indent, fs.drop_last()) + ",\n"@ + field_text(indent, fs.last().0, fs.last().1)
    }
}

/// A member of the top-level object, indented by two spaces; a nested
/// object's fields by four.
#[verifier::opaque]
pub open spec fn member_text(m: JsonMember) -> Seq<char> {
    match m {
        JsonMember::Scalar(k, v) => field_text("  "@, k, v),
        JsonMember::Object(k, fs) => "  "@ + quoted(k) + ": {\n"@ + fields_text("    "@, fs)
            + "\n  }"@,
    }
}

/// Members separated by a comma and a newline.
pub open spec fn members_text(ms: Seq<JsonMember>) -> Seq<char>
    decreases ms.len(),
{
    if ms.len() == 0 {
        Seq::empty()
    } else if ms.len() == 1 {
        member_text(ms[0])
    } else {
        members_text(ms.drop_last()) + ",\n"@ + member_text(ms.last())
    }
}

/// A top-level object of `ms`, printed with two-space indentation and a
/// final newline.
pub open spec fn object_text(ms: Seq<JsonMember>) -> Seq<char> {
    "{\n"@ + members_text(ms) + "\n}\n"@
}

/// Every string value of the members can be written without escapes.
pub open spec fn values_json_safe(ms: Seq<JsonMember>) -> bool {
    forall|i: int| 0 <= i < ms.len() ==> match #[trigger] ms[i] {
        JsonMember::Scalar(_, v) => scalar_safe(v),
        JsonMember::Object(_, fs) => forall|j: int| 0 <= j < fs.len() ==> scalar_safe(#[trigger] fs[j].1),
    }
}

/// A scalar that is written as valid JSON.
pub open spec fn scalar_safe(v: JsonScalar) -> bool {
    match v {
        JsonScalar::Str(s) => json_safe(s),
        _ => true,
    }
}

/// The `feishu` object of the settings file.
pub open spec fn feishu_member(f: FeishuConfigView) -> JsonMember {
    JsonMember::Object(
        "feishu"@,
        seq![
            ("appId"@, JsonScalar::Str(f.app_id)),
            ("appSecret"@, JsonScalar::Str(f.app_secret)),
            ("verificationToken"@, JsonScalar::Str(f.verification_token)),
            ("webhookPort"@, JsonScalar::Num(f.webhook_port as nat)),
            ("encryptKey"@, JsonScalar::Str(f.encrypt_key)),
        ],
    )
}

/// The `launcher` object of the settings file.
pub open spec fn launcher_member(l: LauncherConfigView) -> JsonMember {
    JsonMember::Object(
        "launcher"@,
        seq![
            ("enabled"@, JsonScalar::Bool(l.enabled)),
            ("autoStartServer"@, JsonScalar::Bool(l.auto_start_server)),
            ("serverCommand"@, JsonScalar::Str(l.server_command)),
            ("serverStartTimeoutMs"@, JsonScalar::Num(l.server_start_timeout_ms as nat)),
            ("probeTimeoutMs"@, JsonScalar::Num(l.probe_timeout_ms as nat)),
        ],
    )
}

/// The agent, data directory and `progress` members of the settings file.
pub open spec fn bridge_members(c: AppConfigView) -> Seq<JsonMember> {
    seq![
        JsonMember::Scalar("defaultAgent"@, JsonScalar::Str(c.bridge.default_agent)),
        JsonMember::Scalar("dataDir"@, JsonScalar::Str(c.bridge.data_dir)),
        JsonMember::Object(
            "progress"@,
            seq![
                ("debounceMs"@, JsonScalar::Num(c.bridge.progress.debounce_ms as nat)),
                ("maxDebounceMs"@, JsonScalar::Num(c.bridge.progress.max_debounce_ms as nat)),
            ],
        ),
    ]
}

/// The JSON object the settings file holds for configuration `c`: the
/// `feishu` object when Feishu is on, then the agent, the data directory,
/// the `progress` object and the `launcher` object.
pub open spec fn jsonc_model(c: AppConfigView) -> Seq<JsonMember> {
    (if c.channels.feishu.enabled {
        seq![feishu_member(c.channels.feishu)]
    } else {
        Seq::empty()
    }) + bridge_members(c) + seq![launcher_member(c.bridge.launcher)]
}

/// The texts of the configuration that the settings file writes as strings.
pub open spec fn jsonc_strings_safe(c: AppConfigView) -> bool {
    &&& c.channels.feishu.enabled ==> json_safe(c.channels.feishu.app_id) && json_safe(
        c.channels.feishu.app_secret,
    ) && json_safe(c.channels.feishu.verification_token) && json_safe(
        c.channels.feishu.encrypt_key,
    )
    &&& json_safe(c.bridge.default_agent)
    &&& json_safe(c.bridge.data_dir)
    &&& json_safe(c.bridge.launcher.server_command)
}

/// A line of the settings file, `pre + inner + post`, is the field line of
/// `key` followed by `sep`, when `pre` opens the field and `post` closes the
/// value and holds the separator.
proof fn lemma_piece(
    pre: Seq<char>,
    inner: Seq<char>,
    post: Seq<char>,
    indent: Seq<char>,
    key: Seq<char>,
    v: JsonScalar,
    open: Seq<char>,
    close: Seq<char>,
    sep: Seq<char>,
)
    requires
        pre == indent + quoted(key) + ": "@ + open,
        post == close + sep,
        scalar_text(v) == open + inner + close,
    ensures
        pre + inner + post == field_text(indent, key, v) + sep,
{
    reveal(field_text);
    assert(pre + inner + post =~= field_text(indent, key, v) + sep);
}

proof fn lemma_str_piece(pre: Seq<char>, s: Seq<char>, post: Seq<char>, indent: Seq<char>, key: Seq<char>, sep: Seq<char>)
    requires
        pre == indent + quoted(key) + ": "@ + "\""@,
        post == "\""@ + sep,
    ensures
        pre + s + post == field_text(indent, key, JsonScalar::Str(s)) + sep,
{
    assert(scalar_text(JsonScalar::Str(s)) =~= "\""@ + s + "\""@);
    lemma_piece(pre, s, post, indent, key, JsonScalar::Str(s), "\""@, "\""@, sep);
}

proof fn lemma_plain_piece(pre: Seq<char>, t: Seq<char>, post: Seq<char>, indent: Seq<char>, key: Seq<char>, v: JsonScalar)
    requires
        pre == indent + quoted(key) + ": "@,
        scalar_text(v) == t,
    ensures
        pre + t + post == field_text(indent, key, v) + post,
{
    assert(pre == indent + quoted(key) + ": "@ + Seq::<char>::empty());
    assert(post == Seq::<char>::empty() + post);
    assert(scalar_text(v) == Seq::<char>::empty() + t + Seq::<char>::empty());
    lemma_piece(pre, t, post, indent, key, v, Seq::empty(), Seq::empty(), post);
}

proof fn lemma_five_fields(
    h: Seq<char>,
    f0: Seq<char>,
    f1: Seq<char>,
    f2: Seq<char>,
    f3: Seq<char>,
    f4: Seq<char>,
    a: Seq<char>,
    n: Seq<char>,
    t: Seq<char>,
    e: Seq<char>,
    sep: Seq<char>,
)
    requires
        n + t == e + sep,
    ensures
        h + (f0 + a) + (f1 + a) + (f2 + a) + (f3 + a) + (f4 + n) + t == h + (f0 + a + f1 + a + f2 + a
            + f3 + a + f4) + e + sep,
{
    assert(h + (f0 + a) + (f1 + a) + (f2 + a) + (f3 + a) + (f4 + n) + t =~= h + (f0 + a + f1 + a + f2
        + a + f3 + a + f4) + (n + t));
    assert(h + (f0 + a + f1 + a + f2 + a + f3 + a + f4) + (e + sep) =~= h + (f0 + a + f1 + a + f2 + a
        + f3 + a + f4) + e + sep);
}

proof fn lemma_progress_members(
    m0: Seq<char>,
    m1: Seq<char>,
    h: Seq<char>,
    g0: Seq<char>,
    g1: Seq<char>,
    a: Seq<char>,
    n: Seq<char>,
    t: Seq<char>,
    e: Seq<char>,
)
    requires
        n + t == e + a,
    ensures
        (m0 + a) + (m1 + a) + h + (g0 + a) + (g1 + n) + t == m0 + a + m1 + a + (h + (g0 + a + g1) + e)
            + a,
{
    assert((m0 + a) + (m1 + a) + h + (g0 + a) + (g1 + n) + t =~= m0 + a + m1 + a + h + (g0 + a + g1)
        + (n + t));
    assert(m0 + a + m1 + a + h + (g0 + a + g1) + (e + a) =~= m0 + a + m1 + a + (h + (g0 + a + g1) + e)
        + a);
}

proof fn lemma_feishu_text(f: FeishuConfigView)
    requires
        f.enabled,
    ensures
        jsonc_feishu(f) == member_text(feishu_member(f)) + ",\n"@,
{
    reveal(member_text);
    let ind = "    "@;
    assert("    \"appId\": \""@ == ind + quoted("appId"@) + ": "@ + "\""@) by {
        reveal_strlit("    \"appId\": \"");
        reveal_strlit("    ");
        reveal_strlit("appId");
        reveal_strlit("\"");
        reveal_strlit(": ");
    }
    assert("    \"appSecret\": \""@ == ind + quoted("appSecret"@) + ": "@ + "\""@) by {
        reveal_strlit("    \"appSecret\": \"");
        reveal_strlit("    ");
        reveal_strlit("appSecret");
        reveal_strlit("\"");
        reveal_strlit(": ");
    }
    assert("    \"verificationToken\": \""@ == ind + quoted("verificationToken"@) + ": "@ + "\""@) by {
        reveal_strlit("    \"verificationToken\": \"");
        reveal_strlit("    ");
        reveal_strlit("verificationToken");
        reveal_strlit("\"");
        reveal_strlit(": ");
    }
    assert("    \"webhookPort\": "@ == ind + quoted("webhookPort"@) + ": "@) by {
        reveal_strlit("    \"webhookPort\": ");
        reveal_strlit("    ");
        reveal_strlit("webhookPort");
        reveal_strlit("\"");
        reveal_strlit(": ");
    }
    assert("    \"encryptKey\": \""@ == ind + quoted("encryptKey"@) + ": "@ + "\""@) by {
        reveal_strlit("    \"encryptKey\": \"");
        reveal_strlit("    ");
        reveal_strlit("encryptKey");
        reveal_strlit("\"");
        reveal_strlit(": ");
    }
    assert("\",\n"@ == "\""@ + ",\n"@) by {
        reveal_strlit("\",\n");
        reveal_strlit("\"");
        reveal_strlit(",\n");
    }
    assert("\"\n"@ == "\""@ + "\n"@) by {
        reveal_strlit("\"\n");
        reveal_strlit("\"");
        reveal_strlit("\n");
    }
    assert("  \"feishu\": {\n"@ == "  "@ + quoted("feishu"@) + ": {\n"@) by {
        reveal_strlit("  \"feishu\": {\n");
        reveal_strlit("  ");
        reveal_strlit("feishu");
        reveal_strlit("\"");
        reveal_strlit(": {\n");
    }
    assert("\n"@ + "  },\n"@ == "\n  }"@ + ",\n"@) by {
        reveal_strlit("\n");
        reveal_strlit("  },\n");
        reveal_strlit("\n  }");
        reveal_strlit(",\n");
    }
    lemma_str_piece("    \"appId\": \""@, f.app_id, "\",\n"@, ind, "appId"@, ",\n"@);
    lemma_str_piece("    \"appSecret\": \""@, f.app_secret, "\",\n"@, ind, "appSecret"@, ",\n"@);
    lemma_str_piece(
        "    \"verificationToken\": \""@,
        f.verification_token,
        "\",\n"@,
        ind,
        "verificationToken"@,
        ",\n"@,
    );
    lemma_plain_piece(
        "    \"webhookPort\": "@,
        decimal_spec(f.webhook_port as nat),
        ",\n"@,
        ind,
        "webhookPort"@,
        JsonScalar::Num(f.webhook_port as nat),
    );
    lemma_str_piece("    \"encryptKey\": \""@, f.encrypt_key, "\"\n"@, ind, "encryptKey"@, "\n"@);
    let fs = feishu_member(f)->Object_1;
    reveal_with_fuel(fields_text, 6);
    assert(fs.drop_last().drop_last().drop_last().drop_last() =~= seq![fs[0]]);
    assert(fs.drop_last().drop_last().drop_last() =~= seq![fs[0], fs[1]]);
    assert(fs.drop_last().drop_last() =~= seq![fs[0], fs[1], fs[2]]);
    assert(fs.drop_last() =~= seq![fs[0], fs[1], fs[2], fs[3]]);
    let f0 = field_text(ind, fs[0].0, fs[0].1);
    let f1 = field_text(ind, fs[1].0, fs[1].1);
    let f2 = field_text(ind, fs[2].0, fs[2].1);
    let f3 = field_text(ind, fs[3].0, fs[3].1);
    let f4 = field_text(ind, fs[4].0, fs[4].1);
    assert(fields_text(ind, fs) == f0 + ",\n"@ + f1 + ",\n"@ + f2 + ",\n"@ + f3 + ",\n"@ + f4);
    lemma_five_fields("  \"feishu\": {\n"@, f0, f1, f2, f3, f4, ",\n"@, "\n"@, "  },\n"@, "\n  }"@, ",\n"@);
}

proof fn lemma_launcher_text(l: LauncherConfigView)
    ensures
        jsonc_launcher(l) == member_text(launcher_member(l)) + "\n"@,
{
    reveal(member_text);
    let ind = "    "@;
    assert("    \"enabled\": "@ == ind + quoted("enabled"@) + ": "@) by {
        reveal_strlit("    \"enabled\": ");
        reveal_strlit("    ");
        reveal_strlit("enabled");
        reveal_strlit("\"");
        reveal_strlit(": ");
    }
    assert("    \"autoStartServer\": "@ == ind + quoted("autoStartServer"@) + ": "@) by {
        reveal_strlit("    \"autoStartServer\": ");
        reveal_strlit("    ");
        reveal_strlit("autoStartServer");
        reveal_strlit("\"");
        reveal_strlit(": ");
    }
    assert("    \"serverCommand\": \""@ == ind + quoted("serverCommand"@) + ": "@ + "\""@) by {
        reveal_strlit("    \"serverCommand\": \"");
        reveal_strlit("    ");
        reveal_strlit("serverCommand");
        reveal_strlit("\"");
        reveal_strlit(": ");
    }
    assert("    \"serverStartTimeoutMs\": "@ == ind + quoted("serverStartTimeoutMs"@) + ": "@) by {
        reveal_strlit("    \"serverStartTimeoutMs\": ");
        reveal_strlit("    ");
        reveal_strlit("serverStartTimeoutMs");
        reveal_strlit("\"");
        reveal_strlit(": ");
    }
    assert("    \"probeTimeoutMs\": "@ == ind + quoted("probeTimeoutMs"@) + ": "@) by {
        reveal_strlit("    \"probeTimeoutMs\": ");
        reveal_strlit("    ");
        reveal_strlit("probeTimeoutMs");
        reveal_strlit("\"");
        reveal_strlit(": ");
    }
    assert("\",\n"@ == "\""@ + ",\n"@) by {
        reveal_strlit("\",\n");
        reveal_strlit("\"");
        reveal_strlit(",\n");
    }
    assert("  \"launcher\": {\n"@ == "  "@ + quoted("launcher"@) + ": {\n"@) by {
        reveal_strlit("  \"launcher\": {\n");
        reveal_strlit("  ");
        reveal_strlit("launcher");
        reveal_strlit("\"");
        reveal_strlit(": {\n");
    }
    assert("\n"@ + "  }\n"@ == "\n  }"@ + "\n"@) by {
        reveal_strlit("\n");
        reveal_strlit("  }\n");
        reveal_strlit("\n  }");
    }
    lemma_plain_piece(
        "    \"enabled\": "@,
        bool_text_spec(l.enabled),
        ",\n"@,
        ind,
        "enabled"@,
        JsonScalar::Bool(l.enabled),
    );
    lemma_plain_piece(
        "    \"autoStartServer\": "@,
        bool_text_spec(l.auto_start_server),
        ",\n"@,
        ind,
        "autoStartServer"@,
        JsonScalar::Bool(l.auto_start_server),
    );
    lemma_str_piece("    \"serverCommand\": \""@, l.server_command, "\",\n"@, ind, "serverCommand"@, ",\n"@);
    lemma_plain_piece(
        "    \"serverStartTimeoutMs\": "@,
        decimal_spec(l.server_start_timeout_ms as nat),
        ",\n"@,
        ind,
        "serverStartTimeoutMs"@,
        JsonScalar::Num(l.server_start_timeout_ms as nat),
    );
    lemma_plain_piece(
        "    \"probeTimeoutMs\": "@,
        decimal_spec(l.probe_timeout_ms as nat),
        "\n"@,
        ind,
        "probeTimeoutMs"@,
        JsonScalar::Num(l.probe_timeout_ms as nat),
    );
    let fs = launcher_member(l)->Object_1;
    reveal_with_fuel(fields_text, 6);
    assert(fs.drop_last().drop_last().drop_last().drop_last() =~= seq![fs[0]]);
    assert(fs.drop_last().drop_last().drop_last() =~= seq![fs[0], fs[1]]);
    assert(fs.drop_last().drop_last() =~= seq![fs[0], fs[1], fs[2]]);
    assert(fs.drop_last() =~= seq![fs[0], fs[1], fs[2], fs[3]]);
    let f0 = field_text(ind, fs[0].0, fs[0].1);
    let f1 = field_text(ind, fs[1].0, fs[1].1);
    let f2 = field_text(ind, fs[2].0, fs[2].1);
    let f3 = field_text(ind, fs[3].0, fs[3].1);
    let f4 = field_text(ind, fs[4].0, fs[4].1);
    assert(fields_text(ind, fs) == f0 + ",\n"@ + f1 + ",\n"@ + f2 + ",\n"@ + f3 + ",\n"@ + f4);
    lemma_five_fields("  \"launcher\": {\n"@, f0, f1, f2, f3, f4, ",\n"@, "\n"@, "  }\n"@, "\n  }"@, "\n"@);
}

proof fn lemma_bridge_text(c: AppConfigView)
    ensures
        jsonc_bridge(c) == member_text(bridge_members(c)[0]) + ",\n"@ + member_text(
            bridge_members(c)[1],
        ) + ",\n"@ + member_text(bridge_members(c)[2]) + ",\n"@,
{
    reveal(member_text);
    let ind = "    "@;
    assert("  \"defaultAgent\": \""@ == "  "@ + quoted("defaultAgent"@) + ": "@ + "\""@) by {
        reveal_strlit("  \"defaultAgent\": \"");
        reveal_strlit("  ");
        reveal_strlit("defaultAgent");
        reveal_strlit("\"");
        reveal_strlit(": ");
    }
    assert("  \"dataDir\": \""@ == "  "@ + quoted("dataDir"@) + ": "@ + "\""@) by {
        reveal_strlit("  \"dataDir\": \"");
        reveal_strlit("  ");
        reveal_strlit("dataDir");
        reveal_strlit("\"");
        reveal_strlit(": ");
    }
    assert("    \"debounceMs\": "@ == ind + quoted("debounceMs"@) + ": "@) by {
        reveal_strlit("    \"debounceMs\": ");
        reveal_strlit("    ");
        reveal_strlit("debounceMs");
        reveal_strlit("\"");
        reveal_strlit(": ");
    }
    assert("    \"maxDebounceMs\": "@ == ind + quoted("maxDebounceMs"@) + ": "@) by {
        reveal_strlit("    \"maxDebounceMs\": ");
        reveal_strlit("    ");
        reveal_strlit("maxDebounceMs");
        reveal_strlit("\"");
        reveal_strlit(": ");
    }
    assert("\",\n"@ == "\""@ + ",\n"@) by {
        reveal_strlit("\",\n");
        reveal_strlit("\"");
        reveal_strlit(",\n");
    }
    assert("  \"progress\": {\n"@ == "  "@ + quoted("progress"@) + ": {\n"@) by {
        reveal_strlit("  \"progress\": {\n");
        reveal_strlit("  ");
        reveal_strlit("progress");
        reveal_strlit("\"");
        reveal_strlit(": {\n");
    }
    assert("\n"@ + "  },\n"@ == "\n  }"@ + ",\n"@) by {
        reveal_strlit("\n");
        reveal_strlit("  },\n");
        reveal_strlit("\n  }");
        reveal_strlit(",\n");
    }
    let b = bridge_members(c);
    lemma_str_piece("  \"defaultAgent\": \""@, c.bridge.default_agent, "\",\n"@, "  "@, "defaultAgent"@, ",\n"@);
    lemma_str_piece("  \"dataDir\": \""@, c.bridge.data_dir, "\",\n"@, "  "@, "dataDir"@, ",\n"@);
    lemma_plain_piece(
        "    \"debounceMs\": "@,
        decimal_spec(c.bridge.progress.debounce_ms as nat),
        ",\n"@,
        ind,
        "debounceMs"@,
        JsonScalar::Num(c.bridge.progress.debounce_ms as nat),
    );
    lemma_plain_piece(
        "    \"maxDebounceMs\": "@,
        decimal_spec(c.bridge.progress.max_debounce_ms as nat),
        "\n"@,
        ind,
        "maxDebounceMs"@,
        JsonScalar::Num(c.bridge.progress.max_debounce_ms as nat),
    );
    let fs = b[2]->Object_1;
    reveal_with_fuel(fields_text, 3);
    assert(fs.drop_last() =~= seq![fs[0]]);
    let f0 = field_text(ind, fs[0].0, fs[0].1);
    let f1 = field_text(ind, fs[1].0, fs[1].1);
    assert(fields_text(ind, fs) == f0 + ",\n"@ + f1);
    lemma_progress_members(
        member_text(b[0]),
        member_text(b[1]),
        "  \"progress\": {\n"@,
        f0,
        f1,
        ",\n"@,
        "\n"@,
        "  },\n"@,
        "\n  }"@,
    );
}

proof fn lemma_object_text(
    o: Seq<char>,
    fe: Seq<char>,
    m0: Seq<char>,
    m1: Seq<char>,
    m2: Seq<char>,
    ml: Seq<char>,
    a: Seq<char>,
    n: Seq<char>,
    cl: Seq<char>,
    e: Seq<char>,
)
    requires
        n + cl == e,
    ensures
        o + fe + (m0 + a + m1 + a + m2 + a) + (ml + n) + cl == o + (fe + (m0 + a + m1 + a + m2 + a + ml)) + e,
{
    assert(o + fe + (m0 + a + m1 + a + m2 + a) + (ml + n) + cl =~= o + (fe + (m0 + a + m1 + a + m2 + a
        + ml)) + (n + cl));
}

proof fn lemma_jsonc_safe(c: AppConfigView)
    ensures
        jsonc_strings_safe(c) ==> values_json_safe(jsonc_model(c)),
{
    let b = bridge_members(c);
    let lm = launcher_member(c.bridge.launcher);
    let ms = jsonc_model(c);
    if jsonc_strings_safe(c) {
        assert forall|i: int| 0 <= i < ms.len() implies match #[trigger] ms[i] {
            JsonMember::Scalar(_, v) => scalar_safe(v),
            JsonMember::Object(_, fs) => forall|j: int|
                0 <= j < fs.len() ==> scalar_safe(#[trigger] fs[j].1),
        } by {
            if c.channels.feishu.enabled {
                assert(ms =~= seq![feishu_member(c.channels.feishu), b[0], b[1], b[2], lm]);
            } else {
                assert(ms =~= seq![b[0], b[1], b[2], lm]);
            }
        }
    }
}

/// Law: the bridge's settings file is the two-space JSON printing of the
/// object `jsonc_model(c)`, which holds the configuration's own values;
/// when the texts it writes hold no quote, backslash or control character,
/// every string in it is valid JSON.
pub proof fn law_jsonc_is_json_of_settings(c: AppConfigView)
    ensures
        render_jsonc_spec(c) == object_text(jsonc_model(c)),
        jsonc_strings_safe(c) ==> values_json_safe(jsonc_model(c)),
{
    assert("\n"@ + "}\n"@ == "\n}\n"@) by {
        reveal_strlit("\n");
        reveal_strlit("}\n");
        reveal_strlit("\n}\n");
    }
    lemma_bridge_text(c);
    lemma_launcher_text(c.bridge.launcher);
    lemma_jsonc_safe(c);
    let b = bridge_members(c);
    let lm = launcher_member(c.bridge.launcher);
    let ms = jsonc_model(c);
    let a = ",\n"@;
    let m0 = member_text(b[0]);
    let m1 = member_text(b[1]);
    let m2 = member_text(b[2]);
    let ml = member_text(lm);
    reveal_with_fuel(members_text, 6);
    if c.channels.feishu.enabled {
        lemma_feishu_text(c.channels.feishu);
        let fm = feishu_member(c.channels.feishu);
        let mf = member_text(fm);
        assert(ms =~= seq![fm, b[0], b[1], b[2], lm]);
        assert(ms.drop_last() =~= seq![fm, b[0], b[1], b[2]]);
        assert(ms.drop_last().drop_last() =~= seq![fm, b[0], b[1]]);
        assert(ms.drop_last().drop_last().drop_last() =~= seq![fm, b[0]]);
        assert(ms.drop_last().drop_last().drop_last().drop_last() =~= seq![fm]);
        assert(members_text(ms) == mf + a + m0 + a + m1 + a + m2 + a + ml);
        lemma_object_text("{\n"@, mf + a, m0, m1, m2, ml, a, "\n"@, "}\n"@, "\n}\n"@);
        assert(mf + a + (m0 + a + m1 + a + m2 + a + ml) =~= mf + a + m0 + a + m1 + a + m2 + a + ml);
    } else {
        assert(ms =~= seq![b[0], b[1], b[2], lm]);
        assert(ms.drop_last() =~= seq![b[0], b[1], b[2]]);
        assert(ms.drop_last().drop_last() =~= seq![b[0], b[1]]);
        assert(ms.drop_last().drop_last().drop_last() =~= seq![b[0]]);
        assert(members_text(ms) == m0 + a + m1 + a + m2 + a + ml);
        lemma_object_text("{\n"@, Seq::empty(), m0, m1, m2, ml, a, "\n"@, "}\n"@, "\n}\n"@);
        assert(Seq::<char>::empty() + (m0 + a + m1 + a + m2 + a + ml) =~= m0 + a + m1 + a + m2 + a + ml);
        assert("{\n"@ + Seq::<char>::empty() =~= "{\n"@);
    }
}

} // verus!
