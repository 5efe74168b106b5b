//! Where opencode's own configuration file is, and how it is read and
//! written: as a JSON value, so that fields this application does not know
//! survive a save.
use vstd::prelude::*;
use crate::error::{AppError, AppErrorView};
use crate::paths::{
    config_dir, config_dir_reported, dir_or_dot, exists_reported, opt_dir, path_exists, path_join,
    path_join_spec,
};

verus! {

/// opencode's configuration directory.
pub struct OpencodeConfigStore {
    config_dir: String,
}

/// The file to use: `opencode.json` when it exists, else `opencode.jsonc`
/// when that exists, else `opencode.json`.
pub open spec fn config_file_spec(dir: Seq<char>, json_exists: bool, jsonc_exists: bool) -> Seq<char> {
    if !json_exists && jsonc_exists {
        path_join_spec(dir, "opencode.jsonc"@)
    } else {
        path_join_spec(dir, "opencode.json"@)
    }
}

impl OpencodeConfigStore {
    /// The configuration directory.
    pub closed spec fn dir_spec(&self) -> Seq<char> {
        self.config_dir@
    }

    /// The store in `opencode` under `base` (the user's configuration
    /// directory, or `.` when there is none).
    pub fn with_base(base: Option<String>) -> (r: Self)
        ensures
            r.dir_spec() == path_join_spec(
                match base {
                    Some(b) => b@,
                    None => "."@,
                },
                "opencode"@,
            ),
    {
        let base = match base {
            Some(b) => b,
            None => String::from_str("."),
        };
        OpencodeConfigStore { config_dir: path_join(base.as_str(), "opencode") }
    }

    /// A store in `dir`.
    pub fn at(dir: String) -> (r: Self)
        ensures
            r.dir_spec() == dir@,
    {
        OpencodeConfigStore { config_dir: dir }
    }

    /// The store in the user's configuration directory.
    pub fn new() -> (r: Self)
        ensures
            exists|base: Option<Seq<char>>|
                #[trigger] config_dir_reported(base) && r.dir_spec() == path_join_spec(
                    dir_or_dot(base),
                    "opencode"@,
                ),
    {
        let base = config_dir();
        let r = Self::with_base(base);
        assert(config_dir_reported(opt_dir(base)) && r.dir_spec() == path_join_spec(
            dir_or_dot(opt_dir(base)),
            "opencode"@,
        ));
        r
    }

    /// The configuration directory.
    pub fn config_dir(&self) -> (r: &str)
        ensures
            r@ == self.dir_spec(),
    {
        self.config_dir.as_str()
    }

    /// The file to use, given which of the two candidates exist.
    pub fn choose_config_path(&self, json_exists: bool, jsonc_exists: bool) -> (r: String)
        ensures
            r@ == config_file_spec(self.dir_spec(), json_exists, jsonc_exists),
    {
        if !json_exists && jsonc_exists {
            path_join(self.config_dir.as_str(), "opencode.jsonc")
        } else {
            path_join(self.config_dir.as_str(), "opencode.json")
        }
    }

    /// The configuration file: `opencode.json` when present, else
    /// `opencode.jsonc` when present, else `opencode.json`.
    pub fn config_path(&self) -> (r: String)
        ensures
            exists|a: bool, b: bool|
                #![trigger config_file_spec(self.dir_spec(), a, b)]
                {
                    &&& r@ == config_file_spec(self.dir_spec(), a, b)
                    &&& exists_reported(path_join_spec(self.dir_spec(), "opencode.json"@), a)
                    &&& !a ==> exists_reported(path_join_spec(self.dir_spec(), "opencode.jsonc"@), b)
                },
    {
        let json = path_join(self.config_dir.as_str(), "opencode.json");
        let json_exists = path_exists(json.as_str());
        let jsonc_exists = if json_exists {
            false
        } else {
            let jsonc = path_join(self.config_dir.as_str(), "opencode.jsonc");
            path_exists(jsonc.as_str())
        };
        let r = self.choose_config_path(json_exists, jsonc_exists);
        assert(r@ == config_file_spec(self.dir_spec(), json_exists, jsonc_exists));
        r
    }
}

#[verifier::external_type_specification]
#[verifier::external_body]
pub struct ExJsonValue(serde_json::Value);

/// Whether `text` is one JSON document (what `serde_json::from_str` accepts
/// as a `serde_json::Value`). It is a function of the text alone.
pub uninterp spec fn json_parses(text: Seq<char>) -> bool;

/// The JSON value `text` reads as (`serde_json::from_str::<serde_json::Value>`),
/// for a text that is JSON. It is a function of the text alone.
pub uninterp spec fn json_value_of(text: Seq<char>) -> serde_json::Value;

/// The text `serde_json::to_string_pretty` writes for `v`: indented by two
/// spaces, fields in the value's own order. It is a function of the value
/// alone.
pub uninterp spec fn pretty_text_of(v: serde_json::Value) -> Seq<char>;

/// Parses `text` as a JSON value (`serde_json::from_str::<serde_json::Value>`):
/// a value exactly when the text is JSON, and then the value the text reads as.
#[verifier::external_body]
fn parse_json_value(text: &str) -> (r: Option<serde_json::Value>)
    ensures
        r is Some <==> json_parses(text@),
        r matches Some(v) ==> v == json_value_of(text@),
{
    serde_json::from_str::<serde_json::Value>(text).ok()
}

/// The text of `v` as indented JSON (`serde_json::to_string_pretty`), or the
/// text of its error. Writing a `Value` cannot fail: its map keys are text
/// and the writer is a vector in memory, so the text always comes back.
#[verifier::external_body]
fn pretty_json(v: &serde_json::Value) -> (r: Result<String, String>)
    ensures
        r is Ok,
        r matches Ok(t) ==> t@ == pretty_text_of(*v),
{
    match serde_json::to_string_pretty(v) {
        Ok(t) => Ok(t),
        Err(e) => Err(e.to_string()),
    }
}

/// What loading opencode's configuration comes to.
#[derive(Debug)]
pub enum OpencodeLoad {
    /// The file held this JSON value.
    Parsed(serde_json::Value),
    /// There is no file: the configuration is the empty object.
    Empty,
    /// The file is not JSON: move it aside; the configuration is the empty object.
    BackUpThenEmpty,
}

/// Decides what the file's `content` (`None`: there is no file) comes to:
/// its value when it is JSON, else a backup and the empty object.
pub fn decide_opencode_load(content: Option<&str>) -> (r: OpencodeLoad)
    ensures
        content is None ==> r is Empty,
        content matches Some(c) ==> ((json_parses(c@) <==> r is Parsed) && (!json_parses(c@)
            <==> r is BackUpThenEmpty)),
        r matches OpencodeLoad::Parsed(v) ==> (content matches Some(c) && v == json_value_of(c@)),
{
    match content {
        None => OpencodeLoad::Empty,
        Some(c) => match parse_json_value(c) {
            Some(v) => OpencodeLoad::Parsed(v),
            None => OpencodeLoad::BackUpThenEmpty,
        },
    }
}

/// The result of rendering the configuration, given what the JSON writer
/// gave: its text, or a configuration error with the writer's message.
pub fn json_text_or_error(written: Result<String, String>) -> (r: Result<String, AppError>)
    ensures
        match written {
            Ok(t) => r matches Ok(u) && u@ == t@,
            Err(m) => r matches Err(e) && e@ == AppErrorView::Config(m@),
        },
{
    match written {
        Ok(t) => Ok(t),
        Err(m) => Err(AppError::Config(m)),
    }
}

/// The text to save opencode's configuration `v` as: `v` written as
/// indented JSON, every field of it included.
pub fn opencode_config_text(v: &serde_json::Value) -> (r: Result<String, AppError>)
    ensures
        r matches Ok(t) && t@ == pretty_text_of(*v),
{
    json_text_or_error(pretty_json(v))
}

} // verus!
