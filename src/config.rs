use vstd::prelude::*;
use vstd::string::StringExecFns;

use crate::{DEFAULT_REWRITE_MODEL, DEFAULT_REWRITE_PROMPT, DEFAULT_TRANSCRIBE_MODEL};

verus! {

#[verifier::external_type_specification]
#[verifier::external_body]
pub struct ExPathBuf(std::path::PathBuf);

#[verifier::external_type_specification]
#[verifier::external_body]
pub struct ExProjectDirs(directories::ProjectDirs);

/// Settings for the transcription and rewrite services.
pub struct AppConfig {
    pub openai_base_url: String,
    pub transcribe_model: String,
    pub rewrite_model: String,
    pub rewrite_prompt: String,
}

/// Why a configuration could not be loaded.
pub enum ConfigError {
    /// No per-user configuration directory could be determined.
    NoConfigDir,
    /// The file is not valid TOML; the parser's message.
    Syntax(String),
    /// A known setting holds something other than a string.
    NotAString(String),
}

pub open spec fn default_openai_base_url_text() -> Seq<char> {
    "https://api.openai.com"@
}

/// A configuration's four settings, in declaration order.
pub open spec fn config_view(c: AppConfig) -> (Seq<char>, Seq<char>, Seq<char>, Seq<char>) {
    (c.openai_base_url@, c.transcribe_model@, c.rewrite_model@, c.rewrite_prompt@)
}

pub open spec fn default_config_view() -> (Seq<char>, Seq<char>, Seq<char>, Seq<char>) {
    (
        default_openai_base_url_text(),
        DEFAULT_TRANSCRIBE_MODEL@,
        DEFAULT_REWRITE_MODEL@,
        DEFAULT_REWRITE_PROMPT@,
    )
}

pub fn default_openai_base_url() -> (r: String)
    ensures
        r@ == default_openai_base_url_text(),
{
    String::from_str("https://api.openai.com")
}

pub fn default_transcribe_model() -> (r: String)
    ensures
        r@ == DEFAULT_TRANSCRIBE_MODEL@,
{
    String::from_str(DEFAULT_TRANSCRIBE_MODEL)
}

pub fn default_rewrite_model() -> (r: String)
    ensures
        r@ == DEFAULT_REWRITE_MODEL@,
{
    String::from_str(DEFAULT_REWRITE_MODEL)
}

pub fn default_rewrite_prompt() -> (r: String)
    ensures
        r@ == DEFAULT_REWRITE_PROMPT@,
{
    String::from_str(DEFAULT_REWRITE_PROMPT)
}

impl Default for AppConfig {
    fn default() -> (r: Self)
        ensures
            config_view(r) == default_config_view(),
    {
        AppConfig {
            openai_base_url: default_openai_base_url(),
            transcribe_model: default_transcribe_model(),
            rewrite_model: default_rewrite_model(),
            rewrite_prompt: default_rewrite_prompt(),
        }
    }
}

/// One top-level entry of a TOML document: its key, and its value's text when
/// the value is a string.
pub struct TomlEntry {
    pub key: String,
    pub text: Option<String>,
}

pub open spec fn entry_view(e: TomlEntry) -> (Seq<char>, Option<Seq<char>>) {
    (
        e.key@,
        match e.text {
            Some(t) => Some(t@),
            None => None,
        },
    )
}

pub open spec fn entries_view(es: Seq<TomlEntry>) -> Seq<(Seq<char>, Option<Seq<char>>)> {
    es.map_values(|e: TomlEntry| entry_view(e))
}

/// The top-level entries of a TOML document, or `None` when it does not parse.
pub uninterp spec fn parsed_toml(text: Seq<char>) -> Option<Seq<(Seq<char>, Option<Seq<char>>)>>;

/// Relies on toml::from_str, read into a `toml::Table`: parses a document; the
/// result depends on the text alone. Each top-level entry is kept with its
/// string value, if it is a string.
#[verifier::external_body]
fn parse_toml_entries(text: &str) -> (r: Result<Vec<TomlEntry>, String>)
    ensures
        match r {
            Ok(es) => parsed_toml(text@) == Some(entries_view(es@)),
            Err(_) => parsed_toml(text@) is None,
        },
{
    match toml::from_str::<toml::Table>(text) {
        Ok(t) => Ok(
            t.into_iter().map(|(key, v)| TomlEntry { key, text: v.as_str().map(String::from) }).collect(),
        ),
        Err(e) => Err(e.to_string()),
    }
}

/// The value under `key` in the first entry that has it.
pub open spec fn lookup(
    es: Seq<(Seq<char>, Option<Seq<char>>)>,
    key: Seq<char>,
) -> Option<Option<Seq<char>>>
    decreases es.len(),
{
    if es.len() == 0 {
        None
    } else if es[0].0 == key {
        Some(es[0].1)
    } else {
        lookup(es.drop_first(), key)
    }
}

/// A setting's value: its string when present, the default when absent, and
/// `None` when present but not a string.
pub open spec fn setting(
    es: Seq<(Seq<char>, Option<Seq<char>>)>,
    key: Seq<char>,
    default: Seq<char>,
) -> Option<Seq<char>> {
    match lookup(es, key) {
        None => Some(default),
        Some(v) => v,
    }
}

/// Whether every known setting is absent or a string.
pub open spec fn settings_valid(es: Seq<(Seq<char>, Option<Seq<char>>)>) -> bool {
    &&& setting(es, "openai_base_url"@, default_openai_base_url_text()) is Some
    &&& setting(es, "transcribe_model"@, DEFAULT_TRANSCRIBE_MODEL@) is Some
    &&& setting(es, "rewrite_model"@, DEFAULT_REWRITE_MODEL@) is Some
    &&& setting(es, "rewrite_prompt"@, DEFAULT_REWRITE_PROMPT@) is Some
}

/// The configuration the entries describe, when they are valid.
pub open spec fn settings_of(es: Seq<(Seq<char>, Option<Seq<char>>)>) -> (
    Seq<char>,
    Seq<char>,
    Seq<char>,
    Seq<char>,
) {
    (
        setting(es, "openai_base_url"@, default_openai_base_url_text())->Some_0,
        setting(es, "transcribe_model"@, DEFAULT_TRANSCRIBE_MODEL@)->Some_0,
        setting(es, "rewrite_model"@, DEFAULT_REWRITE_MODEL@)->Some_0,
        setting(es, "rewrite_prompt"@, DEFAULT_REWRITE_PROMPT@)->Some_0,
    )
}

/// The first known setting, in declaration order, that is not a string.
pub open spec fn first_invalid_setting(es: Seq<(Seq<char>, Option<Seq<char>>)>) -> Seq<char> {
    if setting(es, "openai_base_url"@, default_openai_base_url_text()) is None {
        "openai_base_url"@
    } else if setting(es, "transcribe_model"@, DEFAULT_TRANSCRIBE_MODEL@) is None {
        "transcribe_model"@
    } else if setting(es, "rewrite_model"@, DEFAULT_REWRITE_MODEL@) is None {
        "rewrite_model"@
    } else {
        "rewrite_prompt"@
    }
}

fn lookup_entry(es: &Vec<TomlEntry>, key: &String) -> (r: Option<Option<String>>)
    ensures
        match r {
            None => lookup(entries_view(es@), key@) is None,
            Some(v) => lookup(entries_view(es@), key@) == Some(
                match v {
                    Some(t) => Some(t@),
                    None => None::<Seq<char>>,
                },
            ),
        },
{
    let mut i: usize = 0;
    assert(entries_view(es@).skip(0) =~= entries_view(es@));
    while i < es.len()
        invariant
            0 <= i <= es@.len(),
            lookup(entries_view(es@), key@) == lookup(entries_view(es@).skip(i as int), key@),
        decreases es@.len() - i,
    {
        let ghost rest = entries_view(es@).skip(i as int);
        assert(rest[0] == entry_view(es@[i as int]));
        if es[i].key == *key {
            return Some(es[i].text.clone());
        }
        assert(rest.drop_first() =~= entries_view(es@).skip(i + 1));
        i = i + 1;
    }
    assert(entries_view(es@).skip(i as int) =~= Seq::<(Seq<char>, Option<Seq<char>>)>::empty());
    None
}

fn setting_value(es: &Vec<TomlEntry>, key: &str, default: String) -> (r: Option<String>)
    ensures
        match r {
            Some(t) => setting(entries_view(es@), key@, default@) == Some(t@),
            None => setting(entries_view(es@), key@, default@) is None,
        },
{
    let k = String::from_str(key);
    match lookup_entry(es, &k) {
        None => Some(default),
        Some(v) => v,
    }
}

/// Builds a configuration from a document's top-level entries: each known
/// setting takes its string value, or its default when absent; a known
/// setting that is not a string is an error. Other entries are ignored.
pub fn config_from_entries(es: &Vec<TomlEntry>) -> (r: Result<AppConfig, ConfigError>)
    ensures
        r is Ok <==> settings_valid(entries_view(es@)),
        r is Ok ==> config_view(r->Ok_0) == settings_of(entries_view(es@)),
        r is Err ==> r->Err_0 is NotAString && r->Err_0->NotAString_0@ == first_invalid_setting(
            entries_view(es@),
        ),
{
    let base = setting_value(es, "openai_base_url", default_openai_base_url());
    let transcribe = setting_value(es, "transcribe_model", default_transcribe_model());
    let rewrite = setting_value(es, "rewrite_model", default_rewrite_model());
    let prompt = setting_value(es, "rewrite_prompt", default_rewrite_prompt());
    match (base, transcribe, rewrite, prompt) {
        (Some(b), Some(t), Some(m), Some(p)) => Ok(
            AppConfig { openai_base_url: b, transcribe_model: t, rewrite_model: m, rewrite_prompt: p },
        ),
        (None, _, _, _) => Err(ConfigError::NotAString(String::from_str("openai_base_url"))),
        (_, None, _, _) => Err(ConfigError::NotAString(String::from_str("transcribe_model"))),
        (_, _, None, _) => Err(ConfigError::NotAString(String::from_str("rewrite_model"))),
        (_, _, _, None) => Err(ConfigError::NotAString(String::from_str("rewrite_prompt"))),
    }
}

/// Parses a configuration file's text; absent settings take their defaults.
pub fn config_from_toml(text: &str) -> (r: Result<AppConfig, ConfigError>)
    ensures
        parsed_toml(text@) is None ==> r is Err && r->Err_0 is Syntax,
        parsed_toml(text@) is Some ==> (r is Ok <==> settings_valid(parsed_toml(text@)->Some_0)),
        r is Ok ==> config_view(r->Ok_0) == settings_of(parsed_toml(text@)->Some_0),
        parsed_toml(text@) is Some && r is Err ==> r->Err_0 is NotAString
            && r->Err_0->NotAString_0@ == first_invalid_setting(parsed_toml(text@)->Some_0),
{
    match parse_toml_entries(text) {
        Ok(es) => config_from_entries(&es),
        Err(msg) => Err(ConfigError::Syntax(msg)),
    }
}

/// Relies on directories::ProjectDirs::from: the per-user project directories,
/// or `None` when no home directory is known.
#[verifier::external_body]
fn project_dirs(qualifier: &str, organization: &str, application: &str) -> Option<
    directories::ProjectDirs,
> {
    directories::ProjectDirs::from(qualifier, organization, application)
}

/// Relies on directories::ProjectDirs::config_dir: the project's configuration directory.
#[verifier::external_body]
fn project_config_dir(dirs: &directories::ProjectDirs) -> std::path::PathBuf {
    dirs.config_dir().to_path_buf()
}

/// Relies on std::path::Path::join: `name` appended to `dir`.
#[verifier::external_body]
fn join_path(dir: &std::path::PathBuf, name: &str) -> std::path::PathBuf {
    dir.join(name)
}

/// The per-user configuration directory.
pub fn config_dir() -> (r: Result<std::path::PathBuf, ConfigError>)
    ensures
        r is Err ==> r->Err_0 is NoConfigDir,
{
    match project_dirs("dev", "yada", "yada-linux") {
        Some(dirs) => Ok(project_config_dir(&dirs)),
        None => Err(ConfigError::NoConfigDir),
    }
}

/// The configuration file's path: `config.toml` in the configuration directory.
pub fn config_path() -> (r: Result<std::path::PathBuf, ConfigError>)
    ensures
        r is Err ==> r->Err_0 is NoConfigDir,
{
    match config_dir() {
        Ok(dir) => Ok(join_path(&dir, "config.toml")),
        Err(e) => Err(e),
    }
}

/// Settles the configuration from the file at `path`: `contents` is its text,
/// or `None` when it could not be read, in which case the defaults apply.
pub fn load_or_default(path: std::path::PathBuf, contents: Option<String>) -> (r: Result<
    (std::path::PathBuf, AppConfig),
    ConfigError,
>)
    ensures
        match contents {
            None => r is Ok && r->Ok_0.0 == path && config_view(r->Ok_0.1) == default_config_view(),
            Some(text) => match parsed_toml(text@) {
                None => r is Err && r->Err_0 is Syntax,
                Some(es) => if settings_valid(es) {
                    r is Ok && r->Ok_0.0 == path && config_view(r->Ok_0.1) == settings_of(es)
                } else {
                    r is Err && r->Err_0 is NotAString && r->Err_0->NotAString_0@
                        == first_invalid_setting(es)
                },
            },
        },
{
    match contents {
        None => Ok((path, AppConfig::default())),
        Some(text) => match config_from_toml(text.as_str()) {
            Ok(cfg) => Ok((path, cfg)),
            Err(e) => Err(e),
        },
    }
}

} // verus!
