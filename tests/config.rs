use yada_core::config::{
    config_from_toml, config_path, default_openai_base_url, load_or_default, AppConfig,
    ConfigError,
};
use yada_core::{DEFAULT_REWRITE_MODEL, DEFAULT_REWRITE_PROMPT, DEFAULT_TRANSCRIBE_MODEL};

#[test]
fn defaults() {
    let c = AppConfig::default();
    assert_eq!(c.openai_base_url, "https://api.openai.com");
    assert_eq!(default_openai_base_url(), "https://api.openai.com");
    assert_eq!(c.transcribe_model, "gpt-4o-transcribe");
    assert_eq!(c.rewrite_model, "gpt-5-mini");
    assert_eq!(c.rewrite_prompt, DEFAULT_REWRITE_PROMPT);
    assert_eq!(DEFAULT_TRANSCRIBE_MODEL, "gpt-4o-transcribe");
    assert_eq!(DEFAULT_REWRITE_MODEL, "gpt-5-mini");
}

#[test]
fn absent_settings_take_defaults() {
    let c = config_from_toml("rewrite_model = \"m2\"\nother = 3\n").ok().unwrap();
    assert_eq!(c.rewrite_model, "m2");
    assert_eq!(c.openai_base_url, "https://api.openai.com");
    assert_eq!(c.transcribe_model, "gpt-4o-transcribe");
    assert_eq!(c.rewrite_prompt, DEFAULT_REWRITE_PROMPT);
}

#[test]
fn all_settings_read() {
    let text = "openai_base_url = \"http://localhost:8080/\"\ntranscribe_model = \"t\"\nrewrite_model = \"r\"\nrewrite_prompt = \"p\"\n";
    let c = config_from_toml(text).ok().unwrap();
    assert_eq!(c.openai_base_url, "http://localhost:8080/");
    assert_eq!(c.transcribe_model, "t");
    assert_eq!(c.rewrite_model, "r");
    assert_eq!(c.rewrite_prompt, "p");
}

#[test]
fn non_string_setting_is_an_error() {
    match config_from_toml("transcribe_model = 5\n") {
        Err(ConfigError::NotAString(k)) => assert_eq!(k, "transcribe_model"),
        _ => panic!("expected a type error"),
    }
}

#[test]
fn syntax_error() {
    assert!(matches!(config_from_toml("= broken"), Err(ConfigError::Syntax(_))));
}

#[test]
fn unreadable_file_gives_defaults() {
    let p = std::path::PathBuf::from("/nonexistent/config.toml");
    let (path, c) = load_or_default(p.clone(), None).ok().unwrap();
    assert_eq!(path, p);
    assert_eq!(c.rewrite_model, "gpt-5-mini");
    let (_, c2) = load_or_default(p.clone(), Some("rewrite_model = \"x\"".to_string())).ok().unwrap();
    assert_eq!(c2.rewrite_model, "x");
    assert!(load_or_default(p, Some("rewrite_model = [".to_string())).is_err());
}

#[test]
fn config_file_name() {
    if let Ok(p) = config_path() {
        assert!(p.ends_with("config.toml"));
    }
}
