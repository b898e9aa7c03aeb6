use telemon::config::{Config, ConfigError};

#[test]
fn load_minimal_config_uses_defaults() {
    let cfg = Config::from_toml_str("token = \"abc\"").unwrap();
    assert_eq!(cfg.token, "abc");
    assert_eq!(cfg.chat_id, None);
    assert_eq!(cfg.group_id, None);
    assert!(!cfg.show_logs);
    assert_eq!(cfg.parse_mode, None);
    assert_eq!(cfg.effective_parse_mode(), "HTML");
}

#[test]
fn load_full_config_exposes_every_field() {
    let text = "token = \"t-1\"\nchat_id = 123\ngroup_id = -5\nshow_logs = true\nparse_mode = \"MarkdownV2\"\n";
    let cfg = Config::from_toml_str(text).unwrap();
    assert_eq!(cfg.token, "t-1");
    assert_eq!(cfg.chat_id, Some(123));
    assert_eq!(cfg.group_id, Some(-5));
    assert!(cfg.show_logs);
    assert_eq!(cfg.parse_mode, Some("MarkdownV2".to_string()));
    assert_eq!(cfg.effective_parse_mode(), "MarkdownV2");
}

#[test]
fn load_without_token_fails() {
    assert_eq!(Config::from_toml_str("chat_id = 5").unwrap_err(), ConfigError::MissingToken);
    assert_eq!(Config::from_toml_str("").unwrap_err(), ConfigError::MissingToken);
}

#[test]
fn load_empty_token_fails() {
    assert_eq!(Config::from_toml_str("token = \"\"").unwrap_err(), ConfigError::EmptyToken);
}

#[test]
fn load_invalid_toml_fails() {
    assert_eq!(Config::from_toml_str("token = ").unwrap_err(), ConfigError::Malformed);
    assert_eq!(Config::from_toml_str("= nonsense =").unwrap_err(), ConfigError::Malformed);
}

#[test]
fn load_wrongly_typed_fields_fail() {
    assert_eq!(Config::from_toml_str("token = 5").unwrap_err(), ConfigError::InvalidField);
    assert_eq!(
        Config::from_toml_str("token = \"t\"\nchat_id = \"not a number\"").unwrap_err(),
        ConfigError::InvalidField
    );
    assert_eq!(
        Config::from_toml_str("token = \"t\"\ngroup_id = \"x\"").unwrap_err(),
        ConfigError::InvalidField
    );
    assert_eq!(
        Config::from_toml_str("token = \"t\"\nshow_logs = \"yes\"").unwrap_err(),
        ConfigError::InvalidField
    );
    assert_eq!(
        Config::from_toml_str("token = \"t\"\nparse_mode = 3").unwrap_err(),
        ConfigError::InvalidField
    );
}

#[test]
fn from_table_reads_a_parsed_table() {
    let table: toml::Table = "token = \"tok\"\nchat_id = 7".parse().unwrap();
    let cfg = Config::from_table(&table).unwrap();
    assert_eq!(cfg.token, "tok");
    assert_eq!(cfg.chat_id, Some(7));
    let missing: toml::Table = "group_id = 1".parse().unwrap();
    assert_eq!(Config::from_table(&missing).unwrap_err(), ConfigError::MissingToken);
}

#[test]
fn token_text_comes_from_the_parser_not_the_input() {
    let cfg = Config::from_toml_str("token = \"a\\\"b\"").unwrap();
    assert_eq!(cfg.token, "a\"b");
}

#[test]
fn get_returns_an_equal_snapshot() {
    let cfg = Config::from_toml_str("token = \"abc\"\nchat_id = 1\nparse_mode = \"HTML\"").unwrap();
    let snap = cfg.get();
    assert_eq!(snap.token, cfg.token);
    assert_eq!(snap.chat_id, cfg.chat_id);
    assert_eq!(snap.group_id, cfg.group_id);
    assert_eq!(snap.show_logs, cfg.show_logs);
    assert_eq!(snap.parse_mode, cfg.parse_mode);
}
