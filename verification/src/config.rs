//! Configuration for the library, loaded from TOML text.
//!
//! The settings record holds the bot token (required, non-empty), optional
//! default chat and group identifiers, a logging flag (default `false`) and a
//! text-format mode (default `"HTML"`). The caller reads the configuration
//! file and hands its text to [`Config::from_toml_str`]; everything past the
//! TOML parse itself is verified against the parsed table's contents.

use vstd::prelude::*;
use vstd::string::*;

verus! {

/// Declares `toml::map::Map` (the type behind `toml::Table`) so that its
/// values can flow through verified signatures; the map stays opaque.
#[verifier::external_type_specification]
#[verifier::external_body]
#[verifier::reject_recursive_types(K)]
#[verifier::reject_recursive_types(V)]
pub struct ExTomlMap<K, V>(toml::map::Map<K, V>);

/// Declares `toml::Value` so that table entries can flow through verified
/// signatures; the value stays opaque.
#[verifier::external_type_specification]
#[verifier::external_body]
pub struct ExTomlValue(toml::Value);

/// Whether the table has an entry at `key`.
pub uninterp spec fn table_has_key(t: toml::Table, key: Seq<char>) -> bool;

/// The string content of the entry at `key`: `None` when the entry is absent
/// or is not a TOML string.
pub uninterp spec fn table_str_value(t: toml::Table, key: Seq<char>) -> Option<Seq<char>>;

/// The integer content of the entry at `key`: `None` when the entry is absent
/// or is not a TOML integer.
pub uninterp spec fn table_int_value(t: toml::Table, key: Seq<char>) -> Option<i64>;

/// The boolean content of the entry at `key`: `None` when the entry is absent
/// or is not a TOML boolean.
pub uninterp spec fn table_bool_value(t: toml::Table, key: Seq<char>) -> Option<bool>;

/// What parsing `s` as a TOML document yields: the table, or `None` when the
/// text is not valid TOML. The result depends on the text alone.
pub uninterp spec fn toml_table_of(s: Seq<char>) -> Option<toml::Table>;

/// Relies on `<toml::Table as FromStr>::from_str`: parses the text as a TOML
/// document, `None` when the text is not valid TOML.
#[verifier::external_body]
fn parse_toml_table(s: &str) -> (r: Option<toml::Table>)
    ensures
        r == toml_table_of(s@),
{
    s.parse::<toml::Table>().ok()
}

/// Relies on `toml::map::Map::contains_key`.
#[verifier::external_body]
fn table_contains(t: &toml::Table, key: &str) -> (r: bool)
    ensures
        r == table_has_key(*t, key@),
{
    t.contains_key(key)
}

/// Relies on `toml::map::Map::get` and `toml::Value::as_str`: the entry at
/// `key` as a string, `None` when it is absent or not a string.
#[verifier::external_body]
fn table_get_str(t: &toml::Table, key: &str) -> (r: Option<String>)
    ensures
        r.deep_view() == table_str_value(*t, key@),
        !table_has_key(*t, key@) ==> r is None,
{
    match t.get(key) {
        Some(v) => v.as_str().map(|s| s.to_owned()),
        None => None,
    }
}

/// Relies on `toml::map::Map::get` and `toml::Value::as_integer`: the entry at
/// `key` as an integer, `None` when it is absent or not an integer.
#[verifier::external_body]
fn table_get_int(t: &toml::Table, key: &str) -> (r: Option<i64>)
    ensures
        r == table_int_value(*t, key@),
        !table_has_key(*t, key@) ==> r is None,
{
    match t.get(key) {
        Some(v) => v.as_integer(),
        None => None,
    }
}

/// Relies on `toml::map::Map::get` and `toml::Value::as_bool`: the entry at
/// `key` as a boolean, `None` when it is absent or not a boolean.
#[verifier::external_body]
fn table_get_bool(t: &toml::Table, key: &str) -> (r: Option<bool>)
    ensures
        r == table_bool_value(*t, key@),
        !table_has_key(*t, key@) ==> r is None,
{
    match t.get(key) {
        Some(v) => v.as_bool(),
        None => None,
    }
}

/// Why a configuration could not be built.
#[derive(Clone, Copy, Debug, PartialEq, Eq, Structural)]
pub enum ConfigError {
    /// The text is not a valid TOML document.
    Malformed,
    /// The required `token` entry is absent.
    MissingToken,
    /// The `token` entry is the empty string.
    EmptyToken,
    /// An entry is present but has the wrong type.
    InvalidField,
}

/// A present entry at `key` holds a string (an absent entry is fine).
pub open spec fn str_field_ok(t: toml::Table, key: Seq<char>) -> bool {
    table_has_key(t, key) ==> table_str_value(t, key) is Some
}

/// A present entry at `key` holds an integer (an absent entry is fine).
pub open spec fn int_field_ok(t: toml::Table, key: Seq<char>) -> bool {
    table_has_key(t, key) ==> table_int_value(t, key) is Some
}

/// A present entry at `key` holds a boolean (an absent entry is fine).
pub open spec fn bool_field_ok(t: toml::Table, key: Seq<char>) -> bool {
    table_has_key(t, key) ==> table_bool_value(t, key) is Some
}

/// The first configuration fault of the table, in the order the fields are
/// checked, or `None` when the table yields a configuration.
pub open spec fn table_error(t: toml::Table) -> Option<ConfigError> {
    if !table_has_key(t, "token"@) {
        Some(ConfigError::MissingToken)
    } else {
        match table_str_value(t, "token"@) {
            None => Some(ConfigError::InvalidField),
            Some(tok) => if tok.len() == 0 {
                Some(ConfigError::EmptyToken)
            } else if !int_field_ok(t, "chat_id"@) || !int_field_ok(t, "group_id"@)
                || !bool_field_ok(t, "show_logs"@) || !str_field_ok(t, "parse_mode"@) {
                Some(ConfigError::InvalidField)
            } else {
                None
            },
        }
    }
}

/// The configuration record, read once and never mutated afterwards.
#[derive(Debug)]
pub struct Config {
    /// The bot token (secret, required, non-empty).
    pub token: String,
    /// Optional default chat id, used when a target names only a topic.
    pub chat_id: Option<i64>,
    /// Whether the application layer should log send outcomes.
    pub show_logs: bool,
    /// Optional text-format mode; `"HTML"` is used when absent.
    pub parse_mode: Option<String>,
    /// Optional default group id, used by group sends.
    pub group_id: Option<i64>,
}

impl Config {
    /// A usable configuration carries a non-empty token.
    pub open spec fn wf(self) -> bool {
        self.token@.len() > 0
    }

    /// The format mode that requests carry: the configured one, or `"HTML"`.
    pub open spec fn spec_parse_mode(self) -> Seq<char> {
        match self.parse_mode {
            Some(m) => m@,
            None => "HTML"@,
        }
    }

    /// Returns a snapshot copy of this configuration.
    pub fn get(&self) -> (c: Config)
        ensures
            c == *self,
    {
        Config {
            token: self.token.clone(),
            chat_id: self.chat_id,
            show_logs: self.show_logs,
            parse_mode: match &self.parse_mode {
                Some(m) => Some(m.clone()),
                None => None,
            },
            group_id: self.group_id,
        }
    }

    /// The format mode that requests carry: the configured one, or `"HTML"`.
    pub fn effective_parse_mode(&self) -> (r: String)
        ensures
            r@ == self.spec_parse_mode(),
    {
        match &self.parse_mode {
            Some(m) => m.clone(),
            None => "HTML".to_owned(),
        }
    }

    /// Builds the configuration from a parsed TOML table: the token is
    /// required and non-empty, every other field is optional with its
    /// documented default, and a present field of the wrong type is refused.
    pub fn from_table(t: &toml::Table) -> (r: Result<Config, ConfigError>)
        ensures
            (match r {
                Ok(c) => table_error(*t) is None && c.wf() && Some(c.token@) == table_str_value(
                    *t,
                    "token"@,
                ) && c.chat_id == table_int_value(*t, "chat_id"@) && c.group_id == table_int_value(
                    *t,
                    "group_id"@,
                ) && c.show_logs == (match table_bool_value(*t, "show_logs"@) {
                    Some(b) => b,
                    None => false,
                }) && c.parse_mode.deep_view() == table_str_value(*t, "parse_mode"@),
                Err(e) => table_error(*t) == Some(e),
            }),
    {
        if !table_contains(t, "token") {
            return Err(ConfigError::MissingToken);
        }
        let token = match table_get_str(t, "token") {
            Some(s) => s,
            None => {
                return Err(ConfigError::InvalidField);
            },
        };
        if token.as_str().is_empty() {
            return Err(ConfigError::EmptyToken);
        }
        let chat_id = match table_get_int(t, "chat_id") {
            Some(v) => Some(v),
            None => {
                if table_contains(t, "chat_id") {
                    return Err(ConfigError::InvalidField);
                }
                None
            },
        };
        let group_id = match table_get_int(t, "group_id") {
            Some(v) => Some(v),
            None => {
                if table_contains(t, "group_id") {
                    return Err(ConfigError::InvalidField);
                }
                None
            },
        };
        let show_logs = match table_get_bool(t, "show_logs") {
            Some(b) => b,
            None => {
                if table_contains(t, "show_logs") {
                    return Err(ConfigError::InvalidField);
                }
                false
            },
        };
        let parse_mode = match table_get_str(t, "parse_mode") {
            Some(m) => Some(m),
            None => {
                if table_contains(t, "parse_mode") {
                    return Err(ConfigError::InvalidField);
                }
                None
            },
        };
        Ok(Config { token, chat_id, show_logs, parse_mode, group_id })
    }

    /// Builds the configuration from TOML text: text that is not valid TOML
    /// is `Malformed`, and a parsed table yields exactly what
    /// [`Config::from_table`] yields on it — the required non-empty token,
    /// the optional fields with their documented defaults, and each error on
    /// exactly the tables that earn it.
    pub fn from_toml_str(s: &str) -> (r: Result<Config, ConfigError>)
        ensures
            (match toml_table_of(s@) {
                None => r == Err::<Config, ConfigError>(ConfigError::Malformed),
                Some(t) => match r {
                    Ok(c) => table_error(t) is None && c.wf() && Some(c.token@)
                        == table_str_value(t, "token"@) && c.chat_id == table_int_value(
                        t,
                        "chat_id"@,
                    ) && c.group_id == table_int_value(t, "group_id"@) && c.show_logs == (
                    match table_bool_value(t, "show_logs"@) {
                        Some(b) => b,
                        None => false,
                    }) && c.parse_mode.deep_view() == table_str_value(t, "parse_mode"@),
                    Err(e) => table_error(t) == Some(e),
                },
            }),
    {
        match parse_toml_table(s) {
            Some(t) => Config::from_table(&t),
            None => Err(ConfigError::Malformed),
        }
    }
}

} // verus!
