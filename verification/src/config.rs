//! The program's launch arguments and its JSON configuration, read into the
//! settings of a server or a client.
use vstd::prelude::*;
use crate::text::{remove_char, without_char, lemma_without_char_absent};
use serde_json::Value;

verus! {

broadcast use vstd::string::group_string_axioms;

/// Printed when fewer than three paths are given.
pub const USAGE: &'static str = "Usage: minilink <cfg_path> <der_path> <pkcs12_path>";

/// The three paths given on the command line.
pub struct LaunchPaths {
    /// The JSON configuration file.
    pub config: String,
    /// The DER certificate of the server's CA.
    pub certificate: String,
    /// The PKCS #12 identity of this end.
    pub identity: String,
}

/// The paths given on the command line `args` (program name first), or
/// `None` where fewer than three follow the program name.
pub fn launch_paths(args: &Vec<String>) -> (r: Option<LaunchPaths>)
    ensures
        args@.len() < 4 <==> r is None,
        r matches Some(p) ==> p.config@ == args@[1]@ && p.certificate@ == args@[2]@
            && p.identity@ == args@[3]@,
{
    if args.len() < 4 {
        None
    } else {
        Some(
            LaunchPaths {
                config: args[1].clone(),
                certificate: args[2].clone(),
                identity: args[3].clone(),
            },
        )
    }
}

/// The fields of the configuration as the JSON reader hands them over:
/// `Some` text where the field is a JSON string (or `Some` flag where it is
/// a JSON boolean), and the JSON rendering of the field where the settings
/// take it whatever it holds.
pub struct RawConfig {
    /// `mode`, where it is a string.
    pub mode: Option<String>,
    /// The rendering of `address`.
    pub address: String,
    /// The renderings of the elements of `blocked_addresses`, where it is an array.
    pub blocked_addresses: Option<Vec<String>>,
    /// The rendering of `logfile_path`.
    pub logfile_path: String,
    /// `log`, where it is a boolean.
    pub log: Option<bool>,
    /// The rendering of `domain`.
    pub domain: String,
    /// `password`, where it is a string.
    pub password: Option<String>,
    /// The rendering of `entry_message`.
    pub entry_message: String,
    /// The rendering of `user_db_path`.
    pub user_db_path: String,
    /// `is_radio`, where it is a boolean.
    pub is_radio: Option<bool>,
}

/// Whether `serde_json::from_str::<Value>` accepts `text`.
pub uninterp spec fn json_valid(text: Seq<char>) -> bool;

/// What `as_str` gives for the field `key` of the JSON document `text`.
pub uninterp spec fn json_str_field(text: Seq<char>, key: Seq<char>) -> Option<Seq<char>>;

/// What `as_bool` gives for the field `key` of the JSON document `text`.
pub uninterp spec fn json_bool_field(text: Seq<char>, key: Seq<char>) -> Option<bool>;

/// The JSON rendering (`to_string`) of the field `key` of the JSON document
/// `text` (`null` where the field is absent).
pub uninterp spec fn json_field_rendering(text: Seq<char>, key: Seq<char>) -> Seq<char>;

/// The JSON renderings of the elements of the field `key` of the JSON
/// document `text`, where that field is an array.
pub uninterp spec fn json_array_renderings(text: Seq<char>, key: Seq<char>) -> Option<Seq<Seq<char>>>;

/// Calls `serde_json::from_str::<Value>` on `text` and reports whether it
/// succeeded.
#[verifier::external_body]
fn json_parses(text: &str) -> (r: bool)
    ensures
        r == json_valid(text@),
{
    serde_json::from_str::<Value>(text).is_ok()
}

/// Parses `text` with `serde_json::from_str::<Value>` and calls `as_str` on
/// its field `key`.
#[verifier::external_body]
fn json_str(text: &str, key: &str) -> (r: Option<String>)
    requires
        json_valid(text@),
    ensures
        match r {
            Some(s) => json_str_field(text@, key@) == Some(s@),
            None => json_str_field(text@, key@) is None,
        },
{
    let v: Value = serde_json::from_str(text).unwrap();
    v[key].as_str().map(|s| s.to_string())
}

/// Parses `text` with `serde_json::from_str::<Value>` and calls `as_bool`
/// on its field `key`.
#[verifier::external_body]
fn json_bool(text: &str, key: &str) -> (r: Option<bool>)
    requires
        json_valid(text@),
    ensures
        r == json_bool_field(text@, key@),
{
    let v: Value = serde_json::from_str(text).unwrap();
    v[key].as_bool()
}

/// Parses `text` with `serde_json::from_str::<Value>` and renders its field
/// `key` with `to_string`.
#[verifier::external_body]
fn json_rendering(text: &str, key: &str) -> (r: String)
    requires
        json_valid(text@),
    ensures
        r@ == json_field_rendering(text@, key@),
{
    let v: Value = serde_json::from_str(text).unwrap();
    v[key].to_string()
}

/// Parses `text` with `serde_json::from_str::<Value>` and renders each
/// element of its field `key` with `to_string`, where that field is an
/// array (`as_array`).
#[verifier::external_body]
fn json_array(text: &str, key: &str) -> (r: Option<Vec<String>>)
    requires
        json_valid(text@),
    ensures
        match r {
            Some(v) => json_array_renderings(text@, key@) == Some(v@.map_values(|s: String| s@)),
            None => json_array_renderings(text@, key@) is None,
        },
{
    let v: Value = serde_json::from_str(text).unwrap();
    v[key].as_array().map(|items| items.iter().map(|item| item.to_string()).collect())
}

/// Why the configuration could not be read.
#[derive(Debug, PartialEq, Eq)]
pub enum ConfigError {
    /// The text is not a JSON document.
    InvalidJson,
}

/// The configuration fields of the JSON document `text`.
pub fn raw_config_of(text: &str) -> (r: Result<RawConfig, ConfigError>)
    ensures
        r is Err <==> !json_valid(text@),
        r matches Ok(c) ==> raw_config_matches(c, text@),
{
    if !json_parses(text) {
        return Err(ConfigError::InvalidJson);
    }
    let mode = json_str(text, "mode");
    let address = json_rendering(text, "address");
    let blocked_addresses = json_array(text, "blocked_addresses");
    let logfile_path = json_rendering(text, "logfile_path");
    let log = json_bool(text, "log");
    let domain = json_rendering(text, "domain");
    let password = json_str(text, "password");
    let entry_message = json_rendering(text, "entry_message");
    let user_db_path = json_rendering(text, "user_db_path");
    let is_radio = json_bool(text, "is_radio");
    Ok(
        RawConfig {
            mode,
            address,
            blocked_addresses,
            logfile_path,
            log,
            domain,
            password,
            entry_message,
            user_db_path,
            is_radio,
        },
    )
}

/// The view of an optional string.
pub open spec fn opt_string_view(s: Option<String>) -> Option<Seq<char>> {
    match s {
        Some(t) => Some(t@),
        None => None,
    }
}

/// The views of an optional list of strings.
pub open spec fn opt_strings_view(v: Option<Vec<String>>) -> Option<Seq<Seq<char>>> {
    match v {
        Some(items) => Some(items@.map_values(|s: String| s@)),
        None => None,
    }
}

/// `raw` holds the fields of the JSON document `text`, each read as the
/// settings read it.
pub open spec fn raw_config_matches(raw: RawConfig, text: Seq<char>) -> bool {
    &&& opt_string_view(raw.mode) == json_str_field(text, "mode"@)
    &&& raw.address@ == json_field_rendering(text, "address"@)
    &&& opt_strings_view(raw.blocked_addresses) == json_array_renderings(text, "blocked_addresses"@)
    &&& raw.logfile_path@ == json_field_rendering(text, "logfile_path"@)
    &&& raw.log == json_bool_field(text, "log"@)
    &&& raw.domain@ == json_field_rendering(text, "domain"@)
    &&& opt_string_view(raw.password) == json_str_field(text, "password"@)
    &&& raw.entry_message@ == json_field_rendering(text, "entry_message"@)
    &&& raw.user_db_path@ == json_field_rendering(text, "user_db_path"@)
    &&& raw.is_radio == json_bool_field(text, "is_radio"@)
}

/// Which end of the link this process is.
#[derive(Debug, Clone, Copy, PartialEq, Eq, Structural)]
pub enum Role {
    Server,
    Client,
}

/// The settings that the server or the client starts with.
pub struct Settings {
    pub role: Role,
    pub address: String,
    pub blocked_addresses: Vec<String>,
    pub logfile_path: String,
    pub log: bool,
    pub domain: String,
    pub password: String,
    pub entry_message: String,
    pub user_db_path: String,
    pub is_radio: bool,
}

/// The role that a configured `mode` selects: the server for `"server"`,
/// the client for anything else or nothing.
pub open spec fn role_of(mode: Option<Seq<char>>) -> Role {
    if mode == Some("server"@) {
        Role::Server
    } else {
        Role::Client
    }
}

/// A rendered field with its double quotes removed.
pub open spec fn unquoted(s: Seq<char>) -> Seq<char> {
    without_char(s, '"')
}

/// The settings that the configuration `raw` gives.
pub fn settings_from(raw: RawConfig) -> (s: Settings)
    ensures
        s.role == role_of(opt_string_view(raw.mode)),
        s.address@ == unquoted(raw.address@),
        s.blocked_addresses@ == (match raw.blocked_addresses {
            Some(v) => v@,
            None => Seq::empty(),
        }),
        s.logfile_path@ == unquoted(raw.logfile_path@),
        s.log == (match raw.log {
            Some(b) => b,
            None => true,
        }),
        s.domain@ == unquoted(raw.domain@),
        s.password@ == (match raw.password {
            Some(p) => p@,
            None => Seq::empty(),
        }),
        s.entry_message == raw.entry_message,
        s.user_db_path@ == unquoted(raw.user_db_path@),
        s.is_radio == (match raw.is_radio {
            Some(b) => b,
            None => false,
        }),
{
    let role = match &raw.mode {
        Some(m) => if *m == String::from_str("server") {
            Role::Server
        } else {
            Role::Client
        },
        None => Role::Client,
    };
    let blocked_addresses = match raw.blocked_addresses {
        Some(v) => v,
        None => Vec::new(),
    };
    let log = match raw.log {
        Some(b) => b,
        None => true,
    };
    let password = match raw.password {
        Some(p) => p,
        None => String::new(),
    };
    let is_radio = match raw.is_radio {
        Some(b) => b,
        None => false,
    };
    Settings {
        role,
        address: remove_char(raw.address.as_str(), '"'),
        blocked_addresses,
        logfile_path: remove_char(raw.logfile_path.as_str(), '"'),
        log,
        domain: remove_char(raw.domain.as_str(), '"'),
        password,
        entry_message: raw.entry_message,
        user_db_path: remove_char(raw.user_db_path.as_str(), '"'),
        is_radio,
    }
}

/// No double quote is left in an unquoted field.
pub proof fn lemma_unquoted_has_no_quote(s: Seq<char>)
    ensures
        !unquoted(s).contains('"'),
{
    lemma_without_char_absent(s, '"');
}

/// `s` holds the settings that the JSON document `text` gives.
pub open spec fn settings_match(s: Settings, text: Seq<char>) -> bool {
    &&& s.role == role_of(json_str_field(text, "mode"@))
    &&& s.address@ == unquoted(json_field_rendering(text, "address"@))
    &&& s.blocked_addresses@.map_values(|a: String| a@) == (match json_array_renderings(
        text,
        "blocked_addresses"@,
    ) {
        Some(v) => v,
        None => Seq::empty(),
    })
    &&& s.logfile_path@ == unquoted(json_field_rendering(text, "logfile_path"@))
    &&& s.log == (match json_bool_field(text, "log"@) {
        Some(b) => b,
        None => true,
    })
    &&& s.domain@ == unquoted(json_field_rendering(text, "domain"@))
    &&& s.password@ == (match json_str_field(text, "password"@) {
        Some(p) => p,
        None => Seq::empty(),
    })
    &&& s.entry_message@ == json_field_rendering(text, "entry_message"@)
    &&& s.user_db_path@ == unquoted(json_field_rendering(text, "user_db_path"@))
    &&& s.is_radio == (match json_bool_field(text, "is_radio"@) {
        Some(b) => b,
        None => false,
    })
}

/// The settings that the JSON document `text` gives, or `InvalidJson` where
/// `text` is not a JSON document.
pub fn load_settings(text: &str) -> (r: Result<Settings, ConfigError>)
    ensures
        r is Err <==> !json_valid(text@),
        r matches Ok(s) ==> settings_match(s, text@),
{
    match raw_config_of(text) {
        Err(e) => Err(e),
        Ok(raw) => {
            let ghost blocked = raw.blocked_addresses;
            let s = settings_from(raw);
            proof {
                match blocked {
                    Some(v) => {},
                    None => {
                        assert(s.blocked_addresses@.map_values(|a: String| a@) =~= Seq::empty());
                    },
                }
            }
            Ok(s)
        },
    }
}

} // verus!
