//! Process configuration, from the raw values of its variables.
//!
//! Reading the environment is the caller's part; this module decides what
//! the values mean: which are required, which fall back to a default, and
//! which count as absent when empty.

use vstd::prelude::*;
use crate::text::eq_ignore_ascii_case;

verus! {

/// The embedding model used when none is configured.
pub const DEFAULT_EMBEDDING_MODEL: &'static str = "text-embedding-3-large";

/// What the gateway needs to reach the row store and the embedding provider.
#[derive(Debug, Clone)]
pub struct AppConfig {
    pub supabase_url: String,
    pub supabase_service_key: String,
    pub openai_api_key: String,
    pub openai_base_url: Option<String>,
    pub embedding_model: String,
    pub log_level: LogLevel,
}

/// How much the process logs.
#[derive(Debug, Clone, Copy, PartialEq, Eq, Structural)]
pub enum LogLevel {
    Error,
    Warn,
    Info,
    Debug,
    Trace,
}

/// The number that `tracing` gives a level written as text: 1 for error up
/// to 5 for trace, 0 when the text names no level.
pub uninterp spec fn level_code(s: Seq<char>) -> u8;

/// Relies on the `FromStr` impl of `tracing::Level`: the digits 1 to 5, or
/// one of the five level words in any ASCII case.
#[verifier::external_body]
fn parse_level_code(s: &str) -> (r: u8)
    ensures
        r == level_code(s@),
        r <= 5,
        eq_ignore_ascii_case(s@, "error"@) ==> r == 1,
        eq_ignore_ascii_case(s@, "warn"@) ==> r == 2,
        eq_ignore_ascii_case(s@, "info"@) ==> r == 3,
        eq_ignore_ascii_case(s@, "debug"@) ==> r == 4,
        eq_ignore_ascii_case(s@, "trace"@) ==> r == 5,
{
    match s.parse::<tracing::Level>() {
        Ok(tracing::Level::ERROR) => 1,
        Ok(tracing::Level::WARN) => 2,
        Ok(tracing::Level::INFO) => 3,
        Ok(tracing::Level::DEBUG) => 4,
        Ok(tracing::Level::TRACE) => 5,
        Ok(_) | Err(_) => 0,
    }
}

/// The level of a `tracing` level number; info when there is none.
pub open spec fn level_of_code(code: u8) -> LogLevel {
    if code == 1 {
        LogLevel::Error
    } else if code == 2 {
        LogLevel::Warn
    } else if code == 4 {
        LogLevel::Debug
    } else if code == 5 {
        LogLevel::Trace
    } else {
        LogLevel::Info
    }
}

/// The configured log level: info when unset or not a level.
pub open spec fn configured_level(v: Option<String>) -> LogLevel {
    match v {
        Some(s) => level_of_code(level_code(s@)),
        None => LogLevel::Info,
    }
}

/// Reads the log level setting.
pub fn log_level_from(v: &Option<String>) -> (r: LogLevel)
    ensures
        r == configured_level(*v),
{
    match v {
        Some(s) => {
            let code = parse_level_code(s.as_str());
            if code == 1 {
                LogLevel::Error
            } else if code == 2 {
                LogLevel::Warn
            } else if code == 4 {
                LogLevel::Debug
            } else if code == 5 {
                LogLevel::Trace
            } else {
                LogLevel::Info
            }
        },
        None => LogLevel::Info,
    }
}

/// A configuration failure: a required variable is not set.
#[derive(Debug, Clone)]
pub enum ConfigError {
    MissingVar(String),
}

impl ConfigError {
    /// The text of the error.
    pub open spec fn text(self) -> Seq<char> {
        match self {
            ConfigError::MissingVar(name) => "Missing required env var "@ + name@,
        }
    }

    pub fn message(&self) -> (r: String)
        ensures
            r@ == self.text(),
    {
        match self {
            ConfigError::MissingVar(name) => {
                let mut m = String::from_str("Missing required env var ");
                m.append(name.as_str());
                m
            },
        }
    }
}

/// An optional setting: a set but empty value counts as unset.
pub open spec fn non_empty(v: Option<String>) -> Option<String> {
    match v {
        Some(s) => if s@.len() == 0 {
            None
        } else {
            Some(s)
        },
        None => None,
    }
}

fn non_empty_value(v: Option<String>) -> (r: Option<String>)
    ensures
        r == non_empty(v),
{
    match v {
        Some(s) => if s.as_str().is_empty() {
            None
        } else {
            Some(s)
        },
        None => None,
    }
}

fn missing(name: &str) -> (r: ConfigError)
    ensures
        r matches ConfigError::MissingVar(n) && n@ == name@,
{
    ConfigError::MissingVar(name.to_owned())
}

impl AppConfig {
    /// Builds the configuration from the values of `SUPABASE_URL`,
    /// `SUPABASE_SERVICE_KEY`, `OPENAI_API_KEY`, `OPENAI_BASE_URL`,
    /// `EMBEDDING_MODEL` and `LOG_LEVEL`, each `None` when unset. The first required
    /// variable that is unset, in that order, is reported.
    pub fn from_values(
        supabase_url: Option<String>,
        supabase_service_key: Option<String>,
        openai_api_key: Option<String>,
        openai_base_url: Option<String>,
        embedding_model: Option<String>,
        log_level: Option<String>,
    ) -> (r: Result<AppConfig, ConfigError>)
        ensures
            supabase_url is None ==> (r matches Err(ConfigError::MissingVar(n)) && n@
                == "SUPABASE_URL"@),
            supabase_url is Some && supabase_service_key is None ==> (r matches Err(
                ConfigError::MissingVar(n),
            ) && n@ == "SUPABASE_SERVICE_KEY"@),
            supabase_url is Some && supabase_service_key is Some && openai_api_key is None ==> (
            r matches Err(ConfigError::MissingVar(n)) && n@ == "OPENAI_API_KEY"@),
            r is Ok <==> (supabase_url is Some && supabase_service_key is Some
                && openai_api_key is Some),
            r matches Ok(c) ==> {
                &&& Some(c.supabase_url) == supabase_url
                &&& Some(c.supabase_service_key) == supabase_service_key
                &&& Some(c.openai_api_key) == openai_api_key
                &&& c.openai_base_url == non_empty(openai_base_url)
                &&& c.embedding_model@ == match non_empty(embedding_model) {
                    Some(m) => m@,
                    None => DEFAULT_EMBEDDING_MODEL@,
                }
                &&& c.log_level == configured_level(log_level)
            },
    {
        let supabase_url = match supabase_url {
            Some(v) => v,
            None => {
                return Err(missing("SUPABASE_URL"));
            },
        };
        let supabase_service_key = match supabase_service_key {
            Some(v) => v,
            None => {
                return Err(missing("SUPABASE_SERVICE_KEY"));
            },
        };
        let openai_api_key = match openai_api_key {
            Some(v) => v,
            None => {
                return Err(missing("OPENAI_API_KEY"));
            },
        };
        let embedding_model = match non_empty_value(embedding_model) {
            Some(m) => m,
            None => DEFAULT_EMBEDDING_MODEL.to_owned(),
        };
        Ok(AppConfig {
            supabase_url,
            supabase_service_key,
            openai_api_key,
            openai_base_url: non_empty_value(openai_base_url),
            embedding_model,
            log_level: log_level_from(&log_level),
        })
    }
}

} // verus!
