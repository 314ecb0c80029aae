//! Where the reminder service is found: in the environment variable
//! `OYE_API_URL`, or else in the user's configuration file.
//!
//! Nothing here reads the environment or a file. A caller reads both and
//! hands in what it found.

use vstd::prelude::*;
use vstd::string::*;
use crate::oye::{text_of, OyeApiBaseUrl};
use crate::text::{debug_quoted, debug_text};
use crate::url::{parse_url, url_parsed};

verus! {

/// What a client needs to know to reach the service.
#[derive(Debug, PartialEq, Eq)]
pub struct Config {
    /// The absolute URL under which the service answers.
    pub oye_api_url: OyeApiBaseUrl,
}

/// What the user's configuration file holds.
#[derive(Debug, PartialEq, Eq)]
pub struct ConfigFile {
    pub api_url: Option<String>,
}

/// Why no configuration could be had.
#[derive(Debug, PartialEq, Eq)]
pub struct Error {
    pub reason: String,
}

/// Why an environment variable gave no URL.
#[derive(Debug, PartialEq, Eq)]
pub enum ConfigError {
    /// The variable of this name is not set.
    MissingEnvironmentVariable(String),
    /// The variable is set to what is no absolute URL. The string says so.
    UnsupportedEnvironmentVariableValue(String),
}

/// What a `ConfigError` holds.
pub enum ConfigErrorView {
    MissingEnvironmentVariable(Seq<char>),
    UnsupportedEnvironmentVariableValue(Seq<char>),
}

impl View for ConfigError {
    type V = ConfigErrorView;

    open spec fn view(&self) -> ConfigErrorView {
        match self {
            ConfigError::MissingEnvironmentVariable(name) =>
                ConfigErrorView::MissingEnvironmentVariable(name@),
            ConfigError::UnsupportedEnvironmentVariableValue(reason) =>
                ConfigErrorView::UnsupportedEnvironmentVariableValue(reason@),
        }
    }
}

/// What was found where the user's configuration file should be.
#[derive(Debug, PartialEq, Eq)]
pub enum ConfigFileProbe {
    /// There is no such file.
    Missing,
    /// There is a file, but it could not be parsed. The string says why.
    Unparsable(String),
    /// There is a file, and this is what it holds.
    Parsed(ConfigFile),
}

/// The name of the environment variable that holds the URL of the service.
pub open spec fn api_url_variable() -> Seq<char> {
    "OYE_API_URL"@
}

/// The name of the environment variable that holds the URL of the service.
pub fn api_url_variable_name() -> (r: &'static str)
    ensures
        r@ == api_url_variable(),
{
    "OYE_API_URL"
}

/// Where the user's configuration file lies, below the home directory.
pub fn config_file_location() -> (r: &'static str)
    ensures
        r@ == ".config/oye/config.yaml"@,
{
    ".config/oye/config.yaml"
}

/// The reason given for a variable that is set to what is no URL.
pub open spec fn invalid_variable_reason(key: Seq<char>, raw: Seq<char>) -> Seq<char> {
    "environment variable "@ + key + " is not valid URL: "@ + debug_quoted(raw)
}

/// The URL that the environment variable `key` gives, where `value` is what
/// the variable is set to, if it is set.
pub open spec fn url_from_env_var(key: Seq<char>, value: Option<Seq<char>>) -> Result<
    Seq<char>,
    ConfigErrorView,
> {
    match value {
        Some(raw) => match url_parsed(raw) {
            Some(url) => Ok(url),
            None => Err(
                ConfigErrorView::UnsupportedEnvironmentVariableValue(
                    invalid_variable_reason(key, raw),
                ),
            ),
        },
        None => Err(ConfigErrorView::MissingEnvironmentVariable(key)),
    }
}

/// Reads a URL from the environment variable `key`, given what the
/// variable is set to.
pub fn get_url_from_env_var(key: &str, value: Option<String>) -> (r: Result<
    OyeApiBaseUrl,
    ConfigError,
>)
    ensures
        match r {
            Ok(url) => url_from_env_var(key@, text_of(value)) == Ok::<
                Seq<char>,
                ConfigErrorView,
            >(url@),
            Err(error) => url_from_env_var(key@, text_of(value)) == Err::<
                Seq<char>,
                ConfigErrorView,
            >(error@),
        },
{
    let raw = match value {
        Some(raw) => raw,
        None => {
            return Err(ConfigError::MissingEnvironmentVariable(String::from_str(key)));
        },
    };
    match parse_url(raw.as_str()) {
        Some(url) => Ok(url),
        None => {
            let mut reason = String::from_str("environment variable ");
            reason.append(key);
            reason.append(" is not valid URL: ");
            let quoted = debug_text(raw.as_str());
            reason.append(quoted.as_str());
            Err(ConfigError::UnsupportedEnvironmentVariableValue(reason))
        },
    }
}

/// What a probe of the configuration file holds: the URL in the file, if
/// it names one, for a file that was parsed.
pub enum ConfigFileProbeView {
    Missing,
    Unparsable(Seq<char>),
    Parsed(Option<Seq<char>>),
}

impl View for ConfigFileProbe {
    type V = ConfigFileProbeView;

    open spec fn view(&self) -> ConfigFileProbeView {
        match self {
            ConfigFileProbe::Missing => ConfigFileProbeView::Missing,
            ConfigFileProbe::Unparsable(reason) => ConfigFileProbeView::Unparsable(reason@),
            ConfigFileProbe::Parsed(file) => ConfigFileProbeView::Parsed(text_of(file.api_url)),
        }
    }
}

/// What loading the configuration file at `path` comes to: the lines to
/// print, and the URL that the file names, if it names one, or why there is
/// no file. A file that cannot be parsed counts as a file that names
/// nothing, and a warning says so.
pub open spec fn loaded_config_file(path: Seq<char>, probe: ConfigFileProbeView) -> (
    Seq<Seq<char>>,
    Result<Option<Seq<char>>, Seq<char>>,
) {
    match probe {
        ConfigFileProbeView::Missing => (Seq::empty(), Err("config file not found: "@ + path)),
        ConfigFileProbeView::Unparsable(reason) => (
            seq!["WARNING: failed to parse "@ + path + ", reason: "@ + reason],
            Ok(None),
        ),
        ConfigFileProbeView::Parsed(api_url) => (Seq::empty(), Ok(api_url)),
    }
}

/// What a configuration file, or the reason why there is none, holds.
pub open spec fn config_file_view(file: Result<ConfigFile, String>) -> Result<
    Option<Seq<char>>,
    Seq<char>,
> {
    match file {
        Ok(file) => Ok(text_of(file.api_url)),
        Err(reason) => Err(reason@),
    }
}

/// Loads the user's configuration file, given its path and what was found
/// there. The first part of the result holds the lines to print.
pub fn load_config_from_user_config_file(path: &str, probe: ConfigFileProbe) -> (r: (
    Vec<String>,
    Result<ConfigFile, String>,
))
    ensures
        (r.0.deep_view(), config_file_view(r.1)) == loaded_config_file(path@, probe@),
{
    let mut lines: Vec<String> = Vec::new();
    assert(lines.deep_view() =~= Seq::<Seq<char>>::empty());
    match probe {
        ConfigFileProbe::Missing => {
            let mut reason = String::from_str("config file not found: ");
            reason.append(path);
            (lines, Err(reason))
        },
        ConfigFileProbe::Unparsable(reason) => {
            let mut warning = String::from_str("WARNING: failed to parse ");
            warning.append(path);
            warning.append(", reason: ");
            warning.append(reason.as_str());
            lines.push(warning);
            assert(lines.deep_view() =~= seq![warning@]);
            (lines, Ok(ConfigFile { api_url: None }))
        },
        ConfigFileProbe::Parsed(file) => (lines, Ok(file)),
    }
}

/// The reason given where neither the environment nor the file names the
/// service.
pub open spec fn api_url_not_set(variable: Seq<char>) -> Seq<char> {
    "oye API URL is not set, please add it to ~/.config/oye.yaml or as "@ + variable
}

/// The reason given for a configuration file whose URL is no URL.
pub open spec fn invalid_file_url_reason(raw: Seq<char>) -> Seq<char> {
    "API URL of the config file is not valid URL: "@ + debug_quoted(raw)
}

/// The URL of the service, or the reason why there is none. The
/// environment variable comes first: where it is set, it decides, also
/// where it is set to what is no URL. Only where it is not set, the file
/// is asked.
pub open spec fn resolved_api_url(
    file: Result<Option<Seq<char>>, Seq<char>>,
    env_value: Option<Seq<char>>,
) -> Result<Seq<char>, Seq<char>> {
    match url_from_env_var(api_url_variable(), env_value) {
        Ok(url) => Ok(url),
        Err(ConfigErrorView::MissingEnvironmentVariable(variable)) => match file {
            Ok(Some(raw)) => match url_parsed(raw) {
                Some(url) => Ok(url),
                None => Err(invalid_file_url_reason(raw)),
            },
            _ => Err(api_url_not_set(variable)),
        },
        Err(ConfigErrorView::UnsupportedEnvironmentVariableValue(reason)) => Err(reason),
    }
}

/// The lines to print while the configuration is resolved: a warning where
/// there is no configuration file.
pub open spec fn resolution_lines(file: Result<Option<Seq<char>>, Seq<char>>) -> Seq<Seq<char>> {
    match file {
        Ok(_) => Seq::empty(),
        Err(reason) => seq!["WARNING: "@ + reason],
    }
}

/// Resolves the configuration, given the configuration file as it was
/// loaded and what `OYE_API_URL` is set to, if it is set. The first part of
/// the result holds the lines to print.
pub fn get_config(file: Result<ConfigFile, String>, env_value: Option<String>) -> (r: (
    Vec<String>,
    Result<Config, Error>,
))
    ensures
        r.0.deep_view() == resolution_lines(config_file_view(file)),
        match r.1 {
            Ok(config) => resolved_api_url(config_file_view(file), text_of(env_value)) == Ok::<
                Seq<char>,
                Seq<char>,
            >(config.oye_api_url@),
            Err(error) => resolved_api_url(config_file_view(file), text_of(env_value)) == Err::<
                Seq<char>,
                Seq<char>,
            >(error.reason@),
        },
{
    let mut lines: Vec<String> = Vec::new();
    assert(lines.deep_view() =~= Seq::<Seq<char>>::empty());
    let config_file = match file {
        Ok(config) => Some(config),
        Err(reason) => {
            let mut warning = String::from_str("WARNING: ");
            warning.append(reason.as_str());
            lines.push(warning);
            assert(lines.deep_view() =~= seq![warning@]);
            None
        },
    };
    let oye_api_url = match get_url_from_env_var(api_url_variable_name(), env_value) {
        Ok(url) => url,
        Err(ConfigError::MissingEnvironmentVariable(env_var_name)) => {
            let mut api_url_not_set = String::from_str(
                "oye API URL is not set, please add it to ~/.config/oye.yaml or as ",
            );
            api_url_not_set.append(env_var_name.as_str());
            let named = match config_file {
                Some(config_file) => config_file.api_url,
                None => None,
            };
            match named {
                Some(url_str) => match parse_url(url_str.as_str()) {
                    Some(url) => url,
                    None => {
                        let mut reason = String::from_str(
                            "API URL of the config file is not valid URL: ",
                        );
                        let quoted = debug_text(url_str.as_str());
                        reason.append(quoted.as_str());
                        return (lines, Err(Error { reason }));
                    },
                },
                None => {
                    return (lines, Err(Error { reason: api_url_not_set }));
                },
            }
        },
        Err(ConfigError::UnsupportedEnvironmentVariableValue(reason)) => {
            return (lines, Err(Error { reason }));
        },
    };
    (lines, Ok(Config { oye_api_url }))
}

} // verus!
