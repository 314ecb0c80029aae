//! Where the reminder service is found, for a setup that knows the
//! environment variable `OYE_API_URL` and nothing else.

use vstd::prelude::*;
use vstd::string::*;
use crate::config::{api_url_variable, api_url_variable_name, Config};
use crate::oye::{text_of, OyeApiBaseUrl};
use crate::url::{parse_url, url_parsed};

verus! {

/// Why no configuration could be had.
#[derive(Debug, PartialEq, Eq)]
pub struct ConfigError {
    pub reason: String,
}

/// The URL that the environment variable `key` gives, where `value` is what
/// the variable is set to, if it is set; or the reason why it gives none.
pub open spec fn url_from_env_var(key: Seq<char>, value: Option<Seq<char>>) -> Result<
    Seq<char>,
    Seq<char>,
> {
    match value {
        Some(raw) => match url_parsed(raw) {
            Some(url) => Ok(url),
            None => Err("environment variable '"@ + key + "' is not valid URL: "@ + raw),
        },
        None => Err("environment variable '"@ + key + "' not found"@),
    }
}

/// Reads a URL from the environment variable `key`, given what the
/// variable is set to.
pub fn get_url_from_env_var(key: &str, value: Option<String>) -> (r: Result<
    OyeApiBaseUrl,
    ConfigError,
>)
    ensures
        match r {
            Ok(url) => url_from_env_var(key@, text_of(value)) == Ok::<Seq<char>, Seq<char>>(
                url@,
            ),
            Err(error) => url_from_env_var(key@, text_of(value)) == Err::<
                Seq<char>,
                Seq<char>,
            >(error.reason@),
        },
{
    let raw = match value {
        Some(raw) => raw,
        None => {
            let mut reason = String::from_str("environment variable '");
            reason.append(key);
            reason.append("' not found");
            return Err(ConfigError { reason });
        },
    };
    match parse_url(raw.as_str()) {
        Some(url) => Ok(url),
        None => {
            let mut reason = String::from_str("environment variable '");
            reason.append(key);
            reason.append("' is not valid URL: ");
            reason.append(raw.as_str());
            Err(ConfigError { reason })
        },
    }
}

/// Resolves the configuration, given what `OYE_API_URL` is set to, if it is
/// set.
pub fn get_config(env_value: Option<String>) -> (r: Result<Config, ConfigError>)
    ensures
        match r {
            Ok(config) => url_from_env_var(api_url_variable(), text_of(env_value)) == Ok::<
                Seq<char>,
                Seq<char>,
            >(config.oye_api_url@),
            Err(error) => url_from_env_var(api_url_variable(), text_of(env_value)) == Err::<
                Seq<char>,
                Seq<char>,
            >(error.reason@),
        },
{
    match get_url_from_env_var(api_url_variable_name(), env_value) {
        Ok(oye_api_url) => Ok(Config { oye_api_url }),
        Err(error) => Err(error),
    }
}

} // verus!
