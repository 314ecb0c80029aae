use oye::config::{
    api_url_variable_name, config_file_location, get_config, get_url_from_env_var,
    load_config_from_user_config_file, Config, ConfigError, ConfigFile, ConfigFileProbe, Error,
};

fn not_set() -> String {
    "oye API URL is not set, please add it to ~/.config/oye.yaml or as OYE_API_URL".to_string()
}

#[test]
fn names_of_the_variable_and_the_file() {
    assert_eq!(api_url_variable_name(), "OYE_API_URL");
    assert_eq!(config_file_location(), ".config/oye/config.yaml");
}

#[test]
fn env_var_that_is_not_set_is_missing() {
    assert_eq!(
        get_url_from_env_var("OYE_API_URL", None),
        Err(ConfigError::MissingEnvironmentVariable("OYE_API_URL".to_string()))
    );
}

#[test]
fn env_var_with_a_url_gives_the_url_as_it_is_written_after_parsing() {
    assert_eq!(
        get_url_from_env_var("OYE_API_URL", Some("http://localhost:8080".to_string())),
        Ok("http://localhost:8080/".to_string())
    );
    assert_eq!(
        get_url_from_env_var("OYE_API_URL", Some("HTTPS://Example.NET/api/../v1/".to_string())),
        Ok("https://example.net/v1/".to_string())
    );
}

#[test]
fn env_var_with_no_url_is_unsupported() {
    assert_eq!(
        get_url_from_env_var("OYE_API_URL", Some("not a url".to_string())),
        Err(ConfigError::UnsupportedEnvironmentVariableValue(
            "environment variable OYE_API_URL is not valid URL: \"not a url\"".to_string()
        ))
    );
    assert_eq!(
        get_url_from_env_var("X", Some("".to_string())),
        Err(ConfigError::UnsupportedEnvironmentVariableValue(
            "environment variable X is not valid URL: \"\"".to_string()
        ))
    );
}

#[test]
fn loading_a_missing_file_fails_without_a_warning() {
    assert_eq!(
        load_config_from_user_config_file("/home/u/.config/oye/config.yaml", ConfigFileProbe::Missing),
        (Vec::new(), Err("config file not found: /home/u/.config/oye/config.yaml".to_string()))
    );
}

#[test]
fn loading_an_unparsable_file_warns_and_names_nothing() {
    assert_eq!(
        load_config_from_user_config_file(
            "/home/u/.config/oye/config.yaml",
            ConfigFileProbe::Unparsable("invalid type".to_string())
        ),
        (
            vec!["WARNING: failed to parse /home/u/.config/oye/config.yaml, reason: invalid type"
                .to_string()],
            Ok(ConfigFile { api_url: None })
        )
    );
}

#[test]
fn loading_a_parsed_file_gives_what_it_holds() {
    assert_eq!(
        load_config_from_user_config_file(
            "c.yaml",
            ConfigFileProbe::Parsed(ConfigFile { api_url: Some("http://h/".to_string()) })
        ),
        (Vec::new(), Ok(ConfigFile { api_url: Some("http://h/".to_string()) }))
    );
    assert_eq!(
        load_config_from_user_config_file("c.yaml", ConfigFileProbe::Parsed(ConfigFile { api_url: None })),
        (Vec::new(), Ok(ConfigFile { api_url: None }))
    );
}

#[test]
fn the_environment_comes_before_the_file() {
    assert_eq!(
        get_config(
            Ok(ConfigFile { api_url: Some("http://file.example/".to_string()) }),
            Some("http://env.example".to_string())
        ),
        (Vec::new(), Ok(Config { oye_api_url: "http://env.example/".to_string() }))
    );
}

#[test]
fn the_file_is_asked_where_the_variable_is_not_set() {
    assert_eq!(
        get_config(Ok(ConfigFile { api_url: Some("http://file.example".to_string()) }), None),
        (Vec::new(), Ok(Config { oye_api_url: "http://file.example/".to_string() }))
    );
}

#[test]
fn nothing_set_is_an_error() {
    assert_eq!(
        get_config(Ok(ConfigFile { api_url: None }), None),
        (Vec::new(), Err(Error { reason: not_set() }))
    );
}

#[test]
fn a_missing_file_is_warned_about() {
    assert_eq!(
        get_config(Err("config file not found: /home/u/.config/oye/config.yaml".to_string()), None),
        (
            vec!["WARNING: config file not found: /home/u/.config/oye/config.yaml".to_string()],
            Err(Error { reason: not_set() })
        )
    );
    assert_eq!(
        get_config(Err("gone".to_string()), Some("http://env.example/".to_string())),
        (
            vec!["WARNING: gone".to_string()],
            Ok(Config { oye_api_url: "http://env.example/".to_string() })
        )
    );
}

#[test]
fn a_variable_with_no_url_decides_against_the_file() {
    assert_eq!(
        get_config(
            Ok(ConfigFile { api_url: Some("http://file.example/".to_string()) }),
            Some("nope".to_string())
        ),
        (
            Vec::new(),
            Err(Error {
                reason: "environment variable OYE_API_URL is not valid URL: \"nope\"".to_string()
            })
        )
    );
}

#[test]
fn a_file_with_no_url_in_its_field_is_an_error() {
    assert_eq!(
        get_config(Ok(ConfigFile { api_url: Some("nope".to_string()) }), None),
        (
            Vec::new(),
            Err(Error {
                reason: "API URL of the config file is not valid URL: \"nope\"".to_string()
            })
        )
    );
}

#[test]
fn env_only_config_reads_the_variable() {
    assert_eq!(
        oye::env_config::get_config(Some("http://localhost:3000".to_string())),
        Ok(Config { oye_api_url: "http://localhost:3000/".to_string() })
    );
    assert_eq!(
        oye::env_config::get_config(None),
        Err(oye::env_config::ConfigError {
            reason: "environment variable 'OYE_API_URL' not found".to_string()
        })
    );
    assert_eq!(
        oye::env_config::get_config(Some("nope".to_string())),
        Err(oye::env_config::ConfigError {
            reason: "environment variable 'OYE_API_URL' is not valid URL: nope".to_string()
        })
    );
}

#[test]
fn env_only_url_names_the_variable_in_its_reasons() {
    assert_eq!(
        oye::env_config::get_url_from_env_var("SOME_URL", None),
        Err(oye::env_config::ConfigError {
            reason: "environment variable 'SOME_URL' not found".to_string()
        })
    );
    assert_eq!(
        oye::env_config::get_url_from_env_var("SOME_URL", Some("ftp://files.example".to_string())),
        Ok("ftp://files.example/".to_string())
    );
}
