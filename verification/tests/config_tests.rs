use rusted_tools::config::{
    extract_local_config, validate_config, AppConfig, EndpointConfig, EndpointKindConfig,
    HttpConfig, LoggingConfig, McpConfig,
};
use rusted_tools::error::ProxyError;
use std::collections::HashMap;

fn local(name: &str, path: Option<&str>) -> EndpointConfig {
    EndpointConfig {
        name: name.to_string(),
        path: path.map(|p| p.to_string()),
        endpoint_type: EndpointKindConfig::Local {
            command: "echo".to_string(),
            args: vec![],
            env: Default::default(),
            auto_start: true,
        },
        tools: None,
    }
}

fn config_with(endpoints: Vec<EndpointConfig>) -> AppConfig {
    AppConfig {
        http: HttpConfig::default(),
        logging: LoggingConfig::default(),
        mcp: McpConfig::default(),
        endpoints,
    }
}

fn config_error(config: &AppConfig) -> String {
    match validate_config(config) {
        Err(ProxyError::Config(message)) => message,
        other => panic!("expected a configuration error, got {:?}", other),
    }
}

#[test]
fn test_validate_duplicate_paths() {
    let config = config_with(vec![
        local("server1", Some("test")),
        local("server2", Some("test")),
    ]);

    assert!(validate_config(&config).is_err());
}

#[test]
fn test_validate_invalid_path_characters() {
    let config = config_with(vec![local("server1", Some("test/path"))]);

    assert!(validate_config(&config).is_err());
}

#[test]
fn validate_accepts_a_sound_config() {
    let config = config_with(vec![local("server1", Some("one")), local("server2", None)]);
    assert!(validate_config(&config).is_ok());
    assert!(validate_config(&config_with(vec![])).is_ok());
}

#[test]
fn validate_names_the_duplicate_path() {
    let config = config_with(vec![
        local("server1", Some("test")),
        local("server2", Some("other")),
        local("server3", Some("test")),
    ]);
    assert_eq!(
        config_error(&config),
        "Duplicate server path 'test' found in configuration"
    );
}

#[test]
fn validate_takes_the_name_as_path_where_none_is_given() {
    let config = config_with(vec![local("shared", None), local("server2", Some("shared"))]);
    assert_eq!(
        config_error(&config),
        "Duplicate server path 'shared' found in configuration"
    );
}

#[test]
fn validate_names_the_duplicate_name() {
    let config = config_with(vec![local("twin", Some("a")), local("twin", Some("b"))]);
    assert_eq!(
        config_error(&config),
        "Duplicate server name 'twin' found in configuration"
    );
}

#[test]
fn validate_reports_paths_before_names() {
    let config = config_with(vec![local("twin", Some("a")), local("twin", Some("a"))]);
    assert_eq!(
        config_error(&config),
        "Duplicate server path 'a' found in configuration"
    );
}

#[test]
fn validate_rejects_each_reserved_character() {
    for path in ["a/b", "a\\b", "a.b"] {
        let config = config_with(vec![local("server1", Some(path))]);
        assert_eq!(
            config_error(&config),
            format!("Server path '{}' contains invalid characters (/, \\, or .)", path)
        );
    }
}

#[test]
fn validate_reports_the_first_reserved_path() {
    let config = config_with(vec![
        local("server1", Some("fine")),
        local("server2", Some("b.c")),
        local("server3", Some("d/e")),
    ]);
    assert_eq!(
        config_error(&config),
        "Server path 'b.c' contains invalid characters (/, \\, or .)"
    );
}

#[test]
fn validate_rejects_unknown_log_level() {
    let mut config = config_with(vec![]);
    config.logging.level = "loud".to_string();
    assert_eq!(
        config_error(&config),
        "Invalid log level 'loud'. Valid levels: trace, debug, info, warn, error"
    );
}

#[test]
fn validate_accepts_every_known_log_level_and_format() {
    for level in ["trace", "debug", "info", "warn", "error"] {
        for format in ["pretty", "json"] {
            let mut config = config_with(vec![]);
            config.logging.level = level.to_string();
            config.logging.format = format.to_string();
            assert!(validate_config(&config).is_ok());
        }
    }
}

#[test]
fn validate_rejects_unknown_log_format() {
    let mut config = config_with(vec![]);
    config.logging.format = "xml".to_string();
    assert_eq!(
        config_error(&config),
        "Invalid log format 'xml'. Valid formats: pretty, json"
    );
}

#[test]
fn defaults_are_the_documented_ones() {
    let http = HttpConfig::default();
    assert_eq!(http.host, "127.0.0.1");
    assert_eq!(http.port, 3000);
    let logging = LoggingConfig::default();
    assert_eq!(logging.level, "info");
    assert_eq!(logging.format, "pretty");
    let mcp = McpConfig::default();
    assert_eq!(mcp.request_timeout_secs, 30);
    assert_eq!(mcp.restart_delay_ms, 500);
}

#[test]
fn get_path_defaults_to_the_name() {
    assert_eq!(local("svc", None).get_path(), "svc");
    assert_eq!(local("svc", Some("route")).get_path(), "route");
}

#[test]
fn local_settings_are_taken_from_a_local_config() {
    let mut env = HashMap::new();
    env.insert("KEY".to_string(), "value".to_string());
    let config = EndpointConfig {
        name: "svc".to_string(),
        path: None,
        endpoint_type: EndpointKindConfig::Local {
            command: "run".to_string(),
            args: vec!["--fast".to_string(), "now".to_string()],
            env: env.clone(),
            auto_start: false,
        },
        tools: None,
    };
    let settings = extract_local_config(&config).unwrap();
    assert_eq!(settings.command, "run");
    assert_eq!(settings.args, vec!["--fast".to_string(), "now".to_string()]);
    assert_eq!(settings.env, env);
    let again = config.to_local_settings().unwrap();
    assert_eq!(again.command, "run");
    assert_eq!(again.args.len(), 2);
}

#[test]
fn local_settings_are_refused_for_a_remote_config() {
    let config = EndpointConfig {
        name: "svc".to_string(),
        path: None,
        endpoint_type: EndpointKindConfig::Remote { url: "https://example.com".to_string() },
        tools: None,
    };
    match extract_local_config(&config) {
        Err(ProxyError::Config(message)) => {
            assert_eq!(message, "Expected local server configuration")
        }
        other => panic!("expected a configuration error, got {:?}", other),
    }
    match config.to_local_settings() {
        Err(ProxyError::Config(message)) => {
            assert_eq!(message, "Expected local endpoint configuration")
        }
        other => panic!("expected a configuration error, got {:?}", other),
    }
}
