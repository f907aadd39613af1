use notion_cli::config::Config;
use notion_cli::error::NotionError;

#[test]
fn config_test_get_token_returns_token_when_set() {
    let config = Config {
        api_token: Some("ntn_test_abc123".to_string()),
    };
    assert_eq!(config.get_token().unwrap(), "ntn_test_abc123");
}

#[test]
fn config_tests_test_get_token_returns_token_when_set() {
    let config = Config {
        api_token: Some("ntn_test_abc123".to_string()),
    };
    assert_eq!(config.get_token().unwrap(), "ntn_test_abc123");
}

#[test]
fn config_test_get_token_errors_when_none() {
    let config = Config { api_token: None };
    assert!(config.get_token().is_err());
}

#[test]
fn config_tests_test_get_token_errors_when_none() {
    let config = Config { api_token: None };
    assert!(config.get_token().is_err());
}

#[test]
fn config_test_get_token_errors_when_empty() {
    let config = Config {
        api_token: Some("".to_string()),
    };
    assert!(config.get_token().is_err());
}

#[test]
fn config_tests_test_get_token_errors_when_empty() {
    let config = Config {
        api_token: Some("".to_string()),
    };
    assert!(config.get_token().is_err());
}

#[test]
fn config_test_default_config_has_no_token() {
    let config = Config::default();
    assert!(config.api_token.is_none());
}

#[test]
fn config_tests_test_default_config_has_no_token() {
    let config = Config::default();
    assert!(config.api_token.is_none());
}

#[test]
fn config_test_config_path_ends_with_expected() {
    let path = Config::config_path().unwrap();
    assert!(path.ends_with("notion-cli/config.toml"));
}

#[test]
fn config_tests_test_config_path_ends_with_expected() {
    let path = Config::config_path().unwrap();
    assert!(path.ends_with("notion-cli/config.toml"));
}

#[test]
fn missing_token_error_text() {
    let err = Config { api_token: None }.get_token().unwrap_err();
    assert!(matches!(err, NotionError::MissingToken));
    assert!(err.message().contains("No API token configured"));
}

#[test]
fn environment_token_takes_precedence_only_when_not_empty() {
    let c = Config::from_env(Some("ntn_from_env".to_string())).unwrap();
    assert_eq!(c.api_token.as_deref(), Some("ntn_from_env"));
    assert!(Config::from_env(Some(String::new())).is_none());
    assert!(Config::from_env(None).is_none());
}
