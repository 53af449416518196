use cloudflaredns::config::{Config, ConfigError};

#[test]
fn test_config_struct_fields_accessible() {
    let config = Config {
        cloudflare_api_token: "test_token".to_string(),
        cloudflare_zone_id: "test_zone".to_string(),
    };

    assert_eq!(config.cloudflare_api_token, "test_token");
    assert_eq!(config.cloudflare_zone_id, "test_zone");
}

#[test]
fn test_config_debug_format() {
    let config = Config {
        cloudflare_api_token: "secret_token".to_string(),
        cloudflare_zone_id: "zone_123".to_string(),
    };

    let debug_str = format!("{:?}", config);
    assert!(debug_str.contains("Config"));
    assert!(debug_str.contains("cloudflare_api_token"));
    assert!(debug_str.contains("cloudflare_zone_id"));
}

#[test]
fn config_from_env_values_both_present() {
    let config = Config::from_env_values(
        Some("env_token_123".to_string()),
        Some("env_zone_456".to_string()),
    )
    .unwrap();
    assert_eq!(config.cloudflare_api_token, "env_token_123");
    assert_eq!(config.cloudflare_zone_id, "env_zone_456");
}

#[test]
fn config_from_env_values_missing_token() {
    let err = Config::from_env_values(None, Some("env_zone_456".to_string())).unwrap_err();
    assert_eq!(err, ConfigError::MissingApiToken);
    assert_eq!(
        err.to_string(),
        "CLOUDFLARE_API_TOKEN not set in config file, .env, or environment variables"
    );
}

#[test]
fn config_from_env_values_missing_zone() {
    let err = Config::from_env_values(Some("t".to_string()), None).unwrap_err();
    assert_eq!(err, ConfigError::MissingZoneId);
    assert_eq!(
        err.to_string(),
        "CLOUDFLARE_ZONE_ID not set in config file, .env, or environment variables"
    );
}

#[test]
fn config_from_env_values_neither_names_token() {
    let err = Config::from_env_values(None, None).unwrap_err();
    assert!(err.to_string().contains("CLOUDFLARE_API_TOKEN"));
}

fn some(s: &str) -> Option<String> {
    Some(s.to_string())
}

#[test]
fn config_file_wins_over_environment() {
    let from_file = Config::new("file_token".to_string(), "file_zone".to_string());
    let c = Config::resolve(Some(from_file), some("dot_token"), None, some("env_token"), None)
        .unwrap();
    assert_eq!(c.cloudflare_api_token, "file_token");
    assert_eq!(c.cloudflare_zone_id, "file_zone");
}

#[test]
fn config_falls_back_to_environment() {
    let c = Config::resolve(None, None, None, some("env_token"), some("env_zone")).unwrap();
    assert_eq!(c.cloudflare_api_token, "env_token");
    assert_eq!(c.cloudflare_zone_id, "env_zone");
    let e = Config::resolve(None, None, None, None, some("z")).unwrap_err();
    assert_eq!(e, ConfigError::MissingApiToken);
}

#[test]
fn config_dotenv_before_environment() {
    let c = Config::resolve(None, some("dot_token"), None, some("env_token"), some("env_zone"))
        .unwrap();
    assert_eq!(c.cloudflare_api_token, "dot_token");
    assert_eq!(c.cloudflare_zone_id, "env_zone");
    let e = Config::resolve(None, some("dot_token"), None, None, None).unwrap_err();
    assert_eq!(e, ConfigError::MissingZoneId);
    assert_eq!(Config::first_set(None, some("x")), some("x"));
    assert_eq!(Config::first_set(some("y"), some("x")), some("y"));
}

#[test]
fn config_path_parts_name_the_file() {
    let parts = Config::config_path_parts();
    assert_eq!(parts, vec![".config", "cloudflaredns", "config.yaml"]);
}

#[test]
fn test_config_path_components() {
    let components = Config::config_path_parts();

    // Should end with: .config / cloudflaredns / config.yaml
    assert!(components.iter().any(|c| c == ".config"));
    assert!(components.iter().any(|c| c == "cloudflaredns"));
    assert!(components.iter().any(|c| c == "config.yaml"));
}
