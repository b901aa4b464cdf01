use railway_backend::config::{AppConfig, ConfigError, EnvOverrides, Environment};

#[test]
fn test_default_config() {
    let config = AppConfig::default();
    assert_eq!(config.server.port, 8000);
    assert_eq!(config.database.namespace, "railway");
    assert!(config.validate().is_ok());
}

#[test]
fn default_config_holds_every_default() {
    let config = AppConfig::default();
    assert_eq!(config.server.host, "0.0.0.0");
    assert!(config.server.cors_enabled);
    assert_eq!(config.server.max_connections, 1000);
    assert_eq!(config.database.url, "127.0.0.1:8000");
    assert_eq!(config.database.database, "intelligence");
    assert_eq!(config.services.optimization.max_computation_time_seconds, 300);
    assert_eq!(config.services.optimization.default_time_horizon_minutes, 120);
    assert!(config.services.optimization.grpc_endpoint.is_none());
    assert!(config.services.ingestion.enabled);
    assert_eq!(config.services.ingestion.external_apis.len(), 1);
    assert_eq!(config.services.ingestion.external_apis[0].name, "Indian Railways API");
    assert!(!config.services.ingestion.external_apis[0].enabled);
    assert_eq!(config.services.ingestion.polling_interval_seconds, 60);
    assert_eq!(config.services.websocket.message_buffer_size, 1000);
    assert_eq!(config.services.websocket.heartbeat_interval_seconds, 30);
    assert_eq!(config.logging.level, "info");
    assert_eq!(config.logging.file_path, Some("logs/railway-backend.log".to_string()));
    assert_eq!(config.security.jwt_expiry_hours, 24);
    assert_eq!(config.security.api_rate_limit_per_minute, 100);
    assert_eq!(config.security.cors_origins, vec!["*".to_string()]);
    assert_eq!(config.monitoring.prometheus_endpoint, "/metrics");
    assert_eq!(config.monitoring.metrics_collection_interval_seconds, 15);
}

#[test]
fn validate_names_the_first_broken_rule() {
    let mut config = AppConfig::default();
    config.server.port = 0;
    config.database.url = String::new();
    assert_eq!(config.validate(), Err(ConfigError::ZeroPort));
    config.server.port = 8000;
    assert_eq!(config.validate(), Err(ConfigError::EmptyDatabaseUrl));
    config.database.url = "db:1".to_string();
    config.security.jwt_secret = "x".repeat(31);
    assert_eq!(config.validate(), Err(ConfigError::ShortJwtSecret));
    config.security.jwt_secret = "x".repeat(32);
    assert_eq!(config.validate(), Ok(()));
    config.services.optimization.max_computation_time_seconds = 0;
    assert_eq!(config.validate(), Err(ConfigError::ZeroComputationTime));
}

#[test]
fn secret_length_counts_bytes() {
    let mut config = AppConfig::default();
    // sixteen two-byte characters are thirty-two bytes
    config.security.jwt_secret = "\u{00e9}".repeat(16);
    assert_eq!(config.validate(), Ok(()));
    config.security.jwt_secret = "\u{00e9}".repeat(15);
    assert_eq!(config.validate(), Err(ConfigError::ShortJwtSecret));
}

#[test]
fn config_errors_read_as_sentences() {
    assert_eq!(ConfigError::ZeroPort.message(), "Server port cannot be 0");
    assert_eq!(ConfigError::EmptyDatabaseUrl.message(), "Database URL cannot be empty");
    assert_eq!(
        ConfigError::ShortJwtSecret.message(),
        "JWT secret must be at least 32 characters"
    );
    assert_eq!(
        ConfigError::ZeroComputationTime.message(),
        "Optimization computation time must be greater than 0"
    );
    assert_eq!(ConfigError::InvalidPort.message(), "invalid digit found in string");
}

#[test]
fn addresses_are_put_together() {
    let config = AppConfig::default();
    assert_eq!(
        config.database_connection_string(),
        "surreal://127.0.0.1:8000?ns=railway&db=intelligence"
    );
    assert_eq!(config.server_bind_address(), "0.0.0.0:8000");
    let mut other = AppConfig::default();
    other.server.host = "localhost".to_string();
    other.server.port = 65535;
    assert_eq!(other.server_bind_address(), "localhost:65535");
}

fn no_overrides() -> EnvOverrides {
    EnvOverrides {
        server_host: None,
        server_port: None,
        database_url: None,
        database_namespace: None,
        database_name: None,
        jwt_secret: None,
        log_level: None,
    }
}

#[test]
fn overrides_replace_only_what_is_set() {
    let mut config = AppConfig::default();
    let mut overrides = no_overrides();
    overrides.server_host = Some("10.0.0.1".to_string());
    overrides.server_port = Some("9090".to_string());
    overrides.log_level = Some("debug".to_string());
    assert_eq!(config.apply_overrides(overrides), Ok(()));
    assert_eq!(config.server.host, "10.0.0.1");
    assert_eq!(config.server.port, 9090);
    assert_eq!(config.logging.level, "debug");
    assert_eq!(config.database.url, "127.0.0.1:8000");
    assert_eq!(config.database.namespace, "railway");

    let mut untouched = AppConfig::default();
    assert_eq!(untouched.apply_overrides(no_overrides()), Ok(()));
    assert_eq!(untouched.server.port, 8000);
    assert_eq!(untouched.server.host, "0.0.0.0");
}

#[test]
fn a_port_that_is_no_number_is_reported_and_changes_nothing() {
    for bad in ["eighty", "", "65536", "-1", "80 ", "+"] {
        let mut config = AppConfig::default();
        let mut overrides = no_overrides();
        overrides.server_host = Some("elsewhere".to_string());
        overrides.server_port = Some(bad.to_string());
        assert_eq!(config.apply_overrides(overrides), Err(ConfigError::InvalidPort));
        assert_eq!(config.server.host, "0.0.0.0");
        assert_eq!(config.server.port, 8000);
    }
    let mut config = AppConfig::default();
    let mut overrides = no_overrides();
    overrides.server_port = Some("+443".to_string());
    assert_eq!(config.apply_overrides(overrides), Ok(()));
    assert_eq!(config.server.port, 443);
}

#[test]
fn environment_is_read_from_its_name() {
    let name = |s: &str| s.to_string();
    assert_eq!(Environment::from_name(Some(&name("prod"))), Environment::Production);
    assert_eq!(Environment::from_name(Some(&name("production"))), Environment::Production);
    assert_eq!(Environment::from_name(Some(&name("staging"))), Environment::Staging);
    assert_eq!(Environment::from_name(Some(&name("test"))), Environment::Testing);
    assert_eq!(Environment::from_name(Some(&name("testing"))), Environment::Testing);
    assert_eq!(Environment::from_name(Some(&name("PROD"))), Environment::Development);
    assert_eq!(Environment::from_name(Some(&name("dev"))), Environment::Development);
    assert_eq!(Environment::from_name(None), Environment::Development);
    assert!(Environment::Production.is_production());
    assert!(!Environment::Staging.is_production());
    assert!(Environment::Development.is_development());
    assert!(!Environment::Testing.is_development());
}
