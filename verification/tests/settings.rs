use atlas::settings::{
    environment_file_name, AuthSettings, DatabaseSettings, Environment, LogFormat, ServerSettings,
    Settings, SettingsError, TelemetrySettings, CONFIG_DIR_ENV, DEFAULT_ENV, ENV_VAR_NAME,
};

#[test]
fn default_environment_is_local() {
    let settings = Settings::default();
    assert_eq!(settings.environment, Environment::Local);
}

#[test]
fn default_database_endpoint_is_ws_localhost() {
    let settings = Settings::default();
    assert_eq!(settings.database.endpoint, "ws://127.0.0.1:8000");
}

#[test]
fn defaults_of_every_section() {
    let settings = Settings::default();
    assert_eq!(settings.server.host, "0.0.0.0");
    assert_eq!(settings.server.port, 8080);
    assert_eq!(settings.server.request_timeout_ms, 15000);
    assert_eq!(settings.database.namespace, "atlas");
    assert_eq!(settings.database.database, "core");
    assert_eq!(settings.telemetry.otlp_endpoint, None);
    assert_eq!(settings.telemetry.prometheus_bind, Some("127.0.0.1:9000".to_string()));
    assert_eq!(settings.telemetry.log_format, LogFormat::Pretty);
    assert_eq!(settings.auth.casbin_model_path, "config/auth/model.conf");
    assert_eq!(settings.auth.casbin_policy_path, "config/auth/policy.csv");
    assert_eq!(Environment::default(), Environment::Local);
    assert_eq!(LogFormat::default(), LogFormat::Pretty);
    assert_eq!(ServerSettings::default_host(), "0.0.0.0");
    assert_eq!(ServerSettings::default_port(), 8080);
    assert_eq!(ServerSettings::default_request_timeout_ms(), 15000);
    assert_eq!(DatabaseSettings::default_endpoint(), "ws://127.0.0.1:8000");
    assert_eq!(DatabaseSettings::default_namespace(), "atlas");
    assert_eq!(DatabaseSettings::default_database(), "core");
    assert_eq!(AuthSettings::default_model_path(), "config/auth/model.conf");
    assert_eq!(AuthSettings::default_policy_path(), "config/auth/policy.csv");
    assert_eq!(TelemetrySettings::default().log_format, LogFormat::Pretty);
    assert_eq!(DEFAULT_ENV, "local");
    assert_eq!(ENV_VAR_NAME, "ATLAS_ENV");
    assert_eq!(CONFIG_DIR_ENV, "ATLAS_CONFIG_DIR");
}

#[test]
fn clones_hold_what_was_cloned() {
    let mut settings = Settings::default();
    settings.server.port = 99;
    settings.telemetry.otlp_endpoint = Some("http://otel".to_string());
    let copy = settings.clone();
    assert_eq!(copy.server.port, 99);
    assert_eq!(copy.server.host, "0.0.0.0");
    assert_eq!(copy.telemetry.otlp_endpoint, Some("http://otel".to_string()));
    assert_eq!(copy.database.endpoint, settings.database.endpoint);
    assert_eq!(copy.auth.casbin_model_path, settings.auth.casbin_model_path);
}

#[test]
fn environment_names_are_the_three_lower_case_words() {
    assert_eq!(Environment::from_name("local").unwrap(), Environment::Local);
    assert_eq!(Environment::from_name("staging").unwrap(), Environment::Staging);
    assert_eq!(Environment::from_name("production").unwrap(), Environment::Production);
    for unknown in ["", "Local", "prod", "production ", "locals"] {
        match Environment::from_name(unknown) {
            Err(SettingsError::UnsupportedEnvironment { name }) => assert_eq!(name, unknown),
            Ok(found) => panic!("{:?} was taken for {:?}", unknown, found),
        }
    }
}

#[test]
fn unsupported_environment_is_reported_with_its_name() {
    let error = Environment::from_name("qa").unwrap_err();
    assert_eq!(
        error.message(),
        "unsupported environment 'qa'; expected local/staging/production"
    );
}

#[test]
fn with_environment_changes_the_environment_alone() {
    let mut loaded = Settings::default();
    loaded.server.port = 9999;
    loaded.database.namespace = "tenant".to_string();
    let resolved = loaded.with_environment("production").unwrap();
    assert_eq!(resolved.environment, Environment::Production);
    assert_eq!(resolved.server.port, 9999);
    assert_eq!(resolved.database.namespace, "tenant");
    assert!(Settings::default().with_environment("moon").is_err());
}

#[test]
fn overlay_file_is_named_after_the_environment() {
    assert_eq!(environment_file_name("local"), "local.toml");
    assert_eq!(environment_file_name("staging"), "staging.toml");
    assert_eq!(environment_file_name(""), ".toml");
}

#[test]
fn bind_address_is_host_colon_port() {
    assert_eq!(ServerSettings::default().bind_address(), "0.0.0.0:8080");
    let server = ServerSettings { host: "localhost".to_string(), port: 0, request_timeout_ms: 1 };
    assert_eq!(server.bind_address(), "localhost:0");
    let server = ServerSettings { host: "::1".to_string(), port: 65535, request_timeout_ms: 1 };
    assert_eq!(server.bind_address(), "::1:65535");
}
