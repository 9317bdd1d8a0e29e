use cloudtrace_telemetry::config::{DEFAULT_SERVICE_NAME, DEFAULT_SERVICE_VERSION};
use cloudtrace_telemetry::{
    EnvSnapshot, GcpConfig, GcpPlatform, LogFormat, TelemetryBackend, TelemetryConfig,
    TelemetryConfigBuilder,
};

#[test]
fn log_format_default_is_pretty() {
    assert_eq!(LogFormat::default(), LogFormat::Pretty);
}

#[test]
fn telemetry_backend_default_is_local() {
    assert_eq!(TelemetryBackend::default(), TelemetryBackend::Local);
}

#[test]
fn config_new_sets_defaults() {
    let config = TelemetryConfig::new("test-service", "1.0.0");

    assert_eq!(config.service_name, "test-service");
    assert_eq!(config.service_version, "1.0.0");
    assert_eq!(config.log_level, "info");
    assert_eq!(config.log_format, LogFormat::Pretty);
    assert_eq!(config.backend, TelemetryBackend::Local);
    assert!(config.otlp_endpoint.is_none());
}

#[test]
fn config_with_methods_chain() {
    let config = TelemetryConfig::new("svc", "1.0")
        .with_log_level("debug")
        .with_log_format(LogFormat::Json)
        .with_otlp_endpoint("http://localhost:4317");

    assert_eq!(config.log_level, "debug");
    assert_eq!(config.log_format, LogFormat::Json);
    assert_eq!(config.otlp_endpoint, Some("http://localhost:4317".to_string()));
}

#[test]
fn config_with_backend_replaces_backend_only() {
    let config = TelemetryConfig::new("svc", "1.0").with_backend(TelemetryBackend::Gcp(GcpConfig::new("p")));

    assert_eq!(config.backend, TelemetryBackend::Gcp(GcpConfig::new("p")));
    assert_eq!(config.service_name, "svc");
    assert_eq!(config.log_level, "info");
}

#[test]
fn builder_sets_all_fields() {
    let config = TelemetryConfigBuilder::default()
        .service_name("my-service")
        .service_version("2.0.0")
        .log_level("warn")
        .otlp_endpoint("http://collector:4317")
        .json()
        .build();

    assert_eq!(config.service_name, "my-service");
    assert_eq!(config.service_version, "2.0.0");
    assert_eq!(config.log_level, "warn");
    assert_eq!(config.log_format, LogFormat::Json);
    assert_eq!(config.otlp_endpoint, Some("http://collector:4317".to_string()));
}

#[test]
fn builder_pretty_sets_log_format() {
    let config = TelemetryConfig::builder().pretty().build();
    assert_eq!(config.log_format, LogFormat::Pretty);
}

#[test]
fn builder_json_sets_log_format() {
    let config = TelemetryConfig::builder().json().build();
    assert_eq!(config.log_format, LogFormat::Json);
}

#[test]
fn builder_uses_defaults_when_not_set() {
    let config = TelemetryConfig::builder().build();

    assert_eq!(config.log_level, "info");
    assert_eq!(config.log_format, LogFormat::Pretty);
    assert_eq!(config.backend, TelemetryBackend::Local);
}

#[test]
fn builder_defaults_name_the_service() {
    let config = TelemetryConfig::builder().build();

    assert_eq!(config.service_name, DEFAULT_SERVICE_NAME);
    assert_eq!(config.service_version, DEFAULT_SERVICE_VERSION);
    assert!(!config.service_name.is_empty());
    assert!(!config.service_version.is_empty());
    assert!(config.otlp_endpoint.is_none());
}

#[test]
fn builder_gcp_selects_cloud_backend() {
    let config = TelemetryConfig::builder()
        .gcp(GcpConfig::new("my-project").with_platform(GcpPlatform::AppEngine))
        .log_format(LogFormat::Json)
        .build();

    assert_eq!(
        config.backend,
        TelemetryBackend::Gcp(GcpConfig::new("my-project").with_platform(GcpPlatform::AppEngine))
    );
    assert_eq!(config.log_format, LogFormat::Json);
}

#[test]
fn backend_from_env_returns_local_without_gcp_project() {
    let env = EnvSnapshot::new();

    let backend = TelemetryBackend::from_env(&env);

    assert_eq!(backend, TelemetryBackend::Local);
}

#[test]
fn backend_from_env_returns_gcp_with_project() {
    let mut env = EnvSnapshot::new();
    env.set("GOOGLE_CLOUD_PROJECT", "test-project");

    let backend = TelemetryBackend::from_env(&env);

    assert!(matches!(backend, TelemetryBackend::Gcp(_)));
}

#[test]
fn backend_from_env_is_the_same_for_the_same_environment() {
    let mut env = EnvSnapshot::new();
    env.set("GCP_PROJECT", "proj-a");
    env.set("K_SERVICE", "svc");

    let first = TelemetryBackend::from_env(&env);
    let second = TelemetryBackend::from_env(&env);

    assert_eq!(first, second);
    assert_eq!(
        first,
        TelemetryBackend::Gcp(GcpConfig::new("proj-a").with_platform(GcpPlatform::CloudRun))
    );
    assert_eq!(TelemetryBackend::from_env(&EnvSnapshot::new()), TelemetryBackend::Local);
    assert_eq!(TelemetryBackend::from_env(&EnvSnapshot::new()), TelemetryBackend::Local);
}

#[test]
fn config_from_env_auto_detects_gcp() {
    let mut env = EnvSnapshot::new();
    env.set("GOOGLE_CLOUD_PROJECT", "auto-detect-project");
    env.set("LOG_FORMAT", "json");

    let config = TelemetryConfig::from_env(&env);

    assert!(matches!(config.backend, TelemetryBackend::Gcp(_)));
    assert_eq!(config.log_format, LogFormat::Json);
}

#[test]
fn config_from_env_reads_every_variable() {
    let mut env = EnvSnapshot::new();
    env.set("OTEL_SERVICE_NAME", "orders");
    env.set("OTEL_SERVICE_VERSION", "3.1.4");
    env.set("OTEL_EXPORTER_OTLP_ENDPOINT", "http://collector:4317");
    env.set("RUST_LOG", "debug");
    env.set("LOG_FORMAT", "pretty");

    let config = TelemetryConfig::from_env(&env);

    assert_eq!(config.service_name, "orders");
    assert_eq!(config.service_version, "3.1.4");
    assert_eq!(config.otlp_endpoint, Some("http://collector:4317".to_string()));
    assert_eq!(config.log_level, "debug");
    assert_eq!(config.log_format, LogFormat::Pretty);
    assert_eq!(config.backend, TelemetryBackend::Local);
}

#[test]
fn config_from_empty_env_uses_defaults() {
    let config = TelemetryConfig::from_env(&EnvSnapshot::new());

    assert_eq!(config.service_name, DEFAULT_SERVICE_NAME);
    assert_eq!(config.service_version, DEFAULT_SERVICE_VERSION);
    assert_eq!(config.otlp_endpoint, None);
    assert_eq!(config.log_level, "info");
    assert_eq!(config.log_format, LogFormat::Pretty);
    assert_eq!(config.backend, TelemetryBackend::Local);
}

#[test]
fn config_from_env_unknown_log_format_is_pretty() {
    let mut env = EnvSnapshot::new();
    env.set("LOG_FORMAT", "JSON");

    assert_eq!(TelemetryConfig::from_env(&env).log_format, LogFormat::Pretty);
}

#[test]
fn env_snapshot_set_replaces_earlier_value() {
    let mut env = EnvSnapshot::new();
    env.set("A", "1");
    env.set("B", "2");
    env.set("A", "3");

    assert_eq!(env.get("A"), Some("3".to_string()));
    assert_eq!(env.get("B"), Some("2".to_string()));
    assert_eq!(env.get("C"), None);
    assert!(env.contains("B"));
    assert!(!env.contains("C"));
    assert_eq!(env.get_first("C", "B"), Some("2".to_string()));
    assert_eq!(env.get_first("A", "B"), Some("3".to_string()));
}
