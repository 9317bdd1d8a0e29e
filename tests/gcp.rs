use cloudtrace_telemetry::gcp::DEFAULT_ENDPOINT;
use cloudtrace_telemetry::{EnvSnapshot, GcpConfig, GcpPlatform};

#[test]
fn gcp_platform_default_is_cloud_run() {
    assert_eq!(GcpPlatform::default(), GcpPlatform::CloudRun);
}

#[test]
fn gcp_platform_as_str_returns_semconv_values() {
    assert_eq!(GcpPlatform::CloudRun.as_str(), "gcp_cloud_run");
    assert_eq!(GcpPlatform::CloudFunctions.as_str(), "gcp_cloud_functions");
    assert_eq!(GcpPlatform::AppEngine.as_str(), "gcp_app_engine");
    assert_eq!(GcpPlatform::ComputeEngine.as_str(), "gcp_compute_engine");
    assert_eq!(GcpPlatform::KubernetesEngine.as_str(), "gcp_kubernetes_engine");
}

#[test]
fn gcp_config_new_uses_defaults() {
    let config = GcpConfig::new("my-project");

    assert_eq!(config.project_id, "my-project");
    assert_eq!(config.endpoint, DEFAULT_ENDPOINT);
    assert_eq!(config.platform, GcpPlatform::CloudRun);
}

#[test]
fn gcp_config_with_endpoint() {
    let config = GcpConfig::new("proj").with_endpoint("https://custom.example.com");

    assert_eq!(config.endpoint, "https://custom.example.com");
}

#[test]
fn gcp_config_with_platform() {
    let config = GcpConfig::new("proj").with_platform(GcpPlatform::CloudFunctions);

    assert_eq!(config.platform, GcpPlatform::CloudFunctions);
}

#[test]
fn gcp_config_builder_chain() {
    let config = GcpConfig::new("my-project")
        .with_platform(GcpPlatform::AppEngine)
        .with_endpoint("https://trace.example.com");

    assert_eq!(config.project_id, "my-project");
    assert_eq!(config.platform, GcpPlatform::AppEngine);
    assert_eq!(config.endpoint, "https://trace.example.com");
}

#[test]
fn gcp_platform_detect_cloud_run() {
    let mut env = EnvSnapshot::new();
    env.set("K_SERVICE", "my-service");

    assert_eq!(GcpPlatform::detect(&env), Some(GcpPlatform::CloudRun));
}

#[test]
fn gcp_platform_detect_cloud_run_revision() {
    let mut env = EnvSnapshot::new();
    env.set("K_REVISION", "my-service-00001");

    assert_eq!(GcpPlatform::detect(&env), Some(GcpPlatform::CloudRun));
}

#[test]
fn gcp_platform_detect_cloud_functions() {
    let mut env = EnvSnapshot::new();
    env.set("FUNCTION_NAME", "my-function");

    assert_eq!(GcpPlatform::detect(&env), Some(GcpPlatform::CloudFunctions));
}

#[test]
fn gcp_platform_detect_cloud_functions_target() {
    let mut env = EnvSnapshot::new();
    env.set("FUNCTION_TARGET", "handler");

    assert_eq!(GcpPlatform::detect(&env), Some(GcpPlatform::CloudFunctions));
}

#[test]
fn gcp_platform_detect_app_engine() {
    let mut env = EnvSnapshot::new();
    env.set("GAE_SERVICE", "default");

    assert_eq!(GcpPlatform::detect(&env), Some(GcpPlatform::AppEngine));
}

#[test]
fn gcp_platform_detect_prefers_cloud_run() {
    let mut env = EnvSnapshot::new();
    env.set("GAE_VERSION", "v1");
    env.set("FUNCTION_NAME", "f");
    env.set("K_SERVICE", "s");

    assert_eq!(GcpPlatform::detect(&env), Some(GcpPlatform::CloudRun));
}

#[test]
fn gcp_platform_detect_none_when_no_env() {
    let env = EnvSnapshot::new();

    assert_eq!(GcpPlatform::detect(&env), None);
}

#[test]
fn gcp_config_from_env_returns_none_without_project() {
    let mut env = EnvSnapshot::new();
    env.set("K_SERVICE", "svc");

    assert!(GcpConfig::from_env(&env).is_none());
}

#[test]
fn gcp_config_from_env_with_project() {
    let mut env = EnvSnapshot::new();
    env.set("GOOGLE_CLOUD_PROJECT", "test-project");

    let config = GcpConfig::from_env(&env).unwrap();
    assert_eq!(config.project_id, "test-project");
    assert_eq!(config.endpoint, DEFAULT_ENDPOINT);
}

#[test]
fn gcp_config_from_env_with_custom_endpoint() {
    let mut env = EnvSnapshot::new();
    env.set("GOOGLE_CLOUD_PROJECT", "proj");
    env.set("OTEL_EXPORTER_OTLP_ENDPOINT", "http://localhost:4317");

    let config = GcpConfig::from_env(&env).unwrap();
    assert_eq!(config.endpoint, "http://localhost:4317");
}

#[test]
fn gcp_config_from_env_project_precedence() {
    let mut env = EnvSnapshot::new();
    env.set("GCP_PROJECT", "third");
    assert_eq!(GcpConfig::from_env(&env).unwrap().project_id, "third");

    env.set("GCLOUD_PROJECT", "second");
    assert_eq!(GcpConfig::from_env(&env).unwrap().project_id, "second");

    env.set("GOOGLE_CLOUD_PROJECT", "first");
    env.set("FUNCTION_NAME", "fn");
    let config = GcpConfig::from_env(&env).unwrap();
    assert_eq!(config.project_id, "first");
    assert_eq!(config.platform, GcpPlatform::CloudFunctions);
}
