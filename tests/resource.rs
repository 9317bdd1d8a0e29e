use cloudtrace_telemetry::resource::{base_attributes, build_base_resource, build_resource};
use cloudtrace_telemetry::{
    Attribute, AttributeKey, AttributeValue, EnvSnapshot, GcpPlatform, GcpResourceBuilder, TelemetryConfig,
};

fn test_config() -> TelemetryConfig {
    TelemetryConfig::new("test-service", "1.2.3")
}

fn text(key: AttributeKey, value: &str) -> Attribute {
    Attribute { key, value: AttributeValue::Str(value.to_string()) }
}

#[test]
fn base_attributes_contains_service_name() {
    let config = test_config();
    let attrs = base_attributes(&config);

    let has_service_name = attrs.iter().any(|kv| {
        kv.key == AttributeKey::ServiceName && kv.value == AttributeValue::Str("test-service".to_string())
    });

    assert!(has_service_name);
}

#[test]
fn base_attributes_contains_service_version() {
    let config = test_config();
    let attrs = base_attributes(&config);

    let has_version = attrs
        .iter()
        .any(|kv| kv.key == AttributeKey::ServiceVersion && kv.value == AttributeValue::Str("1.2.3".to_string()));

    assert!(has_version);
}

#[test]
fn base_attributes_has_two_entries() {
    let config = test_config();
    let attrs = base_attributes(&config);

    assert_eq!(attrs.len(), 2);
}

#[test]
fn build_resource_includes_additional_attrs() {
    let config = test_config();
    let additional = vec![
        text(AttributeKey::Custom("custom.attr".to_string()), "value"),
        text(AttributeKey::Custom("another.attr".to_string()), "123"),
    ];

    let resource = build_resource(&config, additional);

    assert!(!resource.is_empty());
    assert_eq!(resource.len(), 4);
    assert_eq!(
        resource.attributes(),
        &vec![
            text(AttributeKey::ServiceName, "test-service"),
            text(AttributeKey::ServiceVersion, "1.2.3"),
            text(AttributeKey::Custom("custom.attr".to_string()), "value"),
            text(AttributeKey::Custom("another.attr".to_string()), "123"),
        ]
    );
}

#[test]
fn build_resource_keeps_typed_values_in_order() {
    let config = test_config();
    let additional = vec![
        Attribute { key: AttributeKey::Custom("flag".to_string()), value: AttributeValue::Bool(true) },
        Attribute { key: AttributeKey::Custom("count".to_string()), value: AttributeValue::Int(-5) },
    ];

    let resource = build_resource(&config, additional.clone());

    assert_eq!(&resource.attributes()[2..], &additional[..]);
}

#[test]
fn build_base_resource_lists_name_then_version() {
    let resource = build_base_resource(&TelemetryConfig::builder().build());

    assert_eq!(resource.len(), 2);
    assert_eq!(resource.attributes()[0].key, AttributeKey::ServiceName);
    assert_eq!(resource.attributes()[1].key, AttributeKey::ServiceVersion);
    match (&resource.attributes()[0].value, &resource.attributes()[1].value) {
        (AttributeValue::Str(name), AttributeValue::Str(version)) => {
            assert!(!name.is_empty());
            assert!(!version.is_empty());
        }
        _ => panic!("service name and version are strings"),
    }
}

#[test]
fn gcp_resource_builder_includes_base_attributes() {
    let config = TelemetryConfig::new("test-service", "1.0.0");
    let builder = GcpResourceBuilder::new("my-project", GcpPlatform::CloudRun, &EnvSnapshot::new());

    let resource = builder.build(&config);

    assert!(!resource.is_empty());
    assert_eq!(
        resource.attributes(),
        &vec![
            text(AttributeKey::ServiceName, "test-service"),
            text(AttributeKey::ServiceVersion, "1.0.0"),
            text(AttributeKey::CloudProvider, "gcp"),
            text(AttributeKey::CloudPlatform, "gcp_cloud_run"),
            text(AttributeKey::CloudAccountId, "my-project"),
            text(AttributeKey::GcpProjectId, "my-project"),
        ]
    );
}

#[test]
fn gcp_resource_builder_with_region() {
    let config = TelemetryConfig::new("test-service", "1.0.0");
    let builder =
        GcpResourceBuilder::new("my-project", GcpPlatform::CloudRun, &EnvSnapshot::new()).with_region("us-central1");

    let resource = builder.build(&config);

    assert!(!resource.is_empty());
    assert_eq!(resource.len(), 7);
    assert_eq!(resource.attributes()[6], text(AttributeKey::CloudRegion, "us-central1"));
}

#[test]
fn gcp_resource_builder_with_service_and_revision() {
    let config = TelemetryConfig::new("test-service", "1.0.0");
    let builder = GcpResourceBuilder::new("my-project", GcpPlatform::CloudRun, &EnvSnapshot::new())
        .with_service("my-service")
        .with_revision("rev-001");

    let resource = builder.build(&config);

    assert!(!resource.is_empty());
    assert_eq!(resource.len(), 8);
    assert_eq!(resource.attributes()[6], text(AttributeKey::FaasName, "my-service"));
    assert_eq!(resource.attributes()[7], text(AttributeKey::FaasVersion, "rev-001"));
}

#[test]
fn gcp_resource_builder_chain_methods() {
    let config = TelemetryConfig::new("test-service", "1.0.0");
    let builder = GcpResourceBuilder::new("proj", GcpPlatform::CloudFunctions, &EnvSnapshot::new())
        .with_region("europe-west1")
        .with_service("my-function")
        .with_revision("v2");

    let resource = builder.build(&config);

    assert!(!resource.is_empty());
    assert_eq!(
        &resource.attributes()[2..],
        &[
            text(AttributeKey::CloudProvider, "gcp"),
            text(AttributeKey::CloudPlatform, "gcp_cloud_functions"),
            text(AttributeKey::CloudAccountId, "proj"),
            text(AttributeKey::GcpProjectId, "proj"),
            text(AttributeKey::CloudRegion, "europe-west1"),
            text(AttributeKey::FaasName, "my-function"),
            text(AttributeKey::FaasVersion, "v2"),
        ][..]
    );
}

#[test]
fn gcp_resource_builder_reads_environment() {
    let mut env = EnvSnapshot::new();
    env.set("GAE_REGION", "asia-east1");
    env.set("FUNCTION_REGION", "us-east1");
    env.set("GAE_SERVICE", "default");
    env.set("GAE_VERSION", "20240101");

    let builder = GcpResourceBuilder::new("p", GcpPlatform::AppEngine, &env);

    assert_eq!(builder.project_id, "p");
    assert_eq!(builder.region, Some("us-east1".to_string()));
    assert_eq!(builder.service_id, Some("default".to_string()));
    assert_eq!(builder.revision, Some("20240101".to_string()));
}
