//! Google Cloud settings: the hosting platform and the Cloud Trace project.

use vstd::prelude::*;
use crate::env::{first_of, value_or, EnvSnapshot};

verus! {

/// Cloud Trace ingestion endpoint used when none is configured.
pub const DEFAULT_ENDPOINT: &'static str = "https://telemetry.googleapis.com";

/// Variables naming the cloud project, in order of precedence.
pub const GOOGLE_CLOUD_PROJECT: &'static str = "GOOGLE_CLOUD_PROJECT";
pub const GCLOUD_PROJECT: &'static str = "GCLOUD_PROJECT";
pub const GCP_PROJECT: &'static str = "GCP_PROJECT";
/// Variable overriding the export endpoint.
pub const OTEL_EXPORTER_OTLP_ENDPOINT: &'static str = "OTEL_EXPORTER_OTLP_ENDPOINT";
/// Marker variables of Cloud Run, Cloud Functions and App Engine.
pub const K_SERVICE: &'static str = "K_SERVICE";
pub const K_REVISION: &'static str = "K_REVISION";
pub const FUNCTION_NAME: &'static str = "FUNCTION_NAME";
pub const FUNCTION_TARGET: &'static str = "FUNCTION_TARGET";
pub const GAE_SERVICE: &'static str = "GAE_SERVICE";
pub const GAE_VERSION: &'static str = "GAE_VERSION";

/// Google Cloud hosting platforms, named as in OpenTelemetry's `cloud.platform`.
#[derive(Debug, Clone, Copy, PartialEq, Eq, Structural)]
pub enum GcpPlatform {
    CloudRun,
    CloudFunctions,
    AppEngine,
    ComputeEngine,
    KubernetesEngine,
}

/// The semantic-convention value of a platform.
pub open spec fn platform_name(p: GcpPlatform) -> Seq<char> {
    match p {
        GcpPlatform::CloudRun => "gcp_cloud_run"@,
        GcpPlatform::CloudFunctions => "gcp_cloud_functions"@,
        GcpPlatform::AppEngine => "gcp_app_engine"@,
        GcpPlatform::ComputeEngine => "gcp_compute_engine"@,
        GcpPlatform::KubernetesEngine => "gcp_kubernetes_engine"@,
    }
}

/// The platform that the environment's marker variables indicate.
pub open spec fn detected_platform(env: EnvSnapshot) -> Option<GcpPlatform> {
    if env.var(K_SERVICE@) is Some || env.var(K_REVISION@) is Some {
        Some(GcpPlatform::CloudRun)
    } else if env.var(FUNCTION_NAME@) is Some || env.var(FUNCTION_TARGET@) is Some {
        Some(GcpPlatform::CloudFunctions)
    } else if env.var(GAE_SERVICE@) is Some || env.var(GAE_VERSION@) is Some {
        Some(GcpPlatform::AppEngine)
    } else {
        None
    }
}

impl Default for GcpPlatform {
    fn default() -> (r: GcpPlatform)
        ensures
            r == GcpPlatform::CloudRun,
    {
        GcpPlatform::CloudRun
    }
}

impl GcpPlatform {
    /// Returns the OpenTelemetry semantic-convention value.
    pub fn as_str(&self) -> (r: &'static str)
        ensures
            r@ == platform_name(*self),
    {
        match self {
            GcpPlatform::CloudRun => "gcp_cloud_run",
            GcpPlatform::CloudFunctions => "gcp_cloud_functions",
            GcpPlatform::AppEngine => "gcp_app_engine",
            GcpPlatform::ComputeEngine => "gcp_compute_engine",
            GcpPlatform::KubernetesEngine => "gcp_kubernetes_engine",
        }
    }

    /// Detects the platform from its marker variables: Cloud Run
    /// (`K_SERVICE`, `K_REVISION`), then Cloud Functions (`FUNCTION_NAME`,
    /// `FUNCTION_TARGET`), then App Engine (`GAE_SERVICE`, `GAE_VERSION`).
    pub fn detect(env: &EnvSnapshot) -> (r: Option<GcpPlatform>)
        ensures
            r == detected_platform(*env),
    {
        if env.contains(K_SERVICE) || env.contains(K_REVISION) {
            Some(GcpPlatform::CloudRun)
        } else if env.contains(FUNCTION_NAME) || env.contains(FUNCTION_TARGET) {
            Some(GcpPlatform::CloudFunctions)
        } else if env.contains(GAE_SERVICE) || env.contains(GAE_VERSION) {
            Some(GcpPlatform::AppEngine)
        } else {
            None
        }
    }
}

/// Settings of the Cloud Trace backend.
#[derive(Debug, Clone, PartialEq, Eq)]
pub struct GcpConfig {
    pub project_id: String,
    pub endpoint: String,
    pub platform: GcpPlatform,
}

/// Two Cloud Trace settings name the same project, endpoint and platform.
pub open spec fn same_settings(a: GcpConfig, b: GcpConfig) -> bool {
    a.project_id@ == b.project_id@ && a.endpoint@ == b.endpoint@ && a.platform == b.platform
}

/// The project identifier the environment names, by order of precedence.
pub open spec fn project_from_env(env: EnvSnapshot) -> Option<Seq<char>> {
    first_of(env.var(GOOGLE_CLOUD_PROJECT@), first_of(env.var(GCLOUD_PROJECT@), env.var(GCP_PROJECT@)))
}

/// What `GcpConfig::from_env` yields: `None` without a project identifier;
/// otherwise the project, the endpoint override or the default endpoint, and
/// the detected platform (Cloud Run when none is detected).
pub open spec fn gcp_config_from_env(env: EnvSnapshot, c: Option<GcpConfig>) -> bool {
    match project_from_env(env) {
        None => c is None,
        Some(project) => c matches Some(g) && g.project_id@ == project
            && g.endpoint@ == value_or(env.var(OTEL_EXPORTER_OTLP_ENDPOINT@), DEFAULT_ENDPOINT@)
            && g.platform == match detected_platform(env) {
                Some(p) => p,
                None => GcpPlatform::CloudRun,
            },
    }
}

impl GcpConfig {
    /// Settings for `project_id` with the default endpoint and platform.
    pub fn new(project_id: &str) -> (r: GcpConfig)
        ensures
            r.project_id@ == project_id@,
            r.endpoint@ == DEFAULT_ENDPOINT@,
            r.platform == GcpPlatform::CloudRun,
    {
        GcpConfig {
            project_id: String::from_str(project_id),
            endpoint: String::from_str(DEFAULT_ENDPOINT),
            platform: GcpPlatform::default(),
        }
    }

    pub fn with_endpoint(self, endpoint: &str) -> (r: GcpConfig)
        ensures
            r.endpoint@ == endpoint@,
            r.project_id == self.project_id,
            r.platform == self.platform,
    {
        GcpConfig { endpoint: String::from_str(endpoint), ..self }
    }

    pub fn with_platform(self, platform: GcpPlatform) -> (r: GcpConfig)
        ensures
            r.platform == platform,
            r.project_id == self.project_id,
            r.endpoint == self.endpoint,
    {
        GcpConfig { platform, ..self }
    }

    /// Settings from the environment: the project from `GOOGLE_CLOUD_PROJECT`,
    /// `GCLOUD_PROJECT` or `GCP_PROJECT`, the endpoint from
    /// `OTEL_EXPORTER_OTLP_ENDPOINT`, the platform detected from its markers.
    /// `None` when no project is set.
    pub fn from_env(env: &EnvSnapshot) -> (r: Option<GcpConfig>)
        ensures
            gcp_config_from_env(*env, r),
    {
        let project_id = match env.get(GOOGLE_CLOUD_PROJECT) {
            Some(p) => p,
            None => match env.get_first(GCLOUD_PROJECT, GCP_PROJECT) {
                Some(p) => p,
                None => return None,
            },
        };
        let endpoint = match env.get(OTEL_EXPORTER_OTLP_ENDPOINT) {
            Some(e) => e,
            None => String::from_str(DEFAULT_ENDPOINT),
        };
        let platform = match GcpPlatform::detect(env) {
            Some(p) => p,
            None => GcpPlatform::default(),
        };
        Some(GcpConfig { project_id, endpoint, platform })
    }
}

} // verus!
