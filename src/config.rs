//! The telemetry configuration: service identity, export endpoint, log
//! settings and the backend.

use vstd::prelude::*;
use crate::env::{opt_view, value_or, EnvSnapshot};
use crate::gcp::{
    detected_platform, gcp_config_from_env, project_from_env, same_settings, GcpConfig,
    FUNCTION_NAME, FUNCTION_TARGET, GAE_SERVICE, GAE_VERSION, GCLOUD_PROJECT, GCP_PROJECT,
    GOOGLE_CLOUD_PROJECT, K_REVISION, K_SERVICE, OTEL_EXPORTER_OTLP_ENDPOINT,
};

verus! {

/// Service name used when none is configured.
pub const DEFAULT_SERVICE_NAME: &'static str = "cloudtrace_telemetry";
/// Service version used when none is configured.
pub const DEFAULT_SERVICE_VERSION: &'static str = "0.1.0";
/// Log filter used when none is configured.
pub const DEFAULT_LOG_LEVEL: &'static str = "info";

/// Variables read for the service identity, log filter and log format.
pub const OTEL_SERVICE_NAME: &'static str = "OTEL_SERVICE_NAME";
pub const OTEL_SERVICE_VERSION: &'static str = "OTEL_SERVICE_VERSION";
pub const RUST_LOG: &'static str = "RUST_LOG";
pub const LOG_FORMAT: &'static str = "LOG_FORMAT";

/// How log records are rendered.
#[derive(Debug, Clone, Copy, PartialEq, Eq, Structural)]
pub enum LogFormat {
    /// Human-readable, for local development.
    Pretty,
    /// One JSON object per line, for a log-ingestion service.
    Json,
}

impl Default for LogFormat {
    fn default() -> (r: LogFormat)
        ensures
            r == LogFormat::Pretty,
    {
        LogFormat::Pretty
    }
}

/// The log format that a `LOG_FORMAT` value selects: `json` selects JSON,
/// anything else (or nothing) the human-readable form.
pub open spec fn log_format_from(v: Option<Seq<char>>) -> LogFormat {
    if v == Some("json"@) {
        LogFormat::Json
    } else {
        LogFormat::Pretty
    }
}

/// Where spans are exported.
#[derive(Debug, Clone, PartialEq, Eq)]
pub enum TelemetryBackend {
    /// Local development: an OTLP collector if one is configured, else nothing.
    Local,
    /// Google Cloud Trace.
    Gcp(GcpConfig),
}

impl Default for TelemetryBackend {
    fn default() -> (r: TelemetryBackend)
        ensures
            r is Local,
    {
        TelemetryBackend::Local
    }
}

/// Backend selection from the environment: Cloud Trace exactly when a cloud
/// project identifier is set, configured as `GcpConfig::from_env` says.
pub open spec fn backend_from_env(env: EnvSnapshot, b: TelemetryBackend) -> bool {
    match project_from_env(env) {
        None => b is Local,
        Some(_) => b matches TelemetryBackend::Gcp(g) && gcp_config_from_env(env, Some(g)),
    }
}

/// Backend selection depends on the environment alone: it is Cloud Trace
/// exactly when a cloud project identifier is set, for that project, and
/// Local otherwise.
pub proof fn lemma_backend_follows_project(env: EnvSnapshot, b: TelemetryBackend)
    requires
        backend_from_env(env, b),
    ensures
        project_from_env(env) is Some <==> b is Gcp,
        project_from_env(env) is None <==> b is Local,
        b matches TelemetryBackend::Gcp(g) ==> project_from_env(env) == Some(g.project_id@),
{
}

/// Two selections from environments that set the same variables to the
/// same values agree: both Local, or both Cloud Trace with the same project,
/// endpoint and platform.
pub proof fn lemma_backend_detection_deterministic(
    env1: EnvSnapshot,
    env2: EnvSnapshot,
    b1: TelemetryBackend,
    b2: TelemetryBackend,
)
    requires
        forall|name: Seq<char>| #[trigger] env1.var(name) == env2.var(name),
        backend_from_env(env1, b1),
        backend_from_env(env2, b2),
    ensures
        b1 is Local <==> b2 is Local,
        b1 matches TelemetryBackend::Gcp(g1) ==> b2 matches TelemetryBackend::Gcp(g2) && same_settings(g1, g2),
{
    assert(env1.var(GOOGLE_CLOUD_PROJECT@) == env2.var(GOOGLE_CLOUD_PROJECT@));
    assert(env1.var(GCLOUD_PROJECT@) == env2.var(GCLOUD_PROJECT@));
    assert(env1.var(GCP_PROJECT@) == env2.var(GCP_PROJECT@));
    assert(env1.var(OTEL_EXPORTER_OTLP_ENDPOINT@) == env2.var(OTEL_EXPORTER_OTLP_ENDPOINT@));
    assert(env1.var(K_SERVICE@) == env2.var(K_SERVICE@));
    assert(env1.var(K_REVISION@) == env2.var(K_REVISION@));
    assert(env1.var(FUNCTION_NAME@) == env2.var(FUNCTION_NAME@));
    assert(env1.var(FUNCTION_TARGET@) == env2.var(FUNCTION_TARGET@));
    assert(env1.var(GAE_SERVICE@) == env2.var(GAE_SERVICE@));
    assert(env1.var(GAE_VERSION@) == env2.var(GAE_VERSION@));
    assert(detected_platform(env1) == detected_platform(env2));
    assert(project_from_env(env1) == project_from_env(env2));
}

impl TelemetryBackend {
    /// Selects the backend from the environment: Cloud Trace when a cloud
    /// project is configured, otherwise Local.
    pub fn from_env(env: &EnvSnapshot) -> (r: TelemetryBackend)
        ensures
            backend_from_env(*env, r),
    {
        match GcpConfig::from_env(env) {
            Some(g) => TelemetryBackend::Gcp(g),
            None => TelemetryBackend::Local,
        }
    }
}

/// The telemetry configuration of one process.
#[derive(Debug, Clone)]
pub struct TelemetryConfig {
    pub service_name: String,
    pub service_version: String,
    pub otlp_endpoint: Option<String>,
    pub log_level: String,
    pub log_format: LogFormat,
    pub backend: TelemetryBackend,
}

/// What `TelemetryConfig::from_env` reads from an environment.
pub open spec fn config_from_env(env: EnvSnapshot, c: TelemetryConfig) -> bool {
    &&& c.service_name@ == value_or(env.var(OTEL_SERVICE_NAME@), DEFAULT_SERVICE_NAME@)
    &&& c.service_version@ == value_or(env.var(OTEL_SERVICE_VERSION@), DEFAULT_SERVICE_VERSION@)
    &&& opt_view(c.otlp_endpoint) == env.var(OTEL_EXPORTER_OTLP_ENDPOINT@)
    &&& c.log_level@ == value_or(env.var(RUST_LOG@), DEFAULT_LOG_LEVEL@)
    &&& c.log_format == log_format_from(env.var(LOG_FORMAT@))
    &&& backend_from_env(env, c.backend)
}

/// The value of a variable, or a default text.
fn var_or(env: &EnvSnapshot, name: &str, default: &str) -> (r: String)
    ensures
        r@ == value_or(env.var(name@), default@),
{
    match env.get(name) {
        Some(v) => v,
        None => String::from_str(default),
    }
}

impl TelemetryConfig {
    /// Configuration from the environment: `OTEL_SERVICE_NAME`,
    /// `OTEL_SERVICE_VERSION`, `OTEL_EXPORTER_OTLP_ENDPOINT`, `RUST_LOG`,
    /// `LOG_FORMAT`, and the backend detected from the cloud project.
    pub fn from_env(env: &EnvSnapshot) -> (r: TelemetryConfig)
        ensures
            config_from_env(*env, r),
    {
        let log_format = match env.get(LOG_FORMAT) {
            Some(v) => if v == String::from_str("json") {
                LogFormat::Json
            } else {
                LogFormat::Pretty
            },
            None => LogFormat::Pretty,
        };
        TelemetryConfig {
            service_name: var_or(env, OTEL_SERVICE_NAME, DEFAULT_SERVICE_NAME),
            service_version: var_or(env, OTEL_SERVICE_VERSION, DEFAULT_SERVICE_VERSION),
            otlp_endpoint: env.get(OTEL_EXPORTER_OTLP_ENDPOINT),
            log_level: var_or(env, RUST_LOG, DEFAULT_LOG_LEVEL),
            log_format,
            backend: TelemetryBackend::from_env(env),
        }
    }

    /// A local configuration for the given service, with no export endpoint,
    /// the `info` filter and human-readable logs.
    pub fn new(service_name: &str, service_version: &str) -> (r: TelemetryConfig)
        ensures
            r.service_name@ == service_name@,
            r.service_version@ == service_version@,
            r.otlp_endpoint is None,
            r.log_level@ == DEFAULT_LOG_LEVEL@,
            r.log_format == LogFormat::Pretty,
            r.backend is Local,
    {
        TelemetryConfig {
            service_name: String::from_str(service_name),
            service_version: String::from_str(service_version),
            otlp_endpoint: None,
            log_level: String::from_str(DEFAULT_LOG_LEVEL),
            log_format: LogFormat::Pretty,
            backend: TelemetryBackend::Local,
        }
    }

    pub fn with_log_format(self, format: LogFormat) -> (r: TelemetryConfig)
        ensures
            r == (TelemetryConfig { log_format: format, ..self }),
    {
        TelemetryConfig { log_format: format, ..self }
    }

    /// A builder in which nothing is set yet.
    pub fn builder() -> (r: TelemetryConfigBuilder)
        ensures
            r.is_empty(),
    {
        TelemetryConfigBuilder::default()
    }

    pub fn with_backend(self, backend: TelemetryBackend) -> (r: TelemetryConfig)
        ensures
            r == (TelemetryConfig { backend, ..self }),
    {
        TelemetryConfig { backend, ..self }
    }

    pub fn with_otlp_endpoint(self, endpoint: &str) -> (r: TelemetryConfig)
        ensures
            r.otlp_endpoint matches Some(e) && e@ == endpoint@,
            r.service_name == self.service_name,
            r.service_version == self.service_version,
            r.log_level == self.log_level,
            r.log_format == self.log_format,
            r.backend == self.backend,
    {
        TelemetryConfig { otlp_endpoint: Some(String::from_str(endpoint)), ..self }
    }

    pub fn with_log_level(self, level: &str) -> (r: TelemetryConfig)
        ensures
            r.log_level@ == level@,
            r.service_name == self.service_name,
            r.service_version == self.service_version,
            r.otlp_endpoint == self.otlp_endpoint,
            r.log_format == self.log_format,
            r.backend == self.backend,
    {
        TelemetryConfig { log_level: String::from_str(level), ..self }
    }
}

/// Builds a `TelemetryConfig`; whatever is left unset takes its default.
#[derive(Debug)]
pub struct TelemetryConfigBuilder {
    pub service_name: Option<String>,
    pub service_version: Option<String>,
    pub otlp_endpoint: Option<String>,
    pub log_level: Option<String>,
    pub log_format: Option<LogFormat>,
    pub backend: Option<TelemetryBackend>,
}

/// The configuration that a builder's settings produce.
pub open spec fn built_config(b: TelemetryConfigBuilder, c: TelemetryConfig) -> bool {
    &&& c.service_name@ == value_or(opt_view(b.service_name), DEFAULT_SERVICE_NAME@)
    &&& c.service_version@ == value_or(opt_view(b.service_version), DEFAULT_SERVICE_VERSION@)
    &&& c.otlp_endpoint == b.otlp_endpoint
    &&& c.log_level@ == value_or(opt_view(b.log_level), DEFAULT_LOG_LEVEL@)
    &&& c.log_format == match b.log_format {
        Some(f) => f,
        None => LogFormat::Pretty,
    }
    &&& c.backend == match b.backend {
        Some(k) => k,
        None => TelemetryBackend::Local,
    }
}

impl Default for TelemetryConfigBuilder {
    fn default() -> (r: TelemetryConfigBuilder)
        ensures
            r.is_empty(),
    {
        TelemetryConfigBuilder {
            service_name: None,
            service_version: None,
            otlp_endpoint: None,
            log_level: None,
            log_format: None,
            backend: None,
        }
    }
}

impl TelemetryConfigBuilder {
    /// Nothing has been set.
    pub open spec fn is_empty(&self) -> bool {
        &&& self.service_name is None
        &&& self.service_version is None
        &&& self.otlp_endpoint is None
        &&& self.log_level is None
        &&& self.log_format is None
        &&& self.backend is None
    }

    pub fn service_name(self, name: &str) -> (r: TelemetryConfigBuilder)
        ensures
            opt_view(r.service_name) == Some(name@),
            r.service_version == self.service_version,
            r.otlp_endpoint == self.otlp_endpoint,
            r.log_level == self.log_level,
            r.log_format == self.log_format,
            r.backend == self.backend,
    {
        TelemetryConfigBuilder { service_name: Some(String::from_str(name)), ..self }
    }

    pub fn service_version(self, version: &str) -> (r: TelemetryConfigBuilder)
        ensures
            opt_view(r.service_version) == Some(version@),
            r.service_name == self.service_name,
            r.otlp_endpoint == self.otlp_endpoint,
            r.log_level == self.log_level,
            r.log_format == self.log_format,
            r.backend == self.backend,
    {
        TelemetryConfigBuilder { service_version: Some(String::from_str(version)), ..self }
    }

    pub fn otlp_endpoint(self, endpoint: &str) -> (r: TelemetryConfigBuilder)
        ensures
            opt_view(r.otlp_endpoint) == Some(endpoint@),
            r.service_name == self.service_name,
            r.service_version == self.service_version,
            r.log_level == self.log_level,
            r.log_format == self.log_format,
            r.backend == self.backend,
    {
        TelemetryConfigBuilder { otlp_endpoint: Some(String::from_str(endpoint)), ..self }
    }

    pub fn log_level(self, level: &str) -> (r: TelemetryConfigBuilder)
        ensures
            opt_view(r.log_level) == Some(level@),
            r.service_name == self.service_name,
            r.service_version == self.service_version,
            r.otlp_endpoint == self.otlp_endpoint,
            r.log_format == self.log_format,
            r.backend == self.backend,
    {
        TelemetryConfigBuilder { log_level: Some(String::from_str(level)), ..self }
    }

    pub fn log_format(self, format: LogFormat) -> (r: TelemetryConfigBuilder)
        ensures
            r == (TelemetryConfigBuilder { log_format: Some(format), ..self }),
    {
        TelemetryConfigBuilder { log_format: Some(format), ..self }
    }

    /// Selects JSON logs.
    pub fn json(self) -> (r: TelemetryConfigBuilder)
        ensures
            r == (TelemetryConfigBuilder { log_format: Some(LogFormat::Json), ..self }),
    {
        self.log_format(LogFormat::Json)
    }

    /// Selects human-readable logs.
    pub fn pretty(self) -> (r: TelemetryConfigBuilder)
        ensures
            r == (TelemetryConfigBuilder { log_format: Some(LogFormat::Pretty), ..self }),
    {
        self.log_format(LogFormat::Pretty)
    }

    pub fn backend(self, backend: TelemetryBackend) -> (r: TelemetryConfigBuilder)
        ensures
            r == (TelemetryConfigBuilder { backend: Some(backend), ..self }),
    {
        TelemetryConfigBuilder { backend: Some(backend), ..self }
    }

    /// Selects the Cloud Trace backend with the given settings.
    pub fn gcp(self, gcp_config: GcpConfig) -> (r: TelemetryConfigBuilder)
        ensures
            r == (TelemetryConfigBuilder { backend: Some(TelemetryBackend::Gcp(gcp_config)), ..self }),
    {
        self.backend(TelemetryBackend::Gcp(gcp_config))
    }

    /// The configuration, with defaults for whatever was not set.
    pub fn build(self) -> (r: TelemetryConfig)
        ensures
            built_config(self, r),
    {
        let service_name = match self.service_name {
            Some(n) => n,
            None => String::from_str(DEFAULT_SERVICE_NAME),
        };
        let service_version = match self.service_version {
            Some(v) => v,
            None => String::from_str(DEFAULT_SERVICE_VERSION),
        };
        let log_level = match self.log_level {
            Some(l) => l,
            None => String::from_str(DEFAULT_LOG_LEVEL),
        };
        let log_format = match self.log_format {
            Some(f) => f,
            None => LogFormat::Pretty,
        };
        let backend = match self.backend {
            Some(b) => b,
            None => TelemetryBackend::Local,
        };
        TelemetryConfig {
            service_name,
            service_version,
            otlp_endpoint: self.otlp_endpoint,
            log_level,
            log_format,
            backend,
        }
    }
}

} // verus!
