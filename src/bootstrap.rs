//! Bootstrap and lifecycle: which exporter and resource each backend needs,
//! the order of the bootstrap steps, the guard against installing the
//! pipeline twice, and the handle whose release flushes it.
//!
//! The program performs each step (fetching credentials, building the
//! transport, installing the subscriber) and reports the outcome here.

use vstd::prelude::*;
use crate::config::{TelemetryBackend, TelemetryConfig};
use crate::env::EnvSnapshot;
use crate::error::TelemetryError;
use crate::gcp::{same_settings, GcpConfig};
use crate::resource::{
    base_entries, build_base_resource, env_region, env_revision, env_service, gcp_resource_entries,
    lists, GcpResourceBuilder, ResourceAttributes,
};

verus! {

/// How long the flush on release may take, in milliseconds.
pub const SHUTDOWN_TIMEOUT_MS: u64 = 5000;

/// The span exporter a backend needs.
#[derive(Debug)]
pub enum ExporterPlan {
    /// No exporter: spans are dropped. Disabled tracing is a supported mode.
    Disabled,
    /// OTLP over gRPC to `endpoint`, without authentication.
    Otlp { endpoint: String },
    /// OTLP over gRPC with TLS and the platform's certificate roots, each
    /// request carrying a bearer token for `project_id`.
    CloudTrace { endpoint: String, project_id: String },
}

/// Everything needed to build a tracer provider for one backend.
#[derive(Debug)]
pub struct TracerPlan {
    pub resource: ResourceAttributes,
    pub exporter: ExporterPlan,
}

/// The local backend: exports to a collector when an endpoint is
/// configured, and drops spans otherwise.
#[derive(Debug)]
pub struct DefaultProvider;

impl DefaultProvider {
    /// The resource carries the service name and version; the exporter is
    /// plain OTLP to the configured endpoint, or none.
    pub fn build_tracer_provider(&self, config: &TelemetryConfig) -> (r: TracerPlan)
        ensures
            lists(r.resource@, base_entries(*config)),
            match config.otlp_endpoint {
                Some(e) => r.exporter matches ExporterPlan::Otlp { endpoint } && endpoint@ == e@,
                None => r.exporter is Disabled,
            },
    {
        let resource = build_base_resource(config);
        let exporter = match &config.otlp_endpoint {
            Some(endpoint) => ExporterPlan::Otlp { endpoint: endpoint.clone() },
            None => ExporterPlan::Disabled,
        };
        TracerPlan { resource, exporter }
    }
}

/// The Cloud Trace backend.
#[derive(Debug)]
pub struct GcpProvider {
    pub config: GcpConfig,
}

/// A plan for Cloud Trace: authenticated export of the project to the
/// configured endpoint, with the platform attributes found in `env`.
pub open spec fn gcp_plan(g: GcpConfig, config: TelemetryConfig, env: EnvSnapshot, p: TracerPlan) -> bool {
    &&& lists(
        p.resource@,
        base_entries(config) + gcp_resource_entries(
            g.project_id@,
            g.platform,
            env_region(env),
            env_service(env),
            env_revision(env),
        ),
    )
    &&& p.exporter matches ExporterPlan::CloudTrace { endpoint, project_id }
    &&& endpoint@ == g.endpoint@
    &&& project_id@ == g.project_id@
}

impl GcpProvider {
    pub fn new(config: GcpConfig) -> (r: GcpProvider)
        ensures
            r.config == config,
    {
        GcpProvider { config }
    }

    /// The plan for this project, given the outcome of acquiring the
    /// ambient credential source. A failure is an `Auth` error, passed on
    /// unchanged: nothing is planned, and there is no fallback to the local
    /// backend.
    pub fn build_tracer_provider(
        &self,
        config: &TelemetryConfig,
        env: &EnvSnapshot,
        credentials: Result<(), String>,
    ) -> (r: Result<TracerPlan, TelemetryError>)
        ensures
            match credentials {
                Err(m) => r matches Err(TelemetryError::Auth(e)) && e@ == m@,
                Ok(_) => r matches Ok(p) && gcp_plan(self.config, *config, *env, p),
            },
    {
        match credentials {
            Err(m) => Err(TelemetryError::Auth(m)),
            Ok(_) => {
                let builder = GcpResourceBuilder::new(self.config.project_id.as_str(), self.config.platform, env);
                let resource = builder.build(config);
                let exporter = ExporterPlan::CloudTrace {
                    endpoint: self.config.endpoint.clone(),
                    project_id: self.config.project_id.clone(),
                };
                Ok(TracerPlan { resource, exporter })
            },
        }
    }
}

/// The first step of a bootstrap.
#[derive(Debug)]
pub enum InitStep {
    /// Build the exporter this plan describes, then call `install`.
    Build(TracerPlan),
    /// Obtain the ambient default credential source for `TRACE_SCOPE`, then
    /// call `credentials_ready` with the outcome.
    AcquireCredentials(GcpProvider),
}

/// Whether a telemetry pipeline is installed in this process. One value of
/// this type stands for the process; it is passed to every bootstrap.
#[derive(Debug)]
pub struct TelemetryState {
    installed: bool,
}

impl TelemetryState {
    /// Whether a pipeline has been installed.
    pub closed spec fn spec_installed(&self) -> bool {
        self.installed
    }

    /// A process in which nothing is installed yet.
    pub fn new() -> (r: TelemetryState)
        ensures
            !r.spec_installed(),
    {
        TelemetryState { installed: false }
    }

    pub fn is_installed(&self) -> (r: bool)
        ensures
            r == self.spec_installed(),
    {
        self.installed
    }

    /// Starts a bootstrap: refused when a pipeline is installed; the local
    /// backend goes straight to building; Cloud Trace first needs a
    /// credential source.
    pub fn begin(&self, config: &TelemetryConfig, env: &EnvSnapshot) -> (r: Result<InitStep, TelemetryError>)
        ensures
            self.spec_installed() ==> r matches Err(TelemetryError::AlreadyInitialized),
            !self.spec_installed() ==> match config.backend {
                TelemetryBackend::Local => r matches Ok(InitStep::Build(p)) && lists(
                    p.resource@,
                    base_entries(*config),
                ) && match config.otlp_endpoint {
                    Some(e) => p.exporter matches ExporterPlan::Otlp { endpoint } && endpoint@ == e@,
                    None => p.exporter is Disabled,
                },
                TelemetryBackend::Gcp(g) => r matches Ok(InitStep::AcquireCredentials(p)) && same_settings(p.config, g),
            },
    {
        if self.installed {
            return Err(TelemetryError::AlreadyInitialized);
        }
        match &config.backend {
            TelemetryBackend::Local => {
                let provider = DefaultProvider;
                Ok(InitStep::Build(provider.build_tracer_provider(config)))
            },
            TelemetryBackend::Gcp(g) => {
                let settings = GcpConfig {
                    project_id: g.project_id.clone(),
                    endpoint: g.endpoint.clone(),
                    platform: g.platform,
                };
                Ok(InitStep::AcquireCredentials(GcpProvider::new(settings)))
            },
        }
    }

    /// Continues a Cloud Trace bootstrap with the outcome of acquiring a
    /// credential source. A failure is an `Auth` error: there is no fallback
    /// to the local backend.
    pub fn credentials_ready(
        &self,
        provider: &GcpProvider,
        config: &TelemetryConfig,
        env: &EnvSnapshot,
        outcome: Result<(), String>,
    ) -> (r: Result<TracerPlan, TelemetryError>)
        ensures
            match outcome {
                Err(m) => r matches Err(TelemetryError::Auth(e)) && e@ == m@,
                Ok(_) => r matches Ok(p) && gcp_plan(provider.config, *config, *env, p),
            },
    {
        provider.build_tracer_provider(config, env, outcome)
    }

    /// Records the outcome of building the planned exporter and claims the
    /// process-wide pipeline: the handle is returned, and the caller then
    /// installs the global tracer and subscriber and reports that with
    /// `subscriber_installed`. A disabled exporter has nothing to build, so
    /// it never fails. Nothing is claimed when the build failed, nor when a
    /// pipeline is already installed.
    pub fn install(&mut self, plan: &TracerPlan, built: Result<(), String>) -> (r: Result<TelemetryHandle, TelemetryError>)
        ensures
            old(self).spec_installed() ==> (r matches Err(TelemetryError::AlreadyInitialized))
                && final(self).spec_installed(),
            !old(self).spec_installed() && (plan.exporter is Disabled || built is Ok) ==> (r matches Ok(h)
                && !h.spec_released() && h.spec_exports() == !(plan.exporter is Disabled))
                && final(self).spec_installed(),
            !old(self).spec_installed() && !(plan.exporter is Disabled) ==> match built {
                Err(m) => (r matches Err(TelemetryError::Exporter(e)) && e@ == m@) && !final(self).spec_installed(),
                Ok(_) => true,
            },
    {
        if self.installed {
            return Err(TelemetryError::AlreadyInitialized);
        }
        let exports = match plan.exporter {
            ExporterPlan::Disabled => false,
            _ => true,
        };
        match built {
            Err(m) => if exports {
                return Err(TelemetryError::Exporter(m));
            },
            Ok(_) => {},
        }
        self.installed = true;
        Ok(TelemetryHandle { released: false, exports })
    }

    /// Records whether the global tracer and subscriber could be installed
    /// for a claimed pipeline. Failure means the process already has a
    /// global subscriber: the claim is given up and the double-installation
    /// error is returned.
    pub fn subscriber_installed(&mut self, handle: TelemetryHandle, outcome: Result<(), String>) -> (r: Result<
        TelemetryHandle,
        TelemetryError,
    >)
        ensures
            match outcome {
                Ok(_) => r == Ok::<TelemetryHandle, TelemetryError>(handle) && final(self).spec_installed()
                    == old(self).spec_installed(),
                Err(_) => (r matches Err(TelemetryError::AlreadyInitialized)) && !final(self).spec_installed(),
            },
    {
        match outcome {
            Ok(_) => Ok(handle),
            Err(_) => {
                self.installed = false;
                Err(TelemetryError::AlreadyInitialized)
            },
        }
    }
}

/// What releasing the handle asks of the caller.
#[derive(Debug, PartialEq, Eq)]
pub enum ShutdownAction {
    /// Flush buffered spans within `timeout_ms`, then shut the exporter down.
    FlushAndShutdown { timeout_ms: u64 },
    /// Nothing is left to do: the handle was already released.
    Nothing,
}

/// The installed pipeline. Exactly one exists per process; releasing it is
/// the only way to flush and shut down, and it does so once.
#[derive(Debug)]
pub struct TelemetryHandle {
    released: bool,
    exports: bool,
}

impl TelemetryHandle {
    pub closed spec fn spec_released(&self) -> bool {
        self.released
    }

    /// Whether spans leave the process (false for the disabled exporter).
    pub closed spec fn spec_exports(&self) -> bool {
        self.exports
    }

    pub fn is_released(&self) -> (r: bool)
        ensures
            r == self.spec_released(),
    {
        self.released
    }

    pub fn exports(&self) -> (r: bool)
        ensures
            r == self.spec_exports(),
    {
        self.exports
    }

    /// Releases the pipeline: the first call asks for a flush bounded by
    /// `SHUTDOWN_TIMEOUT_MS` and the shutdown; later calls ask for nothing.
    /// Shutting down a disabled exporter is a harmless no-op.
    pub fn release(&mut self) -> (r: ShutdownAction)
        ensures
            final(self).spec_released(),
            final(self).spec_exports() == old(self).spec_exports(),
            old(self).spec_released() ==> r == ShutdownAction::Nothing,
            !old(self).spec_released() ==> r == (ShutdownAction::FlushAndShutdown { timeout_ms: SHUTDOWN_TIMEOUT_MS }),
    {
        if self.released {
            ShutdownAction::Nothing
        } else {
            self.released = true;
            ShutdownAction::FlushAndShutdown { timeout_ms: SHUTDOWN_TIMEOUT_MS }
        }
    }
}

} // verus!
