//! Telemetry bootstrap for a cloud-hosted service: configuration, backend
//! selection, resource attributes, credential caching, structured log
//! rendering and the lifecycle of the installed pipeline.
//!
//! Everything here is plain data and decisions. The program around the
//! library performs the I/O: it reads the environment into an
//! [`EnvSnapshot`], fetches credentials, builds the exporter and installs the
//! subscriber, and reports each outcome back to the state machines below.

pub mod bootstrap;
pub mod config;
pub mod credential;
pub mod env;
pub mod error;
pub mod format;
pub mod gcp;
pub mod resource;
pub mod timestamp;

pub use bootstrap::{
    DefaultProvider, ExporterPlan, GcpProvider, InitStep, ShutdownAction, TelemetryHandle,
    TelemetryState, TracerPlan,
};
pub use config::{LogFormat, TelemetryBackend, TelemetryConfig, TelemetryConfigBuilder};
pub use credential::{CacheAction, CredentialCache, Token};
pub use env::EnvSnapshot;
pub use error::TelemetryError;
pub use format::{Field, FieldValue, Level, LogRecord, Severity, SpanContext};
pub use gcp::{GcpConfig, GcpPlatform};
pub use resource::{Attribute, AttributeKey, AttributeValue, GcpResourceBuilder, ResourceAttributes};
