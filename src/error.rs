//! Failures of the telemetry bootstrap.

use vstd::prelude::*;

verus! {

/// Why the telemetry pipeline could not be set up.
#[derive(Debug, Clone, PartialEq, Eq)]
pub enum TelemetryError {
    /// No usable default credential, or the token endpoint refused it.
    Auth(String),
    /// The exporter could not be built (malformed endpoint, transport setup).
    Exporter(String),
    /// Invalid or contradictory configuration.
    Config(String),
    /// Installing the pipeline failed.
    Init(String),
    /// A pipeline is already installed in this process.
    AlreadyInitialized,
}

/// The human-readable text of an error.
pub open spec fn error_message(e: TelemetryError) -> Seq<char> {
    match e {
        TelemetryError::Auth(m) => "Authentication error: "@ + m@,
        TelemetryError::Exporter(m) => "Exporter error: "@ + m@,
        TelemetryError::Config(m) => "Configuration error: "@ + m@,
        TelemetryError::Init(m) => "Initialization error: "@ + m@,
        TelemetryError::AlreadyInitialized => "Initialization error: telemetry is already installed"@,
    }
}

impl TelemetryError {
    /// The human-readable text of this error.
    pub fn message(&self) -> (r: String)
        ensures
            r@ == error_message(*self),
    {
        match self {
            TelemetryError::Auth(m) => String::from_str("Authentication error: ").concat(m.as_str()),
            TelemetryError::Exporter(m) => String::from_str("Exporter error: ").concat(m.as_str()),
            TelemetryError::Config(m) => String::from_str("Configuration error: ").concat(m.as_str()),
            TelemetryError::Init(m) => String::from_str("Initialization error: ").concat(m.as_str()),
            TelemetryError::AlreadyInitialized => String::from_str(
                "Initialization error: telemetry is already installed",
            ),
        }
    }

    /// Whether this is the double-installation error, which is a programming
    /// error rather than a failure of the environment.
    pub fn is_double_init(&self) -> (r: bool)
        ensures
            r == (*self is AlreadyInitialized),
    {
        matches!(self, TelemetryError::AlreadyInitialized)
    }
}

} // verus!
