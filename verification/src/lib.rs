//! A verified bridge to an external knowledge-engine process.
//!
//! The bridge records and queries error-pattern knowledge by delegating
//! storage and search to an external engine, reached through a generated
//! script run by an external runtime. This crate holds everything that
//! decides or computes, with its behaviour stated in contracts: layered
//! configuration resolution, injection-safe argument escaping, script
//! building, process-outcome interpretation, and the decoding of the
//! engine's JSON output into typed results. Launching the process,
//! reading the configuration sources from disk and the environment, and
//! holding the process-wide shared instance are the thin shell around it.

pub mod bridge;
pub mod config;
pub mod errors;
pub mod escape;
pub mod json;
pub mod patterns;
pub mod script;
pub mod text;

pub use bridge::LocalKGBridge;
pub use config::ConfigSources;
pub use config::NebulaConfig;
pub use errors::BridgeError;
pub use patterns::ErrorCapture;
pub use patterns::ErrorPattern;
pub use patterns::PatternSummary;
