//! Orchestrates static validation of workflow manifests: reads the list of
//! manifests from a YAML config, resolves their paths, classifies the output
//! of the external validator and aggregates a verdict.
pub mod config;
pub mod diagnostics;
pub mod laws;
pub mod paths;
pub mod run;
