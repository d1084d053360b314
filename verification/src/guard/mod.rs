//! Decisions of the `nexis-guard` security front end: configuration,
//! alert normalization, scan reports and generated backend configuration.
pub mod scan;
pub mod alerts;
pub mod config;
pub mod suricata;
pub mod json;
pub mod tetragon;
pub mod services;
pub mod cli;
pub mod translate;
