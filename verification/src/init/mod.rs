//! Supervision logic of the `nexis-init` service manager (PID 1).
pub mod config;
pub mod service;
pub mod manager;
pub mod notify;
pub mod cgroup;
pub mod signal;
pub mod events;
