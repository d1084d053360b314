//! Logic of the `nexispm` declarative package manager.
pub mod config;
pub mod constants;
pub mod content_address;
pub mod fleet;
pub mod generations;
pub mod layout;
pub mod resolver;
pub mod security;
pub mod store;
pub mod version;
