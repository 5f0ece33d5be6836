//! The configuration the identity subsystem is wired with, as plain
//! values. Loading it from files or the environment is I/O and lives with
//! the surrounding server glue; everything here only carries the values.

use vstd::prelude::*;

verus! {

#[derive(Clone, Debug)]
pub struct DatabaseConfig {
    pub url: String,
}

#[derive(Clone, Debug)]
pub struct TracingConfig {
    pub exporter_url: String,
    pub resource_name: String,
    pub rust_log: String,
    pub enabled: bool,
    pub gcloud_project_id: String,
}

#[derive(Clone, Debug)]
pub struct ServerConfig {
    pub address: String,
    pub allowed_origins: String,
}

#[derive(Clone, Debug)]
pub struct Settings {
    pub server: ServerConfig,
    pub tracing: TracingConfig,
    pub environment: String,
    pub auth_domain: String,
    pub auth_audience: String,
    pub auth_management_audience: String,
    pub auth_management_client_id: String,
    pub auth_management_secret: String,
}

} // verus!
