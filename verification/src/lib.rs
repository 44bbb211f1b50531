//! Configuration and decision logic of a sink that stores observability data in
//! Azure Blob Storage: which credentials a configuration selects, how the client
//! target and its proxy route are derived, which failures are retried and how a
//! health check outcome is reported.

pub mod auth;
pub mod client;
pub mod config;
pub mod connection_string;
pub mod error;
pub mod health;
pub mod laws;
pub mod proxy;
pub mod request;
pub mod sorting;
pub mod retry;
pub mod shared_key;
pub mod status;
pub mod text;
pub mod url_ops;
