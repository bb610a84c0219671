//! Core of a Kubernetes desktop client backend: a port-forward registry that
//! supervises forwarding subprocesses, an interactive shell session manager,
//! and a database connection manager that composes a private port-forward
//! with a pooled SQL client.

pub mod errors;
pub mod text;
mod token;
pub mod types;
pub mod portforward;
pub mod shell;
pub mod database;
pub mod connection;
pub mod queries;
pub mod kubeconfig;
pub mod helm;
pub mod metrics;
pub mod cnpg;
