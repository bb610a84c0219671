//! Error types of the three lifecycle managers.
//!
//! Registry operations surface their failures through these enums; only the
//! drain-all shutdown paths swallow individual failures.

use vstd::prelude::*;

verus! {

/// Failure of a port-forward registry operation.
#[derive(Debug, PartialEq, Eq, Clone)]
pub enum PortForwardError {
    /// A forward for the same `(resource type, namespace, resource name,
    /// local port)` tuple is already registered.
    AlreadyExists,
    /// No forward with the given id is registered.
    NotFound,
    /// The forwarding subprocess could not be spawned.
    Spawn(String),
    /// The termination signal could not be delivered.
    Kill(String),
}

impl PortForwardError {
    /// A human-readable description of the failure.
    pub fn message(&self) -> String {
        match self {
            PortForwardError::AlreadyExists => "Port forward already exists".to_owned(),
            PortForwardError::NotFound => "Port forward not found".to_owned(),
            PortForwardError::Spawn(e) => e.clone(),
            PortForwardError::Kill(e) => e.clone(),
        }
    }
}

/// Failure of a shell session operation.
#[derive(Debug, PartialEq, Eq, Clone)]
pub enum ShellError {
    /// The target pod or container is not in a state that allows an attach.
    PreconditionFailed(String),
    /// Every candidate shell failed to launch in the container.
    ExecFailed(String),
    /// No live session with the given id is registered.
    SessionNotFound,
    /// The session's inbound queue is gone: the pumps have terminated.
    ChannelClosed(String),
}

impl ShellError {
    /// A human-readable description of the failure.
    pub fn message(&self) -> String {
        match self {
            ShellError::PreconditionFailed(e) => e.clone(),
            ShellError::ExecFailed(e) => e.clone(),
            ShellError::SessionNotFound => "Shell session not found".to_owned(),
            ShellError::ChannelClosed(e) => e.clone(),
        }
    }
}

/// Failure of a database connection operation.
#[derive(Debug, PartialEq, Eq, Clone)]
pub enum DatabaseError {
    /// No connection with the given id is registered.
    ConnectionNotFound(String),
    /// Creating or stopping the owned port-forward failed.
    PortForwardError(String),
    /// The SQL driver reported an error.
    PostgresError(String),
    /// A pooled client could not be acquired.
    PoolError(String),
    /// The pool configuration was rejected.
    ConfigError(String),
    /// A query could not be executed or its result was malformed.
    QueryError(String),
    /// Any other failure.
    Other(String),
}

impl DatabaseError {
    /// A human-readable description of the failure.
    pub fn message(&self) -> String {
        match self {
            DatabaseError::ConnectionNotFound(e) => e.clone(),
            DatabaseError::PortForwardError(e) => e.clone(),
            DatabaseError::PostgresError(e) => e.clone(),
            DatabaseError::PoolError(e) => e.clone(),
            DatabaseError::ConfigError(e) => e.clone(),
            DatabaseError::QueryError(e) => e.clone(),
            DatabaseError::Other(e) => e.clone(),
        }
    }
}

} // verus!
