//! Error kinds of the engine, the executors, the package managers and the
//! inventory layer.

use vstd::prelude::*;
use crate::state::HostState;
use crate::text::{decimal, decimal_string, signed_decimal, signed_decimal_string};

verus! {

/// Errors of the host entities and the orchestrator.
#[derive(Debug, Clone, PartialEq, Eq)]
pub enum CoreError {
    /// No host of that name is registered.
    HostNotFound(String),
    /// A host of that name is already registered.
    HostAlreadyExists(String),
    /// The current state does not allow the requested transition.
    InvalidTransition { from: HostState, to: HostState },
    /// Command execution on the host failed.
    SshError(String),
    /// The package manager reported an error.
    PackageError(String),
    /// Listing upgradable packages failed.
    InventoryError(String),
    /// The host is in the failed state and refuses the request.
    HostFailed(String),
    /// The operation timed out.
    Timeout,
    /// Communication with a host entity failed.
    ActorError(String),
    /// Invalid settings.
    ConfigError(String),
}

/// Errors of command execution, locally or over SSH.
#[derive(Debug, Clone, PartialEq, Eq)]
pub enum ExecError {
    /// Could not connect to the host.
    ConnectionFailed(String),
    /// The host refused the credentials.
    AuthenticationFailed(String),
    /// The command exited with a failure status.
    CommandFailed { status: i32, stderr: String },
    /// The command did not finish within the given milliseconds.
    Timeout { timeout_ms: u64 },
    /// The SSH key could not be resolved or loaded.
    SshKeyError(String),
    /// The process could not be spawned.
    SpawnError(String),
    /// Reading or writing the command's streams failed.
    IoError(String),
    /// No session is established.
    NotConnected,
    /// Invalid executor settings.
    ConfigError(String),
}

/// Whether an execution error is worth retrying.
pub open spec fn exec_retryable(e: ExecError) -> bool {
    e is ConnectionFailed || e is Timeout
}

/// The message of an execution error.
pub open spec fn exec_error_text(e: ExecError) -> Seq<char> {
    match e {
        ExecError::ConnectionFailed(s) => "connection failed: "@ + s@,
        ExecError::AuthenticationFailed(s) => "authentication failed: "@ + s@,
        ExecError::CommandFailed { status, stderr } => "command execution failed: "@
            + signed_decimal(status as int) + " - "@ + stderr@,
        ExecError::Timeout { timeout_ms } => "command timed out after "@ + decimal(
            timeout_ms as nat,
        ) + "ms"@,
        ExecError::SshKeyError(s) => "SSH key error: "@ + s@,
        ExecError::SpawnError(s) => "failed to spawn process: "@ + s@,
        ExecError::IoError(s) => "I/O error: "@ + s@,
        ExecError::NotConnected => "not connected"@,
        ExecError::ConfigError(s) => "invalid configuration: "@ + s@,
    }
}

fn prefixed(p: &str, s: &String) -> (r: String)
    ensures
        r@ == p@ + s@,
{
    String::from_str(p).concat(s.as_str())
}

impl ExecError {
    /// Connection failures and timeouts are retryable; all other kinds are not.
    pub fn is_retryable(&self) -> (r: bool)
        ensures
            r == exec_retryable(*self),
    {
        match self {
            ExecError::ConnectionFailed(_) | ExecError::Timeout { .. } => true,
            _ => false,
        }
    }

    /// The human-readable message of the error.
    pub fn message(&self) -> (r: String)
        ensures
            r@ == exec_error_text(*self),
    {
        match self {
            ExecError::ConnectionFailed(s) => prefixed("connection failed: ", s),
            ExecError::AuthenticationFailed(s) => prefixed("authentication failed: ", s),
            ExecError::CommandFailed { status, stderr } => {
                let head = String::from_str("command execution failed: ");
                let num = signed_decimal_string(*status);
                head.concat(num.as_str()).concat(" - ").concat(stderr.as_str())
            },
            ExecError::Timeout { timeout_ms } => {
                let head = String::from_str("command timed out after ");
                let num = decimal_string(*timeout_ms);
                head.concat(num.as_str()).concat("ms")
            },
            ExecError::SshKeyError(s) => prefixed("SSH key error: ", s),
            ExecError::SpawnError(s) => prefixed("failed to spawn process: ", s),
            ExecError::IoError(s) => prefixed("I/O error: ", s),
            ExecError::NotConnected => String::from_str("not connected"),
            ExecError::ConfigError(s) => prefixed("invalid configuration: ", s),
        }
    }
}

/// Errors of the package-manager operations.
#[derive(Debug, Clone, PartialEq, Eq)]
pub enum PackageError {
    /// No supported package manager on the host.
    ManagerNotFound(String),
    /// The package is not in any repository.
    PackageNotFound(String),
    /// A repository could not be reached.
    RepositoryUnavailable(String),
    /// Another process holds the package database lock.
    LockConflict(String),
    /// The command needs more privileges.
    PermissionDenied(String),
    /// The command exited with a failure status.
    CommandFailed { status: i32, message: String },
    /// The command output could not be parsed.
    ParseError(String),
    /// The executor failed to run the command.
    ExecutionError(String),
    /// Neither `docker compose` nor `docker-compose` is installed.
    DockerComposeNotFound,
    /// A compose directory holds no compose file.
    ComposeFileNotFound(String),
    /// Invalid manager settings.
    ConfigError(String),
}

/// Whether a package error is worth retrying.
pub open spec fn package_retryable(e: PackageError) -> bool {
    e is LockConflict || e is RepositoryUnavailable
}

/// The message of a package error.
pub open spec fn package_error_text(e: PackageError) -> Seq<char> {
    match e {
        PackageError::ManagerNotFound(s) => "package manager not found: "@ + s@,
        PackageError::PackageNotFound(s) => "package not found: "@ + s@,
        PackageError::RepositoryUnavailable(s) => "repository unavailable: "@ + s@,
        PackageError::LockConflict(s) => "lock file conflict: "@ + s@,
        PackageError::PermissionDenied(s) => "insufficient permissions: "@ + s@,
        PackageError::CommandFailed { status, message } => "command failed: "@ + signed_decimal(
            status as int,
        ) + " - "@ + message@,
        PackageError::ParseError(s) => "parse error: "@ + s@,
        PackageError::ExecutionError(s) => "execution error: "@ + s@,
        PackageError::DockerComposeNotFound => "docker compose not found"@,
        PackageError::ComposeFileNotFound(s) => "compose file not found: "@ + s@,
        PackageError::ConfigError(s) => "invalid configuration: "@ + s@,
    }
}

impl PackageError {
    /// Lock conflicts and unavailable repositories are retryable.
    pub fn is_retryable(&self) -> (r: bool)
        ensures
            r == package_retryable(*self),
    {
        match self {
            PackageError::LockConflict(_) | PackageError::RepositoryUnavailable(_) => true,
            _ => false,
        }
    }

    /// Whether the error asks for elevated privileges.
    pub fn needs_sudo(&self) -> (r: bool)
        ensures
            r == (*self is PermissionDenied),
    {
        match self {
            PackageError::PermissionDenied(_) => true,
            _ => false,
        }
    }

    /// The human-readable message of the error.
    pub fn message(&self) -> (r: String)
        ensures
            r@ == package_error_text(*self),
    {
        match self {
            PackageError::ManagerNotFound(s) => prefixed("package manager not found: ", s),
            PackageError::PackageNotFound(s) => prefixed("package not found: ", s),
            PackageError::RepositoryUnavailable(s) => prefixed("repository unavailable: ", s),
            PackageError::LockConflict(s) => prefixed("lock file conflict: ", s),
            PackageError::PermissionDenied(s) => prefixed("insufficient permissions: ", s),
            PackageError::CommandFailed { status, message } => {
                let head = String::from_str("command failed: ");
                let num = signed_decimal_string(*status);
                head.concat(num.as_str()).concat(" - ").concat(message.as_str())
            },
            PackageError::ParseError(s) => prefixed("parse error: ", s),
            PackageError::ExecutionError(s) => prefixed("execution error: ", s),
            PackageError::DockerComposeNotFound => String::from_str("docker compose not found"),
            PackageError::ComposeFileNotFound(s) => prefixed("compose file not found: ", s),
            PackageError::ConfigError(s) => prefixed("invalid configuration: ", s),
        }
    }
}

/// Errors of the inventory layer.
#[derive(Debug, Clone, PartialEq, Eq)]
pub enum InventoryError {
    /// osquery is not installed on the host.
    OsqueryNotFound(String),
    /// The query failed to run.
    QueryFailed(String),
    /// The query text is malformed.
    SqlSyntax(String),
    /// The query result could not be decoded.
    ParseError(String),
    /// The executor failed to run the query.
    ExecutionError(String),
    /// The table does not exist on the host.
    TableNotAvailable(String),
    /// The query did not finish within the given milliseconds.
    Timeout(u64),
    /// The result cache failed.
    CacheError(String),
    /// Invalid settings.
    ConfigError(String),
}

impl InventoryError {
    /// Execution errors and timeouts are retryable.
    pub fn is_retryable(&self) -> (r: bool)
        ensures
            r == (*self is ExecutionError || *self is Timeout),
    {
        match self {
            InventoryError::ExecutionError(_) | InventoryError::Timeout(_) => true,
            _ => false,
        }
    }

    /// Whether osquery must be installed first.
    pub fn needs_installation(&self) -> (r: bool)
        ensures
            r == (*self is OsqueryNotFound),
    {
        match self {
            InventoryError::OsqueryNotFound(_) => true,
            _ => false,
        }
    }
}

} // verus!
