//! Command execution data: results, connection settings and SSH key sources.

use vstd::prelude::*;
use base64::Engine;
use crate::error::ExecError;
use crate::text::{trim, trimmed};

verus! {

/// Outcome of one command run on a host.
#[derive(Debug, Clone, PartialEq, Eq)]
pub struct CommandResult {
    /// Exit status (0 on success).
    pub status: i32,
    /// Standard output.
    pub stdout: String,
    /// Standard error.
    pub stderr: String,
    /// Time taken, in milliseconds.
    pub duration_ms: u64,
}

/// `stdout`, followed by a line feed and `stderr` when `stderr` is not empty.
pub open spec fn combined_text(stdout: Seq<char>, stderr: Seq<char>) -> Seq<char> {
    if stderr.len() == 0 {
        stdout
    } else {
        stdout + seq!['\n'] + stderr
    }
}

impl CommandResult {
    /// Whether the command exited with status 0.
    pub fn success(&self) -> (r: bool)
        ensures
            r == (self.status == 0),
    {
        self.status == 0
    }

    /// Standard output and standard error together.
    pub fn combined_output(&self) -> (r: String)
        ensures
            r@ == combined_text(self.stdout@, self.stderr@),
    {
        if self.stderr.unicode_len() == 0 {
            self.stdout.clone()
        } else {
            proof {
                reveal_strlit("\n");
            }
            self.stdout.clone().concat("\n").concat(self.stderr.as_str())
        }
    }
}

/// The SSH port used when none is configured.
pub fn default_port() -> (r: u16)
    ensures
        r == 22,
{
    22
}

/// How to reach a host over SSH.
#[derive(Debug, Clone, PartialEq, Eq)]
pub struct ConnectionInfo {
    /// Host address.
    pub host: String,
    /// Port.
    pub port: u16,
    /// User name.
    pub user: String,
    /// Path of the private key, if any.
    pub ssh_key: Option<String>,
}

impl ConnectionInfo {
    /// Connection to `host` as `user` on the default port, without a key.
    pub fn new(host: String, user: String) -> (r: Self)
        ensures
            r.host == host,
            r.user == user,
            r.port == 22,
            r.ssh_key is None,
    {
        ConnectionInfo { host, port: default_port(), user, ssh_key: None }
    }

    /// Sets the key path.
    pub fn with_ssh_key(self, path: String) -> (r: Self)
        ensures
            r == (ConnectionInfo { ssh_key: Some(path), ..self }),
    {
        ConnectionInfo { ssh_key: Some(path), ..self }
    }

    /// Sets the port.
    pub fn with_port(self, port: u16) -> (r: Self)
        ensures
            r == (ConnectionInfo { port, ..self }),
    {
        ConnectionInfo { port, ..self }
    }
}

/// Where the SSH key comes from.
#[derive(Debug, Clone, PartialEq, Eq)]
pub enum KeySource {
    /// A key file.
    Path(String),
    /// The SSH agent.
    Agent,
    /// Base64 key material in the named environment variable.
    Env(String),
}

/// A key ready for use.
#[derive(Debug, PartialEq, Eq)]
pub enum ResolvedKey {
    /// A key file owned by the user.
    Path(String),
    /// The SSH agent.
    Agent,
    /// A temporary key file, removed when the key is dropped.
    Temp(String),
}

impl ResolvedKey {
    /// The key file, if the key is one.
    pub fn path(&self) -> (r: Option<&String>)
        ensures
            match *self {
                ResolvedKey::Path(p) => r == Some(&p),
                ResolvedKey::Temp(p) => r == Some(&p),
                ResolvedKey::Agent => r is None,
            },
    {
        match self {
            ResolvedKey::Path(p) => Some(p),
            ResolvedKey::Temp(p) => Some(p),
            ResolvedKey::Agent => None,
        }
    }

    /// Whether the agent is used.
    pub fn use_agent(&self) -> (r: bool)
        ensures
            r == (*self is Agent),
    {
        match self {
            ResolvedKey::Agent => true,
            _ => false,
        }
    }
}

/// Errors of key resolution.
#[derive(Debug, Clone, PartialEq, Eq)]
pub enum KeyError {
    /// The named environment variable is not set.
    EnvNotSet(String),
    /// The key material is not valid base64.
    InvalidBase64,
    /// The key file is readable or writable by group or others.
    BadPermissions(String),
    /// The key file does not exist.
    NotFound(String),
    /// Reading or writing a key file failed.
    Io(String),
}

/// Whether a key file's permission bits leave group and others out.
pub open spec fn private_mode(mode: u32) -> bool {
    mode & 0o77u32 == 0
}

/// Accepts a key file whose mode gives group and others no access.
pub fn check_key_mode(path: &String, mode: u32) -> (r: Result<(), KeyError>)
    ensures
        private_mode(mode) ==> r is Ok,
        !private_mode(mode) ==> r == Err::<(), KeyError>(KeyError::BadPermissions(*path)),
{
    if mode & 0o77u32 != 0 {
        return Err(KeyError::BadPermissions(path.clone()));
    }
    Ok(())
}

/// What the standard base64 alphabet (with padding) decodes a text to;
/// `None` when the text is not valid base64.
pub uninterp spec fn base64_decoded(s: Seq<char>) -> Option<Seq<u8>>;

/// base64's `DecodeError`, carried opaque: only whether decoding failed
/// matters here.
#[verifier::external_type_specification]
#[verifier::external_body]
pub struct ExDecodeError(base64::DecodeError);

/// Relies on base64's `STANDARD` engine `decode`: the bytes that the text
/// encodes, or an error when it is not valid padded base64.
#[verifier::external_body]
fn base64_decode(s: &str) -> (r: Result<Vec<u8>, base64::DecodeError>)
    ensures
        r is Ok <==> base64_decoded(s@) is Some,
        r is Ok ==> r->Ok_0@ == base64_decoded(s@)->0,
{
    base64::engine::general_purpose::STANDARD.decode(s)
}

/// Key material from the environment variable `var_name`, whose value (if
/// set) is `value`: the base64 decoding of the trimmed value.
pub fn decode_env_key(var_name: &String, value: Option<String>) -> (r: Result<Vec<u8>, KeyError>)
    ensures
        value is None ==> r == Err::<Vec<u8>, KeyError>(KeyError::EnvNotSet(*var_name)),
        value is Some ==> match base64_decoded(trim(value->0@)) {
            None => r == Err::<Vec<u8>, KeyError>(KeyError::InvalidBase64),
            Some(b) => r is Ok && r->Ok_0@ == b,
        },
{
    match value {
        None => Err(KeyError::EnvNotSet(var_name.clone())),
        Some(v) => {
            let t = trimmed(v.as_str());
            match base64_decode(t.as_str()) {
                Ok(bytes) => Ok(bytes),
                Err(_) => Err(KeyError::InvalidBase64),
            }
        },
    }
}

/// Runs commands on the local machine.
#[derive(Debug, Clone, Copy, PartialEq, Eq)]
pub struct LocalExecutor;

impl LocalExecutor {
    /// A local executor.
    pub fn new() -> (r: Self) {
        LocalExecutor
    }

    /// The executor kind, for logs.
    pub fn executor_type(&self) -> (r: &'static str)
        ensures
            r@ == "local"@,
    {
        "local"
    }
}

/// Settings of an SSH executor under construction.
#[derive(Debug, Clone, PartialEq, Eq)]
pub struct SshExecutorBuilder {
    /// Connection settings.
    pub conn_info: ConnectionInfo,
    /// Key source; the agent unless set otherwise.
    pub key_source: KeySource,
}

impl SshExecutorBuilder {
    /// Connection to `host` as `user`, authenticating through the agent.
    pub fn new(host: String, user: String) -> (r: Self)
        ensures
            r.conn_info.host == host,
            r.conn_info.user == user,
            r.conn_info.port == 22,
            r.conn_info.ssh_key is None,
            r.key_source == KeySource::Agent,
    {
        SshExecutorBuilder { conn_info: ConnectionInfo::new(host, user), key_source: KeySource::Agent }
    }

    /// Authenticates with the key file at `path`.
    pub fn with_key_path(self, path: String) -> (r: Self)
        ensures
            r == (SshExecutorBuilder { key_source: KeySource::Path(path), ..self }),
    {
        SshExecutorBuilder { key_source: KeySource::Path(path), ..self }
    }

    /// Authenticates through the agent.
    pub fn with_agent(self) -> (r: Self)
        ensures
            r == (SshExecutorBuilder { key_source: KeySource::Agent, ..self }),
    {
        SshExecutorBuilder { key_source: KeySource::Agent, ..self }
    }

    /// Authenticates with base64 key material from the environment variable
    /// `var_name`.
    pub fn with_env_key(self, var_name: String) -> (r: Self)
        ensures
            r == (SshExecutorBuilder { key_source: KeySource::Env(var_name), ..self }),
    {
        SshExecutorBuilder { key_source: KeySource::Env(var_name), ..self }
    }

    /// Connects on `port`.
    pub fn with_port(self, port: u16) -> (r: Self)
        ensures
            r.conn_info == (ConnectionInfo { port, ..self.conn_info }),
            r.key_source == self.key_source,
    {
        SshExecutorBuilder { conn_info: self.conn_info.with_port(port), ..self }
    }
}

/// The trimmed standard output of a command that succeeded; a failed
/// command becomes a command failure carrying its status and error output.
pub fn ok_output(run: Result<CommandResult, ExecError>) -> (r: Result<String, ExecError>)
    ensures
        match run {
            Err(e) => r == Err::<String, ExecError>(e),
            Ok(c) => if c.status == 0 {
                r is Ok && r->Ok_0@ == trim(c.stdout@)
            } else {
                r == Err::<String, ExecError>(
                    ExecError::CommandFailed { status: c.status, stderr: c.stderr },
                )
            },
        },
{
    match run {
        Err(e) => Err(e),
        Ok(c) => {
            if c.success() {
                Ok(trimmed(c.stdout.as_str()))
            } else {
                Err(ExecError::CommandFailed { status: c.status, stderr: c.stderr })
            }
        },
    }
}

/// The command that tells whether `cmd` is installed.
pub fn which_command(cmd: &str) -> (r: String)
    ensures
        r@ == "which "@ + cmd@,
{
    String::from_str("which ").concat(cmd)
}

} // verus!
