//! Choosing the executor and package manager of a registered host.

use vstd::prelude::*;
use crate::config::HostConfig;
use crate::error::ExecError;
use crate::exec::{CommandResult, ConnectionInfo, KeySource};
use crate::pkg::PackageManagerType;
use crate::pkg::docker::DockerComposeManager;
use crate::text::trim;

verus! {

/// How commands reach a host.
#[derive(Debug, Clone, PartialEq, Eq)]
pub enum ExecutorPlan {
    /// On this machine.
    Local,
    /// Over SSH.
    Ssh { conn: ConnectionInfo, key: KeySource },
}

/// Whether an address names this machine.
pub open spec fn is_local_addr(addr: Seq<char>) -> bool {
    addr == "localhost"@ || addr == "127.0.0.1"@
}

/// Builds the executor and package manager of each registered host.
#[derive(Debug, Clone, Copy, PartialEq, Eq)]
pub struct DefaultHostFactory;

impl DefaultHostFactory {
    /// The factory.
    pub fn new() -> (r: Self) {
        DefaultHostFactory
    }

    /// The executor of a host: local for `localhost` and `127.0.0.1`, SSH
    /// otherwise, with the configured key file or else the agent.
    pub fn create_executor_sync(config: &HostConfig) -> (r: ExecutorPlan)
        ensures
            is_local_addr(config.addr@) ==> r == ExecutorPlan::Local,
            !is_local_addr(config.addr@) ==> (r matches ExecutorPlan::Ssh { conn, key } && conn
                == (ConnectionInfo {
                host: config.addr,
                port: 22,
                user: config.user,
                ssh_key: None,
            }) && match config.ssh_key {
                Some(p) => key == KeySource::Path(p),
                None => key == KeySource::Agent,
            }),
    {
        if config.addr == String::from_str("localhost") || config.addr == String::from_str(
            "127.0.0.1",
        ) {
            return ExecutorPlan::Local;
        }
        let key = match &config.ssh_key {
            Some(p) => KeySource::Path(p.clone()),
            None => KeySource::Agent,
        };
        ExecutorPlan::Ssh { conn: ConnectionInfo::new(config.addr.clone(), config.user.clone()), key }
    }

    /// The container-stack manager of a host with compose directories;
    /// `None` without any.
    pub fn create_compose_manager(config: &HostConfig) -> (r: Option<DockerComposeManager>)
        ensures
            config.compose_paths@.len() == 0 ==> r is None,
            config.compose_paths@.len() > 0 ==> r is Some && r->Some_0.compose_dirs@
                == config.compose_paths@ && r->Some_0.use_v2 && r->Some_0.pull_before_update,
    {
        if config.compose_paths.len() == 0 {
            return None;
        }
        let dirs = crate::host::copy_strings(&config.compose_paths);
        match DockerComposeManager::new(dirs) {
            Ok(m) => Some(m),
            Err(_) => None,
        }
    }
}

/// Whether commands need `sudo`, from the run of `whoami`: unless the user
/// is known to be `root`.
pub fn needs_sudo(whoami: &Result<CommandResult, ExecError>) -> (r: bool)
    ensures
        match whoami {
            Ok(c) => r == (trim(c.stdout@) != "root"@),
            Err(_) => r,
        },
{
    match whoami {
        Ok(c) => crate::text::trimmed(c.stdout.as_str()) != String::from_str("root"),
        Err(_) => true,
    }
}

/// The probes for a package manager, in order of preference, each with
/// the family it reveals.
pub fn manager_probes() -> (r: Vec<(&'static str, PackageManagerType)>)
    ensures
        r@.len() == 3,
        r@[0].0@ == "which apt-get"@ && r@[0].1 == PackageManagerType::Apt,
        r@[1].0@ == "which dnf"@ && r@[1].1 == PackageManagerType::Dnf,
        r@[2].0@ == "which yum"@ && r@[2].1 == PackageManagerType::Dnf,
{
    let mut v = Vec::new();
    v.push(("which apt-get", PackageManagerType::Apt));
    v.push(("which dnf", PackageManagerType::Dnf));
    v.push(("which yum", PackageManagerType::Dnf));
    v
}

/// Whether a probe found its tool.
pub fn probe_found(run: &Result<CommandResult, ExecError>) -> (r: bool)
    ensures
        r == (run is Ok && run->Ok_0.status == 0),
{
    match run {
        Ok(c) => c.success(),
        Err(_) => false,
    }
}

} // verus!
