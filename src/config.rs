//! Host and fleet-update settings.

use vstd::prelude::*;

verus! {

/// Settings of one managed host.
#[derive(Debug, Clone)]
pub struct HostConfig {
    /// Unique host name.
    pub name: String,
    /// Network address for the SSH connection.
    pub addr: String,
    /// SSH user.
    pub user: String,
    /// Path to the SSH private key; the agent is used when absent.
    pub ssh_key: Option<String>,
    /// Docker compose directories to manage.
    pub compose_paths: Vec<String>,
    /// Tags for filtering and grouping.
    pub tags: Vec<String>,
    /// Host-specific policy.
    pub policy: HostPolicy,
}

/// The SSH user used when none is configured.
pub fn default_user() -> (r: String)
    ensures
        r@ == "root"@,
{
    String::from_str("root")
}

/// Whether hosts reboot automatically unless configured otherwise.
pub fn default_auto_reboot() -> (r: bool)
    ensures
        r,
{
    true
}

/// Policy for host operations.
#[derive(Debug, Clone)]
pub struct HostPolicy {
    /// Reboot automatically when an update requires it.
    pub auto_reboot: bool,
    /// Advisory time window for updates.
    pub maintenance_window: Option<MaintenanceWindow>,
}

impl Default for HostPolicy {
    fn default() -> (r: HostPolicy)
        ensures
            r.auto_reboot,
            r.maintenance_window is None,
    {
        HostPolicy { auto_reboot: default_auto_reboot(), maintenance_window: None }
    }
}

/// Advisory maintenance window.
#[derive(Debug, Clone)]
pub struct MaintenanceWindow {
    /// Start time, `HH:MM`.
    pub start: String,
    /// End time, `HH:MM`.
    pub end: String,
    /// Days of the week on which the window applies.
    pub days: Vec<String>,
}

/// Settings of a rolling fleet update.
#[derive(Debug, Clone)]
pub struct FleetUpdateConfig {
    /// Number of hosts updated in parallel.
    pub batch_size: usize,
    /// Pause between two batches, in milliseconds.
    pub delay_between_batches_ms: u64,
    /// Which hosts take part.
    pub filter: Option<FleetFilter>,
    /// Simulate the upgrade only.
    pub dry_run: bool,
}

impl Default for FleetUpdateConfig {
    fn default() -> (r: FleetUpdateConfig)
        ensures
            r.batch_size == 2,
            r.delay_between_batches_ms == 30_000,
            r.filter is None,
            !r.dry_run,
    {
        FleetUpdateConfig {
            batch_size: 2,
            delay_between_batches_ms: 30_000,
            filter: None,
            dry_run: false,
        }
    }
}

/// Host selection for fleet operations; all parts must hold.
#[derive(Debug, Clone)]
pub struct FleetFilter {
    /// When non-empty, a host must carry at least one of these tags.
    pub tags: Vec<String>,
    /// Host groups (carried, not used for selection).
    pub groups: Vec<String>,
    /// Hosts never selected.
    pub exclude_hosts: Vec<String>,
}

impl Default for FleetFilter {
    fn default() -> (r: FleetFilter)
        ensures
            r.tags@.len() == 0,
            r.groups@.len() == 0,
            r.exclude_hosts@.len() == 0,
    {
        FleetFilter { tags: Vec::new(), groups: Vec::new(), exclude_hosts: Vec::new() }
    }
}

} // verus!

verus! {

/// Settings of the daemon.
#[derive(Debug, Clone)]
pub struct Config {
    /// Server settings.
    pub daemon: DaemonConfig,
    /// Hosts to register at start.
    pub host: Vec<HostConfig>,
}

impl Default for Config {
    fn default() -> (r: Config)
        ensures
            r.daemon.bind@ == "127.0.0.1:8080"@,
            r.daemon.log_level@ == "info"@,
            r.host@.len() == 0,
    {
        Config { daemon: DaemonConfig::default(), host: Vec::new() }
    }
}

/// Server settings of the daemon.
#[derive(Debug, Clone)]
pub struct DaemonConfig {
    /// Address and port to listen on.
    pub bind: String,
    /// Log level.
    pub log_level: String,
}

/// The listening address used when none is configured.
pub fn default_bind() -> (r: String)
    ensures
        r@ == "127.0.0.1:8080"@,
{
    String::from_str("127.0.0.1:8080")
}

/// The log level used when none is configured.
pub fn default_log_level() -> (r: String)
    ensures
        r@ == "info"@,
{
    String::from_str("info")
}

impl Default for DaemonConfig {
    fn default() -> (r: DaemonConfig)
        ensures
            r.bind@ == "127.0.0.1:8080"@,
            r.log_level@ == "info"@,
    {
        DaemonConfig { bind: default_bind(), log_level: default_log_level() }
    }
}

} // verus!
