//! Requests to host entities and the orchestrator, and their replies.

use vstd::prelude::*;
use crate::config::{FleetUpdateConfig, HostConfig};
use crate::state::{HostState, Timestamp};

verus! {

/// List upgradable packages.
#[derive(Debug)]
pub struct QueryInventory;

/// Reply to `QueryInventory`.
#[derive(Debug, Clone, PartialEq, Eq)]
pub struct InventoryResult {
    /// Number of packages with pending updates.
    pub pending_updates: u32,
    /// Names of those packages.
    pub packages: Vec<String>,
}

/// Start the package upgrade.
#[derive(Debug)]
pub struct StartUpdate {
    /// Only simulate the upgrade.
    pub dry_run: bool,
}

/// Reply to `StartUpdate`.
#[derive(Debug, Clone, PartialEq, Eq)]
pub struct UpdateResult {
    /// Whether the upgrade succeeded.
    pub success: bool,
    /// Number of upgraded packages.
    pub upgraded_count: u32,
    /// Whether a reboot is required.
    pub reboot_required: bool,
}

/// Reboot the host if the last update requires it.
#[derive(Debug)]
pub struct RebootIfRequired;

/// Probe the host.
#[derive(Debug)]
pub struct HealthCheck;

/// Reply to `HealthCheck`.
#[derive(Debug, Clone, PartialEq, Eq)]
pub struct HealthCheckResult {
    /// Whether the probe printed the expected output.
    pub healthy: bool,
    /// Details when unhealthy.
    pub message: Option<String>,
}

/// Leave the failed state.
#[derive(Debug)]
pub struct Retry;

/// Acknowledge a failure.
#[derive(Debug)]
pub struct Acknowledge;

/// Read the current state.
#[derive(Debug)]
pub struct GetState;

/// Read the full status.
#[derive(Debug)]
pub struct GetStatus;

/// Register a host.
#[derive(Debug)]
pub struct RegisterHost {
    pub config: HostConfig,
}

/// Unregister a host.
#[derive(Debug)]
pub struct UnregisterHost {
    pub hostname: String,
}

/// Status of one host.
#[derive(Debug)]
pub struct GetHostStatus {
    pub hostname: String,
}

/// Status of all hosts.
#[derive(Debug)]
pub struct ListHosts;

/// Snapshot of a host.
#[derive(Debug, Clone, PartialEq, Eq)]
pub struct HostStatus {
    /// Host name.
    pub name: String,
    /// Current state.
    pub state: HostState,
    /// Time of the last successful update.
    pub last_updated: Option<Timestamp>,
    /// Number of pending updates, when known.
    pub pending_updates: Option<u32>,
    /// Failure message while failed.
    pub error: Option<String>,
    /// Tags of the host.
    pub tags: Vec<String>,
}

/// Run a rolling fleet update.
#[derive(Debug)]
pub struct TriggerFleetUpdate {
    pub config: FleetUpdateConfig,
}

/// Counts of a fleet update.
#[derive(Debug, Clone, Copy, PartialEq, Eq)]
pub struct FleetUpdateProgress {
    /// Hosts selected for the update.
    pub total_hosts: usize,
    /// Hosts whose inventory query and update both succeeded.
    pub completed: usize,
    /// Hosts that failed.
    pub failed: usize,
    /// Hosts currently being updated.
    pub in_progress: usize,
}

/// List upgradable packages on one host.
#[derive(Debug)]
pub struct QueryHostInventory {
    pub hostname: String,
}

/// Update one host.
#[derive(Debug)]
pub struct TriggerHostUpdate {
    pub hostname: String,
    pub dry_run: bool,
}

/// Retry one failed host.
#[derive(Debug)]
pub struct RetryHost {
    pub hostname: String,
}

/// Acknowledge one failed host.
#[derive(Debug)]
pub struct AcknowledgeHost {
    pub hostname: String,
}

} // verus!
