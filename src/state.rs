//! Host lifecycle states and the transition table.

use vstd::prelude::*;

verus! {

/// Lifecycle state of one managed host.
#[derive(Debug, Clone, Copy, PartialEq, Eq, Hash, Structural)]
pub enum HostState {
    /// Ready for operations.
    Idle,
    /// Listing upgradable packages.
    Querying,
    /// Updates are available and waiting for a trigger.
    PendingUpdates,
    /// Package upgrade in progress.
    Updating,
    /// Upgrade finished and a reboot is needed.
    WaitingReboot,
    /// Reboot in progress.
    Rebooting,
    /// Checking host health after a reboot.
    Verifying,
    /// An operation failed; waiting for an operator.
    Failed,
}

/// The permitted transitions of the host state machine.
pub open spec fn transition_allowed(from: HostState, to: HostState) -> bool {
    match (from, to) {
        (HostState::Idle, HostState::Querying) => true,
        (HostState::Querying, HostState::PendingUpdates) => true,
        (HostState::Querying, HostState::Idle) => true,
        (HostState::Querying, HostState::Failed) => true,
        (HostState::PendingUpdates, HostState::Updating) => true,
        (HostState::Updating, HostState::WaitingReboot) => true,
        (HostState::Updating, HostState::Idle) => true,
        (HostState::Updating, HostState::Failed) => true,
        (HostState::WaitingReboot, HostState::Rebooting) => true,
        (HostState::Rebooting, HostState::Verifying) => true,
        (HostState::Rebooting, HostState::Idle) => true,
        (HostState::Rebooting, HostState::Failed) => true,
        (HostState::Verifying, HostState::Idle) => true,
        (HostState::Verifying, HostState::Failed) => true,
        (HostState::Failed, HostState::Idle) => true,
        _ => false,
    }
}

/// States during which an operation is running.
pub open spec fn busy(s: HostState) -> bool {
    s == HostState::Querying || s == HostState::Updating || s == HostState::Rebooting
        || s == HostState::Verifying
}

/// States from which an operation may be started.
pub open spec fn startable(s: HostState) -> bool {
    s == HostState::Idle || s == HostState::PendingUpdates
}

/// The snake_case name of a state, as shown in events.
pub open spec fn state_name(s: HostState) -> Seq<char> {
    match s {
        HostState::Idle => "idle"@,
        HostState::Querying => "querying"@,
        HostState::PendingUpdates => "pending_updates"@,
        HostState::Updating => "updating"@,
        HostState::WaitingReboot => "waiting_reboot"@,
        HostState::Rebooting => "rebooting"@,
        HostState::Verifying => "verifying"@,
        HostState::Failed => "failed"@,
    }
}

impl HostState {
    /// Whether the transition table allows moving from `self` to `target`.
    pub fn can_transition_to(&self, target: HostState) -> (r: bool)
        ensures
            r == transition_allowed(*self, target),
    {
        match (*self, target) {
            (HostState::Idle, HostState::Querying) => true,
            (HostState::Querying, HostState::PendingUpdates) => true,
            (HostState::Querying, HostState::Idle) => true,
            (HostState::Querying, HostState::Failed) => true,
            (HostState::PendingUpdates, HostState::Updating) => true,
            (HostState::Updating, HostState::WaitingReboot) => true,
            (HostState::Updating, HostState::Idle) => true,
            (HostState::Updating, HostState::Failed) => true,
            (HostState::WaitingReboot, HostState::Rebooting) => true,
            (HostState::Rebooting, HostState::Verifying) => true,
            (HostState::Rebooting, HostState::Idle) => true,
            (HostState::Rebooting, HostState::Failed) => true,
            (HostState::Verifying, HostState::Idle) => true,
            (HostState::Verifying, HostState::Failed) => true,
            (HostState::Failed, HostState::Idle) => true,
            _ => false,
        }
    }

    /// Whether this state represents an active operation.
    pub fn is_busy(&self) -> (r: bool)
        ensures
            r == busy(*self),
    {
        match self {
            HostState::Querying | HostState::Updating | HostState::Rebooting
            | HostState::Verifying => true,
            _ => false,
        }
    }

    /// Whether an operation may be started from this state.
    pub fn can_start_operation(&self) -> (r: bool)
        ensures
            r == startable(*self),
    {
        match self {
            HostState::Idle | HostState::PendingUpdates => true,
            _ => false,
        }
    }

    /// The snake_case name of the state.
    pub fn as_str(&self) -> (r: &'static str)
        ensures
            r@ == state_name(*self),
    {
        match self {
            HostState::Idle => "idle",
            HostState::Querying => "querying",
            HostState::PendingUpdates => "pending_updates",
            HostState::Updating => "updating",
            HostState::WaitingReboot => "waiting_reboot",
            HostState::Rebooting => "rebooting",
            HostState::Verifying => "verifying",
            HostState::Failed => "failed",
        }
    }

    /// The snake_case name of the state as an owned string.
    pub fn to_string(&self) -> (r: String)
        ensures
            r@ == state_name(*self),
    {
        String::from_str(self.as_str())
    }
}

impl Default for HostState {
    fn default() -> (r: HostState)
        ensures
            r == HostState::Idle,
    {
        HostState::Idle
    }
}

/// A point in time, in milliseconds since the Unix epoch (UTC).
#[derive(Debug, Clone, Copy, PartialEq, Eq, Hash, Structural)]
pub struct Timestamp {
    pub millis: i64,
}

/// Relies on chrono's `Utc::now` and `DateTime::timestamp_millis`: the
/// current wall-clock time; nothing is promised of its value.
#[verifier::external_body]
fn utc_now_millis() -> (r: i64) {
    chrono::Utc::now().timestamp_millis()
}

impl Timestamp {
    /// The current wall-clock time.
    pub fn now() -> (r: Timestamp) {
        Timestamp { millis: utc_now_millis() }
    }
}

/// Details kept while a host is in `PendingUpdates`.
#[derive(Debug, Clone)]
pub struct PendingUpdatesContext {
    /// Number of packages with available updates.
    pub package_count: u32,
    /// Names of the packages with updates.
    pub packages: Vec<String>,
    /// When the inventory was taken.
    pub queried_at: Timestamp,
}

/// Details kept while a host is in `Failed`.
#[derive(Debug, Clone)]
pub struct FailedStateContext {
    /// State in which the failure occurred.
    pub previous_state: HostState,
    /// Message describing the failure.
    pub error: String,
    /// When the failure occurred.
    pub failed_at: Timestamp,
    /// Number of retries.
    pub retry_count: u32,
    /// Whether an operator has acknowledged the failure.
    pub acknowledged: bool,
}

impl FailedStateContext {
    /// A fresh failure record: no retries, not acknowledged.
    pub fn new(previous_state: HostState, error: String, failed_at: Timestamp) -> (r: Self)
        ensures
            r.previous_state == previous_state,
            r.error == error,
            r.failed_at == failed_at,
            r.retry_count == 0,
            !r.acknowledged,
    {
        FailedStateContext { previous_state, error, failed_at, retry_count: 0, acknowledged: false }
    }

    /// Counts one more retry.
    pub fn increment_retry(&mut self)
        requires
            old(self).retry_count < u32::MAX,
        ensures
            final(self).retry_count == old(self).retry_count + 1,
            final(self).previous_state == old(self).previous_state,
            final(self).error == old(self).error,
            final(self).failed_at == old(self).failed_at,
            final(self).acknowledged == old(self).acknowledged,
    {
        self.retry_count = self.retry_count + 1;
    }

    /// Marks the failure as acknowledged.
    pub fn acknowledge(&mut self)
        ensures
            *final(self) == (FailedStateContext { acknowledged: true, ..*old(self) }),
    {
        self.acknowledged = true;
    }
}

} // verus!
