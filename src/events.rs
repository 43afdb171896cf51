//! Lifecycle events and the request/response shapes of the API boundary.

use vstd::prelude::*;
use crate::state::{HostState, state_name};
use crate::config::{FleetFilter, FleetUpdateConfig};
use crate::host::copy_strings;
use crate::text::{decimal, decimal_string};

verus! {

/// An event emitted by one host entity.
#[derive(Debug, Clone, PartialEq, Eq)]
pub enum HostEvent {
    /// The host moved from one state to another.
    StateChanged { from: HostState, to: HostState },
    /// An upgrade finished.
    UpdateCompleted { upgraded_count: u32, reboot_required: bool },
    /// The host entity started.
    Connected,
    /// The host entity stopped.
    Disconnected { reason: String },
}

/// A lifecycle event as published to subscribers.
#[derive(Debug, Clone, PartialEq, Eq)]
pub enum WsEvent {
    HostStateChanged { host: String, from: String, to: String },
    UpdateProgress { host: String, package: String, progress: u8 },
    UpdateCompleted { host: String, result: String },
    HostConnected { host: String },
    HostDisconnected { host: String, reason: String },
}

/// `true` or `false`.
pub open spec fn bool_text(b: bool) -> Seq<char> {
    if b {
        "true"@
    } else {
        "false"@
    }
}

/// The summary line of a finished upgrade.
pub open spec fn completion_text(upgraded_count: u32, reboot_required: bool) -> Seq<char> {
    "upgraded "@ + decimal(upgraded_count as nat) + " packages, reboot_required="@ + bool_text(
        reboot_required,
    )
}

/// Whether `w` publishes the event `e` of the host named `host`.
pub open spec fn publishes(w: WsEvent, host: Seq<char>, e: HostEvent) -> bool {
    match e {
        HostEvent::StateChanged { from, to } => w matches WsEvent::HostStateChanged {
            host: h,
            from: f,
            to: t,
        } && h@ == host && f@ == state_name(from) && t@ == state_name(to),
        HostEvent::UpdateCompleted { upgraded_count, reboot_required } => w matches WsEvent::UpdateCompleted {
            host: h,
            result: r,
        } && h@ == host && r@ == completion_text(upgraded_count, reboot_required),
        HostEvent::Connected => w matches WsEvent::HostConnected { host: h } && h@ == host,
        HostEvent::Disconnected { reason } => w matches WsEvent::HostDisconnected {
            host: h,
            reason: r,
        } && h@ == host && r@ == reason@,
    }
}

fn bool_str(b: bool) -> (r: &'static str)
    ensures
        r@ == bool_text(b),
{
    if b {
        "true"
    } else {
        "false"
    }
}

impl HostEvent {
    /// The published form of this event of the host named `host`.
    pub fn to_ws_event(&self, host: &str) -> (r: WsEvent)
        ensures
            publishes(r, host@, *self),
    {
        let h = String::from_str(host);
        match self {
            HostEvent::StateChanged { from, to } => WsEvent::HostStateChanged {
                host: h,
                from: from.to_string(),
                to: to.to_string(),
            },
            HostEvent::UpdateCompleted { upgraded_count, reboot_required } => {
                let result = String::from_str("upgraded ").concat(
                    decimal_string(*upgraded_count as u64).as_str(),
                ).concat(" packages, reboot_required=").concat(bool_str(*reboot_required));
                WsEvent::UpdateCompleted { host: h, result }
            },
            HostEvent::Connected => WsEvent::HostConnected { host: h },
            HostEvent::Disconnected { reason } => WsEvent::HostDisconnected {
                host: h,
                reason: reason.clone(),
            },
        }
    }
}

/// Body of a single-host update request.
#[derive(Debug, Clone, PartialEq, Eq)]
pub struct UpdateRequest {
    pub dry_run: bool,
}

/// Body of a fleet update request.
#[derive(Debug, Clone, PartialEq, Eq)]
pub struct FleetUpdateRequest {
    pub batch_size: usize,
    pub delay_ms: u64,
    pub filter: Option<FleetUpdateFilter>,
}

/// Host selection of a fleet update request.
#[derive(Debug, Clone, PartialEq, Eq)]
pub struct FleetUpdateFilter {
    pub tags: Option<Vec<String>>,
    pub groups: Option<Vec<String>>,
    pub exclude_hosts: Option<Vec<String>>,
}

/// The strings of an optional list; none when absent.
pub open spec fn listed(v: Option<Vec<String>>) -> Seq<String> {
    match v {
        Some(v) => v@,
        None => Seq::empty(),
    }
}

fn list_or_empty(v: &Option<Vec<String>>) -> (r: Vec<String>)
    ensures
        r@ == listed(*v),
{
    match v {
        Some(v) => copy_strings(v),
        None => Vec::new(),
    }
}

impl FleetUpdateRequest {
    /// The fleet-update settings of the request; absent filter lists are
    /// empty.
    pub fn to_config(&self, dry_run: bool) -> (r: FleetUpdateConfig)
        ensures
            r.batch_size == self.batch_size,
            r.delay_between_batches_ms == self.delay_ms,
            r.dry_run == dry_run,
            self.filter is None ==> r.filter is None,
            self.filter is Some ==> r.filter is Some && r.filter->0.tags@ == listed(
                self.filter->0.tags,
            ) && r.filter->0.groups@ == listed(self.filter->0.groups)
                && r.filter->0.exclude_hosts@ == listed(self.filter->0.exclude_hosts),
    {
        let filter = match &self.filter {
            None => None,
            Some(f) => Some(
                FleetFilter {
                    tags: list_or_empty(&f.tags),
                    groups: list_or_empty(&f.groups),
                    exclude_hosts: list_or_empty(&f.exclude_hosts),
                },
            ),
        };
        FleetUpdateConfig {
            batch_size: self.batch_size,
            delay_between_batches_ms: self.delay_ms,
            filter,
            dry_run,
        }
    }
}

/// One page of items.
#[derive(Debug, Clone, PartialEq, Eq)]
pub struct PaginatedResponse<T> {
    pub data: Vec<T>,
    pub pagination: Pagination,
}

/// Page bookkeeping of a listing.
#[derive(Debug, Clone, Copy, PartialEq, Eq)]
pub struct Pagination {
    pub page: u64,
    pub per_page: u64,
    pub total_items: u64,
    pub total_pages: u64,
}

/// Body of the health endpoint.
#[derive(Debug, Clone, PartialEq, Eq)]
pub struct HealthResponse {
    pub status: String,
}

} // verus!
