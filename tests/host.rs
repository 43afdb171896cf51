use tendhost::config::{HostConfig, HostPolicy};
use tendhost::error::{CoreError, ExecError, PackageError};
use tendhost::events::{HostEvent, WsEvent};
use tendhost::exec::CommandResult;
use tendhost::host::HostActor;
use tendhost::pkg::{UpdateResult as PkgUpdateResult, UpgradablePackage};
use tendhost::state::{HostState, Timestamp};

fn config(name: &str, tags: &[&str], auto_reboot: bool) -> HostConfig {
    HostConfig {
        name: name.to_string(),
        addr: "127.0.0.1".to_string(),
        user: "root".to_string(),
        ssh_key: None,
        compose_paths: vec![],
        tags: tags.iter().map(|t| t.to_string()).collect(),
        policy: HostPolicy { auto_reboot, maintenance_window: None },
    }
}

fn packages(names: &[&str]) -> Vec<UpgradablePackage> {
    names
        .iter()
        .map(|n| UpgradablePackage::new(n.to_string(), "0.9.0".to_string(), "1.0.0".to_string()))
        .collect()
}

fn at(ms: i64) -> Timestamp {
    Timestamp { millis: ms }
}

fn ok_output(stdout: &str) -> Result<CommandResult, ExecError> {
    Ok(CommandResult { status: 0, stdout: stdout.to_string(), stderr: String::new(), duration_ms: 1 })
}

fn changed(from: HostState, to: HostState) -> HostEvent {
    HostEvent::StateChanged { from, to }
}

/// Runs an inventory query answered with `names`.
fn query(h: &mut HostActor, names: &[&str], ev: &mut Vec<HostEvent>) {
    h.begin_query(ev).unwrap();
    h.finish_query(Ok(packages(names)), at(10), ev).unwrap();
}

#[test]
fn test_host_actor_query_inventory() {
    let mut events = Vec::new();
    let mut host = HostActor::new(config("test-host", &[], true), &mut events);
    host.begin_query(&mut events).unwrap();
    let inventory = host.finish_query(Ok(packages(&["vim", "curl"])), at(1), &mut events).unwrap();

    assert_eq!(inventory.pending_updates, 2);
    assert_eq!(inventory.packages, vec!["vim", "curl"]);
}

#[test]
fn happy_path_update_without_reboot() {
    let mut ev = Vec::new();
    let mut h = HostActor::new(config("host-A", &["prod"], true), &mut ev);
    h.begin_query(&mut ev).unwrap();
    let inv = h.finish_query(Ok(packages(&["vim", "curl"])), at(5), &mut ev).unwrap();
    assert_eq!(inv.pending_updates, 2);
    assert_eq!(inv.packages, vec!["vim".to_string(), "curl".to_string()]);
    assert_eq!(h.state(), HostState::PendingUpdates);
    assert_eq!(h.status().pending_updates, Some(2));

    h.begin_update(&mut ev).unwrap();
    let res = h
        .finish_update(false, Ok(PkgUpdateResult::success(2)), Ok(false), at(100), &mut ev)
        .unwrap();
    assert!(res.success);
    assert_eq!(res.upgraded_count, 2);
    assert!(!res.reboot_required);
    assert_eq!(h.state(), HostState::Idle);
    assert_eq!(h.last_updated(), Some(at(100)));

    assert_eq!(
        ev,
        vec![
            HostEvent::Connected,
            changed(HostState::Idle, HostState::Querying),
            changed(HostState::Querying, HostState::PendingUpdates),
            changed(HostState::PendingUpdates, HostState::Updating),
            HostEvent::UpdateCompleted { upgraded_count: 2, reboot_required: false },
            changed(HostState::Updating, HostState::Idle),
        ]
    );
    assert_eq!(
        ev[4].to_ws_event(h.name()),
        WsEvent::UpdateCompleted {
            host: "host-A".to_string(),
            result: "upgraded 2 packages, reboot_required=false".to_string(),
        }
    );
    assert_eq!(
        ev[2].to_ws_event(h.name()),
        WsEvent::HostStateChanged {
            host: "host-A".to_string(),
            from: "querying".to_string(),
            to: "pending_updates".to_string(),
        }
    );
}

#[test]
fn update_with_reboot_and_auto_reboot() {
    let mut ev = Vec::new();
    let mut h = HostActor::new(config("h", &[], true), &mut ev);
    query(&mut h, &["linux-image"], &mut ev);
    h.begin_update(&mut ev).unwrap();
    let res = h.finish_update(false, Ok(PkgUpdateResult::success(1)), Ok(true), at(20), &mut ev).unwrap();
    assert!(res.reboot_required);
    assert_eq!(h.state(), HostState::WaitingReboot);
    assert_eq!(h.last_updated(), None);

    assert_eq!(h.begin_reboot(&mut ev), Ok(true));
    assert_eq!(h.state(), HostState::Rebooting);
    assert_eq!(h.finish_reboot(ok_output(""), at(30), &mut ev), Ok(true));
    assert_eq!(h.state(), HostState::Verifying);

    let health = h.health_check(ok_output("ok\n"), at(40), &mut ev).unwrap();
    assert!(health.healthy);
    assert_eq!(health.message, None);
    assert_eq!(h.state(), HostState::Idle);
    assert_eq!(h.last_updated(), Some(at(40)));
}

#[test]
fn update_with_reboot_and_auto_reboot_disabled() {
    let mut ev = Vec::new();
    let mut h = HostActor::new(config("h", &[], false), &mut ev);
    query(&mut h, &["linux-image"], &mut ev);
    h.begin_update(&mut ev).unwrap();
    h.finish_update(false, Ok(PkgUpdateResult::success(1)), Ok(true), at(20), &mut ev).unwrap();
    let before = ev.len();
    assert_eq!(h.begin_reboot(&mut ev), Ok(false));
    assert_eq!(h.state(), HostState::WaitingReboot);
    assert_eq!(ev.len(), before);
}

#[test]
fn dry_run_never_waits_for_reboot() {
    let mut ev = Vec::new();
    let mut h = HostActor::new(config("h", &[], true), &mut ev);
    query(&mut h, &["a"], &mut ev);
    h.begin_update(&mut ev).unwrap();
    let res = h.finish_update(true, Ok(PkgUpdateResult::success(1)), Ok(true), at(7), &mut ev).unwrap();
    assert!(res.reboot_required);
    assert_eq!(h.state(), HostState::Idle);
}

#[test]
fn package_failure_enters_failed_and_retry_recovers() {
    let mut ev = Vec::new();
    let mut h = HostActor::new(config("h", &[], true), &mut ev);
    h.begin_query(&mut ev).unwrap();
    let err = h
        .finish_query(
            Err(PackageError::RepositoryUnavailable("repo unreachable".to_string())),
            at(3),
            &mut ev,
        )
        .unwrap_err();
    assert_eq!(
        err,
        CoreError::InventoryError("repository unavailable: repo unreachable".to_string())
    );
    assert_eq!(h.state(), HostState::Failed);
    let ctx = h.failed_context().clone().unwrap();
    assert_eq!(ctx.previous_state, HostState::Querying);
    assert!(ctx.error.contains("repo unreachable"));
    assert_eq!(ctx.retry_count, 0);

    assert!(matches!(h.begin_query(&mut ev), Err(CoreError::HostFailed(_))));
    assert!(matches!(h.begin_update(&mut ev), Err(CoreError::HostFailed(_))));
    assert!(matches!(h.begin_reboot(&mut ev), Err(CoreError::HostFailed(_))));
    assert_eq!(h.state(), HostState::Failed);

    assert_eq!(h.retry(&mut ev), Ok(()));
    assert_eq!(h.state(), HostState::Idle);
    assert!(h.failed_context().is_none());
    assert_eq!(*ev.last().unwrap(), changed(HostState::Failed, HostState::Idle));

    h.begin_query(&mut ev).unwrap();
    assert!(h.finish_query(Ok(packages(&["vim"])), at(4), &mut ev).is_ok());
}

#[test]
fn invalid_transition_has_no_side_effect() {
    let mut ev = Vec::new();
    let mut h = HostActor::new(config("h", &[], true), &mut ev);
    let before = ev.clone();
    assert_eq!(
        h.begin_update(&mut ev),
        Err(CoreError::InvalidTransition { from: HostState::Idle, to: HostState::Updating })
    );
    assert_eq!(h.state(), HostState::Idle);
    assert_eq!(ev, before);
    assert_eq!(
        h.retry(&mut ev),
        Err(CoreError::InvalidTransition { from: HostState::Idle, to: HostState::Idle })
    );
    assert_eq!(
        h.acknowledge(),
        Err(CoreError::HostFailed("can only acknowledge hosts in Failed state".to_string()))
    );
}

#[test]
fn busy_host_rejects_new_operations() {
    let mut ev = Vec::new();
    let mut h = HostActor::new(config("h", &[], true), &mut ev);
    h.begin_query(&mut ev).unwrap();
    assert_eq!(
        h.begin_query(&mut ev),
        Err(CoreError::InvalidTransition { from: HostState::Querying, to: HostState::Querying })
    );
    assert_eq!(
        h.begin_update(&mut ev),
        Err(CoreError::InvalidTransition { from: HostState::Querying, to: HostState::Updating })
    );
    assert_eq!(h.state(), HostState::Querying);
}

#[test]
fn empty_inventory_returns_to_idle() {
    let mut ev = Vec::new();
    let mut h = HostActor::new(config("h", &[], true), &mut ev);
    h.begin_query(&mut ev).unwrap();
    let inv = h.finish_query(Ok(vec![]), at(1), &mut ev).unwrap();
    assert_eq!(inv.pending_updates, 0);
    assert_eq!(h.state(), HostState::Idle);
    assert!(h.pending_context().is_none());
}

#[test]
fn acknowledge_is_idempotent() {
    let mut ev = Vec::new();
    let mut h = HostActor::new(config("h", &[], true), &mut ev);
    h.begin_query(&mut ev).unwrap();
    let _ = h.finish_query(Err(PackageError::LockConflict("busy".to_string())), at(1), &mut ev);
    assert_eq!(h.acknowledge(), Ok(()));
    let once = h.failed_context().clone().unwrap();
    assert!(once.acknowledged);
    assert_eq!(h.acknowledge(), Ok(()));
    let twice = h.failed_context().clone().unwrap();
    assert_eq!(once.acknowledged, twice.acknowledged);
    assert_eq!(once.error, twice.error);
    assert_eq!(once.retry_count, twice.retry_count);
    assert_eq!(h.state(), HostState::Failed);
}

#[test]
fn status_is_pure() {
    let mut ev = Vec::new();
    let mut h = HostActor::new(config("h", &["prod"], true), &mut ev);
    query(&mut h, &["a", "b", "c"], &mut ev);
    let a = h.status();
    let b = h.status();
    assert_eq!(a, b);
    assert_eq!(h.state(), h.state());
    assert_eq!(a.tags, vec!["prod".to_string()]);
    assert_eq!(a.pending_updates, Some(3));
    assert_eq!(a.error, None);
}

#[test]
fn failed_health_check_after_reboot() {
    let mut ev = Vec::new();
    let mut h = HostActor::new(config("h", &[], true), &mut ev);
    query(&mut h, &["k"], &mut ev);
    h.begin_update(&mut ev).unwrap();
    h.finish_update(false, Ok(PkgUpdateResult::success(1)), Ok(true), at(2), &mut ev).unwrap();
    h.begin_reboot(&mut ev).unwrap();
    h.finish_reboot(ok_output(""), at(3), &mut ev).unwrap();
    let r = h.health_check(ok_output("nope"), at(4), &mut ev).unwrap();
    assert!(!r.healthy);
    assert_eq!(r.message, Some("unexpected output".to_string()));
    assert_eq!(h.state(), HostState::Failed);
    assert_eq!(
        h.failed_context().clone().unwrap().error,
        "health check failed after reboot".to_string()
    );
}

#[test]
fn health_check_outside_verifying_changes_nothing() {
    let mut ev = Vec::new();
    let mut h = HostActor::new(config("h", &[], true), &mut ev);
    let n = ev.len();
    let r = h.health_check(ok_output("  ok  "), at(1), &mut ev).unwrap();
    assert!(r.healthy);
    assert_eq!(h.state(), HostState::Idle);
    assert_eq!(ev.len(), n);
    let err = h.health_check(Err(ExecError::Timeout { timeout_ms: 100 }), at(1), &mut ev);
    assert_eq!(err, Err(CoreError::SshError("command timed out after 100ms".to_string())));
    assert_eq!(h.state(), HostState::Idle);
}

#[test]
fn reboot_command_failure_enters_failed() {
    let mut ev = Vec::new();
    let mut h = HostActor::new(config("h", &[], true), &mut ev);
    query(&mut h, &["k"], &mut ev);
    h.begin_update(&mut ev).unwrap();
    h.finish_update(false, Ok(PkgUpdateResult::success(1)), Ok(true), at(2), &mut ev).unwrap();
    h.begin_reboot(&mut ev).unwrap();
    let r = h.finish_reboot(
        Err(ExecError::CommandFailed { status: -1, stderr: "gone".to_string() }),
        at(3),
        &mut ev,
    );
    assert_eq!(r, Err(CoreError::SshError("command execution failed: -1 - gone".to_string())));
    assert_eq!(h.state(), HostState::Failed);
    assert_eq!(h.failed_context().clone().unwrap().previous_state, HostState::Rebooting);
}

#[test]
fn stop_announces_disconnect() {
    let mut ev = Vec::new();
    let h = HostActor::new(config("h", &[], true), &mut ev);
    h.stop("shutdown".to_string(), &mut ev);
    assert_eq!(ev[1], HostEvent::Disconnected { reason: "shutdown".to_string() });
    assert_eq!(
        ev[1].to_ws_event("h"),
        WsEvent::HostDisconnected { host: "h".to_string(), reason: "shutdown".to_string() }
    );
    assert!(Timestamp::now().millis > 0);
}
