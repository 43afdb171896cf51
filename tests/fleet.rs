use tendhost::events::{FleetUpdateFilter, FleetUpdateRequest};
use tendhost::config::{FleetFilter, FleetUpdateConfig, HostConfig, HostPolicy};
use tendhost::error::CoreError;
use tendhost::message::{FleetUpdateProgress, InventoryResult, UpdateResult};
use tendhost::orchestrator::{host_completed, plan_batches, OrchestratorActor};

fn config(name: &str, tags: &[&str]) -> HostConfig {
    HostConfig {
        name: name.to_string(),
        addr: "127.0.0.1".to_string(),
        user: "root".to_string(),
        ssh_key: None,
        compose_paths: vec![],
        tags: tags.iter().map(|t| t.to_string()).collect(),
        policy: HostPolicy::default(),
    }
}

fn names(v: &[&str]) -> Vec<String> {
    v.iter().map(|s| s.to_string()).collect()
}

fn fleet(batch_size: usize, delay: u64, filter: Option<FleetFilter>) -> FleetUpdateConfig {
    FleetUpdateConfig { batch_size, delay_between_batches_ms: delay, filter, dry_run: false }
}

/// Runs a planned fleet update with every host succeeding; returns the
/// batches taken, the pauses requested and the largest number in progress.
fn run_all(run: &mut tendhost::orchestrator::FleetRun) -> (Vec<Vec<String>>, Vec<u64>, usize) {
    let mut batches = Vec::new();
    let mut pauses = Vec::new();
    let mut peak = 0;
    while let Some(batch) = run.next_batch() {
        peak = peak.max(run.progress().in_progress);
        run.record_batch(&vec![true; batch.len()]);
        let p = run.pause_ms();
        if p > 0 {
            pauses.push(p);
        }
        batches.push(batch);
    }
    (batches, pauses, peak)
}

#[test]
fn test_orchestrator_register_host() {
    let mut orchestrator = OrchestratorActor::new();
    orchestrator.register_host(config("test-host", &["test"])).unwrap();

    assert_eq!(orchestrator.host_count(), 1);
    let c = orchestrator.host_config(&"test-host".to_string()).unwrap();
    assert_eq!(c.name, "test-host");
}

#[test]
fn registration_is_unique_until_unregistered() {
    let mut o = OrchestratorActor::new();
    o.register_host(config("a", &[])).unwrap();
    assert_eq!(
        o.register_host(config("a", &["x"])),
        Err(CoreError::HostAlreadyExists("a".to_string()))
    );
    assert_eq!(
        o.unregister_host(&"b".to_string()).map(|c| c.name),
        Err(CoreError::HostNotFound("b".to_string()))
    );
    assert_eq!(o.unregister_host(&"a".to_string()).unwrap().name, "a");
    assert_eq!(o.host_count(), 0);
    assert!(o.register_host(config("a", &[])).is_ok());
    assert!(matches!(
        o.host_config(&"zz".to_string()),
        Err(CoreError::HostNotFound(_))
    ));
}

#[test]
fn rolling_fleet_update() {
    let mut o = OrchestratorActor::new();
    for (n, t) in [("h1", "prod"), ("h2", "prod"), ("h3", "staging"), ("h4", "prod"), ("h5", "prod")] {
        o.register_host(config(n, &[t])).unwrap();
    }
    let filter = FleetFilter {
        tags: names(&["prod"]),
        groups: vec![],
        exclude_hosts: names(&["h5"]),
    };
    assert_eq!(o.fleet_targets(&Some(filter.clone())), names(&["h1", "h2", "h4"]));
    let mut run = o.start_fleet_update(&fleet(2, 10, Some(filter)));
    let (batches, pauses, peak) = run_all(&mut run);
    assert_eq!(batches, vec![names(&["h1", "h2"]), names(&["h4"])]);
    assert_eq!(pauses, vec![10]);
    assert!(peak <= 2);
    assert_eq!(
        run.progress(),
        FleetUpdateProgress { total_hosts: 3, completed: 3, failed: 0, in_progress: 0 }
    );
    assert!(run.is_finished());
}

#[test]
fn fleet_counts_failures() {
    let mut o = OrchestratorActor::new();
    for n in ["a", "b", "c"] {
        o.register_host(config(n, &[])).unwrap();
    }
    let mut run = o.start_fleet_update(&fleet(2, 0, None));
    let first = run.next_batch().unwrap();
    assert_eq!(first.len(), 2);
    assert_eq!(run.progress().in_progress, 2);
    run.record_batch(&vec![true, false]);
    assert_eq!(run.pause_ms(), 0);
    let second = run.next_batch().unwrap();
    run.record_batch(&vec![false; second.len()]);
    assert!(run.next_batch().is_none());
    let p = run.progress();
    assert_eq!((p.total_hosts, p.completed, p.failed, p.in_progress), (3, 1, 2, 0));
    assert_eq!(p.completed + p.failed, p.total_hosts);
}

#[test]
fn zero_batch_size_is_a_no_op() {
    let mut o = OrchestratorActor::new();
    o.register_host(config("a", &[])).unwrap();
    let mut run = o.start_fleet_update(&fleet(0, 5, None));
    assert!(run.next_batch().is_none());
    assert_eq!(
        run.progress(),
        FleetUpdateProgress { total_hosts: 0, completed: 0, failed: 0, in_progress: 0 }
    );
    assert!(plan_batches(&names(&["a", "b"]), 0).is_empty());
}

#[test]
fn large_batch_runs_once_without_pause() {
    let mut o = OrchestratorActor::new();
    for n in ["a", "b", "c"] {
        o.register_host(config(n, &[])).unwrap();
    }
    let mut run = o.start_fleet_update(&fleet(10, 1000, None));
    let (batches, pauses, _) = run_all(&mut run);
    assert_eq!(batches, vec![names(&["a", "b", "c"])]);
    assert!(pauses.is_empty());
}

#[test]
fn filter_matching_nothing() {
    let mut o = OrchestratorActor::new();
    o.register_host(config("a", &["prod"])).unwrap();
    let filter = FleetFilter { tags: names(&["edge"]), groups: vec![], exclude_hosts: vec![] };
    let mut run = o.start_fleet_update(&fleet(2, 10, Some(filter)));
    assert!(run.next_batch().is_none());
    assert_eq!(
        run.progress(),
        FleetUpdateProgress { total_hosts: 0, completed: 0, failed: 0, in_progress: 0 }
    );
}

#[test]
fn tag_filter_is_any_of() {
    let mut o = OrchestratorActor::new();
    o.register_host(config("a", &["web", "eu"])).unwrap();
    o.register_host(config("b", &["db"])).unwrap();
    o.register_host(config("c", &[])).unwrap();
    let f = FleetFilter { tags: names(&["db", "eu"]), groups: vec![], exclude_hosts: vec![] };
    assert_eq!(o.fleet_targets(&Some(f)), names(&["a", "b"]));
    assert_eq!(o.fleet_targets(&None), names(&["a", "b", "c"]));
}

#[test]
fn batches_are_consecutive_chunks() {
    let b = plan_batches(&names(&["1", "2", "3", "4", "5"]), 2);
    assert_eq!(b, vec![names(&["1", "2"]), names(&["3", "4"]), names(&["5"])]);
    assert!(plan_batches(&vec![], 3).is_empty());
}

#[test]
fn host_outcome_needs_both_calls() {
    let q: Result<InventoryResult, CoreError> =
        Ok(InventoryResult { pending_updates: 1, packages: names(&["x"]) });
    let u: Result<UpdateResult, CoreError> =
        Ok(UpdateResult { success: true, upgraded_count: 1, reboot_required: false });
    assert!(host_completed(&q, &u));
    let bad: Result<InventoryResult, CoreError> = Err(CoreError::Timeout);
    assert!(!host_completed(&bad, &u));
    let default = FleetUpdateConfig::default();
    assert_eq!((default.batch_size, default.delay_between_batches_ms), (2, 30_000));
}

#[test]
fn fleet_request_becomes_config() {
    let req = FleetUpdateRequest {
        batch_size: 2,
        delay_ms: 10,
        filter: Some(FleetUpdateFilter {
            tags: Some(names(&["prod"])),
            groups: None,
            exclude_hosts: Some(names(&["h5"])),
        }),
    };
    let c = req.to_config(false);
    assert_eq!(c.batch_size, 2);
    assert_eq!(c.delay_between_batches_ms, 10);
    let f = c.filter.unwrap();
    assert_eq!(f.tags, names(&["prod"]));
    assert!(f.groups.is_empty());
    assert_eq!(f.exclude_hosts, names(&["h5"]));
}
