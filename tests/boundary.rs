use tendhost::api::{list_page, summarize, ApiError, ListHostsQuery, RegisterHostRequest};
use tendhost::config::{default_user, Config, HostConfig, HostPolicy};
use tendhost::error::{ExecError, InventoryError, PackageError};
use tendhost::exec::{
    check_key_mode, decode_env_key, CommandResult, ConnectionInfo, KeyError, KeySource,
    ResolvedKey, SshExecutorBuilder,
};
use tendhost::factory::{needs_sudo, DefaultHostFactory, ExecutorPlan};
use tendhost::message::HostStatus;
use tendhost::state::{HostState, Timestamp};
use tendhost::text::decimal_string;
use tendhost::ui::state_symbol;

fn host(name: &str, addr: &str, key: Option<&str>, compose: &[&str]) -> HostConfig {
    HostConfig {
        name: name.to_string(),
        addr: addr.to_string(),
        user: "root".to_string(),
        ssh_key: key.map(|k| k.to_string()),
        compose_paths: compose.iter().map(|c| c.to_string()).collect(),
        tags: vec![],
        policy: HostPolicy::default(),
    }
}

#[test]
fn test_localhost_executor_creation() {
    let config = host("localhost", "127.0.0.1", None, &[]);
    let executor = DefaultHostFactory::create_executor_sync(&config);
    assert!(matches!(executor, ExecutorPlan::Local));
}

#[test]
fn test_compose_manager_creation() {
    let config = host("docker-host", "localhost", None, &["/opt/stacks"]);
    let compose = DefaultHostFactory::create_compose_manager(&config);
    assert!(compose.is_some());
}

#[test]
fn remote_hosts_use_ssh() {
    let plan = DefaultHostFactory::create_executor_sync(&host("r", "10.0.0.5", Some("/k"), &[]));
    assert_eq!(
        plan,
        ExecutorPlan::Ssh {
            conn: ConnectionInfo::new("10.0.0.5".to_string(), "root".to_string()),
            key: KeySource::Path("/k".to_string()),
        }
    );
    assert!(DefaultHostFactory::create_compose_manager(&host("r", "x", None, &[])).is_none());
}

#[test]
fn retryable_kinds() {
    assert!(ExecError::ConnectionFailed("x".to_string()).is_retryable());
    assert!(ExecError::Timeout { timeout_ms: 5 }.is_retryable());
    assert!(!ExecError::NotConnected.is_retryable());
    assert!(PackageError::LockConflict("l".to_string()).is_retryable());
    assert!(PackageError::RepositoryUnavailable("r".to_string()).is_retryable());
    assert!(!PackageError::ParseError("p".to_string()).is_retryable());
    assert!(PackageError::PermissionDenied("p".to_string()).needs_sudo());
    assert!(InventoryError::Timeout(3).is_retryable());
    assert!(InventoryError::OsqueryNotFound("o".to_string()).needs_installation());
    assert_eq!(
        PackageError::CommandFailed { status: -2, message: "m".to_string() }.message(),
        "command failed: -2 - m"
    );
}

#[test]
fn key_handling() {
    assert_eq!(check_key_mode(&"/k".to_string(), 0o600), Ok(()));
    assert_eq!(
        check_key_mode(&"/k".to_string(), 0o644),
        Err(KeyError::BadPermissions("/k".to_string()))
    );
    assert_eq!(
        decode_env_key(&"KEY".to_string(), None),
        Err(KeyError::EnvNotSet("KEY".to_string()))
    );
    assert_eq!(
        decode_env_key(&"KEY".to_string(), Some("  aGVsbG8=\n".to_string())),
        Ok(b"hello".to_vec())
    );
    assert_eq!(
        decode_env_key(&"KEY".to_string(), Some("not base64!".to_string())),
        Err(KeyError::InvalidBase64)
    );
    assert_eq!(ResolvedKey::Temp("/tmp/k".to_string()).path(), Some(&"/tmp/k".to_string()));
    assert!(ResolvedKey::Agent.use_agent());
    let b = SshExecutorBuilder::new("h".to_string(), "u".to_string())
        .with_env_key("V".to_string())
        .with_port(2222);
    assert_eq!(b.conn_info.port, 2222);
    assert_eq!(b.key_source, KeySource::Env("V".to_string()));
    let info = ConnectionInfo::new("h".to_string(), "u".to_string()).with_ssh_key("/id".to_string());
    assert_eq!(info.ssh_key, Some("/id".to_string()));
}

#[test]
fn command_results() {
    let r = CommandResult { status: 0, stdout: "out".to_string(), stderr: "err".to_string(), duration_ms: 2 };
    assert!(r.success());
    assert_eq!(r.combined_output(), "out\nerr");
    let q = CommandResult { status: 3, stdout: "out".to_string(), stderr: String::new(), duration_ms: 2 };
    assert!(!q.success());
    assert_eq!(q.combined_output(), "out");
}

#[test]
fn sudo_detection() {
    let root = Ok(CommandResult { status: 0, stdout: "root\n".to_string(), stderr: String::new(), duration_ms: 0 });
    assert!(!needs_sudo(&root));
    let user = Ok(CommandResult { status: 0, stdout: "alice\n".to_string(), stderr: String::new(), duration_ms: 0 });
    assert!(needs_sudo(&user));
    assert!(needs_sudo(&Err(ExecError::NotConnected)));
}

fn status(name: &str, tags: &[&str]) -> HostStatus {
    HostStatus {
        name: name.to_string(),
        state: HostState::PendingUpdates,
        last_updated: Some(Timestamp { millis: 0 }),
        pending_updates: Some(1),
        error: None,
        tags: tags.iter().map(|t| t.to_string()).collect(),
    }
}

#[test]
fn host_listing_pages() {
    let hosts = vec![status("a", &["x", "y"]), status("b", &["x"]), status("c", &["y", "x"])];
    let q = ListHostsQuery { page: 1, per_page: 2, tags: Some("x,y".to_string()) };
    let r = list_page(&hosts, &q);
    assert_eq!(r.pagination.total_items, 2);
    assert_eq!(r.pagination.total_pages, 1);
    assert_eq!(r.hosts.len(), 2);
    assert_eq!(r.hosts[1].name, "c");
    assert_eq!(r.hosts[0].state, "PendingUpdates");
    let beyond = list_page(&hosts, &ListHostsQuery { page: 9, per_page: 2, tags: None });
    assert!(beyond.hosts.is_empty());
    assert_eq!(beyond.pagination.total_pages, 2);
    let s = summarize(&hosts[0]);
    assert_eq!(s.last_updated, Some("1970-01-01T00:00:00+00:00".to_string()));
}

#[test]
fn registration_request_and_defaults() {
    let req = RegisterHostRequest {
        name: "n".to_string(),
        addr: "a".to_string(),
        user: default_user(),
        ssh_key: None,
        tags: vec!["t".to_string()],
    };
    let c = req.into_config();
    assert!(c.policy.auto_reboot);
    assert_eq!(c.user, "root");
    let d = Config::default();
    assert_eq!(d.daemon.bind, "127.0.0.1:8080");
    assert_eq!(d.daemon.log_level, "info");
    assert_eq!(ApiError::internal("boom".to_string()).code, "INTERNAL_ERROR");
}

#[test]
fn state_symbols_and_numbers() {
    assert_eq!(state_symbol("Idle", 0), "●");
    assert_eq!(state_symbol("UPDATING", 1), "◓");
    assert_eq!(state_symbol("failed", 3), "✗");
    assert_eq!(state_symbol("mystery", 0), "?");
    assert_eq!(decimal_string(1234567890), "1234567890");
    assert_eq!(decimal_string(0), "0");
}

#[test]
fn command_output_helpers() {
    let ok = Ok(CommandResult { status: 0, stdout: " v1 \n".to_string(), stderr: String::new(), duration_ms: 0 });
    assert_eq!(tendhost::exec::ok_output(ok), Ok("v1".to_string()));
    let bad = Ok(CommandResult { status: 4, stdout: String::new(), stderr: "no".to_string(), duration_ms: 0 });
    assert_eq!(
        tendhost::exec::ok_output(bad),
        Err(ExecError::CommandFailed { status: 4, stderr: "no".to_string() })
    );
    assert_eq!(tendhost::exec::which_command("osqueryi"), "which osqueryi");
}
