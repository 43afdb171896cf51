use tendhost::error::{ExecError, PackageError};
use tendhost::exec::CommandResult;
use tendhost::pkg::apt::AptManager;
use tendhost::pkg::dnf::DnfManager;
use tendhost::pkg::docker::{
    pulling_count, services_from, upgrade_summary, DockerComposeManager, StackUpdate, UpgradableScan,
};
use tendhost::pkg::{with_reboot_answer, UpdateResult, UpgradablePackage};

fn ran(status: i32, stdout: &str, stderr: &str) -> Result<CommandResult, ExecError> {
    Ok(CommandResult {
        status,
        stdout: stdout.to_string(),
        stderr: stderr.to_string(),
        duration_ms: 1,
    })
}

#[test]
fn apt_test_parse_upgradable() {
    let output = r"Listing... Done
vim/now 2:8.2.2434-3+deb11u1 amd64 [upgradable from: 2:8.2.2434-3]
curl/stable 7.74.0-1.3+deb11u14 amd64 [upgradable from: 7.74.0-1.3+deb11u7]";

    let packages = AptManager::parse_upgradable(output);

    assert_eq!(packages.len(), 2);
    assert_eq!(packages[0].name, "vim");
    assert_eq!(packages[0].new_version, "2:8.2.2434-3+deb11u1");
    assert_eq!(packages[0].current_version, "2:8.2.2434-3");
}

#[test]
fn test_parse_upgrade_output() {
    let stderr = "5 upgraded, 2 newly installed, 1 to remove and 0 not upgraded";

    let result = AptManager::parse_upgrade_output("", stderr);

    assert_eq!(result.upgraded_count, 5);
    assert_eq!(result.new_count, 2);
    assert_eq!(result.removed_count, 1);
}

#[test]
fn dnf_test_parse_upgradable() {
    let output = r"Last metadata expiration check: 0:05:31 ago.
vim-enhanced.x86_64 2:8.2.2637-20.el9_1 baseos
curl.x86_64         7.76.1-26.el9_0 baseos";

    let packages = DnfManager::parse_upgradable(output);

    assert_eq!(packages.len(), 2);
    assert_eq!(packages[0].name, "vim-enhanced");
    assert_eq!(packages[0].new_version, "2:8.2.2637-20.el9_1");
}

#[test]
fn test_compose_cmd_v2() {
    let manager =
        DockerComposeManager::new(vec!["/opt/stacks/monitoring".to_string()]).unwrap();

    let cmd = manager.compose_cmd("/opt/stacks/monitoring", "up -d");
    assert!(cmd.contains("docker compose"));
    assert!(cmd.contains("/opt/stacks/monitoring/docker-compose.yml"));
}

#[test]
fn apt_line_details() {
    let packages = AptManager::parse_upgradable(
        "WARNING: apt does not have a stable CLI interface.\n\nlibc6/stable 2.31-13 arm64\nbroken\n",
    );
    assert_eq!(packages.len(), 1);
    assert_eq!(packages[0].name, "libc6");
    assert_eq!(packages[0].arch, Some("stable".to_string()));
    assert_eq!(packages[0].current_version, "unknown");
    assert_eq!(packages[0].new_version, "2.31-13");
    assert_eq!(packages[0].repository, None);
}

#[test]
fn apt_summary_without_counts_is_zero() {
    let r = AptManager::parse_upgrade_output("done", "Reading package lists...\n");
    assert!(r.success);
    assert_eq!((r.upgraded_count, r.new_count, r.removed_count), (0, 0, 0));
}

#[test]
fn apt_commands_and_errors() {
    let apt = AptManager::new(true);
    assert_eq!(apt.upgrade_command(), "sudo apt upgrade -y");
    assert_eq!(AptManager::new(false).list_command(), "apt list --upgradable");
    assert_eq!(
        apt.upgrade_from(ran(100, "", "E: Could not get lock /var/lib/dpkg/lock")),
        Err(PackageError::LockConflict("E: Could not get lock /var/lib/dpkg/lock".to_string()))
    );
    assert_eq!(
        apt.upgrade_from(ran(100, "", "open: Permission denied")),
        Err(PackageError::PermissionDenied("open: Permission denied".to_string()))
    );
    assert_eq!(
        apt.upgrade_from(ran(2, "", "boom")),
        Err(PackageError::CommandFailed { status: 2, message: "boom".to_string() })
    );
    assert_eq!(
        apt.check_refresh(&ran(1, "", "repo unreachable")),
        Err(PackageError::RepositoryUnavailable("repo unreachable".to_string()))
    );
    assert_eq!(
        apt.upgradable_from(Err(ExecError::NotConnected)),
        Err(PackageError::ExecutionError("not connected".to_string()))
    );
    assert_eq!(apt.reboot_from(&ran(0, "", "")), Ok(true));
    assert_eq!(apt.reboot_from(&ran(1, "", "")), Ok(false));
}

#[test]
fn dnf_update_output_and_exit_codes() {
    let r = DnfManager::parse_update_output("Upgraded:\n  vim\nUpdated: curl\nComplete!\n");
    assert!(r.success);
    assert_eq!(r.upgraded_count, 2);
    let failed = DnfManager::parse_update_output("nothing");
    assert!(!failed.success);
    assert_eq!(failed.error, Some("nothing".to_string()));

    let dnf = DnfManager::new(false);
    assert!(dnf.upgradable_from(ran(100, "a.noarch 1 base\n", "")).unwrap().len() == 1);
    assert!(dnf.upgradable_from(ran(0, "", "")).unwrap().is_empty());
    assert_eq!(
        dnf.upgradable_from(ran(1, "", "error")),
        Err(PackageError::CommandFailed { status: 1, message: "error".to_string() })
    );
    assert_eq!(dnf.reboot_from(&ran(1, "", "")), Ok(true));
    let pkgs = DnfManager::parse_upgradable("kernel 5.14 baseos\n");
    assert_eq!(pkgs[0].name, "kernel");
    assert_eq!(pkgs[0].arch, None);
    assert_eq!(pkgs[0].current_version, "unknown");
    assert_eq!(pkgs[0].repository, Some("baseos".to_string()));
}

#[test]
fn dnf_tool_detection() {
    let mut dnf = DnfManager::new(true);
    assert!(dnf.detect_tool(false, true).is_ok());
    assert_eq!(dnf.pkg_cmd("check-update"), "sudo yum check-update");
    assert_eq!(
        dnf.detect_tool(false, false),
        Err(PackageError::ManagerNotFound("neither dnf nor yum found".to_string()))
    );
}

#[test]
fn compose_manager_needs_directories() {
    assert_eq!(
        DockerComposeManager::new(vec![]),
        Err(PackageError::ConfigError("no compose directories specified".to_string()))
    );
    let mut m = DockerComposeManager::new(vec!["/srv/app".to_string()]).unwrap();
    assert!(m.detect_version(false, false, true).is_ok());
    assert_eq!(m.ps_command("/srv/app"), "docker-compose -f /srv/app/docker-compose.yml ps -q");
    assert!(!m.reboot_required());
}

#[test]
fn compose_output_reading() {
    let services = services_from("web\n  db \n\n");
    assert_eq!(services, vec!["web".to_string(), "db".to_string()]);
    assert_eq!(pulling_count(&ran(0, "Pulling web\nPulling db\n", "")), Ok(2));
    assert_eq!(pulling_count(&ran(1, "Pulling web\n", "")), Ok(0));
    let summary = upgrade_summary(3, &vec!["/a: pull failed".to_string(), "/b: up failed".to_string()]);
    assert!(!summary.success);
    assert_eq!(summary.error, Some("/a: pull failed; /b: up failed".to_string()));
}

#[test]
fn update_result_builders() {
    let r = UpdateResult::success(4).with_package("vim".to_string()).with_reboot();
    assert!(r.success && r.reboot_required);
    assert_eq!(r.upgraded_packages, vec!["vim".to_string()]);
    let f = UpdateResult::failed("x".to_string());
    assert!(!f.success);
    assert_eq!(f.error, Some("x".to_string()));
    assert!(!with_reboot_answer(UpdateResult::success(1), &Err(PackageError::DockerComposeNotFound)).reboot_required);
    let p = UpgradablePackage::new("a".to_string(), "1".to_string(), "2".to_string())
        .with_arch("x86_64".to_string())
        .with_repository("main".to_string());
    assert_eq!(p.arch, Some("x86_64".to_string()));
    assert_eq!(p.repository, Some("main".to_string()));
}

#[test]
fn stack_scan_finds_newer_images() {
    let m = DockerComposeManager::new(vec!["/a".to_string(), "/b".to_string()]).unwrap();
    let mut scan = UpgradableScan::new(m);
    let answers = vec![
        ("test -f /a/docker-compose.yml", ran(0, "", "")),
        ("docker compose -f /a/docker-compose.yml config --services", ran(0, "web\ndb\n", "")),
        ("docker compose -f /a/docker-compose.yml ps -q web", ran(0, "abc\n", "")),
        (
            "docker compose -f /a/docker-compose.yml pull --dry-run web 2>&1 || true",
            ran(0, "Downloaded newer image for web", ""),
        ),
        ("docker compose -f /a/docker-compose.yml ps -q db", ran(0, "  \n", "")),
        ("test -f /b/docker-compose.yml", ran(1, "", "")),
    ];
    for (cmd, run) in answers {
        assert!(!scan.is_finished());
        assert_eq!(scan.command(), cmd);
        scan.advance(run).unwrap();
    }
    assert!(scan.is_finished());
    assert_eq!(scan.found.len(), 1);
    assert_eq!(scan.found[0].name, "/a/web");
    assert_eq!(scan.found[0].new_version, "available");
}

#[test]
fn stack_scan_stops_on_executor_failure() {
    let m = DockerComposeManager::new(vec!["/a".to_string()]).unwrap();
    let mut scan = UpgradableScan::new(m);
    assert_eq!(
        scan.advance(Err(ExecError::IoError("eof".to_string()))),
        Err(PackageError::ExecutionError("I/O error: eof".to_string()))
    );
}

#[test]
fn stack_update_counts_and_records_failures() {
    let m = DockerComposeManager::new(vec!["/a".to_string(), "/b".to_string()]).unwrap();
    let mut up = StackUpdate::new(m, false);
    let answers = vec![
        ("test -f /a/docker-compose.yml", ran(0, "", "")),
        ("docker compose -f /a/docker-compose.yml pull", ran(0, "", "")),
        ("docker compose -f /a/docker-compose.yml up -d --force-recreate", ran(0, "", "")),
        ("docker compose -f /a/docker-compose.yml ps -q", ran(0, "c1\nc2\nc3\n", "")),
        ("test -f /b/docker-compose.yml", ran(0, "", "")),
        ("docker compose -f /b/docker-compose.yml pull", ran(1, "", "denied")),
    ];
    for (cmd, run) in answers {
        assert_eq!(up.command(), cmd);
        up.advance(run).unwrap();
    }
    assert!(up.is_finished());
    let r = up.result();
    assert_eq!(r.upgraded_count, 3);
    assert!(!r.success);
    assert_eq!(r.error, Some("/b: pull failed".to_string()));
}

#[test]
fn stack_dry_run_counts_pulls() {
    let m = DockerComposeManager::new(vec!["/a".to_string()]).unwrap();
    let mut up = StackUpdate::new(m, true);
    up.advance(ran(0, "", "")).unwrap();
    assert_eq!(up.command(), "docker compose -f /a/docker-compose.yml pull --dry-run");
    up.advance(ran(0, "Pulling a\nPulling b\nPulling c\n", "")).unwrap();
    assert!(up.is_finished());
    let r = up.result();
    assert!(r.success);
    assert_eq!(r.upgraded_count, 3);
}
