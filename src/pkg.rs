//! Package-manager data: upgradable packages, upgrade results and manager
//! kinds. The command building and output parsing of each manager family
//! live in the submodules.

use vstd::prelude::*;
use crate::error::{ExecError, PackageError, exec_error_text};

pub mod apt;
pub mod dnf;
pub mod docker;

verus! {

/// A package with an available upgrade.
#[derive(Debug, Clone, PartialEq, Eq)]
pub struct UpgradablePackage {
    /// Package name.
    pub name: String,
    /// Installed version.
    pub current_version: String,
    /// Version offered by the upgrade.
    pub new_version: String,
    /// Architecture, when known.
    pub arch: Option<String>,
    /// Repository, when known.
    pub repository: Option<String>,
}

impl UpgradablePackage {
    /// A package without architecture or repository.
    pub fn new(name: String, current: String, new: String) -> (r: Self)
        ensures
            r.name == name,
            r.current_version == current,
            r.new_version == new,
            r.arch is None,
            r.repository is None,
    {
        UpgradablePackage {
            name,
            current_version: current,
            new_version: new,
            arch: None,
            repository: None,
        }
    }

    /// Sets the architecture.
    pub fn with_arch(self, arch: String) -> (r: Self)
        ensures
            r == (UpgradablePackage { arch: Some(arch), ..self }),
    {
        UpgradablePackage { arch: Some(arch), ..self }
    }

    /// Sets the repository.
    pub fn with_repository(self, repo: String) -> (r: Self)
        ensures
            r == (UpgradablePackage { repository: Some(repo), ..self }),
    {
        UpgradablePackage { repository: Some(repo), ..self }
    }
}

/// Outcome of an upgrade or a simulated upgrade.
#[derive(Debug, Clone, PartialEq, Eq)]
pub struct UpdateResult {
    /// Whether the upgrade succeeded.
    pub success: bool,
    /// Number of upgraded packages.
    pub upgraded_count: u32,
    /// Number of newly installed packages.
    pub new_count: u32,
    /// Number of removed packages.
    pub removed_count: u32,
    /// Whether a reboot is required.
    pub reboot_required: bool,
    /// Names of the upgraded packages.
    pub upgraded_packages: Vec<String>,
    /// Error message when the upgrade failed.
    pub error: Option<String>,
}

impl UpdateResult {
    /// A successful result with `upgraded` upgraded packages.
    pub fn success(upgraded: u32) -> (r: Self)
        ensures
            r.success,
            r.upgraded_count == upgraded,
            r.new_count == 0,
            r.removed_count == 0,
            !r.reboot_required,
            r.upgraded_packages@.len() == 0,
            r.error is None,
    {
        UpdateResult {
            success: true,
            upgraded_count: upgraded,
            new_count: 0,
            removed_count: 0,
            reboot_required: false,
            upgraded_packages: Vec::new(),
            error: None,
        }
    }

    /// A failed result carrying `error`.
    pub fn failed(error: String) -> (r: Self)
        ensures
            !r.success,
            r.upgraded_count == 0,
            r.new_count == 0,
            r.removed_count == 0,
            !r.reboot_required,
            r.upgraded_packages@.len() == 0,
            r.error == Some(error),
    {
        UpdateResult {
            success: false,
            upgraded_count: 0,
            new_count: 0,
            removed_count: 0,
            reboot_required: false,
            upgraded_packages: Vec::new(),
            error: Some(error),
        }
    }

    /// Appends an upgraded package name.
    pub fn with_package(self, name: String) -> (r: Self)
        ensures
            r.upgraded_packages@ == self.upgraded_packages@.push(name),
            r.success == self.success,
            r.upgraded_count == self.upgraded_count,
            r.new_count == self.new_count,
            r.removed_count == self.removed_count,
            r.reboot_required == self.reboot_required,
            r.error == self.error,
    {
        let mut r = self;
        r.upgraded_packages.push(name);
        r
    }

    /// Marks a reboot as required.
    pub fn with_reboot(self) -> (r: Self)
        ensures
            r == (UpdateResult { reboot_required: true, ..self }),
    {
        UpdateResult { reboot_required: true, ..self }
    }
}

/// Family of a package manager.
#[derive(Debug, Clone, Copy, PartialEq, Eq, Structural)]
pub enum PackageManagerType {
    /// Debian family.
    Apt,
    /// RPM family.
    Dnf,
    /// Container stacks.
    DockerCompose,
}

/// The name of a manager family.
pub open spec fn manager_type_name(t: PackageManagerType) -> Seq<char> {
    match t {
        PackageManagerType::Apt => "apt"@,
        PackageManagerType::Dnf => "dnf"@,
        PackageManagerType::DockerCompose => "docker-compose"@,
    }
}

impl PackageManagerType {
    /// The name of the family.
    pub fn to_string(&self) -> (r: String)
        ensures
            r@ == manager_type_name(*self),
    {
        match self {
            PackageManagerType::Apt => String::from_str("apt"),
            PackageManagerType::Dnf => String::from_str("dnf"),
            PackageManagerType::DockerCompose => String::from_str("docker-compose"),
        }
    }
}

/// Distribution of a host.
#[derive(Debug, Clone, PartialEq, Eq)]
pub struct DistroInfo {
    pub id: String,
    pub name: String,
    pub version_id: String,
    pub package_manager: PackageManagerType,
}

/// Whether `v` holds the text of `o`, both present or both absent.
pub open spec fn opt_text(o: Option<String>, v: Option<Seq<char>>) -> bool {
    match (o, v) {
        (Some(a), Some(b)) => a@ == b,
        (None, None) => true,
        _ => false,
    }
}

/// The package error that reports an executor failure.
pub fn execution_error(e: &ExecError) -> (r: PackageError)
    ensures
        r matches PackageError::ExecutionError(m) && m@ == exec_error_text(*e),
{
    PackageError::ExecutionError(e.message())
}

/// `res` with `reboot_required` taken from the reboot check; a failed check
/// counts as "no reboot".
pub fn with_reboot_answer(res: UpdateResult, reboot: &Result<bool, PackageError>) -> (r: UpdateResult)
    ensures
        r == (UpdateResult {
            reboot_required: *reboot == Ok::<bool, PackageError>(true),
            ..res
        }),
{
    let rb = match reboot {
        Ok(b) => *b,
        Err(_) => false,
    };
    UpdateResult { reboot_required: rb, ..res }
}

} // verus!
