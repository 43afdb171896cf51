//! Hardware, package and container records of a host inventory.

use vstd::prelude::*;

verus! {

/// Hardware of a host.
#[derive(Debug, Clone)]
pub struct HardwareInfo {
    pub cpu: CpuInfo,
    pub memory: MemoryInfo,
    pub disks: Vec<DiskInfo>,
    pub network_interfaces: Vec<NetworkInterface>,
}

/// Processor of a host.
#[derive(Debug, Clone)]
pub struct CpuInfo {
    pub model: String,
    pub physical_cores: u32,
    pub logical_cores: u32,
    pub speed_mhz: u32,
    pub vendor: String,
}

/// Memory of a host, in bytes.
#[derive(Debug, Clone, Copy, PartialEq, Eq)]
pub struct MemoryInfo {
    pub total_bytes: u64,
    pub free_bytes: u64,
    pub used_bytes: u64,
    pub swap_total_bytes: u64,
    pub swap_free_bytes: u64,
}

/// A mounted disk.
#[derive(Debug, Clone)]
pub struct DiskInfo {
    pub device: String,
    pub mount_point: String,
    pub filesystem: String,
    pub total_bytes: u64,
    pub free_bytes: u64,
    pub used_bytes: u64,
}

/// A network interface.
#[derive(Debug, Clone)]
pub struct NetworkInterface {
    pub name: String,
    pub mac: String,
    pub ipv4: Vec<String>,
    pub ipv6: Vec<String>,
}

/// Where an installed package comes from.
#[derive(Debug, Clone, Copy, PartialEq, Eq, Hash, Structural)]
pub enum PackageSource {
    Deb,
    Rpm,
    Python,
    Npm,
    Other,
}

/// The name of a package source.
pub open spec fn source_name(s: PackageSource) -> Seq<char> {
    match s {
        PackageSource::Deb => "deb"@,
        PackageSource::Rpm => "rpm"@,
        PackageSource::Python => "python"@,
        PackageSource::Npm => "npm"@,
        PackageSource::Other => "other"@,
    }
}

impl PackageSource {
    /// The name of the source.
    pub fn to_string(&self) -> (r: String)
        ensures
            r@ == source_name(*self),
    {
        match self {
            PackageSource::Deb => String::from_str("deb"),
            PackageSource::Rpm => String::from_str("rpm"),
            PackageSource::Python => String::from_str("python"),
            PackageSource::Npm => String::from_str("npm"),
            PackageSource::Other => String::from_str("other"),
        }
    }
}

/// A published container port.
#[derive(Debug, Clone)]
pub struct ContainerPort {
    pub port: u16,
    pub protocol: String,
    pub host_port: Option<u16>,
    pub host_ip: Option<String>,
}

/// A container mount.
#[derive(Debug, Clone)]
pub struct ContainerMount {
    pub source: String,
    pub destination: String,
    pub read_only: bool,
}

} // verus!
