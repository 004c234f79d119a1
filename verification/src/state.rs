//! The state of the windows and dialogs that the interface keeps between
//! frames, as far as it is more than drawing.
use std::collections::HashMap;
use vstd::prelude::*;
use crate::backend::{HostInfo, NetworkSummary, StoragePoolSummary, VolumeSummary};
use crate::text::{owned, push_str};
use crate::views::clone_vm::CloneDiskStrategy;
use crate::views::create_vm::OsPreset;

verus! {

/// Where a connection of the interface stands.
#[derive(Debug, Clone, Copy, PartialEq, Eq, Structural)]
pub enum ConnectionState {
    Disconnected,
    Connecting,
    Active,
}

/// The kinds of hypervisor a new connection can be made to.
#[derive(Debug, Clone, Copy, PartialEq, Eq, Structural)]
pub enum Hypervisor {
    QemuKvm,
    QemuSession,
    Xen,
    CustomUri,
}

pub open spec fn hypervisor_label(h: Hypervisor) -> Seq<char> {
    match h {
        Hypervisor::QemuKvm => "QEMU/KVM"@,
        Hypervisor::QemuSession => "QEMU/KVM user session"@,
        Hypervisor::Xen => "Xen"@,
        Hypervisor::CustomUri => "Custom URI..."@,
    }
}

pub open spec fn hypervisor_scheme(h: Hypervisor) -> Seq<char> {
    match h {
        Hypervisor::QemuKvm | Hypervisor::QemuSession => "qemu"@,
        Hypervisor::Xen => "xen"@,
        Hypervisor::CustomUri => ""@,
    }
}

pub open spec fn hypervisor_path(h: Hypervisor) -> Seq<char> {
    match h {
        Hypervisor::QemuKvm | Hypervisor::Xen => "/system"@,
        Hypervisor::QemuSession => "/session"@,
        Hypervisor::CustomUri => ""@,
    }
}

pub open spec fn hypervisor_remote(h: Hypervisor) -> bool {
    h == Hypervisor::QemuKvm || h == Hypervisor::Xen
}

impl Hypervisor {
    /// Every kind, in the order the connection dialog offers them.
    pub fn all() -> (r: Vec<Hypervisor>)
        ensures
            r@ == seq![Hypervisor::QemuKvm, Hypervisor::QemuSession, Hypervisor::Xen, Hypervisor::CustomUri],
    {
        vec![Hypervisor::QemuKvm, Hypervisor::QemuSession, Hypervisor::Xen, Hypervisor::CustomUri]
    }

    pub fn label(&self) -> (r: &'static str)
        ensures
            r@ == hypervisor_label(*self),
    {
        match self {
            Hypervisor::QemuKvm => "QEMU/KVM",
            Hypervisor::QemuSession => "QEMU/KVM user session",
            Hypervisor::Xen => "Xen",
            Hypervisor::CustomUri => "Custom URI...",
        }
    }

    /// The URI scheme of the driver.
    pub fn uri_scheme(&self) -> (r: &'static str)
        ensures
            r@ == hypervisor_scheme(*self),
    {
        match self {
            Hypervisor::QemuKvm | Hypervisor::QemuSession => "qemu",
            Hypervisor::Xen => "xen",
            Hypervisor::CustomUri => "",
        }
    }

    /// The URI path of the driver instance.
    pub fn uri_path(&self) -> (r: &'static str)
        ensures
            r@ == hypervisor_path(*self),
    {
        match self {
            Hypervisor::QemuKvm | Hypervisor::Xen => "/system",
            Hypervisor::QemuSession => "/session",
            Hypervisor::CustomUri => "",
        }
    }

    /// Whether the driver can be reached over SSH.
    pub fn supports_remote(&self) -> (r: bool)
        ensures
            r == hypervisor_remote(*self),
    {
        match self {
            Hypervisor::QemuKvm | Hypervisor::Xen => true,
            _ => false,
        }
    }
}

/// The "Add Connection" dialog.
#[derive(Debug, Clone)]
pub struct AddConnectionState {
    pub open: bool,
    pub hypervisor: Hypervisor,
    pub connect_remote: bool,
    pub username: String,
    pub hostname: String,
    pub autoconnect: bool,
    pub custom_uri: String,
}

impl Default for AddConnectionState {
    fn default() -> (r: Self)
        ensures
            !r.open,
            r.hypervisor == Hypervisor::QemuKvm,
            !r.connect_remote,
            r.username@.len() == 0,
            r.hostname@.len() == 0,
            r.autoconnect,
            r.custom_uri@.len() == 0,
    {
        AddConnectionState {
            open: false,
            hypervisor: Hypervisor::QemuKvm,
            connect_remote: false,
            username: String::new(),
            hostname: String::new(),
            autoconnect: true,
            custom_uri: String::new(),
        }
    }
}

/// The URI the dialog's fields describe: the custom URI as typed; an SSH
/// URI `scheme+ssh://[user@]host/path` for a remote connection to a driver
/// that allows one; else the local `scheme:///path`.
pub open spec fn generated_uri_spec(s: AddConnectionState) -> Seq<char> {
    let h = s.hypervisor;
    if h == Hypervisor::CustomUri {
        s.custom_uri@
    } else if s.connect_remote && hypervisor_remote(h) {
        let user_part = if s.username@.len() == 0 { Seq::empty() } else { s.username@ + "@"@ };
        hypervisor_scheme(h) + "+ssh://"@ + user_part + s.hostname@ + hypervisor_path(h)
    } else {
        hypervisor_scheme(h) + ":///"@ + hypervisor_path(h).skip(1)
    }
}

impl AddConnectionState {
    pub fn generated_uri(&self) -> (r: String)
        ensures
            r@ == generated_uri_spec(*self),
    {
        if self.hypervisor == Hypervisor::CustomUri {
            return owned(self.custom_uri.as_str());
        }
        let scheme = self.hypervisor.uri_scheme();
        let path = self.hypervisor.uri_path();
        if self.connect_remote && self.hypervisor.supports_remote() {
            let mut r = owned(scheme);
            push_str(&mut r, "+ssh://");
            if !self.username.as_str().is_empty() {
                push_str(&mut r, self.username.as_str());
                push_str(&mut r, "@");
            }
            push_str(&mut r, self.hostname.as_str());
            push_str(&mut r, path);
            proof {
                if self.username@.len() == 0 {
                    assert(r@ == scheme@ + "+ssh://"@ + Seq::<char>::empty() + self.hostname@ + path@);
                }
            }
            r
        } else {
            let mut r = owned(scheme);
            push_str(&mut r, ":///");
            let rest: &str = match self.hypervisor {
                Hypervisor::QemuSession => "session",
                _ => "system",
            };
            proof {
                reveal_strlit("/system");
                reveal_strlit("system");
                reveal_strlit("/session");
                reveal_strlit("session");
                assert(hypervisor_path(self.hypervisor).skip(1) =~= rest@);
            }
            push_str(&mut r, rest);
            r
        }
    }

    /// Puts every field back to its default.
    pub fn reset(&mut self)
        ensures
            !final(self).open,
            final(self).hypervisor == Hypervisor::QemuKvm,
            !final(self).connect_remote,
            final(self).username@.len() == 0,
            final(self).hostname@.len() == 0,
            final(self).autoconnect,
            final(self).custom_uri@.len() == 0,
    {
        *self = AddConnectionState::default();
    }
}

/// The tabs of a VM window.
#[derive(Debug, Clone, Copy, PartialEq, Eq, Structural)]
pub enum VmTab {
    Details,
    Console,
    Snapshots,
}

/// An entry of the hardware list of a VM window; a device entry holds the
/// index of the device among those of its kind.
#[derive(Debug, Clone, Copy, PartialEq, Eq, Structural)]
pub enum HwListItem {
    Overview,
    Performance,
    Cpu,
    Memory,
    Boot,
    Disk(usize),
    Nic(usize),
    Graphics(usize),
    Video(usize),
    Sound(usize),
    Input(usize),
    Char(usize),
    Controller(usize),
    Hostdev(usize),
    Watchdog(usize),
    Filesystem(usize),
    Tpm(usize),
    Rng(usize),
    Vsock(usize),
    Redirdev(usize),
    Smartcard(usize),
    Panic(usize),
}

/// The "Connection Details" window of one connection.
#[derive(Debug)]
pub struct ConnDetailsState {
    pub host_info: Option<HostInfo>,
    pub pools: Vec<StoragePoolSummary>,
    pub volumes: HashMap<String, Vec<VolumeSummary>>,
    pub networks: Vec<NetworkSummary>,
    pub active_tab: usize,
    pub selected_pool: Option<String>,
    pub selected_network: Option<String>,
    pub confirm_delete_pool: Option<String>,
    pub confirm_delete_vol: Option<String>,
}

impl ConnDetailsState {
    pub fn new() -> (r: Self)
        ensures
            r.host_info is None,
            r.pools@.len() == 0,
            r.volumes@ == Map::<String, Vec<VolumeSummary>>::empty(),
            r.networks@.len() == 0,
            r.active_tab == 0,
            r.selected_pool is None,
            r.selected_network is None,
            r.confirm_delete_pool is None,
            r.confirm_delete_vol is None,
    {
        ConnDetailsState {
            host_info: None,
            pools: Vec::new(),
            volumes: HashMap::new(),
            networks: Vec::new(),
            active_tab: 0,
            selected_pool: None,
            selected_network: None,
            confirm_delete_pool: None,
            confirm_delete_vol: None,
        }
    }
}

/// The "Create a New Virtual Machine" wizard.
#[derive(Debug, Clone)]
pub struct CreateVmState {
    pub open: bool,
    pub page: usize,
    pub uri: String,
    pub name: String,
    pub os_preset: OsPreset,
    pub install_method: usize,
    pub iso_path: String,
    pub import_path: String,
    pub vcpus: u32,
    pub memory_mib: u64,
    pub create_disk: bool,
    pub disk_size_gib: u64,
    pub target_pool: String,
    pub customize_before_install: bool,
}

impl Default for CreateVmState {
    fn default() -> (r: Self)
        ensures
            !r.open,
            r.page == 0,
            r.uri@ == "qemu:///system"@,
            r.name@.len() == 0,
            r.os_preset == OsPreset::GenericLinux,
            r.install_method == 0,
            r.iso_path@.len() == 0,
            r.import_path@.len() == 0,
            r.vcpus == 2,
            r.memory_mib == 2048,
            r.create_disk,
            r.disk_size_gib == 20,
            r.target_pool@ == "default"@,
            !r.customize_before_install,
    {
        CreateVmState {
            open: false,
            page: 0,
            uri: owned("qemu:///system"),
            name: String::new(),
            os_preset: OsPreset::GenericLinux,
            install_method: 0,
            iso_path: String::new(),
            import_path: String::new(),
            vcpus: 2,
            memory_mib: 2048,
            create_disk: true,
            disk_size_gib: 20,
            target_pool: owned("default"),
            customize_before_install: false,
        }
    }
}

/// The "Delete Virtual Machine" dialog: the disks offered for deletion, each
/// with whether it is to be deleted.
#[derive(Debug, Clone)]
pub struct DeleteVmState {
    pub open: bool,
    pub uri: String,
    pub domain_name: String,
    pub delete_storage: Vec<(String, bool)>,
}

impl Default for DeleteVmState {
    fn default() -> (r: Self)
        ensures
            !r.open,
            r.uri@.len() == 0,
            r.domain_name@.len() == 0,
            r.delete_storage@.len() == 0,
    {
        DeleteVmState {
            open: false,
            uri: String::new(),
            domain_name: String::new(),
            delete_storage: Vec::new(),
        }
    }
}

/// The "Clone Virtual Machine" dialog.
#[derive(Debug, Clone)]
pub struct CloneVmState {
    pub open: bool,
    pub uri: String,
    pub source_name: String,
    pub clone_name: String,
    pub disk_strategies: Vec<CloneDiskStrategy>,
}

impl Default for CloneVmState {
    fn default() -> (r: Self)
        ensures
            !r.open,
            r.uri@.len() == 0,
            r.source_name@.len() == 0,
            r.clone_name@.len() == 0,
            r.disk_strategies@.len() == 0,
    {
        CloneVmState {
            open: false,
            uri: String::new(),
            source_name: String::new(),
            clone_name: String::new(),
            disk_strategies: Vec::new(),
        }
    }
}

/// The "Migrate" dialog.
#[derive(Debug, Clone)]
pub struct MigrateState {
    pub open: bool,
    pub uri: String,
    pub domain_name: String,
    pub dest_uri: String,
    pub live: bool,
}

impl Default for MigrateState {
    fn default() -> (r: Self)
        ensures
            !r.open,
            r.uri@.len() == 0,
            r.domain_name@.len() == 0,
            r.dest_uri@.len() == 0,
            r.live,
    {
        MigrateState {
            open: false,
            uri: String::new(),
            domain_name: String::new(),
            dest_uri: String::new(),
            live: true,
        }
    }
}

/// The "Create Volume" dialog.
#[derive(Debug, Clone)]
pub struct CreateVolumeState {
    pub open: bool,
    pub uri: String,
    pub pool_name: String,
    pub name: String,
    pub format: String,
    pub capacity_gib: u64,
}

impl Default for CreateVolumeState {
    fn default() -> (r: Self)
        ensures
            !r.open,
            r.uri@.len() == 0,
            r.pool_name@.len() == 0,
            r.name@.len() == 0,
            r.format@ == "qcow2"@,
            r.capacity_gib == 10,
    {
        CreateVolumeState {
            open: false,
            uri: String::new(),
            pool_name: String::new(),
            name: String::new(),
            format: owned("qcow2"),
            capacity_gib: 10,
        }
    }
}

/// What a path picked in the volume browser is for.
#[derive(Debug, Clone, Copy, PartialEq, Eq, Structural)]
pub enum BrowseTarget {
    DiskSource,
    IsoSource,
    AddHwDisk,
}

/// The volume browser.
#[derive(Debug, Clone)]
pub struct VolumeBrowserState {
    pub open: bool,
    pub uri: String,
    pub target: BrowseTarget,
    pub selected_pool: Option<String>,
    pub selected_path: Option<String>,
}

impl Default for VolumeBrowserState {
    fn default() -> (r: Self)
        ensures
            !r.open,
            r.uri@.len() == 0,
            r.target == BrowseTarget::DiskSource,
            r.selected_pool is None,
            r.selected_path is None,
    {
        VolumeBrowserState {
            open: false,
            uri: String::new(),
            target: BrowseTarget::DiskSource,
            selected_pool: None,
            selected_path: None,
        }
    }
}

} // verus!
