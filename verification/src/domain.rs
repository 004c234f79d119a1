//! The domain (guest) definition as libvirt describes it in XML, and the
//! run state that libvirt reports for a domain.
use vstd::prelude::*;
use crate::devices::{
    channel::DeviceChannel, console::DeviceConsole, controller::DeviceController,
    disk::DeviceDisk, filesystem::DeviceFilesystem, graphics::DeviceGraphics,
    hostdev::DeviceHostdev, input::DeviceInput, interface::DeviceInterface,
    memballoon::DeviceMemballoon, panic_dev::DevicePanic, redirdev::DeviceRedirdev,
    rng::DeviceRng, serial::DeviceSerial, smartcard::DeviceSmartcard, sound::DeviceSound,
    tpm::DeviceTpm, video::DeviceVideo, vsock::DeviceVsock, watchdog::DeviceWatchdog,
};
use crate::text::str_eq;

verus! {

/// A `<domain>` definition.
#[derive(Debug, Clone)]
pub struct Guest {
    pub domain_type: String,
    pub name: String,
    pub uuid: Option<String>,
    pub title: Option<String>,
    pub description: Option<String>,
    pub memory: MemoryConfig,
    pub current_memory: Option<MemoryConfig>,
    pub vcpu: VcpuConfig,
    pub os: OsConfig,
    pub devices: Option<DevicesSection>,
}

/// The `<devices>` section of a domain, one list per element name.
#[derive(Debug, Clone)]
pub struct DevicesSection {
    pub disks: Vec<DeviceDisk>,
    pub interfaces: Vec<DeviceInterface>,
    pub graphics: Vec<DeviceGraphics>,
    pub videos: Vec<DeviceVideo>,
    pub sounds: Vec<DeviceSound>,
    pub inputs: Vec<DeviceInput>,
    pub controllers: Vec<DeviceController>,
    pub channels: Vec<DeviceChannel>,
    pub consoles: Vec<DeviceConsole>,
    pub serials: Vec<DeviceSerial>,
    pub watchdogs: Vec<DeviceWatchdog>,
    pub rngs: Vec<DeviceRng>,
    pub tpms: Vec<DeviceTpm>,
    pub hostdevs: Vec<DeviceHostdev>,
    pub filesystems: Vec<DeviceFilesystem>,
    pub memballoons: Vec<DeviceMemballoon>,
    pub vsocks: Vec<DeviceVsock>,
    pub redirdevs: Vec<DeviceRedirdev>,
    pub smartcards: Vec<DeviceSmartcard>,
    pub panics: Vec<DevicePanic>,
}

impl DevicesSection {
    /// A section without any device.
    pub fn empty() -> (r: Self)
        ensures
            r.disks@.len() == 0,
            r.interfaces@.len() == 0,
            r.graphics@.len() == 0,
            r.videos@.len() == 0,
            r.sounds@.len() == 0,
            r.inputs@.len() == 0,
            r.controllers@.len() == 0,
            r.channels@.len() == 0,
            r.consoles@.len() == 0,
            r.serials@.len() == 0,
            r.watchdogs@.len() == 0,
            r.rngs@.len() == 0,
            r.tpms@.len() == 0,
            r.hostdevs@.len() == 0,
            r.filesystems@.len() == 0,
            r.memballoons@.len() == 0,
            r.vsocks@.len() == 0,
            r.redirdevs@.len() == 0,
            r.smartcards@.len() == 0,
            r.panics@.len() == 0,
    {
        DevicesSection {
            disks: Vec::new(),
            interfaces: Vec::new(),
            graphics: Vec::new(),
            videos: Vec::new(),
            sounds: Vec::new(),
            inputs: Vec::new(),
            controllers: Vec::new(),
            channels: Vec::new(),
            consoles: Vec::new(),
            serials: Vec::new(),
            watchdogs: Vec::new(),
            rngs: Vec::new(),
            tpms: Vec::new(),
            hostdevs: Vec::new(),
            filesystems: Vec::new(),
            memballoons: Vec::new(),
            vsocks: Vec::new(),
            redirdevs: Vec::new(),
            smartcards: Vec::new(),
            panics: Vec::new(),
        }
    }
}

/// A `<memory>` or `<currentMemory>` amount with its unit.
#[derive(Debug, Clone)]
pub struct MemoryConfig {
    /// `KiB` when the element has no `unit` attribute.
    pub unit: String,
    pub value: u64,
}

/// The unit a memory amount has when its element states none.
pub fn default_memory_unit() -> (r: String)
    ensures
        r@ == "KiB"@,
{
    crate::text::owned("KiB")
}

/// The amount `v` in `unit` multiplied by the unit's factor: bytes for the
/// byte and decimal units, KiB for the binary units (unknown units are taken
/// as KiB).
pub open spec fn unit_scaled(unit: Seq<char>, v: nat) -> nat {
    if unit == "b"@ || unit == "bytes"@ {
        v
    } else if unit == "KB"@ {
        v * 1000
    } else if unit == "KiB"@ || unit == "K"@ || unit == "k"@ {
        v
    } else if unit == "MB"@ {
        v * 1000000
    } else if unit == "MiB"@ || unit == "M"@ {
        v * 1024
    } else if unit == "GB"@ {
        v * 1000000000
    } else if unit == "GiB"@ || unit == "G"@ {
        v * 1048576
    } else if unit == "TB"@ {
        v * 1000000000000
    } else if unit == "TiB"@ || unit == "T"@ {
        v * 1073741824
    } else {
        v
    }
}

/// The amount `v` in `unit`, in KiB rounded down: the scaled amount, divided
/// by 1024 where it counts bytes.
pub open spec fn unit_kib(unit: Seq<char>, v: nat) -> nat {
    if unit == "b"@ || unit == "bytes"@ {
        v / 1024
    } else if unit == "KB"@ {
        v * 1000 / 1024
    } else if unit == "KiB"@ || unit == "K"@ || unit == "k"@ {
        v
    } else if unit == "MB"@ {
        v * 1000000 / 1024
    } else if unit == "MiB"@ || unit == "M"@ {
        v * 1024
    } else if unit == "GB"@ {
        v * 1000000000 / 1024
    } else if unit == "GiB"@ || unit == "G"@ {
        v * 1048576
    } else if unit == "TB"@ {
        v * 1000000000000 / 1024
    } else if unit == "TiB"@ || unit == "T"@ {
        v * 1073741824
    } else {
        v
    }
}

impl MemoryConfig {
    /// Whether converting this amount to KiB stays within `u64` (the
    /// multiplication comes before the division).
    pub open spec fn kib_fits(&self) -> bool {
        unit_scaled(self.unit@, self.value as nat) <= u64::MAX
    }

    /// The amount in KiB, rounded down.
    pub open spec fn kib(&self) -> nat {
        unit_kib(self.unit@, self.value as nat)
    }

    /// Whether the amount can be converted to KiB (`kib_fits`).
    pub fn kib_in_range(&self) -> (r: bool)
        ensures
            r == self.kib_fits(),
    {
        let u = self.unit.as_str();
        let v = self.value;
        let factor: u64 = if str_eq(u, "b") || str_eq(u, "bytes") {
            1
        } else if str_eq(u, "KB") {
            1000
        } else if str_eq(u, "KiB") || str_eq(u, "K") || str_eq(u, "k") {
            1
        } else if str_eq(u, "MB") {
            1000000
        } else if str_eq(u, "MiB") || str_eq(u, "M") {
            1024
        } else if str_eq(u, "GB") {
            1000000000
        } else if str_eq(u, "GiB") || str_eq(u, "G") {
            1048576
        } else if str_eq(u, "TB") {
            1000000000000
        } else if str_eq(u, "TiB") || str_eq(u, "T") {
            1073741824
        } else {
            1
        };
        v.checked_mul(factor).is_some()
    }

    pub fn as_kib(&self) -> (r: u64)
        requires
            self.kib_fits(),
        ensures
            r == self.kib(),
    {
        let u = self.unit.as_str();
        let v = self.value;
        if str_eq(u, "b") || str_eq(u, "bytes") {
            v / 1024
        } else if str_eq(u, "KB") {
            v * 1000 / 1024
        } else if str_eq(u, "KiB") || str_eq(u, "K") || str_eq(u, "k") {
            v
        } else if str_eq(u, "MB") {
            v * 1000000 / 1024
        } else if str_eq(u, "MiB") || str_eq(u, "M") {
            v * 1024
        } else if str_eq(u, "GB") {
            v * 1000000000 / 1024
        } else if str_eq(u, "GiB") || str_eq(u, "G") {
            v * 1048576
        } else if str_eq(u, "TB") {
            v * 1000000000000 / 1024
        } else if str_eq(u, "TiB") || str_eq(u, "T") {
            v * 1073741824
        } else {
            v
        }
    }

    pub fn as_mib(&self) -> (r: u64)
        requires
            self.kib_fits(),
        ensures
            r == self.kib() / 1024,
    {
        self.as_kib() / 1024
    }
}

/// The `<vcpu>` element.
#[derive(Debug, Clone)]
pub struct VcpuConfig {
    pub count: u32,
    pub placement: Option<String>,
    pub current: Option<u32>,
}

/// The `<os>` element.
#[derive(Debug, Clone)]
pub struct OsConfig {
    pub os_type: OsType,
    pub boot: Vec<BootDevice>,
    pub loader: Option<OsLoader>,
}

/// The `<type>` inside `<os>`.
#[derive(Debug, Clone)]
pub struct OsType {
    pub value: String,
    pub arch: Option<String>,
    pub machine: Option<String>,
}

/// A `<boot dev=...>` entry.
#[derive(Debug, Clone)]
pub struct BootDevice {
    pub dev: String,
}

/// The `<loader>` inside `<os>`.
#[derive(Debug, Clone)]
pub struct OsLoader {
    pub path: Option<String>,
    pub readonly: Option<String>,
    pub loader_type: Option<String>,
    pub secure: Option<String>,
}

/// The number of virtual CPUs a guest runs with: the `current` attribute when
/// present, else the configured count.
pub open spec fn effective_vcpus_of(g: Guest) -> u32 {
    match g.vcpu.current {
        Some(c) => c,
        None => g.vcpu.count,
    }
}

impl Guest {
    pub fn effective_vcpus(&self) -> (r: u32)
        ensures
            r == effective_vcpus_of(*self),
    {
        match self.vcpu.current {
            Some(c) => c,
            None => self.vcpu.count,
        }
    }

    pub fn memory_mib(&self) -> (r: u64)
        requires
            self.memory.kib_fits(),
        ensures
            r == self.memory.kib() / 1024,
    {
        self.memory.as_mib()
    }
}

/// The run state of a domain.
#[derive(Debug, Clone, Copy, PartialEq, Eq, Structural)]
pub enum DomainState {
    NoState,
    Running,
    Blocked,
    Paused,
    Shutdown,
    Shutoff,
    Crashed,
    PmSuspended,
    Unknown,
}

/// The state that libvirt's numeric state code stands for.
pub open spec fn state_of_code(code: u32) -> DomainState {
    if code == 0 {
        DomainState::NoState
    } else if code == 1 {
        DomainState::Running
    } else if code == 2 {
        DomainState::Blocked
    } else if code == 3 {
        DomainState::Paused
    } else if code == 4 {
        DomainState::Shutdown
    } else if code == 5 {
        DomainState::Shutoff
    } else if code == 6 {
        DomainState::Crashed
    } else if code == 7 {
        DomainState::PmSuspended
    } else {
        DomainState::Unknown
    }
}

/// The label shown for a state.
pub open spec fn state_label(s: DomainState) -> Seq<char> {
    match s {
        DomainState::NoState => "No state"@,
        DomainState::Running => "Running"@,
        DomainState::Blocked => "Blocked"@,
        DomainState::Paused => "Paused"@,
        DomainState::Shutdown => "Shutting down"@,
        DomainState::Shutoff => "Shut off"@,
        DomainState::Crashed => "Crashed"@,
        DomainState::PmSuspended => "Suspended"@,
        DomainState::Unknown => "Unknown"@,
    }
}

/// Whether a domain in this state is running in some form.
pub open spec fn state_is_active(s: DomainState) -> bool {
    s == DomainState::Running || s == DomainState::Blocked || s == DomainState::Paused
}

impl DomainState {
    pub fn from_libvirt(state: u32) -> (r: Self)
        ensures
            r == state_of_code(state),
    {
        match state {
            0 => DomainState::NoState,
            1 => DomainState::Running,
            2 => DomainState::Blocked,
            3 => DomainState::Paused,
            4 => DomainState::Shutdown,
            5 => DomainState::Shutoff,
            6 => DomainState::Crashed,
            7 => DomainState::PmSuspended,
            _ => DomainState::Unknown,
        }
    }

    pub fn label(&self) -> (r: &'static str)
        ensures
            r@ == state_label(*self),
    {
        match self {
            DomainState::NoState => "No state",
            DomainState::Running => "Running",
            DomainState::Blocked => "Blocked",
            DomainState::Paused => "Paused",
            DomainState::Shutdown => "Shutting down",
            DomainState::Shutoff => "Shut off",
            DomainState::Crashed => "Crashed",
            DomainState::PmSuspended => "Suspended",
            DomainState::Unknown => "Unknown",
        }
    }

    pub fn is_active(&self) -> (r: bool)
        ensures
            r == state_is_active(*self),
    {
        match self {
            DomainState::Running | DomainState::Blocked | DomainState::Paused => true,
            _ => false,
        }
    }
}

/// Codes 0 to 7 name eight distinct states and every other code reads as
/// `Unknown`; a state read from a code below 8 is never `Unknown`.
pub proof fn lemma_state_codes_distinct(a: u32, b: u32)
    ensures
        a < 8 && b < 8 && a != b ==> state_of_code(a) != state_of_code(b),
        a >= 8 <==> state_of_code(a) == DomainState::Unknown,
{
}

/// Exactly the running, blocked and paused states are active.
pub proof fn lemma_active_states(code: u32)
    ensures
        state_is_active(state_of_code(code)) <==> (code == 1 || code == 2 || code == 3),
{
}

} // verus!
