//! The "Create a New Virtual Machine" wizard: presets per operating system
//! and the domain definition it sends.
use vstd::prelude::*;
use crate::backend::{element_text, element_text_of, BackendCommand, StoragePoolSummary};
use crate::state::CreateVmState;
use crate::text::{contains_text, lemma_contains_append, lemma_contains_prepend, lemma_contains_self, decimal, owned, push_str, push_u64, str_eq, string_of_chars};

verus! {

/// The operating systems the wizard knows defaults for.
#[derive(Debug, Clone, Copy, PartialEq, Eq, Structural)]
pub enum OsPreset {
    GenericLinux,
    Fedora,
    Ubuntu,
    Debian,
    CentOS,
    Arch,
    Windows10,
    Windows11,
    WindowsServer,
    FreeBSD,
    Other,
}

pub open spec fn preset_label(p: OsPreset) -> Seq<char> {
    match p {
        OsPreset::GenericLinux => "Generic Linux"@,
        OsPreset::Fedora => "Fedora"@,
        OsPreset::Ubuntu => "Ubuntu"@,
        OsPreset::Debian => "Debian"@,
        OsPreset::CentOS => "CentOS / RHEL"@,
        OsPreset::Arch => "Arch Linux"@,
        OsPreset::Windows10 => "Windows 10"@,
        OsPreset::Windows11 => "Windows 11"@,
        OsPreset::WindowsServer => "Windows Server"@,
        OsPreset::FreeBSD => "FreeBSD"@,
        OsPreset::Other => "Other"@,
    }
}

pub open spec fn preset_vcpus(p: OsPreset) -> u32 {
    if p == OsPreset::Windows11 || p == OsPreset::WindowsServer { 4 } else { 2 }
}

pub open spec fn preset_memory_mib(p: OsPreset) -> u64 {
    if p == OsPreset::Windows11 || p == OsPreset::WindowsServer || p == OsPreset::Windows10 {
        4096
    } else {
        2048
    }
}

pub open spec fn preset_disk_gib(p: OsPreset) -> u64 {
    if p == OsPreset::Windows11 || p == OsPreset::WindowsServer {
        64
    } else if p == OsPreset::Windows10 {
        40
    } else {
        20
    }
}

pub open spec fn preset_uefi(p: OsPreset) -> bool {
    p == OsPreset::Windows11
}

pub open spec fn preset_virtio(p: OsPreset) -> bool {
    !(p == OsPreset::FreeBSD || p == OsPreset::Other)
}

impl OsPreset {
    /// Every preset, in the order the wizard offers them.
    pub fn all() -> (r: Vec<OsPreset>)
        ensures
            r@ == seq![
                OsPreset::GenericLinux, OsPreset::Fedora, OsPreset::Ubuntu, OsPreset::Debian,
                OsPreset::CentOS, OsPreset::Arch, OsPreset::Windows10, OsPreset::Windows11,
                OsPreset::WindowsServer, OsPreset::FreeBSD, OsPreset::Other,
            ],
    {
        vec![
            OsPreset::GenericLinux, OsPreset::Fedora, OsPreset::Ubuntu, OsPreset::Debian,
            OsPreset::CentOS, OsPreset::Arch, OsPreset::Windows10, OsPreset::Windows11,
            OsPreset::WindowsServer, OsPreset::FreeBSD, OsPreset::Other,
        ]
    }

    pub fn label(&self) -> (r: &'static str)
        ensures
            r@ == preset_label(*self),
    {
        match self {
            OsPreset::GenericLinux => "Generic Linux",
            OsPreset::Fedora => "Fedora",
            OsPreset::Ubuntu => "Ubuntu",
            OsPreset::Debian => "Debian",
            OsPreset::CentOS => "CentOS / RHEL",
            OsPreset::Arch => "Arch Linux",
            OsPreset::Windows10 => "Windows 10",
            OsPreset::Windows11 => "Windows 11",
            OsPreset::WindowsServer => "Windows Server",
            OsPreset::FreeBSD => "FreeBSD",
            OsPreset::Other => "Other",
        }
    }

    pub fn recommended_vcpus(&self) -> (r: u32)
        ensures
            r == preset_vcpus(*self),
    {
        match self {
            OsPreset::Windows11 | OsPreset::WindowsServer => 4,
            _ => 2,
        }
    }

    pub fn recommended_memory_mib(&self) -> (r: u64)
        ensures
            r == preset_memory_mib(*self),
    {
        match self {
            OsPreset::Windows11 | OsPreset::WindowsServer | OsPreset::Windows10 => 4096,
            _ => 2048,
        }
    }

    pub fn recommended_disk_gib(&self) -> (r: u64)
        ensures
            r == preset_disk_gib(*self),
    {
        match self {
            OsPreset::Windows11 | OsPreset::WindowsServer => 64,
            OsPreset::Windows10 => 40,
            _ => 20,
        }
    }

    /// Whether the system only boots with UEFI firmware.
    pub fn needs_uefi(&self) -> (r: bool)
        ensures
            r == preset_uefi(*self),
    {
        match self {
            OsPreset::Windows11 => true,
            _ => false,
        }
    }

    /// Whether the system has virtio drivers.
    pub fn use_virtio(&self) -> (r: bool)
        ensures
            r == preset_virtio(*self),
    {
        match self {
            OsPreset::FreeBSD | OsPreset::Other => false,
            _ => true,
        }
    }
}


/// The first pool of `pools` named `name`.
pub open spec fn first_named(pools: Seq<StoragePoolSummary>, name: Seq<char>) -> Option<StoragePoolSummary>
    decreases pools.len(),
{
    if pools.len() == 0 {
        None
    } else if pools[0].name@ == name {
        Some(pools[0])
    } else {
        first_named(pools.drop_first(), name)
    }
}

/// Where the disk image of a new machine goes: the `<path>` of the first
/// pool of that name, else the default image directory.
pub open spec fn disk_pool_path_spec(pools: Seq<StoragePoolSummary>, target_pool: Seq<char>) -> Seq<char> {
    match first_named(pools, target_pool) {
        Some(p) => match element_text(p.xml@, "path"@) {
            Some(t) => t,
            None => "/var/lib/libvirt/images"@,
        },
        None => "/var/lib/libvirt/images"@,
    }
}

/// The directory of the pool `target_pool` among `pools`, where the disk
/// image of a new machine is put.
pub fn disk_pool_path(pools: &Vec<StoragePoolSummary>, target_pool: &str) -> (r: String)
    ensures
        r@ == disk_pool_path_spec(pools@, target_pool@),
{
    let mut i: usize = 0;
    assert(pools@.skip(0) =~= pools@);
    while i < pools.len()
        invariant
            i <= pools@.len(),
            first_named(pools@, target_pool@) == first_named(pools@.skip(i as int), target_pool@),
        decreases pools@.len() - i,
    {
        proof {
            assert(pools@.skip(i as int)[0] == pools@[i as int]);
            assert(pools@.skip(i as int).drop_first() =~= pools@.skip(i + 1));
        }
        if str_eq(pools[i].name.as_str(), target_pool) {
            return match element_text_of(pools[i].xml.as_str(), "path") {
                Some(t) => string_of_chars(&t),
                None => owned("/var/lib/libvirt/images"),
            };
        }
        i = i + 1;
    }
    owned("/var/lib/libvirt/images")
}

/// The names of the active pools, in order.
pub open spec fn active_pool_names_spec(pools: Seq<StoragePoolSummary>) -> Seq<Seq<char>>
    decreases pools.len(),
{
    if pools.len() == 0 {
        Seq::empty()
    } else {
        let r = active_pool_names_spec(pools.drop_last());
        if pools.last().active { r.push(pools.last().name@) } else { r }
    }
}

/// The pools a new disk image can be put in: the active ones.
pub fn active_pool_names(pools: &Vec<StoragePoolSummary>) -> (r: Vec<String>)
    ensures
        r@.map_values(|s: String| s@) == active_pool_names_spec(pools@),
{
    let mut r: Vec<String> = Vec::new();
    let mut i: usize = 0;
    while i < pools.len()
        invariant
            i <= pools@.len(),
            r@.map_values(|s: String| s@) == active_pool_names_spec(pools@.take(i as int)),
        decreases pools@.len() - i,
    {
        proof {
            assert(pools@.take(i + 1).drop_last() =~= pools@.take(i as int));
        }
        let ghost before = r@;
        if pools[i].active {
            r.push(pools[i].name.clone());
            proof {
                assert(r@.map_values(|s: String| s@) =~= before.map_values(|s: String| s@).push(pools@[i as int].name@));
            }
        }
        i = i + 1;
    }
    proof {
        assert(pools@.take(i as int) =~= pools@);
    }
    r
}

/// The bus and device name of the system disk, and the network card model.
pub open spec fn disk_bus(p: OsPreset) -> Seq<char> {
    if preset_virtio(p) { "virtio"@ } else { "sata"@ }
}

pub open spec fn disk_target(p: OsPreset) -> Seq<char> {
    if preset_virtio(p) { "vda"@ } else { "sda"@ }
}

pub open spec fn nic_model(p: OsPreset) -> Seq<char> {
    if preset_virtio(p) { "virtio"@ } else { "e1000e"@ }
}

/// A qcow2 disk image at `file`.
pub open spec fn qcow2_disk(file: Seq<char>, p: OsPreset) -> Seq<char> {
    "<disk type='file' device='disk'><driver name='qemu' type='qcow2'/><source file='"@ + file
        + "'/><target dev='"@ + disk_target(p) + "' bus='"@ + disk_bus(p) + "'/></disk>"@
}

/// The system disk: a new image in the pool's directory, the imported image,
/// or none.
pub open spec fn system_disk_xml(vm: CreateVmState, pool_path: Seq<char>) -> Seq<char> {
    if vm.create_disk {
        qcow2_disk(pool_path + "/"@ + vm.name@ + ".qcow2"@, vm.os_preset)
    } else if vm.install_method == 1 {
        qcow2_disk(vm.import_path@, vm.os_preset)
    } else {
        Seq::empty()
    }
}

/// The installation medium, when installing from an ISO image.
pub open spec fn cdrom_xml(vm: CreateVmState) -> Seq<char> {
    if vm.install_method == 0 && vm.iso_path@.len() > 0 {
        "<disk type='file' device='cdrom'><driver name='qemu' type='raw'/><source file='"@ + vm.iso_path@
            + "'/><target dev='sdb' bus='sata'/><readonly/></disk>"@
    } else {
        Seq::empty()
    }
}

pub open spec fn firmware_xml(p: OsPreset) -> Seq<char> {
    if preset_uefi(p) {
        "<loader readonly='yes' type='pflash'>/usr/share/edk2/x64/OVMF_CODE.fd</loader><nvram template='/usr/share/edk2/x64/OVMF_VARS.fd'/>"@
    } else {
        Seq::empty()
    }
}

pub open spec fn tpm_xml(p: OsPreset) -> Seq<char> {
    if p == OsPreset::Windows11 {
        "<tpm model='tpm-crb'><backend type='emulator' version='2.0'/></tpm>"@
    } else {
        Seq::empty()
    }
}

/// The definition of the new machine that the wizard's fields describe.
pub open spec fn new_domain_xml(vm: CreateVmState, pool_path: Seq<char>) -> Seq<char> {
    "<domain type='kvm'><name>"@ + vm.name@ + "</name><memory unit='KiB'>"@
        + decimal((vm.memory_mib * 1024) as nat) + "</memory><vcpu>"@ + decimal(vm.vcpus as nat)
        + "</vcpu><os><type arch='x86_64' machine='pc-q35-9.0'>hvm</type>"@ + firmware_xml(vm.os_preset)
        + "<boot dev='cdrom'/><boot dev='hd'/></os><devices>"@ + system_disk_xml(vm, pool_path)
        + cdrom_xml(vm) + "<interface type='network'><source network='default'/><model type='"@
        + nic_model(vm.os_preset)
        + "'/></interface><graphics type='vnc' port='-1' autoport='yes'/><video><model type='virtio' heads='1'/></video><input type='tablet' bus='usb'/><console type='pty'/>"@
        + tpm_xml(vm.os_preset) + "</devices></domain>"@
}

fn push_qcow2_disk(s: &mut String, file: &str, p: OsPreset)
    ensures
        final(s)@ == old(s)@ + qcow2_disk(file@, p),
{
    let v = p.use_virtio();
    push_str(s, "<disk type='file' device='disk'><driver name='qemu' type='qcow2'/><source file='");
    push_str(s, file);
    push_str(s, "'/><target dev='");
    push_str(s, if v { "vda" } else { "sda" });
    push_str(s, "' bus='");
    push_str(s, if v { "virtio" } else { "sata" });
    push_str(s, "'/></disk>");
}

/// The definition of the machine the wizard describes, with its new disk
/// image in `pool_path`.
pub fn create_vm_xml(vm: &CreateVmState, pool_path: &str) -> (r: String)
    requires
        vm.memory_mib * 1024 <= u64::MAX,
    ensures
        r@ == new_domain_xml(*vm, pool_path@),
{
    let preset = vm.os_preset;
    let mut r = owned("<domain type='kvm'><name>");
    push_str(&mut r, vm.name.as_str());
    push_str(&mut r, "</name><memory unit='KiB'>");
    push_u64(&mut r, vm.memory_mib * 1024);
    push_str(&mut r, "</memory><vcpu>");
    push_u64(&mut r, vm.vcpus as u64);
    push_str(&mut r, "</vcpu><os><type arch='x86_64' machine='pc-q35-9.0'>hvm</type>");
    push_str(&mut r, if preset.needs_uefi() {
        "<loader readonly='yes' type='pflash'>/usr/share/edk2/x64/OVMF_CODE.fd</loader><nvram template='/usr/share/edk2/x64/OVMF_VARS.fd'/>"
    } else {
        ""
    });
    push_str(&mut r, "<boot dev='cdrom'/><boot dev='hd'/></os><devices>");
    let ghost before_disk = r@;
    if vm.create_disk {
        let mut file = owned(pool_path);
        push_str(&mut file, "/");
        push_str(&mut file, vm.name.as_str());
        push_str(&mut file, ".qcow2");
        push_qcow2_disk(&mut r, file.as_str(), preset);
    } else if vm.install_method == 1 {
        push_qcow2_disk(&mut r, vm.import_path.as_str(), preset);
    }
    assert(r@ == before_disk + system_disk_xml(*vm, pool_path@));
    let ghost before_cdrom = r@;
    if vm.install_method == 0 && !vm.iso_path.as_str().is_empty() {
        push_str(&mut r, "<disk type='file' device='cdrom'><driver name='qemu' type='raw'/><source file='");
        push_str(&mut r, vm.iso_path.as_str());
        push_str(&mut r, "'/><target dev='sdb' bus='sata'/><readonly/></disk>");
    }
    assert(r@ == before_cdrom + cdrom_xml(*vm));
    push_str(&mut r, "<interface type='network'><source network='default'/><model type='");
    push_str(&mut r, if preset.use_virtio() { "virtio" } else { "e1000e" });
    push_str(&mut r, "'/></interface><graphics type='vnc' port='-1' autoport='yes'/><video><model type='virtio' heads='1'/></video><input type='tablet' bus='usb'/><console type='pty'/>");
    push_str(&mut r, match preset {
        OsPreset::Windows11 => "<tpm model='tpm-crb'><backend type='emulator' version='2.0'/></tpm>",
        _ => "",
    });
    push_str(&mut r, "</devices></domain>");
    proof {
        reveal_strlit("");
    }
    r
}

/// The request that defines the machine the wizard describes on its
/// connection; `pools` are the storage pools known for that connection.
pub fn create_vm_command(vm: &CreateVmState, pools: &Vec<StoragePoolSummary>) -> (r: BackendCommand)
    requires
        vm.memory_mib * 1024 <= u64::MAX,
    ensures
        r matches BackendCommand::DefineXml(u, x) && u@ == vm.uri@
            && x@ == new_domain_xml(*vm, disk_pool_path_spec(pools@, vm.target_pool@)),
{
    let path = disk_pool_path(pools, vm.target_pool.as_str());
    let xml = create_vm_xml(vm, path.as_str());
    BackendCommand::DefineXml(vm.uri.clone(), xml)
}

/// A machine made from an imported image has that image as its disk: the
/// definition holds a file disk whose source is the import path.
pub proof fn lemma_import_disk_present(vm: CreateVmState, pool_path: Seq<char>)
    requires
        vm.install_method == 1,
        !vm.create_disk,
    ensures
        contains_text(
            new_domain_xml(vm, pool_path),
            "<disk type='file' device='disk'><driver name='qemu' type='qcow2'/><source file='"@ + vm.import_path@
                + "'/><target dev='"@,
        ),
{
    let pat = "<disk type='file' device='disk'><driver name='qemu' type='qcow2'/><source file='"@ + vm.import_path@
        + "'/><target dev='"@;
    lemma_contains_self(pat);
    let d1 = pat + disk_target(vm.os_preset);
    lemma_contains_append(pat, disk_target(vm.os_preset), pat);
    let d2 = d1 + "' bus='"@;
    lemma_contains_append(d1, "' bus='"@, pat);
    let d3 = d2 + disk_bus(vm.os_preset);
    lemma_contains_append(d2, disk_bus(vm.os_preset), pat);
    lemma_contains_append(d3, "'/></disk>"@, pat);
    let sys = system_disk_xml(vm, pool_path);
    assert(sys == d3 + "'/></disk>"@);
    let prefix = "<domain type='kvm'><name>"@ + vm.name@ + "</name><memory unit='KiB'>"@
        + decimal((vm.memory_mib * 1024) as nat) + "</memory><vcpu>"@ + decimal(vm.vcpus as nat)
        + "</vcpu><os><type arch='x86_64' machine='pc-q35-9.0'>hvm</type>"@ + firmware_xml(vm.os_preset)
        + "<boot dev='cdrom'/><boot dev='hd'/></os><devices>"@;
    lemma_contains_prepend(prefix, sys, pat);
    let x1 = prefix + sys;
    lemma_contains_append(x1, cdrom_xml(vm), pat);
    let x2 = x1 + cdrom_xml(vm);
    lemma_contains_append(x2, "<interface type='network'><source network='default'/><model type='"@, pat);
    let x3 = x2 + "<interface type='network'><source network='default'/><model type='"@;
    lemma_contains_append(x3, nic_model(vm.os_preset), pat);
    let x4 = x3 + nic_model(vm.os_preset);
    let tail = "'/></interface><graphics type='vnc' port='-1' autoport='yes'/><video><model type='virtio' heads='1'/></video><input type='tablet' bus='usb'/><console type='pty'/>"@;
    lemma_contains_append(x4, tail, pat);
    let x5 = x4 + tail;
    lemma_contains_append(x5, tpm_xml(vm.os_preset), pat);
    let x6 = x5 + tpm_xml(vm.os_preset);
    lemma_contains_append(x6, "</devices></domain>"@, pat);
    assert(new_domain_xml(vm, pool_path) == x6 + "</devices></domain>"@);
}

} // verus!
