//! The "Add New Virtual Hardware" dialog: the device it describes and the
//! new definition of the machine with that device added.
use vstd::prelude::*;
use crate::backend::BackendCommand;
use crate::state::{BrowseTarget, VolumeBrowserState};
use crate::text::{contains_text, lemma_contains_append, lemma_contains_prepend, lemma_contains_self, chars_of, owned, push_chars, push_str, rfind_chars, rfind_spec, str_eq, string_of_chars, sub_chars};

verus! {

/// The kinds of device the dialog can add.
#[derive(Debug, Clone, Copy, PartialEq, Eq, Structural)]
pub enum HwType {
    Disk,
    Nic,
    Graphics,
    Video,
    Sound,
    Input,
    Watchdog,
    Filesystem,
    Tpm,
    Rng,
    Serial,
}

pub open spec fn hw_type_label(t: HwType) -> Seq<char> {
    match t {
        HwType::Disk => "💿 Storage"@,
        HwType::Nic => "🌐 Network"@,
        HwType::Graphics => "🖵 Graphics"@,
        HwType::Video => "🎬 Video"@,
        HwType::Sound => "🔊 Sound"@,
        HwType::Input => "🖱 Input"@,
        HwType::Watchdog => "⏱ Watchdog"@,
        HwType::Filesystem => "📁 Filesystem"@,
        HwType::Tpm => "🔐 TPM"@,
        HwType::Rng => "🎲 RNG"@,
        HwType::Serial => "📟 Serial"@,
    }
}

impl HwType {
    /// Every kind, in the order the dialog lists them.
    pub fn all() -> (r: Vec<HwType>)
        ensures
            r@ == seq![HwType::Disk, HwType::Nic, HwType::Graphics, HwType::Video, HwType::Sound, HwType::Input, HwType::Watchdog, HwType::Filesystem, HwType::Tpm, HwType::Rng, HwType::Serial],
    {
        vec![HwType::Disk, HwType::Nic, HwType::Graphics, HwType::Video, HwType::Sound, HwType::Input, HwType::Watchdog, HwType::Filesystem, HwType::Tpm, HwType::Rng, HwType::Serial]
    }

    pub fn label(&self) -> (r: &'static str)
        ensures
            r@ == hw_type_label(*self),
    {
        match self {
            HwType::Disk => "💿 Storage",
            HwType::Nic => "🌐 Network",
            HwType::Graphics => "🖵 Graphics",
            HwType::Video => "🎬 Video",
            HwType::Sound => "🔊 Sound",
            HwType::Input => "🖱 Input",
            HwType::Watchdog => "⏱ Watchdog",
            HwType::Filesystem => "📁 Filesystem",
            HwType::Tpm => "🔐 TPM",
            HwType::Rng => "🎲 RNG",
            HwType::Serial => "📟 Serial",
        }
    }
}

/// The fields of the dialog, for every kind of device.
#[derive(Debug, Clone)]
pub struct AddHardwareState {
    pub open: bool,
    pub vm_key: String,
    pub selected_type: HwType,
    pub disk_path: String,
    pub disk_size_gib: u64,
    pub disk_device: String,
    pub disk_bus: String,
    pub disk_create_new: bool,
    pub nic_type: String,
    pub nic_source: String,
    pub nic_model: String,
    pub gfx_type: String,
    pub gfx_port: String,
    pub video_model: String,
    pub sound_model: String,
    pub input_type: String,
    pub input_bus: String,
    pub watchdog_model: String,
    pub watchdog_action: String,
    pub fs_source: String,
    pub fs_target: String,
    pub fs_accessmode: String,
    pub tpm_model: String,
    pub tpm_version: String,
    pub rng_backend: String,
    pub serial_type: String,
}

/// The dialog as it opens: every field at its default.
pub open spec fn hw_defaults(r: AddHardwareState) -> bool {
    &&& !r.open
    &&& r.vm_key@.len() == 0
    &&& r.selected_type == HwType::Disk
    &&& r.disk_path@.len() == 0
    &&& r.disk_size_gib == 10
    &&& r.disk_device@ == "disk"@
    &&& r.disk_bus@ == "virtio"@
    &&& r.disk_create_new
    &&& r.nic_type@ == "network"@
    &&& r.nic_source@ == "default"@
    &&& r.nic_model@ == "virtio"@
    &&& r.gfx_type@ == "vnc"@
    &&& r.gfx_port@ == "-1"@
    &&& r.video_model@ == "virtio"@
    &&& r.sound_model@ == "ich9"@
    &&& r.input_type@ == "tablet"@
    &&& r.input_bus@ == "usb"@
    &&& r.watchdog_model@ == "i6300esb"@
    &&& r.watchdog_action@ == "reset"@
    &&& r.fs_source@.len() == 0
    &&& r.fs_target@ == "shared"@
    &&& r.fs_accessmode@ == "mapped"@
    &&& r.tpm_model@ == "tpm-crb"@
    &&& r.tpm_version@ == "2.0"@
    &&& r.rng_backend@ == "/dev/urandom"@
    &&& r.serial_type@ == "pty"@
}

impl Default for AddHardwareState {
    fn default() -> (r: Self)
        ensures
            hw_defaults(r),
    {
        AddHardwareState {
            open: false,
            vm_key: String::new(),
            selected_type: HwType::Disk,
            disk_path: String::new(),
            disk_size_gib: 10,
            disk_device: owned("disk"),
            disk_bus: owned("virtio"),
            disk_create_new: true,
            nic_type: owned("network"),
            nic_source: owned("default"),
            nic_model: owned("virtio"),
            gfx_type: owned("vnc"),
            gfx_port: owned("-1"),
            video_model: owned("virtio"),
            sound_model: owned("ich9"),
            input_type: owned("tablet"),
            input_bus: owned("usb"),
            watchdog_model: owned("i6300esb"),
            watchdog_action: owned("reset"),
            fs_source: String::new(),
            fs_target: owned("shared"),
            fs_accessmode: owned("mapped"),
            tpm_model: owned("tpm-crb"),
            tpm_version: owned("2.0"),
            rng_backend: owned("/dev/urandom"),
            serial_type: owned("pty"),
        }
    }
}


/// The device name a new disk gets on its bus.
pub open spec fn added_disk_target(bus: Seq<char>) -> Seq<char> {
    if bus == "virtio"@ {
        "vdb"@
    } else if bus == "scsi"@ || bus == "sata"@ {
        "sdb"@
    } else {
        "hdb"@
    }
}

/// The `<source>` attribute of a new network card: the bridge or the host
/// device it is attached to, else the virtual network.
pub open spec fn nic_source_attr(hw: AddHardwareState) -> Seq<char> {
    if hw.nic_type@ == "bridge"@ {
        "bridge='"@ + hw.nic_source@ + "'"@
    } else if hw.nic_type@ == "direct"@ {
        "dev='"@ + hw.nic_source@ + "'"@
    } else {
        "network='"@ + hw.nic_source@ + "'"@
    }
}

/// The device the dialog describes; a new disk image is named after the
/// machine `domain_name`.
pub open spec fn new_device_xml(hw: AddHardwareState, domain_name: Seq<char>) -> Seq<char> {
    match hw.selected_type {
        HwType::Disk => {
            let file = if hw.disk_create_new {
                "/var/lib/libvirt/images/"@ + domain_name + "-added.qcow2"@
            } else {
                hw.disk_path@
            };
            "<disk type='file' device='"@ + hw.disk_device@ + "'><driver name='qemu' type='qcow2'/><source file='"@
                + file + "'/><target dev='"@ + added_disk_target(hw.disk_bus@) + "' bus='"@ + hw.disk_bus@
                + "'/></disk>"@
        },
        HwType::Nic => "<interface type='"@ + hw.nic_type@ + "'><source "@ + nic_source_attr(hw)
            + "/><model type='"@ + hw.nic_model@ + "'/></interface>"@,
        HwType::Graphics => "<graphics type='"@ + hw.gfx_type@ + "' port='"@ + hw.gfx_port@ + "' autoport='yes'/>"@,
        HwType::Video => "<video><model type='"@ + hw.video_model@ + "' heads='1'/></video>"@,
        HwType::Sound => "<sound model='"@ + hw.sound_model@ + "'/>"@,
        HwType::Input => "<input type='"@ + hw.input_type@ + "' bus='"@ + hw.input_bus@ + "'/>"@,
        HwType::Watchdog => "<watchdog model='"@ + hw.watchdog_model@ + "' action='"@ + hw.watchdog_action@ + "'/>"@,
        HwType::Filesystem => "<filesystem type='mount' accessmode='"@ + hw.fs_accessmode@ + "'><source dir='"@
            + hw.fs_source@ + "'/><target dir='"@ + hw.fs_target@ + "'/></filesystem>"@,
        HwType::Tpm => "<tpm model='"@ + hw.tpm_model@ + "'><backend type='emulator' version='"@ + hw.tpm_version@
            + "'/></tpm>"@,
        HwType::Rng => "<rng model='virtio'><backend model='random'>"@ + hw.rng_backend@ + "</backend></rng>"@,
        HwType::Serial => "<serial type='"@ + hw.serial_type@ + "'><target port='0'/></serial>"@,
    }
}

fn push_disk_xml(r: &mut String, hw: &AddHardwareState, domain_name: &str)
    requires
        hw.selected_type == HwType::Disk,
    ensures
        final(r)@ == old(r)@ + new_device_xml(*hw, domain_name@),
{
    let bus = hw.disk_bus.as_str();
    let target: &str = if str_eq(bus, "virtio") {
        "vdb"
    } else if str_eq(bus, "scsi") || str_eq(bus, "sata") {
        "sdb"
    } else {
        "hdb"
    };
    push_str(r, "<disk type='file' device='");
    push_str(r, hw.disk_device.as_str());
    push_str(r, "'><driver name='qemu' type='qcow2'/><source file='");
    let ghost before = r@;
    if hw.disk_create_new {
        push_str(r, "/var/lib/libvirt/images/");
        push_str(r, domain_name);
        push_str(r, "-added.qcow2");
    } else {
        push_str(r, hw.disk_path.as_str());
    }
    assert(r@ == before + (if hw.disk_create_new {
        "/var/lib/libvirt/images/"@ + domain_name@ + "-added.qcow2"@
    } else {
        hw.disk_path@
    }));
    push_str(r, "'/><target dev='");
    push_str(r, target);
    push_str(r, "' bus='");
    push_str(r, bus);
    push_str(r, "'/></disk>");
}

fn push_nic_xml(r: &mut String, hw: &AddHardwareState)
    requires
        hw.selected_type == HwType::Nic,
    ensures
        final(r)@ == old(r)@ + new_device_xml(*hw, Seq::empty()),
{
    push_str(r, "<interface type='");
    push_str(r, hw.nic_type.as_str());
    push_str(r, "'><source ");
    let ghost before = r@;
    if str_eq(hw.nic_type.as_str(), "bridge") {
        push_str(r, "bridge='");
    } else if str_eq(hw.nic_type.as_str(), "direct") {
        push_str(r, "dev='");
    } else {
        push_str(r, "network='");
    }
    push_str(r, hw.nic_source.as_str());
    push_str(r, "'");
    assert(r@ == before + nic_source_attr(*hw));
    push_str(r, "/><model type='");
    push_str(r, hw.nic_model.as_str());
    push_str(r, "'/></interface>");
}

/// The device the dialog describes, for the machine `domain_name`.
pub fn hardware_device_xml(hw: &AddHardwareState, domain_name: &str) -> (r: String)
    ensures
        r@ == new_device_xml(*hw, domain_name@),
{
    let mut r = String::new();
    match hw.selected_type {
        HwType::Disk => {
            push_disk_xml(&mut r, hw, domain_name);
        },
        HwType::Nic => {
            push_nic_xml(&mut r, hw);
        },
        HwType::Graphics => {
            push_str(&mut r, "<graphics type='");
            push_str(&mut r, hw.gfx_type.as_str());
            push_str(&mut r, "' port='");
            push_str(&mut r, hw.gfx_port.as_str());
            push_str(&mut r, "' autoport='yes'/>");
        },
        HwType::Video => {
            push_str(&mut r, "<video><model type='");
            push_str(&mut r, hw.video_model.as_str());
            push_str(&mut r, "' heads='1'/></video>");
        },
        HwType::Sound => {
            push_str(&mut r, "<sound model='");
            push_str(&mut r, hw.sound_model.as_str());
            push_str(&mut r, "'/>");
        },
        HwType::Input => {
            push_str(&mut r, "<input type='");
            push_str(&mut r, hw.input_type.as_str());
            push_str(&mut r, "' bus='");
            push_str(&mut r, hw.input_bus.as_str());
            push_str(&mut r, "'/>");
        },
        HwType::Watchdog => {
            push_str(&mut r, "<watchdog model='");
            push_str(&mut r, hw.watchdog_model.as_str());
            push_str(&mut r, "' action='");
            push_str(&mut r, hw.watchdog_action.as_str());
            push_str(&mut r, "'/>");
        },
        HwType::Filesystem => {
            push_str(&mut r, "<filesystem type='mount' accessmode='");
            push_str(&mut r, hw.fs_accessmode.as_str());
            push_str(&mut r, "'><source dir='");
            push_str(&mut r, hw.fs_source.as_str());
            push_str(&mut r, "'/><target dir='");
            push_str(&mut r, hw.fs_target.as_str());
            push_str(&mut r, "'/></filesystem>");
        },
        HwType::Tpm => {
            push_str(&mut r, "<tpm model='");
            push_str(&mut r, hw.tpm_model.as_str());
            push_str(&mut r, "'><backend type='emulator' version='");
            push_str(&mut r, hw.tpm_version.as_str());
            push_str(&mut r, "'/></tpm>");
        },
        HwType::Rng => {
            push_str(&mut r, "<rng model='virtio'><backend model='random'>");
            push_str(&mut r, hw.rng_backend.as_str());
            push_str(&mut r, "</backend></rng>");
        },
        HwType::Serial => {
            push_str(&mut r, "<serial type='");
            push_str(&mut r, hw.serial_type.as_str());
            push_str(&mut r, "'><target port='0'/></serial>");
        },
    }
    proof {
        assert(Seq::<char>::empty() + new_device_xml(*hw, domain_name@) =~= new_device_xml(*hw, domain_name@));
    }
    r
}

/// `domain_xml` with `device_xml` put just before its last `</devices>`;
/// unchanged when it has none.
pub open spec fn inject_device(domain_xml: Seq<char>, device_xml: Seq<char>) -> Seq<char> {
    match rfind_spec(domain_xml, "</devices>"@) {
        Some(p) => domain_xml.take(p as int) + device_xml + domain_xml.skip(p as int),
        None => domain_xml,
    }
}

/// Adds a device to a domain definition, just before its last `</devices>`.
pub fn inject_device_into_xml(domain_xml: &str, device_xml: &str) -> (r: String)
    ensures
        r@ == inject_device(domain_xml@, device_xml@),
{
    let v = chars_of(domain_xml);
    let pat = chars_of("</devices>");
    match rfind_chars(&v, &pat) {
        Some(p) => {
            let mut r = string_of_chars(&sub_chars(&v, 0, p));
            push_str(&mut r, device_xml);
            push_chars(&mut r, &sub_chars(&v, p, v.len()));
            proof {
                assert(v@.subrange(0, p as int) =~= v@.take(p as int));
                assert(v@.subrange(p as int, v@.len() as int) =~= v@.skip(p as int));
            }
            r
        },
        None => owned(domain_xml),
    }
}

/// "Add": the request that redefines the machine `domain_name` of the
/// connection `uri`, whose definition is `domain_xml`, with the device the
/// dialog describes.
pub fn add_hardware_command(hw: &AddHardwareState, uri: &str, domain_name: &str, domain_xml: &str) -> (r: BackendCommand)
    ensures
        r matches BackendCommand::DefineXml(u, x) && u@ == uri@
            && x@ == inject_device(domain_xml@, new_device_xml(*hw, domain_name@)),
{
    let device = hardware_device_xml(hw, domain_name);
    BackendCommand::DefineXml(owned(uri), inject_device_into_xml(domain_xml, device.as_str()))
}

/// "Add" pressed in the dialog.  `target` is the machine window the dialog
/// was opened from, as its connection URI and machine name, if that window
/// is still open; `domain_xml` is the machine's definition (empty when the
/// machine is not listed).  With the window open, the request that adds the
/// device goes out and the dialog returns to its defaults; with the window
/// gone, nothing is sent and the dialog stays as it was.
pub fn apply_hardware(hw: &mut AddHardwareState, target: Option<(&str, &str)>, domain_xml: &str) -> (r: Option<BackendCommand>)
    ensures
        match target {
            Some((uri, name)) => {
                &&& r matches Some(BackendCommand::DefineXml(u, x))
                &&& u@ == uri@
                &&& x@ == inject_device(domain_xml@, new_device_xml(*old(hw), name@))
                &&& hw_defaults(*final(hw))
            },
            None => r is None && *final(hw) == *old(hw),
        },
{
    match target {
        Some((uri, name)) => {
            let cmd = add_hardware_command(hw, uri, name, domain_xml);
            *hw = AddHardwareState::default();
            Some(cmd)
        },
        None => None,
    }
}

/// Takes over the path picked in the volume browser for a new disk, once
/// the browser is closed: the path becomes the disk's, no new image is made
/// and the pick is consumed.
pub fn take_browsed_disk(hw: &mut AddHardwareState, vb: &mut VolumeBrowserState)
    ensures
        ({
            let taken = old(vb).selected_path matches Some(p) && !old(vb).open
                && old(vb).target == BrowseTarget::AddHwDisk && p@.len() > 0;
            &&& taken ==> {
                &&& final(hw).disk_path@ == old(vb).selected_path->0@
                &&& !final(hw).disk_create_new
                &&& final(vb).selected_path is None
            }
            &&& !taken ==> *final(hw) == *old(hw) && *final(vb) == *old(vb)
            &&& final(vb).open == old(vb).open
            &&& final(vb).target == old(vb).target
            &&& final(vb).uri == old(vb).uri
            &&& final(hw).selected_type == old(hw).selected_type
        }),
{
    let take = match &vb.selected_path {
        Some(p) => !vb.open && vb.target == BrowseTarget::AddHwDisk && !p.as_str().is_empty(),
        None => false,
    };
    if take {
        let p = vb.selected_path.take();
        match p {
            Some(path) => {
                hw.disk_path = path;
                hw.disk_create_new = false;
            },
            None => {},
        }
    }
}

/// Adding a device leaves the rest of the definition as it was: taking the
/// device out again at the place it went in gives `domain_xml` back.
pub proof fn lemma_inject_device_removable(domain_xml: Seq<char>, device_xml: Seq<char>)
    requires
        rfind_spec(domain_xml, "</devices>"@) is Some,
    ensures
        ({
            let p = rfind_spec(domain_xml, "</devices>"@)->0 as int;
            let r = inject_device(domain_xml, device_xml);
            &&& r.subrange(p, p + device_xml.len()) == device_xml
            &&& r.take(p) + r.skip(p + device_xml.len()) == domain_xml
        }),
{
    let p = rfind_spec(domain_xml, "</devices>"@)->0 as int;
    crate::text::lemma_rfind_some(domain_xml, "</devices>"@);
    let r = inject_device(domain_xml, device_xml);
    assert(r.subrange(p, p + device_xml.len()) =~= device_xml);
    assert(r.take(p) + r.skip(p + device_xml.len()) =~= domain_xml);
}

/// An added filesystem shares the host directory the dialog names as its
/// source and mounts it under the guest tag the dialog names as its target.
pub proof fn lemma_filesystem_source_and_target(hw: AddHardwareState, domain_name: Seq<char>)
    requires
        hw.selected_type == HwType::Filesystem,
    ensures
        contains_text(
            new_device_xml(hw, domain_name),
            "<source dir='"@ + hw.fs_source@ + "'/><target dir='"@ + hw.fs_target@ + "'/>"@,
        ),
{
    let pat = "<source dir='"@ + hw.fs_source@ + "'/><target dir='"@ + hw.fs_target@ + "'/>"@;
    let body = "'><source dir='"@ + hw.fs_source@ + "'/><target dir='"@ + hw.fs_target@ + "'/></filesystem>"@;
    assert(body =~= "'>"@ + pat + "</filesystem>"@) by {
        reveal_strlit("'><source dir='");
        reveal_strlit("'>");
        reveal_strlit("<source dir='");
        reveal_strlit("'/></filesystem>");
        reveal_strlit("'/>");
        reveal_strlit("</filesystem>");
    }
    lemma_contains_self(pat);
    lemma_contains_prepend("'>"@, pat, pat);
    lemma_contains_append("'>"@ + pat, "</filesystem>"@, pat);
    let head = "<filesystem type='mount' accessmode='"@ + hw.fs_accessmode@;
    lemma_contains_prepend(head, body, pat);
    assert(new_device_xml(hw, domain_name) =~= head + body);
}

} // verus!
