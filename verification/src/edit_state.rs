//! Editable copies of parts of a domain definition, and the XML fragments
//! that an edit turns back into.
use std::collections::HashMap;
use vstd::prelude::*;
use vstd::std_specs::iter::IteratorSpec;
use crate::domain::Guest;
use crate::text::{contains_text, lemma_contains_append, lemma_contains_prepend, lemma_contains_self, decimal, owned, push_str, push_u64, signed_decimal, push_i64, str_eq};
use crate::devices::disk::disk_source_path;

verus! {

/// Whether a device is edited through its fields or as raw XML.
#[derive(Debug, Clone, Copy, PartialEq, Eq, Structural)]
pub enum DeviceSubTab {
    Details,
    Xml,
}

/// The edit state of one device: the edited fields, whether they changed,
/// and the raw XML text with its own change flag.
pub struct DeviceEditState<T> {
    pub fields: T,
    pub dirty: bool,
    pub sub_tab: DeviceSubTab,
    pub device_xml_text: String,
    pub device_xml_dirty: bool,
}

/// Whether an edit holds changes not yet applied.
pub open spec fn edit_dirty<T>(e: DeviceEditState<T>) -> bool {
    e.dirty || e.device_xml_dirty
}

impl<T> DeviceEditState<T> {
    /// A fresh, unchanged edit on the details tab.
    pub fn new(fields: T) -> (r: Self)
        ensures
            r.fields == fields,
            !r.dirty,
            r.sub_tab == DeviceSubTab::Details,
            r.device_xml_text@ == Seq::<char>::empty(),
            !r.device_xml_dirty,
    {
        DeviceEditState {
            fields,
            dirty: false,
            sub_tab: DeviceSubTab::Details,
            device_xml_text: String::new(),
            device_xml_dirty: false,
        }
    }

    pub fn is_dirty(&self) -> (r: bool)
        ensures
            r == edit_dirty(*self),
    {
        self.dirty || self.device_xml_dirty
    }
}

/// The characters of an optional string, empty when absent.
pub open spec fn or_empty(o: Option<String>) -> Seq<char> {
    match o {
        Some(s) => s@,
        None => Seq::<char>::empty(),
    }
}

fn clone_or_empty(o: &Option<String>) -> (r: String)
    ensures
        r@ == or_empty(*o),
{
    match o {
        Some(s) => s.clone(),
        None => String::new(),
    }
}

/// Name, title and description.
pub struct OverviewEdit {
    pub name: String,
    pub title: String,
    pub description: String,
}

/// `<TAG>TEXT</TAG>`.
pub open spec fn element(tag: Seq<char>, text: Seq<char>) -> Seq<char> {
    "<"@ + tag + ">"@ + text + "</"@ + tag + ">"@
}

/// The elements an overview edit replaces, with their tags: the name always,
/// the title and description when not empty.
pub open spec fn overview_parts(e: OverviewEdit) -> Seq<(Seq<char>, Seq<char>)> {
    let name = seq![("name"@, "<name>"@ + e.name@ + "</name>"@)];
    let with_title = if e.title@.len() > 0 {
        name.push(("title"@, "<title>"@ + e.title@ + "</title>"@))
    } else {
        name
    };
    if e.description@.len() > 0 {
        with_title.push(
            ("description"@, "<description>"@ + e.description@ + "</description>"@),
        )
    } else {
        with_title
    }
}

fn wrap(open: &str, text: &str, close: &str) -> (r: String)
    ensures
        r@ == open@ + text@ + close@,
{
    let mut r = owned(open);
    push_str(&mut r, text);
    push_str(&mut r, close);
    r
}

impl OverviewEdit {
    pub fn from_guest(guest: &Guest) -> (r: Self)
        ensures
            r.name@ == guest.name@,
            r.title@ == or_empty(guest.title),
            r.description@ == or_empty(guest.description),
    {
        OverviewEdit {
            name: guest.name.clone(),
            title: clone_or_empty(&guest.title),
            description: clone_or_empty(&guest.description),
        }
    }

    pub fn to_xml_parts(&self) -> (r: Vec<(&str, String)>)
        ensures
            r@.map_values(|p: (&str, String)| (p.0@, p.1@)) == overview_parts(*self),
    {
        let mut parts: Vec<(&str, String)> = Vec::new();
        parts.push(("name", wrap("<name>", self.name.as_str(), "</name>")));
        if !self.title.as_str().is_empty() {
            parts.push(("title", wrap("<title>", self.title.as_str(), "</title>")));
        }
        if !self.description.as_str().is_empty() {
            parts.push(
                (
                    "description",
                    wrap("<description>", self.description.as_str(), "</description>"),
                ),
            );
        }
        assert(parts@.map_values(|p: (&str, String)| (p.0@, p.1@)) =~= overview_parts(*self));
        parts
    }
}

/// Virtual CPU count and current count.
pub struct CpuEdit {
    pub vcpu_count: u32,
    pub current: u32,
    pub has_current: bool,
}

/// The `<vcpu>` element for a CPU edit: with a `current` attribute only when
/// one was set and it differs from the count.
pub open spec fn cpu_xml(e: CpuEdit) -> Seq<char> {
    if e.has_current && e.current != e.vcpu_count {
        "<vcpu current='"@ + decimal(e.current as nat) + "'>"@ + decimal(e.vcpu_count as nat)
            + "</vcpu>"@
    } else {
        "<vcpu>"@ + decimal(e.vcpu_count as nat) + "</vcpu>"@
    }
}

impl CpuEdit {
    pub fn from_guest(guest: &Guest) -> (r: Self)
        ensures
            r.vcpu_count == guest.vcpu.count,
            r.current == match guest.vcpu.current {
                Some(c) => c,
                None => guest.vcpu.count,
            },
            r.has_current == guest.vcpu.current is Some,
    {
        CpuEdit {
            vcpu_count: guest.vcpu.count,
            current: match guest.vcpu.current {
                Some(c) => c,
                None => guest.vcpu.count,
            },
            has_current: guest.vcpu.current.is_some(),
        }
    }

    pub fn to_xml(&self) -> (r: String)
        ensures
            r@ == cpu_xml(*self),
    {
        let mut r = String::new();
        if self.has_current && self.current != self.vcpu_count {
            push_str(&mut r, "<vcpu current='");
            push_u64(&mut r, self.current as u64);
            push_str(&mut r, "'>");
            push_u64(&mut r, self.vcpu_count as u64);
            push_str(&mut r, "</vcpu>");
        } else {
            push_str(&mut r, "<vcpu>");
            push_u64(&mut r, self.vcpu_count as u64);
            push_str(&mut r, "</vcpu>");
        }
        r
    }
}

/// Maximum and current memory in MiB.
pub struct MemoryEdit {
    pub max_memory_mib: u64,
    pub current_memory_mib: u64,
}

impl MemoryEdit {
    pub fn from_guest(guest: &Guest) -> (r: Self)
        requires
            guest.memory.kib_fits(),
            guest.current_memory matches Some(m) ==> m.kib_fits(),
        ensures
            r.max_memory_mib == guest.memory.kib() / 1024,
            r.current_memory_mib == match guest.current_memory {
                Some(m) => m.kib() / 1024,
                None => guest.memory.kib() / 1024,
            },
    {
        let max = guest.memory.as_mib();
        let cur = match &guest.current_memory {
            Some(m) => m.as_mib(),
            None => guest.memory.as_mib(),
        };
        MemoryEdit { max_memory_mib: max, current_memory_mib: cur }
    }

    /// The `<memory>` and `<currentMemory>` elements, both in MiB.
    pub fn to_xml(&self) -> (r: (String, String))
        ensures
            r.0@ == "<memory unit='MiB'>"@ + decimal(self.max_memory_mib as nat) + "</memory>"@,
            r.1@ == "<currentMemory unit='MiB'>"@ + decimal(self.current_memory_mib as nat)
                + "</currentMemory>"@,
    {
        let mut mem = owned("<memory unit='MiB'>");
        push_u64(&mut mem, self.max_memory_mib);
        push_str(&mut mem, "</memory>");
        let mut cur = owned("<currentMemory unit='MiB'>");
        push_u64(&mut cur, self.current_memory_mib);
        push_str(&mut cur, "</currentMemory>");
        (mem, cur)
    }
}

/// The boot order.
pub struct BootEdit {
    pub boot_devices: Vec<String>,
}

impl BootEdit {
    pub fn from_guest(guest: &Guest) -> (r: Self)
        ensures
            r.boot_devices@.len() == guest.os.boot@.len(),
            forall|i: int|
                0 <= i < r.boot_devices@.len() ==> #[trigger] r.boot_devices@[i]@
                    == guest.os.boot@[i].dev@,
    {
        let mut devs: Vec<String> = Vec::new();
        let mut i: usize = 0;
        while i < guest.os.boot.len()
            invariant
                i <= guest.os.boot@.len(),
                devs@.len() == i,
                forall|j: int| 0 <= j < i ==> #[trigger] devs@[j]@ == guest.os.boot@[j].dev@,
            decreases guest.os.boot.len() - i,
        {
            devs.push(guest.os.boot[i].dev.clone());
            i = i + 1;
        }
        BootEdit { boot_devices: devs }
    }
}

/// The editable fields of a disk.
pub struct DiskEdit {
    pub source_path: String,
    pub target_dev: String,
    pub bus: String,
    pub cache: String,
    pub format: String,
    pub device_type: String,
    pub disk_type: String,
    pub readonly: bool,
}

/// `s` when `c` holds, nothing otherwise.
pub open spec fn when(c: bool, s: Seq<char>) -> Seq<char> {
    if c {
        s
    } else {
        Seq::<char>::empty()
    }
}

/// The `<disk>` element for a disk edit.
pub open spec fn disk_xml(e: DiskEdit) -> Seq<char> {
    "<disk type='"@ + e.disk_type@ + "' device='"@ + e.device_type@ + "'>"@ + when(
        e.format@.len() > 0,
        "\n      <driver name='qemu' type='"@ + e.format@ + "'"@ + when(
            e.cache@.len() > 0,
            " cache='"@ + e.cache@ + "'"@,
        ) + "/>"@,
    ) + when(
        e.source_path@.len() > 0,
        if e.disk_type@ == "block"@ {
            "\n      <source dev='"@ + e.source_path@ + "'/>"@
        } else {
            "\n      <source file='"@ + e.source_path@ + "'/>"@
        },
    ) + "\n      <target dev='"@ + e.target_dev@ + "'"@ + when(
        e.bus@.len() > 0,
        " bus='"@ + e.bus@ + "'"@,
    ) + "/>"@ + when(e.readonly, "\n      <readonly/>"@) + "\n    </disk>"@
}

/// Appends `s` to `r` when `c` holds.
fn push_when(r: &mut String, c: bool, s: &str)
    ensures
        final(r)@ == old(r)@ + when(c, s@),
{
    if c {
        push_str(r, s);
    } else {
        assert(old(r)@ + Seq::<char>::empty() =~= old(r)@);
    }
}

impl DiskEdit {
    /// The fields of the `idx`-th disk of the guest, when it has one.
    pub fn from_guest(guest: &Guest, idx: usize) -> (r: Option<Self>)
        ensures
            match guest.devices {
                Some(d) => if idx < d.disks@.len() {
                    let disk = d.disks@[idx as int];
                    r matches Some(e) && e.source_path@ == match disk_source_path(disk) {
                        Some(p) => p,
                        None => Seq::<char>::empty(),
                    } && e.target_dev@ == disk.target.dev@ && e.bus@ == or_empty(disk.target.bus)
                        && e.cache@ == match disk.driver {
                        Some(dr) => or_empty(dr.cache),
                        None => Seq::<char>::empty(),
                    } && e.format@ == match disk.driver {
                        Some(dr) => or_empty(dr.driver_type),
                        None => Seq::<char>::empty(),
                    } && e.device_type@ == disk.device@ && e.disk_type@ == disk.disk_type@
                        && e.readonly == disk.readonly is Some
                } else {
                    r is None
                },
                None => r is None,
            },
    {
        let devices = match &guest.devices {
            Some(d) => d,
            None => return None,
        };
        if idx >= devices.disks.len() {
            return None;
        }
        let disk = &devices.disks[idx];
        let source_path = match disk.source_path() {
            Some(p) => owned(p),
            None => String::new(),
        };
        let (cache, format) = match &disk.driver {
            Some(d) => (clone_or_empty(&d.cache), clone_or_empty(&d.driver_type)),
            None => (String::new(), String::new()),
        };
        Some(
            DiskEdit {
                source_path,
                target_dev: disk.target.dev.clone(),
                bus: clone_or_empty(&disk.target.bus),
                cache,
                format,
                device_type: disk.device.clone(),
                disk_type: disk.disk_type.clone(),
                readonly: disk.readonly.is_some(),
            },
        )
    }

    pub fn to_xml(&self) -> (r: String)
        ensures
            r@ == disk_xml(*self),
    {
        let mut xml = owned("<disk type='");
        push_str(&mut xml, self.disk_type.as_str());
        push_str(&mut xml, "' device='");
        push_str(&mut xml, self.device_type.as_str());
        push_str(&mut xml, "'>");
        let ghost head = xml@;
        let mut driver = String::new();
        if !self.format.as_str().is_empty() {
            push_str(&mut driver, "\n      <driver name='qemu' type='");
            push_str(&mut driver, self.format.as_str());
            push_str(&mut driver, "'");
            let mut cache = owned(" cache='");
            push_str(&mut cache, self.cache.as_str());
            push_str(&mut cache, "'");
            push_when(&mut driver, !self.cache.as_str().is_empty(), cache.as_str());
            push_str(&mut driver, "/>");
        }
        push_when(&mut xml, !self.format.as_str().is_empty(), driver.as_str());
        let mut source = String::new();
        if str_eq(self.disk_type.as_str(), "block") {
            push_str(&mut source, "\n      <source dev='");
        } else {
            push_str(&mut source, "\n      <source file='");
        }
        push_str(&mut source, self.source_path.as_str());
        push_str(&mut source, "'/>");
        push_when(&mut xml, !self.source_path.as_str().is_empty(), source.as_str());
        push_str(&mut xml, "\n      <target dev='");
        push_str(&mut xml, self.target_dev.as_str());
        push_str(&mut xml, "'");
        let bus = wrap(" bus='", self.bus.as_str(), "'");
        push_when(&mut xml, !self.bus.as_str().is_empty(), bus.as_str());
        push_str(&mut xml, "/>");
        push_when(&mut xml, self.readonly, "\n      <readonly/>");
        push_str(&mut xml, "\n    </disk>");
        xml
    }
}

/// The editable fields of a network interface.
pub struct NicEdit {
    pub interface_type: String,
    pub source: String,
    pub model: String,
    pub mac_address: String,
}

/// The `<interface>` element for a NIC edit; the source attribute is
/// `bridge` or `dev` for those interface types and `network` otherwise.
pub open spec fn nic_xml(e: NicEdit) -> Seq<char> {
    "<interface type='"@ + e.interface_type@ + "'>"@ + when(
        e.mac_address@.len() > 0,
        "\n      <mac address='"@ + e.mac_address@ + "'/>"@,
    ) + when(
        e.source@.len() > 0,
        "\n      <source "@ + (if e.interface_type@ == "bridge"@ {
            "bridge='"@ + e.source@ + "'"@
        } else if e.interface_type@ == "direct"@ {
            "dev='"@ + e.source@ + "'"@
        } else {
            "network='"@ + e.source@ + "'"@
        }) + "/>"@,
    ) + when(e.model@.len() > 0, "\n      <model type='"@ + e.model@ + "'/>"@)
        + "\n    </interface>"@
}

impl NicEdit {
    /// The fields of the `idx`-th interface of the guest, when it has one.
    pub fn from_guest(guest: &Guest, idx: usize) -> (r: Option<Self>)
        ensures
            match guest.devices {
                Some(d) => if idx < d.interfaces@.len() {
                    let nic = d.interfaces@[idx as int];
                    r matches Some(e) && e.interface_type@ == nic.interface_type@ && e.source@
                        == match crate::devices::interface::interface_source_name(nic) {
                        Some(x) => x,
                        None => Seq::<char>::empty(),
                    } && e.model@ == match nic.model {
                        Some(m) => m.model_type@,
                        None => Seq::<char>::empty(),
                    } && e.mac_address@ == match nic.mac {
                        Some(m) => m.address@,
                        None => Seq::<char>::empty(),
                    }
                } else {
                    r is None
                },
                None => r is None,
            },
    {
        let devices = match &guest.devices {
            Some(d) => d,
            None => return None,
        };
        if idx >= devices.interfaces.len() {
            return None;
        }
        let nic = &devices.interfaces[idx];
        let source = match nic.source_name() {
            Some(s) => owned(s),
            None => String::new(),
        };
        let model = match &nic.model {
            Some(m) => m.model_type.clone(),
            None => String::new(),
        };
        let mac_address = match &nic.mac {
            Some(m) => m.address.clone(),
            None => String::new(),
        };
        Some(NicEdit { interface_type: nic.interface_type.clone(), source, model, mac_address })
    }

    pub fn to_xml(&self) -> (r: String)
        ensures
            r@ == nic_xml(*self),
    {
        let mut xml = wrap("<interface type='", self.interface_type.as_str(), "'>");
        let mac = wrap("\n      <mac address='", self.mac_address.as_str(), "'/>");
        push_when(&mut xml, !self.mac_address.as_str().is_empty(), mac.as_str());
        let t = self.interface_type.as_str();
        let attr = if str_eq(t, "bridge") {
            wrap("bridge='", self.source.as_str(), "'")
        } else if str_eq(t, "direct") {
            wrap("dev='", self.source.as_str(), "'")
        } else {
            wrap("network='", self.source.as_str(), "'")
        };
        let src = wrap("\n      <source ", attr.as_str(), "/>");
        push_when(&mut xml, !self.source.as_str().is_empty(), src.as_str());
        let model = wrap("\n      <model type='", self.model.as_str(), "'/>");
        push_when(&mut xml, !self.model.as_str().is_empty(), model.as_str());
        push_str(&mut xml, "\n    </interface>");
        xml
    }
}

/// The editable fields of a graphics device.
pub struct GraphicsEdit {
    pub graphics_type: String,
    pub port: i32,
    pub listen: String,
    pub autoport: bool,
    pub password: String,
    pub keymap: String,
}

/// The `<graphics>` element for a graphics edit; the port appears only when
/// it is not negative.
pub open spec fn graphics_xml(e: GraphicsEdit) -> Seq<char> {
    "<graphics type='"@ + e.graphics_type@ + "'"@ + when(
        e.port >= 0,
        " port='"@ + signed_decimal(e.port as int) + "'"@,
    ) + " autoport='"@ + (if e.autoport {
        "yes"@
    } else {
        "no"@
    }) + "'"@ + when(e.listen@.len() > 0, " listen='"@ + e.listen@ + "'"@) + when(
        e.password@.len() > 0,
        " passwd='"@ + e.password@ + "'"@,
    ) + when(e.keymap@.len() > 0, " keymap='"@ + e.keymap@ + "'"@) + "/>"@
}

impl GraphicsEdit {
    /// The fields of the `idx`-th graphics device of the guest, when it has one.
    pub fn from_guest(guest: &Guest, idx: usize) -> (r: Option<Self>)
        ensures
            match guest.devices {
                Some(d) => if idx < d.graphics@.len() {
                    let g = d.graphics@[idx as int];
                    r matches Some(e) && e.graphics_type@ == g.graphics_type@ && e.port
                        == match g.port {
                        Some(p) => p,
                        None => -1i32,
                    } && e.listen@ == or_empty(g.listen) && e.autoport == (g.autoport matches Some(
                        a,
                    ) && a@ == "yes"@) && e.password@ == or_empty(g.passwd) && e.keymap@
                        == or_empty(g.keymap)
                } else {
                    r is None
                },
                None => r is None,
            },
    {
        let devices = match &guest.devices {
            Some(d) => d,
            None => return None,
        };
        if idx >= devices.graphics.len() {
            return None;
        }
        let gfx = &devices.graphics[idx];
        let autoport = match &gfx.autoport {
            Some(a) => str_eq(a.as_str(), "yes"),
            None => false,
        };
        Some(
            GraphicsEdit {
                graphics_type: gfx.graphics_type.clone(),
                port: match gfx.port {
                    Some(p) => p,
                    None => -1,
                },
                listen: clone_or_empty(&gfx.listen),
                autoport,
                password: clone_or_empty(&gfx.passwd),
                keymap: clone_or_empty(&gfx.keymap),
            },
        )
    }

    pub fn to_xml(&self) -> (r: String)
        ensures
            r@ == graphics_xml(*self),
    {
        let mut xml = wrap("<graphics type='", self.graphics_type.as_str(), "'");
        let mut port = owned(" port='");
        push_i64(&mut port, self.port as i64);
        push_str(&mut port, "'");
        push_when(&mut xml, self.port >= 0, port.as_str());
        push_str(&mut xml, " autoport='");
        if self.autoport {
            push_str(&mut xml, "yes");
        } else {
            push_str(&mut xml, "no");
        }
        push_str(&mut xml, "'");
        let listen = wrap(" listen='", self.listen.as_str(), "'");
        push_when(&mut xml, !self.listen.as_str().is_empty(), listen.as_str());
        let pw = wrap(" passwd='", self.password.as_str(), "'");
        push_when(&mut xml, !self.password.as_str().is_empty(), pw.as_str());
        let km = wrap(" keymap='", self.keymap.as_str(), "'");
        push_when(&mut xml, !self.keymap.as_str().is_empty(), km.as_str());
        push_str(&mut xml, "/>");
        xml
    }
}

/// The editable fields of a video device.
pub struct VideoEdit {
    pub model_type: String,
    pub vram_kib: u64,
    pub heads: u32,
    pub accel3d: bool,
}

/// The `<video>` element for a video edit.
pub open spec fn video_xml(e: VideoEdit) -> Seq<char> {
    "<video>\n      <model type='"@ + e.model_type@ + "' vram='"@ + decimal(e.vram_kib as nat)
        + "' heads='"@ + decimal(e.heads as nat) + "'"@ + (if e.accel3d {
        ">\n        <acceleration accel3d='yes'/>\n      </model>"@
    } else {
        "/>"@
    }) + "\n    </video>"@
}

impl VideoEdit {
    /// The fields of the `idx`-th video device of the guest, when it has one;
    /// 16384 KiB of video memory and one head when the model leaves them out.
    pub fn from_guest(guest: &Guest, idx: usize) -> (r: Option<Self>)
        ensures
            match guest.devices {
                Some(d) => if idx < d.videos@.len() {
                    let v = d.videos@[idx as int];
                    r matches Some(e) && e.model_type@ == or_empty(v.model.model_type) && e.vram_kib
                        == match v.model.vram {
                        Some(x) => x,
                        None => 16384,
                    } && e.heads == match v.model.heads {
                        Some(h) => h,
                        None => 1,
                    } && e.accel3d == (v.model.acceleration matches Some(a) && a.accel3d matches Some(
                        x,
                    ) && x@ == "yes"@)
                } else {
                    r is None
                },
                None => r is None,
            },
    {
        let devices = match &guest.devices {
            Some(d) => d,
            None => return None,
        };
        if idx >= devices.videos.len() {
            return None;
        }
        let vid = &devices.videos[idx];
        let accel3d = match &vid.model.acceleration {
            Some(a) => match &a.accel3d {
                Some(x) => str_eq(x.as_str(), "yes"),
                None => false,
            },
            None => false,
        };
        Some(
            VideoEdit {
                model_type: clone_or_empty(&vid.model.model_type),
                vram_kib: match vid.model.vram {
                    Some(x) => x,
                    None => 16384,
                },
                heads: match vid.model.heads {
                    Some(h) => h,
                    None => 1,
                },
                accel3d,
            },
        )
    }

    pub fn to_xml(&self) -> (r: String)
        ensures
            r@ == video_xml(*self),
    {
        let mut xml = owned("<video>\n      <model type='");
        push_str(&mut xml, self.model_type.as_str());
        push_str(&mut xml, "' vram='");
        push_u64(&mut xml, self.vram_kib);
        push_str(&mut xml, "' heads='");
        push_u64(&mut xml, self.heads as u64);
        push_str(&mut xml, "'");
        if self.accel3d {
            push_str(&mut xml, ">\n        <acceleration accel3d='yes'/>\n      </model>");
        } else {
            push_str(&mut xml, "/>");
        }
        push_str(&mut xml, "\n    </video>");
        xml
    }
}

/// The editable fields of a sound device.
pub struct SoundEdit {
    pub model: String,
}

impl SoundEdit {
    /// The fields of the `idx`-th sound device of the guest, when it has one.
    pub fn from_guest(guest: &Guest, idx: usize) -> (r: Option<Self>)
        ensures
            match guest.devices {
                Some(d) => if idx < d.sounds@.len() {
                    r matches Some(e) && e.model@ == d.sounds@[idx as int].model@
                } else {
                    r is None
                },
                None => r is None,
            },
    {
        let devices = match &guest.devices {
            Some(d) => d,
            None => return None,
        };
        if idx >= devices.sounds.len() {
            return None;
        }
        Some(SoundEdit { model: devices.sounds[idx].model.clone() })
    }

    pub fn to_xml(&self) -> (r: String)
        ensures
            r@ == "<sound model='"@ + self.model@ + "'/>"@,
    {
        wrap("<sound model='", self.model.as_str(), "'/>")
    }
}

/// The edits in progress for one VM window.
pub struct DeviceEdits {
    pub overview: Option<DeviceEditState<OverviewEdit>>,
    pub cpu: Option<DeviceEditState<CpuEdit>>,
    pub memory: Option<DeviceEditState<MemoryEdit>>,
    pub boot: Option<DeviceEditState<BootEdit>>,
    pub disk: HashMap<usize, DeviceEditState<DiskEdit>>,
    pub nic: HashMap<usize, DeviceEditState<NicEdit>>,
    pub graphics: HashMap<usize, DeviceEditState<GraphicsEdit>>,
    pub video: HashMap<usize, DeviceEditState<VideoEdit>>,
    pub sound: HashMap<usize, DeviceEditState<SoundEdit>>,
}

impl Default for DeviceEdits {
    fn default() -> (r: Self)
        ensures
            r.overview is None,
            r.cpu is None,
            r.memory is None,
            r.boot is None,
            r.disk@ == Map::<usize, DeviceEditState<DiskEdit>>::empty(),
            r.nic@ == Map::<usize, DeviceEditState<NicEdit>>::empty(),
            r.graphics@ == Map::<usize, DeviceEditState<GraphicsEdit>>::empty(),
            r.video@ == Map::<usize, DeviceEditState<VideoEdit>>::empty(),
            r.sound@ == Map::<usize, DeviceEditState<SoundEdit>>::empty(),
    {
        DeviceEdits {
            overview: None,
            cpu: None,
            memory: None,
            boot: None,
            disk: HashMap::new(),
            nic: HashMap::new(),
            graphics: HashMap::new(),
            video: HashMap::new(),
            sound: HashMap::new(),
        }
    }
}

/// The entries of `m` that hold changes.
pub open spec fn dirty_entries<T>(m: Map<usize, DeviceEditState<T>>) -> Map<usize, DeviceEditState<T>> {
    Map::new(|k: usize| m.contains_key(k) && edit_dirty(m[k]), |k: usize| m[k])
}

/// An optional edit, kept only when it holds changes.
pub open spec fn dirty_edit<T>(o: Option<DeviceEditState<T>>) -> Option<DeviceEditState<T>> {
    match o {
        Some(e) => if edit_dirty(e) {
            Some(e)
        } else {
            None
        },
        None => None,
    }
}

fn drop_clean<T>(o: &mut Option<DeviceEditState<T>>)
    ensures
        *final(o) == dirty_edit(*old(o)),
{
    let clean = match o {
        Some(e) => !e.is_dirty(),
        None => false,
    };
    if clean {
        *o = None;
    }
}

fn retain_dirty<T>(m: &mut HashMap<usize, DeviceEditState<T>>)
    ensures
        final(m)@ == dirty_entries(old(m)@),
{
    broadcast use vstd::std_specs::hash::group_hash_axioms;

    let ghost start = m@;
    let mut keys: Vec<usize> = Vec::new();
    let key_iter = m.keys();
    let ghost all = key_iter.remaining();
    assert(all.unref().to_set() == start.dom());
    for k in it: key_iter
        invariant
            it.seq() == all,
            keys@ == it.seq().take(it.index() as int).map_values(|x: &usize| *x),
    {
        keys.push(*k);
        assert(it.seq().take(it.index() + 1 as int) == it.seq().take(it.index() as int).push(it.seq()[it.index() as int]));
    }
    assert(keys@.to_set() == start.dom()) by {
        assert(keys@ =~= all.map_values(|x: &usize| *x));
        assert(all.unref() =~= all.map_values(|x: &usize| *x));
    }
    let mut i: usize = 0;
    while i < keys.len()
        invariant
            i <= keys@.len(),
            keys@.to_set() == start.dom(),
            m@ == Map::new(
                |k: usize| start.contains_key(k) && (keys@.take(i as int).contains(k) ==> edit_dirty(start[k])),
                |k: usize| start[k],
            ),
        decreases keys.len() - i,
    {
        let k = keys[i];
        assert(keys@.contains(k));
        assert(keys@.to_set().contains(k));
        assert(start.contains_key(k));
        let ghost before = m@;
        let dirty = match m.get(&k) {
            Some(e) => e.is_dirty(),
            None => true,
        };
        if !dirty {
            m.remove(&k);
            assert(m@ == before.remove(k));
        } else {
            assert(m@ == before);
        }
        assert(keys@.take(i + 1) == keys@.take(i as int).push(k));
        assert forall|x: usize| keys@.take(i + 1).contains(x) <==> (keys@.take(i as int).contains(x) || x == k) by {
            let t = keys@.take(i as int);
            if t.push(k).contains(x) {
                let j = choose|j: int| 0 <= j < t.push(k).len() && t.push(k)[j] == x;
                if j < t.len() {
                    assert(t[j] == x);
                }
            }
            if t.contains(x) {
                let j = choose|j: int| 0 <= j < t.len() && t[j] == x;
                assert(t.push(k)[j] == x);
            }
            if x == k {
                assert(t.push(k)[t.len() as int] == x);
            }
        }
        i = i + 1;
        assert(m@ =~= Map::new(
            |x: usize| start.contains_key(x) && (keys@.take(i as int).contains(x) ==> edit_dirty(start[x])),
            |x: usize| start[x],
        ));
    }
    assert(keys@.take(keys@.len() as int) == keys@);
    assert forall|x: usize| start.contains_key(x) implies keys@.contains(x) by {
        assert(keys@.to_set().contains(x));
    }
    assert(m@ =~= dirty_entries(start));
}

impl DeviceEdits {
    /// Drops every edit that holds no changes.
    pub fn clear_clean(&mut self)
        ensures
            final(self).overview == dirty_edit(old(self).overview),
            final(self).cpu == dirty_edit(old(self).cpu),
            final(self).memory == dirty_edit(old(self).memory),
            final(self).boot == dirty_edit(old(self).boot),
            final(self).disk@ == dirty_entries(old(self).disk@),
            final(self).nic@ == dirty_entries(old(self).nic@),
            final(self).graphics@ == dirty_entries(old(self).graphics@),
            final(self).video@ == dirty_entries(old(self).video@),
            final(self).sound@ == dirty_entries(old(self).sound@),
    {
        drop_clean(&mut self.overview);
        drop_clean(&mut self.cpu);
        drop_clean(&mut self.memory);
        drop_clean(&mut self.boot);
        retain_dirty(&mut self.disk);
        retain_dirty(&mut self.nic);
        retain_dirty(&mut self.graphics);
        retain_dirty(&mut self.video);
        retain_dirty(&mut self.sound);
    }
}

/// Dropping the clean edits twice drops nothing more: what `clear_clean`
/// leaves are the edits with changes, and those it keeps.
pub proof fn lemma_clear_clean_idempotent<T>(m: Map<usize, DeviceEditState<T>>, o: Option<DeviceEditState<T>>)
    ensures
        dirty_entries(dirty_entries(m)) == dirty_entries(m),
        dirty_edit(dirty_edit(o)) == dirty_edit(o),
        forall|k: usize| #[trigger] dirty_entries(m).contains_key(k) ==> edit_dirty(dirty_entries(m)[k]),
{
    assert(dirty_entries(dirty_entries(m)) =~= dirty_entries(m));
}

/// A disk applied from the editor keeps the edited cache mode: with a
/// format and a cache mode set, its `<driver>` element names both.
pub proof fn lemma_disk_keeps_cache(e: DiskEdit)
    requires
        e.format@.len() > 0,
        e.cache@.len() > 0,
    ensures
        contains_text(disk_xml(e), "<driver name='qemu' type='"@ + e.format@ + "' cache='"@ + e.cache@ + "'/>"@),
{
    let head = "<disk type='"@ + e.disk_type@ + "' device='"@ + e.device_type@ + "'>"@;
    let pat = "<driver name='qemu' type='"@ + e.format@ + "' cache='"@ + e.cache@ + "'/>"@;
    let driver = "\n      <driver name='qemu' type='"@ + e.format@ + "'"@ + (" cache='"@ + e.cache@ + "'"@) + "/>"@;
    assert(driver =~= "\n      "@ + pat) by {
        reveal_strlit("\n      <driver name='qemu' type='");
        reveal_strlit("<driver name='qemu' type='");
        reveal_strlit("\n      ");
        reveal_strlit("'");
        reveal_strlit(" cache='");
        reveal_strlit("' cache='");
        reveal_strlit("/>");
        reveal_strlit("'/>");
    }
    lemma_contains_self(pat);
    lemma_contains_prepend("\n      "@, pat, pat);
    lemma_contains_prepend(head, driver, pat);
    let src = when(
        e.source_path@.len() > 0,
        if e.disk_type@ == "block"@ {
            "\n      <source dev='"@ + e.source_path@ + "'/>"@
        } else {
            "\n      <source file='"@ + e.source_path@ + "'/>"@
        },
    );
    let x2 = head + driver + src;
    lemma_contains_append(head + driver, src, pat);
    let x3 = x2 + "\n      <target dev='"@;
    lemma_contains_append(x2, "\n      <target dev='"@, pat);
    let x4 = x3 + e.target_dev@;
    lemma_contains_append(x3, e.target_dev@, pat);
    let x5 = x4 + "'"@;
    lemma_contains_append(x4, "'"@, pat);
    let bus = when(e.bus@.len() > 0, " bus='"@ + e.bus@ + "'"@);
    let x6 = x5 + bus;
    lemma_contains_append(x5, bus, pat);
    let x7 = x6 + "/>"@;
    lemma_contains_append(x6, "/>"@, pat);
    let ro = when(e.readonly, "\n      <readonly/>"@);
    let x8 = x7 + ro;
    lemma_contains_append(x7, ro, pat);
    lemma_contains_append(x8, "\n    </disk>"@, pat);
    assert(disk_xml(e) == x8 + "\n    </disk>"@);
}

} // verus!
