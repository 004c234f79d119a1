//! What the device editors of a VM window apply: the new definition for the
//! edited fields or XML, and the edits of the boot order.
use vstd::prelude::*;
use vstd::utf8::{decode_utf8, encode_utf8, encode_utf8_decode_utf8};
use crate::domain::OsLoader;
use crate::edit_state::{
    cpu_xml, disk_xml, graphics_xml, nic_xml, overview_parts, video_xml, BootEdit, CpuEdit,
    DeviceEditState, DeviceSubTab, DiskEdit, GraphicsEdit, MemoryEdit, NicEdit, OverviewEdit,
    SoundEdit, VideoEdit,
};
use crate::text::{
    chars_of, decimal, find_chars, find_spec, occurs_at, owned, push_chars, push_str, str_eq,
    string_of_chars, sub_chars,
};
use crate::xml_helpers::{
    devices_misordered, find_toplevel_element, replace_nth_device_element,
    replace_toplevel_element, replaced_device, replaced_toplevel, toplevel_span,
};

verus! {

/// "Apply" or "Revert" done: the edit holds no more changes.
pub fn mark_applied<T>(e: &mut DeviceEditState<T>)
    ensures
        !final(e).dirty,
        !final(e).device_xml_dirty,
        final(e).fields == old(e).fields,
        final(e).sub_tab == old(e).sub_tab,
        final(e).device_xml_text == old(e).device_xml_text,
{
    e.dirty = false;
    e.device_xml_dirty = false;
}

/// `xml` after each `(tag, element)` part replaced the first top-level
/// element of its tag, in order; a part whose tag is missing is skipped.
pub open spec fn apply_parts(xml: Seq<char>, parts: Seq<(Seq<char>, Seq<char>)>) -> Seq<char>
    decreases parts.len(),
{
    if parts.len() == 0 {
        xml
    } else {
        let prev = apply_parts(xml, parts.drop_last());
        match replaced_toplevel(prev, parts.last().0, parts.last().1) {
            Some(r) => r,
            None => prev,
        }
    }
}

/// The definition the overview editor applies: the edited XML as it
/// stands, or `domain_xml` with the name, title and description replaced.
pub open spec fn overview_applied(e: DeviceEditState<OverviewEdit>, domain_xml: Seq<char>) -> Seq<char> {
    if e.sub_tab == DeviceSubTab::Xml {
        e.device_xml_text@
    } else {
        apply_parts(domain_xml, overview_parts(e.fields))
    }
}

pub fn apply_overview(e: &DeviceEditState<OverviewEdit>, domain_xml: &str) -> (r: String)
    ensures
        r@ == overview_applied(*e, domain_xml@),
{
    if e.sub_tab == DeviceSubTab::Xml {
        return e.device_xml_text.clone();
    }
    let parts = e.fields.to_xml_parts();
    let ghost pv = parts@.map_values(|p: (&str, String)| (p.0@, p.1@));
    let mut xml = owned(domain_xml);
    let mut i: usize = 0;
    while i < parts.len()
        invariant
            i <= parts@.len(),
            pv == parts@.map_values(|p: (&str, String)| (p.0@, p.1@)),
            pv == overview_parts(e.fields),
            xml@ == apply_parts(domain_xml@, pv.take(i as int)),
        decreases parts@.len() - i,
    {
        proof {
            assert(pv.take(i + 1).drop_last() =~= pv.take(i as int));
            assert(pv.take(i + 1).last() == pv[i as int]);
        }
        match replace_toplevel_element(xml.as_str(), parts[i].0, parts[i].1.as_str()) {
            Some(r) => {
                xml = r;
            },
            None => {},
        }
        i = i + 1;
    }
    proof {
        assert(pv.take(i as int) =~= pv);
    }
    xml
}

/// The element a device editor applies: the edited XML, or the one the
/// fields describe.
pub open spec fn edited_element<T>(e: DeviceEditState<T>, fields_xml: Seq<char>) -> Seq<char> {
    if e.sub_tab == DeviceSubTab::Xml { e.device_xml_text@ } else { fields_xml }
}

/// The definition the CPU editor applies, when `domain_xml` has a `<vcpu>`.
pub fn apply_cpu(e: &DeviceEditState<CpuEdit>, domain_xml: &str) -> (r: Option<String>)
    ensures
        match r {
            Some(x) => replaced_toplevel(domain_xml@, "vcpu"@, edited_element(*e, cpu_xml(e.fields))) == Some(x@),
            None => replaced_toplevel(domain_xml@, "vcpu"@, edited_element(*e, cpu_xml(e.fields))) is None,
        },
{
    let element = if e.sub_tab == DeviceSubTab::Xml { e.device_xml_text.clone() } else { e.fields.to_xml() };
    replace_toplevel_element(domain_xml, "vcpu", element.as_str())
}

/// The `<memory>` and `<currentMemory>` elements of a memory edit.
pub open spec fn memory_elements(m: MemoryEdit) -> Seq<(Seq<char>, Seq<char>)> {
    seq![
        ("memory"@, "<memory unit='MiB'>"@ + decimal(m.max_memory_mib as nat) + "</memory>"@),
        ("currentMemory"@, "<currentMemory unit='MiB'>"@ + decimal(m.current_memory_mib as nat) + "</currentMemory>"@),
    ]
}

/// The definition the memory editor applies: `domain_xml` with its
/// `<memory>` and then its `<currentMemory>` replaced, where present.
pub fn apply_memory(e: &DeviceEditState<MemoryEdit>, domain_xml: &str) -> (r: String)
    ensures
        r@ == apply_parts(domain_xml@, memory_elements(e.fields)),
{
    let (mem, cur) = e.fields.to_xml();
    let ghost p = memory_elements(e.fields);
    proof {
        assert(p.drop_last().drop_last() =~= Seq::<(Seq<char>, Seq<char>)>::empty());
        assert(p.drop_last().last() == p[0]);
        assert(p.last() == p[1]);
        assert(apply_parts(domain_xml@, p.drop_last().drop_last()) == domain_xml@);
    }
    let mut xml = owned(domain_xml);
    match replace_toplevel_element(xml.as_str(), "memory", mem.as_str()) {
        Some(r) => {
            xml = r;
        },
        None => {},
    }
    assert(xml@ == apply_parts(domain_xml@, p.drop_last()));
    match replace_toplevel_element(xml.as_str(), "currentMemory", cur.as_str()) {
        Some(r) => {
            xml = r;
        },
        None => {},
    }
    xml
}

/// The text of the first top-level `tag` element of `xml`, empty when there
/// is none.
pub open spec fn toplevel_text(xml: Seq<char>, tag: Seq<char>) -> Seq<char> {
    match toplevel_span(xml, tag) {
        Some((s, e)) => decode_utf8(encode_utf8(xml).subrange(s, e)),
        None => Seq::empty(),
    }
}

/// The text of the first top-level `tag_name` element of `domain_xml`, as the
/// XML tab of an editor starts with it.
pub fn toplevel_element_text(domain_xml: &str, tag_name: &str) -> (r: String)
    ensures
        r@ == toplevel_text(domain_xml@, tag_name@),
{
    match find_toplevel_element(domain_xml, tag_name) {
        Some(sp) => {
            proof {
                encode_utf8_decode_utf8(sp.content@);
            }
            sp.content
        },
        None => String::new(),
    }
}

/// The start of a rebuilt `<os>`: everything up to its `</type>`, or a bare
/// `<os>` tag.
pub open spec fn os_head(os_xml: Seq<char>) -> Seq<char> {
    match find_spec(os_xml, "</type>"@) {
        Some(t) => os_xml.take((t + 7) as int),
        None => "<os>"@,
    }
}

/// One `<boot>` line per device, in order.
pub open spec fn boot_lines(devs: Seq<String>) -> Seq<char>
    decreases devs.len(),
{
    if devs.len() == 0 {
        Seq::empty()
    } else {
        boot_lines(devs.drop_last()) + "\n    <boot dev='"@ + devs.last()@ + "'/>"@
    }
}

/// An attribute written only when it has a value.
pub open spec fn opt_attr(lead: Seq<char>, v: Option<String>) -> Seq<char> {
    match v {
        Some(x) => lead + x@ + "'"@,
        None => Seq::empty(),
    }
}

/// The firmware loader line, when the machine has one.
pub open spec fn loader_line(l: Option<OsLoader>) -> Seq<char> {
    match l {
        Some(l) => "\n    <loader"@ + opt_attr(" type='"@, l.loader_type) + opt_attr(" readonly='"@, l.readonly)
            + opt_attr(" secure='"@, l.secure) + match l.path {
                Some(p) => ">"@ + p@ + "</loader>"@,
                None => "/>"@,
            },
        None => Seq::empty(),
    }
}

/// The `<os>` element the boot editor writes: the old one up to its
/// `</type>`, the boot order, the loader.
pub open spec fn new_os_xml(os_xml: Seq<char>, devs: Seq<String>, loader: Option<OsLoader>) -> Seq<char> {
    os_head(os_xml) + boot_lines(devs) + loader_line(loader) + "\n  </os>"@
}

fn push_opt_attr(s: &mut String, lead: &str, v: &Option<String>)
    ensures
        final(s)@ == old(s)@ + opt_attr(lead@, *v),
{
    match v {
        Some(x) => {
            push_str(s, lead);
            push_str(s, x.as_str());
            push_str(s, "'");
        },
        None => {},
    }
}

fn push_loader_line(s: &mut String, l: &Option<OsLoader>)
    ensures
        final(s)@ == old(s)@ + loader_line(*l),
{
    match l {
        Some(l) => {
            push_str(s, "\n    <loader");
            push_opt_attr(s, " type='", &l.loader_type);
            push_opt_attr(s, " readonly='", &l.readonly);
            push_opt_attr(s, " secure='", &l.secure);
            match &l.path {
                Some(p) => {
                    push_str(s, ">");
                    push_str(s, p.as_str());
                    push_str(s, "</loader>");
                },
                None => {
                    push_str(s, "/>");
                },
            }
        },
        None => {},
    }
}

/// The `<os>` element the boot editor writes for the boot order `devs`.
pub fn build_os_xml(os_xml: &str, devs: &Vec<String>, loader: &Option<OsLoader>) -> (r: String)
    ensures
        r@ == new_os_xml(os_xml@, devs@, *loader),
{
    let v = chars_of(os_xml);
    let pat = chars_of("</type>");
    proof {
        reveal_strlit("</type>");
    }
    let mut r = match find_chars(&v, &pat) {
        Some(t) => {
            assert(occurs_at(v@, pat@, t as int));
            assert(pat@.len() == 7);
            assert(t + 7 <= v.len());
            let head = sub_chars(&v, 0, t + 7);
            assert(head@ =~= v@.take(t + 7));
            string_of_chars(&head)
        },
        None => owned("<os>"),
    };
    let mut i: usize = 0;
    let ghost r0 = r@;
    while i < devs.len()
        invariant
            i <= devs@.len(),
            r@ == r0 + boot_lines(devs@.take(i as int)),
        decreases devs@.len() - i,
    {
        proof {
            assert(devs@.take(i + 1).drop_last() =~= devs@.take(i as int));
        }
        push_str(&mut r, "\n    <boot dev='");
        push_str(&mut r, devs[i].as_str());
        push_str(&mut r, "'/>");
        i = i + 1;
    }
    proof {
        assert(devs@.take(i as int) =~= devs@);
    }
    push_loader_line(&mut r, loader);
    push_str(&mut r, "\n  </os>");
    r
}

/// The `<os>` element the boot editor applies.
pub open spec fn boot_element(e: DeviceEditState<BootEdit>, domain_xml: Seq<char>, loader: Option<OsLoader>) -> Seq<char> {
    edited_element(e, new_os_xml(toplevel_text(domain_xml, "os"@), e.fields.boot_devices@, loader))
}

/// The definition the boot editor applies, when `domain_xml` has an `<os>`;
/// `loader` is the machine's firmware loader.
pub fn apply_boot(e: &DeviceEditState<BootEdit>, domain_xml: &str, loader: &Option<OsLoader>) -> (r: Option<String>)
    ensures
        match r {
            Some(x) => replaced_toplevel(domain_xml@, "os"@, boot_element(*e, domain_xml@, *loader)) == Some(x@),
            None => replaced_toplevel(domain_xml@, "os"@, boot_element(*e, domain_xml@, *loader)) is None,
        },
{
    let element = if e.sub_tab == DeviceSubTab::Xml {
        e.device_xml_text.clone()
    } else {
        let os_xml = toplevel_element_text(domain_xml, "os");
        build_os_xml(os_xml.as_str(), &e.fields.boot_devices, loader)
    };
    replace_toplevel_element(domain_xml, "os", element.as_str())
}

/// The definition the disk editor applies to device `idx` of its kind, when
/// `domain_xml` has one.
pub fn apply_disk(e: &DeviceEditState<DiskEdit>, domain_xml: &str, idx: usize) -> (r: Option<String>)
    requires
        !devices_misordered(domain_xml@),
    ensures
        match r {
            Some(x) => replaced_device(domain_xml@, "disk"@, idx as nat, edited_element(*e, disk_xml(e.fields))) == Some(x@),
            None => replaced_device(domain_xml@, "disk"@, idx as nat, edited_element(*e, disk_xml(e.fields))) is None,
        },
{
    let element = if e.sub_tab == DeviceSubTab::Xml { e.device_xml_text.clone() } else { e.fields.to_xml() };
    replace_nth_device_element(domain_xml, "disk", idx, element.as_str())
}

/// The definition the nic editor applies to device `idx` of its kind, when
/// `domain_xml` has one.
pub fn apply_nic(e: &DeviceEditState<NicEdit>, domain_xml: &str, idx: usize) -> (r: Option<String>)
    requires
        !devices_misordered(domain_xml@),
    ensures
        match r {
            Some(x) => replaced_device(domain_xml@, "interface"@, idx as nat, edited_element(*e, nic_xml(e.fields))) == Some(x@),
            None => replaced_device(domain_xml@, "interface"@, idx as nat, edited_element(*e, nic_xml(e.fields))) is None,
        },
{
    let element = if e.sub_tab == DeviceSubTab::Xml { e.device_xml_text.clone() } else { e.fields.to_xml() };
    replace_nth_device_element(domain_xml, "interface", idx, element.as_str())
}

/// The definition the graphics editor applies to device `idx` of its kind, when
/// `domain_xml` has one.
pub fn apply_graphics(e: &DeviceEditState<GraphicsEdit>, domain_xml: &str, idx: usize) -> (r: Option<String>)
    requires
        !devices_misordered(domain_xml@),
    ensures
        match r {
            Some(x) => replaced_device(domain_xml@, "graphics"@, idx as nat, edited_element(*e, graphics_xml(e.fields))) == Some(x@),
            None => replaced_device(domain_xml@, "graphics"@, idx as nat, edited_element(*e, graphics_xml(e.fields))) is None,
        },
{
    let element = if e.sub_tab == DeviceSubTab::Xml { e.device_xml_text.clone() } else { e.fields.to_xml() };
    replace_nth_device_element(domain_xml, "graphics", idx, element.as_str())
}

/// The definition the video editor applies to device `idx` of its kind, when
/// `domain_xml` has one.
pub fn apply_video(e: &DeviceEditState<VideoEdit>, domain_xml: &str, idx: usize) -> (r: Option<String>)
    requires
        !devices_misordered(domain_xml@),
    ensures
        match r {
            Some(x) => replaced_device(domain_xml@, "video"@, idx as nat, edited_element(*e, video_xml(e.fields))) == Some(x@),
            None => replaced_device(domain_xml@, "video"@, idx as nat, edited_element(*e, video_xml(e.fields))) is None,
        },
{
    let element = if e.sub_tab == DeviceSubTab::Xml { e.device_xml_text.clone() } else { e.fields.to_xml() };
    replace_nth_device_element(domain_xml, "video", idx, element.as_str())
}

/// The definition the sound editor applies to device `idx` of its kind, when
/// `domain_xml` has one.
pub fn apply_sound(e: &DeviceEditState<SoundEdit>, domain_xml: &str, idx: usize) -> (r: Option<String>)
    requires
        !devices_misordered(domain_xml@),
    ensures
        match r {
            Some(x) => replaced_device(domain_xml@, "sound"@, idx as nat, edited_element(*e, "<sound model='"@ + e.fields.model@ + "'/>"@)) == Some(x@),
            None => replaced_device(domain_xml@, "sound"@, idx as nat, edited_element(*e, "<sound model='"@ + e.fields.model@ + "'/>"@)) is None,
        },
{
    let element = if e.sub_tab == DeviceSubTab::Xml { e.device_xml_text.clone() } else { e.fields.to_xml() };
    replace_nth_device_element(domain_xml, "sound", idx, element.as_str())
}

/// The up and down arrows of the boot order: devices `a` and `b` trade
/// places.
pub fn swap_boot_devices(e: &mut DeviceEditState<BootEdit>, a: usize, b: usize)
    requires
        a < old(e).fields.boot_devices@.len(),
        b < old(e).fields.boot_devices@.len(),
    ensures
        final(e).fields.boot_devices@ == old(e).fields.boot_devices@.update(a as int, old(e).fields.boot_devices@[b as int]).update(
            b as int,
            old(e).fields.boot_devices@[a as int],
        ),
        final(e).dirty,
        final(e).device_xml_dirty == old(e).device_xml_dirty,
        final(e).sub_tab == old(e).sub_tab,
        final(e).device_xml_text == old(e).device_xml_text,
{
    let xa = e.fields.boot_devices[a].clone();
    let xb = e.fields.boot_devices[b].clone();
    e.fields.boot_devices.set(a, xb);
    e.fields.boot_devices.set(b, xa);
    e.dirty = true;
}

/// The cross of a boot device.
pub fn remove_boot_device(e: &mut DeviceEditState<BootEdit>, i: usize)
    requires
        i < old(e).fields.boot_devices@.len(),
    ensures
        final(e).fields.boot_devices@ == old(e).fields.boot_devices@.remove(i as int),
        final(e).dirty,
        final(e).device_xml_dirty == old(e).device_xml_dirty,
        final(e).sub_tab == old(e).sub_tab,
        final(e).device_xml_text == old(e).device_xml_text,
{
    e.fields.boot_devices.remove(i);
    e.dirty = true;
}

/// The boot devices the editor knows.
pub open spec fn known_boot_devices() -> Seq<Seq<char>> {
    seq!["hd"@, "cdrom"@, "network"@, "fd"@]
}

/// The known boot devices not in the boot order yet, in the known order.
pub open spec fn addable_spec(devs: Seq<String>) -> Seq<Seq<char>> {
    known_boot_devices().filter(|d: Seq<char>| !exists|i: int| 0 <= i < devs.len() && devs[i]@ == d)
}

fn contains_text(devs: &Vec<String>, d: &str) -> (r: bool)
    ensures
        r == exists|i: int| 0 <= i < devs@.len() && devs@[i]@ == d@,
{
    let mut i: usize = 0;
    while i < devs.len()
        invariant
            i <= devs@.len(),
            forall|j: int| 0 <= j < i ==> devs@[j]@ != d@,
        decreases devs@.len() - i,
    {
        if str_eq(devs[i].as_str(), d) {
            return true;
        }
        i = i + 1;
    }
    false
}

/// The devices offered by "Add boot device".
pub fn addable_boot_devices(devs: &Vec<String>) -> (r: Vec<&'static str>)
    ensures
        r@.map_values(|s: &str| s@) == addable_spec(devs@),
{
    let known: Vec<&'static str> = vec!["hd", "cdrom", "network", "fd"];
    let ghost kv = known@.map_values(|s: &str| s@);
    assert(kv =~= known_boot_devices());
    let mut r: Vec<&'static str> = Vec::new();
    let mut i: usize = 0;
    while i < known.len()
        invariant
            i <= known@.len(),
            kv == known@.map_values(|s: &str| s@),
            kv == known_boot_devices(),
            r@.map_values(|s: &str| s@) == kv.take(i as int).filter(
                |d: Seq<char>| !exists|j: int| 0 <= j < devs@.len() && devs@[j]@ == d,
            ),
        decreases known@.len() - i,
    {
        proof {
            assert(kv.take(i + 1).drop_last() =~= kv.take(i as int));
            reveal(Seq::filter);
            assert(kv.take(i + 1).last() == kv[i as int]);
        }
        let ghost before = r@;
        if !contains_text(devs, known[i]) {
            r.push(known[i]);
            proof {
                assert(r@.map_values(|s: &str| s@) =~= before.map_values(|s: &str| s@).push(kv[i as int]));
            }
        }
        i = i + 1;
    }
    proof {
        assert(kv.take(i as int) =~= kv);
    }
    r
}

/// An entry of "Add boot device" picked.
pub fn add_boot_device(e: &mut DeviceEditState<BootEdit>, dev: &str)
    ensures
        final(e).fields.boot_devices@.len() == old(e).fields.boot_devices@.len() + 1,
        final(e).fields.boot_devices@.take(old(e).fields.boot_devices@.len() as int) == old(e).fields.boot_devices@,
        final(e).fields.boot_devices@.last()@ == dev@,
        final(e).dirty,
        final(e).device_xml_dirty == old(e).device_xml_dirty,
        final(e).sub_tab == old(e).sub_tab,
        final(e).device_xml_text == old(e).device_xml_text,
{
    let ghost before = e.fields.boot_devices@;
    e.fields.boot_devices.push(owned(dev));
    e.dirty = true;
    assert(e.fields.boot_devices@.take(before.len() as int) =~= before);
}

/// Moving a boot device up and back down again restores the boot order.
pub proof fn lemma_swap_twice(s: Seq<String>, a: int, b: int)
    requires
        0 <= a < s.len(),
        0 <= b < s.len(),
    ensures
        ({
            let t = s.update(a, s[b]).update(b, s[a]);
            t.update(a, t[b]).update(b, t[a]) == s
        }),
{
    let t = s.update(a, s[b]).update(b, s[a]);
    assert(t.update(a, t[b]).update(b, t[a]) =~= s);
}

} // verus!
