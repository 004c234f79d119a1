use rust_virt_manager::views::add_hardware::inject_device_into_xml;
use rust_virt_manager::xml_helpers::{
    element_range_in_events, find_nth_device_element, find_toplevel_element,
    remove_nth_device_element, replace_nth_device_element, replace_toplevel_element,
};
use rust_virt_manager::xml_scan::XmlEventKind;

const XML: &str = "<domain><name>vm</name><vcpu>2</vcpu><devices><disk type='file'><source file='/a.qcow2'/></disk><disk type='file'><source file='/b.qcow2'/></disk><interface type='network'/></devices></domain>";

#[test]
fn finds_nth_device() {
    let span = find_nth_device_element(XML, "disk", 1).unwrap();
    assert_eq!(span.content, "<disk type='file'><source file='/b.qcow2'/></disk>");
    assert_eq!(&XML[span.start..span.end], span.content);
    let nic = find_nth_device_element(XML, "interface", 0).unwrap();
    assert_eq!(nic.content, "<interface type='network'/>");
    assert!(find_nth_device_element(XML, "disk", 2).is_none());
    assert!(find_nth_device_element(XML, "sound", 0).is_none());
}

#[test]
fn replaces_nth_device() {
    let r = replace_nth_device_element(XML, "disk", 0, "<disk/>").unwrap();
    assert_eq!(
        r,
        "<domain><name>vm</name><vcpu>2</vcpu><devices><disk/><disk type='file'><source file='/b.qcow2'/></disk><interface type='network'/></devices></domain>"
    );
    assert!(replace_nth_device_element(XML, "video", 0, "<video/>").is_none());
}

#[test]
fn replacing_a_device_by_itself_changes_nothing() {
    for n in 0..2 {
        let span = find_nth_device_element(XML, "disk", n).unwrap();
        let r = replace_nth_device_element(XML, "disk", n, &span.content).unwrap();
        assert_eq!(r, XML);
    }
    let span = find_toplevel_element(XML, "vcpu").unwrap();
    assert_eq!(replace_toplevel_element(XML, "vcpu", &span.content).unwrap(), XML);
}

#[test]
fn removes_device_with_its_line() {
    let xml = "<domain><devices>\n  <disk/>\n  <disk x='1'/>\n</devices></domain>";
    let r = remove_nth_device_element(xml, "disk", 0).unwrap();
    assert_eq!(r, "<domain><devices>\n  <disk x='1'/>\n</devices></domain>");
    assert!(remove_nth_device_element(xml, "disk", 5).is_none());
}

#[test]
fn replaces_toplevel_element() {
    let span = find_toplevel_element(XML, "vcpu").unwrap();
    assert_eq!(span.content, "<vcpu>2</vcpu>");
    let r = replace_toplevel_element(XML, "vcpu", "<vcpu>4</vcpu>").unwrap();
    assert!(r.contains("<vcpu>4</vcpu>"));
    assert!(!r.contains("<vcpu>2</vcpu>"));
    assert!(replace_toplevel_element(XML, "title", "<title/>").is_none());
}

#[test]
fn injects_device_before_last_devices_end() {
    let r = inject_device_into_xml("<domain><devices><disk/></devices></domain>", "<sound model='ich9'/>");
    assert_eq!(r, "<domain><devices><disk/><sound model='ich9'/></devices></domain>");
    assert_eq!(inject_device_into_xml("<domain/>", "<sound/>"), "<domain/>");
}

#[test]
fn finds_devices_with_nested_content() {
    let xml = "<domain><devices><video><model type='virtio'><acceleration accel3d='yes'/></model></video><video><model type='qxl'>x</model><address/></video></devices></domain>";
    let first = find_nth_device_element(xml, "video", 0).unwrap();
    assert_eq!(first.content, "<video><model type='virtio'><acceleration accel3d='yes'/></model></video>");
    assert_eq!(&xml[first.start..first.end], first.content);
    let second = find_nth_device_element(xml, "video", 1).unwrap();
    assert_eq!(second.content, "<video><model type='qxl'>x</model><address/></video>");
    assert!(find_nth_device_element(xml, "video", 2).is_none());
    assert!(find_nth_device_element(xml, "model", 0).is_none());
}

#[test]
fn replaces_toplevel_element_with_children() {
    let xml = "<domain><os><type>hvm</type><boot dev='hd'/></os></domain>";
    assert_eq!(find_toplevel_element(xml, "os").unwrap().content, "<os><type>hvm</type><boot dev='hd'/></os>");
    assert_eq!(
        replace_toplevel_element(xml, "os", "<os><boot dev='cdrom'/></os>").unwrap(),
        "<domain><os><boot dev='cdrom'/></os></domain>"
    );
}

#[test]
fn element_search_over_given_events() {
    let ev = |k: XmlEventKind, n: &str, end: u64| (k, n.to_string(), end);
    // <d><v><m>t</m></v><v/></d>
    let evs = vec![
        ev(XmlEventKind::Start, "d", 3),
        ev(XmlEventKind::Start, "v", 6),
        ev(XmlEventKind::Start, "m", 9),
        ev(XmlEventKind::Other, "", 10),
        ev(XmlEventKind::End, "m", 14),
        ev(XmlEventKind::End, "v", 18),
        ev(XmlEventKind::Empty, "v", 22),
        ev(XmlEventKind::End, "d", 26),
        ev(XmlEventKind::Eof, "", 26),
    ];
    assert_eq!(element_range_in_events(&evs, "v", 0), Some((3, 18)));
    assert_eq!(element_range_in_events(&evs, "v", 1), Some((18, 22)));
    assert_eq!(element_range_in_events(&evs, "v", 2), None);
    assert_eq!(element_range_in_events(&evs[..4].to_vec(), "v", 0), None);
}
