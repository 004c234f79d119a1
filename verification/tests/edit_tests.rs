use rust_virt_manager::domain::{OsLoader};
use rust_virt_manager::edit_state::{BootEdit, CpuEdit, DeviceEditState, DeviceEdits, DeviceSubTab, MemoryEdit, OverviewEdit};
use rust_virt_manager::views::device_editors::{
    add_boot_device, addable_boot_devices, apply_boot, apply_cpu, apply_memory, apply_overview,
    build_os_xml, mark_applied, remove_boot_device, swap_boot_devices, toplevel_element_text,
};

const XML: &str = "<domain><name>a</name><memory unit='KiB'>1024</memory><vcpu>2</vcpu><os><type arch='x86_64'>hvm</type><boot dev='hd'/></os><devices/></domain>";

#[test]
fn boot_order_edits() {
    let mut e = DeviceEditState::new(BootEdit { boot_devices: vec!["hd".into(), "cdrom".into()] });
    swap_boot_devices(&mut e, 0, 1);
    assert_eq!(e.fields.boot_devices, vec!["cdrom".to_string(), "hd".to_string()]);
    assert!(e.is_dirty());
    swap_boot_devices(&mut e, 0, 1);
    assert_eq!(e.fields.boot_devices, vec!["hd".to_string(), "cdrom".to_string()]);
    assert_eq!(addable_boot_devices(&e.fields.boot_devices), vec!["network", "fd"]);
    add_boot_device(&mut e, "network");
    remove_boot_device(&mut e, 0);
    assert_eq!(e.fields.boot_devices, vec!["cdrom".to_string(), "network".to_string()]);
    mark_applied(&mut e);
    assert!(!e.is_dirty());
}

#[test]
fn rebuilt_os_element() {
    let loader = Some(OsLoader { path: Some("/fw.fd".into()), readonly: Some("yes".into()), loader_type: Some("pflash".into()), secure: None });
    let os = build_os_xml("<os><type arch='x86_64'>hvm</type><boot dev='hd'/></os>", &vec!["cdrom".to_string()], &loader);
    assert_eq!(os, "<os><type arch='x86_64'>hvm</type>\n    <boot dev='cdrom'/>\n    <loader type='pflash' readonly='yes'>/fw.fd</loader>\n  </os>");
    assert_eq!(build_os_xml("", &vec![], &None), "<os>\n  </os>");
    let e = DeviceEditState::new(BootEdit { boot_devices: vec!["network".into()] });
    assert_eq!(toplevel_element_text(XML, "os"), "<os><type arch='x86_64'>hvm</type><boot dev='hd'/></os>");
    let nested = apply_boot(&e, XML, &None).unwrap();
    assert_eq!(
        nested,
        "<domain><name>a</name><memory unit='KiB'>1024</memory><vcpu>2</vcpu><os><type arch='x86_64'>hvm</type>\n    <boot dev='network'/>\n  </os><devices/></domain>"
    );
    let flat = "<domain><name>a</name><os><boot dev='hd'/></os></domain>";
    assert_eq!(toplevel_element_text(flat, "os"), "<os><boot dev='hd'/></os>");
    let r = apply_boot(&e, flat, &None).unwrap();
    assert_eq!(r, "<domain><name>a</name><os>\n    <boot dev='network'/>\n  </os></domain>");
}

#[test]
fn applied_definitions() {
    let e = DeviceEditState::new(CpuEdit { vcpu_count: 4, current: 4, has_current: false });
    let r = apply_cpu(&e, XML).unwrap();
    assert!(r.contains("<vcpu>4</vcpu>"));
    let mut x = DeviceEditState::new(CpuEdit { vcpu_count: 4, current: 4, has_current: false });
    x.sub_tab = DeviceSubTab::Xml;
    x.device_xml_text = "<vcpu placement='static'>8</vcpu>".into();
    assert!(apply_cpu(&x, XML).unwrap().contains("<vcpu placement='static'>8</vcpu>"));
    let m = DeviceEditState::new(MemoryEdit { max_memory_mib: 2048, current_memory_mib: 1024 });
    let r = apply_memory(&m, XML);
    assert!(r.contains("<memory unit='MiB'>2048</memory>"));
    assert!(!r.contains("currentMemory"));
    let o = DeviceEditState::new(OverviewEdit { name: "b".into(), title: String::new(), description: String::new() });
    assert!(apply_overview(&o, XML).starts_with("<domain><name>b</name>"));
}

#[test]
fn clean_edits_are_dropped() {
    let mut edits = DeviceEdits::default();
    let mut dirty = DeviceEditState::new(CpuEdit { vcpu_count: 1, current: 1, has_current: false });
    dirty.dirty = true;
    edits.cpu = Some(dirty);
    edits.memory = Some(DeviceEditState::new(MemoryEdit { max_memory_mib: 1, current_memory_mib: 1 }));
    edits.clear_clean();
    assert!(edits.cpu.is_some());
    assert!(edits.memory.is_none());
    edits.clear_clean();
    assert!(edits.cpu.is_some());
}
