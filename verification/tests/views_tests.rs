use rust_virt_manager::backend::{BackendCommand, DomainAction, StoragePoolSummary};
use rust_virt_manager::domain::DomainState;
use rust_virt_manager::state::{
    AddConnectionState, BrowseTarget, CreateVmState, CreateVolumeState, Hypervisor,
    MigrateState, VolumeBrowserState,
};
use rust_virt_manager::views::add_hardware::{
    add_hardware_command, apply_hardware, hardware_device_xml, take_browsed_disk, AddHardwareState,
    HwType,
};
use rust_virt_manager::views::clone_vm::{
    clone_command, count_macs, format_mac, generate_mac, rewrite_clone_xml, CloneDiskStrategy,
};
use rust_virt_manager::views::create_network::{
    create_network_command, create_network_xml, prefix_to_netmask, CreateNetworkState,
};
use rust_virt_manager::views::create_pool::{create_pool_command, CreatePoolState};
use rust_virt_manager::views::create_vm::{
    active_pool_names, create_vm_command, create_vm_xml, disk_pool_path, OsPreset,
};
use rust_virt_manager::views::create_volume::create_volume_commands;
use rust_virt_manager::views::manager::{
    connect_outcome, connection_row_label, domain_context_actions, domain_row_label,
    migrate_command, migration_targets, pause_button_action, remove_saved_uri, toolbar_state,
    ConnectOutcome,
};
use rust_virt_manager::views::snapshots::{
    chrono_from_ts, create_snapshot_command, default_snapshot_name, delete_snapshot_command,
};
use rust_virt_manager::views::vm_window::{
    brighten, ctrl_alt_del, ctrl_alt_fkey, vm_window_key, vnc_connect_step, TunnelState, VncAction,
};
use rust_virt_manager::console::ConsoleStatus;
use rust_virt_manager::state::ConnectionState;

fn pool(name: &str, active: bool, xml: &str) -> StoragePoolSummary {
    StoragePoolSummary {
        name: name.into(),
        uuid: String::new(),
        active,
        autostart: false,
        capacity: 0,
        allocation: 0,
        available: 0,
        xml: xml.into(),
    }
}

#[test]
fn os_presets() {
    assert_eq!(OsPreset::Windows11.recommended_vcpus(), 4);
    assert_eq!(OsPreset::Windows10.recommended_memory_mib(), 4096);
    assert_eq!(OsPreset::Windows10.recommended_disk_gib(), 40);
    assert_eq!(OsPreset::Debian.recommended_disk_gib(), 20);
    assert!(OsPreset::Windows11.needs_uefi());
    assert!(!OsPreset::FreeBSD.use_virtio());
    assert_eq!(OsPreset::CentOS.label(), "CentOS / RHEL");
    assert_eq!(OsPreset::all().len(), 11);
}

#[test]
fn new_vm_definition() {
    let mut vm = CreateVmState::default();
    vm.name = "web".into();
    vm.iso_path = "/iso/deb.iso".into();
    let xml = create_vm_xml(&vm, "/pool");
    assert_eq!(
        xml,
        "<domain type='kvm'><name>web</name><memory unit='KiB'>2097152</memory><vcpu>2</vcpu><os><type arch='x86_64' machine='pc-q35-9.0'>hvm</type><boot dev='cdrom'/><boot dev='hd'/></os><devices><disk type='file' device='disk'><driver name='qemu' type='qcow2'/><source file='/pool/web.qcow2'/><target dev='vda' bus='virtio'/></disk><disk type='file' device='cdrom'><driver name='qemu' type='raw'/><source file='/iso/deb.iso'/><target dev='sdb' bus='sata'/><readonly/></disk><interface type='network'><source network='default'/><model type='virtio'/></interface><graphics type='vnc' port='-1' autoport='yes'/><video><model type='virtio' heads='1'/></video><input type='tablet' bus='usb'/><console type='pty'/></devices></domain>"
    );
    vm.os_preset = OsPreset::Windows11;
    vm.create_disk = false;
    vm.install_method = 2;
    let xml = create_vm_xml(&vm, "/pool");
    assert!(xml.contains("<loader readonly='yes' type='pflash'>/usr/share/edk2/x64/OVMF_CODE.fd</loader>"));
    assert!(xml.contains("<tpm model='tpm-crb'><backend type='emulator' version='2.0'/></tpm>"));
    assert!(!xml.contains("<disk"));
}

#[test]
fn pool_directory_for_new_disks() {
    let pools = vec![
        pool("other", true, "<pool><target><path>/other</path></target></pool>"),
        pool("default", true, "<pool><target><path>/var/lib/libvirt/images</path></target></pool>"),
        pool("nopath", false, "<pool/>"),
    ];
    assert_eq!(disk_pool_path(&pools, "other"), "/other");
    assert_eq!(disk_pool_path(&pools, "nopath"), "/var/lib/libvirt/images");
    assert_eq!(disk_pool_path(&pools, "missing"), "/var/lib/libvirt/images");
    assert_eq!(active_pool_names(&pools), vec!["other".to_string(), "default".to_string()]);
    let mut vm = CreateVmState::default();
    vm.target_pool = "other".into();
    vm.name = "a".into();
    match create_vm_command(&vm, &pools) {
        BackendCommand::DefineXml(uri, xml) => {
            assert_eq!(uri, "qemu:///system");
            assert!(xml.contains("<source file='/other/a.qcow2'/>"));
        }
        other => panic!("unexpected {:?}", other),
    }
}

#[test]
fn netmasks() {
    assert_eq!(prefix_to_netmask(24), "255.255.255.0");
    assert_eq!(prefix_to_netmask(20), "255.255.240.0");
    assert_eq!(prefix_to_netmask(1), "128.0.0.0");
    assert_eq!(prefix_to_netmask(32), "255.255.255.255");
    assert_eq!(prefix_to_netmask(40), "255.255.255.255");
}

#[test]
fn network_definition() {
    let mut n = CreateNetworkState::default();
    n.name = "lab".into();
    n.domain_name = "  lab.local ".into();
    n.dns_forwarder_input = " 8.8.8.8 ".into();
    n.add_dns_forwarder();
    assert_eq!(n.dns_forwarders, vec!["8.8.8.8".to_string()]);
    assert_eq!(n.dns_forwarder_input, "");
    n.add_port_forward();
    n.port_forwards[0].host_port = "8080".into();
    n.port_forwards[0].guest_port = "80".into();
    n.port_forwards[0].guest_ip = "192.168.100.5".into();
    n.add_port_forward();
    let xml = create_network_xml(&n);
    assert_eq!(
        xml,
        "<network><name>lab</name><forward mode='nat'><nat><port start='8080' end='80'/></nat><!-- tcp 8080-> address='192.168.100.5':80 --></forward><domain name='lab.local'/><dns><forwarder addr='8.8.8.8'/></dns><ip address='192.168.100.1' netmask='255.255.255.0'><dhcp><range start='192.168.100.128' end='192.168.100.254'/></dhcp></ip></network>"
    );
    n.remove_port_forward(0);
    n.remove_dns_forwarder(0);
    n.forward_mode = 3;
    n.enable_ipv6 = true;
    n.enable_dhcp = false;
    n.ipv4_network = "10.0.0.0/8".into();
    match create_network_command(&n) {
        BackendCommand::CreateNetwork(_, xml) => assert_eq!(
            xml,
            "<network><name>lab</name><domain name='lab.local'/><ip address='10.0.0.1' netmask='255.0.0.0'></ip><ip family='ipv6' address='fd00::1' prefix='64'></ip></network>"
        ),
        other => panic!("unexpected {:?}", other),
    }
}

#[test]
fn pool_and_volume_definitions() {
    let mut p = CreatePoolState::default();
    p.name = "nfs".into();
    p.pool_type = 2;
    p.source_host = "nas".into();
    p.source_path = "/export".into();
    p.target_path = "/mnt/nfs".into();
    match create_pool_command(&p) {
        BackendCommand::CreateStoragePool(_, xml) => assert_eq!(
            xml,
            "<pool type='netfs'><name>nfs</name><source><host name='nas'/><dir path='/export'/></source><target><path>/mnt/nfs</path></target></pool>"
        ),
        other => panic!("unexpected {:?}", other),
    }
    let mut v = CreateVolumeState::default();
    v.uri = "qemu:///system".into();
    v.pool_name = "default".into();
    v.name = "  ".into();
    assert!(create_volume_commands(&v).is_none());
    v.name = " disk1 ".into();
    v.capacity_gib = 2;
    match create_volume_commands(&v) {
        Some((BackendCommand::CreateVolume(_, pool, xml), BackendCommand::ListVolumes(_, pool2))) => {
            assert_eq!(pool, "default");
            assert_eq!(pool2, "default");
            assert_eq!(
                xml,
                "<volume>\n  <name>disk1</name>\n  <capacity unit='bytes'>2147483648</capacity>\n  <target>\n    <format type='qcow2'/>\n  </target>\n</volume>"
            );
        }
        other => panic!("unexpected {:?}", other),
    }
}

#[test]
fn clone_definitions() {
    assert_eq!(format_mac(0, 171, 255), "52:54:00:00:ab:ff");
    let m = generate_mac();
    assert_eq!(m.len(), 17);
    assert!(m.starts_with("52:54:00:"));
    let xml = "<domain><name>a</name><uuid>u-1</uuid><devices><interface><mac address='11'/></interface><interface><mac address='22'/></interface></devices></domain>";
    assert_eq!(count_macs(xml), 2);
    let out = rewrite_clone_xml(xml, "b", "u-2", &vec!["m1".to_string(), "m2".to_string()]).unwrap();
    assert_eq!(
        out,
        "<domain><name>b</name><uuid>u-2</uuid><devices><interface><mac address='m1'/></interface><interface><mac address='m2'/></interface></devices></domain>"
    );
    assert!(rewrite_clone_xml(xml, "b", "u-2", &vec!["m1".to_string()]).is_none());
    assert!(clone_command("qemu:///system", "", "b").is_none());
    match clone_command("qemu:///system", xml, "b") {
        Some(BackendCommand::DefineXml(uri, x)) => {
            assert_eq!(uri, "qemu:///system");
            assert!(x.starts_with("<domain><name>b</name><uuid>"));
            assert_eq!(count_macs(&x), 2);
            assert!(!x.contains("'11'"));
        }
        other => panic!("unexpected {:?}", other),
    }
    assert_eq!(CloneDiskStrategy::Share.label(), "Share disk (read-only)");
}

#[test]
fn added_hardware() {
    let mut hw = AddHardwareState::default();
    assert_eq!(hardware_device_xml(&hw, "vm"),
        "<disk type='file' device='disk'><driver name='qemu' type='qcow2'/><source file='/var/lib/libvirt/images/vm-added.qcow2'/><target dev='vdb' bus='virtio'/></disk>");
    hw.selected_type = HwType::Nic;
    hw.nic_type = "bridge".into();
    hw.nic_source = "br0".into();
    assert_eq!(hardware_device_xml(&hw, "vm"), "<interface type='bridge'><source bridge='br0'/><model type='virtio'/></interface>");
    hw.selected_type = HwType::Rng;
    assert_eq!(hardware_device_xml(&hw, "vm"), "<rng model='virtio'><backend model='random'>/dev/urandom</backend></rng>");
    hw.selected_type = HwType::Serial;
    match add_hardware_command(&hw, "qemu:///system", "vm", "<domain><devices></devices></domain>") {
        BackendCommand::DefineXml(_, x) => assert_eq!(x, "<domain><devices><serial type='pty'><target port='0'/></serial></devices></domain>"),
        other => panic!("unexpected {:?}", other),
    }
    assert_eq!(HwType::Tpm.label(), "🔐 TPM");
    let mut vb = VolumeBrowserState::default();
    vb.target = BrowseTarget::AddHwDisk;
    vb.selected_path = Some("/p/x.qcow2".into());
    take_browsed_disk(&mut hw, &mut vb);
    assert_eq!(hw.disk_path, "/p/x.qcow2");
    assert!(!hw.disk_create_new);
    assert!(vb.selected_path.is_none());
}

#[test]
fn snapshots_tab() {
    assert_eq!(default_snapshot_name(2), "snapshot3");
    assert_eq!(chrono_from_ts(0), "Unknown");
    assert_eq!(chrono_from_ts(-5), "-5");
    match create_snapshot_command("u", "vm", "s1", "before upgrade") {
        BackendCommand::CreateSnapshot(_, d, x) => {
            assert_eq!(d, "vm");
            assert_eq!(x, "<domainsnapshot><name>s1</name><description>before upgrade</description></domainsnapshot>");
            let read = rust_virt_manager::backend::extract_xml_text(&x, "description");
            assert_eq!(read, Some("before upgrade".to_string()));
        }
        other => panic!("unexpected {:?}", other),
    }
    let mut sel = Some("s1".to_string());
    assert!(matches!(delete_snapshot_command("u", "vm", &mut sel), Some(BackendCommand::DeleteSnapshot(_, _, _))));
    assert!(sel.is_none());
    assert!(delete_snapshot_command("u", "vm", &mut sel).is_none());
}

#[test]
fn main_window_rules() {
    let t = toolbar_state(true, Some(DomainState::Shutoff));
    assert!(t.can_start && !t.can_pause && !t.can_shutdown);
    let t = toolbar_state(true, Some(DomainState::Running));
    assert!(!t.can_start && t.can_pause && t.can_shutdown);
    let t = toolbar_state(false, Some(DomainState::Running));
    assert!(!t.can_start && !t.can_pause && !t.can_shutdown);
    assert_eq!(pause_button_action(Some(DomainState::Paused)), DomainAction::Resume);
    assert_eq!(pause_button_action(Some(DomainState::Running)), DomainAction::Pause);
    assert_eq!(domain_context_actions(DomainState::Paused), vec![DomainAction::Resume, DomainAction::Shutdown, DomainAction::Reboot, DomainAction::ForceOff]);
    assert_eq!(domain_context_actions(DomainState::Shutoff), vec![DomainAction::Start]);
    assert_eq!(domain_row_label(DomainState::Running, "vm"), "    ▶ vm");
    assert_eq!(domain_row_label(DomainState::Crashed, "vm"), "    ? vm");
    assert_eq!(connection_row_label(true, "QEMU/KVM", ConnectionState::Connecting), "▼ QEMU/KVM (connecting...)");
    assert_eq!(connection_row_label(false, "QEMU/KVM", ConnectionState::Active), "▶ QEMU/KVM");
}

#[test]
fn connection_dialog() {
    let mut a = AddConnectionState::default();
    assert_eq!(a.generated_uri(), "qemu:///system");
    a.set_connect_remote(true);
    assert_eq!(a.username, "root");
    assert!(!a.autoconnect);
    a.hostname = "h.example".into();
    assert_eq!(a.generated_uri(), "qemu+ssh://root@h.example/system");
    a.select_hypervisor(Hypervisor::QemuSession);
    assert!(!a.connect_remote);
    assert_eq!(a.generated_uri(), "qemu:///session");
    a.select_hypervisor(Hypervisor::Xen);
    assert_eq!(a.generated_uri(), "xen:///system");
    let listed = vec!["qemu:///system".to_string()];
    match connect_outcome(&a, &listed, &vec![]) {
        ConnectOutcome::Add { uri, save } => {
            assert_eq!(uri, "xen:///system");
            assert!(!save);
        }
        other => panic!("unexpected {:?}", other),
    }
    a.set_connect_remote(true);
    a.hostname = String::new();
    match connect_outcome(&a, &listed, &vec![]) {
        ConnectOutcome::Refused(m) => assert_eq!(m, "A hostname is required for remote connections."),
        other => panic!("unexpected {:?}", other),
    }
    a.reset();
    assert!(matches!(connect_outcome(&a, &listed, &vec![]), ConnectOutcome::Nothing));
    a.hypervisor = Hypervisor::CustomUri;
    a.custom_uri = "test:///default".into();
    assert_eq!(a.generated_uri(), "test:///default");
    let mut saved = vec!["a".to_string(), "b".to_string(), "a".to_string()];
    remove_saved_uri(&mut saved, "a");
    assert_eq!(saved, vec!["b".to_string()]);
}

#[test]
fn migration() {
    let uris = vec!["qemu:///system".to_string(), "qemu+ssh://h/system".to_string()];
    assert_eq!(migration_targets(&uris, "qemu:///system"), vec!["qemu+ssh://h/system".to_string()]);
    let mut m = MigrateState::default();
    m.uri = "qemu:///system".into();
    m.domain_name = "vm".into();
    m.dest_uri = "qemu+ssh://h/system".into();
    assert!(matches!(migrate_command(&m), BackendCommand::MigrateDomain(_, _, _, 1)));
    m.live = false;
    assert!(matches!(migrate_command(&m), BackendCommand::MigrateDomain(_, _, _, 0)));
}

#[test]
fn vm_window_rules() {
    assert_eq!(vm_window_key("qemu:///system", "vm"), "qemu:///system+vm");
    assert_eq!(ctrl_alt_del(), vec![(0xffe3, true), (0xffe9, true), (0xffff, true), (0xffff, false), (0xffe9, false), (0xffe3, false)]);
    assert_eq!(ctrl_alt_fkey(3)[2], (0xffc0, true));
    assert_eq!(brighten((10, 250, 0, 7)), (70, 255, 60, 7));
    let step = vnc_connect_step(false, None, 0, true, true, Some(5900), false, TunnelState::Absent, &None);
    assert!(!step.reset_handle);
    match step.action {
        VncAction::Connect { host, port } => {
            assert_eq!(host, "127.0.0.1");
            assert_eq!(port, 5900);
        }
        other => panic!("unexpected {:?}", other),
    }
    let failed = ConsoleStatus::Error("x".into());
    let step = vnc_connect_step(false, Some(&failed), 5, true, true, Some(5900), false, TunnelState::Absent, &None);
    assert!(matches!(step.action, VncAction::Nothing));
    let step = vnc_connect_step(false, Some(&failed), 2, true, true, Some(5900), true, TunnelState::NotReady, &None);
    assert!(step.reset_handle);
    assert!(matches!(step.action, VncAction::WaitForTunnel));
    let remote = rust_virt_manager::uri::LibvirtUri::parse("qemu+ssh://root@h/system").ok();
    let step = vnc_connect_step(false, None, 0, true, true, Some(5901), true, TunnelState::Absent, &remote);
    match step.action {
        VncAction::OpenTunnel { username, hostname, remote_port } => {
            assert_eq!(username, Some("root".to_string()));
            assert_eq!(hostname, "h");
            assert_eq!(remote_port, 5901);
        }
        other => panic!("unexpected {:?}", other),
    }
    assert!(matches!(vnc_connect_step(true, None, 0, true, true, Some(5900), false, TunnelState::Absent, &None).action, VncAction::Nothing));
}

#[test]
fn add_hardware_apply_step() {
    let mut hw = AddHardwareState::default();
    hw.open = true;
    hw.vm_key = "qemu:///system+vm".to_string();
    hw.selected_type = HwType::Disk;
    hw.disk_bus = "scsi".to_string();
    hw.disk_create_new = false;
    hw.disk_path = "/img/x.qcow2".to_string();
    let mut gone = AddHardwareState::default();
    gone.open = true;
    gone.vm_key = "other".to_string();
    assert!(apply_hardware(&mut gone, None, "<domain><devices></devices></domain>").is_none());
    assert!(gone.open && gone.vm_key == "other");
    let expected = add_hardware_command(&hw, "qemu:///system", "vm", "<domain><devices></devices></domain>");
    let sent = apply_hardware(&mut hw, Some(("qemu:///system", "vm")), "<domain><devices></devices></domain>");
    match (sent, expected) {
        (Some(BackendCommand::DefineXml(u, x)), BackendCommand::DefineXml(_, y)) => {
            assert_eq!(u, "qemu:///system");
            assert_eq!(x, y);
            assert!(x.contains("target dev='sdb'"));
        }
        other => panic!("unexpected {:?}", other),
    }
    assert!(!hw.open);
    assert!(hw.vm_key.is_empty());
    assert_eq!(hw.disk_bus, "virtio");
    assert!(hw.disk_create_new);
}
