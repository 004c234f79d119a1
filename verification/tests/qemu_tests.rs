use rust_virt_manager::qemu_capabilities::{
    parse_device_help, parse_machine_help, parse_vga_help, QemuCapabilities,
};

#[test]
fn fallback_lists() {
    let c = QemuCapabilities::fallback();
    assert!(!c.loaded);
    assert_eq!(c.video_models, vec!["virtio", "qxl", "vga", "bochs", "cirrus", "vmware", "none"]);
    assert_eq!(c.sound_models, vec!["ich9", "ich6", "ac97", "es1370", "sb16", "usb-audio"]);
    assert_eq!(c.nic_models, vec!["virtio", "e1000", "e1000e", "rtl8139", "vmxnet3"]);
    assert_eq!(c.disk_buses, vec!["virtio", "scsi", "sata", "ide", "usb"]);
    assert!(c.machine_types.is_empty());
}

#[test]
fn reads_vga_help() {
    let text = "Valid values for -vga:\r\n  std\n  virtio   \n\n  none\n";
    assert_eq!(parse_vga_help(text), vec!["std", "virtio", "none"]);
    let described = "qxl                  QXL VGA\nvirtio               Virtio VGA\n";
    assert_eq!(parse_vga_help(described), vec!["qxl", "virtio"]);
}

#[test]
fn reads_machine_help() {
    let text = "Supported machines are:\npc-q35-9.0  Standard PC (Q35 + ICH9, 2009)\nq35 Standard PC (alias of pc-q35-9.0)\n-machine something\n   \nnone  empty machine\n";
    assert_eq!(parse_machine_help(text), vec!["pc-q35-9.0", "q35", "none"]);
}

#[test]
fn reads_device_help() {
    let text = "Controller/Bridge/Hub devices:\nname \"pci-bridge\", bus PCI\n\nNetwork devices:\nname \"e1000\", bus PCI, desc \"Intel Gigabit Ethernet\"\nname \"virtio-net-pci\", bus PCI\n\nSound devices:\nname \"AC97\", bus PCI\nname \"intel-hda\"\n\nStorage devices:\nname \"virtio-blk-pci\"\n";
    let mut c = QemuCapabilities::fallback();
    c.sound_models.clear();
    c.nic_models.clear();
    parse_device_help(text, &mut c);
    assert_eq!(c.nic_models, vec!["e1000", "virtio-net-pci"]);
    assert_eq!(c.sound_models, vec!["AC97", "intel-hda"]);
}

#[test]
fn capabilities_from_help_texts() {
    let c = QemuCapabilities::from_help(Some("Valid values for -vga:\n"), None, Some("Supported machines are:\npc Standard PC\n"));
    assert!(c.loaded);
    assert_eq!(c.video_models.len(), 7);
    assert_eq!(c.sound_models[0], "ich9");
    assert_eq!(c.machine_types, vec!["pc"]);
    let d = QemuCapabilities::from_help(Some("cirrus\n"), Some("Sound devices:\nname \"sb16\"\n"), None);
    assert_eq!(d.video_models, vec!["cirrus"]);
    assert_eq!(d.sound_models, vec!["sb16"]);
    assert_eq!(d.nic_models[0], "virtio");
    assert!(d.machine_types.is_empty());
}

#[test]
fn video_models_are_names_only() {
    let c = QemuCapabilities::from_help(Some("qxl                  QXL VGA\nvirtio               Virtio VGA\n"), Some(""), Some(""));
    let f = QemuCapabilities::fallback();
    assert!(c.loaded);
    assert_eq!(c.video_models, vec!["qxl", "virtio"]);
    assert_eq!(c.disk_buses, vec!["virtio", "scsi", "sata", "ide", "usb"]);
    assert_eq!(c.sound_models, f.sound_models);
    assert_eq!(c.nic_models, f.nic_models);
    assert!(c.machine_types.is_empty());
}
