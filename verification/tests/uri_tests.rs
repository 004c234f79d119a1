use rust_virt_manager::error::VirtError;
use rust_virt_manager::uri::LibvirtUri;
use rust_virt_manager::views::manager::friendly_connection_name;

#[test]
fn parse_local_system() {
    let uri = LibvirtUri::parse("qemu:///system").unwrap();
    assert_eq!(uri.driver, "qemu");
    assert_eq!(uri.transport, "");
    assert_eq!(uri.hostname, "");
    assert_eq!(uri.path, "/system");
    assert!(!uri.is_remote());
}

#[test]
fn parse_remote_ssh() {
    let uri = LibvirtUri::parse("qemu+ssh://user@server.example.com/system").unwrap();
    assert_eq!(uri.driver, "qemu");
    assert_eq!(uri.transport, "ssh");
    assert_eq!(uri.hostname, "server.example.com");
    assert_eq!(uri.username, Some("user".to_string()));
    assert_eq!(uri.path, "/system");
    assert!(uri.is_remote());
}

#[test]
fn parse_session() {
    let uri = LibvirtUri::parse("qemu:///session").unwrap();
    assert!(uri.is_session());
}

#[test]
fn display_names_of_connections() {
    assert_eq!(LibvirtUri::parse("qemu:///system").unwrap().display_name(), "QEMU/KVM");
    assert_eq!(LibvirtUri::parse("qemu:///session").unwrap().display_name(), "QEMU/KVM user session");
    assert_eq!(LibvirtUri::parse("xen:///system").unwrap().display_name(), "Xen");
    assert_eq!(
        LibvirtUri::parse("qemu+ssh://root@host.example/system").unwrap().display_name(),
        "host.example (QEMU/KVM)"
    );
}

#[test]
fn unreadable_uri_is_invalid() {
    match LibvirtUri::parse("not a uri") {
        Err(VirtError::InvalidUri(msg)) => assert!(msg.starts_with("not a uri: ")),
        other => panic!("unexpected {:?}", other),
    }
    assert_eq!(friendly_connection_name("not a uri"), "not a uri");
    assert_eq!(friendly_connection_name("qemu:///system"), "QEMU/KVM");
}
