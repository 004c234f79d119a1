use rust_virt_manager::backend::{
    action_failed_message, extract_xml_text, not_found_message, poll_due, polls_after,
    route_command, snapshot_summary, step_failed_message, BackendCommand, DomainAction, PoolOp,
    WorkerStep,
};
use rust_virt_manager::domain::DomainState;

#[test]
fn commands_for_other_connections_are_ignored() {
    let step = route_command("qemu:///system", BackendCommand::PollAll("qemu:///session".into()));
    assert!(matches!(step, WorkerStep::Ignore));
    let step = route_command("qemu:///system", BackendCommand::Disconnect("qemu:///system".into()));
    assert!(matches!(step, WorkerStep::Close));
}

#[test]
fn commands_become_worker_steps() {
    let uri = "qemu:///system";
    match route_command(uri, BackendCommand::CreateStoragePool(uri.into(), "<pool/>".into())) {
        WorkerStep::PoolAction(name, PoolOp::Create, Some(xml)) => {
            assert_eq!(name, "");
            assert_eq!(xml, "<pool/>");
        }
        other => panic!("unexpected {:?}", other),
    }
    match route_command(uri, BackendCommand::DomainAction(uri.into(), "vm1".into(), DomainAction::Reboot)) {
        WorkerStep::DomainAction(name, DomainAction::Reboot) => assert_eq!(name, "vm1"),
        other => panic!("unexpected {:?}", other),
    }
    match route_command(uri, BackendCommand::MigrateDomain(uri.into(), "vm1".into(), "qemu+ssh://h/system".into(), 1)) {
        WorkerStep::Migrate(name, dest, 1) => {
            assert_eq!(name, "vm1");
            assert_eq!(dest, "qemu+ssh://h/system");
        }
        other => panic!("unexpected {:?}", other),
    }
    assert!(matches!(route_command(uri, BackendCommand::Connect(uri.into())), WorkerStep::Ignore));
}

#[test]
fn steps_that_poll_again() {
    assert!(polls_after(&WorkerStep::Poll));
    assert!(polls_after(&WorkerStep::DefineXml("<domain/>".into())));
    assert!(!polls_after(&WorkerStep::ListPools));
    assert!(!polls_after(&WorkerStep::GetHostInfo));
    assert!(poll_due(2000));
    assert!(!poll_due(1999));
}

#[test]
fn reads_trimmed_element_text() {
    let xml = "<domainsnapshot><name>s1</name><description>  first one \n</description><state>running</state><creationTime>1700000000</creationTime></domainsnapshot>";
    assert_eq!(extract_xml_text(xml, "description"), Some("first one".to_string()));
    assert_eq!(extract_xml_text(xml, "state"), Some("running".to_string()));
    assert_eq!(extract_xml_text(xml, "parent"), None);
    assert_eq!(extract_xml_text("<a>open only", "a"), None);
}

#[test]
fn summarises_snapshots() {
    let xml = "<domainsnapshot><name>s1</name><description>d</description><state>shutoff</state><creationTime>1700000000</creationTime></domainsnapshot>";
    let s = snapshot_summary("s1".to_string(), xml, Some("s1"));
    assert_eq!(s.description, "d");
    assert_eq!(s.state, "shutoff");
    assert_eq!(s.creation_time, 1700000000);
    assert!(s.is_current);
    let t = snapshot_summary("s2".to_string(), "<domainsnapshot><creationTime>soon</creationTime></domainsnapshot>", Some("s1"));
    assert_eq!(t.description, "");
    assert_eq!(t.creation_time, 0);
    assert!(!t.is_current);
}

#[test]
fn worker_messages() {
    assert_eq!(action_failed_message("Pool", "default", PoolOp::Refresh.label(), "boom"), "Pool 'default' refresh failed: boom");
    assert_eq!(not_found_message("Domain", "vm1", "no such domain"), "Domain 'vm1' not found: no such domain");
    assert_eq!(step_failed_message("List pools", "x"), "List pools failed: x");
    assert_eq!(DomainState::from_libvirt(3).label(), "Paused");
}
