use rust_virt_manager::backend::DomainSummary;
use rust_virt_manager::domain::DomainState;
use rust_virt_manager::events::{
    apply_domain_list, connection_closed, connection_failed, connection_opened,
    domain_list_updated, domain_state_changed, domain_undefined, find_connection, GuiConnection,
};
use rust_virt_manager::state::ConnectionState;
use rust_virt_manager::views::manager::sorted_domain_names;

fn dom(name: &str, uuid: &str, state: DomainState, vcpus: u32) -> DomainSummary {
    DomainSummary {
        name: name.into(),
        uuid: uuid.into(),
        state,
        vcpus,
        memory_kib: 1024,
        xml: format!("<domain><name>{name}</name></domain>"),
    }
}

fn names(v: &[DomainSummary]) -> Vec<String> {
    let mut n: Vec<String> = v.iter().map(|d| d.name.clone()).collect();
    n.sort();
    n
}

#[test]
fn domain_list_follows_reports() {
    let mut list = vec![dom("a", "ua", DomainState::Running, 1), dom("b", "ub", DomainState::Shutoff, 1)];
    let report = vec![dom("b", "other", DomainState::Running, 4), dom("c", "uc", DomainState::Paused, 2)];
    apply_domain_list(&mut list, &report);
    assert_eq!(names(&list), vec!["b".to_string(), "c".to_string()]);
    let b = list.iter().find(|d| d.name == "b").unwrap();
    assert_eq!(b.uuid, "ub");
    assert_eq!(b.state, DomainState::Running);
    assert_eq!(b.vcpus, 4);
    let c = list.iter().find(|d| d.name == "c").unwrap();
    assert_eq!(c.uuid, "uc");
    // the same report again changes nothing
    let before: Vec<(String, String, u32)> = list.iter().map(|d| (d.name.clone(), d.uuid.clone(), d.vcpus)).collect();
    apply_domain_list(&mut list, &report);
    let after: Vec<(String, String, u32)> = list.iter().map(|d| (d.name.clone(), d.uuid.clone(), d.vcpus)).collect();
    assert_eq!(before, after);
    apply_domain_list(&mut list, &vec![]);
    assert!(list.is_empty());
}

#[test]
fn connection_events() {
    let mut conns = vec![GuiConnection::new("qemu:///system".into()), GuiConnection::new("qemu:///session".into())];
    assert_eq!(find_connection(&conns, "qemu:///session"), Some(1));
    assert_eq!(find_connection(&conns, "xen:///system"), None);
    connection_opened(&mut conns, "qemu:///system");
    assert_eq!(conns[0].state, ConnectionState::Active);
    domain_list_updated(&mut conns, "qemu:///system", &vec![dom("vm", "u", DomainState::Shutoff, 1)]);
    assert_eq!(conns[0].domains.len(), 1);
    domain_state_changed(&mut conns, "qemu:///system", "vm", DomainState::Running);
    assert_eq!(conns[0].domains[0].state, DomainState::Running);
    domain_undefined(&mut conns, "qemu:///system", "vm");
    assert!(conns[0].domains.is_empty());
    let msg = connection_failed(&mut conns, "qemu:///session", "refused");
    assert_eq!(msg, "Connection to qemu:///session failed: refused");
    assert_eq!(conns[1].state, ConnectionState::Disconnected);
    domain_list_updated(&mut conns, "qemu:///system", &vec![dom("x", "u", DomainState::Running, 1)]);
    connection_closed(&mut conns, "qemu:///system");
    assert_eq!(conns[0].state, ConnectionState::Disconnected);
    assert!(conns[0].domains.is_empty());
}

#[test]
fn machines_are_listed_by_name() {
    let list = vec![
        dom("web", "1", DomainState::Running, 1),
        dom("db", "2", DomainState::Running, 1),
        dom("Web2", "3", DomainState::Running, 1),
        dom("dbx", "4", DomainState::Running, 1),
    ];
    assert_eq!(
        sorted_domain_names(&list),
        vec!["Web2".to_string(), "db".to_string(), "dbx".to_string(), "web".to_string()]
    );
    assert!(sorted_domain_names(&vec![]).is_empty());
}
