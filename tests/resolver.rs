use carol::host_header::host_header_label_for_machine;
use carol::ids::{BinaryId, MachineId};
use carol::resolver::{CnameLookup, DomainName, HostStep, Resolution, Resolver};

fn name(text: &str) -> DomainName {
    DomainName::parse(text).unwrap()
}

fn resolver() -> Resolver {
    Resolver::new(Some(name("carol.example")), vec![name("api.example")])
}

fn machine() -> MachineId {
    MachineId::new(BinaryId::new(b"binary"), b"params")
}

#[test]
fn machine_label_under_base_domain_is_that_machine() {
    let host = format!("{}.carol.example", host_header_label_for_machine(machine()));
    match resolver().resolve_host(Some(&host), false) {
        HostStep::Resolved(Resolution::Machine(id)) => assert_eq!(id, machine()),
        other => panic!("unexpected {:?}", other),
    }
}

#[test]
fn base_domain_itself_is_api() {
    assert!(matches!(resolver().resolve_host(Some("carol.example"), false), HostStep::Resolved(Resolution::Api)));
    assert!(matches!(resolver().resolve_host(Some("CAROL.Example"), false), HostStep::Resolved(Resolution::Api)));
}

#[test]
fn ip_address_is_api() {
    assert!(matches!(resolver().resolve_host(Some("203.0.113.4"), false), HostStep::Resolved(Resolution::Api)));
    assert!(matches!(resolver().resolve_host(Some("::1"), false), HostStep::Resolved(Resolution::Api)));
}

#[test]
fn socket_address_is_api() {
    assert!(matches!(resolver().resolve_host(Some("203.0.113.4:8000"), true), HostStep::Resolved(Resolution::Api)));
}

#[test]
fn localhost_and_passthrough_are_api() {
    assert!(matches!(resolver().resolve_host(Some("localhost"), false), HostStep::Resolved(Resolution::Api)));
    assert!(matches!(resolver().resolve_host(Some("my.localhost"), false), HostStep::Resolved(Resolution::Api)));
    assert!(matches!(resolver().resolve_host(Some("api.example"), false), HostStep::Resolved(Resolution::Api)));
}

#[test]
fn no_base_domain_is_always_api() {
    let r = Resolver::new(None, vec![]);
    assert!(matches!(r.resolve_host(Some("unrelated.example"), false), HostStep::Resolved(Resolution::Api)));
    assert!(matches!(r.resolve_host(None, false), HostStep::Resolved(Resolution::Api)));
}

#[test]
fn header_that_is_not_text_is_unknown() {
    assert!(matches!(resolver().resolve_host(None, false), HostStep::Resolved(Resolution::Unknown)));
}

#[test]
fn unrelated_host_without_records_is_unknown() {
    let step = resolver().resolve_host(Some("unrelated.example"), false);
    let n = match step {
        HostStep::LookupCname(n) => n,
        other => panic!("unexpected {:?}", other),
    };
    assert_eq!(n.labels, vec!["unrelated".to_string(), "example".to_string()]);
    assert!(matches!(resolver().resolve_cname(CnameLookup::NoRecords), Ok(Resolution::Unknown)));
    assert!(matches!(resolver().resolve_cname(CnameLookup::Found(vec![])), Ok(Resolution::Unknown)));
}

#[test]
fn cname_to_machine_label_is_that_machine() {
    let target = name(&format!("{}.carol.example", host_header_label_for_machine(machine())));
    let lookup = CnameLookup::Found(vec![name("elsewhere.example"), target]);
    match resolver().resolve_cname(lookup) {
        Ok(Resolution::Machine(id)) => assert_eq!(id, machine()),
        other => panic!("unexpected {:?}", other),
    }
}

#[test]
fn machine_label_under_other_domain_is_not_a_machine() {
    let host = format!("{}.other.example", host_header_label_for_machine(machine()));
    assert!(matches!(resolver().resolve_host(Some(&host), false), HostStep::LookupCname(_)));
}

#[test]
fn failed_lookup_is_an_error() {
    match resolver().resolve_cname(CnameLookup::Failed("timed out".to_string())) {
        Err(e) => assert_eq!(e.message, "timed out"),
        Ok(_) => panic!("lookup failure must be an error"),
    }
}
