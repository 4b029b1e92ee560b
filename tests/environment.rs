use carol::bls::{verify, KeyPair};
use carol::environment::{classify_failure, self_activation_outcome, Capability, CapabilityError, Environment, GuestError};
use carol::http::{Error, Method as HttpVerb, RequestFault};
use carol::ids::{BinaryId, MachineId};
use carol::machines::Error as MachinesError;

fn machine(n: u8) -> MachineId {
    MachineId::new(BinaryId::new(b"binary"), &[n])
}

#[test]
fn egress_from_http_environment_is_a_typed_error() {
    let env = Environment::Http { machine_id: machine(0) };
    assert!(matches!(env.http_client(), Err(Error::Unexpected(_))));
    assert_eq!(env.check(Capability::HttpEgress), Err(CapabilityError::Unavailable(Capability::HttpEgress)));
}

#[test]
fn egress_from_activation_is_allowed() {
    let env = Environment::Activation { machine_id: machine(0) };
    assert!(env.http_client().is_ok());
    assert!(env.check(Capability::BlsSign).is_ok());
}

#[test]
fn capabilities_per_environment() {
    let http = Environment::Http { machine_id: machine(0) };
    assert!(http.grants(Capability::SelfActivate));
    assert!(http.grants(Capability::Log));
    assert!(!http.grants(Capability::BlsSign));
    assert!(!http.grants(Capability::BlsPublicKey));
    let api = Environment::BinaryApi;
    assert!(api.grants(Capability::SetPanicMessage));
    assert!(!api.grants(Capability::SelfActivate));
    assert_eq!(api.machine_id(), Err(CapabilityError::NoMachine));
    assert_eq!(http.machine_id(), Ok(machine(0)));
}

#[test]
fn signing_binds_the_activated_machine() {
    let kp = KeyPair::random([42u8; 64]);
    let a = Environment::Activation { machine_id: machine(1) };
    let sig = a.static_sign(kp, b"message").unwrap();
    assert!(verify(kp.public_key(), machine(1), sig, b"message"));
    assert!(!verify(kp.public_key(), machine(2), sig, b"message"));
    let http = Environment::Http { machine_id: machine(1) };
    assert!(http.static_sign(kp, b"message").is_err());
    assert!(http.static_public_key(kp).is_err());
    assert_eq!(a.static_public_key(kp).unwrap().0, kp.public_key().0);
}

#[test]
fn failure_is_a_panic_only_with_a_message() {
    match classify_failure(Some("boom".to_string()), None, "trap".to_string()) {
        GuestError::Panic { message, backtrace } => {
            assert_eq!(message, "boom");
            assert!(backtrace.is_none());
        },
        other => panic!("unexpected {:?}", other),
    }
    assert!(matches!(classify_failure(None, None, "trap".to_string()), GuestError::Other(t) if t == "trap"));
}

#[test]
fn guest_error_text() {
    let p = GuestError::Panic { message: "boom".to_string(), backtrace: None };
    assert_eq!(p.to_string(), "guest panic \u{2018}boom\u{2019}");
    let p = GuestError::Panic { message: "boom".to_string(), backtrace: Some("at f".to_string()) };
    assert_eq!(p.to_string(), "guest panic \u{2018}boom\u{2019}\nat f");
    assert_eq!(GuestError::Other("trap".to_string()).to_string(), "trap");
}

#[test]
fn http_error_text_and_kinds() {
    assert_eq!(Error::Timeout.to_string(), "HTTP request timed out");
    assert_eq!(Error::InvalidUrl("x".to_string()).to_string(), "invalid url: x");
    assert_eq!(Error::from_transport(true, true, "m".to_string()), Error::Timeout);
    assert_eq!(Error::from_transport(false, true, "m".to_string()), Error::Connection("m".to_string()));
    assert_eq!(Error::from_transport(false, false, "m".to_string()), Error::Unexpected("m".to_string()));
    assert_eq!(Error::from_request_fault(RequestFault::Uri, "u".to_string()), Error::InvalidUrl("u".to_string()));
    assert_eq!(Error::from_request_fault(RequestFault::Header, "h".to_string()), Error::InvalidHeader("h".to_string()));
}

#[test]
fn self_activation_outcomes() {
    let id = machine(5);
    assert_eq!(self_activation_outcome(id, Ok(Ok(vec![1]))), Ok(Ok(vec![1])));
    let failed = self_activation_outcome(id, Ok(Err(GuestError::Other("trap".to_string()))));
    assert_eq!(failed, Ok(Err(MachinesError::Panic { reason: "trap".to_string(), machine: id })));
    assert_eq!(self_activation_outcome(id, Err("host".to_string())), Err("host".to_string()));
}

#[test]
fn machines_error_text() {
    let e = MachinesError::Panic { reason: "boom".to_string(), machine: MachineId::from_bytes([0u8; 32]) };
    assert_eq!(e.to_string(), format!("call to machine {} failed because it panicked: boom", "0".repeat(64)));
}

#[test]
fn request_verbs() {
    assert_eq!(HttpVerb::parse("GET"), Ok(HttpVerb::Get));
    assert_eq!(HttpVerb::parse("PATCH"), Ok(HttpVerb::Patch));
    assert_eq!(HttpVerb::parse("DELETE").unwrap().as_str(), "DELETE");
    assert_eq!(HttpVerb::parse("HEAD"), Err("carol doesn't support \u{2018}HEAD\u{2019} as a http method".to_string()));
}
