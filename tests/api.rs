use carol::api::{BinaryCreated, MachineCreated, Problem};
use carol::config::{Level, LogConfig, ServerOpts};
use carol::environment::GuestError;
use carol::guest::{HelloWorld, HttpMethod, Log};
use carol::ids::{BinaryId, MachineId};
use std::cell::RefCell;

#[test]
fn created_locations() {
    let id = BinaryId::new(b"");
    let created = BinaryCreated { id };
    assert_eq!(created.location(), format!("/binaries/{}", id.to_string()));
    assert_eq!(created.status(), 201);
    let mid = MachineId::new(id, b"");
    let created = MachineCreated { id: mid };
    assert_eq!(created.location(), format!("/machines/{}", mid.to_string()));
    assert_eq!(created.status(), 201);
}

#[test]
fn problem_statuses_and_texts() {
    let p = Problem::not_found("/x");
    assert_eq!((p.status, p.client_desc.as_str()), (404, "/x not found"));
    let p = Problem::internal_server_error("db".to_string());
    assert_eq!((p.status, p.client_desc.as_str(), p.host_error.as_str()), (500, "internal server error", "db"));
    let p = Problem::misdirected_request(Some("bad.example"), b"bad.example");
    assert_eq!(p.status, 421);
    assert_eq!(p.client_desc, "HOST bad.example couldn't be resovled to a machine");
    let p = Problem::misdirected_request(None, &[0xff, 0x01]);
    assert_eq!(p.client_desc, "HOST hex:\"ff01\" couldn't be resovled to a machine");
    let p = Problem::method_not_allowed("/machines", "GET", &[]);
    assert_eq!(p.status, 405);
    assert_eq!(p.client_desc, "HTTP method GET not supported on /machines");
    assert_eq!(p.extra_headers, vec![("Allow".to_string(), String::new())]);
    let p = Problem::invalid_path_element("bad hex".to_string(), "zz", "BinaryId");
    assert_eq!((p.status, p.client_desc.as_str()), (400, "path element zz is not a valid BinaryId"));
    let id = MachineId::from_bytes([0u8; 32]);
    assert_eq!(Problem::machine_not_found(id).client_desc, format!("machine {} not found", "0".repeat(64)));
    assert_eq!(Problem::binary_not_found(BinaryId::from_bytes([0u8; 32])).status, 404);
    assert_eq!(Problem::bad_request("no".to_string(), "no".to_string()).status, 400);
}

#[test]
fn guest_panic_is_a_client_error_with_backtrace() {
    let p = Problem::guest_error(GuestError::Panic { message: "boom".to_string(), backtrace: Some("bt".to_string()) });
    assert_eq!(p.status, 400);
    assert_eq!(p.client_desc, "boom");
    assert_eq!(p.extra_fields, vec![("backtrace".to_string(), "bt".to_string())]);
    let p = Problem::guest_error(GuestError::Other("trap".to_string()));
    assert_eq!(p.status, 500);
    assert_eq!(p.host_error, "trap");
}

struct Recorder(RefCell<Vec<String>>);

impl Log for Recorder {
    fn log_info(&self, message: &str) {
        self.0.borrow_mut().push(message.to_string());
    }
}

#[test]
fn hello_world_says_hello() {
    let cap = Recorder(RefCell::new(vec![]));
    assert_eq!(HelloWorld.say(&cap, "world".to_string()), "hello world");
    assert_eq!(cap.0.borrow().clone(), vec!["hello world".to_string()]);
}

#[test]
fn small_items() {
    assert_eq!(HttpMethod::Get.as_str(), "GET");
    assert_eq!(HttpMethod::Post.as_str(), "POST");
    assert_eq!(Level::default(), Level::Info);
    assert_eq!(LogConfig::default().level.as_str(), "info");
    let opts = ServerOpts { carol_url: "http://localhost:8000".to_string() };
    assert_eq!(opts.url_for("/binaries/x"), "http://localhost:8000/binaries/x");
}

#[test]
fn engine_fault_has_no_extra_fields() {
    let p = Problem::guest_error(GuestError::Other("trap".to_string()));
    assert!(p.extra_fields.is_empty());
    assert!(p.extra_headers.is_empty());
    assert_eq!(p.client_desc, "internal server error");
}
