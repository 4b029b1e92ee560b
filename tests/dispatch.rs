use carol::dispatch::{plan_request, Action};
use carol::ids::{BinaryId, MachineId};
use carol::loader::Executor;
use carol::registry::ExecutorState;

const EMPTY_COMPONENT: [u8; 8] = [0x00, 0x61, 0x73, 0x6d, 0x0d, 0x00, 0x01, 0x00];

fn setup() -> (ExecutorState, BinaryId, MachineId) {
    let exec = Executor::new();
    let mut reg = ExecutorState::new();
    let binary_id = reg.upload(&exec, &EMPTY_COMPONENT).unwrap().1;
    let machine_id = reg.create_machine(binary_id, b"".to_vec()).unwrap().1;
    (reg, binary_id, machine_id)
}

fn status(reg: &ExecutorState, method: &str, path: &str) -> u16 {
    match plan_request(reg, method, path, None) {
        Ok(action) => panic!("expected a problem, got {:?}", action),
        Err(p) => p.status,
    }
}

#[test]
fn root_and_upload() {
    let (reg, _, _) = setup();
    assert!(matches!(plan_request(&reg, "GET", "/", None), Ok(Action::Root)));
    assert!(matches!(plan_request(&reg, "POST", "/binaries", None), Ok(Action::UploadBinary)));
    assert_eq!(status(&reg, "POST", "/"), 404);
    assert_eq!(status(&reg, "GET", "/binaries"), 404);
}

#[test]
fn binary_routes() {
    let (reg, binary_id, _) = setup();
    let path = format!("/binaries/{}", binary_id.to_string());
    assert!(matches!(plan_request(&reg, "GET", &path, None), Ok(Action::DescribeBinary(b)) if b == binary_id));
    assert!(matches!(plan_request(&reg, "POST", &path, None), Ok(Action::CreateMachine(b)) if b == binary_id));
    match plan_request(&reg, "PUT", &path, None) {
        Err(p) => {
            assert_eq!(p.status, 405);
            assert_eq!(p.extra_headers, vec![("Allow".to_string(), "POST, GET".to_string())]);
        },
        Ok(a) => panic!("unexpected {:?}", a),
    }
}

#[test]
fn binary_route_errors() {
    let (reg, _, _) = setup();
    assert_eq!(status(&reg, "GET", "/binaries/xyz"), 400);
    let unknown = format!("/binaries/{}", BinaryId::new(b"other").to_string());
    assert_eq!(status(&reg, "GET", &unknown), 404);
}

#[test]
fn machine_routes() {
    let (reg, _, machine_id) = setup();
    let base = format!("/machines/{}", machine_id.to_string());
    assert!(matches!(plan_request(&reg, "GET", &base, None), Ok(Action::GetMachine(m)) if m == machine_id));
    assert_eq!(status(&reg, "POST", &base), 405);
    let unknown = format!("/machines/{}", MachineId::from_bytes([1u8; 32]).to_string());
    assert_eq!(status(&reg, "GET", &unknown), 404);
    assert_eq!(status(&reg, "GET", "/machines/nothex"), 400);
    assert_eq!(status(&reg, "GET", "/machines"), 405);
    assert_eq!(status(&reg, "GET", &format!("{}/other", base)), 404);
}

#[test]
fn machine_http_routes() {
    let (reg, _, machine_id) = setup();
    let base = format!("/machines/{}/http", machine_id.to_string());
    assert!(matches!(plan_request(&reg, "GET", &base, None), Ok(Action::RedirectToHttpRoot)));
    match plan_request(&reg, "GET", &format!("{}/", base), None) {
        Ok(Action::MachineHttp { id, path_and_query }) => {
            assert_eq!(id, machine_id);
            assert_eq!(path_and_query, "/");
        },
        other => panic!("unexpected {:?}", other),
    }
    match plan_request(&reg, "POST", &format!("{}/a/b", base), Some("x=1")) {
        Ok(Action::MachineHttp { path_and_query, .. }) => assert_eq!(path_and_query, "/a/b?x=1"),
        other => panic!("unexpected {:?}", other),
    }
}

#[test]
fn activation_routes() {
    let (reg, _, machine_id) = setup();
    let path = format!("/machines/{}/activate/echo", machine_id.to_string());
    match plan_request(&reg, "POST", &path, None) {
        Ok(Action::Activate { id, name }) => {
            assert_eq!(id, machine_id);
            assert_eq!(name, "echo");
        },
        other => panic!("unexpected {:?}", other),
    }
    assert_eq!(status(&reg, "GET", &path), 405);
    let unknown = format!("/machines/{}/activate/echo", MachineId::from_bytes([2u8; 32]).to_string());
    assert_eq!(status(&reg, "POST", &unknown), 404);
}

#[test]
fn upload_then_create_gives_digest_ids() {
    let (_, binary_id, machine_id) = setup();
    assert_eq!(binary_id, BinaryId::new(&EMPTY_COMPONENT));
    assert_eq!(machine_id, MachineId::new(binary_id, b""));
}

#[test]
fn refusal_texts_and_allow_lists() {
    let (reg, _, machine_id) = setup();
    let base = format!("/machines/{}", machine_id.to_string());
    match plan_request(&reg, "POST", &base, None) {
        Err(p) => {
            assert_eq!(p.client_desc, format!("HTTP method POST not supported on {}", base));
            assert_eq!(p.extra_headers, vec![("Allow".to_string(), "GET".to_string())]);
            assert!(p.extra_fields.is_empty());
        },
        Ok(a) => panic!("unexpected {:?}", a),
    }
    match plan_request(&reg, "GET", "/nowhere", None) {
        Err(p) => {
            assert_eq!(p.client_desc, "/nowhere not found");
            assert!(p.extra_headers.is_empty());
        },
        Ok(a) => panic!("unexpected {:?}", a),
    }
    match plan_request(&reg, "GET", "/binaries/zz", None) {
        Err(p) => assert_eq!(p.client_desc, "path element zz is not a valid BinaryId"),
        Ok(a) => panic!("unexpected {:?}", a),
    }
}
