use carol::ids::{BinaryId, MachineId};
use carol::loader::Executor;
use carol::registry::{NotFound, ExecutorState};

/// An empty WebAssembly component.
const EMPTY_COMPONENT: [u8; 8] = [0x00, 0x61, 0x73, 0x6d, 0x0d, 0x00, 0x01, 0x00];

/// An empty component with a custom section named "a".
const OTHER_COMPONENT: [u8; 12] = [0x00, 0x61, 0x73, 0x6d, 0x0d, 0x00, 0x01, 0x00, 0x00, 0x02, 0x01, b'a'];

pub fn executor() -> Executor {
    let mut config = wasmtime::Config::new();
    config.wasm_component_model(true);
    config.async_support(true);
    Executor::with_engine(wasmtime::Engine::new(&config).unwrap())
}

#[test]
fn compiled_binary_carries_digest_of_bytes() {
    let compiled = executor().load_binary_from_wasm_binary(&EMPTY_COMPONENT).unwrap();
    assert_eq!(compiled.binary_id(), BinaryId::new(&EMPTY_COMPONENT));
}

#[test]
fn invalid_bytes_do_not_load() {
    match executor().load_binary_from_wasm_binary(b"not wasm") {
        Err(err) => assert!(!err.message.is_empty()),
        Ok(_) => panic!("bytes that are not wasm must not load"),
    }
}

#[test]
fn upload_twice_reports_existing() {
    let exec = executor();
    let mut reg = ExecutorState::new();
    let first = reg.upload(&exec, &EMPTY_COMPONENT).unwrap();
    assert_eq!(first, (false, BinaryId::new(&EMPTY_COMPONENT)));
    let second = reg.upload(&exec, &EMPTY_COMPONENT).unwrap();
    assert_eq!(second, (true, first.1));
    assert!(reg.get_binary(first.1).is_some());
}

#[test]
fn invalid_upload_changes_nothing() {
    let exec = executor();
    let mut reg = ExecutorState::new();
    assert!(reg.upload(&exec, b"garbage").is_err());
    assert!(reg.get_binary(BinaryId::new(b"garbage")).is_none());
}

#[test]
fn distinct_binaries_both_stored() {
    let exec = executor();
    let mut reg = ExecutorState::new();
    let a = reg.upload(&exec, &EMPTY_COMPONENT).unwrap().1;
    let b = reg.upload(&exec, &OTHER_COMPONENT).unwrap().1;
    assert_ne!(a, b);
    assert_eq!(reg.get_binary(a).unwrap().binary_id(), a);
    assert_eq!(reg.get_binary(b).unwrap().binary_id(), b);
}

#[test]
fn create_machine_twice_reports_existing() {
    let exec = executor();
    let mut reg = ExecutorState::new();
    let binary_id = reg.upload(&exec, &EMPTY_COMPONENT).unwrap().1;
    let first = reg.create_machine(binary_id, b"{}".to_vec()).unwrap();
    assert_eq!(first, (false, MachineId::new(binary_id, b"{}")));
    let second = reg.create_machine(binary_id, b"{}".to_vec()).unwrap();
    assert_eq!(second, (true, first.1));
    let record = reg.get_machine(first.1).unwrap();
    assert_eq!(record.binary_id, binary_id);
    assert_eq!(record.params, b"{}".to_vec());
}

#[test]
fn machine_with_empty_params() {
    let exec = executor();
    let mut reg = ExecutorState::new();
    let binary_id = reg.upload(&exec, &EMPTY_COMPONENT).unwrap().1;
    let (existed, id) = reg.create_machine(binary_id, vec![]).unwrap();
    assert!(!existed);
    assert_eq!(id, MachineId::new(binary_id, b""));
}

#[test]
fn machine_of_unknown_binary_is_refused() {
    let mut reg = ExecutorState::new();
    let unknown = BinaryId::new(b"never uploaded");
    assert!(matches!(reg.create_machine(unknown, vec![1]), Err(NotFound::Binary(b)) if b == unknown));
}

#[test]
fn machine_components_found_and_missing() {
    let exec = executor();
    let mut reg = ExecutorState::new();
    let binary_id = reg.upload(&exec, &EMPTY_COMPONENT).unwrap().1;
    let (_, id) = reg.create_machine(binary_id, vec![9]).unwrap();
    let (record, binary) = reg.machine_components(id).unwrap();
    assert_eq!(record.params, vec![9]);
    assert_eq!(binary.binary_id(), binary_id);
    let missing = MachineId::from_bytes([3u8; 32]);
    assert!(matches!(reg.machine_components(missing), Err(NotFound::Machine(m)) if m == missing));
}

#[test]
fn insert_machine_directly() {
    let exec = executor();
    let mut reg = ExecutorState::new();
    let compiled = exec.load_binary_from_wasm_binary(&OTHER_COMPONENT).unwrap();
    let binary_id = compiled.binary_id();
    reg.insert_binary(compiled);
    let (existed, id) = reg.insert_machine(binary_id, vec![1, 2, 3]);
    assert!(!existed);
    assert_eq!(reg.get_machine(id).unwrap().params, vec![1, 2, 3]);
}
