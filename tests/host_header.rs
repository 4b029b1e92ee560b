use carol::host_header::{host_header_label_for_machine, machine_id_from_label_parts, parse_host_header_label_for_machine};
use carol::ids::{BinaryId, MachineId};

#[test]
fn label_round_trip_on_several_ids() {
    let ids = [
        MachineId::from_bytes([0u8; 32]),
        MachineId::from_bytes([0xffu8; 32]),
        MachineId::from_bytes(core::array::from_fn(|i| i as u8)),
        MachineId::new(BinaryId::new(b"binary"), b"params"),
    ];
    for id in ids {
        let label = host_header_label_for_machine(id);
        assert_eq!(parse_host_header_label_for_machine(&label), Some(id));
    }
}

#[test]
fn label_shape() {
    let label = host_header_label_for_machine(MachineId::from_bytes([0u8; 32]));
    assert_eq!(label, format!("carol1{}", "q".repeat(52)));
    let label = host_header_label_for_machine(MachineId::from_bytes([0xffu8; 32]));
    assert!(label.starts_with("carol1llll"));
    assert_eq!(label.len(), 58);
}

#[test]
fn label_with_other_prefix_is_refused() {
    let label = host_header_label_for_machine(MachineId::from_bytes([7u8; 32]));
    let other = label.replacen("carol", "karol", 1);
    assert_eq!(parse_host_header_label_for_machine(&other), None);
}

#[test]
fn label_of_wrong_length_is_refused() {
    assert_eq!(parse_host_header_label_for_machine("carol1qqqq"), None);
    assert_eq!(parse_host_header_label_for_machine("www"), None);
    assert_eq!(parse_host_header_label_for_machine(""), None);
}

#[test]
fn label_parts_to_id() {
    assert_eq!(machine_id_from_label_parts("carol", &[0u8; 52]), Some(MachineId::from_bytes([0u8; 32])));
    assert_eq!(machine_id_from_label_parts("carol", &[0u8; 51]), None);
    assert_eq!(machine_id_from_label_parts("bitcoin", &[0u8; 52]), None);
}

#[test]
fn upper_case_label_reads_as_its_lower_case_label() {
    let id = MachineId::new(BinaryId::new(b"binary"), b"upper");
    let label = host_header_label_for_machine(id);
    let upper = label.to_uppercase();
    assert_eq!(parse_host_header_label_for_machine(&upper), Some(id));
    assert_eq!(host_header_label_for_machine(id), upper.to_ascii_lowercase());
}
