use carol::bls::{sign, verify, KeyPair};
use carol::ids::{BinaryId, MachineId};

fn machine(params: &[u8]) -> MachineId {
    MachineId::new(BinaryId::new(b"binary"), params)
}

#[test]
fn signature_verifies_for_its_machine_only() {
    let kp = KeyPair::random([7u8; 64]);
    let a = machine(b"a");
    let b = machine(b"b");
    let sig = sign(kp, a, b"attest");
    assert!(verify(kp.public_key(), a, sig, b"attest"));
    assert!(!verify(kp.public_key(), b, sig, b"attest"));
    assert!(!verify(kp.public_key(), a, sig, b"other"));
}

#[test]
fn key_pair_from_secret_bytes() {
    let kp = KeyPair::random([1u8; 64]);
    let again = KeyPair::new(kp.secret_key()).unwrap();
    assert_eq!(again.public_key().0, kp.public_key().0);
    assert!(KeyPair::new([0xffu8; 32]).is_none());
}

#[test]
fn other_key_does_not_verify() {
    let kp = KeyPair::random([7u8; 64]);
    let other = KeyPair::random([8u8; 64]);
    let a = machine(b"a");
    let sig = sign(kp, a, b"m");
    assert!(!verify(other.public_key(), a, sig, b"m"));
}
