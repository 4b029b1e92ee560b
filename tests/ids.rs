use carol::hex::{decode32, encode, hex_val, HexError};
use carol::ids::{BinaryId, MachineId};

const EMPTY_SHA256: &str = "e3b0c44298fc1c149afbf4c8996fb92427ae41e4649b934ca495991b7852b855";

#[test]
fn binary_id_of_empty_bytes_is_their_sha256() {
    assert_eq!(BinaryId::new(b"").to_string(), EMPTY_SHA256);
}

#[test]
fn binary_id_is_stable() {
    let bytes = b"some component bytes";
    assert_eq!(BinaryId::new(bytes), BinaryId::new(bytes));
}

#[test]
fn machine_id_hashes_binary_id_then_params() {
    let binary_id = BinaryId::new(b"binary");
    let params = b"params";
    let mut joined = binary_id.to_bytes().to_vec();
    joined.extend_from_slice(params);
    let expected = BinaryId::new(&joined).to_bytes();
    assert_eq!(MachineId::new(binary_id, params).to_bytes(), expected);
}

#[test]
fn machine_id_is_stable() {
    let binary_id = BinaryId::new(b"binary");
    assert_eq!(MachineId::new(binary_id, b"p"), MachineId::new(binary_id, b"p"));
}

#[test]
fn machine_id_changes_with_one_byte_of_params() {
    let binary_id = BinaryId::new(b"binary");
    assert_ne!(MachineId::new(binary_id, b"params0"), MachineId::new(binary_id, b"params1"));
    assert_ne!(MachineId::new(binary_id, b""), MachineId::new(binary_id, b"\0"));
}

#[test]
fn machine_id_changes_with_binary() {
    let a = BinaryId::new(b"binary a");
    let b = BinaryId::new(b"binary b");
    assert_ne!(MachineId::new(a, b"params"), MachineId::new(b, b"params"));
}

#[test]
fn id_text_round_trip() {
    let id = MachineId::new(BinaryId::new(b"x"), b"y");
    let text = id.to_string();
    assert_eq!(text.len(), 64);
    assert_eq!(MachineId::from_str(&text).unwrap(), id);
}

#[test]
fn id_text_accepts_upper_case() {
    let upper = EMPTY_SHA256.to_uppercase();
    assert_eq!(BinaryId::from_str(&upper).unwrap(), BinaryId::new(b""));
}

#[test]
fn id_text_errors() {
    assert_eq!(BinaryId::from_str("abc").unwrap_err(), HexError::InvalidHex);
    assert_eq!(BinaryId::from_str("abcd").unwrap_err(), HexError::InvalidLength);
    let bad = format!("g{}", &EMPTY_SHA256[1..]);
    assert_eq!(BinaryId::from_str(&bad).unwrap_err(), HexError::InvalidHex);
    assert_eq!(MachineId::from_str("").unwrap_err(), HexError::InvalidLength);
}

#[test]
fn hex_digit_values() {
    assert_eq!(hex_val(b'0'), Ok(0));
    assert_eq!(hex_val(b'9'), Ok(9));
    assert_eq!(hex_val(b'a'), Ok(10));
    assert_eq!(hex_val(b'F'), Ok(15));
    assert_eq!(hex_val(b'g'), Err(HexError::InvalidHex));
}

#[test]
fn hex_encode_bytes() {
    assert_eq!(encode(&[0x00, 0x0f, 0xa0, 0xff]), "000fa0ff");
    assert_eq!(encode(&[]), "");
}

#[test]
fn hex_decode_32_bytes() {
    let bytes = decode32(EMPTY_SHA256).unwrap();
    assert_eq!(bytes[0], 0xe3);
    assert_eq!(bytes[31], 0x55);
}
