//! Hexadecimal text form of fixed-size identifiers.
use vstd::prelude::*;
use vstd::string::*;

verus! {

/// Why a text could not be read as a 32-byte hex value.
#[derive(Clone, Copy, Debug, PartialEq, Eq, Structural)]
pub enum HexError {
    /// A character is not a hex digit, or the length is odd.
    InvalidHex,
    /// The text has an even length other than 64.
    InvalidLength,
    /// The bytes do not form a valid value.
    InvalidEncoding,
}

/// The value of an ASCII hex digit of either case.
pub open spec fn digit_value(c: u8) -> Option<u8> {
    if 48 <= c <= 57 {
        Some((c - 48) as u8)
    } else if 97 <= c <= 102 {
        Some((c - 87) as u8)
    } else if 65 <= c <= 70 {
        Some((c - 55) as u8)
    } else {
        None
    }
}

/// The lowercase hex digit for a value below 16.
pub open spec fn digit_char(v: u8) -> char {
    if v < 10 {
        (v + 48) as char
    } else {
        (v + 87) as char
    }
}

/// Lowercase hex text of a byte string: two digits per byte, high nibble first.
pub open spec fn hex_text(b: Seq<u8>) -> Seq<char> {
    Seq::new(2 * b.len(), |k: int| digit_char(
        if k % 2 == 0 { b[k / 2] / 16 } else { b[k / 2] % 16 }))
}

/// Every byte of `t` is a hex digit.
pub open spec fn all_hex_digits(t: Seq<u8>) -> bool {
    forall|i: int| 0 <= i < t.len() ==> (#[trigger] digit_value(t[i])) is Some
}

/// The bytes that the digit pairs of `t` stand for.
pub open spec fn pairs_value(t: Seq<u8>) -> Seq<u8> {
    Seq::new(t.len() / 2, |i: int|
        (digit_value(t[2 * i])->0 * 16 + digit_value(t[2 * i + 1])->0) as u8)
}

/// Reading the UTF-8 bytes `t` as a 32-byte hex value.
pub open spec fn parse_hex32(t: Seq<u8>) -> Result<Seq<u8>, HexError> {
    if t.len() % 2 == 1 {
        Err(HexError::InvalidHex)
    } else if t.len() != 64 {
        Err(HexError::InvalidLength)
    } else if !all_hex_digits(t) {
        Err(HexError::InvalidHex)
    } else {
        Ok(pairs_value(t))
    }
}

/// The value of one hex digit.
pub fn hex_val(c: u8) -> (r: Result<u8, HexError>)
    ensures
        r == match digit_value(c) {
            Some(v) => Ok::<u8, HexError>(v),
            None => Err(HexError::InvalidHex),
        },
{
    if 48 <= c && c <= 57 {
        Ok(c - 48)
    } else if 97 <= c && c <= 102 {
        Ok(c - 87)
    } else if 65 <= c && c <= 70 {
        Ok(c - 55)
    } else {
        Err(HexError::InvalidHex)
    }
}

/// Reads 64 hex digits as 32 bytes.
pub fn decode32(text: &str) -> (r: Result<[u8; 32], HexError>)
    ensures
        match (r, parse_hex32(text.spec_bytes())) {
            (Ok(a), Ok(b)) => a@ == b,
            (Err(e1), Err(e2)) => e1 == e2,
            _ => false,
        },
{
    let t = text.as_bytes();
    let n = t.len();
    if n % 2 == 1 {
        return Err(HexError::InvalidHex);
    }
    if n != 64 {
        return Err(HexError::InvalidLength);
    }
    let mut buf = [0u8; 32];
    let mut i: usize = 0;
    while i < 32
        invariant
            t@ == text.spec_bytes(),
            t@.len() == 64,
            i <= 32,
            forall|k: int| 0 <= k < 2 * i ==> (#[trigger] digit_value(t@[k])) is Some,
            forall|k: int| 0 <= k < i ==> buf@[k] == pairs_value(t@)[k],
        decreases 32 - i,
    {
        let hi = match hex_val(t[2 * i]) {
            Ok(v) => v,
            Err(e) => {
                assert(!all_hex_digits(t@)) by {
                    assert(digit_value(t@[2 * i as int]) is None);
                }
                return Err(e);
            },
        };
        let lo = match hex_val(t[2 * i + 1]) {
            Ok(v) => v,
            Err(e) => {
                assert(!all_hex_digits(t@)) by {
                    assert(digit_value(t@[2 * i + 1]) is None);
                }
                return Err(e);
            },
        };
        buf[i] = hi * 16 + lo;
        i = i + 1;
    }
    assert(all_hex_digits(t@));
    assert(buf@ =~= pairs_value(t@));
    Ok(buf)
}

/// The text of one lowercase hex digit.
fn digit_str(v: u8) -> (r: &'static str)
    requires
        v < 16,
    ensures
        r@ == seq![digit_char(v)],
{
    proof {
        reveal_strlit("0"); reveal_strlit("1"); reveal_strlit("2"); reveal_strlit("3");
        reveal_strlit("4"); reveal_strlit("5"); reveal_strlit("6"); reveal_strlit("7");
        reveal_strlit("8"); reveal_strlit("9"); reveal_strlit("a"); reveal_strlit("b");
        reveal_strlit("c"); reveal_strlit("d"); reveal_strlit("e"); reveal_strlit("f");
    }
    match v {
        0 => "0",
        1 => "1",
        2 => "2",
        3 => "3",
        4 => "4",
        5 => "5",
        6 => "6",
        7 => "7",
        8 => "8",
        9 => "9",
        10 => "a",
        11 => "b",
        12 => "c",
        13 => "d",
        14 => "e",
        _ => "f",
    }
}

/// Lowercase hex text of a byte string.
pub fn encode(bytes: &[u8]) -> (r: String)
    ensures
        r@ == hex_text(bytes@),
{
    let mut out = String::new();
    let mut i: usize = 0;
    while i < bytes.len()
        invariant
            i <= bytes@.len(),
            out@ == hex_text(bytes@.subrange(0, i as int)),
        decreases bytes@.len() - i,
    {
        let b = bytes[i];
        out.append(digit_str(b / 16));
        out.append(digit_str(b % 16));
        proof {
            assert(hex_text(bytes@.subrange(0, i + 1)) =~= hex_text(bytes@.subrange(0, i as int))
                + seq![digit_char(b / 16), digit_char(b % 16)]);
        }
        i = i + 1;
    }
    assert(bytes@.subrange(0, bytes@.len() as int) =~= bytes@);
    out
}

} // verus!
