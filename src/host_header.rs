//! The hostname label of a machine: its id in bech32 form without a checksum,
//! under the human-readable prefix `carol`.
use crate::ids::MachineId;
use crate::text::lower_text;
use vstd::arithmetic::power2::{lemma2_to64, pow2};
use vstd::prelude::*;
use vstd::string::*;

verus! {

/// Bit `k` of `data` read as a string of `width`-bit groups, most significant
/// bit of each group first.
pub open spec fn bit_of(data: Seq<u8>, width: int, k: int) -> bool {
    ((data[k / width] >> ((width - 1 - k % width) as u8)) & 1u8) == 1u8
}

/// Every element of `data` fits in `width` bits.
pub open spec fn fits(data: Seq<u8>, width: int) -> bool {
    forall|i: int| 0 <= i < data.len() ==> (#[trigger] data[i] as int) < pow2(width as nat)
}

/// Number of groups that `convert_bits` produces.
pub open spec fn converted_len(n: int, from: int, to: int, pad: bool) -> int {
    if pad {
        (n * from + to - 1) / to
    } else {
        n * from / to
    }
}

/// When `convert_bits` succeeds: all input fits, and without padding fewer than
/// `from` bits are left over and they are all zero.
pub open spec fn converts(data: Seq<u8>, from: int, to: int, pad: bool) -> bool {
    &&& fits(data, from)
    &&& pad || {
        &&& (data.len() * from) % to < from
        &&& forall|k: int| converted_len(data.len() as int, from, to, pad) * to <= k < data.len() * from
            ==> !#[trigger] bit_of(data, from, k)
    }
}

/// `out` holds the bits of `data` regrouped, padded with zero bits at the end.
pub open spec fn regrouped(out: Seq<u8>, data: Seq<u8>, from: int, to: int) -> bool {
    forall|k: int| 0 <= k < out.len() * to ==> #[trigger] bit_of(out, to, k)
        == (k < data.len() * from && bit_of(data, from, k))
}

/// Relies on `bech32::convert_bits`: regroups bits from `from`-bit to `to`-bit
/// values, most significant first, padding the last group with zeros if `pad`;
/// without `pad` it fails on leftover bits that are too many or not zero, and it
/// fails on input values that do not fit in `from` bits.
#[verifier::external_body]
fn convert_bits(data: &[u8], from: u32, to: u32, pad: bool) -> (r: Option<Vec<u8>>)
    requires
        1 <= from <= 8,
        1 <= to <= 8,
    ensures
        r is Some <==> converts(data@, from as int, to as int, pad),
        r matches Some(v) ==> {
            &&& v@.len() == converted_len(data@.len() as int, from as int, to as int, pad)
            &&& fits(v@, to as int)
            &&& regrouped(v@, data@, from as int, to as int)
        },
{
    bech32::convert_bits(data, from, to, pad).ok()
}

/// The bech32 alphabet, by 5-bit value.
pub open spec fn charset() -> Seq<char> {
    seq!['q', 'p', 'z', 'r', 'y', '9', 'x', '8', 'g', 'f', '2', 't', 'v', 'd', 'w', '0',
         's', '3', 'j', 'n', '5', '4', 'k', 'h', 'c', 'e', '6', 'm', 'u', 'a', '7', 'l']
}

/// A prefix that bech32 accepts and keeps as it is: 1 to 83 visible ASCII
/// characters, none upper case.
pub open spec fn plain_hrp(hrp: Seq<char>) -> bool {
    &&& 1 <= hrp.len() <= 83
    &&& forall|i: int| 0 <= i < hrp.len() ==> {
        &&& 33 <= (#[trigger] hrp[i]) as u32 <= 126
        &&& !('A' <= hrp[i] <= 'Z')
    }
}

/// `hrp`, the separator `1`, then one alphabet character per 5-bit value.
pub open spec fn bech32_text(hrp: Seq<char>, data: Seq<u8>) -> Seq<char> {
    hrp + seq!['1'] + data.map_values(|v: u8| charset()[v as int])
}

/// Relies on `bech32::encode_without_checksum`: the prefix, `1`, and the
/// alphabet character of each value; a prefix with upper-case letters is lowered
/// and an invalid prefix is refused.
#[verifier::external_body]
fn encode_without_checksum(hrp: &str, data: &[u8]) -> (r: Option<String>)
    requires
        fits(data@, 5),
    ensures
        plain_hrp(hrp@) ==> (r is Some && r->Some_0@ == bech32_text(hrp@, data@)),
{
    let d: Vec<bech32::u5> = data.iter().map(|v| bech32::u5::try_from_u8(*v).unwrap()).collect();
    bech32::encode_without_checksum(hrp, d).ok()
}

/// Name for what `bech32::decode_without_checksum` makes of a text: the prefix
/// and the 5-bit values, or nothing.
pub uninterp spec fn bech32_split(s: Seq<char>) -> Option<(Seq<char>, Seq<u8>)>;

/// Relies on `bech32::decode_without_checksum`: splits at the last `1`, checks
/// the prefix and the case, and maps each character back to its value; so the
/// text of a plain prefix and 5-bit values reads back as those, and a text that
/// splits is, in lower case, the text of its prefix (lowered) and values.
#[verifier::external_body]
fn decode_without_checksum(s: &str) -> (r: Option<(String, Vec<u8>)>)
    ensures
        match r {
            Some((h, d)) => bech32_split(s@) == Some((h@, d@)) && fits(d@, 5),
            None => bech32_split(s@) is None,
        },
        r is Some ==> lower_text(s@) == bech32_text(r->Some_0.0@, r->Some_0.1@),
        forall|h: Seq<char>, d: Seq<u8>|
            plain_hrp(h) && fits(d, 5) && s@ == #[trigger] bech32_text(h, d)
            ==> (r is Some && r->Some_0.0@ == h && r->Some_0.1@ == d),
{
    match bech32::decode_without_checksum(s) {
        Ok((h, d)) => Some((h, d.into_iter().map(|v| v.to_u8()).collect())),
        Err(_) => None,
    }
}

/// The prefix of machine labels.
pub open spec fn label_hrp() -> Seq<char> {
    seq!['c', 'a', 'r', 'o', 'l']
}

/// `d` holds the 5-bit groups of the bytes `b`, the last one padded with zeros.
pub open spec fn is_base32_of(d: Seq<u8>, b: Seq<u8>) -> bool {
    &&& d.len() == converted_len(b.len() as int, 8, 5, true)
    &&& fits(d, 5)
    &&& regrouped(d, b, 8, 5)
}

/// `s` is the label of the machine whose id has the bytes `id`.
pub open spec fn is_label_of(s: Seq<char>, id: Seq<u8>) -> bool {
    exists|d: Seq<u8>| is_base32_of(d, id) && s == bech32_text(label_hrp(), d)
}

/// The label of the machine whose id has the bytes `id`: the prefix, `1`, and
/// the 5-bit groups of the id.
pub open spec fn label_of(id: Seq<u8>) -> Seq<char> {
    bech32_text(label_hrp(), choose|d: Seq<u8>| is_base32_of(d, id))
}

/// The bytes that the 5-bit values `d` stand for, when they convert.
pub open spec fn is_base256_of(v: Seq<u8>, d: Seq<u8>) -> bool {
    &&& v.len() == converted_len(d.len() as int, 5, 8, false)
    &&& regrouped(v, d, 5, 8)
}

/// The machine id that the text `s` is the label of, if any.
pub open spec fn label_id(s: Seq<char>) -> Option<MachineId> {
    match bech32_split(s) {
        Some((h, d)) => if h == label_hrp() && converts(d, 5, 8, false)
            && converted_len(d.len() as int, 5, 8, false) == 32 {
            Some(choose|id: MachineId| is_base256_of(id.view(), d))
        } else {
            None
        },
        None => None,
    }
}

/// Eight bits fix a byte.
proof fn lemma_byte_from_bits(x: u8, y: u8)
    requires
        (x >> 7u8) & 1u8 == (y >> 7u8) & 1u8,
        (x >> 6u8) & 1u8 == (y >> 6u8) & 1u8,
        (x >> 5u8) & 1u8 == (y >> 5u8) & 1u8,
        (x >> 4u8) & 1u8 == (y >> 4u8) & 1u8,
        (x >> 3u8) & 1u8 == (y >> 3u8) & 1u8,
        (x >> 2u8) & 1u8 == (y >> 2u8) & 1u8,
        (x >> 1u8) & 1u8 == (y >> 1u8) & 1u8,
        (x >> 0u8) & 1u8 == (y >> 0u8) & 1u8,
    ensures
        x == y,
{
    assert(x == y) by (bit_vector)
        requires
            (x >> 7u8) & 1u8 == (y >> 7u8) & 1u8,
            (x >> 6u8) & 1u8 == (y >> 6u8) & 1u8,
            (x >> 5u8) & 1u8 == (y >> 5u8) & 1u8,
            (x >> 4u8) & 1u8 == (y >> 4u8) & 1u8,
            (x >> 3u8) & 1u8 == (y >> 3u8) & 1u8,
            (x >> 2u8) & 1u8 == (y >> 2u8) & 1u8,
            (x >> 1u8) & 1u8 == (y >> 1u8) & 1u8,
            (x >> 0u8) & 1u8 == (y >> 0u8) & 1u8,
    ;
}

/// Five bits fix a value below 32.
proof fn lemma_group_from_bits(x: u8, y: u8)
    requires
        x < 32,
        y < 32,
        (x >> 4u8) & 1u8 == (y >> 4u8) & 1u8,
        (x >> 3u8) & 1u8 == (y >> 3u8) & 1u8,
        (x >> 2u8) & 1u8 == (y >> 2u8) & 1u8,
        (x >> 1u8) & 1u8 == (y >> 1u8) & 1u8,
        (x >> 0u8) & 1u8 == (y >> 0u8) & 1u8,
    ensures
        x == y,
{
    assert(x == y) by (bit_vector)
        requires
            x < 32,
            y < 32,
            (x >> 4u8) & 1u8 == (y >> 4u8) & 1u8,
            (x >> 3u8) & 1u8 == (y >> 3u8) & 1u8,
            (x >> 2u8) & 1u8 == (y >> 2u8) & 1u8,
            (x >> 1u8) & 1u8 == (y >> 1u8) & 1u8,
            (x >> 0u8) & 1u8 == (y >> 0u8) & 1u8,
    ;
}

/// Bit `j` of group `i` agrees in two group strings with the same bits.
proof fn lemma_same_group_bit(v: Seq<u8>, b: Seq<u8>, i: int, j: int)
    requires
        v.len() == b.len(),
        0 <= i < v.len(),
        0 <= j < 5,
        forall|k: int| 0 <= k < 5 * v.len() ==> #[trigger] bit_of(v, 5, k) == bit_of(b, 5, k),
    ensures
        ((v[i] >> ((4 - j) as u8)) & 1u8) == ((b[i] >> ((4 - j) as u8)) & 1u8),
{
    let k = 5 * i + j;
    assert(k / 5 == i && k % 5 == j);
    assert(bit_of(v, 5, k) == bit_of(b, 5, k));
    lemma_bit_is_0_or_1(v[i], (4 - j) as u8);
    lemma_bit_is_0_or_1(b[i], (4 - j) as u8);
}

/// The 5-bit groups of a byte string are unique.
proof fn lemma_base32_unique(d1: Seq<u8>, d2: Seq<u8>, b: Seq<u8>)
    requires
        is_base32_of(d1, b),
        is_base32_of(d2, b),
    ensures
        d1 == d2,
{
    lemma2_to64();
    assert forall|k: int| 0 <= k < 5 * d1.len() implies #[trigger] bit_of(d1, 5, k) == bit_of(d2, 5, k) by {
        assert(bit_of(d1, 5, k) == (k < b.len() * 8 && bit_of(b, 8, k)));
        assert(bit_of(d2, 5, k) == (k < b.len() * 8 && bit_of(b, 8, k)));
    }
    assert forall|i: int| 0 <= i < d1.len() implies d1[i] == d2[i] by {
        assert((d1[i] as int) < pow2(5) && (d2[i] as int) < pow2(5));
        lemma_same_group_bit(d1, d2, i, 0);
        lemma_same_group_bit(d1, d2, i, 1);
        lemma_same_group_bit(d1, d2, i, 2);
        lemma_same_group_bit(d1, d2, i, 3);
        lemma_same_group_bit(d1, d2, i, 4);
        lemma_group_from_bits(d1[i], d2[i]);
    }
    assert(d1 =~= d2);
}

/// A bit is 0 or 1.
proof fn lemma_bit_is_0_or_1(x: u8, s: u8)
    ensures
        (x >> s) & 1u8 == 0u8 || (x >> s) & 1u8 == 1u8,
{
    assert((x >> s) & 1u8 == 0u8 || (x >> s) & 1u8 == 1u8) by (bit_vector);
}

/// Bit `j` of byte `i` agrees in two byte strings with the same bits.
proof fn lemma_same_bit(v: Seq<u8>, b: Seq<u8>, i: int, j: int)
    requires
        v.len() == b.len(),
        0 <= i < v.len(),
        0 <= j < 8,
        forall|k: int| 0 <= k < 8 * v.len() ==> #[trigger] bit_of(v, 8, k) == bit_of(b, 8, k),
    ensures
        ((v[i] >> ((7 - j) as u8)) & 1u8) == ((b[i] >> ((7 - j) as u8)) & 1u8),
{
    let k = 8 * i + j;
    assert(k / 8 == i && k % 8 == j);
    assert(bit_of(v, 8, k) == bit_of(b, 8, k));
    lemma_bit_is_0_or_1(v[i], (7 - j) as u8);
    lemma_bit_is_0_or_1(b[i], (7 - j) as u8);
}

/// Two byte strings with the same bits are equal.
proof fn lemma_same_bits_same_bytes(v: Seq<u8>, b: Seq<u8>)
    requires
        v.len() == b.len(),
        forall|k: int| 0 <= k < 8 * v.len() ==> #[trigger] bit_of(v, 8, k) == bit_of(b, 8, k),
    ensures
        v == b,
{
    assert forall|i: int| 0 <= i < v.len() implies v[i] == b[i] by {
        lemma_same_bit(v, b, i, 0);
        lemma_same_bit(v, b, i, 1);
        lemma_same_bit(v, b, i, 2);
        lemma_same_bit(v, b, i, 3);
        lemma_same_bit(v, b, i, 4);
        lemma_same_bit(v, b, i, 5);
        lemma_same_bit(v, b, i, 6);
        lemma_same_bit(v, b, i, 7);
        lemma_byte_from_bits(v[i], b[i]);
    }
    assert(v =~= b);
}

/// The 5-bit groups of 32 bytes convert back to those bytes.
pub proof fn lemma_base32_round_trip(d: Seq<u8>, b: Seq<u8>)
    requires
        b.len() == 32,
        is_base32_of(d, b),
    ensures
        converts(d, 5, 8, false),
        forall|v: Seq<u8>| is_base256_of(v, d) ==> v == b,
{
    lemma2_to64();
    assert(d.len() == 52);
    assert forall|v: Seq<u8>| is_base256_of(v, d) implies v == b by {
        assert(v.len() == 32);
        assert forall|k: int| 0 <= k < 8 * v.len() implies #[trigger] bit_of(v, 8, k) == bit_of(b, 8, k) by {
            assert(bit_of(v, 8, k) == (k < d.len() * 5 && bit_of(d, 5, k)));
            assert(bit_of(d, 5, k) == (k < b.len() * 8 && bit_of(b, 8, k)));
        }
        lemma_same_bits_same_bytes(v, b);
    }
    assert forall|k: int| converted_len(d.len() as int, 5, 8, false) * 8 <= k < d.len() * 5
        implies !#[trigger] bit_of(d, 5, k) by {
        assert(bit_of(d, 5, k) == (k < b.len() * 8 && bit_of(b, 8, k)));
    }
}

/// 5-bit values that convert to 32 bytes are the 5-bit groups of those bytes.
proof fn lemma_canonical_label(d: Seq<u8>, v: Seq<u8>)
    requires
        fits(d, 5),
        converts(d, 5, 8, false),
        converted_len(d.len() as int, 5, 8, false) == 32,
        is_base256_of(v, d),
    ensures
        is_base32_of(d, v),
{
    assert(d.len() == 52);
    assert(v.len() == 32);
    assert forall|k: int| 0 <= k < d.len() * 5 implies #[trigger] bit_of(d, 5, k)
        == (k < v.len() * 8 && bit_of(v, 8, k)) by {
        if k < 256 {
            assert(bit_of(v, 8, k) == (k < d.len() * 5 && bit_of(d, 5, k)));
        }
    }
}

/// The machine id that a label's prefix and 5-bit values stand for: the prefix
/// must be `carol` and the values must convert to exactly 32 bytes.
pub fn machine_id_from_label_parts(hrp: &str, data: &[u8]) -> (r: Option<MachineId>)
    ensures
        r is Some <==> hrp@ == label_hrp() && converts(data@, 5, 8, false)
            && converted_len(data@.len() as int, 5, 8, false) == 32,
        r matches Some(id) ==> is_base256_of(id.view(), data@),
{
    proof { reveal_strlit("carol"); }
    let prefix = "carol";
    if hrp.unicode_len() != 5 {
        return None;
    }
    let mut i: usize = 0;
    while i < 5
        invariant
            hrp@.len() == 5,
            prefix@ == label_hrp(),
            i <= 5,
            forall|k: int| 0 <= k < i ==> hrp@[k] == label_hrp()[k],
        decreases 5 - i,
    {
        if hrp.get_char(i) != prefix.get_char(i) {
            return None;
        }
        i = i + 1;
    }
    assert(hrp@ =~= label_hrp());
    let bytes = match convert_bits(data, 5, 8, false) {
        Some(v) => v,
        None => return None,
    };
    if bytes.len() != 32 {
        return None;
    }
    let mut arr = [0u8; 32];
    let mut j: usize = 0;
    while j < 32
        invariant
            bytes@.len() == 32,
            j <= 32,
            forall|k: int| 0 <= k < j ==> arr@[k] == bytes@[k],
        decreases 32 - j,
    {
        arr[j] = bytes[j];
        j = j + 1;
    }
    assert(arr@ =~= bytes@);
    Some(MachineId::from_bytes(arr))
}

/// The hostname label of a machine.
pub fn host_header_label_for_machine(machine_id: MachineId) -> (r: String)
    ensures
        is_label_of(r@, machine_id.view()),
        r@ == label_of(machine_id.view()),
{
    proof {
        reveal_strlit("carol");
        lemma2_to64();
    }
    let bytes = machine_id.to_bytes();
    assert(fits(bytes@, 8));
    let data = match convert_bits(bytes.as_slice(), 8, 5, true) {
        Some(d) => d,
        None => {
            proof { assert(false); }
            Vec::new()
        },
    };
    assert(plain_hrp("carol"@));
    match encode_without_checksum("carol", data.as_slice()) {
        Some(s) => {
            assert(is_base32_of(data@, machine_id.view()));
            assert("carol"@ =~= label_hrp());
            assert(s@ == bech32_text(label_hrp(), data@));
            proof {
                let c = choose|d: Seq<u8>| is_base32_of(d, machine_id.view());
                lemma_base32_unique(c, data@, machine_id.view());
            }
            s
        },
        None => {
            proof { assert(false); }
            String::new()
        },
    }
}

/// Reads a hostname label back as a machine id; a label made from an id gives
/// that id back.
pub fn parse_host_header_label_for_machine(s: &str) -> (r: Option<MachineId>)
    ensures
        r is Some <==> (bech32_split(s@) matches Some((h, d)) && h == label_hrp()
            && converts(d, 5, 8, false) && converted_len(d.len() as int, 5, 8, false) == 32),
        r matches Some(id) ==> is_base256_of(id.view(), bech32_split(s@)->Some_0.1),
        r == label_id(s@),
        r matches Some(id) ==> lower_text(s@) == label_of(id.view()),
        forall|id: MachineId| is_label_of(s@, #[trigger] id.view()) ==> r == Some(id),
{
    let r = match decode_without_checksum(s) {
        Some((h, d)) => machine_id_from_label_parts(h.as_str(), d.as_slice()),
        None => None,
    };
    proof {
        if r is Some {
            let id = r->Some_0;
            let d = bech32_split(s@)->Some_0.1;
            let other = choose|x: MachineId| is_base256_of(x.view(), d);
            assert(is_base256_of(id.view(), d));
            lemma_same_bits_same_bytes(other.view(), id.view());
            crate::ids::lemma_machine_id_ext(other, id);
            lemma_canonical_label(d, id.view());
            let c = choose|x: Seq<u8>| is_base32_of(x, id.view());
            lemma_base32_unique(c, d, id.view());
        }
        assert forall|id: MachineId| is_label_of(s@, #[trigger] id.view()) implies r == Some(id) by {
            let d = choose|d: Seq<u8>| is_base32_of(d, id.view()) && s@ == bech32_text(label_hrp(), d);
            reveal_strlit("carol");
            lemma2_to64();
            assert(plain_hrp(label_hrp()));
            lemma_base32_round_trip(d, id.view());
            let rid = r->Some_0;
            crate::ids::lemma_machine_id_ext(rid, id);
        }
    }
    r
}

} // verus!
