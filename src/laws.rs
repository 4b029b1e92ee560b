//! Properties that relate several calls of the library.
use crate::hex::{all_hex_digits, digit_char, digit_value, hex_text, pairs_value, parse_hex32, HexError};
use crate::ids::{machine_preimage, sha256_of, BinaryId, MachineId, lemma_binary_id_ext, lemma_machine_id_ext};
use crate::loader::{CompiledBinary, LoadError};
use crate::host_header::label_id;
use crate::registry::{create_post, upload_post};
use crate::resolver::{
    first_machine, host_step, is_ip_literal, is_localhost, label_eq, machine_of_name, machine_under,
    name_eq, name_labels, HostStepView, Resolution,
};
use vstd::prelude::*;
use vstd::utf8::{encode_utf8, is_ascii_chars, is_ascii_chars_encode_utf8};

verus! {

/// The id of a byte string is the same on every computation.
pub proof fn law_binary_id_stable(a: BinaryId, b: BinaryId, bytes: Seq<u8>)
    requires
        a.view() == sha256_of(bytes),
        b.view() == sha256_of(bytes),
    ensures
        a == b,
{
    lemma_binary_id_ext(a, b);
}

/// The id of a machine is the same on every computation from the same binary
/// id and parameters.
pub proof fn law_machine_id_stable(a: MachineId, b: MachineId, binary_id: BinaryId, params: Seq<u8>)
    requires
        a.view() == sha256_of(machine_preimage(binary_id.view(), params)),
        b.view() == sha256_of(machine_preimage(binary_id.view(), params)),
    ensures
        a == b,
{
    lemma_machine_id_ext(a, b);
}

/// After a successful upload of some bytes, uploading them again succeeds with
/// the same id, reports that the binary already existed, and changes nothing.
pub proof fn law_upload_twice(
    m0: Map<BinaryId, CompiledBinary>,
    m1: Map<BinaryId, CompiledBinary>,
    m2: Map<BinaryId, CompiledBinary>,
    bytes: Seq<u8>,
    r1: Result<(bool, BinaryId), LoadError>,
    r2: Result<(bool, BinaryId), LoadError>,
)
    requires
        upload_post(m0, m1, bytes, r1),
        r1 is Ok,
        upload_post(m1, m2, bytes, r2),
    ensures
        r2 is Ok,
        r2->Ok_0.0,
        r2->Ok_0.1 == r1->Ok_0.1,
        m2 == m1,
{
    let id1 = r1->Ok_0.1;
    match r2 {
        Ok((_, id2)) => {
            lemma_binary_id_ext(id1, id2);
        },
        Err(_) => {
            assert(m1.contains_key(id1));
        },
    }
}

/// Creating the same machine twice gives the same id both times; the second
/// creation reports that the machine existed and changes nothing.
pub proof fn law_create_twice(
    m0: Map<MachineId, (BinaryId, Seq<u8>)>,
    m1: Map<MachineId, (BinaryId, Seq<u8>)>,
    m2: Map<MachineId, (BinaryId, Seq<u8>)>,
    binary_id: BinaryId,
    params: Seq<u8>,
    existed1: bool,
    id1: MachineId,
    existed2: bool,
    id2: MachineId,
)
    requires
        create_post(m0, m1, binary_id, params, existed1, id1),
        create_post(m1, m2, binary_id, params, existed2, id2),
    ensures
        id2 == id1,
        existed2,
        m2 == m1,
{
    lemma_machine_id_ext(id1, id2);
}

/// Different binaries, or different parameters, give different bytes to hash
/// for the machine id. (That the digests then differ is the collision
/// resistance of SHA-256, which is not proved here.)
pub proof fn law_machine_preimage_distinct(b1: BinaryId, b2: BinaryId, p1: Seq<u8>, p2: Seq<u8>)
    requires
        b1 != b2 || p1 != p2,
    ensures
        machine_preimage(b1.view(), p1) != machine_preimage(b2.view(), p2),
{
    let x = machine_preimage(b1.view(), p1);
    let y = machine_preimage(b2.view(), p2);
    if x == y {
        assert(b1.view() =~= x.subrange(0, 32));
        assert(b2.view() =~= y.subrange(0, 32));
        lemma_binary_id_ext(b1, b2);
        assert(p1 =~= x.subrange(32, x.len() as int));
        assert(p2 =~= y.subrange(32, y.len() as int));
    }
}

/// A hex digit, as a byte, reads back as its value.
proof fn lemma_digit_round_trip(v: u8)
    requires
        v < 16,
    ensures
        '\0' <= digit_char(v) <= '\u{7f}',
        digit_value(digit_char(v) as u8) == Some(v),
{
}

/// The hex text of 32 bytes reads back as those bytes: an id's text form names
/// that id.
pub proof fn law_hex_text_round_trip(b: Seq<u8>)
    requires
        b.len() == 32,
    ensures
        parse_hex32(encode_utf8(hex_text(b))) == Ok::<Seq<u8>, HexError>(b),
{
    let t = hex_text(b);
    assert forall|k: int| 0 <= k < t.len() implies '\0' <= #[trigger] t[k] <= '\u{7f}' by {
        lemma_digit_round_trip(if k % 2 == 0 { b[k / 2] / 16 } else { b[k / 2] % 16 });
    }
    assert(is_ascii_chars(t));
    is_ascii_chars_encode_utf8(t);
    let e = encode_utf8(t);
    assert forall|k: int| 0 <= k < e.len() implies #[trigger] digit_value(e[k])
        == Some(if k % 2 == 0 { b[k / 2] / 16 } else { b[k / 2] % 16 }) by {
        assert(e[k] == t[k] as u8);
        lemma_digit_round_trip(if k % 2 == 0 { b[k / 2] / 16 } else { b[k / 2] % 16 });
    }
    assert(all_hex_digits(e));
    assert forall|i: int| 0 <= i < 32 implies #[trigger] pairs_value(e)[i] == b[i] by {
        assert((2 * i) / 2 == i && (2 * i) % 2 == 0);
        assert((2 * i + 1) / 2 == i && (2 * i + 1) % 2 == 1);
        assert(digit_value(e[2 * i]) == Some(b[i] / 16));
        assert(digit_value(e[2 * i + 1]) == Some(b[i] % 16));
    }
    assert(pairs_value(e) =~= b);
}

/// The base domain `carol.example`, as labels.
pub open spec fn carol_example() -> Seq<Seq<char>> {
    seq![seq!['c', 'a', 'r', 'o', 'l'], seq!['e', 'x', 'a', 'm', 'p', 'l', 'e']]
}

proof fn lemma_name_eq_refl(n: Seq<Seq<char>>)
    ensures
        name_eq(n, n),
{
    assert forall|i: int| 0 <= i < n.len() implies label_eq(#[trigger] n[i], n[i]) by {}
}

/// Under the base domain `carol.example`, a host `<label>.carol.example` whose
/// first label is the label of machine `id` addresses that machine, decided
/// without the network.
pub proof fn law_machine_host_resolves(host: Seq<char>, label: Seq<char>, id: MachineId)
    requires
        !is_ip_literal(host),
        name_labels(host) == Some(seq![label] + carol_example()),
        label_id(label) == Some(id),
    ensures
        host_step(Some(carol_example()), Seq::empty(), Some(host), false)
            == HostStepView::Resolved(Resolution::Machine(id)),
{
    let n = seq![label] + carol_example();
    assert(n.last() == carol_example()[1]);
    assert(!is_localhost(n));
    assert(!name_eq(n, carol_example()));
    assert(n.drop_first() =~= carol_example());
    lemma_name_eq_refl(carol_example());
    assert(machine_of_name(n, carol_example()) == Some(id));
}

/// Under the base domain `carol.example`, the base domain itself, in any case,
/// and an IP address are the API.
pub proof fn law_api_hosts(host: Seq<char>)
    requires
        is_ip_literal(host) || (name_labels(host) matches Some(n) && name_eq(n, carol_example())),
    ensures
        host_step(Some(carol_example()), Seq::empty(), Some(host), false)
            == HostStepView::Resolved(Resolution::Api),
{
}

/// A host that is no IP address, not localhost, not the base domain and not a
/// machine label under it is decided by its CNAME records; with none, by
/// `resolve_cname`, it is `Unknown`.
pub proof fn law_unmatched_host_looks_up(base: Seq<Seq<char>>, host: Seq<char>, n: Seq<Seq<char>>)
    requires
        !is_ip_literal(host),
        name_labels(host) == Some(n),
        !is_localhost(n),
        !name_eq(n, base),
        machine_of_name(n, base) is None,
    ensures
        host_step(Some(base), Seq::empty(), Some(host), false) == HostStepView::LookupCname(n),
{
}

/// When the CNAME targets before position `k` address no machine and the
/// target at `k` addresses machine `id`, the host is that machine.
pub proof fn law_cname_chain(ts: Seq<Seq<Seq<char>>>, base: Option<Seq<Seq<char>>>, k: int, id: MachineId)
    requires
        0 <= k < ts.len(),
        forall|i: int| 0 <= i < k ==> (#[trigger] machine_under(ts[i], base)) is None,
        machine_under(ts[k], base) == Some(id),
    ensures
        first_machine(ts, base) == Resolution::Machine(id),
    decreases k,
{
    if k > 0 {
        let rest = ts.drop_first();
        assert forall|i: int| 0 <= i < k - 1 implies (#[trigger] machine_under(rest[i], base)) is None by {
            assert(rest[i] == ts[i + 1]);
        }
        assert(rest[k - 1] == ts[k]);
        law_cname_chain(rest, base, k - 1, id);
        assert(machine_under(ts[0], base) is None);
    }
}

} // verus!
