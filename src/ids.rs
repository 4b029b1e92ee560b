//! Content-addressed identities of binaries and machines.
use sha2::Digest;
use crate::hex::{decode32, encode, hex_text, parse_hex32, HexError};
use vstd::prelude::*;
use vstd::string::*;

verus! {

/// Name for the SHA-256 digest of a byte string.
pub uninterp spec fn sha256_of(data: Seq<u8>) -> Seq<u8>;

/// Relies on `sha2::Sha256::digest`: 32 bytes that depend on the input alone.
#[verifier::external_body]
fn sha256(data: &[u8]) -> (r: [u8; 32])
    ensures
        r@ == sha256_of(data@),
{
    <sha2::Sha256 as Digest>::digest(data).into()
}

/// Identity of an uploaded binary: the digest of its bytes.
#[derive(Clone, Copy, Eq, Hash, PartialOrd, Ord, Debug)]
pub struct BinaryId(pub [u8; 32]);

/// Identity of a machine: the digest of its binary's id followed by its parameters.
#[derive(Clone, Copy, Eq, Hash, PartialOrd, Ord, Debug)]
pub struct MachineId(pub [u8; 32]);

/// Whether two 32-byte arrays hold the same bytes.
fn same_bytes(a: &[u8; 32], b: &[u8; 32]) -> (r: bool)
    ensures
        r == (a@ == b@),
{
    let mut i: usize = 0;
    while i < 32
        invariant
            i <= 32,
            forall|k: int| 0 <= k < i ==> a@[k] == b@[k],
        decreases 32 - i,
    {
        if a[i] != b[i] {
            return false;
        }
        i = i + 1;
    }
    assert(a@ =~= b@);
    true
}

impl PartialEq for BinaryId {
    fn eq(&self, o: &BinaryId) -> (r: bool) {
        same_bytes(&self.0, &o.0)
    }
}

impl vstd::std_specs::cmp::PartialEqSpecImpl for BinaryId {
    open spec fn obeys_eq_spec() -> bool {
        true
    }

    open spec fn eq_spec(&self, o: &BinaryId) -> bool {
        self.0@ == o.0@
    }
}

impl PartialEq for MachineId {
    fn eq(&self, o: &MachineId) -> (r: bool) {
        same_bytes(&self.0, &o.0)
    }
}

impl vstd::std_specs::cmp::PartialEqSpecImpl for MachineId {
    open spec fn obeys_eq_spec() -> bool {
        true
    }

    open spec fn eq_spec(&self, o: &MachineId) -> bool {
        self.0@ == o.0@
    }
}

/// Two ids are the same value exactly when they hold the same bytes.
pub proof fn lemma_binary_id_ext(a: BinaryId, b: BinaryId)
    ensures
        (a.0@ == b.0@) <==> a == b,
{
    if a.0@ == b.0@ {
        vstd::array::axiom_array_ext_equal(a.0, b.0);
    }
}

/// Two ids are the same value exactly when they hold the same bytes.
pub proof fn lemma_machine_id_ext(a: MachineId, b: MachineId)
    ensures
        (a.0@ == b.0@) <==> a == b,
{
    if a.0@ == b.0@ {
        vstd::array::axiom_array_ext_equal(a.0, b.0);
    }
}

/// The bytes hashed to form a machine id.
pub open spec fn machine_preimage(binary: Seq<u8>, params: Seq<u8>) -> Seq<u8> {
    binary + params
}

impl BinaryId {
    pub open spec fn view(&self) -> Seq<u8> {
        self.0@
    }

    /// The id holding these bytes.
    pub fn from_bytes(bytes: [u8; 32]) -> (r: BinaryId)
        ensures
            r.0 == bytes,
    {
        BinaryId(bytes)
    }

    /// The bytes of the id.
    pub fn to_bytes(&self) -> (r: [u8; 32])
        ensures
            r == self.0,
    {
        self.0
    }

    /// The bytes of the id, borrowed.
    pub fn as_ref(&self) -> (r: &[u8; 32])
        ensures
            *r == self.0,
    {
        &self.0
    }

    /// Reads the id from its 64-digit hex text.
    pub fn from_str(text: &str) -> (r: Result<BinaryId, HexError>)
        ensures
            match (r, parse_hex32(text.spec_bytes())) {
                (Ok(id), Ok(b)) => id.view() == b,
                (Err(e1), Err(e2)) => e1 == e2,
                _ => false,
            },
    {
        match decode32(text) {
            Ok(bytes) => Ok(BinaryId(bytes)),
            Err(e) => Err(e),
        }
    }

    /// The id as 64 lowercase hex digits.
    pub fn to_string(&self) -> (r: String)
        ensures
            r@ == hex_text(self.view()),
    {
        encode(self.0.as_slice())
    }

    /// The id of a binary with the given bytes.
    pub fn new(binary: &[u8]) -> (r: BinaryId)
        ensures
            r.view() == sha256_of(binary@),
    {
        BinaryId(sha256(binary))
    }
}

impl MachineId {
    pub open spec fn view(&self) -> Seq<u8> {
        self.0@
    }

    /// The id holding these bytes.
    pub fn from_bytes(bytes: [u8; 32]) -> (r: MachineId)
        ensures
            r.0 == bytes,
    {
        MachineId(bytes)
    }

    /// The bytes of the id.
    pub fn to_bytes(&self) -> (r: [u8; 32])
        ensures
            r == self.0,
    {
        self.0
    }

    /// The bytes of the id, borrowed.
    pub fn as_ref(&self) -> (r: &[u8; 32])
        ensures
            *r == self.0,
    {
        &self.0
    }

    /// Reads the id from its 64-digit hex text.
    pub fn from_str(text: &str) -> (r: Result<MachineId, HexError>)
        ensures
            match (r, parse_hex32(text.spec_bytes())) {
                (Ok(id), Ok(b)) => id.view() == b,
                (Err(e1), Err(e2)) => e1 == e2,
                _ => false,
            },
    {
        match decode32(text) {
            Ok(bytes) => Ok(MachineId(bytes)),
            Err(e) => Err(e),
        }
    }

    /// The id as 64 lowercase hex digits.
    pub fn to_string(&self) -> (r: String)
        ensures
            r@ == hex_text(self.view()),
    {
        encode(self.0.as_slice())
    }

    /// The id of the machine that binds `binary_id` to `params`.
    pub fn new(binary_id: BinaryId, params: &[u8]) -> (r: MachineId)
        ensures
            r.view() == sha256_of(machine_preimage(binary_id.view(), params@)),
    {
        let mut buf: Vec<u8> = Vec::new();
        let mut i: usize = 0;
        while i < 32
            invariant
                i <= 32,
                buf@ == binary_id.view().subrange(0, i as int),
            decreases 32 - i,
        {
            buf.push(binary_id.0[i]);
            i = i + 1;
        }
        let mut j: usize = 0;
        while j < params.len()
            invariant
                j <= params@.len(),
                buf@ == binary_id.view() + params@.subrange(0, j as int),
            decreases params@.len() - j,
        {
            buf.push(params[j]);
            j = j + 1;
        }
        assert(params@.subrange(0, params@.len() as int) =~= params@);
        MachineId(sha256(buf.as_slice()))
    }
}

} // verus!
