//! The in-memory registries of binaries and machines.
use crate::ids::{machine_preimage, sha256_of, BinaryId, MachineId, lemma_binary_id_ext, lemma_machine_id_ext};
use crate::loader::{CompiledBinary, Executor, LoadError};
use vstd::prelude::*;

verus! {

/// What a machine is: the binary it runs and the parameters it was created with.
pub struct MachineRecord {
    pub binary_id: BinaryId,
    pub params: Vec<u8>,
}

impl MachineRecord {
    pub open spec fn view(&self) -> (BinaryId, Seq<u8>) {
        (self.binary_id, self.params@)
    }
}

/// Why a registry lookup failed.
#[derive(Clone, Copy, Debug)]
pub enum NotFound {
    Binary(BinaryId),
    Machine(MachineId),
}

/// Binaries by id and machines by id. Entries are added once and never change.
pub struct ExecutorState {
    binaries: Vec<CompiledBinary>,
    machines: Vec<(MachineId, MachineRecord)>,
    binary_model: Ghost<Map<BinaryId, CompiledBinary>>,
    machine_model: Ghost<Map<MachineId, (BinaryId, Seq<u8>)>>,
}

/// What an upload of `bytes` does to the binaries `before`, leaving `after`.
pub open spec fn upload_post(
    before: Map<BinaryId, CompiledBinary>,
    after: Map<BinaryId, CompiledBinary>,
    bytes: Seq<u8>,
    r: Result<(bool, BinaryId), LoadError>,
) -> bool {
    match r {
        Ok((existed, id)) => {
            &&& id.view() == sha256_of(bytes)
            &&& existed == before.contains_key(id)
            &&& after.contains_key(id)
            &&& after[id].spec_binary_id() == id
            &&& existed ==> after == before
            &&& !existed ==> after == before.insert(id, after[id])
        },
        Err(_) => {
            &&& after == before
            &&& forall|id: BinaryId| id.view() == sha256_of(bytes) ==> !before.contains_key(id)
        },
    }
}

/// What creating the machine `(binary_id, params)` does to the machines `before`.
pub open spec fn create_post(
    before: Map<MachineId, (BinaryId, Seq<u8>)>,
    after: Map<MachineId, (BinaryId, Seq<u8>)>,
    binary_id: BinaryId,
    params: Seq<u8>,
    existed: bool,
    id: MachineId,
) -> bool {
    &&& id.view() == sha256_of(machine_preimage(binary_id.view(), params))
    &&& existed == before.contains_key(id)
    &&& after.contains_key(id)
    &&& existed ==> after == before
    &&& !existed ==> after == before.insert(id, (binary_id, params))
}

impl ExecutorState {
    /// The compiled binaries, by id.
    pub closed spec fn binaries(&self) -> Map<BinaryId, CompiledBinary> {
        self.binary_model@
    }

    /// The machines, by id: each with its binary id and parameters.
    pub closed spec fn machines(&self) -> Map<MachineId, (BinaryId, Seq<u8>)> {
        self.machine_model@
    }

    /// The vectors hold exactly the entries of the maps, once each, and every
    /// machine refers to a binary that is present.
    pub closed spec fn wf(&self) -> bool {
        &&& forall|i: int| 0 <= i < self.binaries@.len() ==> {
            &&& #[trigger] self.binary_model@.contains_key(self.binaries@[i].spec_binary_id())
            &&& self.binary_model@[self.binaries@[i].spec_binary_id()] == self.binaries@[i]
        }
        &&& forall|k: BinaryId| #[trigger] self.binary_model@.contains_key(k) ==> exists|i: int|
            0 <= i < self.binaries@.len() && self.binaries@[i].spec_binary_id() == k
        &&& forall|k: BinaryId| #[trigger] self.binary_model@.contains_key(k) ==> self.binary_model@[k].spec_binary_id() == k
        &&& forall|i: int| 0 <= i < self.machines@.len() ==> {
            &&& #[trigger] self.machine_model@.contains_key(self.machines@[i].0)
            &&& self.machine_model@[self.machines@[i].0] == self.machines@[i].1@
        }
        &&& forall|k: MachineId| #[trigger] self.machine_model@.contains_key(k) ==> exists|i: int|
            0 <= i < self.machines@.len() && self.machines@[i].0 == k
        &&& forall|k: MachineId| #[trigger] self.machine_model@.contains_key(k)
            ==> self.binary_model@.contains_key(self.machine_model@[k].0)
    }

    /// Empty registries.
    pub fn new() -> (r: ExecutorState)
        ensures
            r.wf(),
            r.binaries() == Map::<BinaryId, CompiledBinary>::empty(),
            r.machines() == Map::<MachineId, (BinaryId, Seq<u8>)>::empty(),
    {
        ExecutorState {
            binaries: Vec::new(),
            machines: Vec::new(),
            binary_model: Ghost(Map::empty()),
            machine_model: Ghost(Map::empty()),
        }
    }

    fn find_binary(&self, id: BinaryId) -> (r: Option<usize>)
        requires
            self.wf(),
        ensures
            r is None <==> !self.binaries().contains_key(id),
            r matches Some(i) ==> i < self.binaries@.len() && self.binaries@[i as int]
                == self.binaries()[id],
    {
        let mut i: usize = 0;
        while i < self.binaries.len()
            invariant
                self.wf(),
                i <= self.binaries@.len(),
                forall|k: int| 0 <= k < i ==> self.binaries@[k].spec_binary_id() != id,
            decreases self.binaries@.len() - i,
        {
            let b = &self.binaries[i];
            if b.binary_id() == id {
                proof { lemma_binary_id_ext(b.spec_binary_id(), id); }
                return Some(i);
            }
            proof { lemma_binary_id_ext(b.spec_binary_id(), id); }
            i = i + 1;
        }
        None
    }

    fn find_machine(&self, id: MachineId) -> (r: Option<usize>)
        requires
            self.wf(),
        ensures
            r is None <==> !self.machines().contains_key(id),
            r matches Some(i) ==> i < self.machines@.len() && self.machines@[i as int].0 == id
                && self.machines@[i as int].1@ == self.machines()[id],
    {
        let mut i: usize = 0;
        while i < self.machines.len()
            invariant
                self.wf(),
                i <= self.machines@.len(),
                forall|k: int| 0 <= k < i ==> self.machines@[k].0 != id,
            decreases self.machines@.len() - i,
        {
            let m = &self.machines[i];
            if m.0 == id {
                proof {
                    lemma_machine_id_ext(m.0, id);
                    assert(self.machine_model@.contains_key(self.machines@[i as int].0));
                }
                return Some(i);
            }
            proof { lemma_machine_id_ext(m.0, id); }
            i = i + 1;
        }
        None
    }

    /// The binary with this id, if it was uploaded.
    pub fn get_binary(&self, binary_id: BinaryId) -> (r: Option<&CompiledBinary>)
        requires
            self.wf(),
        ensures
            r is Some <==> self.binaries().contains_key(binary_id),
            r matches Some(b) ==> *b == self.binaries()[binary_id] && b.spec_binary_id()
                == binary_id,
    {
        match self.find_binary(binary_id) {
            Some(i) => Some(&self.binaries[i]),
            None => None,
        }
    }

    /// The machine with this id, if it was created.
    pub fn get_machine(&self, machine_id: MachineId) -> (r: Option<&MachineRecord>)
        requires
            self.wf(),
        ensures
            r is Some <==> self.machines().contains_key(machine_id),
            r matches Some(m) ==> m@ == self.machines()[machine_id],
    {
        match self.find_machine(machine_id) {
            Some(i) => Some(&self.machines[i].1),
            None => None,
        }
    }

    /// Adds a compiled binary under its own id; a binary already present is kept.
    pub fn insert_binary(&mut self, compiled_binary: CompiledBinary)
        requires
            old(self).wf(),
        ensures
            final(self).wf(),
            final(self).machines() == old(self).machines(),
            old(self).binaries().contains_key(compiled_binary.spec_binary_id())
                ==> final(self).binaries() == old(self).binaries(),
            !old(self).binaries().contains_key(compiled_binary.spec_binary_id())
                ==> final(self).binaries() == old(self).binaries().insert(
                compiled_binary.spec_binary_id(),
                compiled_binary,
            ),
    {
        let id = compiled_binary.binary_id();
        if self.find_binary(id).is_none() {
            let ghost before = self.binary_model@;
            self.binaries.push(compiled_binary);
            self.binary_model = Ghost(before.insert(id, compiled_binary));
            assert(self.wf()) by {
                assert forall|k: BinaryId| #[trigger] self.binary_model@.contains_key(k) implies exists|i: int|
                    0 <= i < self.binaries@.len() && self.binaries@[i].spec_binary_id() == k by {
                    if k != id {
                        let i = choose|i: int| 0 <= i < old(self).binaries@.len()
                            && old(self).binaries@[i].spec_binary_id() == k;
                        assert(self.binaries@[i].spec_binary_id() == k);
                    } else {
                        assert(self.binaries@[self.binaries@.len() - 1].spec_binary_id() == k);
                    }
                }
                assert forall|k: MachineId| #[trigger] self.machine_model@.contains_key(k) implies exists|i: int|
                    0 <= i < self.machines@.len() && self.machines@[i].0 == k by {
                    let i = choose|i: int| 0 <= i < old(self).machines@.len()
                        && old(self).machines@[i].0 == k;
                    assert(self.machines@[i].0 == k);
                }
            }
        }
    }

    /// Binds `binary_id` to `params` as a machine; returns whether that machine
    /// already existed, and its id. Creating an existing machine changes nothing.
    pub fn insert_machine(&mut self, binary_id: BinaryId, params: Vec<u8>) -> (r: (bool, MachineId))
        requires
            old(self).wf(),
            old(self).binaries().contains_key(binary_id),
        ensures
            final(self).wf(),
            final(self).binaries() == old(self).binaries(),
            create_post(old(self).machines(), final(self).machines(), binary_id, params@, r.0, r.1),
    {
        let machine_id = MachineId::new(binary_id, params.as_slice());
        if self.find_machine(machine_id).is_some() {
            return (true, machine_id);
        }
        let ghost before = self.machine_model@;
        let ghost pv = params@;
        self.machines.push((machine_id, MachineRecord { binary_id, params }));
        self.machine_model = Ghost(before.insert(machine_id, (binary_id, pv)));
        assert(self.wf()) by {
            assert forall|i: int| 0 <= i < self.machines@.len() implies {
                &&& #[trigger] self.machine_model@.contains_key(self.machines@[i].0)
                &&& self.machine_model@[self.machines@[i].0] == self.machines@[i].1@
            } by {
                if i < old(self).machines@.len() {
                    assert(old(self).machine_model@.contains_key(old(self).machines@[i].0));
                }
            }
            assert forall|k: MachineId| #[trigger] self.machine_model@.contains_key(k) implies exists|i: int|
                0 <= i < self.machines@.len() && self.machines@[i].0 == k by {
                if k != machine_id {
                    let i = choose|i: int| 0 <= i < old(self).machines@.len()
                        && old(self).machines@[i].0 == k;
                    assert(self.machines@[i].0 == k);
                } else {
                    assert(self.machines@[self.machines@.len() - 1].0 == k);
                }
            }
            assert forall|k: BinaryId| #[trigger] self.binary_model@.contains_key(k) implies exists|i: int|
                0 <= i < self.binaries@.len() && self.binaries@[i].spec_binary_id() == k by {
                let i = choose|i: int| 0 <= i < old(self).binaries@.len()
                    && old(self).binaries@[i].spec_binary_id() == k;
                assert(self.binaries@[i].spec_binary_id() == k);
            }
        }
        (false, machine_id)
    }

    /// Stores the outcome of loading bytes: a compiled binary goes in under its id,
    /// a load error is handed back.
    pub fn admit_loaded(&mut self, loaded: Result<CompiledBinary, LoadError>) -> (r: Result<BinaryId, LoadError>)
        requires
            old(self).wf(),
        ensures
            final(self).wf(),
            final(self).machines() == old(self).machines(),
            match loaded {
                Ok(c) => {
                    &&& r == Ok::<BinaryId, LoadError>(c.spec_binary_id())
                    &&& final(self).binaries() == if old(self).binaries().contains_key(c.spec_binary_id()) {
                        old(self).binaries()
                    } else {
                        old(self).binaries().insert(c.spec_binary_id(), c)
                    }
                },
                Err(e) => r == Err::<BinaryId, LoadError>(e) && final(self).binaries() == old(self).binaries(),
            },
    {
        match loaded {
            Ok(c) => {
                let id = c.binary_id();
                self.insert_binary(c);
                Ok(id)
            },
            Err(e) => Err(e),
        }
    }

    /// Uploads `bytes`: a binary already present is reported as existing without
    /// being loaded again; otherwise the bytes are loaded and, if valid, stored.
    pub fn upload(&mut self, exec: &Executor, bytes: &[u8]) -> (r: Result<(bool, BinaryId), LoadError>)
        requires
            old(self).wf(),
        ensures
            final(self).wf(),
            final(self).machines() == old(self).machines(),
            upload_post(old(self).binaries(), final(self).binaries(), bytes@, r),
    {
        let id = BinaryId::new(bytes);
        if self.get_binary(id).is_some() {
            return Ok((true, id));
        }
        let loaded = exec.load_binary_from_wasm_binary(bytes);
        proof {
            if loaded is Ok {
                let c = loaded->Ok_0;
                lemma_binary_id_ext(c.spec_binary_id(), id);
            }
            assert forall|other: BinaryId| other.view() == sha256_of(bytes@)
                implies !old(self).binaries().contains_key(other) by {
                lemma_binary_id_ext(other, id);
            }
        }
        match self.admit_loaded(loaded) {
            Ok(_) => Ok((false, id)),
            Err(e) => Err(e),
        }
    }

    /// Creates the machine `(binary_id, params)` if that binary was uploaded.
    pub fn create_machine(&mut self, binary_id: BinaryId, params: Vec<u8>) -> (r: Result<(bool, MachineId), NotFound>)
        requires
            old(self).wf(),
        ensures
            final(self).wf(),
            final(self).binaries() == old(self).binaries(),
            r is Err <==> !old(self).binaries().contains_key(binary_id),
            r matches Err(e) ==> e == NotFound::Binary(binary_id) && final(self).machines() == old(self).machines(),
            r matches Ok((existed, id)) ==> create_post(old(self).machines(), final(self).machines(), binary_id, params@, existed, id),
    {
        if self.find_binary(binary_id).is_none() {
            return Err(NotFound::Binary(binary_id));
        }
        Ok(self.insert_machine(binary_id, params))
    }

    /// The record of a machine and its compiled binary.
    pub fn machine_components(&self, machine_id: MachineId) -> (r: Result<(&MachineRecord, &CompiledBinary), NotFound>)
        requires
            self.wf(),
        ensures
            r is Ok <==> self.machines().contains_key(machine_id),
            r matches Err(e) ==> e == NotFound::Machine(machine_id),
            r matches Ok((m, b)) ==> m@ == self.machines()[machine_id] && *b == self.binaries()[m.binary_id],
    {
        let m = match self.get_machine(machine_id) {
            Some(m) => m,
            None => return Err(NotFound::Machine(machine_id)),
        };
        match self.get_binary(m.binary_id) {
            Some(b) => Ok((m, b)),
            None => Err(NotFound::Binary(m.binary_id)),
        }
    }
}

} // verus!
