//! The offline ledger: a table of installed modules keyed by content hash
//! and a table of contract instances keyed by identifier, each bound to a
//! module hash.

use vstd::prelude::*;
use crate::addressing::{hash_module, module_hash_of};

verus! {

/// Are the keys pairwise distinct?
pub open spec fn keys_distinct(keys: Seq<Seq<u8>>) -> bool {
    forall|i: int, j: int|
        0 <= i < keys.len() && 0 <= j < keys.len() && i != j ==> keys[i] != keys[j]
}

pub open spec fn has_key(keys: Seq<Seq<u8>>, k: Seq<u8>) -> bool {
    exists|i: int| 0 <= i < keys.len() && keys[i] == k
}

/// The map that parallel sequences of distinct keys and values stand for.
pub open spec fn table_view(keys: Seq<Seq<u8>>, vals: Seq<Seq<u8>>) -> Map<Seq<u8>, Seq<u8>> {
    Map::new(
        |k: Seq<u8>| has_key(keys, k),
        |k: Seq<u8>| vals[choose|i: int| 0 <= i < keys.len() && keys[i] == k],
    )
}

/// The value at a key's index is what the map holds for that key.
proof fn lemma_table_at(keys: Seq<Seq<u8>>, vals: Seq<Seq<u8>>, i: int)
    requires
        keys_distinct(keys),
        0 <= i < keys.len(),
    ensures
        table_view(keys, vals).contains_key(keys[i]),
        table_view(keys, vals)[keys[i]] == vals[i],
{
    let k = keys[i];
    assert(has_key(keys, k));
    let j = choose|j: int| 0 <= j < keys.len() && keys[j] == k;
    assert(j == i);
}

/// Appending a new key adds it to the map.
proof fn lemma_table_push(keys: Seq<Seq<u8>>, vals: Seq<Seq<u8>>, k: Seq<u8>, v: Seq<u8>)
    requires
        keys_distinct(keys),
        keys.len() == vals.len(),
        !has_key(keys, k),
    ensures
        keys_distinct(keys.push(k)),
        table_view(keys.push(k), vals.push(v)) == table_view(keys, vals).insert(k, v),
{
    let k2 = keys.push(k);
    let v2 = vals.push(v);
    assert forall|i: int, j: int|
        0 <= i < k2.len() && 0 <= j < k2.len() && i != j implies k2[i] != k2[j] by {
        if i == keys.len() as int {
            assert(keys[j] == k2[j]);
        } else if j == keys.len() as int {
            assert(keys[i] == k2[i]);
        }
    }
    let m1 = table_view(k2, v2);
    let m2 = table_view(keys, vals).insert(k, v);
    assert forall|x: Seq<u8>| m1.contains_key(x) <==> m2.contains_key(x) by {
        if has_key(keys, x) {
            let i = choose|i: int| 0 <= i < keys.len() && keys[i] == x;
            assert(k2[i] == x);
        }
        if has_key(k2, x) && x != k {
            let i = choose|i: int| 0 <= i < k2.len() && k2[i] == x;
            assert(keys[i] == x);
        }
        if x == k {
            assert(k2[keys.len() as int] == x);
        }
    }
    assert forall|x: Seq<u8>| #[trigger] m1.contains_key(x) implies m1[x] == m2[x] by {
        let i = choose|i: int| 0 <= i < k2.len() && k2[i] == x;
        lemma_table_at(k2, v2, i);
        if i < keys.len() {
            lemma_table_at(keys, vals, i);
        }
    }
    assert(m1 =~= m2);
}

/// Replacing the value at an existing key's index replaces it in the map.
proof fn lemma_table_update(keys: Seq<Seq<u8>>, vals: Seq<Seq<u8>>, i: int, v: Seq<u8>)
    requires
        keys_distinct(keys),
        keys.len() == vals.len(),
        0 <= i < keys.len(),
    ensures
        table_view(keys, vals.update(i, v)) == table_view(keys, vals).insert(keys[i], v),
{
    let v2 = vals.update(i, v);
    let m1 = table_view(keys, v2);
    let m2 = table_view(keys, vals).insert(keys[i], v);
    assert forall|x: Seq<u8>| m1.contains_key(x) <==> m2.contains_key(x) by {
        if x == keys[i] {
            assert(has_key(keys, x));
        }
    }
    assert forall|x: Seq<u8>| #[trigger] m1.contains_key(x) implies m1[x] == m2[x] by {
        let j = choose|j: int| 0 <= j < keys.len() && keys[j] == x;
        lemma_table_at(keys, v2, j);
        lemma_table_at(keys, vals, j);
    }
    assert(m1 =~= m2);
}

fn same_bytes(a: &[u8; 32], b: &[u8; 32]) -> (r: bool)
    ensures
        r == (a@ == b@),
{
    let mut i: usize = 0;
    while i < 32
        invariant
            i <= 32,
            a@.len() == 32,
            b@.len() == 32,
            forall|k: int| 0 <= k < i ==> a@[k] == b@[k],
        decreases 32 - i,
    {
        if a[i] != b[i] {
            return false;
        }
        i = i + 1;
    }
    assert(a@ =~= b@);
    true
}

/// An installed module: its content hash and its bytes.
#[derive(Debug, Clone, PartialEq, Eq)]
pub struct ModuleEntry {
    pub hash: [u8; 32],
    pub code: Vec<u8>,
}

/// A contract instance: its identifier and the hash of its module.
#[derive(Debug, Clone, PartialEq, Eq)]
pub struct InstanceEntry {
    pub id: [u8; 32],
    pub wasm_hash: [u8; 32],
}

/// The offline ledger state.
#[derive(Debug)]
pub struct LedgerState {
    modules: Vec<ModuleEntry>,
    instances: Vec<InstanceEntry>,
}

impl LedgerState {
    pub closed spec fn module_keys(&self) -> Seq<Seq<u8>> {
        self.modules@.map_values(|e: ModuleEntry| e.hash@)
    }

    pub closed spec fn instance_keys(&self) -> Seq<Seq<u8>> {
        self.instances@.map_values(|e: InstanceEntry| e.id@)
    }

    /// Installed modules: content hash to module bytes.
    pub closed spec fn module_table(&self) -> Map<Seq<u8>, Seq<u8>> {
        table_view(self.module_keys(), self.modules@.map_values(|e: ModuleEntry| e.code@))
    }

    /// Contract instances: identifier to module hash.
    pub closed spec fn instance_table(&self) -> Map<Seq<u8>, Seq<u8>> {
        table_view(self.instance_keys(), self.instances@.map_values(|e: InstanceEntry| e.wasm_hash@))
    }

    /// Number of entries in the module table as stored.
    pub closed spec fn module_count(&self) -> nat {
        self.modules@.len()
    }

    /// Number of entries in the instance table as stored.
    pub closed spec fn instance_count(&self) -> nat {
        self.instances@.len()
    }

    /// Each table holds at most one entry per key.
    #[verifier::type_invariant]
    closed spec fn wf(&self) -> bool {
        keys_distinct(self.module_keys()) && keys_distinct(self.instance_keys())
    }

    /// `next` is this ledger with `code` installed under `hash`: the module
    /// table gains or keeps the entry, and nothing else changes.
    pub open spec fn installs(&self, next: LedgerState, code: Seq<u8>, hash: Seq<u8>) -> bool {
        &&& hash == module_hash_of(code)
        &&& next.module_table() == self.module_table().insert(hash, code)
        &&& next.instance_table() == self.instance_table()
        &&& next.instance_count() == self.instance_count()
        &&& next.module_count() == self.module_count()
            + if self.module_table().contains_key(hash) { 0nat } else { 1nat }
    }

    /// An empty ledger.
    pub fn new() -> (r: LedgerState)
        ensures
            r.module_table() == Map::<Seq<u8>, Seq<u8>>::empty(),
            r.instance_table() == Map::<Seq<u8>, Seq<u8>>::empty(),
            r.module_count() == 0,
            r.instance_count() == 0,
    {
        let r = LedgerState { modules: Vec::new(), instances: Vec::new() };
        assert(r.module_table() =~= Map::<Seq<u8>, Seq<u8>>::empty());
        assert(r.instance_table() =~= Map::<Seq<u8>, Seq<u8>>::empty());
        r
    }

    fn find_module(&self, hash: &[u8; 32]) -> (r: Option<usize>)
        ensures
            r matches Some(i) ==> i < self.modules@.len() && self.module_keys()[i as int] == hash@,
            r is None ==> !has_key(self.module_keys(), hash@),
    {
        let mut i: usize = 0;
        while i < self.modules.len()
            invariant
                i <= self.modules@.len(),
                forall|k: int| 0 <= k < i ==> self.module_keys()[k] != hash@,
            decreases self.modules@.len() - i,
        {
            if same_bytes(&self.modules[i].hash, hash) {
                return Some(i);
            }
            i = i + 1;
        }
        None
    }

    fn find_instance(&self, id: &[u8; 32]) -> (r: Option<usize>)
        ensures
            r matches Some(i) ==> i < self.instances@.len() && self.instance_keys()[i as int] == id@,
            r is None ==> !has_key(self.instance_keys(), id@),
    {
        let mut i: usize = 0;
        while i < self.instances.len()
            invariant
                i <= self.instances@.len(),
                forall|k: int| 0 <= k < i ==> self.instance_keys()[k] != id@,
            decreases self.instances@.len() - i,
        {
            if same_bytes(&self.instances[i].id, id) {
                return Some(i);
            }
            i = i + 1;
        }
        None
    }

    /// Installs module bytes under their content hash and returns the hash.
    /// Installing bytes that are already there changes nothing.
    pub fn add_contract_code(&mut self, code: Vec<u8>) -> (r: [u8; 32])
        ensures
            r@ == module_hash_of(code@),
            old(self).installs(*final(self), code@, r@),
    {
        proof {
            use_type_invariant(&*self);
        }
        let hash = hash_module(code.as_slice());
        let ghost keys = self.module_keys();
        let ghost vals = self.modules@.map_values(|e: ModuleEntry| e.code@);
        let ghost code_view = code@;
        let found = self.find_module(&hash);
        let mut modules: Vec<ModuleEntry> = Vec::new();
        std::mem::swap(&mut modules, &mut self.modules);
        match found {
            Some(i) => {
                proof {
                    lemma_table_at(keys, vals, i as int);
                }
                modules.set(i, ModuleEntry { hash, code });
                proof {
                    lemma_table_update(keys, vals, i as int, code_view);
                    assert(modules@.map_values(|e: ModuleEntry| e.hash@) =~= keys);
                    assert(modules@.map_values(|e: ModuleEntry| e.code@) =~= vals.update(i as int, code_view));
                }
            },
            None => {
                modules.push(ModuleEntry { hash, code });
                proof {
                    lemma_table_push(keys, vals, hash@, code_view);
                    assert(modules@.map_values(|e: ModuleEntry| e.hash@) =~= keys.push(hash@));
                    assert(modules@.map_values(|e: ModuleEntry| e.code@) =~= vals.push(code_view));
                }
            },
        }
        self.modules = modules;
        hash
    }

    /// Binds the contract identifier `id` to the module hash `wasm_hash`,
    /// replacing an earlier binding of `id`.
    pub fn add_contract(&mut self, id: [u8; 32], wasm_hash: [u8; 32])
        ensures
            final(self).instance_table() == old(self).instance_table().insert(id@, wasm_hash@),
            final(self).module_table() == old(self).module_table(),
            final(self).module_count() == old(self).module_count(),
            final(self).instance_count() == old(self).instance_count()
                + if old(self).instance_table().contains_key(id@) { 0nat } else { 1nat },
    {
        proof {
            use_type_invariant(&*self);
        }
        let ghost keys = self.instance_keys();
        let ghost vals = self.instances@.map_values(|e: InstanceEntry| e.wasm_hash@);
        let found = self.find_instance(&id);
        let mut instances: Vec<InstanceEntry> = Vec::new();
        std::mem::swap(&mut instances, &mut self.instances);
        match found {
            Some(i) => {
                proof {
                    lemma_table_at(keys, vals, i as int);
                }
                instances.set(i, InstanceEntry { id, wasm_hash });
                proof {
                    lemma_table_update(keys, vals, i as int, wasm_hash@);
                    assert(instances@.map_values(|e: InstanceEntry| e.id@) =~= keys);
                    assert(instances@.map_values(|e: InstanceEntry| e.wasm_hash@) =~= vals.update(i as int, wasm_hash@));
                }
            },
            None => {
                instances.push(InstanceEntry { id, wasm_hash });
                proof {
                    lemma_table_push(keys, vals, id@, wasm_hash@);
                    assert(instances@.map_values(|e: InstanceEntry| e.id@) =~= keys.push(id@));
                    assert(instances@.map_values(|e: InstanceEntry| e.wasm_hash@) =~= vals.push(wasm_hash@));
                }
            },
        }
        self.instances = instances;
    }

    /// The module hash that the contract `id` is bound to, if any.
    pub fn lookup(&self, id: &[u8; 32]) -> (r: Option<[u8; 32]>)
        ensures
            r is Some <==> self.instance_table().contains_key(id@),
            r matches Some(h) ==> h@ == self.instance_table()[id@],
    {
        proof {
            use_type_invariant(self);
        }
        let ghost keys = self.instance_keys();
        let ghost vals = self.instances@.map_values(|e: InstanceEntry| e.wasm_hash@);
        match self.find_instance(id) {
            Some(i) => {
                proof {
                    lemma_table_at(keys, vals, i as int);
                }
                Some(self.instances[i].wasm_hash)
            },
            None => None,
        }
    }

    /// The bytes of the module installed under `hash`, if any.
    pub fn module_code(&self, hash: &[u8; 32]) -> (r: Option<Vec<u8>>)
        ensures
            r is Some <==> self.module_table().contains_key(hash@),
            r matches Some(c) ==> c@ == self.module_table()[hash@],
    {
        proof {
            use_type_invariant(self);
        }
        let ghost keys = self.module_keys();
        let ghost vals = self.modules@.map_values(|e: ModuleEntry| e.code@);
        match self.find_module(hash) {
            Some(i) => {
                proof {
                    lemma_table_at(keys, vals, i as int);
                }
                Some(self.modules[i].code.clone())
            },
            None => None,
        }
    }

    /// Number of stored module entries.
    pub fn modules_len(&self) -> (r: usize)
        ensures
            r == self.module_count(),
    {
        self.modules.len()
    }

    /// Number of stored instance entries.
    pub fn instances_len(&self) -> (r: usize)
        ensures
            r == self.instance_count(),
    {
        self.instances.len()
    }

    /// The stored module entries, in the order they were first installed.
    pub fn module_entries(&self) -> (r: &Vec<ModuleEntry>)
        ensures
            r@.map_values(|e: ModuleEntry| e.hash@) == self.module_keys(),
    {
        &self.modules
    }

    /// The stored instance entries, in the order they were first created.
    pub fn instance_entries(&self) -> (r: &Vec<InstanceEntry>)
        ensures
            r@.map_values(|e: InstanceEntry| e.id@) == self.instance_keys(),
    {
        &self.instances
    }
}

/// Installing the same module bytes twice returns the same hash both times,
/// and the second install changes nothing: the module table and its number
/// of entries stay as the first install left them, with one entry for the
/// hash.
pub proof fn lemma_install_idempotent(
    s0: LedgerState,
    s1: LedgerState,
    s2: LedgerState,
    code: Seq<u8>,
    h1: Seq<u8>,
    h2: Seq<u8>,
)
    requires
        s0.installs(s1, code, h1),
        s1.installs(s2, code, h2),
    ensures
        h1 == h2,
        s2.module_table() == s1.module_table(),
        s2.module_count() == s1.module_count(),
        s2.instance_table() == s0.instance_table(),
        s2.module_table().contains_key(h1),
        s2.module_table()[h1] == code,
{
    assert(s1.module_table().contains_key(h1));
    assert(s2.module_table() =~= s1.module_table());
}

} // verus!
