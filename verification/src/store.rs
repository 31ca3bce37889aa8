//! Storage health and statistics, and the in-memory content-addressed payload store.

use vstd::prelude::*;
use crate::outside::{
    blake3_digest, payload_table_contains, payload_table_entries, payload_table_get,
    payload_table_insert, payload_table_len, payload_table_new, payload_table_remove,
    payload_table_sizes, PayloadTable,
};
use crate::types::saturate_u64;
use crate::types::PayloadRef;

verus! {

/// Health of a storage backend.
#[derive(Clone, Debug, PartialEq, Eq)]
pub enum StorageHealth {
    /// Healthy and operational.
    Healthy,
    /// Degraded but functional.
    Degraded(String),
    /// Unhealthy; may not function.
    Unhealthy(String),
}

/// Storage statistics.
#[derive(Clone, Debug, PartialEq, Eq, Structural)]
pub struct StorageStats {
    /// Active sessions.
    pub sessions: u64,
    /// Vertices (payloads, for a payload store).
    pub vertices: u64,
    /// Estimated bytes used.
    pub bytes_used: u64,
    /// Read operations performed.
    pub read_ops: u64,
    /// Write operations performed.
    pub write_ops: u64,
}

impl Default for StorageStats {
    /// All counts zero.
    fn default() -> (r: Self)
        ensures
            r == (StorageStats { sessions: 0, vertices: 0, bytes_used: 0, read_ops: 0, write_ops: 0 }),
    {
        StorageStats { sessions: 0, vertices: 0, bytes_used: 0, read_ops: 0, write_ops: 0 }
    }
}

/// One step of summing payload sizes: add the size of the payload under `k`.
pub open spec fn add_size(m: Map<[u8; 32], Seq<u8>>) -> spec_fn(nat, [u8; 32]) -> nat {
    |acc: nat, k: [u8; 32]| acc + m[k].len()
}

/// Sum of the sizes of the payloads in `m` whose hashes lie in `keys`.
pub open spec fn size_of_keys(m: Map<[u8; 32], Seq<u8>>, keys: Set<[u8; 32]>) -> nat {
    keys.fold(0nat, add_size(m))
}

/// Sum of the sizes of all payloads in `m`.
pub open spec fn stored_bytes(m: Map<[u8; 32], Seq<u8>>) -> nat {
    size_of_keys(m, m.dom())
}

proof fn lemma_add_size_commutes(m: Map<[u8; 32], Seq<u8>>)
    ensures
        vstd::set::fold::is_fun_commutative(add_size(m)),
{
    assert forall|a1: [u8; 32], a2: [u8; 32], b: nat|
        #[trigger] add_size(m)(add_size(m)(b, a2), a1) == add_size(m)(add_size(m)(b, a1), a2) by {
    }
}

/// What is stored is read back: after `put(data)` returned `r`, the store holds `data`
/// under `r.hash`, so `get` and `contains` with `r` find it.
pub proof fn lemma_read_after_write(before: Map<[u8; 32], Seq<u8>>, r: PayloadRef, data: Seq<u8>)
    requires
        r.hash@ == blake3_digest(data),
    ensures
        before.insert(r.hash, data).contains_key(r.hash),
        before.insert(r.hash, data)[r.hash] == data,
{
}

/// A deleted payload is gone, and the other payloads stay.
pub proof fn lemma_delete_removes(before: Map<[u8; 32], Seq<u8>>, hash: [u8; 32])
    ensures
        !before.remove(hash).contains_key(hash),
        forall|k: [u8; 32]|
            k != hash && #[trigger] before.contains_key(k) ==> before.remove(hash).contains_key(k)
                && before.remove(hash)[k] == before[k],
{
}

/// Storing content that is already stored changes nothing.
pub proof fn lemma_put_idempotent(before: Map<[u8; 32], Seq<u8>>, hash: [u8; 32], data: Seq<u8>)
    requires
        before.contains_key(hash),
        before[hash] == data,
    ensures
        before.insert(hash, data) =~= before,
{
}

/// Storing new content adds its size to the stored bytes.
pub proof fn lemma_put_adds_size(before: Map<[u8; 32], Seq<u8>>, hash: [u8; 32], data: Seq<u8>)
    requires
        before.dom().finite(),
        !before.contains_key(hash),
    ensures
        stored_bytes(before.insert(hash, data)) == stored_bytes(before) + data.len(),
{
    let after = before.insert(hash, data);
    lemma_add_size_commutes(after);
    vstd::set::fold::lemma_fold_insert(before.dom(), 0nat, add_size(after), hash);
    lemma_size_of_keys_agree(before, after, before.dom());
}

/// Two maps that agree on `keys` give those keys the same total size.
proof fn lemma_size_of_keys_agree(
    m1: Map<[u8; 32], Seq<u8>>,
    m2: Map<[u8; 32], Seq<u8>>,
    keys: Set<[u8; 32]>,
)
    requires
        keys.finite(),
        forall|k: [u8; 32]| #[trigger] keys.contains(k) ==> m1[k].len() == m2[k].len(),
    ensures
        size_of_keys(m1, keys) == size_of_keys(m2, keys),
    decreases keys.len(),
{
    lemma_add_size_commutes(m1);
    lemma_add_size_commutes(m2);
    if keys.len() == 0 {
        assert(keys =~= Set::<[u8; 32]>::empty());
        vstd::set::fold::lemma_fold_empty(0nat, add_size(m1));
        vstd::set::fold::lemma_fold_empty(0nat, add_size(m2));
    } else {
        let k = keys.choose();
        let rest = keys.remove(k);
        lemma_size_of_keys_agree(m1, m2, rest);
        assert(rest.insert(k) =~= keys);
        vstd::set::fold::lemma_fold_insert(rest, 0nat, add_size(m1), k);
        vstd::set::fold::lemma_fold_insert(rest, 0nat, add_size(m2), k);
    }
}

/// In-memory content-addressed payload store.
pub struct InMemoryPayloadStore {
    payloads: PayloadTable,
    read_ops: u64,
    write_ops: u64,
}

/// What a payload store holds and has counted.
pub struct PayloadStoreView {
    /// Each stored payload under its content hash.
    pub payloads: Map<[u8; 32], Seq<u8>>,
    pub read_ops: u64,
    pub write_ops: u64,
}

impl View for InMemoryPayloadStore {
    type V = PayloadStoreView;

    closed spec fn view(&self) -> PayloadStoreView {
        PayloadStoreView {
            payloads: payload_table_entries(self.payloads),
            read_ops: self.read_ops,
            write_ops: self.write_ops,
        }
    }
}

impl InMemoryPayloadStore {
    /// The store holds finitely many payloads.
    #[verifier::type_invariant]
    spec fn finitely_many(self) -> bool {
        payload_table_entries(self.payloads).dom().finite()
    }

    /// An empty store.
    pub fn new() -> (r: Self)
        ensures
            r@.payloads == Map::<[u8; 32], Seq<u8>>::empty(),
            r@.read_ops == 0,
            r@.write_ops == 0,
    {
        InMemoryPayloadStore { payloads: payload_table_new(), read_ops: 0, write_ops: 0 }
    }

    /// Stores `data` under its content hash and returns its reference; storing the same
    /// content again keeps one copy.
    pub fn put(&mut self, data: Vec<u8>) -> (r: PayloadRef)
        ensures
            r.hash@ == blake3_digest(data@),
            r.size == data@.len(),
            final(self)@.payloads == old(self)@.payloads.insert(r.hash, data@),
            final(self)@.write_ops == vstd::wrapping::u64_specs::wrapping_add(
                old(self)@.write_ops,
                1,
            ),
            final(self)@.read_ops == old(self)@.read_ops,
    {
        proof {
            use_type_invariant(&*self);
        }
        self.write_ops = self.write_ops.wrapping_add(1);
        let payload_ref = PayloadRef::from_bytes(data.as_slice());
        let mut table = payload_table_new();
        std::mem::swap(&mut table, &mut self.payloads);
        payload_table_insert(&mut table, payload_ref.hash, data);
        self.payloads = table;
        payload_ref
    }

    /// The payload stored under the reference's hash.
    pub fn get(&mut self, payload_ref: &PayloadRef) -> (r: Option<Vec<u8>>)
        ensures
            match r {
                Some(d) => old(self)@.payloads.contains_key(payload_ref.hash) && d@
                    == old(self)@.payloads[payload_ref.hash],
                None => !old(self)@.payloads.contains_key(payload_ref.hash),
            },
            final(self)@.payloads == old(self)@.payloads,
            final(self)@.read_ops == vstd::wrapping::u64_specs::wrapping_add(
                old(self)@.read_ops,
                1,
            ),
            final(self)@.write_ops == old(self)@.write_ops,
    {
        proof {
            use_type_invariant(&*self);
        }
        self.read_ops = self.read_ops.wrapping_add(1);
        payload_table_get(&self.payloads, &payload_ref.hash)
    }

    /// Whether a payload is stored under the reference's hash.
    pub fn contains(&mut self, payload_ref: &PayloadRef) -> (r: bool)
        ensures
            r == old(self)@.payloads.contains_key(payload_ref.hash),
            final(self)@.payloads == old(self)@.payloads,
            final(self)@.read_ops == vstd::wrapping::u64_specs::wrapping_add(
                old(self)@.read_ops,
                1,
            ),
            final(self)@.write_ops == old(self)@.write_ops,
    {
        proof {
            use_type_invariant(&*self);
        }
        self.read_ops = self.read_ops.wrapping_add(1);
        payload_table_contains(&self.payloads, &payload_ref.hash)
    }

    /// Removes the payload stored under the reference's hash; whether there was one.
    pub fn delete(&mut self, payload_ref: &PayloadRef) -> (r: bool)
        ensures
            r == old(self)@.payloads.contains_key(payload_ref.hash),
            final(self)@.payloads == old(self)@.payloads.remove(payload_ref.hash),
            final(self)@.write_ops == vstd::wrapping::u64_specs::wrapping_add(
                old(self)@.write_ops,
                1,
            ),
            final(self)@.read_ops == old(self)@.read_ops,
    {
        proof {
            use_type_invariant(&*self);
        }
        self.write_ops = self.write_ops.wrapping_add(1);
        let mut table = payload_table_new();
        std::mem::swap(&mut table, &mut self.payloads);
        let removed = payload_table_remove(&mut table, &payload_ref.hash);
        self.payloads = table;
        removed.is_some()
    }

    /// Number of stored payloads.
    pub fn payload_count(&self) -> (r: usize)
        ensures
            r == self@.payloads.len(),
    {
        payload_table_len(&self.payloads)
    }

    /// Total stored bytes, saturating at `u64::MAX`.
    pub fn total_bytes(&self) -> (r: u64)
        ensures
            r == saturate_u64(stored_bytes(self@.payloads)),
    {
        proof {
            use_type_invariant(self);
        }
        let ghost m = self@.payloads;
        let sizes = payload_table_sizes(&self.payloads);
        let ghost done: Set<[u8; 32]> = Set::empty();
        let mut sum: u64 = 0;
        let mut i: usize = 0;
        proof {
            lemma_add_size_commutes(m);
            vstd::set::fold::lemma_fold_empty(0nat, add_size(m));
        }
        while i < sizes.len()
            invariant
                i <= sizes@.len(),
                m == payload_table_entries(self.payloads),
                vstd::set::fold::is_fun_commutative(add_size(m)),
                forall|a: int, b: int| 0 <= a < b < sizes@.len() ==> sizes@[a].0 != sizes@[b].0,
                forall|a: int|
                    0 <= a < sizes@.len() ==> m.contains_key(#[trigger] sizes@[a].0) && sizes@[a].1
                        == m[sizes@[a].0].len(),
                done.finite(),
                forall|k: [u8; 32]|
                    #[trigger] done.contains(k) <==> exists|a: int|
                        0 <= a < i && #[trigger] sizes@[a].0 == k,
                sum == saturate_u64(size_of_keys(m, done)),
            decreases sizes@.len() - i,
        {
            let (k, n) = sizes[i];
            proof {
                assert(!done.contains(k)) by {
                    if done.contains(k) {
                        let a = choose|a: int| 0 <= a < i && #[trigger] sizes@[a].0 == k;
                        assert(sizes@[a].0 != sizes@[i as int].0);
                    }
                }
                vstd::set::fold::lemma_fold_insert(done, 0nat, add_size(m), k);
                done = done.insert(k);
                assert forall|k2: [u8; 32]|
                    #[trigger] done.contains(k2) <==> exists|a: int|
                        0 <= a < i + 1 && #[trigger] sizes@[a].0 == k2 by {
                    if k2 == k {
                        assert(sizes@[i as int].0 == k2);
                    }
                }
            }
            sum = sum.saturating_add(n as u64);
            i = i + 1;
        }
        proof {
            assert(done =~= m.dom()) by {
                assert forall|k: [u8; 32]| done.contains(k) <==> m.dom().contains(k) by {
                    if m.dom().contains(k) {
                        assert(m.contains_key(k));
                    }
                    if done.contains(k) {
                        let a = choose|a: int| 0 <= a < i && #[trigger] sizes@[a].0 == k;
                        assert(m.contains_key(sizes@[a].0));
                    }
                }
            }
        }
        sum
    }

    /// Health: always healthy.
    pub fn health(&self) -> (r: StorageHealth)
        ensures
            r == StorageHealth::Healthy,
    {
        StorageHealth::Healthy
    }

    /// Statistics: no sessions, the payload count, the stored bytes and the operation
    /// counters.
    pub fn stats(&self) -> (r: StorageStats)
        ensures
            r.sessions == 0,
            r.vertices == self@.payloads.len(),
            r.bytes_used == saturate_u64(stored_bytes(self@.payloads)),
            r.read_ops == self@.read_ops,
            r.write_ops == self@.write_ops,
    {
        let count = self.payload_count();
        StorageStats {
            sessions: 0,
            vertices: count as u64,
            bytes_used: self.total_bytes(),
            read_ops: self.read_ops,
            write_ops: self.write_ops,
        }
    }
}

} // verus!
