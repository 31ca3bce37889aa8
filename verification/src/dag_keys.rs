//! The byte layout that the persistent DAG stores share: vertex keys
//! (`session ':' vertex`), session keys and prefix ranges, and vertex-ID sets packed
//! as runs of 32 bytes, with the rule by which the frontier moves.

use vstd::prelude::*;
use crate::outside::{
    id_set_contains, id_set_ids, id_set_insert, id_set_items, id_set_len, id_set_new,
    id_set_remove, IdSet,
};
use crate::types::{SessionId, VertexId};

verus! {

/// The byte `:` that parts a vertex key.
pub const KEY_SEPARATOR: u8 = 58;

/// The byte after `:`, which ends a session's key range.
pub const KEY_RANGE_END: u8 = 59;

/// The key of a vertex: the session's 16 bytes, `:`, the vertex's 32 bytes.
pub open spec fn vertex_key_bytes(session: Seq<u8>, vertex: Seq<u8>) -> Seq<u8> {
    session + seq![KEY_SEPARATOR] + vertex
}

/// `a` comes strictly before `b` in byte-wise lexicographic order.
pub open spec fn bytes_lt(a: Seq<u8>, b: Seq<u8>) -> bool {
    ||| (a.len() < b.len() && b.subrange(0, a.len() as int) == a)
    ||| exists|i: int|
        0 <= i < a.len() && i < b.len() && a.subrange(0, i) == b.subrange(0, i) && #[trigger] a[i]
            < b[i]
}

/// `key` lies in the half-open range `[start, end)` of byte-wise order.
pub open spec fn in_key_range(start: Seq<u8>, end: Seq<u8>, key: Seq<u8>) -> bool {
    (start == key || bytes_lt(start, key)) && bytes_lt(key, end)
}

fn append_bytes(v: &mut Vec<u8>, bytes: &[u8])
    ensures
        final(v)@ == old(v)@ + bytes@,
{
    let mut i: usize = 0;
    while i < bytes.len()
        invariant
            i <= bytes@.len(),
            v@ == old(v)@ + bytes@.subrange(0, i as int),
        decreases bytes@.len() - i,
    {
        v.push(bytes[i]);
        assert(bytes@.subrange(0, i + 1) =~= bytes@.subrange(0, i as int).push(bytes@[i as int]));
        i = i + 1;
    }
    assert(bytes@.subrange(0, i as int) =~= bytes@);
}

/// The key of a vertex in a session (49 bytes: 16, `:`, 32).
pub fn vertex_key(session_id: SessionId, vertex_id: VertexId) -> (key: Vec<u8>)
    ensures
        key@ == vertex_key_bytes(session_id.0@, vertex_id.0@),
        key@.len() == 49,
{
    let mut key: Vec<u8> = Vec::with_capacity(49);
    append_bytes(&mut key, session_id.as_bytes());
    key.push(KEY_SEPARATOR);
    append_bytes(&mut key, vertex_id.as_bytes().as_slice());
    proof {
        assert(key@ =~= vertex_key_bytes(session_id.0@, vertex_id.0@));
    }
    key
}

/// The key of a session (its 16 bytes).
pub fn session_key(session_id: SessionId) -> (key: Vec<u8>)
    ensures
        key@ == session_id.0@,
{
    let mut key: Vec<u8> = Vec::with_capacity(16);
    append_bytes(&mut key, session_id.as_bytes());
    proof {
        assert(key@ =~= session_id.0@);
    }
    key
}

/// The range `[session ':', session ';')` that holds the session's vertex keys.
pub fn session_prefix_range(session_id: SessionId) -> (r: (Vec<u8>, Vec<u8>))
    ensures
        r.0@ == session_id.0@.push(KEY_SEPARATOR),
        r.1@ == session_id.0@.push(KEY_RANGE_END),
{
    let mut start = session_key(session_id);
    start.push(KEY_SEPARATOR);
    let mut end = session_key(session_id);
    end.push(KEY_RANGE_END);
    (start, end)
}

/// A session's prefix range holds the vertex keys of that session and of no other: a
/// range scan over it finds exactly the session's vertices.
pub proof fn lemma_prefix_range_selects_session(session: SessionId, other: SessionId, vertex: VertexId)
    ensures
        in_key_range(
            session.0@.push(KEY_SEPARATOR),
            session.0@.push(KEY_RANGE_END),
            vertex_key_bytes(other.0@, vertex.0@),
        ) <==> session.0@ == other.0@,
{
    let s = session.0@;
    let t = other.0@;
    let start = s.push(KEY_SEPARATOR);
    let end = s.push(KEY_RANGE_END);
    let key = vertex_key_bytes(t, vertex.0@);
    assert(key.len() == 49);
    assert forall|i: int| 0 <= i < 16 implies #[trigger] key[i] == t[i] && start[i] == s[i]
        && end[i] == s[i] by {}
    if s == t {
        assert(key.subrange(0, 17) =~= start);
        assert(key.subrange(0, 16) =~= end.subrange(0, 16));
        assert(key[16] < end[16]);
    } else if in_key_range(start, end, key) {
        // `start <= key` and `key < end` each give an index below 17 where the two
        // agree before and differ after; neither can be 16 (that would make s == t),
        // and two indexes below 16 contradict each other.
        assert(start != key);
        assert(key.subrange(0, 17) != start) by {
            if key.subrange(0, 17) == start {
                assert(s =~= t) by {
                    assert forall|i: int| 0 <= i < 16 implies s[i] == t[i] by {
                        assert(key.subrange(0, 17)[i] == start[i]);
                    }
                }
            }
        }
        let j = choose|i: int|
            0 <= i < start.len() && i < key.len() && start.subrange(0, i) == key.subrange(0, i)
                && #[trigger] start[i] < key[i];
        let j2 = choose|i: int|
            0 <= i < key.len() && i < end.len() && key.subrange(0, i) == end.subrange(0, i)
                && #[trigger] key[i] < end[i];
        if j == 16 {
            assert(s =~= t) by {
                assert forall|i: int| 0 <= i < 16 implies s[i] == t[i] by {
                    assert(start.subrange(0, 16)[i] == key.subrange(0, 16)[i]);
                }
            }
        } else if j2 == 16 {
            assert(s =~= t) by {
                assert forall|i: int| 0 <= i < 16 implies s[i] == t[i] by {
                    assert(key.subrange(0, 16)[i] == end.subrange(0, 16)[i]);
                }
            }
        } else if j < j2 {
            assert(key.subrange(0, j2)[j] == end.subrange(0, j2)[j]);
        } else if j2 < j {
            assert(start.subrange(0, j)[j2] == key.subrange(0, j)[j2]);
        }
    }
}

/// The bytes of entry `i` of a packed ID set.
pub open spec fn chunk(data: Seq<u8>, i: int) -> Seq<u8> {
    data.subrange(32 * i, 32 * i + 32)
}

/// The IDs packed in `data`: each whole run of 32 bytes; bytes after the last whole run
/// are ignored.
pub open spec fn packed_ids(data: Seq<u8>) -> Set<[u8; 32]> {
    Set::new(|k: [u8; 32]| exists|i: int| 0 <= i < data.len() / 32 && #[trigger] chunk(data, i) == k@)
}

/// The IDs of `ids` packed one after another.
pub open spec fn pack(ids: Seq<[u8; 32]>) -> Seq<u8>
    decreases ids.len(),
{
    if ids.len() == 0 {
        Seq::empty()
    } else {
        pack(ids.drop_last()) + ids.last()@
    }
}

proof fn lemma_pack_chunks(ids: Seq<[u8; 32]>)
    ensures
        pack(ids).len() == 32 * ids.len(),
        forall|i: int| 0 <= i < ids.len() ==> #[trigger] chunk(pack(ids), i) == ids[i]@,
    decreases ids.len(),
{
    if ids.len() > 0 {
        let init = ids.drop_last();
        lemma_pack_chunks(init);
        let p = pack(ids);
        assert(p == pack(init) + ids.last()@);
        assert forall|i: int| 0 <= i < ids.len() implies #[trigger] chunk(p, i) == ids[i]@ by {
            if i < init.len() {
                assert(chunk(p, i) =~= chunk(pack(init), i));
                assert(init[i] == ids[i]);
            } else {
                assert(chunk(p, i) =~= ids.last()@);
            }
        }
    }
}

/// Packing IDs and reading them back gives the same set: what the stores write as a
/// vertex-ID set, they read back unchanged.
pub proof fn lemma_pack_then_parse(ids: Seq<[u8; 32]>)
    ensures
        packed_ids(pack(ids)) == ids.to_set(),
{
    lemma_pack_chunks(ids);
    let p = pack(ids);
    assert(p.len() / 32 == ids.len()) by (nonlinear_arith)
        requires
            p.len() == 32 * ids.len(),
    ;
    assert forall|k: [u8; 32]| packed_ids(p).contains(k) <==> ids.to_set().contains(k) by {
        if packed_ids(p).contains(k) {
            let i = choose|i: int| 0 <= i < p.len() / 32 && #[trigger] chunk(p, i) == k@;
            assert(ids[i]@ == k@);
            assert(ids[i] == k);
            assert(ids.contains(k));
        }
        if ids.to_set().contains(k) {
            let i = choose|i: int| 0 <= i < ids.len() && ids[i] == k;
            assert(chunk(p, i) == k@);
        }
    }
    assert(packed_ids(p) =~= ids.to_set());
}

fn read_chunk(data: &[u8], i: usize) -> (id: [u8; 32])
    requires
        32 * i + 32 <= data@.len(),
    ensures
        id@ == chunk(data@, i as int),
{
    let len = data.len();
    assert(32 * i + 32 <= len);
    let base = 32 * i;
    let mut id = [0u8; 32];
    let mut j: usize = 0;
    while j < 32
        invariant
            j <= 32,
            base == 32 * i,
            base + 32 <= data@.len(),
            forall|k: int| 0 <= k < j ==> #[trigger] id[k] == data@[base + k],
        decreases 32 - j,
    {
        id[j] = data[base + j];
        j = j + 1;
    }
    assert(id@ =~= chunk(data@, i as int));
    id
}

/// A set of vertex IDs.
#[derive(Debug)]
pub struct VertexIdSet {
    ids: IdSet,
}

impl View for VertexIdSet {
    type V = Set<[u8; 32]>;

    closed spec fn view(&self) -> Set<[u8; 32]> {
        id_set_items(self.ids)
    }
}

impl VertexIdSet {
    /// The set is finite.
    #[verifier::type_invariant]
    spec fn finite(self) -> bool {
        id_set_items(self.ids).finite()
    }

    /// An empty set.
    pub fn new() -> (r: Self)
        ensures
            r@ == Set::<[u8; 32]>::empty(),
    {
        VertexIdSet { ids: id_set_new() }
    }

    /// Adds `id`; `true` where it was not in the set before.
    pub fn insert(&mut self, id: VertexId) -> (added: bool)
        ensures
            final(self)@ == old(self)@.insert(id.0),
            added == !old(self)@.contains(id.0),
    {
        proof {
            use_type_invariant(&*self);
        }
        let mut ids = id_set_new();
        std::mem::swap(&mut ids, &mut self.ids);
        let added = id_set_insert(&mut ids, id.0);
        self.ids = ids;
        added
    }

    /// Removes `id`; `true` where it was in the set.
    pub fn remove(&mut self, id: &VertexId) -> (removed: bool)
        ensures
            final(self)@ == old(self)@.remove(id.0),
            removed == old(self)@.contains(id.0),
    {
        proof {
            use_type_invariant(&*self);
        }
        let mut ids = id_set_new();
        std::mem::swap(&mut ids, &mut self.ids);
        let removed = id_set_remove(&mut ids, &id.0);
        self.ids = ids;
        removed
    }

    /// Whether `id` is in the set.
    pub fn contains(&self, id: &VertexId) -> (r: bool)
        ensures
            r == self@.contains(id.0),
    {
        id_set_contains(&self.ids, &id.0)
    }

    /// The number of IDs in the set.
    pub fn len(&self) -> (r: usize)
        ensures
            r == self@.len(),
    {
        id_set_len(&self.ids)
    }

    /// Whether the set is empty.
    pub fn is_empty(&self) -> (r: bool)
        ensures
            r <==> self@ == Set::<[u8; 32]>::empty(),
    {
        proof {
            use_type_invariant(self);
            if self@.len() == 0 {
                self@.lemma_len0_is_empty();
            }
        }
        id_set_len(&self.ids) == 0
    }

    /// The IDs of the set, each once, in the set's own order.
    pub fn ids(&self) -> (r: Vec<VertexId>)
        ensures
            vertex_bytes(r@).no_duplicates(),
            vertex_bytes(r@).to_set() == self@,
    {
        let raw = id_set_ids(&self.ids);
        to_vertex_ids(raw)
    }
}

/// The 32-byte IDs of a sequence of vertex IDs.
pub open spec fn vertex_bytes(ids: Seq<VertexId>) -> Seq<[u8; 32]> {
    ids.map_values(|v: VertexId| v.0)
}

/// Vertex IDs holding the given 32-byte IDs, in order.
pub fn to_vertex_ids(raw: Vec<[u8; 32]>) -> (r: Vec<VertexId>)
    ensures
        vertex_bytes(r@) == raw@,
{
    let mut r: Vec<VertexId> = Vec::new();
    let mut i: usize = 0;
    while i < raw.len()
        invariant
            i <= raw@.len(),
            r@.len() == i,
            vertex_bytes(r@) == raw@.subrange(0, i as int),
        decreases raw@.len() - i,
    {
        let ghost before = r@;
        r.push(VertexId(raw[i]));
        assert(vertex_bytes(r@) =~= raw@.subrange(0, i + 1)) by {
            assert forall|k: int| 0 <= k < i + 1 implies #[trigger] vertex_bytes(r@)[k]
                == raw@.subrange(0, i + 1)[k] by {
                if k < i {
                    assert(r@[k] == before[k]);
                    assert(vertex_bytes(before)[k] == raw@.subrange(0, i as int)[k]);
                }
            }
        }
        i = i + 1;
    }
    assert(raw@.subrange(0, i as int) =~= raw@);
    r
}

/// The 32-byte IDs of vertex IDs, in order.
pub fn from_vertex_ids(ids: &[VertexId]) -> (r: Vec<[u8; 32]>)
    ensures
        r@ == vertex_bytes(ids@),
{
    let mut r: Vec<[u8; 32]> = Vec::new();
    let mut i: usize = 0;
    while i < ids.len()
        invariant
            i <= ids@.len(),
            r@ == vertex_bytes(ids@.subrange(0, i as int)),
        decreases ids@.len() - i,
    {
        let ghost before = r@;
        r.push(ids[i].0);
        assert(r@ =~= vertex_bytes(ids@.subrange(0, i + 1))) by {
            assert forall|k: int| 0 <= k < i + 1 implies #[trigger] r@[k] == vertex_bytes(
                ids@.subrange(0, i + 1),
            )[k] by {
                if k < i {
                    assert(before[k] == vertex_bytes(ids@.subrange(0, i as int))[k]);
                }
            }
        }
        i = i + 1;
    }
    assert(ids@.subrange(0, i as int) =~= ids@);
    r
}

impl PartialEq for VertexIdSet {
    fn eq(&self, other: &Self) -> (r: bool) {
        proof {
            use_type_invariant(self);
            use_type_invariant(other);
        }
        let ids = id_set_ids(&self.ids);
        proof {
            ids@.unique_seq_to_set();
        }
        if ids.len() != id_set_len(&other.ids) {
            return false;
        }
        let mut i: usize = 0;
        while i < ids.len()
            invariant
                i <= ids@.len(),
                ids@.to_set() == self@,
                forall|j: int| 0 <= j < i ==> other@.contains(#[trigger] ids@[j]),
            decreases ids@.len() - i,
        {
            if !id_set_contains(&other.ids, &ids[i]) {
                assert(ids@.to_set().contains(ids@[i as int]));
                return false;
            }
            i = i + 1;
        }
        proof {
            assert(self@.subset_of(other@)) by {
                assert forall|k: [u8; 32]| self@.contains(k) implies other@.contains(k) by {
                    assert(ids@.to_set().contains(k));
                    let j = choose|j: int| 0 <= j < ids@.len() && ids@[j] == k;
                    assert(other@.contains(ids@[j]));
                }
            }
            vstd::set_lib::lemma_subset_equality(self@, other@);
        }
        true
    }
}

impl vstd::std_specs::cmp::PartialEqSpecImpl for VertexIdSet {
    open spec fn obeys_eq_spec() -> bool {
        true
    }

    open spec fn eq_spec(&self, other: &Self) -> bool {
        self@ == other@
    }
}

/// Reads a packed vertex-ID set: one ID per whole run of 32 bytes.
pub fn parse_vertex_set(data: &[u8]) -> (r: VertexIdSet)
    ensures
        r@ == packed_ids(data@),
{
    let mut set = VertexIdSet::new();
    let n = data.len() / 32;
    let mut i: usize = 0;
    while i < n
        invariant
            i <= n,
            n == data@.len() / 32,
            set@ == Set::new(
                |k: [u8; 32]| exists|j: int| 0 <= j < i && #[trigger] chunk(data@, j) == k@,
            ),
        decreases n - i,
    {
        assert(32 * i + 32 <= data@.len()) by (nonlinear_arith)
            requires
                i < n,
                n == data@.len() / 32,
        ;
        let id = read_chunk(data, i);
        let ghost before = set@;
        set.insert(VertexId::new(id));
        assert(set@ =~= Set::new(
            |k: [u8; 32]| exists|j: int| 0 <= j < i + 1 && #[trigger] chunk(data@, j) == k@,
        )) by {
            assert forall|k: [u8; 32]| #[trigger] set@.contains(k) <==> exists|j: int|
                0 <= j < i + 1 && #[trigger] chunk(data@, j) == k@ by {
                if k == id {
                    assert(chunk(data@, i as int) == k@);
                }
                if exists|j: int| 0 <= j < i + 1 && #[trigger] chunk(data@, j) == k@ {
                    let j = choose|j: int| 0 <= j < i + 1 && #[trigger] chunk(data@, j) == k@;
                    if j == i {
                        assert(k@ == id@);
                        assert(k == id);
                    } else {
                        assert(before.contains(k));
                    }
                }
            }
        }
        i = i + 1;
    }
    assert(set@ =~= packed_ids(data@));
    set
}

/// Packs a vertex-ID set: its IDs one after another, in the set's own order.
pub fn serialize_vertex_set(set: &VertexIdSet) -> (data: Vec<u8>)
    ensures
        exists|ids: Seq<[u8; 32]>|
            ids.no_duplicates() && ids.to_set() == set@ && data@ == pack(ids),
        packed_ids(data@) == set@,
{
    let ids = id_set_ids(&set.ids);
    let mut data: Vec<u8> = Vec::new();
    let mut i: usize = 0;
    while i < ids.len()
        invariant
            i <= ids@.len(),
            data@ == pack(ids@.subrange(0, i as int)),
        decreases ids@.len() - i,
    {
        append_bytes(&mut data, ids[i].as_slice());
        assert(ids@.subrange(0, i + 1).drop_last() =~= ids@.subrange(0, i as int));
        i = i + 1;
    }
    assert(ids@.subrange(0, i as int) =~= ids@);
    proof {
        lemma_pack_then_parse(ids@);
    }
    data
}

/// The IDs held by the vertices in `ids`.
pub open spec fn id_bytes_of(ids: Seq<VertexId>) -> Set<[u8; 32]> {
    Set::new(|k: [u8; 32]| exists|i: int| 0 <= i < ids.len() && #[trigger] ids[i].0 == k)
}

/// A stored vertex-ID set with `id` added (the children and genesis indexes grow
/// this way).
pub fn vertex_set_with(stored: &[u8], id: &VertexId) -> (data: Vec<u8>)
    ensures
        packed_ids(data@) == packed_ids(stored@).insert(id.0),
{
    let mut set = parse_vertex_set(stored);
    set.insert(*id);
    serialize_vertex_set(&set)
}

/// The frontier after `new_vertex` is stored: the stored frontier without the parents
/// that the vertex consumes, and with the vertex itself.
pub fn next_frontier(stored: &[u8], new_vertex: &VertexId, consumed_parents: &[VertexId]) -> (data: Vec<u8>)
    ensures
        packed_ids(data@) == packed_ids(stored@).difference(id_bytes_of(consumed_parents@)).insert(
            new_vertex.0,
        ),
{
    let mut frontier = parse_vertex_set(stored);
    let ghost start = frontier@;
    let mut i: usize = 0;
    while i < consumed_parents.len()
        invariant
            i <= consumed_parents@.len(),
            frontier@ == start.difference(id_bytes_of(consumed_parents@.subrange(0, i as int))),
        decreases consumed_parents@.len() - i,
    {
        frontier.remove(&consumed_parents[i]);
        assert(frontier@ =~= start.difference(id_bytes_of(consumed_parents@.subrange(0, i + 1))))
            by {
            let pre = consumed_parents@.subrange(0, i as int);
            let post = consumed_parents@.subrange(0, i + 1);
            assert forall|k: [u8; 32]| #[trigger] id_bytes_of(post).contains(k) <==> (id_bytes_of(
                pre,
            ).contains(k) || k == consumed_parents@[i as int].0) by {
                if id_bytes_of(post).contains(k) {
                    let j = choose|j: int| 0 <= j < post.len() && #[trigger] post[j].0 == k;
                    if j < i {
                        assert(pre[j] == post[j]);
                    }
                }
                if id_bytes_of(pre).contains(k) {
                    let j = choose|j: int| 0 <= j < pre.len() && #[trigger] pre[j].0 == k;
                    assert(post[j] == pre[j]);
                }
                if k == consumed_parents@[i as int].0 {
                    assert(post[i as int].0 == k);
                }
            }
        }
        i = i + 1;
    }
    assert(consumed_parents@.subrange(0, i as int) =~= consumed_parents@);
    frontier.insert(*new_vertex);
    serialize_vertex_set(&frontier)
}

} // verus!
