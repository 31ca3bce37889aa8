//! One session of the in-memory DAG store: the stored vertices with their parents, the
//! parent-to-children index, the genesis vertices and the frontier, and the session's
//! vertices in an order where parents come first.

use vstd::prelude::*;
use crate::dag_keys::{from_vertex_ids, to_vertex_ids, vertex_bytes, VertexIdSet};
use crate::outside::{
    child_table_add, child_table_children, child_table_entries, child_table_new,
    parent_table_entries, parent_table_get, parent_table_ids, parent_table_insert,
    parent_table_len, parent_table_new, ChildTable, ParentTable,
};
use crate::types::VertexId;

verus! {

/// The children recorded for `parent`: its set, or the empty set where it has none.
pub open spec fn children_of(children: Map<[u8; 32], Set<[u8; 32]>>, parent: [u8; 32]) -> Set<
    [u8; 32],
> {
    if children.contains_key(parent) {
        children[parent]
    } else {
        Set::empty()
    }
}

/// The children index with `child` recorded under each of `parents`, in order.
pub open spec fn with_child(
    children: Map<[u8; 32], Set<[u8; 32]>>,
    parents: Seq<[u8; 32]>,
    child: [u8; 32],
) -> Map<[u8; 32], Set<[u8; 32]>>
    decreases parents.len(),
{
    if parents.len() == 0 {
        children
    } else {
        let before = with_child(children, parents.drop_last(), child);
        before.insert(parents.last(), children_of(before, parents.last()).insert(child))
    }
}

/// Recording `child` under a list of parents adds it to the children of every listed
/// parent and leaves every other entry as it was.
pub proof fn lemma_with_child_records_every_parent(
    children: Map<[u8; 32], Set<[u8; 32]>>,
    parents: Seq<[u8; 32]>,
    child: [u8; 32],
)
    ensures
        forall|p: [u8; 32]|
            #![trigger children_of(with_child(children, parents, child), p)]
            parents.contains(p) ==> children_of(with_child(children, parents, child), p)
                == children_of(children, p).insert(child),
        forall|p: [u8; 32]|
            #![trigger children_of(with_child(children, parents, child), p)]
            !parents.contains(p) ==> children_of(with_child(children, parents, child), p)
                == children_of(children, p),
        forall|p: [u8; 32]|
            #![trigger with_child(children, parents, child).contains_key(p)]
            with_child(children, parents, child).contains_key(p) <==> (children.contains_key(p)
                || parents.contains(p)),
    decreases parents.len(),
{
    if parents.len() > 0 {
        let init = parents.drop_last();
        let last = parents.last();
        lemma_with_child_records_every_parent(children, init, child);
        let before = with_child(children, init, child);
        assert forall|p: [u8; 32]| parents.contains(p) <==> (init.contains(p) || p == last) by {
            if parents.contains(p) {
                let j = choose|j: int| 0 <= j < parents.len() && parents[j] == p;
                if j < parents.len() - 1 {
                    assert(init[j] == p);
                }
            }
            if init.contains(p) {
                let j = choose|j: int| 0 <= j < init.len() && init[j] == p;
                assert(parents[j] == p);
            }
            if p == last {
                assert(parents[parents.len() - 1] == p);
            }
        }
        let after = with_child(children, parents, child);
        assert(after == before.insert(last, children_of(before, last).insert(child)));
        assert forall|p: [u8; 32]| p != last implies children_of(after, p) == children_of(
            before,
            p,
        ) && (after.contains_key(p) <==> before.contains_key(p)) by {
            if before.contains_key(p) {
                assert(after[p] == before[p]);
            }
        }
        assert forall|p: [u8; 32]| parents.contains(p) implies children_of(after, p)
            == children_of(children, p).insert(child) by {
            if p == last {
                assert(after.contains_key(p));
                assert(after[p] == children_of(before, last).insert(child));
                if init.contains(p) {
                    assert(children_of(before, p).insert(child) =~= children_of(
                        children,
                        p,
                    ).insert(child));
                }
            } else {
                assert(init.contains(p));
            }
        }
        assert forall|p: [u8; 32]| !parents.contains(p) implies children_of(after, p)
            == children_of(children, p) by {
            assert(p != last);
            assert(!init.contains(p));
        }
        assert forall|p: [u8; 32]| after.contains_key(p) <==> (children.contains_key(p)
            || parents.contains(p)) by {
            if p == last {
                assert(after.contains_key(p));
            }
        }
    }
}

/// What a session holds.
pub struct DagSessionView {
    /// Each stored vertex with its parents.
    pub parents: Map<[u8; 32], Seq<[u8; 32]>>,
    /// Each parent with the vertices stored as its children.
    pub children: Map<[u8; 32], Set<[u8; 32]>>,
    /// The stored vertices without parents.
    pub genesis: Set<[u8; 32]>,
    /// The vertices no stored vertex has consumed as a parent.
    pub frontier: Set<[u8; 32]>,
}

/// One session of the in-memory DAG store.
pub struct DagSession {
    vertices: ParentTable,
    children: ChildTable,
    genesis: VertexIdSet,
    frontier: VertexIdSet,
}

impl View for DagSession {
    type V = DagSessionView;

    closed spec fn view(&self) -> DagSessionView {
        DagSessionView {
            parents: parent_table_entries(self.vertices),
            children: child_table_entries(self.children),
            genesis: self.genesis@,
            frontier: self.frontier@,
        }
    }
}

/// `order` lists stored vertices, each once, every parent of a listed vertex listed
/// before it.
pub open spec fn parents_first(parents: Map<[u8; 32], Seq<[u8; 32]>>, order: Seq<[u8; 32]>) -> bool {
    &&& order.no_duplicates()
    &&& forall|i: int| 0 <= i < order.len() ==> parents.contains_key(#[trigger] order[i])
    &&& forall|i: int, p: [u8; 32]|
        0 <= i < order.len() && #[trigger] parents[order[i]].contains(p) ==> exists|j: int|
            0 <= j < i && #[trigger] order[j] == p
}

/// No stored vertex is left out of `order` while all its parents are in it.
pub open spec fn maximal(parents: Map<[u8; 32], Seq<[u8; 32]>>, order: Seq<[u8; 32]>) -> bool {
    forall|v: [u8; 32]|
        #[trigger] parents.contains_key(v) && !order.contains(v) ==> exists|p: [u8; 32]|
            #[trigger] parents[v].contains(p) && !order.contains(p)
}

/// A vertex without parents is never left out of a maximal order.
pub proof fn lemma_genesis_in_maximal_order(
    parents: Map<[u8; 32], Seq<[u8; 32]>>,
    order: Seq<[u8; 32]>,
    v: [u8; 32],
)
    requires
        maximal(parents, order),
        parents.contains_key(v),
        parents[v].len() == 0,
    ensures
        order.contains(v),
{
    if !order.contains(v) {
        let p = choose|p: [u8; 32]| #[trigger] parents[v].contains(p) && !order.contains(p);
        assert(parents[v].contains(p));
    }
}

/// Whether every ID of `ids` is in `set`.
fn all_in(set: &VertexIdSet, ids: &Vec<[u8; 32]>) -> (r: bool)
    ensures
        r == (forall|i: int| 0 <= i < ids@.len() ==> set@.contains(#[trigger] ids@[i])),
{
    let mut i: usize = 0;
    while i < ids.len()
        invariant
            i <= ids@.len(),
            forall|k: int| 0 <= k < i ==> set@.contains(#[trigger] ids@[k]),
        decreases ids@.len() - i,
    {
        if !set.contains(&VertexId(ids[i])) {
            return false;
        }
        i = i + 1;
    }
    true
}

impl DagSession {
    /// An empty session.
    pub fn new() -> (r: Self)
        ensures
            r@.parents == Map::<[u8; 32], Seq<[u8; 32]>>::empty(),
            r@.children == Map::<[u8; 32], Set<[u8; 32]>>::empty(),
            r@.genesis == Set::<[u8; 32]>::empty(),
            r@.frontier == Set::<[u8; 32]>::empty(),
    {
        DagSession {
            vertices: parent_table_new(),
            children: child_table_new(),
            genesis: VertexIdSet::new(),
            frontier: VertexIdSet::new(),
        }
    }

    /// Stores a vertex with its parents: it becomes a child of each parent, a genesis
    /// vertex when it has no parents, and it replaces its parents in the frontier.
    pub fn put_vertex(&mut self, vertex_id: VertexId, parents: &[VertexId])
        ensures
            final(self)@.parents == old(self)@.parents.insert(vertex_id.0, vertex_bytes(parents@)),
            final(self)@.children == with_child(
                old(self)@.children,
                vertex_bytes(parents@),
                vertex_id.0,
            ),
            forall|p: [u8; 32]|
                #![trigger children_of(final(self)@.children, p)]
                vertex_bytes(parents@).contains(p) ==> children_of(final(self)@.children, p)
                    == children_of(old(self)@.children, p).insert(vertex_id.0),
            forall|p: [u8; 32]|
                #![trigger children_of(final(self)@.children, p)]
                !vertex_bytes(parents@).contains(p) ==> children_of(final(self)@.children, p)
                    == children_of(old(self)@.children, p),
            final(self)@.genesis == if parents@.len() == 0 {
                old(self)@.genesis.insert(vertex_id.0)
            } else {
                old(self)@.genesis
            },
            final(self)@.frontier == old(self)@.frontier.difference(
                vertex_bytes(parents@).to_set(),
            ).insert(vertex_id.0),
    {
        let ids = from_vertex_ids(parents);
        let mut children = child_table_new();
        std::mem::swap(&mut children, &mut self.children);
        let mut i: usize = 0;
        while i < ids.len()
            invariant
                i <= ids@.len(),
                ids@ == vertex_bytes(parents@),
                parent_table_entries(self.vertices) == old(self)@.parents,
                self.genesis@ == old(self)@.genesis,
                self.frontier@ == old(self)@.frontier,
                child_table_entries(children) == with_child(
                    old(self)@.children,
                    ids@.subrange(0, i as int),
                    vertex_id.0,
                ),
            decreases ids@.len() - i,
        {
            child_table_add(&mut children, ids[i], vertex_id.0);
            assert(ids@.subrange(0, i + 1).drop_last() =~= ids@.subrange(0, i as int));
            i = i + 1;
        }
        assert(ids@.subrange(0, i as int) =~= ids@);
        proof {
            lemma_with_child_records_every_parent(old(self)@.children, ids@, vertex_id.0);
        }
        self.children = children;
        if ids.len() == 0 {
            self.genesis.insert(vertex_id);
        }
        let ghost start = self.frontier@;
        let mut k: usize = 0;
        while k < parents.len()
            invariant
                k <= parents@.len(),
                ids@ == vertex_bytes(parents@),
                parent_table_entries(self.vertices) == old(self)@.parents,
                child_table_entries(self.children) == with_child(
                    old(self)@.children,
                    vertex_bytes(parents@),
                    vertex_id.0,
                ),
                self.genesis@ == if parents@.len() == 0 {
                    old(self)@.genesis.insert(vertex_id.0)
                } else {
                    old(self)@.genesis
                },
                start == old(self)@.frontier,
                self.frontier@ == start.difference(ids@.subrange(0, k as int).to_set()),
            decreases parents@.len() - k,
        {
            self.frontier.remove(&parents[k]);
            assert(self.frontier@ =~= start.difference(ids@.subrange(0, k + 1).to_set())) by {
                assert forall|x: [u8; 32]| ids@.subrange(0, k + 1).to_set().contains(x) <==> (
                ids@.subrange(0, k as int).to_set().contains(x) || x == ids@[k as int]) by {
                    if ids@.subrange(0, k + 1).to_set().contains(x) {
                        let j = choose|j: int| 0 <= j < k + 1 && #[trigger] ids@.subrange(0, k + 1)[j] == x;
                        if j < k {
                            assert(ids@.subrange(0, k as int)[j] == x);
                        }
                    }
                    if ids@.subrange(0, k as int).to_set().contains(x) {
                        let j = choose|j: int| 0 <= j < k && #[trigger] ids@.subrange(0, k as int)[j] == x;
                        assert(ids@.subrange(0, k + 1)[j] == x);
                    }
                    if x == ids@[k as int] {
                        assert(ids@.subrange(0, k + 1)[k as int] == x);
                    }
                }
            }
            k = k + 1;
        }
        assert(ids@.subrange(0, k as int) =~= ids@);
        self.frontier.insert(vertex_id);
        let mut vertices = parent_table_new();
        std::mem::swap(&mut vertices, &mut self.vertices);
        parent_table_insert(&mut vertices, vertex_id.0, ids);
        self.vertices = vertices;
    }

    /// The parents of a stored vertex; `None` where it is not stored.
    pub fn get_parents(&self, vertex_id: &VertexId) -> (r: Option<Vec<VertexId>>)
        ensures
            match r {
                Some(ps) => self@.parents.contains_key(vertex_id.0) && vertex_bytes(ps@)
                    == self@.parents[vertex_id.0],
                None => !self@.parents.contains_key(vertex_id.0),
            },
    {
        match parent_table_get(&self.vertices, &vertex_id.0) {
            Some(ps) => Some(to_vertex_ids(ps)),
            None => None,
        }
    }

    /// Whether the vertex is stored.
    pub fn contains(&self, vertex_id: &VertexId) -> (r: bool)
        ensures
            r == self@.parents.contains_key(vertex_id.0),
    {
        parent_table_get(&self.vertices, &vertex_id.0).is_some()
    }

    /// The children recorded for `parent`, each once.
    pub fn get_children(&self, parent: &VertexId) -> (r: Vec<VertexId>)
        ensures
            vertex_bytes(r@).no_duplicates(),
            vertex_bytes(r@).to_set() == children_of(self@.children, parent.0),
    {
        let raw = child_table_children(&self.children, &parent.0);
        proof {
            if !child_table_entries(self.children).contains_key(parent.0) {
                assert(raw@.to_set() =~= Set::<[u8; 32]>::empty());
            }
        }
        to_vertex_ids(raw)
    }

    /// The genesis vertices, each once.
    pub fn get_genesis(&self) -> (r: Vec<VertexId>)
        ensures
            vertex_bytes(r@).no_duplicates(),
            vertex_bytes(r@).to_set() == self@.genesis,
    {
        self.genesis.ids()
    }

    /// The frontier, each vertex once.
    pub fn get_frontier(&self) -> (r: Vec<VertexId>)
        ensures
            vertex_bytes(r@).no_duplicates(),
            vertex_bytes(r@).to_set() == self@.frontier,
    {
        self.frontier.ids()
    }

    /// The number of stored vertices.
    pub fn count_vertices(&self) -> (r: usize)
        ensures
            r == self@.parents.len(),
    {
        parent_table_len(&self.vertices)
    }

    /// Moves the frontier past a new vertex: the consumed parents leave it and the new
    /// vertex joins it.
    pub fn update_frontier(&mut self, new_vertex: VertexId, consumed_parents: &[VertexId])
        ensures
            final(self)@.parents == old(self)@.parents,
            final(self)@.children == old(self)@.children,
            final(self)@.genesis == old(self)@.genesis,
            final(self)@.frontier == old(self)@.frontier.difference(
                vertex_bytes(consumed_parents@).to_set(),
            ).insert(new_vertex.0),
    {
        let ghost start = self.frontier@;
        let ghost ids = vertex_bytes(consumed_parents@);
        let mut k: usize = 0;
        while k < consumed_parents.len()
            invariant
                k <= consumed_parents@.len(),
                ids == vertex_bytes(consumed_parents@),
                self@.parents == old(self)@.parents,
                self@.children == old(self)@.children,
                self@.genesis == old(self)@.genesis,
                self.frontier@ == start.difference(ids.subrange(0, k as int).to_set()),
            decreases consumed_parents@.len() - k,
        {
            self.frontier.remove(&consumed_parents[k]);
            assert(self.frontier@ =~= start.difference(ids.subrange(0, k + 1).to_set())) by {
                assert(ids[k as int] == consumed_parents@[k as int].0);
                assert forall|x: [u8; 32]| ids.subrange(0, k + 1).to_set().contains(x) <==> (
                ids.subrange(0, k as int).to_set().contains(x) || x == ids[k as int]) by {
                    if ids.subrange(0, k + 1).to_set().contains(x) {
                        let j = choose|j: int| 0 <= j < k + 1 && #[trigger] ids.subrange(0, k + 1)[j] == x;
                        if j < k {
                            assert(ids.subrange(0, k as int)[j] == x);
                        }
                    }
                    if ids.subrange(0, k as int).to_set().contains(x) {
                        let j = choose|j: int| 0 <= j < k && #[trigger] ids.subrange(0, k as int)[j] == x;
                        assert(ids.subrange(0, k + 1)[j] == x);
                    }
                    if x == ids[k as int] {
                        assert(ids.subrange(0, k + 1)[k as int] == x);
                    }
                }
            }
            k = k + 1;
        }
        assert(ids.subrange(0, k as int) =~= ids);
        self.frontier.insert(new_vertex);
    }

    /// The stored vertices, each once, every parent before its children. It goes over
    /// the stored vertices, in the store's own order, again and again, taking each one
    /// not yet taken whose parents are all taken, until a pass takes none. A vertex is
    /// left out only when a parent of it is left out (a parent never stored, or a
    /// cycle); where every parent is stored, every vertex comes out.
    pub fn topological_order(&self) -> (r: Vec<VertexId>)
        ensures
            parents_first(self@.parents, vertex_bytes(r@)),
            maximal(self@.parents, vertex_bytes(r@)),
    {
        let ids = parent_table_ids(&self.vertices);
        let ghost parents = self@.parents;
        proof {
            ids@.unique_seq_to_set();
        }
        let mut taken = VertexIdSet::new();
        let mut order: Vec<[u8; 32]> = Vec::new();
        let mut progress = true;
        while progress
            invariant
                ids@.no_duplicates(),
                ids@.to_set() == parents.dom(),
                ids@.to_set().len() == ids@.len(),
                parents == self@.parents,
                taken@ == order@.to_set(),
                parents_first(parents, order@),
                order@.len() <= ids@.len(),
                !progress ==> maximal(parents, order@),
            decreases 2 * (ids@.len() - order@.len()) + if progress {
                1int
            } else {
                0int
            },
        {
            progress = false;
            let ghost len0 = order@.len();
            let mut k: usize = 0;
            while k < ids.len()
                invariant
                    k <= ids@.len(),
                    ids@.no_duplicates(),
                    ids@.to_set() == parents.dom(),
                    ids@.to_set().len() == ids@.len(),
                    parents == self@.parents,
                    taken@ == order@.to_set(),
                    parents_first(parents, order@),
                    order@.len() <= ids@.len(),
                    order@.len() >= len0,
                    progress == (order@.len() > len0),
                    !progress ==> forall|m: int|
                        0 <= m < k ==> order@.contains(#[trigger] ids@[m]) || exists|p: [u8; 32]|
                            parents[ids@[m]].contains(p) && !order@.contains(p),
                decreases ids@.len() - k,
            {
                let v = ids[k];
                assert(ids@.to_set().contains(ids@[k as int]));
                if !taken.contains(&VertexId(v)) {
                    match parent_table_get(&self.vertices, &v) {
                        Some(ps) => {
                            if all_in(&taken, &ps) {
                                let ghost before = order@;
                                taken.insert(VertexId(v));
                                order.push(v);
                                progress = true;
                                proof {
                                    assert(!before.contains(v));
                                    assert(order@ == before.push(v));
                                    assert(order@.to_set() =~= before.to_set().insert(v)) by {
                                        assert forall|x: [u8; 32]|
                                            order@.to_set().contains(x) <==> before.to_set().insert(
                                                v,
                                            ).contains(x) by {
                                            if order@.contains(x) {
                                                let i = choose|i: int|
                                                    0 <= i < order@.len() && order@[i] == x;
                                                if i < before.len() {
                                                    assert(before[i] == x);
                                                }
                                            }
                                            if before.contains(x) {
                                                let i = choose|i: int|
                                                    0 <= i < before.len() && before[i] == x;
                                                assert(order@[i] == x);
                                            }
                                            if x == v {
                                                assert(order@[before.len() as int] == x);
                                            }
                                        }
                                    }
                                    assert(order@.no_duplicates()) by {
                                        assert forall|a: int, b: int|
                                            0 <= a < b < order@.len() implies order@[a]
                                            != order@[b] by {
                                            if b == before.len() {
                                                assert(before.contains(order@[a]));
                                            } else {
                                                assert(before[a] == order@[a] && before[b]
                                                    == order@[b]);
                                            }
                                        }
                                    }
                                    assert forall|i: int|
                                        0 <= i < order@.len() implies parents.contains_key(
                                        #[trigger] order@[i],
                                    ) by {
                                        if i < before.len() {
                                            assert(order@[i] == before[i]);
                                        }
                                    }
                                    assert forall|i: int, p: [u8; 32]|
                                        0 <= i < order@.len() && #[trigger] parents[order@[
                                            i
                                        ]].contains(p) implies exists|j: int|
                                        0 <= j < i && #[trigger] order@[j] == p by {
                                        if i < before.len() {
                                            assert(order@[i] == before[i]);
                                            assert(parents[before[i]].contains(p));
                                            let j = choose|j: int|
                                                0 <= j < i && #[trigger] before[j] == p;
                                            assert(order@[j] == p);
                                        } else {
                                            let idx = choose|idx: int|
                                                0 <= idx < ps@.len() && ps@[idx] == p;
                                            assert(before.to_set().contains(p));
                                            let j = choose|j: int|
                                                0 <= j < before.len() && before[j] == p;
                                            assert(order@[j] == p);
                                        }
                                    }
                                    assert(before.to_set().insert(v).subset_of(parents.dom()));
                                    before.unique_seq_to_set();
                                    vstd::set_lib::lemma_len_subset(
                                        before.to_set().insert(v),
                                        parents.dom(),
                                    );
                                }
                            } else {
                                proof {
                                    let idx = choose|idx: int|
                                        0 <= idx < ps@.len() && !taken@.contains(
                                            #[trigger] ps@[idx],
                                        );
                                    assert(parents[ids@[k as int]].contains(ps@[idx]));
                                    assert(!order@.contains(ps@[idx]));
                                }
                            }
                        },
                        None => {},
                    }
                } else {
                    assert(order@.contains(ids@[k as int]));
                }
                k = k + 1;
            }
            proof {
                if !progress {
                    assert forall|v: [u8; 32]|
                        #[trigger] parents.contains_key(v) && !order@.contains(v) implies exists|
                        p: [u8; 32],
                    | #[trigger] parents[v].contains(p) && !order@.contains(p) by {
                        assert(ids@.to_set().contains(v));
                        let m = choose|m: int| 0 <= m < ids@.len() && ids@[m] == v;
                        assert(order@.contains(ids@[m]) || exists|p: [u8; 32]|
                            parents[ids@[m]].contains(p) && !order@.contains(p));
                    }
                }
            }
        }
        to_vertex_ids(order)
    }
}

} // verus!
