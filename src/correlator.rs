//! Request ids and the table of requests that await their response.
use vstd::prelude::*;
use std::collections::BTreeMap;
use vstd::std_specs::iter::IteratorSpec;
use vstd::std_specs::cmp::OrdSpec;
use crate::protocol::RequestType;

verus! {

broadcast use vstd::std_specs::btree::group_btree_axioms;

/// Hands out request ids and remembers, for each request still awaiting
/// its response, which command it was.
pub struct Correlator {
    next: u64,
    pending: BTreeMap<u64, RequestType>,
}

pub struct CorrelatorView {
    /// The id that the next request gets.
    pub next: u64,
    /// The requests awaiting a response, by id.
    pub pending: Map<u64, RequestType>,
}

impl View for Correlator {
    type V = CorrelatorView;

    closed spec fn view(&self) -> CorrelatorView {
        CorrelatorView { next: self.next, pending: self.pending@ }
    }
}

/// An attempt to record a request under an id that is already pending.
#[derive(Debug, Clone, Copy, PartialEq, Eq, Structural)]
pub enum CorrelationError {
    DuplicateId,
}

/// What resolving `id` against the table `p` hands back.
pub open spec fn resolution(p: Map<u64, RequestType>, id: u64) -> Option<RequestType> {
    if p.contains_key(id) {
        Some(p[id])
    } else {
        None
    }
}

/// `s` lists every entry of `p` once, in increasing order of id.
pub open spec fn lists_table(p: Map<u64, RequestType>, s: Seq<(u64, RequestType)>) -> bool {
    &&& forall|i: int| 0 <= i < s.len() ==> #[trigger] p.contains_key(s[i].0) && p[s[i].0] == s[i].1
    &&& forall|id: u64| #[trigger] p.contains_key(id) ==> exists|i: int| 0 <= i < s.len() && s[i].0 == id
    &&& forall|i: int, j: int| 0 <= i < j < s.len() ==> s[i].0 < s[j].0
}

/// A request recorded under `id` resolves to its command once; resolving
/// the same id again finds nothing.
pub proof fn lemma_resolve_at_most_once(p: Map<u64, RequestType>, id: u64, kind: RequestType)
    ensures
        resolution(p.insert(id, kind), id) == Some(kind),
        resolution(p.insert(id, kind).remove(id), id) is None,
{
}

impl Correlator {
    /// An empty table whose first id is 0.
    pub fn new() -> (r: Correlator)
        ensures
            r@.next == 0,
            r@.pending == Map::<u64, RequestType>::empty(),
    {
        Correlator { next: 0, pending: BTreeMap::new() }
    }

    /// Whether another id can be handed out.
    pub fn has_ids_left(&self) -> (r: bool)
        ensures
            r == (self@.next < u64::MAX),
    {
        self.next < u64::MAX
    }

    /// Hands out a new id, one more than the last.
    pub fn next_id(&mut self) -> (r: u64)
        requires
            old(self)@.next < u64::MAX,
        ensures
            r == old(self)@.next,
            final(self)@.next == r + 1,
            final(self)@.pending == old(self)@.pending,
    {
        let id = self.next;
        self.next = self.next + 1;
        id
    }

    /// Records that request `id` was sent for `kind`.
    pub fn register(&mut self, id: u64, kind: RequestType) -> (r: Result<(), CorrelationError>)
        ensures
            final(self)@.next == old(self)@.next,
            match r {
                Ok(()) => !old(self)@.pending.contains_key(id)
                    && final(self)@.pending == old(self)@.pending.insert(id, kind),
                Err(e) => old(self)@.pending.contains_key(id) && e == CorrelationError::DuplicateId
                    && final(self)@.pending == old(self)@.pending,
            },
    {
        broadcast use vstd::laws_cmp::group_laws_cmp;
        if self.pending.contains_key(&id) {
            return Err(CorrelationError::DuplicateId);
        }
        self.pending.insert(id, kind);
        Ok(())
    }

    /// Takes request `id` out of the table and says what it was for.
    pub fn resolve(&mut self, id: u64) -> (r: Option<RequestType>)
        ensures
            r == resolution(old(self)@.pending, id),
            final(self)@.pending == old(self)@.pending.remove(id),
            final(self)@.next == old(self)@.next,
    {
        broadcast use vstd::laws_cmp::group_laws_cmp;
        self.pending.remove(&id)
    }

    /// Whether request `id` awaits its response.
    pub fn is_pending(&self, id: u64) -> (r: bool)
        ensures
            r == self@.pending.contains_key(id),
    {
        broadcast use vstd::laws_cmp::group_laws_cmp;
        self.pending.contains_key(&id)
    }

    /// How many requests await their response.
    pub fn pending_count(&self) -> (r: usize)
        ensures
            r == self@.pending.dom().len(),
    {
        self.pending.len()
    }

    /// Empties the table and hands back every entry it held, so that each
    /// waiting caller can be failed once.
    pub fn drain_all(&mut self) -> (r: Vec<(u64, RequestType)>)
        ensures
            lists_table(old(self)@.pending, r@),
            final(self)@.pending == Map::<u64, RequestType>::empty(),
            final(self)@.next == old(self)@.next,
    {
        broadcast use vstd::laws_cmp::group_laws_cmp;
        let ghost p = self.pending@;
        let mut out: Vec<(u64, RequestType)> = Vec::new();
        {
            let entries = self.pending.iter();
            let ghost es = entries.remaining();
            let ghost ids = es.map_values(|e: (&u64, &RequestType)| *e.0);
            assert(vstd::std_specs::btree::increasing_seq(ids));
            assert(es.len() == p.dom().len());
            for e in it: entries
                invariant
                    it.seq() == es,
                    ids == es.map_values(|e: (&u64, &RequestType)| *e.0),
                    vstd::std_specs::btree::increasing_seq(ids),
                    es.len() == p.dom().len(),
                    forall|i: int| 0 <= i < es.len() ==> #[trigger] p.contains_key(*es[i].0) && p[*es[i].0] == *es[i].1,
                    forall|id: u64| #[trigger] p.contains_key(id) ==> es.contains((&id, &p[id])),
                    out@.len() == it.index(),
                    forall|i: int| 0 <= i < it.index() ==> #[trigger] out@[i] == (*es[i].0, *es[i].1),
            {
                out.push((*e.0, *e.1));
            }
            proof {
                assert forall|i: int| 0 <= i < out@.len() implies #[trigger] p.contains_key(out@[i].0)
                    && p[out@[i].0] == out@[i].1 by {
                    assert(p.contains_key(*es[i].0));
                }
                assert forall|id: u64| #[trigger] p.contains_key(id) implies exists|i: int|
                    0 <= i < out@.len() && out@[i].0 == id by {
                    assert(es.contains((&id, &p[id])));
                    let i = choose|i: int| 0 <= i < es.len() && es[i] == (&id, &p[id]);
                    assert(out@[i].0 == id);
                }
                vstd::std_specs::btree::axiom_increasing_seq_meaning(ids);
                assert forall|i: int, j: int| 0 <= i < j < out@.len() implies out@[i].0 < out@[j].0 by {
                    assert(out@[i].0 == ids[i] && out@[j].0 == ids[j]);
                    assert(ids[i].cmp_spec(&ids[j]) is Less);
                }
            }
        }
        self.pending.clear();
        out
    }
}

} // verus!
