//! The client's mirror of the server's queues, keyed by queue id.
use vstd::prelude::*;
use std::collections::BTreeMap;
use vstd::std_specs::iter::IteratorSpec;
use vstd::std_specs::cmp::OrdSpec;
use crate::queue::{Queue, QueueView};
use crate::protocol::queues_view;

verus! {

broadcast use vstd::std_specs::btree::group_btree_axioms;

/// What changed in the mirror, for the caller's change feed.
#[derive(Debug, Clone, Copy, PartialEq, Eq, Structural)]
pub enum ChangeEvent {
    /// The whole mirror was replaced by a snapshot.
    QueuesReplaced,
    /// The queue with this id was created or replaced.
    QueueUpdated(u64),
    /// The queue with this id was removed.
    QueueRemoved(u64),
    /// Someone asked for the user's attention; nothing was mutated.
    Attention,
}

/// Every entry of the map sits under its own queue's id.
pub open spec fn keyed_by_id(m: Map<u64, QueueView>) -> bool {
    forall|id: u64| #[trigger] m.contains_key(id) ==> m[id].id == id
}

/// The map that a list of queues gives, a later entry replacing an
/// earlier one with the same id.
pub open spec fn snapshot_map(s: Seq<QueueView>) -> Map<u64, QueueView>
    decreases s.len(),
{
    if s.len() == 0 {
        Map::empty()
    } else {
        snapshot_map(s.drop_last()).insert(s.last().id, s.last())
    }
}

/// The mirror after a snapshot: the snapshot alone decides it.
pub open spec fn after_snapshot(m: Map<u64, QueueView>, s: Seq<QueueView>) -> Map<u64, QueueView> {
    snapshot_map(s)
}

/// The mirror after one upsert notification.
pub open spec fn after_upsert(m: Map<u64, QueueView>, q: QueueView) -> Map<u64, QueueView> {
    m.insert(q.id, q)
}

/// The mirror after a run of upsert notifications, applied in order.
pub open spec fn after_upserts(m: Map<u64, QueueView>, ops: Seq<QueueView>) -> Map<u64, QueueView>
    decreases ops.len(),
{
    if ops.len() == 0 {
        m
    } else {
        after_upsert(after_upserts(m, ops.drop_last()), ops.last())
    }
}

/// The last queue in `ops` that carries `id`.
pub open spec fn last_with_id(ops: Seq<QueueView>, id: u64) -> Option<QueueView>
    decreases ops.len(),
{
    if ops.len() == 0 {
        None
    } else if ops.last().id == id {
        Some(ops.last())
    } else {
        last_with_id(ops.drop_last(), id)
    }
}

/// Applying the same snapshot twice leaves the mirror as applying it once.
pub proof fn lemma_snapshot_idempotent(m: Map<u64, QueueView>, s: Seq<QueueView>)
    ensures
        after_snapshot(after_snapshot(m, s), s) == after_snapshot(m, s),
{
}

/// A snapshot files each queue under its own id.
pub proof fn lemma_snapshot_keyed(s: Seq<QueueView>)
    ensures
        keyed_by_id(snapshot_map(s)),
    decreases s.len(),
{
    if s.len() > 0 {
        lemma_snapshot_keyed(s.drop_last());
    }
}

/// After any run of upserts, the entry for an id is the last upsert that
/// carried that id, whatever upserts for other ids came in between; an id
/// that no upsert carried keeps its earlier entry, or its absence.
pub proof fn lemma_last_upsert_wins(m: Map<u64, QueueView>, ops: Seq<QueueView>, id: u64)
    ensures
        match last_with_id(ops, id) {
            Some(q) => after_upserts(m, ops).contains_key(id) && after_upserts(m, ops)[id] == q,
            None => after_upserts(m, ops).contains_key(id) == m.contains_key(id)
                && (m.contains_key(id) ==> after_upserts(m, ops)[id] == m[id]),
        },
    decreases ops.len(),
{
    if ops.len() > 0 {
        lemma_last_upsert_wins(m, ops.drop_last(), id);
    }
}

/// The mirrored queues, keyed by id and walked in increasing id order.
pub struct Mirror {
    queues: BTreeMap<u64, Queue>,
}

impl View for Mirror {
    type V = Map<u64, QueueView>;

    closed spec fn view(&self) -> Map<u64, QueueView> {
        self.queues@.map_values(|q: Queue| q@)
    }
}

impl Mirror {
    /// An empty mirror.
    pub fn new() -> (r: Mirror)
        ensures
            r@ == Map::<u64, QueueView>::empty(),
    {
        let r = Mirror { queues: BTreeMap::new() };
        assert(r@ =~= Map::<u64, QueueView>::empty());
        r
    }

    /// Replaces the whole mirror by the queues of a snapshot.
    pub fn apply_snapshot(&mut self, entries: Vec<Queue>) -> (r: ChangeEvent)
        ensures
            final(self)@ == after_snapshot(old(self)@, queues_view(entries@)),
            keyed_by_id(final(self)@),
            r == ChangeEvent::QueuesReplaced,
    {
        broadcast use vstd::laws_cmp::group_laws_cmp;
        let ghost s = entries@;
        let mut m: BTreeMap<u64, Queue> = BTreeMap::new();
        proof {
            assert(m@.map_values(|q: Queue| q@) =~= snapshot_map(queues_view(s.take(0))));
        }
        for q in it: entries.into_iter()
            invariant
                it.seq() == s,
                m@.map_values(|q: Queue| q@) == snapshot_map(queues_view(s.take(it.index() as int))),
        {
            let ghost i = it.index();
            let id = q.id;
            m.insert(id, q);
            proof {
                assert(queues_view(s.take(i + 1)).drop_last() =~= queues_view(s.take(i as int)));
                assert(m@.map_values(|q: Queue| q@) =~= snapshot_map(queues_view(s.take(i + 1))));
            }
        }
        proof {
            assert(s.take(s.len() as int) =~= s);
            lemma_snapshot_keyed(queues_view(s));
        }
        self.queues = m;
        ChangeEvent::QueuesReplaced
    }

    /// Creates or wholly replaces the entry of `q`'s id.
    pub fn apply_upsert(&mut self, q: Queue) -> (r: ChangeEvent)
        requires
            keyed_by_id(old(self)@),
        ensures
            final(self)@ == after_upsert(old(self)@, q@),
            keyed_by_id(final(self)@),
            r == ChangeEvent::QueueUpdated(q.id),
    {
        broadcast use vstd::laws_cmp::group_laws_cmp;
        let id = q.id;
        let ghost v = q@;
        self.queues.insert(id, q);
        assert(self@ =~= after_upsert(old(self)@, v));
        ChangeEvent::QueueUpdated(id)
    }

    /// Removes the entry of `id`, if there is one.
    pub fn apply_removal(&mut self, id: u64) -> (r: Option<ChangeEvent>)
        requires
            keyed_by_id(old(self)@),
        ensures
            final(self)@ == old(self)@.remove(id),
            keyed_by_id(final(self)@),
            r == (if old(self)@.contains_key(id) {
                Some(ChangeEvent::QueueRemoved(id))
            } else {
                None
            }),
    {
        broadcast use vstd::laws_cmp::group_laws_cmp;
        let removed = self.queues.remove(&id);
        assert(self@ =~= old(self)@.remove(id));
        match removed {
            Some(_) => Some(ChangeEvent::QueueRemoved(id)),
            None => None,
        }
    }

    /// The mirrored queue with this id.
    pub fn get(&self, id: u64) -> (r: Option<&Queue>)
        ensures
            match r {
                Some(q) => self@.contains_key(id) && self@[id] == q@,
                None => !self@.contains_key(id),
            },
    {
        broadcast use vstd::laws_cmp::group_laws_cmp;
        self.queues.get(&id)
    }

    /// How many queues are mirrored.
    pub fn len(&self) -> (r: usize)
        ensures
            r == self@.dom().len(),
    {
        assert(self@.dom() =~= self.queues@.dom());
        self.queues.len()
    }

    /// The ids of the mirrored queues, in increasing order.
    pub fn ids(&self) -> (r: Vec<u64>)
        ensures
            r@.to_set() == self@.dom(),
            forall|i: int, j: int| 0 <= i < j < r@.len() ==> r@[i] < r@[j],
    {
        broadcast use vstd::laws_cmp::group_laws_cmp;
        let mut out: Vec<u64> = Vec::new();
        let keys = self.queues.keys();
        let ghost rs = keys.remaining();
        let ghost ks = rs.unref();
        assert(vstd::std_specs::btree::increasing_seq(rs));
        for k in it: keys
            invariant
                it.seq().unref() == ks,
                ks == rs.unref(),
                vstd::std_specs::btree::increasing_seq(rs),
                out@ == ks.take(it.index() as int),
        {
            let ghost i = it.index();
            out.push(*k);
            assert(out@ =~= ks.take(i + 1));
        }
        proof {
            assert(out@ =~= ks);
            assert(self@.dom() =~= self.queues@.dom());
            assert(vstd::laws_cmp::obeys_cmp::<&u64>());
            vstd::std_specs::btree::axiom_increasing_seq_meaning(rs);
            assert forall|i: int, j: int| 0 <= i < j < out@.len() implies out@[i] < out@[j] by {
                assert(rs.len() == ks.len());
                assert(<&u64 as OrdSpec>::cmp_spec(&rs[i], &rs[j]) is Less);
                assert(*rs[i] == ks[i] && *rs[j] == ks[j]);
            }
        }
        out
    }
}

} // verus!
