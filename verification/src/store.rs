//! The registry of outstanding buffers: what is tracked, and under which id.
//!
//! The laws at the end of this file speak of histories: any sequence of
//! `track` and `remove` steps, whoever took them and in whatever order they
//! came to the store.

use std::collections::HashMap;
use vstd::prelude::*;
use vstd::std_specs::iter::IteratorSpec;

verus! {

/// What a store holds, as mathematics: the descriptors by id, and the id that
/// the next `track` will issue.
pub struct StoreModel<T> {
    pub entries: Map<usize, T>,
    pub next_id: nat,
}

/// One step in the history of a store.
pub enum StoreOp<T> {
    Track(T),
    Remove(usize),
}

impl<T> StoreModel<T> {
    /// Every id in use was issued earlier, and the counter is an id or one past
    /// the last one.
    pub open spec fn wf(self) -> bool {
        &&& self.entries.dom().finite()
        &&& self.next_id <= usize::MAX
        &&& forall|id: usize| self.entries.contains_key(id) ==> id < self.next_id
    }

    /// The store that holds nothing and issues `first_id` first.
    pub open spec fn starting_at(first_id: usize) -> Self {
        StoreModel { entries: Map::empty(), next_id: first_id as nat }
    }

    /// No id is left to issue.
    pub open spec fn exhausted(self) -> bool {
        self.next_id >= usize::MAX
    }

    /// The id that `track` hands out in this state, if any is left.
    pub open spec fn issued(self) -> Option<usize> {
        if self.exhausted() {
            None
        } else {
            Some(self.next_id as usize)
        }
    }

    /// The state after `track`.
    pub open spec fn track(self, value: T) -> Self {
        if self.exhausted() {
            self
        } else {
            StoreModel {
                entries: self.entries.insert(self.next_id as usize, value),
                next_id: self.next_id + 1,
            }
        }
    }

    /// What `remove` hands out in this state.
    pub open spec fn removed(self, id: usize) -> Option<T> {
        if self.entries.contains_key(id) {
            Some(self.entries[id])
        } else {
            None
        }
    }

    /// The state after `remove`.
    pub open spec fn remove(self, id: usize) -> Self {
        StoreModel { entries: self.entries.remove(id), next_id: self.next_id }
    }

    /// The state after one step.
    pub open spec fn step(self, op: StoreOp<T>) -> Self {
        match op {
            StoreOp::Track(value) => self.track(value),
            StoreOp::Remove(id) => self.remove(id),
        }
    }

    /// The state after a history of steps.
    pub open spec fn run(self, ops: Seq<StoreOp<T>>) -> Self
        decreases ops.len(),
    {
        if ops.len() == 0 {
            self
        } else {
            self.run(ops.drop_last()).step(ops.last())
        }
    }

    /// The ids that the `track` steps of a history hand out.
    pub open spec fn issued_ids(self, ops: Seq<StoreOp<T>>) -> Set<usize>
        decreases ops.len(),
    {
        if ops.len() == 0 {
            Set::empty()
        } else {
            let earlier = self.issued_ids(ops.drop_last());
            match (ops.last(), self.run(ops.drop_last()).issued()) {
                (StoreOp::Track(_), Some(id)) => earlier.insert(id),
                _ => earlier,
            }
        }
    }

    /// The ids whose descriptors the `remove` steps of a history hand out.
    pub open spec fn removed_ids(self, ops: Seq<StoreOp<T>>) -> Set<usize>
        decreases ops.len(),
    {
        if ops.len() == 0 {
            Set::empty()
        } else {
            let earlier = self.removed_ids(ops.drop_last());
            match ops.last() {
                StoreOp::Remove(id) => if self.run(ops.drop_last()).entries.contains_key(id) {
                    earlier.insert(id)
                } else {
                    earlier
                },
                _ => earlier,
            }
        }
    }
}

/// `listing` holds every entry of `entries`, each exactly once.
pub open spec fn lists_each_once<T>(listing: Seq<(usize, T)>, entries: Map<usize, T>) -> bool {
    &&& listing.len() == entries.dom().len()
    &&& forall|i: int|
        0 <= i < listing.len() ==> entries.contains_key(#[trigger] listing[i].0)
            && entries[listing[i].0] == listing[i].1
    &&& forall|i: int, j: int|
        0 <= i < j < listing.len() ==> #[trigger] listing[i].0 != #[trigger] listing[j].0
    &&& forall|id: usize| #[trigger]
        entries.contains_key(id) ==> exists|i: int|
            0 <= i < listing.len() && #[trigger] listing[i].0 == id
}

/// An id-indexed registry of outstanding buffers of one kind.
///
/// Ids count up from the first one and are never issued twice; an id that is
/// present stands for a buffer that has not been handed back yet.
pub struct ReceiveDataStore<T> {
    data: HashMap<usize, T>,
    next_id: usize,
}

impl<T> View for ReceiveDataStore<T> {
    type V = StoreModel<T>;

    closed spec fn view(&self) -> StoreModel<T> {
        StoreModel { entries: self.data@, next_id: self.next_id as nat }
    }
}

impl<T> ReceiveDataStore<T> {
    /// What holds of every store at all times.
    #[verifier::type_invariant]
    pub open spec fn inv(&self) -> bool {
        self@.wf()
    }

    /// A store that holds nothing and issues id 0 first.
    pub fn new() -> (store: Self)
        ensures
            store@ == StoreModel::<T>::starting_at(0),
    {
        ReceiveDataStore { data: HashMap::new(), next_id: 0 }
    }

    /// A store that holds nothing and issues `first_id` first.
    pub fn starting_at(first_id: usize) -> (store: Self)
        ensures
            store@ == StoreModel::<T>::starting_at(first_id),
    {
        ReceiveDataStore { data: HashMap::new(), next_id: first_id }
    }

    /// Registers `data` under the next id and returns that id. `None`, with
    /// nothing registered, when the ids have run out.
    pub fn track(&mut self, data: T) -> (id: Option<usize>)
        ensures
            old(self)@.wf(),
            final(self)@.wf(),
            id == old(self)@.issued(),
            final(self)@ == old(self)@.track(data),
            id matches Some(i) ==> !old(self)@.entries.contains_key(i),
    {
        proof {
            use_type_invariant(&*self);
        }
        if self.next_id == usize::MAX {
            return None;
        }
        let id: usize = self.next_id;
        let mut entries: HashMap<usize, T> = HashMap::new();
        std::mem::swap(&mut entries, &mut self.data);
        entries.insert(id, data);
        self.next_id = id + 1;
        self.data = entries;
        Some(id)
    }

    /// Takes the descriptor registered under `id` out of the store. `None` when
    /// the id is not present: never issued, or removed before.
    pub fn remove(&mut self, id: usize) -> (data: Option<T>)
        ensures
            old(self)@.wf(),
            final(self)@.wf(),
            data == old(self)@.removed(id),
            final(self)@ == old(self)@.remove(id),
            final(self)@.removed(id) is None,
    {
        proof {
            use_type_invariant(&*self);
        }
        let mut entries: HashMap<usize, T> = HashMap::new();
        std::mem::swap(&mut entries, &mut self.data);
        let data = entries.remove(&id);
        self.data = entries;
        data
    }

    /// Looks up the descriptor registered under `id`.
    pub fn get(&self, id: usize) -> (data: Option<&T>)
        ensures
            self@.wf(),
            data is Some <==> self@.entries.contains_key(id),
            data matches Some(d) ==> *d == self@.entries[id],
    {
        proof {
            use_type_invariant(self);
        }
        self.data.get(&id)
    }

    /// Number of descriptors that are registered.
    pub fn len(&self) -> (n: usize)
        ensures
            self@.wf(),
            n == self@.entries.dom().len(),
    {
        proof {
            use_type_invariant(self);
        }
        self.data.len()
    }

    /// Whether nothing is registered.
    pub fn is_empty(&self) -> (empty: bool)
        ensures
            self@.wf(),
            empty <==> self@.entries.dom().len() == 0,
    {
        self.len() == 0
    }

    /// The ids that are present, each once, in no particular order.
    pub fn ids(&self) -> (ids: Vec<usize>)
        ensures
            self@.wf(),
            ids@.no_duplicates(),
            ids@.to_set() == self@.entries.dom(),
            ids@.len() == self@.entries.dom().len(),
    {
        proof {
            use_type_invariant(self);
        }
        let mut ids: Vec<usize> = Vec::new();
        for id in it: self.data.keys()
            invariant
                ids@.len() == it.index(),
                forall|i: int| 0 <= i < it.index() ==> ids@[i] == *it.seq()[i],
        {
            ids.push(*id);
        }
        proof {
            let keys = vstd::std_specs::hash::spec_keys_iter(&self.data).remaining();
            assert(ids@ =~= keys.unref());
            assert forall|i: int, j: int| 0 <= i < j < ids@.len() implies ids@[i] != ids@[j] by {
                assert(keys[i] != keys[j]);
            }
        }
        ids
    }

    /// Takes every descriptor out of the store, each with its id, in no
    /// particular order. The ids that were issued stay spent.
    pub fn drain(&mut self) -> (listing: Vec<(usize, T)>)
        ensures
            old(self)@.wf(),
            final(self)@ == (StoreModel {
                entries: Map::<usize, T>::empty(),
                next_id: old(self)@.next_id,
            }),
            lists_each_once(listing@, old(self)@.entries),
    {
        proof {
            use_type_invariant(&*self);
        }
        let ids = self.ids();
        let mut entries: HashMap<usize, T> = HashMap::new();
        std::mem::swap(&mut entries, &mut self.data);
        let ghost before = entries@;
        let mut listing: Vec<(usize, T)> = Vec::new();
        let mut i: usize = 0;
        while i < ids.len()
            invariant
                i <= ids.len(),
                ids@.no_duplicates(),
                ids@.to_set() == before.dom(),
                listing@.len() == i,
                forall|j: int|
                    0 <= j < i ==> (#[trigger] listing@[j]).0 == ids@[j] && listing@[j].1
                        == before[ids@[j]],
                forall|j: int| 0 <= j < i ==> !entries@.contains_key(#[trigger] ids@[j]),
                forall|j: int|
                    i <= j < ids.len() ==> entries@.contains_key(#[trigger] ids@[j])
                        && entries@[ids@[j]] == before[ids@[j]],
            decreases ids.len() - i,
        {
            let id: usize = ids[i];
            match entries.remove(&id) {
                Some(data) => {
                    listing.push((id, data));
                },
                None => {
                    assert(false);
                },
            }
            i = i + 1;
        }
        proof {
            assert forall|id: usize| #[trigger] before.contains_key(id) implies exists|k: int|
                0 <= k < listing@.len() && #[trigger] listing@[k].0 == id by {
                assert(ids@.to_set().contains(id));
                let k = choose|k: int| 0 <= k < ids@.len() && ids@[k] == id;
                assert(listing@[k].0 == id);
            }
            assert forall|j: int| 0 <= j < listing@.len() implies before.contains_key(
                #[trigger] listing@[j].0,
            ) by {
                assert(ids@.to_set().contains(ids@[j]));
            }
            ids@.unique_seq_to_set();
            assert(self.data@ =~= Map::<usize, T>::empty());
        }
        listing
    }
}

/// Unfolds the last step of a history that is cut after `k + 1` steps.
proof fn lemma_run_unfold<T>(s: StoreModel<T>, ops: Seq<StoreOp<T>>, k: int)
    requires
        0 <= k < ops.len(),
    ensures
        s.run(ops.take(k + 1)) == s.run(ops.take(k)).step(ops[k]),
{
    assert(ops.take(k + 1).drop_last() =~= ops.take(k));
    assert(ops.take(k + 1).last() == ops[k]);
}

/// Every history leads from a well-formed store to a well-formed store.
pub proof fn lemma_run_wf<T>(s: StoreModel<T>, ops: Seq<StoreOp<T>>)
    requires
        s.wf(),
    ensures
        s.run(ops).wf(),
    decreases ops.len(),
{
    if ops.len() > 0 {
        lemma_run_wf(s, ops.drop_last());
    }
}

/// The counter never goes down in the course of a history.
pub proof fn lemma_counter_monotone<T>(s: StoreModel<T>, ops: Seq<StoreOp<T>>, i: int, j: int)
    requires
        0 <= i <= j <= ops.len(),
    ensures
        s.run(ops.take(i)).next_id <= s.run(ops.take(j)).next_id,
    decreases j - i,
{
    if i < j {
        lemma_counter_monotone(s, ops, i, j - 1);
        lemma_run_unfold(s, ops, j - 1);
    }
}

/// Ids are strictly increasing: of two `track` steps in one history that both
/// issue an id, the later one issues the larger id. So no id is issued twice.
pub proof fn lemma_issued_ids_increase<T>(s: StoreModel<T>, ops: Seq<StoreOp<T>>, i: int, j: int)
    requires
        0 <= i < j < ops.len(),
        ops[i] is Track,
        ops[j] is Track,
        s.run(ops.take(i)).issued() is Some,
        s.run(ops.take(j)).issued() is Some,
    ensures
        s.run(ops.take(i)).issued()->0 < s.run(ops.take(j)).issued()->0,
{
    lemma_run_unfold(s, ops, i);
    lemma_counter_monotone(s, ops, i + 1, j);
}

/// An id that has been issued and is no longer present never comes back.
pub proof fn lemma_spent_id_stays_absent<T>(
    s: StoreModel<T>,
    ops: Seq<StoreOp<T>>,
    id: usize,
    i: int,
    k: int,
)
    requires
        0 <= i <= k <= ops.len(),
        !s.run(ops.take(i)).entries.contains_key(id),
        id < s.run(ops.take(i)).next_id,
    ensures
        !s.run(ops.take(k)).entries.contains_key(id),
        id < s.run(ops.take(k)).next_id,
    decreases k - i,
{
    if i < k {
        lemma_spent_id_stays_absent(s, ops, id, i, k - 1);
        lemma_run_unfold(s, ops, k - 1);
    }
}

/// Each id is handed out by `remove` at most once: when one `remove` step of a
/// history has returned the descriptor of `id`, every later `remove` of the same
/// id in that history finds it absent.
pub proof fn lemma_removed_at_most_once<T>(
    s: StoreModel<T>,
    ops: Seq<StoreOp<T>>,
    id: usize,
    i: int,
    j: int,
)
    requires
        s.wf(),
        0 <= i < j < ops.len(),
        ops[i] == StoreOp::<T>::Remove(id),
        ops[j] == StoreOp::<T>::Remove(id),
        s.run(ops.take(i)).removed(id) is Some,
    ensures
        s.run(ops.take(j)).removed(id) is None,
{
    lemma_run_wf(s, ops.take(i));
    lemma_run_unfold(s, ops, i);
    lemma_spent_id_stays_absent(s, ops, id, i + 1, j);
}

/// Nothing is lost and nothing comes up twice. At the end of any history, the
/// descriptors that were there at the start or were tracked on the way are
/// exactly those that are still present or were handed out by `remove`; none
/// is both still present and handed out; and no id that was issued on the way
/// was in use at the start.
pub proof fn lemma_descriptors_are_conserved<T>(s: StoreModel<T>, ops: Seq<StoreOp<T>>)
    requires
        s.wf(),
    ensures
        s.run(ops).wf(),
        s.next_id <= s.run(ops).next_id,
        s.run(ops).entries.dom().union(s.removed_ids(ops)) == s.entries.dom().union(
            s.issued_ids(ops),
        ),
        s.run(ops).entries.dom().disjoint(s.removed_ids(ops)),
        s.entries.dom().disjoint(s.issued_ids(ops)),
        forall|id: usize| #[trigger] s.issued_ids(ops).contains(id) ==> id < s.run(ops).next_id,
        forall|id: usize| #[trigger] s.removed_ids(ops).contains(id) ==> id < s.run(ops).next_id,
    decreases ops.len(),
{
    if ops.len() == 0 {
        assert(s.run(ops).entries.dom().union(s.removed_ids(ops)) =~= s.entries.dom().union(
            s.issued_ids(ops),
        ));
    } else {
        let prefix = ops.drop_last();
        lemma_descriptors_are_conserved(s, prefix);
        let before = s.run(prefix);
        let after = s.run(ops);
        let issued = s.issued_ids(ops);
        let removed = s.removed_ids(ops);
        match ops.last() {
            StoreOp::Track(value) => {
                assert(removed == s.removed_ids(prefix));
                if before.exhausted() {
                    assert(issued == s.issued_ids(prefix));
                } else {
                    let id = before.next_id as usize;
                    assert(issued == s.issued_ids(prefix).insert(id));
                    assert(after.entries.dom() =~= before.entries.dom().insert(id));
                    assert(!s.removed_ids(prefix).contains(id));
                    assert(!s.entries.contains_key(id));
                }
            },
            StoreOp::Remove(id) => {
                assert(issued == s.issued_ids(prefix));
                assert(after.entries.dom() =~= before.entries.dom().remove(id));
                if before.entries.contains_key(id) {
                    assert(removed == s.removed_ids(prefix).insert(id));
                } else {
                    assert(removed == s.removed_ids(prefix));
                }
            },
        }
        assert(after.entries.dom().union(removed) =~= s.entries.dom().union(issued)) by {
            assert forall|id: usize|
                after.entries.dom().union(removed).contains(id) <==> s.entries.dom().union(
                    issued,
                ).contains(id) by {
                assert(before.entries.dom().union(s.removed_ids(prefix)).contains(id)
                    <==> s.entries.dom().union(s.issued_ids(prefix)).contains(id));
            }
        }
    }
}

} // verus!
