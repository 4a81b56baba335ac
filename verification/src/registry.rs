//! The simulation registry: which simulated devices are running, keyed by
//! device id. A start for an id that is already running replaces its entry,
//! handing the superseded handle back so the caller can cancel it before the
//! new simulator takes over; a stop for an unknown id is a silent no-op.
//!
//! The registry is generic in the handle type: the process stores task
//! handles in it, the tests store plain integers.

use vstd::prelude::*;

verus! {

/// The map an entry list denotes.
pub open spec fn entries_map<H>(s: Seq<(String, H)>) -> Map<Seq<char>, H>
    decreases s.len(),
{
    if s.len() == 0 {
        Map::empty()
    } else {
        entries_map(s.drop_last()).insert(s.last().0@, s.last().1)
    }
}

/// No two entries share a device id.
pub open spec fn unique_ids<H>(s: Seq<(String, H)>) -> bool {
    forall|i: int, j: int| 0 <= i < j < s.len() ==> s[i].0@ != s[j].0@
}

/// The map left after removing the listed ids one by one, first to last.
pub open spec fn remove_ids<H>(m: Map<Seq<char>, H>, ids: Seq<Seq<char>>) -> Map<Seq<char>, H>
    decreases ids.len(),
{
    if ids.len() == 0 {
        m
    } else {
        remove_ids(m.remove(ids.first()), ids.drop_first())
    }
}

/// The handles removed by `remove_ids`, in removal order: one per listed id
/// that was present when its turn came.
pub open spec fn removed_handles<H>(m: Map<Seq<char>, H>, ids: Seq<Seq<char>>) -> Seq<H>
    decreases ids.len(),
{
    if ids.len() == 0 {
        Seq::empty()
    } else {
        let rest = removed_handles(m.remove(ids.first()), ids.drop_first());
        if m.contains_key(ids.first()) {
            seq![m[ids.first()]] + rest
        } else {
            rest
        }
    }
}

proof fn lemma_entries_map_contains<H>(s: Seq<(String, H)>, k: Seq<char>)
    ensures
        entries_map(s).contains_key(k) <==> exists|i: int| 0 <= i < s.len() && s[i].0@ == k,
    decreases s.len(),
{
    if s.len() > 0 {
        lemma_entries_map_contains(s.drop_last(), k);
        if entries_map(s).contains_key(k) {
            if k == s.last().0@ {
                assert(s[s.len() - 1].0@ == k);
            } else {
                let i = choose|i: int| 0 <= i < s.drop_last().len() && s.drop_last()[i].0@ == k;
                assert(s[i].0@ == k);
            }
        }
        if exists|i: int| 0 <= i < s.len() && s[i].0@ == k {
            let i = choose|i: int| 0 <= i < s.len() && s[i].0@ == k;
            if i < s.len() - 1 {
                assert(s.drop_last()[i].0@ == k);
            }
        }
    }
}

proof fn lemma_unique_drop_last<H>(s: Seq<(String, H)>)
    requires
        unique_ids(s),
        s.len() > 0,
    ensures
        unique_ids(s.drop_last()),
{
    assert forall|i: int, j: int|
        0 <= i < j < s.drop_last().len() implies s.drop_last()[i].0@ != s.drop_last()[j].0@ by {
        assert(s.drop_last()[i] == s[i]);
        assert(s.drop_last()[j] == s[j]);
    }
}

proof fn lemma_entries_map_index<H>(s: Seq<(String, H)>, i: int)
    requires
        unique_ids(s),
        0 <= i < s.len(),
    ensures
        entries_map(s).contains_key(s[i].0@),
        entries_map(s)[s[i].0@] == s[i].1,
    decreases s.len(),
{
    if i < s.len() - 1 {
        lemma_unique_drop_last(s);
        lemma_entries_map_index(s.drop_last(), i);
        assert(s.drop_last()[i] == s[i]);
        assert(s[i].0@ != s.last().0@);
    }
}

proof fn lemma_unique_remove<H>(s: Seq<(String, H)>, i: int)
    requires
        unique_ids(s),
        0 <= i < s.len(),
    ensures
        unique_ids(s.remove(i)),
{
    assert forall|p: int, q: int|
        0 <= p < q < s.remove(i).len() implies s.remove(i)[p].0@ != s.remove(i)[q].0@ by {
        let p0: int = if p < i {
            p
        } else {
            p + 1
        };
        let q0: int = if q < i {
            q
        } else {
            q + 1
        };
        assert(s.remove(i)[p] == s[p0]);
        assert(s.remove(i)[q] == s[q0]);
    }
}

proof fn lemma_entries_map_remove<H>(s: Seq<(String, H)>, i: int)
    requires
        unique_ids(s),
        0 <= i < s.len(),
    ensures
        entries_map(s.remove(i)) == entries_map(s).remove(s[i].0@),
    decreases s.len(),
{
    let k = s[i].0@;
    if i == s.len() - 1 {
        assert(s.remove(i) =~= s.drop_last());
        lemma_unique_drop_last(s);
        lemma_entries_map_contains(s.drop_last(), k);
        assert(!entries_map(s.drop_last()).contains_key(k));
        assert(entries_map(s).remove(k) =~= entries_map(s.drop_last()));
    } else {
        lemma_unique_drop_last(s);
        lemma_entries_map_remove(s.drop_last(), i);
        assert(s.remove(i).drop_last() =~= s.drop_last().remove(i));
        assert(s.remove(i).last() == s.last());
        assert(s[i].0@ != s.last().0@);
        assert(entries_map(s.remove(i)) == entries_map(s.drop_last().remove(i)).insert(
            s.last().0@,
            s.last().1,
        ));
        assert(entries_map(s.drop_last()).remove(k).insert(s.last().0@, s.last().1)
            =~= entries_map(s).remove(k));
    }
}

proof fn lemma_entries_map_push<H>(s: Seq<(String, H)>, p: (String, H))
    ensures
        entries_map(s.push(p)) == entries_map(s).insert(p.0@, p.1),
{
    assert(s.push(p).drop_last() =~= s);
    assert(s.push(p).last() == p);
}

proof fn lemma_entries_map_dom_len<H>(s: Seq<(String, H)>)
    requires
        unique_ids(s),
    ensures
        entries_map(s).dom().finite(),
        entries_map(s).dom().len() == s.len(),
    decreases s.len(),
{
    if s.len() == 0 {
        assert(entries_map(s).dom() =~= Set::<Seq<char>>::empty());
    } else {
        lemma_unique_drop_last(s);
        lemma_entries_map_dom_len(s.drop_last());
        lemma_entries_map_contains(s.drop_last(), s.last().0@);
        assert(!entries_map(s.drop_last()).contains_key(s.last().0@));
        assert(entries_map(s).dom() =~= entries_map(s.drop_last()).dom().insert(s.last().0@));
    }
}

/// The set of currently-running device simulations, each id mapped to the
/// cancellation handle of its simulator task.
pub struct Registry<H> {
    entries: Vec<(String, H)>,
}

impl<H> View for Registry<H> {
    type V = Map<Seq<char>, H>;

    closed spec fn view(&self) -> Map<Seq<char>, H> {
        entries_map(self.entries@)
    }
}

impl<H> Registry<H> {
    /// The registry's invariant: one entry per device id.
    pub closed spec fn wf(&self) -> bool {
        unique_ids(self.entries@)
    }

    /// An empty registry: nothing is running.
    pub fn new() -> (r: Registry<H>)
        ensures
            r.wf(),
            r@ == Map::<Seq<char>, H>::empty(),
    {
        Registry { entries: Vec::new() }
    }

    /// The position of `id`'s entry, if it has one.
    fn find(&self, id: &String) -> (r: Option<usize>)
        ensures
            match r {
                Some(i) => i < self.entries@.len() && self.entries@[i as int].0@ == id@,
                None => forall|j: int| 0 <= j < self.entries@.len() ==> self.entries@[j].0@ != id@,
            },
    {
        let mut i: usize = 0;
        while i < self.entries.len()
            invariant
                i <= self.entries@.len(),
                forall|j: int| 0 <= j < i ==> self.entries@[j].0@ != id@,
            decreases self.entries@.len() - i,
        {
            let entry = &self.entries[i];
            if entry.0 == *id {
                return Some(i);
            }
            i = i + 1;
        }
        None
    }

    /// Whether a simulator is registered for `id`.
    pub fn contains_id(&self, id: &String) -> (r: bool)
        ensures
            r == self@.contains_key(id@),
    {
        proof {
            lemma_entries_map_contains(self.entries@, id@);
        }
        match self.find(id) {
            Some(_) => true,
            None => false,
        }
    }

    /// How many simulators are registered.
    pub fn len(&self) -> (r: usize)
        requires
            self.wf(),
        ensures
            r == self@.dom().len(),
    {
        proof {
            lemma_entries_map_dom_len(self.entries@);
        }
        self.entries.len()
    }

    /// Removes `id`'s entry and returns its handle, for the caller to cancel.
    /// Removing an id with no running simulator is a silent no-op: it returns
    /// `None` and leaves the registry unchanged.
    pub fn remove(&mut self, id: &String) -> (prev: Option<H>)
        requires
            old(self).wf(),
        ensures
            final(self).wf(),
            final(self)@ == old(self)@.remove(id@),
            match prev {
                Some(h) => old(self)@.contains_key(id@) && h == old(self)@[id@],
                None => !old(self)@.contains_key(id@) && final(self)@ == old(self)@,
            },
    {
        proof {
            lemma_entries_map_contains(self.entries@, id@);
        }
        match self.find(id) {
            Some(i) => {
                proof {
                    lemma_entries_map_index(self.entries@, i as int);
                    lemma_entries_map_remove(self.entries@, i as int);
                    lemma_unique_remove(self.entries@, i as int);
                }
                let pair = self.entries.remove(i);
                Some(pair.1)
            },
            None => {
                proof {
                    assert(old(self)@.remove(id@) =~= old(self)@);
                }
                None
            },
        }
    }

    /// Registers a simulator for `id`. If one is already registered, its
    /// entry is replaced and its handle returned, so the caller must cancel
    /// the superseded simulator; afterwards exactly one entry exists for the
    /// id, holding the new handle.
    pub fn insert(&mut self, id: String, handle: H) -> (prev: Option<H>)
        requires
            old(self).wf(),
        ensures
            final(self).wf(),
            final(self)@ == old(self)@.insert(id@, handle),
            match prev {
                Some(h) => old(self)@.contains_key(id@) && h == old(self)@[id@],
                None => !old(self)@.contains_key(id@),
            },
    {
        let prev = self.remove(&id);
        proof {
            lemma_entries_map_contains(self.entries@, id@);
            assert(forall|j: int|
                0 <= j < self.entries@.len() ==> self.entries@[j].0@ != id@);
            lemma_entries_map_push(self.entries@, (id, handle));
            assert(unique_ids(self.entries@.push((id, handle))));
            assert(old(self)@.remove(id@).insert(id@, handle) =~= old(self)@.insert(id@, handle));
        }
        self.entries.push((id, handle));
        prev
    }

    /// Applies a stop command: removes every listed id and returns the
    /// handles of those that were running, in removal order, for the caller
    /// to cancel. Ids with no running simulator are silent no-ops.
    pub fn apply_stop(&mut self, ids: &Vec<String>) -> (cancelled: Vec<H>)
        requires
            old(self).wf(),
        ensures
            final(self).wf(),
            final(self)@ == remove_ids(old(self)@, ids@.map_values(|x: String| x@)),
            cancelled@ == removed_handles(old(self)@, ids@.map_values(|x: String| x@)),
    {
        let ghost views = ids@.map_values(|x: String| x@);
        let mut cancelled: Vec<H> = Vec::new();
        let mut i: usize = 0;
        proof {
            assert(views.skip(0) =~= views);
            assert(cancelled@ + removed_handles(self@, views) =~= removed_handles(self@, views));
        }
        while i < ids.len()
            invariant
                old(self).wf(),
                self.wf(),
                i <= ids@.len(),
                views == ids@.map_values(|x: String| x@),
                remove_ids(old(self)@, views) == remove_ids(self@, views.skip(i as int)),
                removed_handles(old(self)@, views) == cancelled@ + removed_handles(
                    self@,
                    views.skip(i as int),
                ),
            decreases ids@.len() - i,
        {
            let ghost pre = self@;
            let ghost tail = views.skip(i as int);
            proof {
                assert(tail.first() == views[i as int]);
                assert(tail.drop_first() =~= views.skip(i as int + 1));
            }
            let id = &ids[i];
            match self.remove(id) {
                Some(h) => {
                    cancelled.push(h);
                    proof {
                        assert(removed_handles(pre, tail) == seq![pre[id@]] + removed_handles(
                            pre.remove(id@),
                            tail.drop_first(),
                        ));
                        assert(cancelled@ + removed_handles(self@, views.skip(i as int + 1))
                            == removed_handles(old(self)@, views));
                    }
                },
                None => {
                    proof {
                        assert(pre.remove(id@) =~= pre);
                        assert(removed_handles(pre, tail) == removed_handles(
                            pre,
                            tail.drop_first(),
                        ));
                    }
                },
            }
            i = i + 1;
        }
        proof {
            assert(views.skip(views.len() as int) =~= Seq::<Seq<char>>::empty());
            assert(cancelled@ + Seq::<H>::empty() =~= cancelled@);
        }
        cancelled
    }
}

/// Replace on duplicate start: two starts for the same device id leave the
/// registry exactly as if only the second had happened, with the id mapped to
/// the second handle; `insert`'s contract hands the first handle back to its
/// caller, which cancels the superseded simulator.
pub proof fn lemma_replace_on_duplicate_start<H>(
    m: Map<Seq<char>, H>,
    id: Seq<char>,
    h1: H,
    h2: H,
)
    ensures
        m.insert(id, h1).insert(id, h2) == m.insert(id, h2),
        m.insert(id, h1).insert(id, h2)[id] == h2,
{
    assert(m.insert(id, h1).insert(id, h2) =~= m.insert(id, h2));
}

/// Idempotent stop: stopping a device id with no registered simulator leaves
/// the registry unchanged.
pub proof fn lemma_stop_unknown_id<H>(m: Map<Seq<char>, H>, id: Seq<char>)
    requires
        !m.contains_key(id),
    ensures
        m.remove(id) == m,
{
    assert(m.remove(id) =~= m);
}

} // verus!
