//! The registry of connected clients: each client identifier is registered at
//! most once and maps to the handle through which the client is reached.

use vstd::prelude::*;

verus! {

/// Some entry of `entries` carries the identifier `id`.
pub open spec fn has_id<H>(entries: Seq<(String, H)>, id: Seq<char>) -> bool {
    exists|i: int| 0 <= i < entries.len() && (#[trigger] entries[i]).0@ == id
}

/// No identifier occurs twice among `entries`.
pub open spec fn distinct_ids<H>(entries: Seq<(String, H)>) -> bool {
    forall|i: int, j: int|
        0 <= i < entries.len() && 0 <= j < entries.len() && i != j ==> (#[trigger] entries[i]).0@
            != (#[trigger] entries[j]).0@
}

/// The position of the entry that carries `id` (meaningful where `has_id` holds).
pub open spec fn id_index<H>(entries: Seq<(String, H)>, id: Seq<char>) -> int {
    choose|i: int| 0 <= i < entries.len() && (#[trigger] entries[i]).0@ == id
}

/// The map from identifiers to handles that a list of entries denotes.
pub open spec fn entries_map<H>(entries: Seq<(String, H)>) -> Map<Seq<char>, H> {
    Map::new(|id: Seq<char>| has_id(entries, id), |id: Seq<char>| entries[id_index(entries, id)].1)
}

/// With distinct identifiers, the entry at `i` is what its identifier maps to.
pub proof fn lemma_entries_map_at<H>(entries: Seq<(String, H)>, i: int)
    requires
        distinct_ids(entries),
        0 <= i < entries.len(),
    ensures
        entries_map(entries).contains_key(entries[i].0@),
        entries_map(entries)[entries[i].0@] == entries[i].1,
{
    let k = entries[i].0@;
    assert(has_id(entries, k));
    let j = id_index(entries, k);
    assert(entries[j].0@ == k);
    assert(j == i);
}

/// Removing the entry at `i` removes its identifier from the map.
pub proof fn lemma_entries_map_remove<H>(entries: Seq<(String, H)>, i: int)
    requires
        distinct_ids(entries),
        0 <= i < entries.len(),
    ensures
        distinct_ids(entries.remove(i)),
        entries_map(entries.remove(i)) == entries_map(entries).remove(entries[i].0@),
{
    let rest = entries.remove(i);
    let k = entries[i].0@;
    assert forall|a: int, b: int|
        0 <= a < rest.len() && 0 <= b < rest.len() && a != b implies (#[trigger] rest[a]).0@
        != (#[trigger] rest[b]).0@ by {
        let a0 = if a < i { a } else { a + 1 };
        let b0 = if b < i { b } else { b + 1 };
        assert(rest[a] == entries[a0]);
        assert(rest[b] == entries[b0]);
    }
    let lhs = entries_map(rest);
    let rhs = entries_map(entries).remove(k);
    assert forall|id: Seq<char>| #[trigger] lhs.contains_key(id) <==> rhs.contains_key(id) by {
        if has_id(rest, id) {
            let a = id_index(rest, id);
            let a0 = if a < i { a } else { a + 1 };
            assert(rest[a] == entries[a0]);
            assert(has_id(entries, id));
            assert(a0 != i);
        }
        if has_id(entries, id) && id != k {
            let a0 = id_index(entries, id);
            assert(a0 != i);
            let a = if a0 < i { a0 } else { a0 - 1 };
            assert(rest[a] == entries[a0]);
            assert(has_id(rest, id));
        }
    }
    assert forall|id: Seq<char>| #[trigger] lhs.contains_key(id) implies lhs[id] == rhs[id] by {
        let a = id_index(rest, id);
        let a0 = if a < i { a } else { a + 1 };
        assert(rest[a] == entries[a0]);
        lemma_entries_map_at(rest, a);
        lemma_entries_map_at(entries, a0);
    }
    assert(lhs =~= rhs);
}

/// Appending an entry with a fresh identifier adds it to the map.
pub proof fn lemma_entries_map_push<H>(entries: Seq<(String, H)>, id: String, h: H)
    requires
        distinct_ids(entries),
        !has_id(entries, id@),
    ensures
        distinct_ids(entries.push((id, h))),
        entries_map(entries.push((id, h))) == entries_map(entries).insert(id@, h),
{
    let more = entries.push((id, h));
    let n = entries.len() as int;
    assert forall|a: int, b: int|
        0 <= a < more.len() && 0 <= b < more.len() && a != b implies (#[trigger] more[a]).0@
        != (#[trigger] more[b]).0@ by {
        if a == n {
            assert(more[b] == entries[b]);
        } else if b == n {
            assert(more[a] == entries[a]);
        } else {
            assert(more[a] == entries[a]);
            assert(more[b] == entries[b]);
        }
    }
    let lhs = entries_map(more);
    let rhs = entries_map(entries).insert(id@, h);
    assert forall|k: Seq<char>| #[trigger] lhs.contains_key(k) <==> rhs.contains_key(k) by {
        if has_id(more, k) && k != id@ {
            let a = id_index(more, k);
            assert(a != n);
            assert(more[a] == entries[a]);
            assert(has_id(entries, k));
        }
        if has_id(entries, k) {
            let a = id_index(entries, k);
            assert(more[a] == entries[a]);
        }
        assert(more[n].0@ == id@);
    }
    assert forall|k: Seq<char>| #[trigger] lhs.contains_key(k) implies lhs[k] == rhs[k] by {
        let a = id_index(more, k);
        lemma_entries_map_at(more, a);
        if a < n {
            assert(more[a] == entries[a]);
            lemma_entries_map_at(entries, a);
        }
    }
    assert(lhs =~= rhs);
}

/// Replacing the handle of the entry at `i` replaces what its identifier maps to.
pub proof fn lemma_entries_map_update<H>(entries: Seq<(String, H)>, i: int)
    requires
        distinct_ids(entries),
        0 <= i < entries.len(),
    ensures
        forall|h: H|
            #![trigger entries.update(i, (entries[i].0, h))]
            distinct_ids(entries.update(i, (entries[i].0, h))) && entries_map(
                entries.update(i, (entries[i].0, h)),
            ) == entries_map(entries).insert(entries[i].0@, h),
{
    assert forall|h: H|
        #![trigger entries.update(i, (entries[i].0, h))]
        distinct_ids(entries.update(i, (entries[i].0, h))) && entries_map(
            entries.update(i, (entries[i].0, h)),
        ) == entries_map(entries).insert(entries[i].0@, h) by {
        let upd = entries.update(i, (entries[i].0, h));
        let k = entries[i].0@;
        assert forall|a: int, b: int|
            0 <= a < upd.len() && 0 <= b < upd.len() && a != b implies (#[trigger] upd[a]).0@
            != (#[trigger] upd[b]).0@ by {
            assert(upd[a].0 == entries[a].0);
            assert(upd[b].0 == entries[b].0);
        }
        let lhs = entries_map(upd);
        let rhs = entries_map(entries).insert(k, h);
        assert forall|id: Seq<char>| #[trigger] lhs.contains_key(id) <==> rhs.contains_key(id) by {
            if has_id(upd, id) {
                let a = id_index(upd, id);
                assert(upd[a].0 == entries[a].0);
            }
            if has_id(entries, id) {
                let a = id_index(entries, id);
                assert(upd[a].0 == entries[a].0);
            }
            assert(upd[i].0@ == k);
        }
        assert forall|id: Seq<char>| #[trigger] lhs.contains_key(id) implies lhs[id] == rhs[id] by {
            let a = id_index(upd, id);
            lemma_entries_map_at(upd, a);
            if a != i {
                assert(upd[a] == entries[a]);
                lemma_entries_map_at(entries, a);
            }
        }
        assert(lhs =~= rhs);
    }
}

/// Connected clients by identifier, each with the handle used to reach it.
///
/// Identifiers are unique: registering an identifier that is present replaces
/// its handle.
pub struct ClientTable<H> {
    entries: Vec<(String, H)>,
}

impl<H> View for ClientTable<H> {
    type V = Map<Seq<char>, H>;

    closed spec fn view(&self) -> Map<Seq<char>, H> {
        entries_map(self.entries@)
    }
}

impl<H> ClientTable<H> {
    /// The table's invariant: no identifier is registered twice.
    pub closed spec fn wf(&self) -> bool {
        distinct_ids(self.entries@)
    }

    /// An empty table.
    pub fn new() -> (t: Self)
        ensures
            t.wf(),
            t@ == Map::<Seq<char>, H>::empty(),
    {
        let t = ClientTable { entries: Vec::new() };
        assert(t@ =~= Map::<Seq<char>, H>::empty());
        t
    }

    /// Position of the entry registered under `id`, if any.
    fn position(&self, id: &String) -> (r: Option<usize>)
        requires
            self.wf(),
        ensures
            match r {
                Some(i) => i < self.entries@.len() && self.entries@[i as int].0@ == id@,
                None => !has_id(self.entries@, id@),
            },
    {
        let mut i: usize = 0;
        while i < self.entries.len()
            invariant
                i <= self.entries@.len(),
                forall|j: int| 0 <= j < i ==> (#[trigger] self.entries@[j]).0@ != id@,
            decreases self.entries@.len() - i,
        {
            if self.entries[i].0 == *id {
                return Some(i);
            }
            i = i + 1;
        }
        None
    }

    /// Whether a client is registered under `id`.
    pub fn contains_key(&self, id: &String) -> (b: bool)
        requires
            self.wf(),
        ensures
            b == self@.contains_key(id@),
    {
        self.position(id).is_some()
    }

    /// Registers `handle` under `id`; where `id` was registered already, its
    /// previous handle is replaced and handed back.
    pub fn insert(&mut self, id: String, handle: H) -> (previous: Option<H>)
        requires
            old(self).wf(),
        ensures
            final(self).wf(),
            final(self)@ == old(self)@.insert(id@, handle),
            previous == (if old(self)@.contains_key(id@) {
                Some(old(self)@[id@])
            } else {
                None::<H>
            }),
    {
        match self.position(&id) {
            Some(i) => {
                proof {
                    lemma_entries_map_at(self.entries@, i as int);
                    lemma_entries_map_remove(self.entries@, i as int);
                }
                let ghost rest = self.entries@.remove(i as int);
                let (_, old_handle) = self.entries.remove(i);
                assert(self.entries@ == rest);
                proof {
                    assert(!has_id(rest, id@)) by {
                        if has_id(rest, id@) {
                            let j = id_index(rest, id@);
                            lemma_entries_map_at(rest, j);
                        }
                    }
                    lemma_entries_map_push(rest, id, handle);
                }
                self.entries.push((id, handle));
                assert(self@ =~= old(self)@.insert(id@, handle));
                Some(old_handle)
            },
            None => {
                proof {
                    lemma_entries_map_push(self.entries@, id, handle);
                }
                self.entries.push((id, handle));
                None
            },
        }
    }

    /// Unregisters `id`, handing back its handle if it was registered.
    pub fn remove(&mut self, id: &String) -> (removed: Option<H>)
        requires
            old(self).wf(),
        ensures
            final(self).wf(),
            final(self)@ == old(self)@.remove(id@),
            removed == (if old(self)@.contains_key(id@) {
                Some(old(self)@[id@])
            } else {
                None::<H>
            }),
    {
        match self.position(id) {
            Some(i) => {
                proof {
                    lemma_entries_map_at(self.entries@, i as int);
                    lemma_entries_map_remove(self.entries@, i as int);
                }
                let (_, handle) = self.entries.remove(i);
                Some(handle)
            },
            None => {
                assert(self@ =~= old(self)@.remove(id@));
                None
            },
        }
    }

    /// Empties the table, handing back every registered client once, each with
    /// its handle.
    pub fn drain(&mut self) -> (all: Vec<(String, H)>)
        requires
            old(self).wf(),
        ensures
            final(self).wf(),
            final(self)@ == Map::<Seq<char>, H>::empty(),
            distinct_ids(all@),
            entries_map(all@) == old(self)@,
    {
        let mut all: Vec<(String, H)> = Vec::new();
        std::mem::swap(&mut all, &mut self.entries);
        assert(self@ =~= Map::<Seq<char>, H>::empty());
        all
    }

    /// The handle registered under `id`, for sending to that client.
    pub fn get_mut(&mut self, id: &String) -> (r: Option<&mut H>)
        requires
            old(self).wf(),
        ensures
            old(self)@.contains_key(id@) == r.is_some(),
            r matches Some(h) ==> *h == old(self)@[id@],
            r matches Some(h) ==> final(self)@ == old(self)@.insert(id@, *final(h)),
            final(self).wf(),
            r is None ==> final(self)@ == old(self)@,
    {
        match self.position(id) {
            Some(i) => {
                proof {
                    lemma_entries_map_at(self.entries@, i as int);
                    lemma_entries_map_update(self.entries@, i as int);
                }
                let entry = &mut self.entries[i];
                Some(&mut entry.1)
            },
            None => None,
        }
    }
}

} // verus!
