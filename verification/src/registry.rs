//! The table that a manager keeps: session identifier to session. No
//! identifier occurs twice.

use vstd::prelude::*;

verus! {

/// One change of a registry.
pub enum RegistryOp<S> {
    /// A session is registered under an identifier.
    Register(Seq<char>, S),
    /// The identifier is released.
    Release(Seq<char>),
    /// The registry is only read.
    Read,
}

/// The table after one change.
pub open spec fn applied<S>(table: Map<Seq<char>, S>, op: RegistryOp<S>) -> Map<Seq<char>, S> {
    match op {
        RegistryOp::Register(id, session) => table.insert(id, session),
        RegistryOp::Release(id) => table.remove(id),
        RegistryOp::Read => table,
    }
}

/// The table after the changes, applied in order.
pub open spec fn applied_all<S>(table: Map<Seq<char>, S>, ops: Seq<RegistryOp<S>>) -> Map<
    Seq<char>,
    S,
>
    decreases ops.len(),
{
    if ops.len() == 0 {
        table
    } else {
        applied(applied_all(table, ops.drop_last()), ops.last())
    }
}

/// A registered identifier stays registered until it is released: after
/// registering `id` and any changes among which none releases it, the table
/// still holds `id`.
pub proof fn lemma_registered_until_released<S>(
    table: Map<Seq<char>, S>,
    id: Seq<char>,
    session: S,
    ops: Seq<RegistryOp<S>>,
)
    requires
        forall|i: int| 0 <= i < ops.len() ==> #[trigger] ops[i] != RegistryOp::<S>::Release(id),
    ensures
        applied_all(table.insert(id, session), ops).contains_key(id),
    decreases ops.len(),
{
    if ops.len() > 0 {
        let before = ops.drop_last();
        assert forall|i: int| 0 <= i < before.len() implies #[trigger] before[i]
            != RegistryOp::<S>::Release(id) by {
            assert(before[i] == ops[i]);
        }
        lemma_registered_until_released(table, id, session, before);
        assert(ops.last() == ops[ops.len() - 1]);
    }
}

/// Releasing is idempotent in effect: once an identifier is released it is
/// absent, and releasing it again changes nothing.
pub proof fn lemma_release_twice<S>(table: Map<Seq<char>, S>, id: Seq<char>)
    ensures
        !table.remove(id).contains_key(id),
        table.remove(id).remove(id) == table.remove(id),
{
    assert(table.remove(id).remove(id) =~= table.remove(id));
}

/// Sessions by identifier.
pub struct SessionRegistry<S> {
    entries: Vec<(String, S)>,
}

impl<S> SessionRegistry<S> {
    /// The identifier of the entry at a position.
    pub closed spec fn id_at(&self, i: int) -> Seq<char> {
        self.entries@[i].0@
    }

    /// No identifier occurs twice.
    pub closed spec fn wf(&self) -> bool {
        forall|i: int, j: int|
            0 <= i < j < self.entries@.len() ==> #[trigger] self.id_at(i) != #[trigger] self.id_at(
                j,
            )
    }

    /// A position at which `id` is registered.
    pub closed spec fn slot(&self, id: Seq<char>) -> int {
        choose|i: int| 0 <= i < self.entries@.len() && self.id_at(i) == id
    }

    /// The table: which identifier stands for which session.
    pub closed spec fn view(&self) -> Map<Seq<char>, S> {
        Map::new(
            |id: Seq<char>| exists|i: int| 0 <= i < self.entries@.len() && self.id_at(i) == id,
            |id: Seq<char>| self.entries@[self.slot(id)].1,
        )
    }

    /// How many sessions are registered.
    pub closed spec fn count(&self) -> nat {
        self.entries@.len()
    }

    proof fn lemma_entry(&self, i: int)
        requires
            self.wf(),
            0 <= i < self.entries@.len(),
        ensures
            self@.contains_key(self.id_at(i)),
            self@[self.id_at(i)] == self.entries@[i].1,
            self.slot(self.id_at(i)) == i,
    {
        let id = self.id_at(i);
        let s = self.slot(id);
        assert(0 <= s < self.entries@.len() && self.id_at(s) == id);
        if s < i {
            assert(self.id_at(s) != self.id_at(i));
        } else if i < s {
            assert(self.id_at(i) != self.id_at(s));
        }
    }

    /// A registry without sessions.
    pub fn new() -> (registry: SessionRegistry<S>)
        ensures
            registry.wf(),
            registry@ == Map::<Seq<char>, S>::empty(),
            registry.count() == 0,
    {
        let registry = SessionRegistry { entries: Vec::new() };
        assert(registry@ =~= Map::<Seq<char>, S>::empty());
        registry
    }

    fn position(&self, id: &str) -> (found: Option<usize>)
        requires
            self.wf(),
        ensures
            match found {
                Some(i) => i < self.entries@.len() && self.id_at(i as int) == id@,
                None => !self@.contains_key(id@),
            },
            found is Some <==> self@.contains_key(id@),
    {
        let key = String::from_str(id);
        let mut i: usize = 0;
        while i < self.entries.len()
            invariant
                self.wf(),
                i <= self.entries@.len(),
                key@ == id@,
                forall|j: int| 0 <= j < i ==> self.id_at(j) != id@,
            decreases self.entries@.len() - i,
        {
            if self.entries[i].0 == key {
                proof {
                    self.lemma_entry(i as int);
                }
                return Some(i);
            }
            i += 1;
        }
        None
    }

    /// Tells whether `id` is registered.
    pub fn contains(&self, id: &str) -> (b: bool)
        requires
            self.wf(),
        ensures
            b == self@.contains_key(id@),
    {
        self.position(id).is_some()
    }

    /// The session registered under `id`, if any.
    pub fn get(&self, id: &str) -> (session: Option<&S>)
        requires
            self.wf(),
        ensures
            match session {
                Some(s) => self@.contains_key(id@) && *s == self@[id@],
                None => !self@.contains_key(id@),
            },
    {
        match self.position(id) {
            Some(i) => {
                proof {
                    self.lemma_entry(i as int);
                }
                Some(&self.entries[i].1)
            },
            None => None,
        }
    }

    /// Registers `session` under `id`. A session that was registered under
    /// the same identifier is replaced and handed back.
    pub fn insert(&mut self, id: String, session: S) -> (replaced: Option<S>)
        requires
            old(self).wf(),
        ensures
            final(self).wf(),
            final(self)@ == old(self)@.insert(id@, session),
            match replaced {
                Some(s) => old(self)@.contains_key(id@) && s == old(self)@[id@],
                None => !old(self)@.contains_key(id@),
            },
            final(self).count() == old(self).count() + (if replaced is None {
                1nat
            } else {
                0nat
            }),
    {
        let found = self.position(id.as_str());
        let ghost before = *self;
        let replaced = match found {
            Some(i) => {
                proof {
                    self.lemma_entry(i as int);
                }
                Some(self.entries.remove(i).1)
            },
            None => None,
        };
        let ghost middle = *self;
        proof {
            assert forall|j: int| 0 <= j < middle.entries@.len() implies middle.id_at(j) != id@ by {
                match found {
                    Some(i) => {
                        if j < i {
                            assert(middle.id_at(j) == before.id_at(j));
                            assert(before.id_at(j) != before.id_at(i as int));
                        } else {
                            assert(middle.id_at(j) == before.id_at(j + 1));
                            assert(before.id_at(i as int) != before.id_at(j + 1));
                        }
                    },
                    None => {
                        assert(middle.id_at(j) == before.id_at(j));
                        if before.id_at(j) == id@ {
                            before.lemma_entry(j);
                        }
                    },
                }
            }
            assert forall|a: int, b: int| 0 <= a < b < middle.entries@.len() implies middle.id_at(a)
                != middle.id_at(b) by {
                match found {
                    Some(i) => {
                        let a0 = if a < i { a } else { a + 1 };
                        let b0 = if b < i { b } else { b + 1 };
                        assert(middle.id_at(a) == before.id_at(a0));
                        assert(middle.id_at(b) == before.id_at(b0));
                        assert(before.id_at(a0) != before.id_at(b0));
                    },
                    None => {
                        assert(middle.id_at(a) == before.id_at(a));
                        assert(middle.id_at(b) == before.id_at(b));
                    },
                }
            }
        }
        self.entries.push((id, session));
        proof {
            let after = *self;
            let n = middle.entries@.len() as int;
            assert forall|a: int, b: int| 0 <= a < b < after.entries@.len() implies after.id_at(a)
                != after.id_at(b) by {
                assert(after.id_at(a) == middle.id_at(a));
                if b < n {
                    assert(after.id_at(b) == middle.id_at(b));
                    assert(middle.id_at(a) != middle.id_at(b));
                } else {
                    assert(after.id_at(b) == id@);
                }
            }
            assert(after.wf());
            assert forall|k: Seq<char>| after@.contains_key(k) <==> before@.insert(
                id@,
                session,
            ).contains_key(k) by {
                if after@.contains_key(k) {
                    let a = choose|a: int| 0 <= a < after.entries@.len() && after.id_at(a) == k;
                    if a < n {
                        assert(after.id_at(a) == middle.id_at(a));
                        let a0 = match found {
                            Some(i) => if a < i { a } else { a + 1 },
                            None => a,
                        };
                        assert(middle.id_at(a) == before.id_at(a0));
                        before.lemma_entry(a0);
                    }
                }
                if before@.insert(id@, session).contains_key(k) {
                    if k == id@ {
                        assert(after.id_at(n) == id@);
                    } else {
                        let b0 = choose|b: int| 0 <= b < before.entries@.len() && before.id_at(b) == k;
                        let b = match found {
                            Some(i) => if b0 < i { b0 } else { b0 - 1 },
                            None => b0,
                        };
                        match found {
                            Some(i) => {
                                assert(b0 != i);
                            },
                            None => {},
                        }
                        assert(middle.id_at(b) == before.id_at(b0));
                        assert(after.id_at(b) == middle.id_at(b));
                    }
                }
            }
            assert forall|k: Seq<char>| after@.contains_key(k) implies after@[k] == before@.insert(
                id@,
                session,
            )[k] by {
                let a = after.slot(k);
                assert(0 <= a < after.entries@.len() && after.id_at(a) == k);
                after.lemma_entry(a);
                if a < n {
                    assert(after.id_at(a) == middle.id_at(a));
                    let a0 = match found {
                        Some(i) => if a < i { a } else { a + 1 },
                        None => a,
                    };
                    assert(middle.id_at(a) == before.id_at(a0));
                    assert(after.entries@[a] == before.entries@[a0]);
                    before.lemma_entry(a0);
                    assert(k != id@);
                } else {
                    assert(after.entries@[a].1 == session);
                }
            }
            assert(after@ =~= before@.insert(id@, session));
        }
        replaced
    }

    /// Releases `id` and hands back the session that was registered under
    /// it, if any.
    pub fn remove(&mut self, id: &str) -> (removed: Option<S>)
        requires
            old(self).wf(),
        ensures
            final(self).wf(),
            final(self)@ == old(self)@.remove(id@),
            match removed {
                Some(s) => old(self)@.contains_key(id@) && s == old(self)@[id@],
                None => !old(self)@.contains_key(id@) && final(self)@ == old(self)@,
            },
            final(self).count() == old(self).count() - (if removed is Some {
                1nat
            } else {
                0nat
            }),
    {
        let ghost before = *self;
        match self.position(id) {
            Some(i) => {
                proof {
                    self.lemma_entry(i as int);
                }
                let entry = self.entries.remove(i);
                proof {
                    let after = *self;
                    assert forall|a: int, b: int|
                        0 <= a < b < after.entries@.len() implies after.id_at(a) != after.id_at(
                        b,
                    ) by {
                        let a0 = if a < i { a } else { a + 1 };
                        let b0 = if b < i { b } else { b + 1 };
                        assert(after.id_at(a) == before.id_at(a0));
                        assert(after.id_at(b) == before.id_at(b0));
                        assert(before.id_at(a0) != before.id_at(b0));
                    }
                    assert(after.wf());
                    assert forall|k: Seq<char>| after@.contains_key(k) <==> before@.remove(
                        id@,
                    ).contains_key(k) by {
                        if after@.contains_key(k) {
                            let a = choose|a: int| 0 <= a < after.entries@.len() && after.id_at(a) == k;
                            let a0 = if a < i { a } else { a + 1 };
                            assert(after.id_at(a) == before.id_at(a0));
                            before.lemma_entry(a0);
                            if a0 < i {
                                assert(before.id_at(a0) != before.id_at(i as int));
                            } else {
                                assert(before.id_at(i as int) != before.id_at(a0));
                            }
                        }
                        if before@.remove(id@).contains_key(k) {
                            let b0 = choose|b: int| 0 <= b < before.entries@.len() && before.id_at(b) == k;
                            assert(b0 != i);
                            let b = if b0 < i { b0 } else { b0 - 1 };
                            assert(after.id_at(b) == before.id_at(b0));
                        }
                    }
                    assert forall|k: Seq<char>| after@.contains_key(k) implies after@[k]
                        == before@.remove(id@)[k] by {
                        let a = after.slot(k);
                        assert(0 <= a < after.entries@.len() && after.id_at(a) == k);
                        after.lemma_entry(a);
                        let a0 = if a < i { a } else { a + 1 };
                        assert(after.entries@[a] == before.entries@[a0]);
                        assert(after.id_at(a) == before.id_at(a0));
                        before.lemma_entry(a0);
                    }
                    assert(after@ =~= before@.remove(id@));
                }
                Some(entry.1)
            },
            None => {
                assert(self@.remove(id@) =~= self@);
                None
            },
        }
    }

    /// The registered identifiers, each once, in no particular order.
    pub fn ids(&self) -> (ids: Vec<String>)
        requires
            self.wf(),
        ensures
            ids@.len() == self.count(),
            forall|i: int| 0 <= i < ids@.len() ==> self@.contains_key(#[trigger] ids@[i]@),
            forall|id: Seq<char>| #[trigger]
                self@.contains_key(id) ==> exists|i: int|
                    0 <= i < ids@.len() && #[trigger] ids@[i]@ == id,
            forall|i: int, j: int|
                0 <= i < j < ids@.len() ==> #[trigger] ids@[i]@ != #[trigger] ids@[j]@,
    {
        let mut ids: Vec<String> = Vec::new();
        let mut i: usize = 0;
        while i < self.entries.len()
            invariant
                i <= self.entries@.len(),
                ids@.len() == i,
                forall|j: int| 0 <= j < i ==> (#[trigger] ids@[j])@ == self.id_at(j),
            decreases self.entries@.len() - i,
        {
            ids.push(self.entries[i].0.clone());
            i += 1;
        }
        proof {
            assert forall|j: int| 0 <= j < ids@.len() implies self@.contains_key(
                #[trigger] ids@[j]@,
            ) by {
                self.lemma_entry(j);
            }
            assert forall|id: Seq<char>| #[trigger] self@.contains_key(id) implies exists|j: int|
                0 <= j < ids@.len() && #[trigger] ids@[j]@ == id by {
                let a = choose|a: int| 0 <= a < self.entries@.len() && self.id_at(a) == id;
                assert(ids@[a]@ == id);
            }
            assert forall|a: int, b: int| 0 <= a < b < ids@.len() implies #[trigger] ids@[a]@
                != #[trigger] ids@[b]@ by {
                assert(self.id_at(a) != self.id_at(b));
            }
        }
        ids
    }

    /// How many sessions are registered.
    pub fn len(&self) -> (n: usize)
        ensures
            n == self.count(),
    {
        self.entries.len()
    }
}

} // verus!
