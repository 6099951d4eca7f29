//! The directory of running sessions: from a session's identifier to the
//! handle through which messages reach it.
//!
//! The registry itself is plain data. Whoever shares it between tasks wraps
//! it in one lock and performs every call under that lock, so that no reader
//! sees an entry half written.

use vstd::prelude::*;

verus! {

/// No session is registered under the identifier.
#[derive(Debug, Clone, Copy, PartialEq, Eq)]
pub struct SessionNotFound;

/// A session is already registered under the identifier.
#[derive(Debug, Clone, Copy, PartialEq, Eq)]
pub struct AlreadyExists;

/// One line of the directory.
pub struct Entry<H> {
    pub id: String,
    pub handle: H,
}

/// The sessions that are running, each under its own identifier.
pub struct Registry<H> {
    entries: Vec<Entry<H>>,
}

/// Whether line `i` of `entries` stands for the identifier `id`.
pub open spec fn names<H>(entries: Seq<Entry<H>>, i: int, id: Seq<char>) -> bool {
    0 <= i < entries.len() && entries[i].id@ == id
}

/// Whether no two lines of `entries` share an identifier.
pub open spec fn distinct_ids<H>(entries: Seq<Entry<H>>) -> bool {
    forall|i: int, j: int|
        0 <= i < j < entries.len() ==> (#[trigger] entries[i]).id@ != (#[trigger] entries[j]).id@
}

/// The directory that the lines of `entries` make up.
pub open spec fn directory<H>(entries: Seq<Entry<H>>) -> Map<Seq<char>, H> {
    Map::new(
        |id: Seq<char>| exists|i: int| names(entries, i, id),
        |id: Seq<char>| entries[choose|i: int| names(entries, i, id)].handle,
    )
}

proof fn lemma_line_is_listed<H>(entries: Seq<Entry<H>>, i: int)
    requires
        distinct_ids(entries),
        0 <= i < entries.len(),
    ensures
        directory(entries).contains_key(entries[i].id@),
        directory(entries)[entries[i].id@] == entries[i].handle,
{
    let id = entries[i].id@;
    assert(names(entries, i, id));
    let chosen = choose|j: int| names(entries, j, id);
    assert(names(entries, chosen, id));
    if chosen < i {
        assert(entries[chosen].id@ != entries[i].id@);
    } else if i < chosen {
        assert(entries[i].id@ != entries[chosen].id@);
    }
}

proof fn lemma_unlisted<H>(entries: Seq<Entry<H>>, id: Seq<char>)
    requires
        forall|i: int| 0 <= i < entries.len() ==> (#[trigger] entries[i]).id@ != id,
    ensures
        !directory(entries).contains_key(id),
{
    if directory(entries).contains_key(id) {
        let chosen = choose|j: int| names(entries, j, id);
        assert(entries[chosen].id@ == id);
    }
}

proof fn lemma_line_added<H>(before: Seq<Entry<H>>, entry: Entry<H>)
    requires
        distinct_ids(before),
        forall|i: int| 0 <= i < before.len() ==> (#[trigger] before[i]).id@ != entry.id@,
    ensures
        distinct_ids(before.push(entry)),
        directory(before.push(entry)) == directory(before).insert(entry.id@, entry.handle),
{
    let after = before.push(entry);
    let last = before.len() as int;
    assert forall|i: int| 0 <= i < before.len() implies after[i] == before[i] by {}
    assert(distinct_ids(after));
    lemma_line_is_listed(after, last);
    assert forall|other: Seq<char>| other != entry.id@ implies (#[trigger] directory(
        after,
    ).contains_key(other) <==> directory(before).contains_key(other)) && (directory(
        before,
    ).contains_key(other) ==> directory(after)[other] == directory(before)[other]) by {
        if directory(before).contains_key(other) {
            let i = choose|i: int| names(before, i, other);
            assert(names(after, i, other));
            lemma_line_is_listed(before, i);
            lemma_line_is_listed(after, i);
        }
        if directory(after).contains_key(other) {
            let i = choose|i: int| names(after, i, other);
            assert(names(before, i, other));
        }
    }
    assert(directory(after) =~= directory(before).insert(entry.id@, entry.handle));
}

proof fn lemma_line_removed<H>(before: Seq<Entry<H>>, at: int)
    requires
        distinct_ids(before),
        0 <= at < before.len(),
    ensures
        distinct_ids(before.remove(at)),
        directory(before.remove(at)) == directory(before).remove(before[at].id@),
{
    let after = before.remove(at);
    let id = before[at].id@;
    assert forall|i: int| 0 <= i < after.len() implies #[trigger] after[i] == before[if i < at {
        i
    } else {
        i + 1
    }] by {}
    assert forall|i: int, j: int| 0 <= i < j < after.len() implies (#[trigger] after[i]).id@ != (
    #[trigger] after[j]).id@ by {
        let from_i = if i < at { i } else { i + 1 };
        let from_j = if j < at { j } else { j + 1 };
        assert(after[i] == before[from_i]);
        assert(after[j] == before[from_j]);
        assert(before[from_i].id@ != before[from_j].id@);
    }
    assert forall|i: int| 0 <= i < after.len() implies (#[trigger] after[i]).id@ != id by {
        let from_i = if i < at { i } else { i + 1 };
        assert(after[i] == before[from_i]);
        if from_i < at {
            assert(before[from_i].id@ != before[at].id@);
        } else {
            assert(before[at].id@ != before[from_i].id@);
        }
    }
    lemma_unlisted(after, id);
    assert forall|other: Seq<char>| other != id implies (#[trigger] directory(after).contains_key(
        other,
    ) <==> directory(before).contains_key(other)) && (directory(before).contains_key(other)
        ==> directory(after)[other] == directory(before)[other]) by {
        if directory(before).contains_key(other) {
            let i = choose|i: int| names(before, i, other);
            let to_i = if i < at { i } else { i - 1 };
            assert(after[to_i] == before[i]);
            assert(names(after, to_i, other));
            lemma_line_is_listed(before, i);
            lemma_line_is_listed(after, to_i);
        }
        if directory(after).contains_key(other) {
            let i = choose|i: int| names(after, i, other);
            let from_i = if i < at { i } else { i + 1 };
            assert(after[i] == before[from_i]);
            assert(names(before, from_i, other));
        }
    }
    assert(directory(after) =~= directory(before).remove(id));
}

impl<H> View for Registry<H> {
    type V = Map<Seq<char>, H>;

    /// The handle of every registered session, by the session's identifier.
    closed spec fn view(&self) -> Map<Seq<char>, H> {
        directory(self.entries@)
    }
}

impl<H> Registry<H> {
    /// What holds of every registry: no identifier is registered twice.
    #[verifier::type_invariant]
    spec fn ids_are_distinct(&self) -> bool {
        distinct_ids(self.entries@)
    }

    /// A registry without sessions.
    pub fn new() -> (registry: Registry<H>)
        ensures
            registry@ == Map::<Seq<char>, H>::empty(),
    {
        let registry = Registry { entries: Vec::new() };
        proof {
            assert(registry@ =~= Map::<Seq<char>, H>::empty());
        }
        registry
    }

    fn find(&self, id: &String) -> (found: Option<usize>)
        ensures
            found.is_some() <==> self@.contains_key(id@),
            found matches Some(i) ==> names(self.entries@, i as int, id@) && self@[id@]
                == self.entries@[i as int].handle,
            found.is_none() ==> forall|i: int|
                0 <= i < self.entries@.len() ==> (#[trigger] self.entries@[i]).id@ != id@,
    {
        proof {
            use_type_invariant(self);
        }
        let mut i: usize = 0;
        while i < self.entries.len()
            invariant
                distinct_ids(self.entries@),
                i <= self.entries@.len(),
                forall|j: int| 0 <= j < i ==> (#[trigger] self.entries@[j]).id@ != id@,
            decreases self.entries@.len() - i,
        {
            if self.entries[i].id == *id {
                proof {
                    lemma_line_is_listed(self.entries@, i as int);
                }
                return Some(i);
            }
            i += 1;
        }
        proof {
            lemma_unlisted(self.entries@, id@);
        }
        None
    }

    /// Registers a session under `id`. An identifier that is taken is never
    /// given to another session: the call is refused and the registry stays
    /// as it was.
    pub fn register(&mut self, id: String, handle: H) -> (registered: Result<(), AlreadyExists>)
        ensures
            registered.is_err() <==> old(self)@.contains_key(id@),
            registered.is_ok() ==> final(self)@ == old(self)@.insert(id@, handle),
            registered.is_err() ==> final(self)@ == old(self)@,
    {
        if self.find(&id).is_some() {
            return Err(AlreadyExists);
        }
        proof {
            use_type_invariant(&*self);
        }
        let mut entries: Vec<Entry<H>> = Vec::new();
        std::mem::swap(&mut self.entries, &mut entries);
        let entry = Entry { id, handle };
        proof {
            lemma_line_added(entries@, entry);
        }
        entries.push(entry);
        std::mem::swap(&mut self.entries, &mut entries);
        Ok(())
    }

    /// The handle of the session that is registered under `id`.
    pub fn lookup(&self, id: &String) -> (found: Result<&H, SessionNotFound>)
        ensures
            found.is_ok() <==> self@.contains_key(id@),
            found matches Ok(handle) ==> *handle == self@[id@],
    {
        match self.find(id) {
            Some(i) => Ok(&self.entries[i].handle),
            None => Err(SessionNotFound),
        }
    }

    /// Takes the session that is registered under `id` out of the registry;
    /// where there is none, nothing changes.
    pub fn remove(&mut self, id: &String)
        ensures
            final(self)@ == old(self)@.remove(id@),
    {
        match self.find(id) {
            Some(at) => {
                proof {
                    use_type_invariant(&*self);
                }
                let mut entries: Vec<Entry<H>> = Vec::new();
                std::mem::swap(&mut self.entries, &mut entries);
                proof {
                    lemma_line_removed(entries@, at as int);
                }
                entries.remove(at);
                std::mem::swap(&mut self.entries, &mut entries);
            },
            None => {
                proof {
                    assert(self@ =~= self@.remove(id@));
                }
            },
        }
    }
}

} // verus!
