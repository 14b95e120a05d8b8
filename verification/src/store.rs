//! The object store: a mapping from `(object type, instance)` keys to
//! object records, with at most one record per key.
//!
//! The store is viewed as a `Map` from keys to records; every operation's
//! contract is stated over that map. Lookup by a key that is absent is a
//! valid "not found" outcome, not an error.

use vstd::prelude::*;
use vstd::pervasive::VecAdditionalExecFns;
use crate::database::{ExampleDatabaseObject, ObjectType};

verus! {

/// One stored entry: key type, key instance, record.
type StoreEntry = (ObjectType, u32, ExampleDatabaseObject);

/// The key under which an entry is addressed.
pub open spec fn entry_key(e: StoreEntry) -> (ObjectType, u32) {
    (e.0, e.1)
}

/// No two entries share a key.
pub open spec fn keys_distinct(s: Seq<StoreEntry>) -> bool {
    forall|i: int, j: int|
        0 <= i < j < s.len() ==> entry_key(s[i]) != entry_key(s[j])
}

/// The mapping that a sequence of entries denotes: later entries shadow
/// earlier ones, though under `keys_distinct` no shadowing occurs.
pub open spec fn entries_map(s: Seq<StoreEntry>) -> Map<(ObjectType, u32), ExampleDatabaseObject>
    decreases s.len(),
{
    if s.len() == 0 {
        Map::empty()
    } else {
        entries_map(s.drop_last()).insert(entry_key(s.last()), s.last().2)
    }
}

proof fn lemma_key_present(s: Seq<StoreEntry>, i: int)
    requires
        keys_distinct(s),
        0 <= i < s.len(),
    ensures
        entries_map(s).contains_key(entry_key(s[i])),
        entries_map(s)[entry_key(s[i])] == s[i].2,
    decreases s.len(),
{
    if i == s.len() - 1 {
    } else {
        assert(s.drop_last()[i] == s[i]);
        lemma_key_present(s.drop_last(), i);
        assert(entry_key(s[s.len() - 1]) != entry_key(s[i]));
    }
}

proof fn lemma_key_absent(s: Seq<StoreEntry>, k: (ObjectType, u32))
    requires
        forall|i: int| 0 <= i < s.len() ==> entry_key(s[i]) != k,
    ensures
        !entries_map(s).contains_key(k),
    decreases s.len(),
{
    if s.len() > 0 {
        assert(forall|i: int|
            0 <= i < s.drop_last().len() ==> entry_key(s.drop_last()[i]) != k);
        lemma_key_absent(s.drop_last(), k);
    }
}

proof fn lemma_update_entry(s: Seq<StoreEntry>, i: int, object: ExampleDatabaseObject)
    requires
        keys_distinct(s),
        0 <= i < s.len(),
    ensures
        keys_distinct(s.update(i, (s[i].0, s[i].1, object))),
        entries_map(s.update(i, (s[i].0, s[i].1, object))) == entries_map(s).insert(
            entry_key(s[i]),
            object,
        ),
    decreases s.len(),
{
    let s2 = s.update(i, (s[i].0, s[i].1, object));
    assert(forall|j: int| 0 <= j < s.len() ==> entry_key(s2[j]) == entry_key(s[j]));
    if i == s.len() - 1 {
        assert(s2.drop_last() =~= s.drop_last());
        assert(entries_map(s2) =~= entries_map(s).insert(entry_key(s[i]), object));
    } else {
        assert(s2.drop_last() =~= s.drop_last().update(i, (s[i].0, s[i].1, object)));
        assert(s.drop_last()[i] == s[i]);
        lemma_update_entry(s.drop_last(), i, object);
        assert(entry_key(s.last()) != entry_key(s[i]));
        assert(entries_map(s2) =~= entries_map(s).insert(entry_key(s[i]), object));
    }
}

proof fn lemma_remove_entry(s: Seq<StoreEntry>, i: int)
    requires
        keys_distinct(s),
        0 <= i < s.len(),
    ensures
        keys_distinct(s.remove(i)),
        entries_map(s.remove(i)) == entries_map(s).remove(entry_key(s[i])),
    decreases s.len(),
{
    let s2 = s.remove(i);
    assert(forall|j: int|
        0 <= j < s2.len() ==> entry_key(s2[j]) == entry_key(
            s[if j < i { j } else { j + 1 }],
        ));
    if i == s.len() - 1 {
        assert(s2 =~= s.drop_last());
        assert(forall|j: int| 0 <= j < s2.len() ==> entry_key(s2[j]) != entry_key(s[i]));
        lemma_key_absent(s2, entry_key(s[i]));
        assert(entries_map(s2) =~= entries_map(s).remove(entry_key(s[i])));
    } else {
        assert(s2.drop_last() =~= s.drop_last().remove(i));
        assert(s.drop_last()[i] == s[i]);
        lemma_remove_entry(s.drop_last(), i);
        assert(entry_key(s.last()) != entry_key(s[i]));
        assert(s2.last() == s.last());
        assert(entries_map(s2) =~= entries_map(s).remove(entry_key(s[i])));
    }
}

/// The object store: the process's one collection of object records.
pub struct ObjectStore {
    entries: Vec<StoreEntry>,
}

impl View for ObjectStore {
    type V = Map<(ObjectType, u32), ExampleDatabaseObject>;

    closed spec fn view(&self) -> Map<(ObjectType, u32), ExampleDatabaseObject> {
        entries_map(self.entries@)
    }
}

impl ObjectStore {
    #[verifier::type_invariant]
    spec fn wf(self) -> bool {
        keys_distinct(self.entries@)
    }

    /// An empty store.
    pub fn new() -> (store: ObjectStore)
        ensures
            store@ == Map::<(ObjectType, u32), ExampleDatabaseObject>::empty(),
    {
        ObjectStore { entries: Vec::new() }
    }

    /// Position of the entry under the given key, if present.
    fn find_index(&self, object_type: ObjectType, instance: u32) -> (r: Option<usize>)
        ensures
            match r {
                Some(i) => i < self.entries@.len() && entry_key(self.entries@[i as int]) == (
                    object_type,
                    instance,
                ),
                None => forall|i: int|
                    0 <= i < self.entries@.len() ==> entry_key(self.entries@[i]) != (
                        object_type,
                        instance,
                    ),
            },
    {
        let n = self.entries.len();
        let mut i: usize = 0;
        while i < n
            invariant
                n == self.entries@.len(),
                i <= n,
                forall|j: int|
                    0 <= j < i ==> entry_key(self.entries@[j]) != (object_type, instance),
            decreases n - i,
        {
            let entry = &self.entries[i];
            if entry.0 == object_type && entry.1 == instance {
                return Some(i);
            }
            i = i + 1;
        }
        None
    }

    /// Looks up the record stored under `(object_type, instance)`.
    /// Absence is reported as `None`, never as a fault.
    pub fn get(&self, object_type: ObjectType, instance: u32) -> (r: Option<
        &ExampleDatabaseObject,
    >)
        ensures
            match r {
                Some(object) => self@.contains_key((object_type, instance)) && *object == self@[(
                    object_type,
                    instance,
                )],
                None => !self@.contains_key((object_type, instance)),
            },
    {
        proof {
            use_type_invariant(&*self);
        }
        match self.find_index(object_type, instance) {
            Some(i) => {
                proof {
                    lemma_key_present(self.entries@, i as int);
                }
                Some(&self.entries[i].2)
            },
            None => {
                proof {
                    lemma_key_absent(self.entries@, (object_type, instance));
                }
                None
            },
        }
    }

    /// Stores `object` under `(object_type, instance)`, replacing any record
    /// already there.
    pub fn insert(&mut self, object_type: ObjectType, instance: u32, object: ExampleDatabaseObject)
        ensures
            final(self)@ == old(self)@.insert((object_type, instance), object),
    {
        proof {
            use_type_invariant(&*self);
        }
        let found = self.find_index(object_type, instance);
        let mut entries: Vec<StoreEntry> = Vec::new();
        core::mem::swap(&mut entries, &mut self.entries);
        match found {
            Some(i) => {
                proof {
                    lemma_update_entry(entries@, i as int, object);
                }
                entries.set(i, (object_type, instance, object));
            },
            None => {
                proof {
                    assert(entries@.push((object_type, instance, object)).drop_last()
                        =~= entries@);
                    assert(entries_map(entries@.push((object_type, instance, object)))
                        =~= entries_map(entries@).insert((object_type, instance), object));
                }
                entries.push((object_type, instance, object));
            },
        }
        self.entries = entries;
    }

    /// Removes and returns the record under `(object_type, instance)`;
    /// the store is unchanged when the key is absent.
    pub fn remove(&mut self, object_type: ObjectType, instance: u32) -> (r: Option<
        ExampleDatabaseObject,
    >)
        ensures
            final(self)@ == old(self)@.remove((object_type, instance)),
            match r {
                Some(object) => old(self)@.contains_key((object_type, instance)) && object == old(
                    self,
                )@[(object_type, instance)],
                None => !old(self)@.contains_key((object_type, instance)),
            },
    {
        proof {
            use_type_invariant(&*self);
        }
        let found = self.find_index(object_type, instance);
        let mut entries: Vec<StoreEntry> = Vec::new();
        core::mem::swap(&mut entries, &mut self.entries);
        let r = match found {
            Some(i) => {
                proof {
                    lemma_key_present(entries@, i as int);
                    lemma_remove_entry(entries@, i as int);
                }
                let entry = entries.remove(i);
                Some(entry.2)
            },
            None => {
                proof {
                    lemma_key_absent(entries@, (object_type, instance));
                    assert(entries_map(entries@).remove((object_type, instance))
                        =~= entries_map(entries@));
                }
                None
            },
        };
        self.entries = entries;
        r
    }

    /// Number of records in the store.
    pub fn len(&self) -> (n: usize)
        ensures
            n == self@.dom().len(),
    {
        proof {
            use_type_invariant(&*self);
            lemma_entries_map_dom_len(self.entries@);
        }
        self.entries.len()
    }
}

proof fn lemma_entries_map_dom_len(s: Seq<StoreEntry>)
    requires
        keys_distinct(s),
    ensures
        entries_map(s).dom().finite(),
        entries_map(s).dom().len() == s.len(),
    decreases s.len(),
{
    if s.len() > 0 {
        lemma_entries_map_dom_len(s.drop_last());
        assert(forall|i: int|
            0 <= i < s.drop_last().len() ==> entry_key(s.drop_last()[i]) != entry_key(s.last()));
        lemma_key_absent(s.drop_last(), entry_key(s.last()));
    }
}

/// A record read back from the store and written back unchanged leaves the
/// store's mapping exactly as it was: the read/write discipline of the
/// accessor protocol cannot corrupt state.
pub proof fn lemma_write_back_read_value(
    m: Map<(ObjectType, u32), ExampleDatabaseObject>,
    key: (ObjectType, u32),
)
    requires
        m.contains_key(key),
    ensures
        m.insert(key, m[key]) == m,
{
    assert(m.insert(key, m[key]) =~= m);
}

} // verus!
