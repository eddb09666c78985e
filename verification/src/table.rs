//! A keyed record table: the building block of the entity store.
//!
//! Records live in insertion order in a vector of key/value entries, with all
//! keys distinct. The table's abstract value is a map from key (as a sequence
//! of characters) to record, and every operation is specified against that
//! map, with the entry order pinned as well so that listings are stable
//! across calls absent writes.

use vstd::prelude::*;

verus! {

/// A record that can duplicate itself; the duplicate is equal to the
/// original. Used where a stored value is handed out by value.
pub trait Record: Sized {
    fn duplicate(&self) -> (r: Self)
        ensures
            r == *self,
    ;
}

/// One stored entry: the key the record was filed under, and the record.
/// The key is supplied by the caller and need not equal any field of the
/// record (a replace under an existing key keeps that key).
pub struct Entry<R> {
    pub key: String,
    pub value: R,
}

/// All keys of the entry sequence are pairwise distinct.
pub open spec fn unique_keys<R>(s: Seq<Entry<R>>) -> bool {
    forall|i: int, j: int| 0 <= i < j < s.len() ==> s[i].key@ != s[j].key@
}

/// The map a sequence of entries denotes: each key bound to its record.
pub open spec fn table_map<R>(s: Seq<Entry<R>>) -> Map<Seq<char>, R>
    decreases s.len(),
{
    if s.len() == 0 {
        Map::empty()
    } else {
        table_map(s.drop_last()).insert(s.last().key@, s.last().value)
    }
}

/// Lookup in a keyed map: the bound record, or nothing.
pub open spec fn spec_get<R>(m: Map<Seq<char>, R>, k: Seq<char>) -> Option<R> {
    if m.dom().contains(k) {
        Some(m[k])
    } else {
        None
    }
}

/// A key is in the table map exactly when some entry holds it.
pub proof fn lemma_table_map_contains<R>(s: Seq<Entry<R>>, k: Seq<char>)
    ensures
        table_map(s).dom().contains(k) <==> (exists|i: int|
            0 <= i < s.len() && s[i].key@ == k),
    decreases s.len(),
{
    if s.len() == 0 {
    } else {
        lemma_table_map_contains(s.drop_last(), k);
        if s.last().key@ == k {
            assert(s[s.len() - 1].key@ == k);
        } else {
            if exists|i: int| 0 <= i < s.len() && s[i].key@ == k {
                let i = choose|i: int| 0 <= i < s.len() && s[i].key@ == k;
                assert(i < s.len() - 1);
                assert(s.drop_last()[i].key@ == k);
            }
        }
    }
}

/// With distinct keys, the map binds each entry's key to that entry's record.
pub proof fn lemma_table_map_at<R>(s: Seq<Entry<R>>, i: int)
    requires
        unique_keys(s),
        0 <= i < s.len(),
    ensures
        table_map(s).dom().contains(s[i].key@),
        table_map(s)[s[i].key@] == s[i].value,
    decreases s.len(),
{
    if i == s.len() - 1 {
    } else {
        assert(unique_keys(s.drop_last()));
        assert(s.drop_last()[i] == s[i]);
        lemma_table_map_at(s.drop_last(), i);
        assert(s[i].key@ != s[s.len() - 1].key@);
    }
}

/// Replacing the entry that holds a key rebinds that key in the map.
pub proof fn lemma_table_map_update<R>(s: Seq<Entry<R>>, i: int, e: Entry<R>)
    requires
        unique_keys(s),
        0 <= i < s.len(),
        s[i].key@ == e.key@,
    ensures
        table_map(s.update(i, e)) == table_map(s).insert(e.key@, e.value),
    decreases s.len(),
{
    let t = s.update(i, e);
    if i == s.len() - 1 {
        assert(t.drop_last() =~= s.drop_last());
        assert(t.last() == e);
        assert(table_map(t) == table_map(s.drop_last()).insert(e.key@, e.value));
        assert(table_map(s).insert(e.key@, e.value) =~= table_map(s.drop_last()).insert(
            e.key@,
            e.value,
        ));
    } else {
        assert(unique_keys(s.drop_last()));
        assert(s.drop_last()[i] == s[i]);
        lemma_table_map_update(s.drop_last(), i, e);
        assert(t.drop_last() =~= s.drop_last().update(i, e));
        assert(t.last() == s.last());
        assert(table_map(t) == table_map(s.drop_last()).insert(e.key@, e.value).insert(
            s.last().key@,
            s.last().value,
        ));
        assert(s[i].key@ != s[s.len() - 1].key@);
        assert(table_map(s.drop_last()).insert(e.key@, e.value).insert(
            s.last().key@,
            s.last().value,
        ) =~= table_map(s).insert(e.key@, e.value));
    }
}

/// Removing the entry that holds a key removes that key from the map.
pub proof fn lemma_table_map_remove<R>(s: Seq<Entry<R>>, i: int)
    requires
        unique_keys(s),
        0 <= i < s.len(),
    ensures
        table_map(s.remove(i)) == table_map(s).remove(s[i].key@),
    decreases s.len(),
{
    let t = s.remove(i);
    if i == s.len() - 1 {
        assert(t =~= s.drop_last());
        lemma_table_map_contains(s.drop_last(), s[i].key@);
        assert(forall|j: int|
            0 <= j < s.drop_last().len() ==> s.drop_last()[j].key@ != s[i].key@);
        assert(!table_map(s.drop_last()).dom().contains(s[i].key@));
        assert(table_map(s).remove(s[i].key@) =~= table_map(s.drop_last()));
    } else {
        assert(unique_keys(s.drop_last()));
        assert(s.drop_last()[i] == s[i]);
        lemma_table_map_remove(s.drop_last(), i);
        assert(t.drop_last() =~= s.drop_last().remove(i));
        assert(t.last() == s.last());
        assert(table_map(t) == table_map(s.drop_last()).remove(s[i].key@).insert(
            s.last().key@,
            s.last().value,
        ));
        assert(s[i].key@ != s[s.len() - 1].key@);
        assert(table_map(s.drop_last()).remove(s[i].key@).insert(s.last().key@, s.last().value)
            =~= table_map(s).remove(s[i].key@));
    }
}

/// The keyed table.
pub struct Table<R> {
    pub entries: Vec<Entry<R>>,
}

impl<R> Table<R> {
    /// Well-formed: all keys distinct.
    pub open spec fn wf(self) -> bool {
        unique_keys(self.entries@)
    }

    /// The map this table denotes.
    pub open spec fn as_map(self) -> Map<Seq<char>, R> {
        table_map(self.entries@)
    }

    /// The stored records, in entry order.
    pub open spec fn values(self) -> Seq<R> {
        self.entries@.map_values(|e: Entry<R>| e.value)
    }
}

impl<R: Record> Table<R> {
    /// An empty table.
    pub fn new() -> (r: Self)
        ensures
            r.wf(),
            r.as_map() == Map::<Seq<char>, R>::empty(),
            r.entries@.len() == 0,
    {
        Table { entries: Vec::new() }
    }

    /// Number of stored records.
    pub fn len(&self) -> (r: usize)
        ensures
            r == self.entries@.len(),
    {
        self.entries.len()
    }

    /// The index of the entry holding `key`, if any.
    fn index_of(&self, key: &str) -> (r: Option<usize>)
        ensures
            match r {
                Some(i) => i < self.entries@.len() && self.entries@[i as int].key@ == key@,
                None => forall|i: int|
                    0 <= i < self.entries@.len() ==> self.entries@[i].key@ != key@,
            },
    {
        let owned: String = key.to_owned();
        let n = self.entries.len();
        let mut i: usize = 0;
        while i < n
            invariant
                n == self.entries@.len(),
                i <= n,
                owned@ == key@,
                forall|j: int| 0 <= j < i ==> self.entries@[j].key@ != key@,
            decreases n - i,
        {
            if self.entries[i].key.eq(&owned) {
                return Some(i);
            }
            i = i + 1;
        }
        None
    }

    /// Whether a record is filed under `key`.
    pub fn contains(&self, key: &str) -> (r: bool)
        ensures
            r == self.as_map().dom().contains(key@),
    {
        let found = self.index_of(key);
        proof {
            lemma_table_map_contains(self.entries@, key@);
        }
        found.is_some()
    }

    /// The record filed under `key`, or nothing.
    pub fn get(&self, key: &str) -> (r: Option<R>)
        requires
            self.wf(),
        ensures
            r == spec_get(self.as_map(), key@),
    {
        match self.index_of(key) {
            Some(i) => {
                proof {
                    lemma_table_map_at(self.entries@, i as int);
                }
                Some(self.entries[i].value.duplicate())
            },
            None => {
                proof {
                    lemma_table_map_contains(self.entries@, key@);
                }
                None
            },
        }
    }

    /// All records, in entry order.
    pub fn list(&self) -> (r: Vec<R>)
        ensures
            r@ == self.values(),
    {
        let n = self.entries.len();
        let mut out: Vec<R> = Vec::new();
        let mut i: usize = 0;
        while i < n
            invariant
                n == self.entries@.len(),
                i <= n,
                out@ == self.values().subrange(0, i as int),
            decreases n - i,
        {
            out.push(self.entries[i].value.duplicate());
            proof {
                assert(out@ =~= self.values().subrange(0, i as int + 1));
            }
            i = i + 1;
        }
        proof {
            assert(self.values().subrange(0, n as int) =~= self.values());
        }
        out
    }

    /// Files `value` under `key`: replaces the entry holding `key` in place,
    /// or appends a new entry if the key is fresh.
    pub fn insert_entry(&mut self, key: String, value: R)
        requires
            old(self).wf(),
        ensures
            final(self).wf(),
            final(self).as_map() == old(self).as_map().insert(key@, value),
            (exists|i: int|
                0 <= i < old(self).entries@.len() && old(self).entries@[i].key@ == key@
                    && final(self).entries@ == old(self).entries@.update(
                    i,
                    Entry { key, value },
                )) || ((forall|i: int|
                0 <= i < old(self).entries@.len() ==> old(self).entries@[i].key@ != key@)
                && final(self).entries@ == old(self).entries@.push(Entry { key, value })),
            old(self).as_map().dom().contains(key@) ==> exists|i: int|
                0 <= i < old(self).entries@.len() && old(self).entries@[i].key@ == key@
                    && final(self).entries@ == old(self).entries@.update(i, Entry { key, value }),
            !old(self).as_map().dom().contains(key@) ==> final(self).entries@
                == old(self).entries@.push(Entry { key, value }),
    {
        proof {
            lemma_table_map_contains(self.entries@, key@);
        }
        match self.index_of(key.as_str()) {
            Some(i) => {
                proof {
                    lemma_table_map_at(self.entries@, i as int);
                    lemma_table_map_update(self.entries@, i as int, Entry { key, value });
                }
                self.entries[i] = Entry { key, value };
            },
            None => {
                proof {
                    let s = self.entries@;
                    let e = Entry { key, value };
                    assert(s.push(e).drop_last() =~= s);
                    lemma_table_map_contains(s, key@);
                    assert(unique_keys(s.push(e)));
                }
                self.entries.push(Entry { key, value });
            },
        }
    }

    /// Removes the entry holding `key`; reports whether one existed.
    pub fn remove_entry(&mut self, key: &str) -> (r: bool)
        requires
            old(self).wf(),
        ensures
            final(self).wf(),
            r == old(self).as_map().dom().contains(key@),
            final(self).as_map() == old(self).as_map().remove(key@),
            r ==> exists|i: int|
                0 <= i < old(self).entries@.len() && old(self).entries@[i].key@ == key@
                    && final(self).entries@ == old(self).entries@.remove(i),
            !r ==> *final(self) == *old(self),
    {
        match self.index_of(key) {
            Some(i) => {
                proof {
                    lemma_table_map_at(self.entries@, i as int);
                    lemma_table_map_remove(self.entries@, i as int);
                    let s = self.entries@;
                    assert(unique_keys(s.remove(i as int)));
                }
                self.entries.remove(i);
                true
            },
            None => {
                proof {
                    lemma_table_map_contains(self.entries@, key@);
                    assert(self.as_map().remove(key@) =~= self.as_map());
                }
                false
            },
        }
    }
}

} // verus!
