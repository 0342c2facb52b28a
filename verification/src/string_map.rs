//! A mapping from string to string that keeps its entries in insertion order.

use vstd::prelude::*;
use crate::text::same_text;

verus! {

/// The entries of a mapping, as pairs of key and value.
pub type Entries = Seq<(Seq<char>, Seq<char>)>;

/// Whether no key occurs twice among `entries`.
pub open spec fn distinct_keys(entries: Entries) -> bool {
    forall|i: int, j: int| 0 <= i < j < entries.len() ==> entries[i].0 != entries[j].0
}

/// The position of the first entry with `key`, or the length of `entries`
/// where there is none.
pub open spec fn index_of(entries: Entries, key: Seq<char>) -> int
    decreases entries.len(),
{
    if entries.len() == 0 {
        0
    } else if entries[0].0 == key {
        0
    } else {
        1 + index_of(entries.drop_first(), key)
    }
}

/// The value stored under `key`, if any.
pub open spec fn value_of(entries: Entries, key: Seq<char>) -> Option<Seq<char>> {
    let i = index_of(entries, key);
    if i < entries.len() {
        Some(entries[i].1)
    } else {
        None
    }
}

/// `entries` after `key` has been set to `value`: an entry with that key is
/// replaced where it stands, a new key is added at the end.
pub open spec fn inserted(entries: Entries, key: Seq<char>, value: Seq<char>) -> Entries {
    let i = index_of(entries, key);
    if i < entries.len() {
        entries.update(i, (key, value))
    } else {
        entries.push((key, value))
    }
}

/// `index_of` finds the first entry with the key, and only that.
pub proof fn lemma_index_of(entries: Entries, key: Seq<char>)
    ensures
        0 <= index_of(entries, key) <= entries.len(),
        index_of(entries, key) < entries.len() ==> entries[index_of(entries, key)].0 == key,
        forall|j: int| 0 <= j < index_of(entries, key) ==> (#[trigger] entries[j]).0 != key,
    decreases entries.len(),
{
    if entries.len() > 0 && entries[0].0 != key {
        let rest = entries.drop_first();
        lemma_index_of(rest, key);
        assert forall|j: int| 0 <= j < index_of(entries, key) implies (#[trigger] entries[j]).0
            != key by {
            if j > 0 {
                assert(entries[j] == rest[j - 1]);
            }
        }
    }
}

/// Setting a key keeps the keys distinct.
pub proof fn lemma_inserted_distinct(entries: Entries, key: Seq<char>, value: Seq<char>)
    requires
        distinct_keys(entries),
    ensures
        distinct_keys(inserted(entries, key, value)),
        value_of(inserted(entries, key, value), key) == Some(value),
{
    lemma_index_of(entries, key);
    let after = inserted(entries, key, value);
    let i = index_of(entries, key);
    assert(after[i] == (key, value));
    assert forall|j: int| 0 <= j < i implies (#[trigger] after[j]).0 != key by {
        assert(after[j] == entries[j]);
    }
    lemma_index_of(after, key);
    assert(index_of(after, key) == i) by {
        let k = index_of(after, key);
        if k < i {
            assert(after[k].0 == key);
        } else if k > i {
            assert(after[i].0 == key);
        }
    }
    assert forall|a: int, b: int| 0 <= a < b < after.len() implies after[a].0 != after[b].0 by {
        if i < entries.len() {
            assert(after[a].0 == entries[a].0);
            assert(after[b].0 == entries[b].0);
        } else if b == i {
            assert(after[a] == entries[a]);
        } else {
            assert(after[a] == entries[a]);
            assert(after[b] == entries[b]);
        }
    }
}

/// Setting a key that is not there yet adds its entry at the end.
pub proof fn lemma_inserted_new_key(entries: Entries, key: Seq<char>, value: Seq<char>)
    requires
        forall|j: int| 0 <= j < entries.len() ==> (#[trigger] entries[j]).0 != key,
    ensures
        inserted(entries, key, value) == entries.push((key, value)),
{
    lemma_index_of(entries, key);
}

/// What setting the entries of `raw` one after the other, in their order,
/// leaves: of two entries with one key the later value, at the place of the
/// earlier.
pub open spec fn gathered(raw: Entries) -> Entries
    decreases raw.len(),
{
    if raw.len() == 0 {
        Entries::empty()
    } else {
        inserted(gathered(raw.drop_last()), raw.last().0, raw.last().1)
    }
}

/// What is gathered holds no key twice.
pub proof fn lemma_gathered_distinct(raw: Entries)
    ensures
        distinct_keys(gathered(raw)),
    decreases raw.len(),
{
    if raw.len() > 0 {
        lemma_gathered_distinct(raw.drop_last());
        lemma_inserted_distinct(gathered(raw.drop_last()), raw.last().0, raw.last().1);
    }
}

/// Entries with distinct keys are gathered as they are.
pub proof fn lemma_gathered_identity(raw: Entries)
    requires
        distinct_keys(raw),
    ensures
        gathered(raw) == raw,
    decreases raw.len(),
{
    if raw.len() > 0 {
        let head = raw.drop_last();
        assert(distinct_keys(head)) by {
            assert forall|i: int, j: int| 0 <= i < j < head.len() implies head[i].0
                != head[j].0 by {
                assert(head[i] == raw[i]);
                assert(head[j] == raw[j]);
            }
        }
        lemma_gathered_identity(head);
        assert forall|j: int| 0 <= j < head.len() implies (#[trigger] head[j]).0
            != raw.last().0 by {
            assert(head[j] == raw[j]);
        }
        lemma_inserted_new_key(head, raw.last().0, raw.last().1);
        assert(head.push(raw.last()) =~= raw);
    } else {
        assert(raw =~= Entries::empty());
    }
}

/// A mapping from string to string. No key occurs twice, and the entries
/// stay in the order in which their keys were first set.
#[derive(Debug, PartialEq, Eq)]
pub struct StringMap {
    entries: Vec<(String, String)>,
}

impl View for StringMap {
    type V = Entries;

    closed spec fn view(&self) -> Entries {
        Seq::new(self.entries@.len(), |i: int| (self.entries@[i].0@, self.entries@[i].1@))
    }
}

impl DeepView for StringMap {
    type V = Entries;

    open spec fn deep_view(&self) -> Entries {
        self@
    }
}

impl StringMap {
    #[verifier::type_invariant]
    closed spec fn keys_are_distinct(&self) -> bool {
        distinct_keys(self@)
    }

    /// A mapping without entries.
    pub fn new() -> (m: StringMap)
        ensures
            m@ == Entries::empty(),
    {
        let m = StringMap { entries: Vec::new() };
        assert(m@ =~= Entries::empty());
        m
    }

    /// The number of entries.
    pub fn len(&self) -> (n: usize)
        ensures
            n == self@.len(),
            distinct_keys(self@),
    {
        proof {
            use_type_invariant(self);
        }
        self.entries.len()
    }

    /// Whether the mapping has no entry.
    pub fn is_empty(&self) -> (r: bool)
        ensures
            r == (self@.len() == 0),
    {
        self.entries.len() == 0
    }

    /// The key of the entry at position `i`.
    pub fn key_at(&self, i: usize) -> (k: &str)
        requires
            i < self@.len(),
        ensures
            k@ == self@[i as int].0,
    {
        self.entries[i].0.as_str()
    }

    /// The value of the entry at position `i`.
    pub fn value_at(&self, i: usize) -> (v: &str)
        requires
            i < self@.len(),
        ensures
            v@ == self@[i as int].1,
    {
        self.entries[i].1.as_str()
    }

    /// The position of the entry with `key`, or the number of entries where
    /// there is none.
    fn position(&self, key: &str) -> (i: usize)
        ensures
            i == index_of(self@, key@),
            i <= self@.len(),
    {
        let mut i: usize = 0;
        proof {
            lemma_index_of(self@, key@);
        }
        while i < self.entries.len()
            invariant
                i <= self.entries.len(),
                self.entries.len() == self@.len(),
                forall|j: int| 0 <= j < i ==> (#[trigger] self@[j]).0 != key@,
                0 <= index_of(self@, key@) <= self@.len(),
                index_of(self@, key@) < self@.len() ==> self@[index_of(self@, key@)].0 == key@,
                forall|j: int|
                    0 <= j < index_of(self@, key@) ==> (#[trigger] self@[j]).0 != key@,
            decreases self.entries.len() - i,
        {
            if same_text(self.entries[i].0.as_str(), key) {
                assert(self@[i as int].0 == key@);
                return i;
            }
            i += 1;
        }
        i
    }

    /// The value stored under `key`, if any.
    pub fn get(&self, key: &str) -> (r: Option<&str>)
        ensures
            r.deep_view() == value_of(self@, key@),
    {
        let i = self.position(key);
        if i < self.entries.len() {
            Some(self.entries[i].1.as_str())
        } else {
            None
        }
    }

    /// Sets `key` to `value`. A key that is already there keeps its place and
    /// takes the new value; a new key goes to the end.
    pub fn insert(&mut self, key: String, value: String)
        ensures
            final(self)@ == inserted(old(self)@, key@, value@),
    {
        proof {
            use_type_invariant(&*self);
            lemma_inserted_distinct(self@, key@, value@);
        }
        let i = self.position(key.as_str());
        let ghost before = self@;
        let mut entries: Vec<(String, String)> = Vec::new();
        core::mem::swap(&mut self.entries, &mut entries);
        if i < entries.len() {
            entries.set(i, (key, value));
        } else {
            entries.push((key, value));
        }
        let ghost after = Seq::new(entries@.len(), |j: int| (entries@[j].0@, entries@[j].1@));
        assert(after =~= inserted(before, key@, value@));
        core::mem::swap(&mut self.entries, &mut entries);
        assert(self@ =~= after);
    }
}

impl Clone for StringMap {
    fn clone(&self) -> (r: Self)
        ensures
            r@ == self@,
    {
        proof {
            use_type_invariant(self);
        }
        let mut entries: Vec<(String, String)> = Vec::new();
        let mut i: usize = 0;
        while i < self.entries.len()
            invariant
                i <= self.entries.len(),
                entries.len() == i,
                forall|j: int|
                    0 <= j < i ==> (#[trigger] entries@[j]).0@ == self.entries@[j].0@
                        && entries@[j].1@ == self.entries@[j].1@,
            decreases self.entries.len() - i,
        {
            let key = self.entries[i].0.clone();
            let value = self.entries[i].1.clone();
            entries.push((key, value));
            i += 1;
        }
        let ghost copy = Seq::new(entries@.len(), |j: int| (entries@[j].0@, entries@[j].1@));
        assert(copy =~= self@);
        StringMap { entries }
    }
}

} // verus!
