//! The directives of one event as a mapping from keys to values.
//!
//! The mapping keeps the order in which its keys first came. Its keys are
//! unique and in lower case.

use vstd::prelude::*;

verus! {

/// A directive as a mathematical value: its key and its value.
pub type Entry = (Seq<char>, Seq<char>);

/// The position of the entry with the given key, looked for from `from` on.
pub open spec fn position_of(entries: Seq<Entry>, key: Seq<char>, from: int) -> Option<int>
    decreases entries.len() - from,
{
    if from < 0 || from >= entries.len() {
        None
    } else if entries[from].0 == key {
        Some(from)
    } else {
        position_of(entries, key, from + 1)
    }
}

/// The value that the entries give to `key`.
pub open spec fn lookup(entries: Seq<Entry>, key: Seq<char>) -> Option<Seq<char>> {
    match position_of(entries, key, 0) {
        Some(i) => Some(entries[i].1),
        None => None,
    }
}

/// The entries after `key` is set to `value`: a key that is present keeps its
/// place and takes the new value, a new key goes to the end.
pub open spec fn upsert(entries: Seq<Entry>, key: Seq<char>, value: Seq<char>) -> Seq<Entry> {
    match position_of(entries, key, 0) {
        Some(i) => entries.update(i, (key, value)),
        None => entries.push((key, value)),
    }
}

/// No key occurs twice.
pub open spec fn keys_unique(entries: Seq<Entry>) -> bool {
    forall|i: int, j: int|
        0 <= i < j < entries.len() ==> (#[trigger] entries[i]).0 != (#[trigger] entries[j]).0
}

/// The mapping that the entries stand for.
pub open spec fn entries_map(entries: Seq<Entry>) -> Map<Seq<char>, Seq<char>> {
    Map::new(
        |key: Seq<char>| lookup(entries, key) is Some,
        |key: Seq<char>| lookup(entries, key)->0,
    )
}

/// What `position_of` returns is the first entry with the key, and it
/// returns one whenever the key is present from `from` on.
pub proof fn lemma_position_of(entries: Seq<Entry>, key: Seq<char>, from: int)
    requires
        0 <= from,
    ensures
        match position_of(entries, key, from) {
            Some(i) => from <= i < entries.len() && entries[i].0 == key && forall|k: int|
                from <= k < i ==> (#[trigger] entries[k]).0 != key,
            None => forall|k: int| from <= k < entries.len() ==> (#[trigger] entries[k]).0 != key,
        },
    decreases entries.len() - from,
{
    if from < entries.len() && entries[from].0 != key {
        lemma_position_of(entries, key, from + 1);
    }
}

/// Setting a key keeps the keys unique.
pub proof fn lemma_upsert_keeps_unique(entries: Seq<Entry>, key: Seq<char>, value: Seq<char>)
    requires
        keys_unique(entries),
    ensures
        keys_unique(upsert(entries, key, value)),
{
    lemma_position_of(entries, key, 0);
    let after = upsert(entries, key, value);
    assert forall|i: int, j: int| 0 <= i < j < after.len() implies (#[trigger] after[i]).0 != (
    #[trigger] after[j]).0 by {}
}

/// Names what `str::to_lowercase` returns for a text: its lower-case form by
/// the Unicode case mappings.
pub uninterp spec fn lowercase_of(s: Seq<char>) -> Seq<char>;

/// The lower-case form of `s`, by `str::to_lowercase`.
#[verifier::external_body]
pub(crate) fn lowercase(s: &str) -> (r: String)
    ensures
        r@ == lowercase_of(s@),
{
    s.to_lowercase()
}

/// Whether `key` is the lower-case form of some text.
pub open spec fn is_lowercased(key: Seq<char>) -> bool {
    exists|s: Seq<char>| key == lowercase_of(s)
}

/// Every key is the lower-case form of some text.
pub open spec fn keys_lowercased(entries: Seq<Entry>) -> bool {
    forall|i: int| 0 <= i < entries.len() ==> is_lowercased((#[trigger] entries[i]).0)
}

/// Setting a lower-case key keeps the keys in lower case.
pub proof fn lemma_upsert_keeps_lowercased(entries: Seq<Entry>, key: Seq<char>, value: Seq<char>)
    requires
        keys_lowercased(entries),
        is_lowercased(key),
    ensures
        keys_lowercased(upsert(entries, key, value)),
{
    lemma_position_of(entries, key, 0);
    let after = upsert(entries, key, value);
    assert forall|i: int| 0 <= i < after.len() implies is_lowercased((#[trigger] after[i]).0) by {}
}

/// The directives of one event, in the order in which their keys first came.
pub struct Directives {
    entries: Vec<(String, String)>,
}

impl Directives {
    /// The directives as a sequence of keys and values.
    pub closed spec fn entries(&self) -> Seq<Entry> {
        self.entries@.map_values(|e: (String, String)| (e.0@, e.1@))
    }

    /// No key occurs twice, and every key is in lower case.
    #[verifier::type_invariant]
    spec fn well_formed(self) -> bool {
        keys_unique(self.entries()) && keys_lowercased(self.entries())
    }

    /// No directives.
    pub fn new() -> (d: Self)
        ensures
            d.entries() == Seq::<Entry>::empty(),
    {
        Directives { entries: Vec::new() }
    }

    /// Says what holds of every mapping: no key occurs twice, and every key
    /// is in lower case.
    pub fn keys_are_well_formed(&self)
        ensures
            keys_unique(self.entries()),
            keys_lowercased(self.entries()),
    {
        proof {
            use_type_invariant(self);
        }
    }

    /// The number of directives.
    pub fn len(&self) -> (n: usize)
        ensures
            n == self.entries().len(),
    {
        self.entries.len()
    }

    /// The key of the directive at position `i`.
    pub fn key_at(&self, i: usize) -> (key: &String)
        requires
            i < self.entries().len(),
        ensures
            key@ == self.entries()[i as int].0,
    {
        &self.entries[i].0
    }

    /// The value of the directive at position `i`.
    pub fn value_at(&self, i: usize) -> (value: &String)
        requires
            i < self.entries().len(),
        ensures
            value@ == self.entries()[i as int].1,
    {
        &self.entries[i].1
    }

    /// The position of the directive with the given key.
    fn position(&self, key: &String) -> (r: Option<usize>)
        ensures
            match r {
                Some(i) => position_of(self.entries(), key@, 0) == Some(i as int),
                None => position_of(self.entries(), key@, 0) is None,
            },
    {
        let mut i: usize = 0;
        while i < self.entries.len()
            invariant
                i <= self.entries().len(),
                self.entries().len() == self.entries@.len(),
                position_of(self.entries(), key@, 0) == position_of(self.entries(), key@, i as int),
            decreases self.entries.len() - i,
        {
            if self.entries[i].0 == *key {
                return Some(i);
            }
            i += 1;
        }
        None
    }

    /// The value of the directive with the given key.
    pub fn get(&self, key: &str) -> (r: Option<&String>)
        ensures
            r is Some == self@.contains_key(key@),
            match r {
                Some(value) => lookup(self.entries(), key@) == Some(value@) && self@[key@]
                    == value@,
                None => lookup(self.entries(), key@) is None,
            },
    {
        let owned = key.to_owned();
        match self.position(&owned) {
            Some(i) => {
                proof {
                    lemma_position_of(self.entries(), key@, 0);
                }
                Some(&self.entries[i].1)
            },
            None => None,
        }
    }

    /// The mapping with `key` set to `value`: a key that is present keeps its
    /// place and takes the new value, a new key goes to the end.
    pub(crate) fn with(self, key: String, value: String) -> (d: Directives)
        requires
            is_lowercased(key@),
        ensures
            d.entries() == upsert(self.entries(), key@, value@),
    {
        proof {
            use_type_invariant(&self);
            lemma_position_of(self.entries(), key@, 0);
            lemma_upsert_keeps_unique(self.entries(), key@, value@);
            lemma_upsert_keeps_lowercased(self.entries(), key@, value@);
        }
        let ghost after = upsert(self.entries(), key@, value@);
        let found = self.position(&key);
        let mut entries = self.entries;
        match found {
            Some(i) => {
                entries.set(i, (key, value));
            },
            None => {
                entries.push((key, value));
            },
        }
        assert(entries@.map_values(|e: (String, String)| (e.0@, e.1@)) =~= after);
        Directives { entries }
    }
}

impl View for Directives {
    type V = Map<Seq<char>, Seq<char>>;

    open spec fn view(&self) -> Map<Seq<char>, Seq<char>> {
        entries_map(self.entries())
    }
}

} // verus!
