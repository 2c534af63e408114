//! String-keyed attribute maps, kept in the order in which their keys first came.

use crate::text::str_eq;
use crate::value::{Value, ValueView};
use vstd::prelude::*;

verus! {

/// Mathematical model of an attribute map: its keys and values in order.
pub type Entries = Seq<(Seq<char>, ValueView)>;

/// The index of the first entry with the given key, or the number of entries if no
/// entry has it.
pub open spec fn position(entries: Entries, key: Seq<char>) -> int
    decreases entries.len(),
{
    if entries.len() == 0 {
        0
    } else if entries[0].0 == key {
        0
    } else {
        1 + position(entries.drop_first(), key)
    }
}

/// The value stored under a key.
pub open spec fn lookup(entries: Entries, key: Seq<char>) -> Option<ValueView> {
    let at = position(entries, key);
    if at < entries.len() {
        Some(entries[at].1)
    } else {
        None
    }
}

/// The entries after a value is stored under a key: the value of an entry with that
/// key is replaced, and a new key goes to the end.
pub open spec fn put(entries: Entries, key: Seq<char>, value: ValueView) -> Entries {
    let at = position(entries, key);
    if at < entries.len() {
        entries.update(at, (key, value))
    } else {
        entries.push((key, value))
    }
}

/// No key occurs twice.
pub open spec fn distinct_keys(entries: Entries) -> bool {
    forall|i: int, j: int|
        0 <= i < entries.len() && 0 <= j < entries.len() && i != j ==> entries[i].0
            != entries[j].0
}

/// What `position` returns: the least index that holds the key.
pub proof fn lemma_position(entries: Entries, key: Seq<char>)
    ensures
        0 <= position(entries, key) <= entries.len(),
        forall|k: int| 0 <= k < position(entries, key) ==> (#[trigger] entries[k]).0 != key,
        position(entries, key) < entries.len() ==> entries[position(entries, key)].0 == key,
    decreases entries.len(),
{
    if entries.len() > 0 && entries[0].0 != key {
        let rest = entries.drop_first();
        lemma_position(rest, key);
        assert forall|k: int| 0 <= k < position(entries, key) implies (#[trigger] entries[k]).0
            != key by {
            if k > 0 {
                assert(rest[k - 1] == entries[k]);
            }
        }
    }
}

/// An index that holds the key, after indices that do not, is its position.
pub proof fn lemma_position_is(entries: Entries, key: Seq<char>, at: int)
    requires
        0 <= at <= entries.len(),
        forall|k: int| 0 <= k < at ==> (#[trigger] entries[k]).0 != key,
        at < entries.len() ==> entries[at].0 == key,
    ensures
        position(entries, key) == at,
{
    lemma_position(entries, key);
    let p = position(entries, key);
    if p < at {
        assert(entries[p].0 != key);
    } else if at < p {
        assert(entries[at].0 != key);
    }
}

/// Storing a value keeps the keys distinct, and the value is then found under its key.
pub proof fn lemma_put(entries: Entries, key: Seq<char>, value: ValueView)
    ensures
        lookup(put(entries, key, value), key) == Some(value),
        distinct_keys(entries) ==> distinct_keys(put(entries, key, value)),
        forall|other: Seq<char>|
            other != key ==> lookup(put(entries, key, value), other) == lookup(entries, other),
{
    lemma_position(entries, key);
    let at = position(entries, key);
    let after = put(entries, key, value);
    lemma_position_is(after, key, at);
    assert forall|other: Seq<char>| other != key implies lookup(after, other) == lookup(
        entries,
        other,
    ) by {
        lemma_position(entries, other);
        let p = position(entries, other);
        let q = if p < entries.len() {
            p
        } else {
            after.len() as int
        };
        assert forall|k: int| 0 <= k < q implies (#[trigger] after[k]).0 != other by {
            if k < entries.len() && k != at {
                assert(after[k] == entries[k]);
            }
        }
        if p < entries.len() {
            assert(entries[at].0 == key || at == entries.len());
            assert(after[p] == entries[p]);
        }
        lemma_position_is(after, other, q);
    }
}

/// A string-keyed map of values.
#[derive(Debug, PartialEq, Eq)]
pub struct AttrMap {
    entries: Vec<(String, Value)>,
}

impl DeepView for AttrMap {
    type V = Entries;

    closed spec fn deep_view(&self) -> Entries {
        self.entries.deep_view()
    }
}

impl View for AttrMap {
    type V = Entries;

    open spec fn view(&self) -> Entries {
        self.deep_view()
    }
}

impl AttrMap {
    /// No key occurs twice.
    pub open spec fn wf(&self) -> bool {
        distinct_keys(self@)
    }

    /// A map without entries.
    pub fn new() -> (map: AttrMap)
        ensures
            map@ == Seq::<(Seq<char>, ValueView)>::empty(),
            map.wf(),
    {
        let map = AttrMap { entries: Vec::new() };
        assert(map@ =~= Seq::<(Seq<char>, ValueView)>::empty());
        map
    }

    /// The number of entries.
    pub fn len(&self) -> (n: usize)
        ensures
            n == self@.len(),
    {
        self.entries.len()
    }

    /// The key and the value of the entry at an index.
    pub fn entry(&self, index: usize) -> (found: Option<(&str, &Value)>)
        ensures
            match found {
                Some((key, value)) => index < self@.len() && (key@, value@) == self@[index as int],
                None => index >= self@.len(),
            },
    {
        if index < self.entries.len() {
            let pair = &self.entries[index];
            Some((pair.0.as_str(), &pair.1))
        } else {
            None
        }
    }

    fn find(&self, key: &str) -> (at: usize)
        ensures
            at == position(self@, key@),
            at <= self.entries@.len(),
    {
        let mut i: usize = 0;
        while i < self.entries.len()
            invariant
                i <= self.entries@.len(),
                forall|k: int| 0 <= k < i ==> (#[trigger] self@[k]).0 != key@,
            decreases self.entries.len() - i,
        {
            if str_eq(self.entries[i].0.as_str(), key) {
                proof {
                    lemma_position_is(self@, key@, i as int);
                }
                return i;
            }
            i += 1;
        }
        proof {
            lemma_position_is(self@, key@, i as int);
        }
        i
    }

    /// The value stored under a key.
    pub fn get(&self, key: &str) -> (found: Option<&Value>)
        ensures
            match found {
                Some(value) => lookup(self@, key@) == Some(value@),
                None => lookup(self@, key@) is None,
            },
    {
        let at = self.find(key);
        if at < self.entries.len() {
            Some(&self.entries[at].1)
        } else {
            None
        }
    }

    /// Whether a value is stored under a key.
    pub fn contains_key(&self, key: &str) -> (found: bool)
        ensures
            found == lookup(self@, key@) is Some,
    {
        let at = self.find(key);
        at < self.entries.len()
    }

    /// Stores a value under a key, in place of the value that the key had.
    pub fn insert(&mut self, key: String, value: Value)
        ensures
            final(self)@ == put(old(self)@, key@, value@),
            old(self).wf() ==> final(self).wf(),
    {
        let at = self.find(key.as_str());
        proof {
            lemma_put(self@, key@, value@);
        }
        if at < self.entries.len() {
            self.entries.set(at, (key, value));
        } else {
            self.entries.push((key, value));
        }
        assert(self@ =~= put(old(self)@, key@, value@));
    }
}

impl Clone for AttrMap {
    fn clone(&self) -> (copy: AttrMap)
        ensures
            copy@ == self@,
    {
        let mut entries: Vec<(String, Value)> = Vec::new();
        let mut i: usize = 0;
        while i < self.entries.len()
            invariant
                i <= self.entries@.len(),
                entries@.len() == i,
                forall|k: int| 0 <= k < i ==> entries@[k].deep_view() == self.entries@[k].deep_view(),
            decreases self.entries.len() - i,
        {
            let key = self.entries[i].0.clone();
            let value = self.entries[i].1.clone();
            entries.push((key, value));
            i += 1;
        }
        let copy = AttrMap { entries };
        assert(copy@ =~= self@);
        copy
    }
}

} // verus!
