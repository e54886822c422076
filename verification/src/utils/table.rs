//! A small map from strings to values, kept as a list of entries in which no
//! key occurs twice. Its entries can be walked by position, in the order in
//! which their keys first arrived.

use crate::utils::text::same_text;
use vstd::prelude::*;

verus! {

/// One key with its value.
pub struct Entry<V> {
    pub key: String,
    pub value: V,
}

/// No two entries of `s` share a key.
pub open spec fn keys_distinct<V>(s: Seq<Entry<V>>) -> bool {
    forall|i: int, j: int| 0 <= i < j < s.len() ==> s[i].key@ != s[j].key@
}

/// Some entry of `s` has the key `k`.
pub open spec fn has_key<V>(s: Seq<Entry<V>>, k: Seq<char>) -> bool {
    exists|i: int| 0 <= i < s.len() && s[i].key@ == k
}

/// The position of an entry of `s` with the key `k`.
pub open spec fn index_of<V>(s: Seq<Entry<V>>, k: Seq<char>) -> int {
    choose|i: int| 0 <= i < s.len() && s[i].key@ == k
}

/// The map that the entries `s` stand for.
pub open spec fn model_of<V>(s: Seq<Entry<V>>) -> Map<Seq<char>, V> {
    Map::new(|k: Seq<char>| has_key(s, k), |k: Seq<char>| s[index_of(s, k)].value)
}

proof fn lemma_index<V>(s: Seq<Entry<V>>, i: int)
    requires
        keys_distinct(s),
        0 <= i < s.len(),
    ensures
        has_key(s, s[i].key@),
        index_of(s, s[i].key@) == i,
        model_of(s).contains_key(s[i].key@),
        model_of(s)[s[i].key@] == s[i].value,
{
    let j = index_of(s, s[i].key@);
    assert(0 <= j < s.len() && s[j].key@ == s[i].key@);
    if j < i {
        assert(s[j].key@ != s[i].key@);
    } else if i < j {
        assert(s[i].key@ != s[j].key@);
    }
}

proof fn lemma_push<V>(s: Seq<Entry<V>>, e: Entry<V>)
    requires
        keys_distinct(s),
        !has_key(s, e.key@),
    ensures
        keys_distinct(s.push(e)),
        model_of(s.push(e)) == model_of(s).insert(e.key@, e.value),
{
    let t = s.push(e);
    assert forall|i: int, j: int| 0 <= i < j < t.len() implies t[i].key@ != t[j].key@ by {
        if j == s.len() {
            assert(t[i] == s[i]);
            if t[i].key@ == e.key@ {
                assert(has_key(s, e.key@));
            }
        }
    }
    assert forall|k: Seq<char>| #[trigger] model_of(t).contains_key(k) == model_of(s).insert(
        e.key@,
        e.value,
    ).contains_key(k) by {
        if has_key(t, k) {
            let i = index_of(t, k);
            if i < s.len() {
                assert(s[i].key@ == k);
            }
        }
        if has_key(s, k) {
            let i = index_of(s, k);
            assert(t[i].key@ == k);
        }
        if k == e.key@ {
            assert(t[s.len() as int].key@ == k);
        }
    }
    assert forall|k: Seq<char>| model_of(t).contains_key(k) implies #[trigger] model_of(t)[k]
        == model_of(s).insert(e.key@, e.value)[k] by {
        let i = index_of(t, k);
        lemma_index(t, i);
        if i < s.len() {
            assert(t[i] == s[i]);
            lemma_index(s, i);
        }
    }
    assert(model_of(t) =~= model_of(s).insert(e.key@, e.value));
}

proof fn lemma_update<V>(s: Seq<Entry<V>>, i: int, e: Entry<V>)
    requires
        keys_distinct(s),
        0 <= i < s.len(),
        e.key@ == s[i].key@,
    ensures
        keys_distinct(s.update(i, e)),
        model_of(s.update(i, e)) == model_of(s).insert(e.key@, e.value),
{
    let t = s.update(i, e);
    assert forall|a: int, b: int| 0 <= a < b < t.len() implies t[a].key@ != t[b].key@ by {
        assert(t[a].key@ == s[a].key@);
        assert(t[b].key@ == s[b].key@);
    }
    assert forall|k: Seq<char>| #[trigger] model_of(t).contains_key(k) == model_of(s).insert(
        e.key@,
        e.value,
    ).contains_key(k) by {
        if has_key(t, k) {
            let j = index_of(t, k);
            assert(s[j].key@ == k);
        }
        if has_key(s, k) {
            let j = index_of(s, k);
            assert(t[j].key@ == k);
        }
        if k == e.key@ {
            assert(t[i].key@ == k);
        }
    }
    assert forall|k: Seq<char>| model_of(t).contains_key(k) implies #[trigger] model_of(t)[k]
        == model_of(s).insert(e.key@, e.value)[k] by {
        let j = index_of(t, k);
        lemma_index(t, j);
        if j != i {
            assert(t[j] == s[j]);
            lemma_index(s, j);
        }
    }
    assert(model_of(t) =~= model_of(s).insert(e.key@, e.value));
}

proof fn lemma_remove<V>(s: Seq<Entry<V>>, i: int)
    requires
        keys_distinct(s),
        0 <= i < s.len(),
    ensures
        keys_distinct(s.remove(i)),
        model_of(s.remove(i)) == model_of(s).remove(s[i].key@),
{
    let t = s.remove(i);
    assert forall|a: int, b: int| 0 <= a < b < t.len() implies t[a].key@ != t[b].key@ by {
        let a0 = if a < i {
            a
        } else {
            a + 1
        };
        let b0 = if b < i {
            b
        } else {
            b + 1
        };
        assert(t[a] == s[a0]);
        assert(t[b] == s[b0]);
    }
    assert forall|k: Seq<char>| #[trigger] model_of(t).contains_key(k) == model_of(s).remove(
        s[i].key@,
    ).contains_key(k) by {
        if has_key(t, k) {
            let j = index_of(t, k);
            let j0 = if j < i {
                j
            } else {
                j + 1
            };
            assert(t[j] == s[j0]);
            assert(s[j0].key@ == k);
            if j0 < i {
                assert(s[j0].key@ != s[i].key@);
            } else {
                assert(s[i].key@ != s[j0].key@);
            }
        }
        if has_key(s, k) && k != s[i].key@ {
            let j = index_of(s, k);
            let j1 = if j < i {
                j
            } else {
                j - 1
            };
            assert(t[j1] == s[j]);
            assert(t[j1].key@ == k);
        }
    }
    assert forall|k: Seq<char>| model_of(t).contains_key(k) implies #[trigger] model_of(t)[k]
        == model_of(s).remove(s[i].key@)[k] by {
        let j = index_of(t, k);
        lemma_index(t, j);
        let j0 = if j < i {
            j
        } else {
            j + 1
        };
        assert(t[j] == s[j0]);
        lemma_index(s, j0);
    }
    assert(model_of(t) =~= model_of(s).remove(s[i].key@));
}

proof fn lemma_count<V>(s: Seq<Entry<V>>)
    requires
        keys_distinct(s),
    ensures
        model_of(s).dom().finite(),
        model_of(s).dom().len() == s.len(),
    decreases s.len(),
{
    if s.len() == 0 {
        assert(model_of(s).dom() =~= Set::<Seq<char>>::empty());
    } else {
        let last = s.len() - 1;
        let t = s.remove(last);
        lemma_remove(s, last);
        lemma_count(t);
        lemma_index(s, last);
        assert(model_of(s).dom() =~= model_of(t).dom().insert(s[last].key@));
        assert(!model_of(t).dom().contains(s[last].key@));
    }
}

proof fn lemma_absent<V>(s: Seq<Entry<V>>, k: Seq<char>)
    requires
        forall|i: int| 0 <= i < s.len() ==> (#[trigger] s[i]).key@ != k,
    ensures
        !has_key(s, k),
        !model_of(s).contains_key(k),
{
}

/// A map from strings to values of type `V`.
pub struct StringTable<V> {
    entries: Vec<Entry<V>>,
}

impl<V> View for StringTable<V> {
    type V = Map<Seq<char>, V>;

    closed spec fn view(&self) -> Map<Seq<char>, V> {
        model_of(self.entries@)
    }
}

impl<V> StringTable<V> {
    #[verifier::type_invariant]
    closed spec fn inv(&self) -> bool {
        keys_distinct(self.entries@)
    }

    /// The number of entries.
    pub closed spec fn spec_len(&self) -> nat {
        self.entries@.len()
    }

    /// The key at position `i`.
    pub closed spec fn spec_key(&self, i: int) -> Seq<char> {
        self.entries@[i].key@
    }

    /// The value at position `i`.
    pub closed spec fn spec_value(&self, i: int) -> V {
        self.entries@[i].value
    }

    /// How the positions relate to the map: every position holds one entry of
    /// the map, no key stands at two positions, and every key of the map
    /// stands at some position.
    pub open spec fn listed(&self) -> bool {
        &&& self@.dom().finite()
        &&& self@.dom().len() == self.spec_len()
        &&& forall|i: int|
            0 <= i < self.spec_len() ==> self@.contains_key(#[trigger] self.spec_key(i))
                && self@[self.spec_key(i)] == self.spec_value(i)
        &&& forall|i: int, j: int|
            0 <= i < j < self.spec_len() ==> self.spec_key(i) != self.spec_key(j)
        &&& forall|k: Seq<char>|
            self@.contains_key(k) ==> exists|i: int|
                0 <= i < self.spec_len() && #[trigger] self.spec_key(i) == k
    }

    proof fn lemma_listed(&self)
        requires
            keys_distinct(self.entries@),
        ensures
            self.listed(),
    {
        let s = self.entries@;
        lemma_count(s);
        assert forall|i: int| 0 <= i < self.spec_len() implies self@.contains_key(
            #[trigger] self.spec_key(i),
        ) && self@[self.spec_key(i)] == self.spec_value(i) by {
            lemma_index(s, i);
        }
        assert forall|k: Seq<char>| self@.contains_key(k) implies exists|i: int|
            0 <= i < self.spec_len() && #[trigger] self.spec_key(i) == k by {
            let i = index_of(s, k);
            assert(0 <= i < self.spec_len() && self.spec_key(i) == k);
        }
    }

    /// An empty table.
    pub fn new() -> (r: Self)
        ensures
            r@ == Map::<Seq<char>, V>::empty(),
            r.spec_len() == 0,
    {
        let r = StringTable { entries: Vec::new() };
        assert(r@ =~= Map::<Seq<char>, V>::empty());
        r
    }

    /// The number of entries.
    pub fn len(&self) -> (r: usize)
        ensures
            r == self.spec_len(),
            self.listed(),
    {
        proof {
            use_type_invariant(self);
            self.lemma_listed();
        }
        self.entries.len()
    }

    fn find(&self, key: &str) -> (r: Option<usize>)
        ensures
            keys_distinct(self.entries@),
            match r {
                Some(i) => i < self.entries@.len() && self.entries@[i as int].key@ == key@
                    && self@.contains_key(key@) && self@[key@] == self.entries@[i as int].value,
                None => !self@.contains_key(key@) && !has_key(self.entries@, key@),
            },
    {
        proof {
            use_type_invariant(self);
        }
        let mut i: usize = 0;
        while i < self.entries.len()
            invariant
                i <= self.entries@.len(),
                keys_distinct(self.entries@),
                forall|j: int| 0 <= j < i ==> (#[trigger] self.entries@[j]).key@ != key@,
            decreases self.entries@.len() - i,
        {
            if same_text(self.entries[i].key.as_str(), key) {
                proof {
                    lemma_index(self.entries@, i as int);
                }
                return Some(i);
            }
            i = i + 1;
        }
        proof {
            lemma_absent(self.entries@, key@);
        }
        None
    }

    /// Whether `key` has a value.
    pub fn contains_key(&self, key: &str) -> (r: bool)
        ensures
            r == self@.contains_key(key@),
    {
        self.find(key).is_some()
    }

    /// The value of `key`, if it has one.
    pub fn get(&self, key: &str) -> (r: Option<&V>)
        ensures
            match r {
                Some(v) => self@.contains_key(key@) && *v == self@[key@],
                None => !self@.contains_key(key@),
            },
    {
        match self.find(key) {
            Some(i) => Some(&self.entries[i].value),
            None => None,
        }
    }

    /// Gives `key` the value `value`, in place of the one it had, if any. A
    /// key that is new goes behind the last position.
    pub fn insert(&mut self, key: String, value: V)
        ensures
            final(self)@ == old(self)@.insert(key@, value),
    {
        let found = self.find(key.as_str());
        let entry = Entry { key, value };
        let mut entries: Vec<Entry<V>> = Vec::new();
        core::mem::swap(&mut entries, &mut self.entries);
        match found {
            Some(i) => {
                proof {
                    lemma_update(entries@, i as int, entry);
                }
                entries.set(i, entry);
            },
            None => {
                proof {
                    lemma_push(entries@, entry);
                }
                entries.push(entry);
            },
        }
        self.entries = entries;
    }

    /// Takes `key` and its value out of the table.
    pub fn remove(&mut self, key: &str) -> (r: Option<V>)
        ensures
            final(self)@ == old(self)@.remove(key@),
            match r {
                Some(v) => old(self)@.contains_key(key@) && v == old(self)@[key@],
                None => !old(self)@.contains_key(key@),
            },
    {
        match self.find(key) {
            Some(i) => {
                proof {
                    lemma_remove(self.entries@, i as int);
                }
                let mut entries: Vec<Entry<V>> = Vec::new();
                core::mem::swap(&mut entries, &mut self.entries);
                let entry = entries.remove(i);
                self.entries = entries;
                Some(entry.value)
            },
            None => {
                assert(self@ =~= old(self)@.remove(key@));
                None
            },
        }
    }

    /// Takes every entry out of the table.
    pub fn clear(&mut self)
        ensures
            final(self)@ == Map::<Seq<char>, V>::empty(),
            final(self).spec_len() == 0,
    {
        self.entries = Vec::new();
        assert(self@ =~= Map::<Seq<char>, V>::empty());
    }

    /// The key at position `i`.
    pub fn key_at(&self, i: usize) -> (r: &String)
        requires
            i < self.spec_len(),
        ensures
            r@ == self.spec_key(i as int),
    {
        &self.entries[i].key
    }

    /// The value at position `i`.
    pub fn value_at(&self, i: usize) -> (r: &V)
        requires
            i < self.spec_len(),
        ensures
            *r == self.spec_value(i as int),
    {
        &self.entries[i].value
    }
}

} // verus!
