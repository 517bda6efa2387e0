use vstd::prelude::*;

use crate::text::{
    lemma_text_lt_irreflexive, lemma_text_lt_total, lemma_text_lt_transitive, str_equals, text_less,
    text_lt,
};

verus! {

/// An ordered map from text keys to values, as a sorted list of entries.
/// Its entries are kept in strictly ascending key order (the order of
/// `String`), so each key occurs once and iteration follows key order.
pub struct StrMap<V> {
    pub entries: Vec<(String, V)>,
}

/// Keys strictly ascending along the list.
pub open spec fn keys_sorted<V>(s: Seq<(Seq<char>, V)>) -> bool {
    forall|i: int, j: int| 0 <= i < j < s.len() ==> text_lt(#[trigger] s[i].0, #[trigger] s[j].0)
}

/// The value stored under key `k`, looking from the front.
pub open spec fn lookup<V>(s: Seq<(Seq<char>, V)>, k: Seq<char>) -> Option<V>
    decreases s.len(),
{
    if s.len() == 0 {
        None
    } else if s[0].0 == k {
        Some(s[0].1)
    } else {
        lookup(s.drop_first(), k)
    }
}

/// Position of the first entry whose key is not below `k`.
pub open spec fn first_not_below<V>(s: Seq<(Seq<char>, V)>, k: Seq<char>) -> int
    decreases s.len(),
{
    if s.len() == 0 {
        0
    } else if !text_lt(s[0].0, k) {
        0
    } else {
        1 + first_not_below(s.drop_first(), k)
    }
}

/// The entries after storing `v` under `key`: the entry with that key is
/// replaced, or a new entry goes where the key order puts it.
pub open spec fn insert_entry<V>(s: Seq<(Seq<char>, V)>, key: Seq<char>, v: V) -> Seq<(Seq<char>, V)> {
    let i = first_not_below(s, key);
    if i < s.len() && s[i].0 == key {
        s.update(i, (key, v))
    } else {
        s.insert(i, (key, v))
    }
}

/// The values of the entries, in key order.
pub open spec fn entry_values<V>(s: Seq<(Seq<char>, V)>) -> Seq<V> {
    s.map_values(|e: (Seq<char>, V)| e.1)
}

pub proof fn lemma_sorted_drop_first<V>(s: Seq<(Seq<char>, V)>)
    requires
        keys_sorted(s),
        s.len() > 0,
    ensures
        keys_sorted(s.drop_first()),
{
    assert forall|i: int, j: int| 0 <= i < j < s.drop_first().len() implies text_lt(
        #[trigger] s.drop_first()[i].0,
        #[trigger] s.drop_first()[j].0,
    ) by {
        assert(text_lt(s[i + 1].0, s[j + 1].0));
    }
}

/// In a sorted list, the lookup of a key finds the entry that holds it.
pub proof fn lemma_lookup_at<V>(s: Seq<(Seq<char>, V)>, i: int)
    requires
        keys_sorted(s),
        0 <= i < s.len(),
    ensures
        lookup(s, s[i].0) == Some(s[i].1),
    decreases i,
{
    if i > 0 {
        assert(text_lt(s[0].0, s[i].0));
        lemma_text_lt_irreflexive(s[i].0);
        lemma_sorted_drop_first(s);
        lemma_lookup_at(s.drop_first(), i - 1);
    }
}

/// The lookup of a key that no entry holds finds nothing.
pub proof fn lemma_lookup_absent<V>(s: Seq<(Seq<char>, V)>, k: Seq<char>)
    requires
        forall|i: int| 0 <= i < s.len() ==> (#[trigger] s[i]).0 != k,
    ensures
        lookup(s, k) is None,
    decreases s.len(),
{
    if s.len() > 0 {
        assert(s[0].0 != k);
        assert forall|i: int| 0 <= i < s.drop_first().len() implies (
        #[trigger] s.drop_first()[i]).0 != k by {
            assert(s[i + 1].0 != k);
        }
        lemma_lookup_absent(s.drop_first(), k);
    }
}

pub proof fn lemma_first_not_below<V>(s: Seq<(Seq<char>, V)>, k: Seq<char>, i: int)
    requires
        0 <= i <= s.len(),
        forall|j: int| 0 <= j < i ==> text_lt((#[trigger] s[j]).0, k),
        i == s.len() || !text_lt(s[i].0, k),
    ensures
        first_not_below(s, k) == i,
    decreases i,
{
    if i > 0 {
        assert(text_lt(s[0].0, k));
        assert forall|j: int| 0 <= j < i - 1 implies text_lt((#[trigger] s.drop_first()[j]).0, k) by {
            assert(text_lt(s[j + 1].0, k));
        }
        lemma_first_not_below(s.drop_first(), k, i - 1);
    }
}

/// Storing keeps the entries sorted.
pub proof fn lemma_insert_sorted<V>(s: Seq<(Seq<char>, V)>, key: Seq<char>, v: V, i: int)
    requires
        keys_sorted(s),
        0 <= i <= s.len(),
        forall|j: int| 0 <= j < i ==> text_lt((#[trigger] s[j]).0, key),
        i == s.len() || !text_lt(s[i].0, key),
    ensures
        keys_sorted(insert_entry(s, key, v)),
        first_not_below(s, key) == i,
{
    lemma_first_not_below(s, key, i);
    let r = insert_entry(s, key, v);
    if i < s.len() && s[i].0 == key {
        assert forall|a: int, b: int| 0 <= a < b < r.len() implies text_lt(
            #[trigger] r[a].0,
            #[trigger] r[b].0,
        ) by {
            assert(text_lt(s[a].0, s[b].0));
        }
    } else {
        assert forall|j: int| i <= j < s.len() implies text_lt(key, (#[trigger] s[j]).0) by {
            if j == i {
                lemma_text_lt_total(s[i].0, key);
            } else {
                lemma_text_lt_total(s[i].0, key);
                assert(text_lt(s[i].0, s[j].0));
                lemma_text_lt_transitive(key, s[i].0, s[j].0);
            }
        }
        assert forall|a: int, b: int| 0 <= a < b < r.len() implies text_lt(
            #[trigger] r[a].0,
            #[trigger] r[b].0,
        ) by {
            if b < i {
                assert(text_lt(s[a].0, s[b].0));
            } else if b == i {
                assert(r[b].0 == key);
            } else if a < i {
                assert(text_lt(s[a].0, key));
                assert(text_lt(key, s[b - 1].0));
                lemma_text_lt_transitive(s[a].0, key, s[b - 1].0);
            } else if a == i {
                assert(text_lt(key, s[b - 1].0));
            } else {
                assert(text_lt(s[a - 1].0, s[b - 1].0));
            }
        }
    }
}

/// Law of the map: after storing `v` under `key`, a lookup of `key` gives
/// `v`, and a lookup of any other key gives what it gave before.
pub proof fn lemma_lookup_after_insert<V>(s: Seq<(Seq<char>, V)>, key: Seq<char>, v: V, k: Seq<char>)
    requires
        keys_sorted(s),
    ensures
        keys_sorted(insert_entry(s, key, v)),
        lookup(insert_entry(s, key, v), key) == Some(v),
        k != key ==> lookup(insert_entry(s, key, v), k) == lookup(s, k),
{
    let i = choose_insert_position(s, key);
    lemma_insert_sorted(s, key, v, i);
    let r = insert_entry(s, key, v);
    assert(r[i].0 == key);
    lemma_lookup_at(r, i);
    if k != key {
        if exists|j: int| 0 <= j < s.len() && (#[trigger] s[j]).0 == k {
            let j = choose|j: int| 0 <= j < s.len() && (#[trigger] s[j]).0 == k;
            lemma_lookup_at(s, j);
            let q = if j < i || (i < s.len() && s[i].0 == key) { j } else { j + 1 };
            assert(r[q] == s[j]);
            lemma_lookup_at(r, q);
        } else {
            lemma_lookup_absent(s, k);
            assert forall|j: int| 0 <= j < r.len() implies (#[trigger] r[j]).0 != k by {
                if i < s.len() && s[i].0 == key {
                    if j != i {
                        assert(r[j] == s[j]);
                    }
                } else if j < i {
                    assert(r[j] == s[j]);
                } else if j > i {
                    assert(r[j] == s[j - 1]);
                }
            }
            lemma_lookup_absent(r, k);
        }
    }
}

/// The position where `k` belongs in a sorted list.
proof fn choose_insert_position<V>(s: Seq<(Seq<char>, V)>, k: Seq<char>) -> (i: int)
    requires
        keys_sorted(s),
    ensures
        0 <= i <= s.len(),
        forall|j: int| 0 <= j < i ==> text_lt((#[trigger] s[j]).0, k),
        i == s.len() || !text_lt(s[i].0, k),
    decreases s.len(),
{
    if s.len() == 0 {
        0
    } else if !text_lt(s[0].0, k) {
        0
    } else {
        lemma_sorted_drop_first(s);
        let t = choose_insert_position(s.drop_first(), k);
        assert forall|j: int| 0 <= j < t + 1 implies text_lt((#[trigger] s[j]).0, k) by {
            if j > 0 {
                assert(s[j] == s.drop_first()[j - 1]);
            }
        }
        t + 1
    }
}

impl<V> View for StrMap<V> {
    type V = Seq<(Seq<char>, V)>;

    /// The entries, each key by its text.
    open spec fn view(&self) -> Seq<(Seq<char>, V)> {
        self.entries@.map_values(|e: (String, V)| (e.0@, e.1))
    }
}

impl<V> StrMap<V> {
    /// The entries are in strictly ascending key order.
    pub open spec fn wf(&self) -> bool {
        keys_sorted(self@)
    }

    pub fn new() -> (r: Self)
        ensures
            r@.len() == 0,
            r.wf(),
    {
        StrMap { entries: Vec::new() }
    }

    /// Number of entries.
    pub fn len(&self) -> (r: usize)
        ensures
            r == self@.len(),
    {
        self.entries.len()
    }

    /// Position of the entry stored under `key`, if any.
    pub fn find(&self, key: &str) -> (r: Option<usize>)
        ensures
            match r {
                Some(i) => i < self@.len() && self@[i as int].0 == key@ && lookup(self@, key@)
                    == Some(self@[i as int].1),
                None => lookup(self@, key@) is None,
            },
    {
        let mut i: usize = 0;
        assert(self@.skip(0) =~= self@);
        while i < self.entries.len()
            invariant
                i <= self@.len(),
                self@.len() == self.entries@.len(),
                lookup(self@, key@) == lookup(self@.skip(i as int), key@),
            decreases self@.len() - i,
        {
            if str_equals(self.entries[i].0.as_str(), key) {
                return Some(i);
            }
            assert(self@.skip(i as int).drop_first() =~= self@.skip(i + 1));
            i = i + 1;
        }
        None
    }

    /// The value stored under `key`, if any.
    pub fn get(&self, key: &str) -> (r: Option<&V>)
        ensures
            match r {
                Some(v) => lookup(self@, key@) == Some(*v),
                None => lookup(self@, key@) is None,
            },
    {
        match self.find(key) {
            Some(i) => Some(&self.entries[i].1),
            None => None,
        }
    }

    /// Stores `v` under `key`, replacing what was stored there.
    pub fn insert(&mut self, key: String, v: V)
        requires
            old(self).wf(),
        ensures
            final(self)@ == insert_entry(old(self)@, key@, v),
            final(self).wf(),
    {
        let ghost s = self@;
        let mut i: usize = 0;
        while i < self.entries.len() && text_less(self.entries[i].0.as_str(), key.as_str())
            invariant
                self@ == s,
                self.entries@.len() == s.len(),
                i <= s.len(),
                forall|j: int| 0 <= j < i ==> text_lt((#[trigger] s[j]).0, key@),
            decreases s.len() - i,
        {
            i = i + 1;
        }
        proof {
            lemma_insert_sorted(s, key@, v, i as int);
        }
        let ghost kv = key@;
        if i < self.entries.len() && str_equals(self.entries[i].0.as_str(), key.as_str()) {
            self.entries.set(i, (key, v));
            assert(self@ =~= s.update(i as int, (kv, v)));
        } else {
            self.entries.insert(i, (key, v));
            assert(self@ =~= s.insert(i as int, (kv, v)));
        }
    }
}

impl<V: Clone> Clone for StrMap<V> {
    /// Copies the entries one by one, keys exactly and values by their own clone.
    fn clone(&self) -> (r: Self)
        ensures
            r.entries@.len() == self.entries@.len(),
            forall|i: int|
                #![trigger r.entries@[i]]
                0 <= i < self.entries@.len() ==> r.entries@[i].0 == self.entries@[i].0
                    && cloned::<V>(self.entries@[i].1, r.entries@[i].1),
    {
        let mut entries: Vec<(String, V)> = Vec::new();
        let mut i: usize = 0;
        while i < self.entries.len()
            invariant
                i <= self.entries@.len(),
                entries@.len() == i,
                forall|j: int|
                    #![trigger entries@[j]]
                    0 <= j < i ==> entries@[j].0 == self.entries@[j].0
                        && cloned::<V>(self.entries@[j].1, entries@[j].1),
            decreases self.entries@.len() - i,
        {
            let k = self.entries[i].0.clone();
            let v = self.entries[i].1.clone();
            entries.push((k, v));
            i = i + 1;
        }
        StrMap { entries }
    }
}

} // verus!
