//! A small map keyed by strings, kept as an ordered list of entries.
//!
//! Entries keep the order in which their keys were first inserted, and no
//! key occurs twice.

use vstd::prelude::*;

verus! {

/// No two entries of `s` share a key.
pub open spec fn keys_distinct<V>(s: Seq<(String, V)>) -> bool {
    forall|i: int, j: int| 0 <= i < s.len() && 0 <= j < s.len() && i != j ==> s[i].0@ != s[j].0@
}

/// Some entry of `s` has key `k`.
pub open spec fn has_key<V>(s: Seq<(String, V)>, k: Seq<char>) -> bool {
    exists|i: int| 0 <= i < s.len() && #[trigger] s[i].0@ == k
}

/// The position of the entry with key `k` (meaningful when `has_key(s, k)`).
pub open spec fn key_pos<V>(s: Seq<(String, V)>, k: Seq<char>) -> int {
    choose|i: int| 0 <= i < s.len() && #[trigger] s[i].0@ == k
}

/// The value stored under `k` (meaningful when `has_key(s, k)`).
pub open spec fn value_of<V>(s: Seq<(String, V)>, k: Seq<char>) -> V {
    s[key_pos(s, k)].1
}

/// The value under `k`, if any.
pub open spec fn lookup<V>(s: Seq<(String, V)>, k: Seq<char>) -> Option<V> {
    if has_key(s, k) {
        Some(value_of(s, k))
    } else {
        None
    }
}

/// The sequence of entries after storing `v` under `k`: the value of the
/// entry is replaced in place when the key is present, a new entry is
/// appended otherwise.
pub open spec fn stored<V>(s: Seq<(String, V)>, k: String, v: V) -> Seq<(String, V)> {
    if has_key(s, k@) {
        s.update(key_pos(s, k@), (s[key_pos(s, k@)].0, v))
    } else {
        s.push((k, v))
    }
}

/// The sequence of entries without the entry for `k`.
pub open spec fn removed<V>(s: Seq<(String, V)>, k: Seq<char>) -> Seq<(String, V)> {
    if has_key(s, k) {
        s.remove(key_pos(s, k))
    } else {
        s
    }
}

/// In a list with distinct keys, the entry found at `i` is the one for its key.
pub proof fn lemma_key_pos_unique<V>(s: Seq<(String, V)>, i: int)
    requires
        keys_distinct(s),
        0 <= i < s.len(),
    ensures
        has_key(s, s[i].0@),
        key_pos(s, s[i].0@) == i,
{
    assert(has_key(s, s[i].0@));
}

/// Storing under a key keeps the keys distinct.
pub proof fn lemma_stored_distinct<V>(s: Seq<(String, V)>, k: String, v: V)
    requires
        keys_distinct(s),
    ensures
        keys_distinct(stored(s, k, v)),
        has_key(stored(s, k, v), k@),
        lookup(stored(s, k, v), k@) == Some(v),
{
    let t = stored(s, k, v);
    if has_key(s, k@) {
        let p = key_pos(s, k@);
        assert(keys_distinct(t));
        lemma_key_pos_unique(t, p);
    } else {
        assert(keys_distinct(t));
        lemma_key_pos_unique(t, s.len() as int);
    }
}

/// Storing under a key leaves every other key as it was.
pub proof fn lemma_stored_other<V>(s: Seq<(String, V)>, k: String, v: V, other: Seq<char>)
    requires
        keys_distinct(s),
        other != k@,
    ensures
        lookup(stored(s, k, v), other) == lookup(s, other),
{
    let t = stored(s, k, v);
    lemma_stored_distinct(s, k, v);
    if has_key(s, other) {
        let q = key_pos(s, other);
        assert(t[q].0@ == other);
        lemma_key_pos_unique(s, q);
        lemma_key_pos_unique(t, q);
    }
    if has_key(t, other) {
        let q = key_pos(t, other);
        lemma_key_pos_unique(t, q);
        if q < s.len() {
            assert(s[q].0@ == other);
            lemma_key_pos_unique(s, q);
        }
    }
}

/// Removing a key keeps the keys distinct and drops the key.
pub proof fn lemma_removed_distinct<V>(s: Seq<(String, V)>, k: Seq<char>)
    requires
        keys_distinct(s),
    ensures
        keys_distinct(removed(s, k)),
        !has_key(removed(s, k), k),
{
    let t = removed(s, k);
    if has_key(s, k) {
        let p = key_pos(s, k);
        assert forall|i: int, j: int| 0 <= i < t.len() && 0 <= j < t.len() && i != j implies t[i].0@
            != t[j].0@ by {
            let a = if i < p { i } else { i + 1 };
            let b = if j < p { j } else { j + 1 };
            assert(t[i] == s[a]);
            assert(t[j] == s[b]);
        }
        if has_key(t, k) {
            let q = choose|q: int| 0 <= q < t.len() && #[trigger] t[q].0@ == k;
            let a = if q < p { q } else { q + 1 };
            assert(t[q] == s[a]);
        }
    }
}

/// The entries of `s` whose values satisfy `keep`, in order.
pub open spec fn filter_entries<V>(s: Seq<(String, V)>, keep: spec_fn(V) -> bool) -> Seq<(String, V)>
    decreases s.len(),
{
    if s.len() == 0 {
        Seq::empty()
    } else {
        let rest = filter_entries(s.drop_last(), keep);
        if keep(s.last().1) {
            rest.push(s.last())
        } else {
            rest
        }
    }
}

/// Every value of a filtered list satisfies the filter.
pub proof fn lemma_filter_entries_keep<V>(s: Seq<(String, V)>, keep: spec_fn(V) -> bool)
    ensures
        forall|k: int| 0 <= k < filter_entries(s, keep).len() ==> keep(#[trigger] filter_entries(s, keep)[k].1),
    decreases s.len(),
{
    if s.len() > 0 {
        let d = s.drop_last();
        lemma_filter_entries_keep(d, keep);
        let r = filter_entries(d, keep);
        if keep(s.last().1) {
            let t = r.push(s.last());
            assert forall|k: int| 0 <= k < t.len() implies keep(#[trigger] t[k].1) by {
                if k < r.len() {
                    assert(t[k] == r[k]);
                }
            }
        }
    }
}

/// Every key of a filtered list is a key of the list, and filtering keeps keys distinct.
pub proof fn lemma_filter_entries<V>(s: Seq<(String, V)>, keep: spec_fn(V) -> bool)
    ensures
        forall|k: int|
            0 <= k < filter_entries(s, keep).len() ==> has_key(s, #[trigger] filter_entries(s, keep)[k].0@),
        keys_distinct(s) ==> keys_distinct(filter_entries(s, keep)),
    decreases s.len(),
{
    if s.len() > 0 {
        let d = s.drop_last();
        lemma_filter_entries(d, keep);
        let r = filter_entries(d, keep);
        assert forall|k: int| 0 <= k < r.len() implies has_key(s, #[trigger] r[k].0@) by {
            let j = choose|j: int| 0 <= j < d.len() && #[trigger] d[j].0@ == r[k].0@;
            assert(s[j] == d[j]);
        }
        if keep(s.last().1) {
            let t = r.push(s.last());
            assert(t == filter_entries(s, keep));
            assert forall|k: int| 0 <= k < t.len() implies has_key(s, #[trigger] t[k].0@) by {
                if k < r.len() {
                    assert(t[k] == r[k]);
                } else {
                    assert(s[s.len() - 1].0@ == t[k].0@);
                }
            }
            if keys_distinct(s) {
                assert(keys_distinct(d));
                assert forall|a: int, b: int| 0 <= a < t.len() && 0 <= b < t.len() && a != b implies t[a].0@
                    != t[b].0@ by {
                    if a < r.len() && b < r.len() {
                        assert(t[a] == r[a] && t[b] == r[b]);
                    } else if a < r.len() {
                        assert(t[a] == r[a]);
                        let j = choose|j: int| 0 <= j < d.len() && #[trigger] d[j].0@ == r[a].0@;
                        assert(s[j] == d[j]);
                    } else {
                        assert(t[b] == r[b]);
                        let j = choose|j: int| 0 <= j < d.len() && #[trigger] d[j].0@ == r[b].0@;
                        assert(s[j] == d[j]);
                    }
                }
            }
        } else {
            if keys_distinct(s) {
                assert(keys_distinct(d));
            }
        }
    }
}

/// The entries of `s` with each value replaced by its image under `f`.
pub open spec fn map_vals<V, W>(s: Seq<(String, V)>, f: spec_fn(V) -> W) -> Seq<(String, W)> {
    s.map_values(|e: (String, V)| (e.0, f(e.1)))
}

/// Mapping the values keeps the keys, their positions and their distinctness.
pub proof fn lemma_map_vals<V, W>(s: Seq<(String, V)>, f: spec_fn(V) -> W, k: Seq<char>)
    requires
        keys_distinct(s),
    ensures
        keys_distinct(map_vals(s, f)),
        has_key(map_vals(s, f), k) == has_key(s, k),
        has_key(s, k) ==> key_pos(map_vals(s, f), k) == key_pos(s, k),
        has_key(s, k) ==> value_of(map_vals(s, f), k) == f(value_of(s, k)),
        lookup(map_vals(s, f), k) == match lookup(s, k) {
            Some(v) => Some(f(v)),
            None => None,
        },
{
    let t = map_vals(s, f);
    assert(keys_distinct(t)) by {
        assert forall|i: int, j: int| 0 <= i < t.len() && 0 <= j < t.len() && i != j implies t[i].0@ != t[j].0@ by {
            assert(t[i].0 == s[i].0);
            assert(t[j].0 == s[j].0);
        }
    }
    if has_key(s, k) {
        let p = key_pos(s, k);
        lemma_key_pos_unique(s, p);
        assert(t[p].0 == s[p].0);
        lemma_key_pos_unique(t, p);
    }
    if has_key(t, k) {
        let q = key_pos(t, k);
        assert(t[q].0 == s[q].0);
    }
}

/// A list of string-keyed entries with distinct keys, in insertion order.
#[derive(Debug, Clone)]
pub struct StrMap<V> {
    entries: Vec<(String, V)>,
}

impl<V> View for StrMap<V> {
    type V = Seq<(String, V)>;

    closed spec fn view(&self) -> Seq<(String, V)> {
        self.entries@
    }
}

impl<V> StrMap<V> {
    /// The keys are distinct.
    pub open spec fn wf(&self) -> bool {
        keys_distinct(self@)
    }

    /// An empty map.
    pub fn new() -> (r: Self)
        ensures
            r@ == Seq::<(String, V)>::empty(),
            r.wf(),
    {
        StrMap { entries: Vec::new() }
    }

    /// Number of entries.
    pub fn len(&self) -> (r: usize)
        ensures
            r == self@.len(),
    {
        self.entries.len()
    }

    /// Whether there are no entries.
    pub fn is_empty(&self) -> (r: bool)
        ensures
            r == (self@.len() == 0),
    {
        self.entries.len() == 0
    }

    /// The key of the entry at position `i`.
    pub fn key_at(&self, i: usize) -> (r: &String)
        requires
            i < self@.len(),
        ensures
            *r == self@[i as int].0,
    {
        &self.entries[i].0
    }

    /// The value of the entry at position `i`.
    pub fn value_at(&self, i: usize) -> (r: &V)
        requires
            i < self@.len(),
        ensures
            *r == self@[i as int].1,
    {
        &self.entries[i].1
    }

    /// The value of the entry at position `i`, for update in place.
    pub fn value_at_mut(&mut self, i: usize) -> (r: &mut V)
        requires
            i < old(self)@.len(),
        ensures
            *r == old(self)@[i as int].1,
            final(self)@ == old(self)@.update(i as int, (old(self)@[i as int].0, *final(r))),
    {
        &mut self.entries[i].1
    }

    /// The position of the entry with key `key`, if any.
    pub fn find(&self, key: &str) -> (r: Option<usize>)
        requires
            self.wf(),
        ensures
            r matches Some(i) ==> i < self@.len() && self@[i as int].0@ == key@ && key_pos(self@, key@)
                == i,
            r is None <==> !has_key(self@, key@),
    {
        let mut i: usize = 0;
        while i < self.entries.len()
            invariant
                0 <= i <= self@.len(),
                self.wf(),
                forall|j: int| 0 <= j < i ==> self@[j].0@ != key@,
            decreases self@.len() - i,
        {
            if crate::text::str_eq(self.entries[i].0.as_str(), key) {
                proof {
                    lemma_key_pos_unique(self@, i as int);
                }
                return Some(i);
            }
            i = i + 1;
        }
        None
    }

    /// The value stored under `key`, if any.
    pub fn get(&self, key: &str) -> (r: Option<&V>)
        requires
            self.wf(),
        ensures
            r is Some <==> has_key(self@, key@),
            r matches Some(v) ==> *v == value_of(self@, key@),
    {
        match self.find(key) {
            Some(i) => Some(&self.entries[i].1),
            None => None,
        }
    }

    /// Whether some entry has key `key`.
    pub fn contains_key(&self, key: &str) -> (r: bool)
        requires
            self.wf(),
        ensures
            r == has_key(self@, key@),
    {
        self.find(key).is_some()
    }

    /// Stores `value` under `key`, replacing the value of an existing entry in place.
    pub fn insert(&mut self, key: String, value: V)
        requires
            old(self).wf(),
        ensures
            final(self)@ == stored(old(self)@, key, value),
            final(self).wf(),
    {
        proof {
            lemma_stored_distinct(self@, key, value);
        }
        match self.find(key.as_str()) {
            Some(i) => {
                self.entries[i].1 = value;
            },
            None => {
                self.entries.push((key, value));
            },
        }
    }

    /// Removes the entry for `key`, returning its value.
    pub fn remove(&mut self, key: &str) -> (r: Option<V>)
        requires
            old(self).wf(),
        ensures
            final(self)@ == removed(old(self)@, key@),
            r == lookup(old(self)@, key@),
            final(self).wf(),
    {
        proof {
            lemma_removed_distinct(self@, key@);
        }
        match self.find(key) {
            Some(i) => {
                let (_, v) = self.entries.remove(i);
                Some(v)
            },
            None => None,
        }
    }

    /// Removes every entry.
    pub fn clear(&mut self)
        ensures
            final(self)@ == Seq::<(String, V)>::empty(),
            final(self).wf(),
    {
        self.entries.clear();
    }

    /// Appends an entry whose key is not yet present.
    pub fn push_new(&mut self, key: String, value: V)
        requires
            old(self).wf(),
            !has_key(old(self)@, key@),
        ensures
            final(self)@ == old(self)@.push((key, value)),
            final(self).wf(),
    {
        self.entries.push((key, value));
    }

    /// A map made of the given entries, whose keys are distinct.
    pub fn from_entries(entries: Vec<(String, V)>) -> (r: Self)
        requires
            keys_distinct(entries@),
        ensures
            r@ == entries@,
            r.wf(),
    {
        StrMap { entries }
    }

    /// Gives the entries up.
    pub fn into_entries(self) -> (r: Vec<(String, V)>)
        ensures
            r@ == self@,
    {
        self.entries
    }
}

/// The lists of a map of lists, each taken by its view.
pub open spec fn list_views<T>(m: Seq<(String, Vec<T>)>) -> Seq<(String, Seq<T>)> {
    map_vals(m, |v: Vec<T>| v@)
}

/// The lists after appending `item` to the list under `key` (a new list
/// under a new key).
pub open spec fn pushed_under<T>(c: Seq<(String, Seq<T>)>, key: String, item: T) -> Seq<(String, Seq<T>)> {
    if has_key(c, key@) {
        let p = key_pos(c, key@);
        c.update(p, (c[p].0, c[p].1.push(item)))
    } else {
        c.push((key, seq![item]))
    }
}

/// Appends `item` to the list under `key`, starting a list for a new key.
pub fn push_under<T>(map: &mut StrMap<Vec<T>>, key: String, item: T)
    requires
        old(map).wf(),
    ensures
        final(map).wf(),
        list_views(final(map)@) == pushed_under(list_views(old(map)@), key, item),
{
    let ghost m0 = map@;
    proof {
        lemma_map_vals(m0, |v: Vec<T>| v@, key@);
    }
    match map.find(key.as_str()) {
        Some(i) => {
            proof {
                lemma_key_pos_unique(m0, i as int);
            }
            let list = map.value_at_mut(i);
            list.push(item);
            proof {
                assert(list_views(map@) =~= list_views(m0).update(i as int, (m0[i as int].0, m0[i as int].1@.push(item))));
            }
        },
        None => {
            let ghost k = key;
            let ghost gi = item;
            let fresh = vec![item];
            assert(fresh@ =~= seq![gi]);
            map.push_new(key, fresh);
            proof {
                assert(list_views(map@) =~= list_views(m0).push((k, seq![gi])));
            }
        },
    }
}

} // verus!
