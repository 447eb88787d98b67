//! A string-to-string map that keeps its entries in insertion order.

use vstd::prelude::*;

use crate::text::str_eq;

verus! {

/// The entries of a map as pairs of character sequences.
pub type Entries = Seq<(Seq<char>, Seq<char>)>;

/// Whether no key occurs twice in `s`.
pub open spec fn distinct_keys(s: Entries) -> bool {
    forall|i: int, j: int| 0 <= i < s.len() && 0 <= j < s.len() && i != j ==> #[trigger] s[i].0 != #[trigger] s[j].0
}

/// The index of the first entry of `s` with key `k`, or -1 when there is none.
pub open spec fn find_key(s: Entries, k: Seq<char>) -> int {
    if exists|i: int| 0 <= i < s.len() && #[trigger] s[i].0 == k {
        choose|i: int| 0 <= i < s.len() && s[i].0 == k && forall|j: int| 0 <= j < i ==> #[trigger] s[j].0 != k
    } else {
        -1
    }
}

/// The value stored under `k` in `s`.
pub open spec fn lookup(s: Entries, k: Seq<char>) -> Option<Seq<char>> {
    let i = find_key(s, k);
    if i >= 0 {
        Some(s[i].1)
    } else {
        None
    }
}

/// `s` with `k` mapped to `v`: the existing entry is updated in place, or a new entry
/// is added at the end.
pub open spec fn insert_entry(s: Entries, k: Seq<char>, v: Seq<char>) -> Entries {
    let i = find_key(s, k);
    if i >= 0 {
        s.update(i, (k, v))
    } else {
        s.push((k, v))
    }
}

/// `s` without its entry for `k`.
pub open spec fn remove_entry(s: Entries, k: Seq<char>) -> Entries {
    let i = find_key(s, k);
    if i >= 0 {
        s.remove(i)
    } else {
        s
    }
}

/// The key/value views of `v`.
pub open spec fn entry_views(v: Seq<(String, String)>) -> Entries {
    v.map_values(|e: (String, String)| (e.0@, e.1@))
}

/// `w` is the first index of `k` in `s`.
pub open spec fn is_first_index(s: Entries, k: Seq<char>, w: int) -> bool {
    &&& 0 <= w < s.len()
    &&& s[w].0 == k
    &&& forall|j: int| 0 <= j < w ==> #[trigger] s[j].0 != k
}

/// `find_key` gives the first index of the key, or -1 exactly when the key is absent.
pub proof fn lemma_find_key(s: Entries, k: Seq<char>)
    ensures
        find_key(s, k) == -1 || is_first_index(s, k, find_key(s, k)),
        find_key(s, k) == -1 <==> forall|j: int| 0 <= j < s.len() ==> #[trigger] s[j].0 != k,
        forall|w: int| is_first_index(s, k, w) ==> find_key(s, k) == w,
{
    if exists|i: int| 0 <= i < s.len() && #[trigger] s[i].0 == k {
        let i = choose|i: int| 0 <= i < s.len() && #[trigger] s[i].0 == k;
        lemma_first_index_exists(s, k, i);
        let w = find_key(s, k);
        assert(is_first_index(s, k, w));
        assert forall|w2: int| is_first_index(s, k, w2) implies w == w2 by {
            if w2 < w {
                assert(s[w2].0 != k);
            } else if w < w2 {
                assert(s[w].0 != k);
            }
        }
    }
}

/// If `k` occurs at `i`, it has a first index.
proof fn lemma_first_index_exists(s: Entries, k: Seq<char>, i: int)
    requires
        0 <= i < s.len(),
        s[i].0 == k,
    ensures
        exists|w: int| is_first_index(s, k, w),
    decreases i,
{
    if exists|j: int| 0 <= j < i && #[trigger] s[j].0 == k {
        let j = choose|j: int| 0 <= j < i && #[trigger] s[j].0 == k;
        lemma_first_index_exists(s, k, j);
    } else {
        assert(is_first_index(s, k, i));
    }
}

/// After `k` is mapped to `v`, looking `k` up gives `v`, and looking up any other key
/// gives what it gave before.
pub proof fn lemma_lookup_after_insert(s: Entries, k: Seq<char>, v: Seq<char>, k2: Seq<char>)
    ensures
        lookup(insert_entry(s, k, v), k2) == (if k2 == k {
            Some(v)
        } else {
            lookup(s, k2)
        }),
{
    let t = insert_entry(s, k, v);
    lemma_find_key(s, k);
    lemma_find_key(s, k2);
    lemma_find_key(t, k2);
    let i = find_key(s, k);
    if k2 == k {
        if i >= 0 {
            assert(is_first_index(t, k, i));
        } else {
            assert(is_first_index(t, k, s.len() as int));
        }
    } else {
        let w = find_key(s, k2);
        if w >= 0 {
            assert(is_first_index(t, k2, w));
        } else {
            assert forall|j: int| 0 <= j < t.len() implies #[trigger] t[j].0 != k2 by {
                if j < s.len() && j != i {
                    assert(t[j] == s[j]);
                }
            }
        }
    }
}

/// After the entry for `k` is removed from a map with distinct keys, looking `k` up
/// gives nothing, and looking up any other key gives what it gave before.
pub proof fn lemma_lookup_after_remove(s: Entries, k: Seq<char>, k2: Seq<char>)
    requires
        distinct_keys(s),
    ensures
        lookup(remove_entry(s, k), k2) == (if k2 == k {
            None
        } else {
            lookup(s, k2)
        }),
{
    let t = remove_entry(s, k);
    lemma_find_key(s, k);
    lemma_find_key(s, k2);
    lemma_find_key(t, k2);
    let i = find_key(s, k);
    if i >= 0 {
        if k2 == k {
            assert forall|j: int| 0 <= j < t.len() implies #[trigger] t[j].0 != k2 by {
                if j < i {
                    assert(t[j] == s[j]);
                } else {
                    assert(t[j] == s[j + 1]);
                    assert(s[j + 1].0 != s[i].0);
                }
            }
        } else {
            let w = find_key(s, k2);
            if w >= 0 {
                if w < i {
                    assert(is_first_index(t, k2, w));
                } else {
                    assert(w != i);
                    assert forall|j: int| 0 <= j < w - 1 implies #[trigger] t[j].0 != k2 by {
                        if j < i {
                            assert(t[j] == s[j]);
                        } else {
                            assert(t[j] == s[j + 1]);
                        }
                    }
                    assert(t[w - 1] == s[w]);
                    assert(is_first_index(t, k2, w - 1));
                }
            } else {
                assert forall|j: int| 0 <= j < t.len() implies #[trigger] t[j].0 != k2 by {
                    if j < i {
                        assert(t[j] == s[j]);
                    } else {
                        assert(t[j] == s[j + 1]);
                    }
                }
            }
        }
    }
}

/// Mapping a key to a value keeps the keys of a map distinct; the map grows by one
/// entry exactly when the key was not there.
pub proof fn lemma_insert_keeps_keys_distinct(s: Entries, k: Seq<char>, v: Seq<char>)
    requires
        distinct_keys(s),
    ensures
        distinct_keys(insert_entry(s, k, v)),
        insert_entry(s, k, v).len() == s.len() + (if lookup(s, k) is Some {
            0int
        } else {
            1int
        }),
{
    lemma_find_key(s, k);
    let t = insert_entry(s, k, v);
    let i = find_key(s, k);
    assert forall|a: int, b: int| 0 <= a < t.len() && 0 <= b < t.len() && a != b implies #[trigger] t[a].0
        != #[trigger] t[b].0 by {
        if i >= 0 {
            if a != i && b != i {
                assert(t[a] == s[a] && t[b] == s[b]);
            } else if a == i {
                assert(t[b] == s[b]);
                assert(s[b].0 != s[i].0);
            } else {
                assert(t[a] == s[a]);
                assert(s[a].0 != s[i].0);
            }
        } else {
            if a < s.len() && b < s.len() {
                assert(t[a] == s[a] && t[b] == s[b]);
            } else if a < s.len() {
                assert(t[a] == s[a]);
            } else {
                assert(t[b] == s[b]);
            }
        }
    }
}

/// Removing a key keeps the keys of a map distinct; the map shrinks by one entry
/// exactly when the key was there.
pub proof fn lemma_remove_keeps_keys_distinct(s: Entries, k: Seq<char>)
    requires
        distinct_keys(s),
    ensures
        distinct_keys(remove_entry(s, k)),
        remove_entry(s, k).len() == s.len() - (if lookup(s, k) is Some {
            1int
        } else {
            0int
        }),
{
    lemma_find_key(s, k);
    let t = remove_entry(s, k);
    let i = find_key(s, k);
    if i >= 0 {
        assert forall|a: int, b: int| 0 <= a < t.len() && 0 <= b < t.len() && a != b implies #[trigger] t[a].0
            != #[trigger] t[b].0 by {
            let a2 = if a < i { a } else { a + 1 };
            let b2 = if b < i { b } else { b + 1 };
            assert(t[a] == s[a2] && t[b] == s[b2]);
        }
    }
}

/// A map from strings to strings. Lookups, inserts and removals behave as those of a
/// hash map; the entries are kept in the order their keys were first inserted.
#[derive(Debug)]
pub struct StrMap {
    entries: Vec<(String, String)>,
}

impl StrMap {
    /// No key occurs twice.
    #[verifier::type_invariant]
    spec fn keys_distinct(&self) -> bool {
        distinct_keys(entry_views(self.entries@))
    }
}

impl View for StrMap {
    type V = Entries;

    closed spec fn view(&self) -> Entries {
        entry_views(self.entries@)
    }
}

/// Finds the first index of key `k` in `v`.
fn index_of_key(v: &Vec<(String, String)>, k: &str) -> (r: Option<usize>)
    ensures
        match r {
            Some(i) => i < v@.len() && find_key(entry_views(v@), k@) == i as int,
            None => find_key(entry_views(v@), k@) == -1,
        },
{
    let ghost s = entry_views(v@);
    let n = v.len();
    let mut i: usize = 0;
    while i < n
        invariant
            n == v@.len(),
            s == entry_views(v@),
            i <= n,
            forall|j: int| 0 <= j < i ==> #[trigger] s[j].0 != k@,
        decreases n - i,
    {
        if str_eq(v[i].0.as_str(), k) {
            assert(s[i as int].0 == k@);
            let ghost w = choose|w: int|
                0 <= w < s.len() && s[w].0 == k@ && forall|j: int| 0 <= j < w ==> #[trigger] s[j].0 != k@;
            assert(w == i as int);
            return Some(i);
        }
        i = i + 1;
    }
    assert(!exists|j: int| 0 <= j < s.len() && #[trigger] s[j].0 == k@);
    None
}

impl StrMap {
    /// An empty map.
    pub fn new() -> (r: StrMap)
        ensures
            r@ == Seq::<(Seq<char>, Seq<char>)>::empty(),
            distinct_keys(r@),
    {
        StrMap { entries: Vec::new() }
    }

    /// A copy of the map, with the same entries in the same order.
    pub fn copy(&self) -> (r: StrMap)
        ensures
            r@ == self@,
    {
        proof {
            use_type_invariant(self);
        }
        let mut entries: Vec<(String, String)> = Vec::new();
        let n = self.entries.len();
        for i in 0..n
            invariant
                n == self.entries@.len(),
                entry_views(entries@) == entry_views(self.entries@.take(i as int)),
        {
            let ghost before = entries@;
            let k = self.entries[i].0.clone();
            let v = self.entries[i].1.clone();
            entries.push((k, v));
            assert(entry_views(entries@) == entry_views(before).push(
                (self.entries@[i as int].0@, self.entries@[i as int].1@),
            ));
            assert(self.entries@.take(i + 1) == self.entries@.take(i as int).push(
                self.entries@[i as int],
            ));
        }
        assert(self.entries@.take(n as int) == self.entries@);
        StrMap { entries }
    }

    /// The number of entries.
    pub fn len(&self) -> (r: usize)
        ensures
            r == self@.len(),
    {
        self.entries.len()
    }

    /// Whether the map has no entry.
    pub fn is_empty(&self) -> (r: bool)
        ensures
            r == (self@.len() == 0),
    {
        self.entries.len() == 0
    }

    /// The key of the entry at position `i`.
    pub fn key_at(&self, i: usize) -> (r: &String)
        requires
            i < self@.len(),
        ensures
            r@ == self@[i as int].0,
    {
        &self.entries[i].0
    }

    /// The value of the entry at position `i`.
    pub fn value_at(&self, i: usize) -> (r: &String)
        requires
            i < self@.len(),
        ensures
            r@ == self@[i as int].1,
    {
        &self.entries[i].1
    }

    /// The value stored under `k`.
    pub fn get(&self, k: &str) -> (r: Option<&String>)
        ensures
            match r {
                Some(v) => lookup(self@, k@) == Some(v@),
                None => lookup(self@, k@) is None,
            },
    {
        match index_of_key(&self.entries, k) {
            Some(i) => Some(&self.entries[i].1),
            None => None,
        }
    }

    /// Whether some entry has key `k`.
    pub fn contains_key(&self, k: &str) -> (r: bool)
        ensures
            r == (lookup(self@, k@) is Some),
    {
        index_of_key(&self.entries, k).is_some()
    }

    /// Maps `k` to `v`, replacing the value stored under `k` if there is one.
    pub fn insert(&mut self, k: String, v: String)
        ensures
            final(self)@ == insert_entry(old(self)@, k@, v@),
            distinct_keys(final(self)@),
    {
        proof {
            use_type_invariant(&*self);
            lemma_insert_keeps_keys_distinct(self@, k@, v@);
        }
        let mut entries: Vec<(String, String)> = Vec::new();
        std::mem::swap(&mut entries, &mut self.entries);
        let ghost before = entries@;
        match index_of_key(&entries, k.as_str()) {
            Some(i) => {
                entries.remove(i);
                entries.insert(i, (k, v));
                assert(entry_views(entries@) == entry_views(before).update(i as int, (k@, v@)));
            },
            None => {
                entries.push((k, v));
                assert(entry_views(entries@) == entry_views(before).push((k@, v@)));
            },
        }
        self.entries = entries;
    }

    /// Removes the entry for `k`, returning its value.
    pub fn remove(&mut self, k: &str) -> (r: Option<String>)
        ensures
            final(self)@ == remove_entry(old(self)@, k@),
            distinct_keys(final(self)@),
            match r {
                Some(v) => lookup(old(self)@, k@) == Some(v@),
                None => lookup(old(self)@, k@) is None,
            },
    {
        proof {
            use_type_invariant(&*self);
            lemma_remove_keeps_keys_distinct(self@, k@);
        }
        let mut entries: Vec<(String, String)> = Vec::new();
        std::mem::swap(&mut entries, &mut self.entries);
        let ghost before = entries@;
        let r = match index_of_key(&entries, k) {
            Some(i) => {
                let (_, v) = entries.remove(i);
                assert(entry_views(entries@) == entry_views(before).remove(i as int));
                Some(v)
            },
            None => None,
        };
        self.entries = entries;
        r
    }
}

} // verus!
