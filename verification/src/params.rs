//! Ordered maps of x265 parameters (`key` / `key=value` options).
//!
//! A map keeps its keys distinct; inserting an existing key replaces its
//! value in place, a new key goes to the end.  Rendering joins the entries
//! with `:` in map order.

use vstd::prelude::*;
use crate::text::{concat3, join_strings, seq_join, str_eq, strings_view};

verus! {

/// The entries of a parameter map, as character sequences.
pub type ParamEntries = Seq<(Seq<char>, Seq<char>)>;

/// Whether some entry has key `k`.
pub open spec fn pm_has(s: ParamEntries, k: Seq<char>) -> bool {
    exists|i: int| 0 <= i < s.len() && #[trigger] s[i].0 == k
}

/// No key occurs twice.
pub open spec fn keys_distinct(s: ParamEntries) -> bool {
    forall|i: int, j: int|
        0 <= i < s.len() && 0 <= j < s.len() && i != j ==> #[trigger] s[i].0 != #[trigger] s[j].0
}

/// The position of key `k` (meaningful when `pm_has(s, k)`).
pub open spec fn pm_index(s: ParamEntries, k: Seq<char>) -> int {
    choose|i: int| 0 <= i < s.len() && #[trigger] s[i].0 == k
}

/// The value stored under `k`.
pub open spec fn pm_get(s: ParamEntries, k: Seq<char>) -> Option<Seq<char>> {
    if pm_has(s, k) {
        Some(s[pm_index(s, k)].1)
    } else {
        None
    }
}

/// `HashMap::insert`: replace the value of `k`, or add `k` at the end.
pub open spec fn pm_insert(s: ParamEntries, k: Seq<char>, v: Seq<char>) -> ParamEntries {
    if pm_has(s, k) {
        s.update(pm_index(s, k), (k, v))
    } else {
        s.push((k, v))
    }
}

/// `entry(k).or_insert(v)`: add `k` with `v` only where `k` is absent.
pub open spec fn pm_or_insert(s: ParamEntries, k: Seq<char>, v: Seq<char>) -> ParamEntries {
    if pm_has(s, k) {
        s
    } else {
        s.push((k, v))
    }
}

/// `HashMap::remove`: drop the entry of `k`, if any.
pub open spec fn pm_remove(s: ParamEntries, k: Seq<char>) -> ParamEntries {
    if pm_has(s, k) {
        s.remove(pm_index(s, k))
    } else {
        s
    }
}

/// Inserts each pair of `d` in turn.
pub open spec fn pm_insert_all(s: ParamEntries, d: ParamEntries) -> ParamEntries
    decreases d.len(),
{
    if d.len() == 0 {
        s
    } else {
        pm_insert(pm_insert_all(s, d.drop_last()), d.last().0, d.last().1)
    }
}

/// Adds each pair of `d` in turn where its key is absent.
pub open spec fn pm_or_insert_all(s: ParamEntries, d: ParamEntries) -> ParamEntries
    decreases d.len(),
{
    if d.len() == 0 {
        s
    } else {
        pm_or_insert(pm_or_insert_all(s, d.drop_last()), d.last().0, d.last().1)
    }
}

/// Removes each key of `ks` in turn.
pub open spec fn pm_remove_all(s: ParamEntries, ks: Seq<Seq<char>>) -> ParamEntries
    decreases ks.len(),
{
    if ks.len() == 0 {
        s
    } else {
        pm_remove(pm_remove_all(s, ks.drop_last()), ks.last())
    }
}

/// The character sequences of a list of string pairs.
pub open spec fn pairs_view(v: Seq<(String, String)>) -> ParamEntries {
    v.map_values(|e: (String, String)| (e.0@, e.1@))
}

/// One entry as x265 writes it: a bare key for an empty, `true` or `1`
/// value, else `key=value`.
pub open spec fn x265_entry_text(e: (Seq<char>, Seq<char>)) -> Seq<char> {
    if e.1.len() == 0 || e.1 == "true"@ || e.1 == "1"@ {
        e.0
    } else {
        e.0 + "="@ + e.1
    }
}

/// One entry on a command line: a bare key for an empty value, else
/// `key=value`.
pub open spec fn cli_entry_text(e: (Seq<char>, Seq<char>)) -> Seq<char> {
    if e.1.len() == 0 {
        e.0
    } else {
        e.0 + "="@ + e.1
    }
}

/// The x265 parameter string of a map.
pub open spec fn x265_params_text(s: ParamEntries) -> Seq<char> {
    seq_join(s.map_values(|e: (Seq<char>, Seq<char>)| x265_entry_text(e)), ":"@)
}

/// The command-line parameter string of a map.
pub open spec fn cli_params_text(s: ParamEntries) -> Seq<char> {
    seq_join(s.map_values(|e: (Seq<char>, Seq<char>)| cli_entry_text(e)), ":"@)
}

pub proof fn lemma_index_unique(s: ParamEntries, k: Seq<char>, i: int)
    requires
        keys_distinct(s),
        0 <= i < s.len(),
        s[i].0 == k,
    ensures
        pm_has(s, k),
        pm_index(s, k) == i,
{
    assert(pm_has(s, k));
    let j = pm_index(s, k);
    assert(0 <= j < s.len() && s[j].0 == k);
}

/// Inserting keeps the keys distinct.
pub proof fn lemma_insert_distinct(s: ParamEntries, k: Seq<char>, v: Seq<char>)
    requires
        keys_distinct(s),
    ensures
        keys_distinct(pm_insert(s, k, v)),
        keys_distinct(pm_or_insert(s, k, v)),
        pm_insert(s, k, v).len() == s.len() + (if pm_has(s, k) { 0int } else { 1int }),
{
    if pm_has(s, k) {
        let idx = pm_index(s, k);
        let t = s.update(idx, (k, v));
        assert forall|i: int| 0 <= i < t.len() implies #[trigger] t[i].0 == s[i].0 by {}
    } else {
        let t = s.push((k, v));
        assert forall|i: int, j: int|
            0 <= i < t.len() && 0 <= j < t.len() && i != j implies #[trigger] t[i].0
            != #[trigger] t[j].0 by {
            if i == s.len() {
                assert(t[j] == s[j]);
            } else if j == s.len() {
                assert(t[i] == s[i]);
            } else {
                assert(t[i] == s[i] && t[j] == s[j]);
            }
        }
    }
}

/// Removing keeps the keys distinct.
pub proof fn lemma_remove_distinct(s: ParamEntries, k: Seq<char>)
    requires
        keys_distinct(s),
    ensures
        keys_distinct(pm_remove(s, k)),
{
    if pm_has(s, k) {
        let idx = pm_index(s, k);
        let t = s.remove(idx);
        assert forall|i: int, j: int|
            0 <= i < t.len() && 0 <= j < t.len() && i != j implies #[trigger] t[i].0
            != #[trigger] t[j].0 by {
            let si = if i < idx { i } else { i + 1 };
            let sj = if j < idx { j } else { j + 1 };
            assert(t[i] == s[si] && t[j] == s[sj]);
        }
    }
}

/// A read gives back the last write: after `insert(k, v)` the key `k`
/// holds `v`, and every other key holds what it held before.
pub proof fn law_get_after_insert(s: ParamEntries, k: Seq<char>, v: Seq<char>, other: Seq<char>)
    requires
        keys_distinct(s),
    ensures
        pm_get(pm_insert(s, k, v), k) == Some(v),
        other != k ==> pm_get(pm_insert(s, k, v), other) == pm_get(s, other),
{
    lemma_insert_distinct(s, k, v);
    let t = pm_insert(s, k, v);
    if pm_has(s, k) {
        let idx = pm_index(s, k);
        lemma_index_unique(t, k, idx);
        if other != k {
            if pm_has(s, other) {
                let j = pm_index(s, other);
                assert(t[j] == s[j]);
                lemma_index_unique(t, other, j);
            } else {
                assert forall|i: int| 0 <= i < t.len() implies #[trigger] t[i].0 != other by {
                    if i != idx {
                        assert(t[i] == s[i]);
                    }
                }
            }
        }
    } else {
        lemma_index_unique(t, k, s.len() as int);
        if other != k {
            if pm_has(s, other) {
                let j = pm_index(s, other);
                assert(t[j] == s[j]);
                lemma_index_unique(t, other, j);
            } else {
                assert forall|i: int| 0 <= i < t.len() implies #[trigger] t[i].0 != other by {
                    if i < s.len() {
                        assert(t[i] == s[i]);
                    }
                }
            }
        }
    }
}

/// `or_insert` never changes a key that is present, and adds an absent
/// one with the given value; other keys are untouched.
pub proof fn law_get_after_or_insert(
    s: ParamEntries,
    k: Seq<char>,
    v: Seq<char>,
    other: Seq<char>,
)
    requires
        keys_distinct(s),
    ensures
        pm_get(pm_or_insert(s, k, v), k) == (if pm_has(s, k) { pm_get(s, k) } else { Some(v) }),
        other != k ==> pm_get(pm_or_insert(s, k, v), other) == pm_get(s, other),
{
    if !pm_has(s, k) {
        law_get_after_insert(s, k, v, other);
    }
}

/// The value of the first entry of `d` with key `k`.
pub open spec fn pm_first(d: ParamEntries, k: Seq<char>) -> Option<Seq<char>>
    decreases d.len(),
{
    if d.len() == 0 {
        None
    } else {
        match pm_first(d.drop_last(), k) {
            Some(v) => Some(v),
            None => if d.last().0 == k {
                Some(d.last().1)
            } else {
                None
            },
        }
    }
}

/// Adding pairs where their key is absent keeps every value already set,
/// gives an absent key the first value `d` lists for it, and adds no other
/// key.
pub proof fn law_get_after_or_insert_all(s: ParamEntries, d: ParamEntries, k: Seq<char>)
    requires
        keys_distinct(s),
    ensures
        pm_get(pm_or_insert_all(s, d), k) == (if pm_has(s, k) {
            pm_get(s, k)
        } else {
            pm_first(d, k)
        }),
    decreases d.len(),
{
    if d.len() > 0 {
        let init = d.drop_last();
        law_get_after_or_insert_all(s, init, k);
        lemma_insert_all_distinct(s, init);
        let r = pm_or_insert_all(s, init);
        law_get_after_or_insert(r, d.last().0, d.last().1, k);
    }
}

/// After `remove(k)` the key `k` is absent and every other key holds
/// what it held before.
pub proof fn law_get_after_remove(s: ParamEntries, k: Seq<char>, other: Seq<char>)
    requires
        keys_distinct(s),
    ensures
        pm_get(pm_remove(s, k), k) is None,
        other != k ==> pm_get(pm_remove(s, k), other) == pm_get(s, other),
{
    lemma_remove_distinct(s, k);
    if pm_has(s, k) {
        let idx = pm_index(s, k);
        let t = s.remove(idx);
        assert forall|i: int| 0 <= i < t.len() implies #[trigger] t[i].0 != k by {
            let si = if i < idx { i } else { i + 1 };
            assert(t[i] == s[si]);
        }
        if other != k {
            if pm_has(s, other) {
                let j = pm_index(s, other);
                let tj = if j < idx { j } else { j - 1 };
                assert(t[tj] == s[j]);
                lemma_index_unique(t, other, tj);
            } else {
                assert forall|i: int| 0 <= i < t.len() implies #[trigger] t[i].0 != other by {
                    let si = if i < idx { i } else { i + 1 };
                    assert(t[i] == s[si]);
                }
            }
        }
    }
}

/// Folding inserts keeps the keys distinct.
pub proof fn lemma_insert_all_distinct(s: ParamEntries, d: ParamEntries)
    requires
        keys_distinct(s),
    ensures
        keys_distinct(pm_insert_all(s, d)),
        keys_distinct(pm_or_insert_all(s, d)),
    decreases d.len(),
{
    if d.len() > 0 {
        lemma_insert_all_distinct(s, d.drop_last());
        lemma_insert_distinct(pm_insert_all(s, d.drop_last()), d.last().0, d.last().1);
        lemma_insert_distinct(pm_or_insert_all(s, d.drop_last()), d.last().0, d.last().1);
    }
}

/// Folding removals keeps the keys distinct.
pub proof fn lemma_remove_all_distinct(s: ParamEntries, ks: Seq<Seq<char>>)
    requires
        keys_distinct(s),
    ensures
        keys_distinct(pm_remove_all(s, ks)),
    decreases ks.len(),
{
    if ks.len() > 0 {
        lemma_remove_all_distinct(s, ks.drop_last());
        lemma_remove_distinct(pm_remove_all(s, ks.drop_last()), ks.last());
    }
}

/// A key/value pair of owned strings.
pub fn pair(k: &str, v: &str) -> (r: (String, String))
    ensures
        r.0@ == k@,
        r.1@ == v@,
{
    (k.to_string(), v.to_string())
}

/// An ordered map from x265 option names to values.
pub struct ParamMap {
    entries: Vec<(String, String)>,
}

impl View for ParamMap {
    type V = ParamEntries;

    closed spec fn view(&self) -> ParamEntries {
        pairs_view(self.entries@)
    }
}

impl ParamMap {
    /// The keys of a map are distinct (the type's invariant).
    #[verifier::type_invariant]
    pub open spec fn distinct_keys(self) -> bool {
        keys_distinct(self@)
    }

    /// An empty map.
    pub fn new() -> (r: Self)
        ensures
            r@ == Seq::<(Seq<char>, Seq<char>)>::empty(),
    {
        let r = ParamMap { entries: Vec::new() };
        assert(r@ =~= Seq::<(Seq<char>, Seq<char>)>::empty());
        r
    }

    /// A map built by inserting the pairs in order (a later pair with the
    /// same key replaces the earlier value).
    pub fn from_pairs(pairs: &Vec<(String, String)>) -> (r: Self)
        ensures
            r@ == pm_insert_all(Seq::empty(), pairs_view(pairs@)),
    {
        let mut r = ParamMap::new();
        r.insert_all(pairs);
        r
    }

    /// Number of entries.
    pub fn len(&self) -> (n: usize)
        ensures
            n == self@.len(),
    {
        self.entries.len()
    }

    /// The entries, in order.
    pub fn entries(&self) -> (r: &Vec<(String, String)>)
        ensures
            pairs_view(r@) == self@,
    {
        &self.entries
    }

    fn find(&self, k: &str) -> (r: Option<usize>)
        ensures
            match r {
                Some(i) => pm_has(self@, k@) && i == pm_index(self@, k@),
                None => !pm_has(self@, k@),
            },
    {
        proof { use_type_invariant(self); }
        let mut i: usize = 0;
        while i < self.entries.len()
            invariant
                i <= self.entries@.len(),
                self@ == pairs_view(self.entries@),
                keys_distinct(self@),
                forall|j: int| 0 <= j < i ==> #[trigger] self@[j].0 != k@,
            decreases self.entries.len() - i,
        {
            if str_eq(self.entries[i].0.as_str(), k) {
                proof { lemma_index_unique(self@, k@, i as int); }
                return Some(i);
            }
            i = i + 1;
        }
        None
    }

    /// Whether `k` has an entry.
    pub fn contains_key(&self, k: &str) -> (r: bool)
        ensures
            r == pm_has(self@, k@),
    {
        self.find(k).is_some()
    }

    /// The value stored under `k`.
    pub fn get(&self, k: &str) -> (r: Option<&String>)
        ensures
            match r {
                Some(v) => pm_get(self@, k@) == Some(v@),
                None => pm_get(self@, k@) is None,
            },
    {
        match self.find(k) {
            Some(i) => Some(&self.entries[i].1),
            None => None,
        }
    }

    /// Stores `v` under `k`, replacing an earlier value.
    pub fn insert(&mut self, k: String, v: String)
        ensures
            final(self)@ == pm_insert(old(self)@, k@, v@),
    {
        proof { use_type_invariant(&*self); }
        let ghost s = self@;
        proof { lemma_insert_distinct(s, k@, v@); }
        match self.find(k.as_str()) {
            Some(i) => {
                let ghost kv = k@;
                let ghost vv = v@;
                let mut es: Vec<(String, String)> = Vec::new();
                std::mem::swap(&mut es, &mut self.entries);
                es.set(i, (k, v));
                assert(pairs_view(es@) =~= s.update(i as int, (kv, vv)));
                self.entries = es;
            },
            None => {
                let ghost kv = k@;
                let ghost vv = v@;
                let mut es: Vec<(String, String)> = Vec::new();
                std::mem::swap(&mut es, &mut self.entries);
                es.push((k, v));
                assert(pairs_view(es@) =~= s.push((kv, vv)));
                self.entries = es;
            },
        }
    }

    /// Stores `v` under `k` only where `k` has no entry yet.
    pub fn or_insert(&mut self, k: String, v: String)
        ensures
            final(self)@ == pm_or_insert(old(self)@, k@, v@),
    {
        proof { use_type_invariant(&*self); }
        let ghost s = self@;
        proof { lemma_insert_distinct(s, k@, v@); }
        if self.find(k.as_str()).is_none() {
            let ghost kv = k@;
            let ghost vv = v@;
            let mut es: Vec<(String, String)> = Vec::new();
            std::mem::swap(&mut es, &mut self.entries);
            es.push((k, v));
            assert(pairs_view(es@) =~= s.push((kv, vv)));
            self.entries = es;
        }
    }

    /// Drops the entry of `k`, if any.
    pub fn remove(&mut self, k: &str)
        ensures
            final(self)@ == pm_remove(old(self)@, k@),
    {
        proof { use_type_invariant(&*self); }
        let ghost s = self@;
        proof { lemma_remove_distinct(s, k@); }
        match self.find(k) {
            Some(i) => {
                let mut es: Vec<(String, String)> = Vec::new();
                std::mem::swap(&mut es, &mut self.entries);
                es.remove(i);
                assert(pairs_view(es@) =~= s.remove(i as int));
                self.entries = es;
            },
            None => {},
        }
    }

    /// Inserts the pairs in order.
    pub fn insert_all(&mut self, pairs: &Vec<(String, String)>)
        ensures
            final(self)@ == pm_insert_all(old(self)@, pairs_view(pairs@)),
    {
        let ghost s0 = self@;
        let ghost d = pairs_view(pairs@);
        let mut i: usize = 0;
        while i < pairs.len()
            invariant
                i <= pairs@.len(),
                d == pairs_view(pairs@),
                self@ == pm_insert_all(s0, d.subrange(0, i as int)),
            decreases pairs.len() - i,
        {
            assert(d.subrange(0, i + 1).drop_last() =~= d.subrange(0, i as int));
            let k = pairs[i].0.clone();
            let v = pairs[i].1.clone();
            self.insert(k, v);
            i = i + 1;
        }
        assert(d.subrange(0, pairs@.len() as int) =~= d);
    }

    /// Adds each pair whose key is absent, in order.
    pub fn or_insert_all(&mut self, pairs: &Vec<(String, String)>)
        ensures
            final(self)@ == pm_or_insert_all(old(self)@, pairs_view(pairs@)),
    {
        let ghost s0 = self@;
        let ghost d = pairs_view(pairs@);
        let mut i: usize = 0;
        while i < pairs.len()
            invariant
                i <= pairs@.len(),
                d == pairs_view(pairs@),
                self@ == pm_or_insert_all(s0, d.subrange(0, i as int)),
            decreases pairs.len() - i,
        {
            assert(d.subrange(0, i + 1).drop_last() =~= d.subrange(0, i as int));
            let k = pairs[i].0.clone();
            let v = pairs[i].1.clone();
            self.or_insert(k, v);
            i = i + 1;
        }
        assert(d.subrange(0, pairs@.len() as int) =~= d);
    }

    /// Removes the given keys in order.
    pub fn remove_all(&mut self, keys: &Vec<String>)
        ensures
            final(self)@ == pm_remove_all(old(self)@, strings_view(keys@)),
    {
        let ghost s0 = self@;
        let ghost d = strings_view(keys@);
        let mut i: usize = 0;
        while i < keys.len()
            invariant
                i <= keys@.len(),
                d == strings_view(keys@),
                self@ == pm_remove_all(s0, d.subrange(0, i as int)),
            decreases keys.len() - i,
        {
            assert(d.subrange(0, i + 1).drop_last() =~= d.subrange(0, i as int));
            self.remove(keys[i].as_str());
            i = i + 1;
        }
        assert(d.subrange(0, keys@.len() as int) =~= d);
    }

    /// A copy of the map.
    pub fn copy(&self) -> (r: Self)
        ensures
            r@ == self@,
    {
        proof { use_type_invariant(self); }
        let mut v: Vec<(String, String)> = Vec::new();
        let mut i: usize = 0;
        while i < self.entries.len()
            invariant
                i <= self.entries@.len(),
                v@.len() == i,
                forall|j: int|
                    0 <= j < i ==> (#[trigger] v@[j]).0@ == self.entries@[j].0@ && v@[j].1@
                        == self.entries@[j].1@,
            decreases self.entries.len() - i,
        {
            let k = self.entries[i].0.clone();
            let x = self.entries[i].1.clone();
            v.push((k, x));
            i = i + 1;
        }
        assert(pairs_view(v@) =~= self@);
        ParamMap { entries: v }
    }

    fn rendered(&self, x265_style: bool) -> (r: Vec<String>)
        ensures
            r@.len() == self@.len(),
            forall|j: int|
                0 <= j < self@.len() ==> (#[trigger] r@[j])@ == (if x265_style {
                    x265_entry_text(self@[j])
                } else {
                    cli_entry_text(self@[j])
                }),
    {
        let ghost s = self@;
        let mut out: Vec<String> = Vec::new();
        let mut i: usize = 0;
        while i < self.entries.len()
            invariant
                i <= self.entries@.len(),
                s == pairs_view(self.entries@),
                out@.len() == i,
                forall|j: int|
                    0 <= j < i ==> (#[trigger] out@[j])@ == (if x265_style {
                        x265_entry_text(s[j])
                    } else {
                        cli_entry_text(s[j])
                    }),
            decreases self.entries.len() - i,
        {
            let k = &self.entries[i].0;
            let v = &self.entries[i].1;
            let bare = if x265_style {
                v.as_str().unicode_len() == 0 || str_eq(v.as_str(), "true") || str_eq(
                    v.as_str(),
                    "1",
                )
            } else {
                v.as_str().unicode_len() == 0
            };
            let text = if bare {
                k.clone()
            } else {
                concat3(k.as_str(), "=", v.as_str())
            };
            out.push(text);
            i = i + 1;
        }
        out
    }

    fn joined(&self, x265_style: bool) -> (r: String)
        ensures
            r@ == (if x265_style {
                x265_params_text(self@)
            } else {
                cli_params_text(self@)
            }),
    {
        let parts = self.rendered(x265_style);
        let r = join_strings(&parts, ":");
        proof {
            let f = |e: (Seq<char>, Seq<char>)| x265_entry_text(e);
            let g = |e: (Seq<char>, Seq<char>)| cli_entry_text(e);
            if x265_style {
                assert(strings_view(parts@) =~= self@.map_values(f));
            } else {
                assert(strings_view(parts@) =~= self@.map_values(g));
            }
        }
        r
    }

    /// The x265 parameter string: entries joined by `:`, a bare key where
    /// the value is empty, `true` or `1`.
    pub fn to_x265_string(&self) -> (r: String)
        ensures
            r@ == x265_params_text(self@),
    {
        self.joined(true)
    }

    /// The command-line parameter string: entries joined by `:`, a bare key
    /// where the value is empty.
    pub fn to_cli_string(&self) -> (r: String)
        ensures
            r@ == cli_params_text(self@),
    {
        self.joined(false)
    }
}

} // verus!
