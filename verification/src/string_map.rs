//! An ordered string-to-string map: the query parameters of the Henrik
//! requests and the rate-limit headers are collected in one, so they come
//! out in ascending key order, as a `BTreeMap<String, String>` yields them.
//!
//! Keys are ordered character by character; since UTF-8 preserves the order
//! of code points this is the byte-wise order `String` uses.
use vstd::prelude::*;

use crate::text::{chars_of, str_eq};

verus! {

/// Lexicographic order of character sequences.
pub open spec fn lex_lt(a: Seq<char>, b: Seq<char>) -> bool
    decreases a.len(),
{
    if a.len() == 0 {
        b.len() > 0
    } else if b.len() == 0 {
        false
    } else if a[0] != b[0] {
        a[0] < b[0]
    } else {
        lex_lt(a.drop_first(), b.drop_first())
    }
}

/// Keys strictly ascending.
pub open spec fn keys_ascending(e: Seq<(String, String)>) -> bool {
    forall|i: int, j: int| 0 <= i < j < e.len() ==> lex_lt(#[trigger] e[i].0@, #[trigger] e[j].0@)
}

/// The value of the first entry with key `k`.
pub open spec fn lookup(e: Seq<(String, String)>, k: Seq<char>) -> Option<Seq<char>>
    decreases e.len(),
{
    if e.len() == 0 {
        None
    } else if e[0].0@ == k {
        Some(e[0].1@)
    } else {
        lookup(e.drop_first(), k)
    }
}

pub proof fn lemma_lex_irreflexive(a: Seq<char>)
    ensures
        !lex_lt(a, a),
    decreases a.len(),
{
    if a.len() > 0 {
        lemma_lex_irreflexive(a.drop_first());
    }
}

pub proof fn lemma_lex_transitive(a: Seq<char>, b: Seq<char>, c: Seq<char>)
    requires
        lex_lt(a, b),
        lex_lt(b, c),
    ensures
        lex_lt(a, c),
    decreases a.len(),
{
    if a.len() > 0 && b.len() > 0 && c.len() > 0 {
        if a[0] == b[0] && b[0] == c[0] {
            lemma_lex_transitive(a.drop_first(), b.drop_first(), c.drop_first());
        }
    }
}

pub proof fn lemma_lex_total(a: Seq<char>, b: Seq<char>)
    requires
        a != b,
    ensures
        lex_lt(a, b) || lex_lt(b, a),
    decreases a.len(),
{
    if a.len() == 0 && b.len() == 0 {
        assert(a =~= b);
    } else if a.len() > 0 && b.len() > 0 && a[0] == b[0] {
        if a.drop_first() == b.drop_first() {
            assert(a =~= seq![a[0]] + a.drop_first());
            assert(b =~= seq![b[0]] + b.drop_first());
        } else {
            lemma_lex_total(a.drop_first(), b.drop_first());
        }
    }
}

proof fn lemma_lookup_at(e: Seq<(String, String)>, i: int)
    requires
        0 <= i < e.len(),
        forall|j: int| 0 <= j < i ==> #[trigger] e[j].0@ != e[i].0@,
    ensures
        lookup(e, e[i].0@) == Some(e[i].1@),
    decreases i,
{
    if i > 0 {
        assert forall|j: int| 0 <= j < i - 1 implies #[trigger] e.drop_first()[j].0@
            != e.drop_first()[i - 1].0@ by {
            assert(e.drop_first()[j] == e[j + 1]);
        }
        lemma_lookup_at(e.drop_first(), i - 1);
    }
}

proof fn lemma_lookup_absent(e: Seq<(String, String)>, k: Seq<char>)
    requires
        forall|j: int| 0 <= j < e.len() ==> #[trigger] e[j].0@ != k,
    ensures
        lookup(e, k) is None,
    decreases e.len(),
{
    if e.len() > 0 {
        assert forall|j: int| 0 <= j < e.len() - 1 implies #[trigger] e.drop_first()[j].0@ != k by {
            assert(e.drop_first()[j] == e[j + 1]);
        }
        lemma_lookup_absent(e.drop_first(), k);
    }
}

/// In a list with ascending keys, the lookup of a key finds the one entry
/// that holds it.
pub proof fn lemma_lookup_ascending(e: Seq<(String, String)>, k: Seq<char>)
    requires
        keys_ascending(e),
    ensures
        forall|i: int| 0 <= i < e.len() && #[trigger] e[i].0@ == k ==> lookup(e, k) == Some(e[i].1@),
        (forall|i: int| 0 <= i < e.len() ==> #[trigger] e[i].0@ != k) ==> lookup(e, k) is None,
{
    assert forall|i: int| 0 <= i < e.len() && #[trigger] e[i].0@ == k implies lookup(e, k) == Some(
        e[i].1@,
    ) by {
        assert forall|j: int| 0 <= j < i implies #[trigger] e[j].0@ != e[i].0@ by {
            assert(lex_lt(e[j].0@, e[i].0@));
            lemma_lex_irreflexive(e[i].0@);
        }
        lemma_lookup_at(e, i);
    }
    if forall|i: int| 0 <= i < e.len() ==> #[trigger] e[i].0@ != k {
        lemma_lookup_absent(e, k);
    }
}

/// A map from strings to strings whose entries are kept in ascending key
/// order.
pub struct StringMap {
    pub entries: Vec<(String, String)>,
}

impl StringMap {
    /// Keys strictly ascending.
    pub open spec fn wf(self) -> bool {
        keys_ascending(self.entries@)
    }

    /// The value stored for `k`.
    pub open spec fn get_spec(self, k: Seq<char>) -> Option<Seq<char>> {
        lookup(self.entries@, k)
    }

    /// `after` is `self` with `value` stored under `key`.
    pub open spec fn stores(self, after: StringMap, key: Seq<char>, value: Seq<char>) -> bool {
        &&& after.wf()
        &&& forall|k: Seq<char>| #[trigger]
            after.get_spec(k) == if k == key {
                Some(value)
            } else {
                self.get_spec(k)
            }
    }

    /// The empty map.
    pub fn new() -> (r: StringMap)
        ensures
            r.wf(),
            r.entries@.len() == 0,
    {
        StringMap { entries: Vec::new() }
    }

    /// Whether `a` orders before `b`.
    fn key_less(a: &str, b: &str) -> (r: bool)
        ensures
            r == lex_lt(a@, b@),
    {
        let x = chars_of(a);
        let y = chars_of(b);
        let mut k: usize = 0;
        assert(x@.skip(0) =~= x@);
        assert(y@.skip(0) =~= y@);
        while k < x.len() && k < y.len() && x[k] == y[k]
            invariant
                k <= x.len(),
                k <= y.len(),
                lex_lt(x@, y@) == lex_lt(x@.skip(k as int), y@.skip(k as int)),
            decreases x.len() - k,
        {
            assert(x@.skip(k as int).drop_first() =~= x@.skip(k + 1));
            assert(y@.skip(k as int).drop_first() =~= y@.skip(k + 1));
            k += 1;
        }
        if k == x.len() {
            k < y.len()
        } else if k == y.len() {
            false
        } else {
            x[k] < y[k]
        }
    }

    /// Stores `value` under `key`, replacing an earlier value of that key
    /// (`BTreeMap::insert`).
    pub fn insert(&mut self, key: String, value: String)
        requires
            old(self).wf(),
        ensures
            old(self).stores(*final(self), key@, value@),
    {
        let ghost e = self.entries@;
        let mut p: usize = 0;
        while p < self.entries.len() && Self::key_less(self.entries[p].0.as_str(), key.as_str())
            invariant
                p <= self.entries.len(),
                self.entries@ == e,
                keys_ascending(e),
                forall|j: int| 0 <= j < p ==> lex_lt(#[trigger] e[j].0@, key@),
            decreases self.entries.len() - p,
        {
            p += 1;
        }
        proof {
            lemma_lookup_ascending(e, key@);
        }
        if p < self.entries.len() && str_eq(self.entries[p].0.as_str(), key.as_str()) {
            let ghost kv = key;
            let ghost vv = value;
            self.entries.set(p, (key, value));
            proof {
                let n = self.entries@;
                assert(n == e.update(p as int, (kv, vv)));
                assert(keys_ascending(n));
                assert forall|k: Seq<char>| #[trigger]
                    lookup(n, k) == if k == kv@ {
                        Some(vv@)
                    } else {
                        lookup(e, k)
                    } by {
                    lemma_lookup_ascending(n, k);
                    lemma_lookup_ascending(e, k);
                    if k == kv@ {
                        assert(n[p as int].0@ == k);
                    } else {
                        if exists|i: int| 0 <= i < e.len() && #[trigger] e[i].0@ == k {
                            let i = choose|i: int| 0 <= i < e.len() && #[trigger] e[i].0@ == k;
                            assert(n[i].0@ == k);
                        }
                    }
                }
            }
        } else {
            let ghost kv = key;
            let ghost vv = value;
            proof {
                if p < e.len() {
                    lemma_lex_total(e[p as int].0@, kv@);
                }
                assert forall|j: int| p <= j < e.len() implies lex_lt(kv@, #[trigger] e[j].0@) by {
                    if j > p {
                        lemma_lex_transitive(kv@, e[p as int].0@, e[j].0@);
                    }
                }
            }
            self.entries.insert(p, (key, value));
            proof {
                let n = self.entries@;
                assert(n =~= e.insert(p as int, (kv, vv)));
                assert forall|i: int, j: int| 0 <= i < j < n.len() implies lex_lt(
                    #[trigger] n[i].0@,
                    #[trigger] n[j].0@,
                ) by {
                    if j < p {
                    } else if j == p {
                    } else if i < p {
                        lemma_lex_transitive(n[i].0@, kv@, n[j].0@);
                    } else if i == p {
                    } else {
                    }
                }
                assert forall|k: Seq<char>| #[trigger]
                    lookup(n, k) == if k == kv@ {
                        Some(vv@)
                    } else {
                        lookup(e, k)
                    } by {
                    lemma_lookup_ascending(n, k);
                    lemma_lookup_ascending(e, k);
                    if k == kv@ {
                        assert(n[p as int].0@ == k);
                    } else {
                        if exists|i: int| 0 <= i < e.len() && #[trigger] e[i].0@ == k {
                            let i = choose|i: int| 0 <= i < e.len() && #[trigger] e[i].0@ == k;
                            if i < p {
                                assert(n[i].0@ == k);
                            } else {
                                assert(n[i + 1].0@ == k);
                            }
                        } else {
                            assert forall|i: int| 0 <= i < n.len() implies #[trigger] n[i].0@ != k by {
                                if i < p {
                                    assert(n[i] == e[i]);
                                } else if i > p {
                                    assert(n[i] == e[i - 1]);
                                }
                            }
                        }
                    }
                }
            }
        }
    }

    /// The entries in ascending key order.
    pub fn into_entries(self) -> (r: Vec<(String, String)>)
        ensures
            r@ == self.entries@,
    {
        self.entries
    }
}

/// Storing twice under one key keeps the second value; other keys are
/// untouched.
pub proof fn law_insert_last_wins(
    m0: StringMap,
    m1: StringMap,
    m2: StringMap,
    key: Seq<char>,
    v1: Seq<char>,
    v2: Seq<char>,
)
    requires
        m0.stores(m1, key, v1),
        m1.stores(m2, key, v2),
    ensures
        m2.get_spec(key) == Some(v2),
        forall|k: Seq<char>| k != key ==> #[trigger] m2.get_spec(k) == m0.get_spec(k),
{
    assert(m2.get_spec(key) == Some(v2));
    assert forall|k: Seq<char>| k != key implies #[trigger] m2.get_spec(k) == m0.get_spec(k) by {
        assert(m2.get_spec(k) == m1.get_spec(k));
    }
}

} // verus!
