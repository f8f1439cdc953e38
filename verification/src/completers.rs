//! Completion candidates for flag values and positionals.
//!
//! Completers hand back the full candidate set and let the shell's matcher
//! filter it. The one stateful completer is `--labels`, which walks the
//! comma-separated `key=value` list being typed: keys first, then the known
//! values of the key being typed, then the separating comma.

use vstd::prelude::*;
use vstd::string::*;

use crate::output::OutputFormat;
use crate::text::{
    first_index_in_range, first_index_of, last_index_in_range, last_index_of,
    lemma_lt_total, lemma_lt_trans, owned, rfind_char, seq_lt, slice,
    split_once, str_eq, str_less,
};

verus! {

// ---------------------------------------------------------------------------
// Suggestions
// ---------------------------------------------------------------------------

/// One completion candidate.
pub struct Suggestion {
    /// The text put in place of what is being typed.
    pub value: String,
    /// Shown beside the candidate.
    pub description: Option<String>,
    /// Whether accepting it also types a space.
    pub append_whitespace: bool,
}

pub struct SuggestionV {
    pub value: Seq<char>,
    pub description: Option<Seq<char>>,
    pub append_whitespace: bool,
}

impl DeepView for Suggestion {
    type V = SuggestionV;

    open spec fn deep_view(&self) -> SuggestionV {
        SuggestionV {
            value: self.value@,
            description: self.description.deep_view(),
            append_whitespace: self.append_whitespace,
        }
    }
}

/// A described candidate: the description dropped when empty; accepting it
/// types a space, as the shell's default does.
pub open spec fn described(value: Seq<char>, desc: Seq<char>) -> SuggestionV {
    SuggestionV {
        value,
        description: if desc.len() > 0 {
            Some(desc)
        } else {
            None
        },
        append_whitespace: true,
    }
}

/// Candidates for a closed set of `(value, description)` pairs.
pub fn from_pairs(pairs: &[(&str, &str)]) -> (r: Vec<Suggestion>)
    ensures
        r.deep_view() == pairs@.map_values(|p: (&str, &str)| described(p.0@, p.1@)),
{
    let mut out: Vec<Suggestion> = Vec::new();
    let mut i: usize = 0;
    while i < pairs.len()
        invariant
            i <= pairs@.len(),
            out.deep_view() =~= pairs@.take(i as int).map_values(
                |p: (&str, &str)| described(p.0@, p.1@),
            ),
        decreases pairs@.len() - i,
    {
        let (value, desc) = pairs[i];
        let description = if desc.unicode_len() > 0 {
            Some(owned(desc))
        } else {
            None
        };
        let s = Suggestion { value: owned(value), description, append_whitespace: true };
        let ghost before = out.deep_view();
        let ghost sv = s.deep_view();
        out.push(s);
        assert(out.deep_view() =~= before.push(sv));
        assert(pairs@.take(i + 1) =~= pairs@.take(i as int).push(pairs@[i as int]));
        assert(pairs@.take(i + 1).map_values(|p: (&str, &str)| described(p.0@, p.1@))
            =~= pairs@.take(i as int).map_values(|p: (&str, &str)| described(p.0@, p.1@)).push(
            described(value@, desc@),
        ));
        i = i + 1;
    }
    assert(pairs@.take(i as int) =~= pairs@);
    out
}

/// A candidate that does not end the token: accepting it types no space.
pub open spec fn pair_v(value: Seq<char>) -> SuggestionV {
    SuggestionV { value, description: None, append_whitespace: false }
}

fn pair(value: String) -> (s: Suggestion)
    ensures
        s.deep_view() == pair_v(value@),
{
    Suggestion { value, description: None, append_whitespace: false }
}

// ---------------------------------------------------------------------------
// Sorted string sets
// ---------------------------------------------------------------------------

/// `s` is in strictly increasing order (so free of duplicates).
pub open spec fn sorted_strict(s: Seq<Seq<char>>) -> bool {
    forall|i: int, j: int| 0 <= i < j < s.len() ==> seq_lt(#[trigger] s[i], #[trigger] s[j])
}

/// Inserting `x` at `p` keeps a strictly sorted sequence sorted, when
/// everything before `p` sorts before `x` and `x` sorts before everything
/// from `p` on.
proof fn lemma_insert_sorted(s: Seq<Seq<char>>, p: int, x: Seq<char>)
    requires
        0 <= p <= s.len(),
        sorted_strict(s),
        forall|k: int| 0 <= k < p ==> seq_lt(#[trigger] s[k], x),
        p < s.len() ==> seq_lt(x, s[p]),
    ensures
        sorted_strict(s.insert(p, x)),
{
    let t = s.insert(p, x);
    assert forall|i: int, j: int| 0 <= i < j < t.len() implies seq_lt(
        #[trigger] t[i],
        #[trigger] t[j],
    ) by {
        if j < p {
        } else if j == p {
        } else if i < p {
            assert(t[j] == s[j - 1]);
            if j - 1 > p {
                lemma_lt_trans(x, s[p], s[j - 1]);
            }
            lemma_lt_trans(s[i], x, s[j - 1]);
        } else if i == p {
            assert(t[j] == s[j - 1]);
            if j - 1 > p {
                lemma_lt_trans(x, s[p], s[j - 1]);
            }
        } else {
            assert(t[i] == s[i - 1]);
            assert(t[j] == s[j - 1]);
        }
    }
}

/// The first position in a sorted `v` whose element does not sort before `x`.
fn lower_bound(v: &Vec<String>, x: &str) -> (p: usize)
    ensures
        p <= v@.len(),
        forall|k: int| 0 <= k < p ==> seq_lt(#[trigger] v@[k]@, x@),
        p < v@.len() ==> !seq_lt(v@[p as int]@, x@),
{
    let mut p: usize = 0;
    while p < v.len() && str_less(v[p].as_str(), x)
        invariant
            p <= v@.len(),
            forall|k: int| 0 <= k < p ==> seq_lt(#[trigger] v@[k]@, x@),
        decreases v@.len() - p,
    {
        p = p + 1;
    }
    p
}

/// Insert `x` into a strictly sorted list, keeping it sorted and free of
/// duplicates (a `BTreeSet` insertion).
pub fn sorted_insert(v: &mut Vec<String>, x: String)
    requires
        sorted_strict(old(v).deep_view()),
    ensures
        sorted_strict(final(v).deep_view()),
        forall|s: Seq<char>| #[trigger]
            final(v).deep_view().contains(s) <==> old(v).deep_view().contains(s) || s == x@,
{
    let ghost before = v.deep_view();
    let p = lower_bound(v, x.as_str());
    if p < v.len() && str_eq(v[p].as_str(), x.as_str()) {
        assert(before[p as int] == x@);
        return;
    }
    proof {
        if p < before.len() {
            lemma_lt_total(before[p as int], x@);
        }
    }
    let ghost xv = x@;
    v.insert(p, x);
    proof {
        assert(v.deep_view() =~= before.insert(p as int, xv));
        lemma_insert_sorted(before, p as int, xv);
        assert forall|s: Seq<char>| #[trigger]
            v.deep_view().contains(s) <==> before.contains(s) || s == xv by {
            if before.contains(s) {
                let k = choose|k: int| 0 <= k < before.len() && before[k] == s;
                if k < p {
                    assert(v.deep_view()[k] == s);
                } else {
                    assert(v.deep_view()[k + 1] == s);
                }
            }
            if s == xv {
                assert(v.deep_view()[p as int] == s);
            }
            if v.deep_view().contains(s) {
                let k = choose|k: int| 0 <= k < v.deep_view().len() && v.deep_view()[k] == s;
                if k < p {
                    assert(before[k] == s);
                } else if k > p {
                    assert(before[k - 1] == s);
                }
            }
        }
    }
}

// ---------------------------------------------------------------------------
// The label index: every known key, with its known values
// ---------------------------------------------------------------------------

/// Every label key seen, in order, each with the distinct values seen for it,
/// in order (a `BTreeMap<String, BTreeSet<String>>`).
pub struct LabelIndex {
    keys: Vec<String>,
    values: Vec<Vec<String>>,
}

/// The label `(k, v)` is among the entries.
pub open spec fn has_label(e: Seq<(Seq<char>, Seq<Seq<char>>)>, k: Seq<char>, v: Seq<char>) -> bool {
    exists|i: int| 0 <= i < e.len() && #[trigger] e[i].0 == k && e[i].1.contains(v)
}

/// The values of `key`, taking the first entry for it.
pub open spec fn lookup(e: Seq<(Seq<char>, Seq<Seq<char>>)>, key: Seq<char>) -> Option<
    Seq<Seq<char>>,
>
    decreases e.len(),
{
    if e.len() == 0 {
        None
    } else if e[0].0 == key {
        Some(e[0].1)
    } else {
        lookup(e.drop_first(), key)
    }
}

proof fn lemma_lookup(e: Seq<(Seq<char>, Seq<Seq<char>>)>, key: Seq<char>, i: int)
    requires
        0 <= i <= e.len(),
        forall|k: int| 0 <= k < i ==> (#[trigger] e[k]).0 != key,
        i == e.len() || e[i].0 == key,
    ensures
        lookup(e, key) == (if i < e.len() {
            Some(e[i].1)
        } else {
            None::<Seq<Seq<char>>>
        }),
    decreases e.len(),
{
    if e.len() > 0 && e[0].0 != key {
        assert forall|k: int| 0 <= k < i - 1 implies (#[trigger] e.drop_first()[k]).0 != key by {
            assert(e.drop_first()[k] == e[k + 1]);
        }
        lemma_lookup(e.drop_first(), key, i - 1);
    }
}

impl LabelIndex {
    /// The entries, keys in order, each with its values.
    pub closed spec fn entries(&self) -> Seq<(Seq<char>, Seq<Seq<char>>)> {
        Seq::new(self.keys@.len(), |i: int| (self.keys@[i]@, self.values@[i].deep_view()))
    }

    /// Keys strictly sorted; each key's values strictly sorted and non-empty.
    pub closed spec fn wf(&self) -> bool {
        &&& self.keys@.len() == self.values@.len()
        &&& sorted_strict(self.keys.deep_view())
        &&& forall|i: int|
            0 <= i < self.values@.len() ==> sorted_strict(#[trigger] self.values@[i].deep_view())
                && self.values@[i]@.len() > 0
    }

    /// The keys, in order.
    pub closed spec fn key_seq(&self) -> Seq<Seq<char>> {
        self.keys.deep_view()
    }

    /// What well-formedness says of the entries: one per key, keys in strict
    /// order, each key's values non-empty and in strict order.
    pub proof fn lemma_entries(&self)
        requires
            self.wf(),
        ensures
            self.entries().len() == self.key_seq().len(),
            sorted_strict(self.key_seq()),
            forall|i: int|
                0 <= i < self.entries().len() ==> (#[trigger] self.entries()[i]).0
                    == self.key_seq()[i] && sorted_strict(self.entries()[i].1)
                    && self.entries()[i].1.len() > 0,
    {
        assert forall|i: int| 0 <= i < self.entries().len() implies (
        #[trigger] self.entries()[i]).0 == self.key_seq()[i] && sorted_strict(self.entries()[i].1)
            && self.entries()[i].1.len() > 0 by {
            assert(sorted_strict(self.values@[i].deep_view()));
        }
    }

    /// An empty index.
    pub fn new() -> (idx: Self)
        ensures
            idx.wf(),
            idx.entries().len() == 0,
    {
        let idx = LabelIndex { keys: Vec::new(), values: Vec::new() };
        assert(idx.entries() =~= Seq::<(Seq<char>, Seq<Seq<char>>)>::empty());
        idx
    }

    /// Add `value` to the values of the key at `p`.
    #[verifier::rlimit(30)]
    fn insert_value_at(&mut self, p: usize, value: String)
        requires
            old(self).wf(),
            p < old(self).keys@.len(),
        ensures
            final(self).wf(),
            forall|k: Seq<char>, v: Seq<char>|
                has_label(final(self).entries(), k, v) <==> has_label(old(self).entries(), k, v)
                    || (k == old(self).keys@[p as int]@ && v == value@),
    {
        let ghost old_e = self.entries();
        let ghost kv = self.keys@[p as int]@;
        let ghost vv = value@;
        let mut vs = self.values.remove(p);
        let ghost old_vs = vs.deep_view();
        assert(sorted_strict(old_vs)) by {
            assert(sorted_strict(old(self).values@[p as int].deep_view()));
        }
        sorted_insert(&mut vs, value);
        let ghost new_vs = vs.deep_view();
        self.values.insert(p, vs);
        assert(self.values@ =~= old(self).values@.update(p as int, self.values@[p as int]));
        assert(self.keys@ == old(self).keys@);
        assert forall|i: int| 0 <= i < self.values@.len() implies sorted_strict(
            #[trigger] self.values@[i].deep_view(),
        ) && self.values@[i]@.len() > 0 by {
            if i != p {
                assert(self.values@[i] == old(self).values@[i]);
                assert(sorted_strict(old(self).values@[i].deep_view()));
            } else {
                assert(self.values@[i].deep_view() == new_vs);
                assert(new_vs.contains(vv));
            }
        }
        assert(self.keys.deep_view() =~= old(self).keys.deep_view());
        assert(self.wf());
        let ghost ne = self.entries();
        assert forall|i: int| 0 <= i < old_e.len() && i != p implies #[trigger] ne[i] == old_e[i] by {
            assert(self.values@[i] == old(self).values@[i]);
        }
        assert(ne[p as int] == (kv, new_vs));
        assert(old_e[p as int] == (kv, old_vs));
        assert forall|k: Seq<char>, v: Seq<char>|
            has_label(ne, k, v) <==> has_label(old_e, k, v) || (k == kv && v == vv) by {
            if has_label(ne, k, v) {
                let i = choose|i: int|
                    0 <= i < ne.len() && #[trigger] ne[i].0 == k && ne[i].1.contains(v);
                if i != p {
                    assert(old_e[i] == ne[i]);
                    assert(old_e[i].0 == k && old_e[i].1.contains(v));
                } else if v != vv {
                    assert(old_e[i].0 == k && old_e[i].1.contains(v));
                }
            }
            if has_label(old_e, k, v) {
                let i = choose|i: int|
                    0 <= i < old_e.len() && #[trigger] old_e[i].0 == k && old_e[i].1.contains(v);
                if i != p {
                    assert(old_e[i] == ne[i]);
                }
                assert(ne[i].0 == k && ne[i].1.contains(v));
            }
            if k == kv && v == vv {
                assert(ne[p as int].0 == k && ne[p as int].1.contains(v));
            }
        }
    }

    /// Add the new key `key` at `p`, with the single value `value`.
    #[verifier::rlimit(30)]
    fn insert_key_at(&mut self, p: usize, key: String, value: String)
        requires
            old(self).wf(),
            p <= old(self).keys@.len(),
            forall|k: int| 0 <= k < p ==> seq_lt(#[trigger] old(self).keys@[k]@, key@),
            p < old(self).keys@.len() ==> seq_lt(key@, old(self).keys@[p as int]@),
        ensures
            final(self).wf(),
            forall|k: Seq<char>, v: Seq<char>|
                has_label(final(self).entries(), k, v) <==> has_label(old(self).entries(), k, v)
                    || (k == key@ && v == value@),
    {
        let ghost old_e = self.entries();
        let ghost old_keys = self.keys.deep_view();
        let ghost kv = key@;
        let ghost vv = value@;
        proof {
            lemma_insert_sorted(old_keys, p as int, kv);
        }
        let vs = vec![value];
        assert(vs.deep_view() =~= seq![vv]);
        self.keys.insert(p, key);
        self.values.insert(p, vs);
        assert(self.keys.deep_view() =~= old_keys.insert(p as int, kv));
        assert(self.values@ =~= old(self).values@.insert(p as int, vs));
        assert forall|i: int| 0 <= i < self.values@.len() implies sorted_strict(
            #[trigger] self.values@[i].deep_view(),
        ) && self.values@[i]@.len() > 0 by {
            if i < p {
                assert(self.values@[i] == old(self).values@[i]);
                assert(sorted_strict(old(self).values@[i].deep_view()));
            } else if i > p {
                assert(self.values@[i] == old(self).values@[i - 1]);
                assert(sorted_strict(old(self).values@[i - 1].deep_view()));
            } else {
                assert(self.values@[i] == vs);
                assert(self.values@[i].deep_view() =~= seq![vv]);
                assert(sorted_strict(seq![vv]));
            }
        }
        assert(self.wf());
        let ghost ne = self.entries();
        assert(ne =~= old_e.insert(p as int, (kv, seq![vv])));
        assert forall|k: Seq<char>, v: Seq<char>|
            has_label(ne, k, v) <==> has_label(old_e, k, v) || (k == kv && v == vv) by {
            if has_label(ne, k, v) {
                let i = choose|i: int|
                    0 <= i < ne.len() && #[trigger] ne[i].0 == k && ne[i].1.contains(v);
                if i < p {
                    assert(old_e[i] == ne[i]);
                    assert(old_e[i].0 == k && old_e[i].1.contains(v));
                } else if i > p {
                    assert(old_e[i - 1] == ne[i]);
                    assert(old_e[i - 1].0 == k && old_e[i - 1].1.contains(v));
                } else {
                    assert(ne[i].1 == seq![vv]);
                    let j = choose|j: int| 0 <= j < ne[i].1.len() && ne[i].1[j] == v;
                    assert(j == 0);
                }
            }
            if has_label(old_e, k, v) {
                let i = choose|i: int|
                    0 <= i < old_e.len() && #[trigger] old_e[i].0 == k && old_e[i].1.contains(v);
                if i < p {
                    assert(ne[i] == old_e[i]);
                    assert(ne[i].0 == k && ne[i].1.contains(v));
                } else {
                    assert(ne[i + 1] == old_e[i]);
                    assert(ne[i + 1].0 == k && ne[i + 1].1.contains(v));
                }
            }
            if k == kv && v == vv {
                assert(ne[p as int] == (kv, seq![vv]));
                assert(seq![vv][0] == vv);
                assert(ne[p as int].1.contains(vv));
                assert(ne[p as int].0 == kv);
            }
        }
    }

    /// Record the label `key=value`.
    pub fn insert(&mut self, key: String, value: String)
        requires
            old(self).wf(),
        ensures
            final(self).wf(),
            forall|k: Seq<char>, v: Seq<char>|
                has_label(final(self).entries(), k, v) <==> has_label(old(self).entries(), k, v)
                    || (k == key@ && v == value@),
    {
        let p = lower_bound(&self.keys, key.as_str());
        if p < self.keys.len() && str_eq(self.keys[p].as_str(), key.as_str()) {
            self.insert_value_at(p, value);
        } else {
            proof {
                if p < self.keys@.len() {
                    lemma_lt_total(self.keys@[p as int]@, key@);
                }
            }
            self.insert_key_at(p, key, value);
        }
    }
}

/// The label `(k, v)` occurs in one of the maps.
pub open spec fn in_maps(maps: Seq<Seq<(Seq<char>, Seq<char>)>>, k: Seq<char>, v: Seq<char>) -> bool {
    exists|m: int, j: int|
        0 <= m < maps.len() && 0 <= j < maps[m].len() && #[trigger] maps[m][j] == (k, v)
}

/// The label `(k, v)` occurs in the maps before map `m`, or in map `m` before
/// position `j`.
pub open spec fn in_maps_before(
    maps: Seq<Seq<(Seq<char>, Seq<char>)>>,
    k: Seq<char>,
    v: Seq<char>,
    m: int,
    j: int,
) -> bool {
    exists|a: int, b: int|
        0 <= a < maps.len() && 0 <= b < maps[a].len() && (a < m || (a == m && b < j))
            && #[trigger] maps[a][b] == (k, v)
}

impl LabelIndex {
    /// The index of every label in `maps` (the label maps of the listed
    /// objects): each key once, with each of its values once.
    pub fn from_maps(maps: &Vec<Vec<(String, String)>>) -> (idx: Self)
        ensures
            idx.wf(),
            forall|k: Seq<char>, v: Seq<char>|
                has_label(idx.entries(), k, v) <==> in_maps(maps.deep_view(), k, v),
    {
        let ghost mv = maps.deep_view();
        let mut idx = LabelIndex::new();
        let mut m: usize = 0;
        while m < maps.len()
            invariant
                m <= maps@.len(),
                mv == maps.deep_view(),
                idx.wf(),
                forall|k: Seq<char>, v: Seq<char>|
                    has_label(idx.entries(), k, v) <==> in_maps_before(mv, k, v, m as int, 0),
            decreases maps@.len() - m,
        {
            let map = &maps[m];
            let mut j: usize = 0;
            while j < map.len()
                invariant
                    m < maps@.len(),
                    map == maps@[m as int],
                    j <= map@.len(),
                    mv == maps.deep_view(),
                    idx.wf(),
                    forall|k: Seq<char>, v: Seq<char>|
                        has_label(idx.entries(), k, v) <==> in_maps_before(
                            mv,
                            k,
                            v,
                            m as int,
                            j as int,
                        ),
                decreases map@.len() - j,
            {
                let ghost before = idx.entries();
                let ghost e = mv[m as int][j as int];
                assert(e == map@[j as int].deep_view());
                idx.insert(map[j].0.clone(), map[j].1.clone());
                assert forall|k: Seq<char>, v: Seq<char>|
                    has_label(idx.entries(), k, v) <==> in_maps_before(
                        mv,
                        k,
                        v,
                        m as int,
                        j + 1,
                    ) by {
                    if in_maps_before(mv, k, v, m as int, j + 1) {
                        let (a, b) = choose|a: int, b: int|
                            0 <= a < mv.len() && 0 <= b < mv[a].len() && (a < m || (a == m && b
                                < j + 1)) && #[trigger] mv[a][b] == (k, v);
                        if !(a == m && b == j) {
                            assert(in_maps_before(mv, k, v, m as int, j as int));
                        }
                    }
                    if in_maps_before(mv, k, v, m as int, j as int) {
                        let (a, b) = choose|a: int, b: int|
                            0 <= a < mv.len() && 0 <= b < mv[a].len() && (a < m || (a == m && b
                                < j)) && #[trigger] mv[a][b] == (k, v);
                        assert(in_maps_before(mv, k, v, m as int, j + 1));
                    }
                    if k == e.0 && v == e.1 {
                        assert(mv[m as int][j as int] == (k, v));
                        assert(in_maps_before(mv, k, v, m as int, j + 1));
                    }
                }
                j = j + 1;
            }
            assert forall|k: Seq<char>, v: Seq<char>|
                in_maps_before(mv, k, v, m as int, map@.len() as int) <==> in_maps_before(
                    mv,
                    k,
                    v,
                    m + 1,
                    0,
                ) by {
                if in_maps_before(mv, k, v, m + 1, 0) {
                    let (a, b) = choose|a: int, b: int|
                        0 <= a < mv.len() && 0 <= b < mv[a].len() && (a < m + 1 || (a == m + 1
                            && b < 0)) && #[trigger] mv[a][b] == (k, v);
                    assert(in_maps_before(mv, k, v, m as int, map@.len() as int));
                }
                if in_maps_before(mv, k, v, m as int, map@.len() as int) {
                    let (a, b) = choose|a: int, b: int|
                        0 <= a < mv.len() && 0 <= b < mv[a].len() && (a < m || (a == m && b
                            < map@.len())) && #[trigger] mv[a][b] == (k, v);
                    assert(in_maps_before(mv, k, v, m + 1, 0));
                }
            }
            m = m + 1;
        }
        assert forall|k: Seq<char>, v: Seq<char>|
            in_maps_before(mv, k, v, m as int, 0) <==> in_maps(mv, k, v) by {
            if in_maps(mv, k, v) {
                let (a, b) = choose|a: int, b: int|
                    0 <= a < mv.len() && 0 <= b < mv[a].len() && #[trigger] mv[a][b] == (k, v);
                assert(in_maps_before(mv, k, v, m as int, 0));
            }
        }
        idx
    }
}

// ---------------------------------------------------------------------------
// `--labels` completion
// ---------------------------------------------------------------------------

/// The pairs already committed: everything up to and including the last
/// comma.
pub open spec fn committed_part(typed: Seq<char>) -> Seq<char> {
    match last_index_of(typed, ',') {
        Some(i) => typed.subrange(0, i + 1),
        None => Seq::empty(),
    }
}

/// The pair being typed: everything after the last comma.
pub open spec fn last_part(typed: Seq<char>) -> Seq<char> {
    match last_index_of(typed, ',') {
        Some(i) => typed.subrange(i + 1, typed.len() as int),
        None => typed,
    }
}

/// The candidates for `--labels` after `typed`:
/// - no `=` in the pair being typed: every key, as `committed + key + "="`;
/// - a known key and a value that is one of its values: the token with a
///   separating comma appended;
/// - a known key otherwise: each of its values, as `committed + key=value`;
/// - an unknown key: nothing.
pub open spec fn label_filter_spec(typed: Seq<char>, e: Seq<(Seq<char>, Seq<Seq<char>>)>) -> Seq<
    SuggestionV,
> {
    let c = committed_part(typed);
    let l = last_part(typed);
    match first_index_of(l, '=') {
        Some(i) => {
            let key = l.subrange(0, i);
            let val = l.subrange(i + 1, l.len() as int);
            match lookup(e, key) {
                Some(vs) => if val.len() > 0 && vs.contains(val) {
                    seq![pair_v(typed + ","@)]
                } else {
                    vs.map_values(|v: Seq<char>| pair_v(c + key + "="@ + v))
                },
                None => Seq::empty(),
            }
        },
        None => e.map_values(|en: (Seq<char>, Seq<Seq<char>>)| pair_v(c + en.0 + "="@)),
    }
}

/// Whether `x` is one of `v`.
fn contains_str(v: &Vec<String>, x: &str) -> (r: bool)
    ensures
        r == v.deep_view().contains(x@),
{
    let mut i: usize = 0;
    while i < v.len()
        invariant
            i <= v@.len(),
            forall|k: int| 0 <= k < i ==> (#[trigger] v@[k])@ != x@,
        decreases v@.len() - i,
    {
        if str_eq(v[i].as_str(), x) {
            assert(v.deep_view()[i as int] == x@);
            return true;
        }
        i = i + 1;
    }
    assert forall|k: int| 0 <= k < v.deep_view().len() implies v.deep_view()[k] != x@ by {
        assert(v.deep_view()[k] == v@[k]@);
    }
    false
}

impl LabelIndex {
    /// The position of `key`, the one its `lookup` finds.
    fn find_key(&self, key: &str) -> (r: Option<usize>)
        requires
            self.wf(),
        ensures
            r is None ==> lookup(self.entries(), key@) is None,
            r matches Some(i) ==> i < self.values@.len() && lookup(self.entries(), key@) == Some(
                self.values@[i as int].deep_view(),
            ),
    {
        let ghost e = self.entries();
        let mut i: usize = 0;
        while i < self.keys.len()
            invariant
                self.wf(),
                e == self.entries(),
                i <= self.keys@.len(),
                forall|k: int| 0 <= k < i ==> (#[trigger] e[k]).0 != key@,
            decreases self.keys@.len() - i,
        {
            if str_eq(self.keys[i].as_str(), key) {
                proof {
                    lemma_lookup(e, key@, i as int);
                }
                return Some(i);
            }
            i = i + 1;
        }
        proof {
            lemma_lookup(e, key@, i as int);
        }
        None
    }

    /// Every key, as `committed + key + "="`.
    fn key_candidates(&self, committed: &str) -> (r: Vec<Suggestion>)
        requires
            self.wf(),
        ensures
            r.deep_view() == self.entries().map_values(
                |en: (Seq<char>, Seq<Seq<char>>)| pair_v(committed@ + en.0 + "="@),
            ),
    {
        let ghost e = self.entries();
        let mut out: Vec<Suggestion> = Vec::new();
        let mut i: usize = 0;
        while i < self.keys.len()
            invariant
                self.wf(),
                e == self.entries(),
                i <= self.keys@.len(),
                out.deep_view() =~= e.take(i as int).map_values(
                    |en: (Seq<char>, Seq<Seq<char>>)| pair_v(committed@ + en.0 + "="@),
                ),
            decreases self.keys@.len() - i,
        {
            let value = owned(committed).concat(self.keys[i].as_str()).concat("=");
            let ghost before = out.deep_view();
            out.push(pair(value));
            assert(out.deep_view() =~= before.push(pair_v(committed@ + e[i as int].0 + "="@)));
            assert(e.take(i + 1) =~= e.take(i as int).push(e[i as int]));
            assert(e.take(i + 1).map_values(
                |en: (Seq<char>, Seq<Seq<char>>)| pair_v(committed@ + en.0 + "="@),
            ) =~= e.take(i as int).map_values(
                |en: (Seq<char>, Seq<Seq<char>>)| pair_v(committed@ + en.0 + "="@),
            ).push(pair_v(committed@ + e[i as int].0 + "="@)));
            i = i + 1;
        }
        assert(e.take(i as int) =~= e);
        out
    }
}

/// Each value, as `committed + key + "=" + value`.
fn value_candidates(values: &Vec<String>, committed: &str, key: &str) -> (r: Vec<Suggestion>)
    ensures
        r.deep_view() == values.deep_view().map_values(
            |v: Seq<char>| pair_v(committed@ + key@ + "="@ + v),
        ),
{
    let ghost vs = values.deep_view();
    let mut out: Vec<Suggestion> = Vec::new();
    let mut i: usize = 0;
    while i < values.len()
        invariant
            vs == values.deep_view(),
            i <= values@.len(),
            out.deep_view() =~= vs.take(i as int).map_values(
                |v: Seq<char>| pair_v(committed@ + key@ + "="@ + v),
            ),
        decreases values@.len() - i,
    {
        let value = owned(committed).concat(key).concat("=").concat(values[i].as_str());
        let ghost before = out.deep_view();
        out.push(pair(value));
        assert(out.deep_view() =~= before.push(pair_v(committed@ + key@ + "="@ + vs[i as int])));
        assert(vs.take(i + 1) =~= vs.take(i as int).push(vs[i as int]));
        assert(vs.take(i + 1).map_values(|v: Seq<char>| pair_v(committed@ + key@ + "="@ + v))
            =~= vs.take(i as int).map_values(
            |v: Seq<char>| pair_v(committed@ + key@ + "="@ + v),
        ).push(pair_v(committed@ + key@ + "="@ + vs[i as int])));
        i = i + 1;
    }
    assert(vs.take(i as int) =~= vs);
    out
}

/// The `--labels` candidates after `typed`, from the known labels.
pub fn label_filter(typed: &str, labels: &LabelIndex) -> (r: Vec<Suggestion>)
    requires
        labels.wf(),
    ensures
        r.deep_view() == label_filter_spec(typed@, labels.entries()),
{
    let n = typed.unicode_len();
    let (committed, last) = match rfind_char(typed, ',') {
        Some(i) => {
            proof {
                last_index_in_range(typed@, ',');
            }
            (slice(typed, 0, i + 1), slice(typed, i + 1, n))
        },
        None => {
            let none = slice(typed, 0, 0);
            assert(none@ =~= Seq::<char>::empty());
            (none, typed)
        },
    };
    assert(committed@ == committed_part(typed@));
    assert(last@ == last_part(typed@));
    match split_once(last, '=') {
        Some((key, val)) => match labels.find_key(key) {
            Some(i) => {
                let values = &labels.values[i];
                if val.unicode_len() > 0 && contains_str(values, val) {
                    let mut out: Vec<Suggestion> = Vec::new();
                    out.push(pair(owned(typed).concat(",")));
                    assert(out.deep_view() =~= seq![pair_v(typed@ + ","@)]);
                    out
                } else {
                    value_candidates(values, committed, key)
                }
            },
            None => {
                let out: Vec<Suggestion> = Vec::new();
                assert(out.deep_view() =~= Seq::<SuggestionV>::empty());
                out
            },
        },
        None => labels.key_candidates(committed),
    }
}

/// The `--labels` candidates after `typed`, from the label maps of the
/// listed objects: those of the index of every label in the maps.
pub fn label_filter_from(typed: &str, maps: &Vec<Vec<(String, String)>>) -> (r: Vec<Suggestion>)
    ensures
        exists|idx: LabelIndex|
            {
                &&& idx.wf()
                &&& forall|k: Seq<char>, v: Seq<char>|
                    has_label(idx.entries(), k, v) <==> in_maps(maps.deep_view(), k, v)
                &&& r.deep_view() == label_filter_spec(typed@, #[trigger] idx.entries())
            },
{
    let idx = LabelIndex::from_maps(maps);
    let r = label_filter(typed, &idx);
    assert(idx.wf());
    r
}

// ---------------------------------------------------------------------------
// What to complete
// ---------------------------------------------------------------------------

/// The argument being completed: a positional (by index) or a flag (by name,
/// long or short).
pub enum ArgKind {
    Positional(usize),
    Flag(String),
}

pub enum ArgKindV {
    Positional(nat),
    Flag(Seq<char>),
}

impl DeepView for ArgKind {
    type V = ArgKindV;

    open spec fn deep_view(&self) -> ArgKindV {
        match self {
            ArgKind::Positional(i) => ArgKindV::Positional(*i as nat),
            ArgKind::Flag(n) => ArgKindV::Flag(n@),
        }
    }
}

/// Where the candidates for an argument come from.
#[derive(Debug, Clone, Copy, PartialEq, Eq, Structural)]
pub enum CompletionSource {
    /// No completion.
    Nothing,
    /// The output formats.
    OutputFormats,
    /// The container states.
    Status,
    /// The container health states.
    Health,
    /// The plugin capability kinds.
    Capabilities,
    /// The daemon's container names.
    ContainerNames,
    /// The daemon's container ids.
    ContainerIds,
    /// The daemon's image references.
    ImageRefs,
    /// The daemon's network names.
    NetworkNames,
    /// The daemon's volume names.
    VolumeNames,
    /// The volume drivers in use.
    VolumeDrivers,
    /// The daemon's plugin names.
    PluginNames,
    /// The labels of the daemon's containers.
    ContainerLabels,
    /// The labels of the daemon's images.
    ImageLabels,
    /// The labels of the daemon's volumes.
    VolumeLabels,
}

/// `--output` or its short form `-o`.
pub open spec fn is_output_flag(name: Seq<char>) -> bool {
    name == "output"@ || name == "o"@
}

/// Whether `name` is `--output` or `-o`.
pub fn output_flag_name(name: &str) -> (r: bool)
    ensures
        r == is_output_flag(name@),
{
    str_eq(name, "output") || str_eq(name, "o")
}

pub open spec fn ref_and_output_spec(arg: ArgKindV, names: CompletionSource) -> CompletionSource {
    match arg {
        ArgKindV::Positional(i) => if i == 0 {
            names
        } else {
            CompletionSource::Nothing
        },
        ArgKindV::Flag(n) => if is_output_flag(n) {
            CompletionSource::OutputFormats
        } else {
            CompletionSource::Nothing
        },
    }
}

/// The completion shared by commands that take one object reference: the
/// reference positional from `names`, and `--output`.
pub fn ref_and_output(arg: &ArgKind, names: CompletionSource) -> (r: CompletionSource)
    ensures
        r == ref_and_output_spec(arg.deep_view(), names),
{
    match arg {
        ArgKind::Positional(i) => if *i == 0 {
            names
        } else {
            CompletionSource::Nothing
        },
        ArgKind::Flag(n) => if output_flag_name(n.as_str()) {
            CompletionSource::OutputFormats
        } else {
            CompletionSource::Nothing
        },
    }
}

pub open spec fn output_completion_spec(arg: ArgKindV) -> CompletionSource {
    match arg {
        ArgKindV::Flag(n) => if is_output_flag(n) {
            CompletionSource::OutputFormats
        } else {
            CompletionSource::Nothing
        },
        _ => CompletionSource::Nothing,
    }
}

/// The completion of commands whose only completable argument is
/// `--output`.
pub fn output_completion(arg: &ArgKind) -> (r: CompletionSource)
    ensures
        r == output_completion_spec(arg.deep_view()),
{
    match arg {
        ArgKind::Flag(n) => if output_flag_name(n.as_str()) {
            CompletionSource::OutputFormats
        } else {
            CompletionSource::Nothing
        },
        _ => CompletionSource::Nothing,
    }
}

pub open spec fn status_table() -> Seq<(&'static str, &'static str)> {
    seq![
        ("created", "Created but not started"),
        ("restarting", "Restarting"),
        ("running", "Running"),
        ("removing", "Being removed"),
        ("paused", "Paused"),
        ("exited", "Stopped after running"),
        ("dead", "Dead - the daemon could not remove it"),
    ]
}

/// The container states `--status` takes.
pub fn status_pairs() -> (v: Vec<(&'static str, &'static str)>)
    ensures
        v@ == status_table(),
{
    let v = vec![
        ("created", "Created but not started"),
        ("restarting", "Restarting"),
        ("running", "Running"),
        ("removing", "Being removed"),
        ("paused", "Paused"),
        ("exited", "Stopped after running"),
        ("dead", "Dead - the daemon could not remove it"),
    ];
    assert(v@ =~= status_table());
    v
}

pub open spec fn health_table() -> Seq<(&'static str, &'static str)> {
    seq![
        ("starting", "Healthcheck grace period"),
        ("healthy", "Passing its healthcheck"),
        ("unhealthy", "Failing its healthcheck"),
        ("none", "No healthcheck configured"),
    ]
}

/// The container health states `--health` takes.
pub fn health_pairs() -> (v: Vec<(&'static str, &'static str)>)
    ensures
        v@ == health_table(),
{
    let v = vec![
        ("starting", "Healthcheck grace period"),
        ("healthy", "Passing its healthcheck"),
        ("unhealthy", "Failing its healthcheck"),
        ("none", "No healthcheck configured"),
    ];
    assert(v@ =~= health_table());
    v
}

pub open spec fn capability_table() -> Seq<(&'static str, &'static str)> {
    seq![
        ("volumedriver", "Provides a volume driver"),
        ("networkdriver", "Provides a network driver"),
        ("ipamdriver", "Provides an IPAM driver"),
        ("authz", "Authorization plugin"),
        ("logdriver", "Provides a logging driver"),
        ("metricscollector", "Exposes metrics to collect"),
    ]
}

/// The plugin capability kinds `--capability` takes.
pub fn capability_pairs() -> (v: Vec<(&'static str, &'static str)>)
    ensures
        v@ == capability_table(),
{
    let v = vec![
        ("volumedriver", "Provides a volume driver"),
        ("networkdriver", "Provides a network driver"),
        ("ipamdriver", "Provides an IPAM driver"),
        ("authz", "Authorization plugin"),
        ("logdriver", "Provides a logging driver"),
        ("metricscollector", "Exposes metrics to collect"),
    ];
    assert(v@ =~= capability_table());
    v
}

/// The closed set of `(value, description)` pairs of a source, if it has one.
pub open spec fn static_table(source: CompletionSource) -> Option<Seq<(&'static str, &'static str)>> {
    match source {
        CompletionSource::OutputFormats => Some(crate::output::format_table()),
        CompletionSource::Status => Some(status_table()),
        CompletionSource::Health => Some(health_table()),
        CompletionSource::Capabilities => Some(capability_table()),
        _ => None,
    }
}

/// Whether the candidates of `source` are a closed set known without asking
/// the daemon.
pub open spec fn is_static(source: CompletionSource) -> bool {
    source == CompletionSource::OutputFormats || source == CompletionSource::Status || source
        == CompletionSource::Health || source == CompletionSource::Capabilities
}

/// The candidates of a closed-set source; `None` for sources the daemon
/// must be asked about, and for no completion.
pub fn static_candidates(source: CompletionSource) -> (r: Option<Vec<Suggestion>>)
    ensures
        r is Some <==> is_static(source),
        r matches Some(v) ==> v.deep_view() == static_table(source)->0.map_values(
            |p: (&str, &str)| described(p.0@, p.1@),
        ),
{
    let pairs = match source {
        CompletionSource::OutputFormats => OutputFormat::all(),
        CompletionSource::Status => status_pairs(),
        CompletionSource::Health => health_pairs(),
        CompletionSource::Capabilities => capability_pairs(),
        _ => return None,
    };
    let ps = pairs.as_slice();
    let v = from_pairs(ps);
    Some(v)
}

/// What has been typed for a flag, with the completion cursor's character
/// dropped when the shell asks for it (`strip`).
pub open spec fn flag_prefix_spec(raw: Seq<char>, strip: bool) -> Seq<char> {
    if strip && raw.len() > 0 {
        raw.drop_last()
    } else {
        raw
    }
}

/// What has been typed for a flag, with the completion cursor's character
/// dropped when `strip` is set. The shell's cursor character is ASCII, so a
/// stripped value ends in a one-byte character.
pub fn flag_prefix(raw: &str, strip: bool) -> (r: &str)
    requires
        strip && raw@.len() > 0 ==> (raw@.last() as u32) < 0x80,
    ensures
        r@ == flag_prefix_spec(raw@, strip),
{
    let n = raw.unicode_len();
    if strip && n > 0 {
        let r = slice(raw, 0, n - 1);
        assert(r@ =~= raw@.drop_last());
        r
    } else {
        raw
    }
}

} // verus!
