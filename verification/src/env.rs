//! Environment and label mappings.
//!
//! `StringMap` is an ordered key/value mapping with at most one entry per
//! key.  `merge_env` combines a pre-existing `"KEY=VALUE"` entry list with a
//! module specification's own environment mapping: the specification's
//! entries win on key collision, entries only in the pre-existing list are
//! preserved, and no duplicate key survives the merge.

use vstd::prelude::*;

use crate::text::str_eq;

verus! {

// ------------------------------------------------------------------
// Parsing of "KEY=VALUE" entries
// ------------------------------------------------------------------

/// Index of the first `'='` in `s`, or `s.len()` when there is none.
pub open spec fn eq_pos(s: Seq<char>) -> int
    decreases s.len(),
{
    if s.len() == 0 {
        0
    } else if s[0] == '=' {
        0
    } else {
        1 + eq_pos(s.subrange(1, s.len() as int))
    }
}

pub proof fn lemma_eq_pos(s: Seq<char>)
    ensures
        0 <= eq_pos(s) <= s.len(),
        forall|j: int| 0 <= j < eq_pos(s) ==> s[j] != '=',
        eq_pos(s) < s.len() ==> s[eq_pos(s)] == '=',
    decreases s.len(),
{
    if s.len() == 0 {
    } else if s[0] == '=' {
    } else {
        let t = s.subrange(1, s.len() as int);
        lemma_eq_pos(t);
        assert forall|j: int| 0 <= j < eq_pos(s) implies s[j] != '=' by {
            if j > 0 {
                assert(t[j - 1] != '=');
            }
        }
    }
}

/// The key of a `"KEY=VALUE"` entry: everything before the first `'='`.
pub open spec fn env_key(s: Seq<char>) -> Seq<char> {
    s.subrange(0, eq_pos(s))
}

/// The value of a `"KEY=VALUE"` entry: everything after the first `'='`,
/// or empty when the entry has no `'='`.
pub open spec fn env_val(s: Seq<char>) -> Seq<char> {
    if eq_pos(s) < s.len() {
        s.subrange(eq_pos(s) + 1, s.len() as int)
    } else {
        Seq::empty()
    }
}

/// The `"KEY=VALUE"` entry formed from a key and a value.
pub open spec fn env_entry(k: Seq<char>, v: Seq<char>) -> Seq<char> {
    k + seq!['='] + v
}

/// A key that contains no `'='`, so that its entry parses back to it.
pub open spec fn key_free(k: Seq<char>) -> bool {
    forall|i: int| 0 <= i < k.len() ==> k[i] != '='
}

pub proof fn lemma_entry_parse(k: Seq<char>, v: Seq<char>)
    requires
        key_free(k),
    ensures
        eq_pos(env_entry(k, v)) == k.len(),
        env_key(env_entry(k, v)) == k,
        env_val(env_entry(k, v)) == v,
    decreases k.len(),
{
    let e = env_entry(k, v);
    if k.len() == 0 {
        assert(e[0] == '=');
        assert(env_key(e) =~= k);
        assert(env_val(e) =~= v);
    } else {
        let k1 = k.subrange(1, k.len() as int);
        lemma_entry_parse(k1, v);
        assert(e[0] == k[0]);
        assert(e[0] != '=');
        assert(e.subrange(1, e.len() as int) =~= env_entry(k1, v));
        assert(eq_pos(e) == k.len());
        assert(env_key(e) =~= k);
        assert(env_val(e) =~= v);
    }
}

// ------------------------------------------------------------------
// Key/value pair sequences
// ------------------------------------------------------------------

/// Whether some pair in `pairs` carries the key `k`.
pub open spec fn has_key(pairs: Seq<(Seq<char>, Seq<char>)>, k: Seq<char>) -> bool {
    exists|i: int| 0 <= i < pairs.len() && pairs[i].0 == k
}

/// At most one pair per key.
pub open spec fn distinct_keys(pairs: Seq<(Seq<char>, Seq<char>)>) -> bool {
    forall|i: int, j: int| 0 <= i < j < pairs.len() ==> pairs[i].0 != pairs[j].0
}

/// Replace the value carried under `k` in place, or append a new pair.
pub open spec fn upsert(
    pairs: Seq<(Seq<char>, Seq<char>)>,
    k: Seq<char>,
    v: Seq<char>,
) -> Seq<(Seq<char>, Seq<char>)> {
    if has_key(pairs, k) {
        pairs.update(choose|i: int| 0 <= i < pairs.len() && pairs[i].0 == k, (k, v))
    } else {
        pairs.push((k, v))
    }
}

/// The mapping a pair sequence denotes; a later pair wins over an earlier
/// one with the same key.
pub open spec fn pairs_map(pairs: Seq<(Seq<char>, Seq<char>)>) -> Map<Seq<char>, Seq<char>>
    decreases pairs.len(),
{
    if pairs.len() == 0 {
        Map::empty()
    } else {
        pairs_map(pairs.drop_last()).insert(pairs.last().0, pairs.last().1)
    }
}

// ------------------------------------------------------------------
// StringMap
// ------------------------------------------------------------------

/// An ordered string-to-string mapping with at most one entry per key.
#[derive(Debug, PartialEq)]
pub struct StringMap {
    pairs: Vec<(String, String)>,
}

impl View for StringMap {
    type V = Seq<(Seq<char>, Seq<char>)>;

    closed spec fn view(&self) -> Seq<(Seq<char>, Seq<char>)> {
        self.pairs@.map_values(|p: (String, String)| (p.0@, p.1@))
    }
}

impl StringMap {
    /// At most one entry per key; every reachable map satisfies this.
    #[verifier::type_invariant]
    spec fn inv(self) -> bool {
        distinct_keys(self@)
    }

    pub fn new() -> (r: StringMap)
        ensures
            r@ == Seq::<(Seq<char>, Seq<char>)>::empty(),
    {
        let r = StringMap { pairs: Vec::new() };
        proof {
            assert(r@ =~= Seq::<(Seq<char>, Seq<char>)>::empty());
        }
        r
    }

    pub fn key_at(&self, i: usize) -> (r: &String)
        requires
            i < self@.len(),
        ensures
            r@ == self@[i as int].0,
    {
        &self.pairs[i].0
    }

    pub fn val_at(&self, i: usize) -> (r: &String)
        requires
            i < self@.len(),
        ensures
            r@ == self@[i as int].1,
    {
        &self.pairs[i].1
    }

    /// A copy with the same entries in the same order.
    pub fn duplicate(&self) -> (r: StringMap)
        ensures
            r@ == self@,
    {
        let n = self.pairs.len();
        let mut pairs: Vec<(String, String)> = Vec::new();
        let mut i: usize = 0;
        while i < n
            invariant
                n == self.pairs@.len(),
                0 <= i <= n,
                pairs@.len() == i,
                forall|j: int|
                    0 <= j < i ==> (#[trigger] pairs@[j].0@, pairs@[j].1@) == (
                        self.pairs@[j].0@,
                        self.pairs@[j].1@,
                    ),
            decreases n - i,
        {
            pairs.push((self.pairs[i].0.clone(), self.pairs[i].1.clone()));
            i = i + 1;
        }
        proof {
            use_type_invariant(self);
            assert(pairs@.map_values(|p: (String, String)| (p.0@, p.1@)) =~= self@);
        }
        let r = StringMap { pairs };
        r
    }

    pub fn len(&self) -> (n: usize)
        ensures
            n == self@.len(),
    {
        self.pairs.len()
    }

    pub fn contains_key(&self, k: &str) -> (r: bool)
        ensures
            r == has_key(self@, k@),
    {
        let n = self.pairs.len();
        let mut i: usize = 0;
        while i < n
            invariant
                n == self.pairs@.len(),
                0 <= i <= n,
                forall|j: int| 0 <= j < i ==> self@[j].0 != k@,
            decreases n - i,
        {
            if str_eq(self.pairs[i].0.as_str(), k) {
                assert(self@[i as int].0 == k@);
                return true;
            }
            i = i + 1;
        }
        false
    }

    /// Insert a pair; an existing entry under the same key is replaced in
    /// place, so insertion order is kept.
    pub fn insert(&mut self, k: String, v: String)
        ensures
            final(self)@ == upsert(old(self)@, k@, v@),
    {
        proof {
            use_type_invariant(&*self);
        }
        let ghost pre = self@;
        let n = self.pairs.len();
        let mut out: Vec<(String, String)> = Vec::new();
        let mut replaced = false;
        let ghost mut w: int = 0;
        let mut i: usize = 0;
        while i < n
            invariant
                n == self.pairs@.len(),
                0 <= i <= n,
                self@ == pre,
                pre == old(self)@,
                distinct_keys(pre),
                out@.len() == i,
                !replaced ==> forall|j: int| 0 <= j < i ==> pre[j].0 != k@,
                !replaced ==> forall|j: int|
                    0 <= j < i ==> (#[trigger] out@[j].0@, out@[j].1@) == pre[j],
                replaced ==> 0 <= w < i && pre[w].0 == k@,
                replaced ==> (out@[w].0@, out@[w].1@) == (k@, v@),
                replaced ==> forall|j: int|
                    0 <= j < i && j != w ==> (#[trigger] out@[j].0@, out@[j].1@) == pre[j],
            decreases n - i,
        {
            if !replaced && str_eq(self.pairs[i].0.as_str(), k.as_str()) {
                assert(self@[i as int].0 == k@);
                out.push((k.clone(), v.clone()));
                replaced = true;
                proof {
                    w = i as int;
                }
            } else {
                out.push((self.pairs[i].0.clone(), self.pairs[i].1.clone()));
            }
            i = i + 1;
        }
        if !replaced {
            out.push((k, v));
            proof {
                assert(!has_key(pre, k@));
                assert(out@.map_values(|p: (String, String)| (p.0@, p.1@)) =~= upsert(
                    pre,
                    k@,
                    v@,
                ));
                assert(distinct_keys(out@.map_values(|p: (String, String)| (p.0@, p.1@))));
            }
        } else {
            proof {
                let c = choose|c: int| 0 <= c < pre.len() && pre[c].0 == k@;
                assert(has_key(pre, k@));
                assert(pre[c].0 == k@);
                assert(c == w);
                assert(out@.map_values(|p: (String, String)| (p.0@, p.1@)) =~= upsert(
                    pre,
                    k@,
                    v@,
                ));
                let uv = out@.map_values(|p: (String, String)| (p.0@, p.1@));
                assert forall|a: int, b: int| 0 <= a < b < uv.len() implies uv[a].0 != uv[b].0 by {
                    assert(uv[a].0 == pre[a].0);
                    assert(uv[b].0 == pre[b].0);
                }
            }
        }
        self.pairs = out;
    }
}

// ------------------------------------------------------------------
// Splitting and forming entries
// ------------------------------------------------------------------

/// Split a `"KEY=VALUE"` entry at its first `'='`; an entry without `'='`
/// is all key, with an empty value.
pub fn split_env(s: &str) -> (r: (String, String))
    ensures
        r.0@ == env_key(s@),
        r.1@ == env_val(s@),
{
    let n = s.unicode_len();
    let mut i: usize = 0;
    while i < n && s.get_char(i) != '='
        invariant
            n == s@.len(),
            0 <= i <= n,
            forall|j: int| 0 <= j < i ==> s@[j] != '=',
        decreases n - i,
    {
        i = i + 1;
    }
    proof {
        lemma_eq_pos(s@);
        let e = eq_pos(s@);
        if e < i {
            assert(s@[e] != '=');
            assert(s@[e] == '=');
        }
        if i < e {
            assert(s@[i as int] != '=');
            assert(s@[i as int] == '=');
        }
        assert(i == e);
    }
    let k = String::from_str(s.substring_char(0, i));
    if i < n {
        let v = String::from_str(s.substring_char(i + 1, n));
        (k, v)
    } else {
        let v = String::new();
        proof {
            assert(v@ =~= env_val(s@));
        }
        (k, v)
    }
}

/// Form the `"KEY=VALUE"` entry of a key and a value.
pub fn format_env_entry(k: &str, v: &str) -> (r: String)
    ensures
        r@ == env_entry(k@, v@),
{
    let mut r = String::from_str(k);
    r.append("=");
    r.append(v);
    proof {
        reveal_strlit("=");
        assert("="@ =~= seq!['=']);
        assert(r@ =~= env_entry(k@, v@));
    }
    r
}

// ------------------------------------------------------------------
// The merge
// ------------------------------------------------------------------

/// The entry each pair forms.
pub open spec fn new_lines(pairs: Seq<(Seq<char>, Seq<char>)>) -> Seq<Seq<char>> {
    pairs.map_values(|p: (Seq<char>, Seq<char>)| env_entry(p.0, p.1))
}

/// Fold the pre-existing entries left to right, keeping only keys absent
/// from `pairs`; a later entry replaces an earlier one with the same key,
/// in place.
pub open spec fn cur_fold(
    cur: Seq<Seq<char>>,
    pairs: Seq<(Seq<char>, Seq<char>)>,
) -> Seq<(Seq<char>, Seq<char>)>
    decreases cur.len(),
{
    if cur.len() == 0 {
        Seq::empty()
    } else {
        let prev = cur_fold(cur.drop_last(), pairs);
        let e = cur.last();
        if has_key(pairs, env_key(e)) {
            prev
        } else {
            upsert(prev, env_key(e), env_val(e))
        }
    }
}

/// The merged entry list: the new mapping's entries in order, then the
/// surviving pre-existing entries.
pub open spec fn merge_env_spec(
    cur: Seq<Seq<char>>,
    pairs: Seq<(Seq<char>, Seq<char>)>,
) -> Seq<Seq<char>> {
    new_lines(pairs) + new_lines(cur_fold(cur, pairs))
}

/// The entry list a pre-existing environment denotes; absent means empty.
pub open spec fn opt_lines(cur_env: Option<&Vec<String>>) -> Seq<Seq<char>> {
    match cur_env {
        Some(v) => v@.map_values(|s: String| s@),
        None => Seq::empty(),
    }
}

/// The same, of the owned option.
pub open spec fn opt_lines_of(cur_env: Option<Vec<String>>) -> Seq<Seq<char>> {
    match cur_env {
        Some(v) => v@.map_values(|s: String| s@),
        None => Seq::empty(),
    }
}

/// Merge a pre-existing `"KEY=VALUE"` entry list with a module
/// specification's environment mapping.  The mapping's entries win on key
/// collision; pre-existing entries under other keys are preserved.
pub fn merge_env(cur_env: Option<&Vec<String>>, new_env: &StringMap) -> (r: Vec<String>)
    ensures
        r@.map_values(|s: String| s@) == merge_env_spec(opt_lines(cur_env), new_env@),
{
    let mut acc = StringMap::new();
    match cur_env {
        None => {
            proof {
                assert(acc@ =~= cur_fold(opt_lines(cur_env), new_env@));
            }
        },
        Some(env) => {
            let m = env.len();
            let mut i: usize = 0;
            proof {
                assert(opt_lines(cur_env).take(0) =~= Seq::<Seq<char>>::empty());
            }
            while i < m
                invariant
                    m == env@.len(),
                    0 <= i <= m,
                    cur_env == Some(env),
                    acc@ == cur_fold(opt_lines(cur_env).take(i as int), new_env@),
                decreases m - i,
            {
                let ghost lines = opt_lines(cur_env);
                let (k, v) = split_env(env[i].as_str());
                if !new_env.contains_key(k.as_str()) {
                    acc.insert(k, v);
                }
                proof {
                    assert(lines.take(i as int + 1).drop_last() =~= lines.take(i as int));
                    assert(lines.take(i as int + 1).last() == env@[i as int]@);
                }
                i = i + 1;
            }
            proof {
                assert(opt_lines(cur_env).take(m as int) =~= opt_lines(cur_env));
            }
        },
    }
    let mut r: Vec<String> = Vec::new();
    let nn = new_env.len();
    let mut i: usize = 0;
    while i < nn
        invariant
            nn == new_env@.len(),
            0 <= i <= nn,
            r@.len() == i,
            forall|l: int| 0 <= l < i ==> #[trigger] r@[l]@ == new_lines(new_env@)[l],
        decreases nn - i,
    {
        let entry = format_env_entry(new_env.key_at(i).as_str(), new_env.val_at(i).as_str());
        r.push(entry);
        proof {
            assert(r@[i as int]@ == new_lines(new_env@)[i as int]);
        }
        i = i + 1;
    }
    let ghost folded = acc@;
    let na = acc.len();
    let mut j: usize = 0;
    while j < na
        invariant
            na == folded.len(),
            acc@ == folded,
            nn == new_env@.len(),
            0 <= j <= na,
            r@.len() == nn + j,
            forall|l: int| 0 <= l < nn ==> #[trigger] r@[l]@ == new_lines(new_env@)[l],
            forall|l: int|
                nn <= l < nn + j ==> #[trigger] r@[l]@ == new_lines(folded)[l - nn],
        decreases na - j,
    {
        let entry = format_env_entry(acc.key_at(j).as_str(), acc.val_at(j).as_str());
        r.push(entry);
        proof {
            assert(r@[(nn + j) as int]@ == new_lines(folded)[j as int]);
        }
        j = j + 1;
    }
    proof {
        let merged = merge_env_spec(opt_lines(cur_env), new_env@);
        assert(merged.len() == nn + na);
        assert forall|l: int| 0 <= l < nn + na implies r@.map_values(|s: String| s@)[l]
            == merged[l] by {
            assert(r@.map_values(|s: String| s@)[l] == r@[l]@);
            if l < nn {
                assert(merged[l] == new_lines(new_env@)[l]);
            } else {
                assert(merged[l] == new_lines(folded)[l - nn]);
            }
        }
        assert(r@.map_values(|s: String| s@) =~= merged);
    }
    r
}

// ------------------------------------------------------------------
// Laws of the merge
// ------------------------------------------------------------------

/// The mapping an entry list denotes; a later entry wins over an earlier
/// one with the same key.
pub open spec fn lines_map(lines: Seq<Seq<char>>) -> Map<Seq<char>, Seq<char>>
    decreases lines.len(),
{
    if lines.len() == 0 {
        Map::empty()
    } else {
        lines_map(lines.drop_last()).insert(env_key(lines.last()), env_val(lines.last()))
    }
}

/// The set of keys a pair sequence carries.
pub open spec fn keys_set(pairs: Seq<(Seq<char>, Seq<char>)>) -> Set<Seq<char>> {
    Set::new(|k: Seq<char>| has_key(pairs, k))
}

/// A parsed key never contains `'='`.
pub proof fn lemma_env_key_free(s: Seq<char>)
    ensures
        key_free(env_key(s)),
{
    lemma_eq_pos(s);
}

proof fn lemma_upsert(pairs: Seq<(Seq<char>, Seq<char>)>, k: Seq<char>, v: Seq<char>)
    requires
        distinct_keys(pairs),
    ensures
        distinct_keys(upsert(pairs, k, v)),
        pairs_map(upsert(pairs, k, v)) == pairs_map(pairs).insert(k, v),
        forall|k2: Seq<char>|
            has_key(upsert(pairs, k, v), k2) == (has_key(pairs, k2) || k2 == k),
    decreases pairs.len(),
{
    let u = upsert(pairs, k, v);
    if has_key(pairs, k) {
        let w = choose|i: int| 0 <= i < pairs.len() && pairs[i].0 == k;
        lemma_pairs_map_update(pairs, w, k, v);
        assert forall|k2: Seq<char>| has_key(u, k2) == (has_key(pairs, k2) || k2 == k) by {
            if has_key(u, k2) {
                let i = choose|i: int| 0 <= i < u.len() && u[i].0 == k2;
                if i != w {
                    assert(pairs[i].0 == k2);
                }
            }
            if has_key(pairs, k2) {
                let i = choose|i: int| 0 <= i < pairs.len() && pairs[i].0 == k2;
                if i == w {
                    assert(u[w].0 == k2);
                } else {
                    assert(u[i].0 == k2);
                }
            }
            if k2 == k {
                assert(u[w].0 == k2);
            }
        }
    } else {
        assert(u == pairs.push((k, v)));
        assert(u.drop_last() =~= pairs);
        assert(pairs_map(u) == pairs_map(pairs).insert(k, v));
        assert forall|k2: Seq<char>| has_key(u, k2) == (has_key(pairs, k2) || k2 == k) by {
            if has_key(u, k2) {
                let i = choose|i: int| 0 <= i < u.len() && u[i].0 == k2;
                if i < pairs.len() {
                    assert(pairs[i].0 == k2);
                }
            }
            if has_key(pairs, k2) {
                let i = choose|i: int| 0 <= i < pairs.len() && pairs[i].0 == k2;
                assert(u[i].0 == k2);
            }
            if k2 == k {
                assert(u[pairs.len() as int].0 == k2);
            }
        }
        assert(distinct_keys(u)) by {
            assert(forall|i: int| 0 <= i < pairs.len() ==> u[i] == pairs[i]);
        }
    }
}

proof fn lemma_pairs_map_update(pairs: Seq<(Seq<char>, Seq<char>)>, w: int, k: Seq<char>, v: Seq<char>)
    requires
        distinct_keys(pairs),
        0 <= w < pairs.len(),
        pairs[w].0 == k,
    ensures
        distinct_keys(pairs.update(w, (k, v))),
        pairs_map(pairs.update(w, (k, v))) == pairs_map(pairs).insert(k, v),
    decreases pairs.len(),
{
    let u = pairs.update(w, (k, v));
    assert(distinct_keys(u)) by {
        assert(forall|i: int| 0 <= i < pairs.len() ==> u[i].0 == pairs[i].0);
    }
    if w == pairs.len() - 1 {
        assert(u.drop_last() =~= pairs.drop_last());
        assert(u.last() == (k, v));
        assert(pairs.last().0 == k);
        assert(pairs_map(u) == pairs_map(pairs.drop_last()).insert(k, v));
        assert(pairs_map(pairs).insert(k, v) =~= pairs_map(pairs.drop_last()).insert(k, v));
    } else {
        assert(u.drop_last() =~= pairs.drop_last().update(w, (k, v)));
        assert(u.last() == pairs.last());
        assert(distinct_keys(pairs.drop_last())) by {
            assert(forall|i: int|
                0 <= i < pairs.len() - 1 ==> pairs.drop_last()[i] == pairs[i]);
        }
        assert(pairs.drop_last()[w].0 == k);
        lemma_pairs_map_update(pairs.drop_last(), w, k, v);
        let last = pairs.last();
        assert(last.0 != k);
        assert(pairs_map(u) == pairs_map(pairs.drop_last()).insert(k, v).insert(last.0, last.1));
        assert(pairs_map(pairs).insert(k, v) == pairs_map(pairs.drop_last()).insert(
            last.0,
            last.1,
        ).insert(k, v));
        assert(pairs_map(pairs.drop_last()).insert(k, v).insert(last.0, last.1)
            =~= pairs_map(pairs.drop_last()).insert(last.0, last.1).insert(k, v));
    }
}

/// The domain of the denoted mapping is exactly the carried key set.
pub proof fn lemma_pairs_map_dom(pairs: Seq<(Seq<char>, Seq<char>)>)
    ensures
        forall|k: Seq<char>| #[trigger] pairs_map(pairs).dom().contains(k) == has_key(pairs, k),
    decreases pairs.len(),
{
    if pairs.len() > 0 {
        lemma_pairs_map_dom(pairs.drop_last());
        assert forall|k: Seq<char>| #[trigger] pairs_map(pairs).dom().contains(k) == has_key(
            pairs,
            k,
        ) by {
            if k == pairs.last().0 {
                assert(pairs_map(pairs).dom().contains(k));
                assert(pairs[pairs.len() - 1].0 == k);
                assert(has_key(pairs, k));
            } else {
                assert(pairs_map(pairs).dom().contains(k) == pairs_map(
                    pairs.drop_last(),
                ).dom().contains(k));
                assert(pairs_map(pairs.drop_last()).dom().contains(k) == has_key(
                    pairs.drop_last(),
                    k,
                ));
                assert(has_key(pairs, k) == has_key(pairs.drop_last(), k)) by {
                    if has_key(pairs, k) {
                        let i = choose|i: int| 0 <= i < pairs.len() && pairs[i].0 == k;
                        assert(i < pairs.len() - 1);
                        assert(pairs.drop_last()[i].0 == k);
                    }
                    if has_key(pairs.drop_last(), k) {
                        let i = choose|i: int|
                            0 <= i < pairs.drop_last().len() && pairs.drop_last()[i].0 == k;
                        assert(pairs[i].0 == k);
                    }
                }
            }
        }
    }
}

/// What the fold of the pre-existing entries yields: one pair per surviving
/// key, no key of the new mapping among them, and together they denote the
/// pre-existing mapping shorn of the new mapping's keys.
pub proof fn lemma_cur_fold(cur: Seq<Seq<char>>, pairs: Seq<(Seq<char>, Seq<char>)>)
    ensures
        distinct_keys(cur_fold(cur, pairs)),
        forall|k: Seq<char>| has_key(cur_fold(cur, pairs), k) ==> !has_key(pairs, k),
        forall|i: int|
            0 <= i < cur_fold(cur, pairs).len() ==> key_free(#[trigger] cur_fold(cur, pairs)[i].0),
        pairs_map(cur_fold(cur, pairs)) == lines_map(cur).remove_keys(keys_set(pairs)),
    decreases cur.len(),
{
    let f = cur_fold(cur, pairs);
    if cur.len() == 0 {
        assert(pairs_map(f) =~= lines_map(cur).remove_keys(keys_set(pairs)));
    } else {
        let prev = cur_fold(cur.drop_last(), pairs);
        let e = cur.last();
        let k = env_key(e);
        let v = env_val(e);
        lemma_cur_fold(cur.drop_last(), pairs);
        lemma_env_key_free(e);
        if has_key(pairs, k) {
            assert(f == prev);
            assert(pairs_map(f) =~= lines_map(cur).remove_keys(keys_set(pairs)));
        } else {
            lemma_upsert(prev, k, v);
            assert(f == upsert(prev, k, v));
            assert forall|i: int| 0 <= i < f.len() implies key_free(#[trigger] f[i].0) by {
                assert(f[i].0 == k || has_key(prev, f[i].0)) by {
                    assert(has_key(f, f[i].0));
                }
                if f[i].0 != k {
                    let w = choose|w: int| 0 <= w < prev.len() && prev[w].0 == f[i].0;
                    assert(key_free(prev[w].0));
                }
            }
            assert(pairs_map(f) =~= lines_map(cur).remove_keys(keys_set(pairs)));
        }
    }
}

/// Lines of pairs with clean keys parse back to the same mapping.
pub proof fn lemma_new_lines_map(pairs: Seq<(Seq<char>, Seq<char>)>)
    requires
        forall|i: int| 0 <= i < pairs.len() ==> key_free(#[trigger] pairs[i].0),
    ensures
        lines_map(new_lines(pairs)) == pairs_map(pairs),
    decreases pairs.len(),
{
    if pairs.len() > 0 {
        lemma_new_lines_map(pairs.drop_last());
        let lines = new_lines(pairs);
        assert(lines.drop_last() =~= new_lines(pairs.drop_last()));
        lemma_entry_parse(pairs.last().0, pairs.last().1);
        assert(lines.last() == env_entry(pairs.last().0, pairs.last().1));
    }
}

/// The mapping of a concatenation: later lines win.
pub proof fn lemma_lines_map_concat(a: Seq<Seq<char>>, b: Seq<Seq<char>>)
    ensures
        lines_map(a + b) == lines_map(a).union_prefer_right(lines_map(b)),
    decreases b.len(),
{
    if b.len() == 0 {
        assert(a + b =~= a);
        assert(lines_map(a) =~= lines_map(a).union_prefer_right(lines_map(b)));
    } else {
        lemma_lines_map_concat(a, b.drop_last());
        assert((a + b).drop_last() =~= a + b.drop_last());
        assert((a + b).last() == b.last());
        assert(lines_map(a).union_prefer_right(lines_map(b.drop_last())).insert(
            env_key(b.last()),
            env_val(b.last()),
        ) =~= lines_map(a).union_prefer_right(lines_map(b)));
    }
}

/// Law of the merge: no key is duplicated in the result; an entry of the
/// new mapping wins on key collision; an entry of the pre-existing list
/// whose key the new mapping does not carry is preserved.  (A key of the
/// new mapping must not itself contain `'='`, else its entry would not
/// parse back to it.)
pub proof fn lemma_merge_env_law(cur: Seq<Seq<char>>, pairs: Seq<(Seq<char>, Seq<char>)>)
    requires
        distinct_keys(pairs),
        forall|i: int| 0 <= i < pairs.len() ==> key_free(#[trigger] pairs[i].0),
    ensures
        forall|i: int, j: int|
            0 <= i < j < merge_env_spec(cur, pairs).len() ==> env_key(
                #[trigger] merge_env_spec(cur, pairs)[i],
            ) != env_key(#[trigger] merge_env_spec(cur, pairs)[j]),
        lines_map(merge_env_spec(cur, pairs)) == lines_map(cur).union_prefer_right(
            pairs_map(pairs),
        ),
{
    let folded = cur_fold(cur, pairs);
    let merged = merge_env_spec(cur, pairs);
    let np = pairs.len() as int;
    lemma_cur_fold(cur, pairs);
    lemma_new_lines_map(pairs);
    lemma_new_lines_map(folded);
    lemma_lines_map_concat(new_lines(pairs), new_lines(folded));
    lemma_pairs_map_dom(pairs);
    lemma_pairs_map_dom(folded);

    // Parsed keys of the merged list.
    assert forall|i: int| 0 <= i < merged.len() implies env_key(#[trigger] merged[i]) == (
        if i < np {
            pairs[i].0
        } else {
            folded[i - np].0
        }) by {
        if i < np {
            lemma_entry_parse(pairs[i].0, pairs[i].1);
        } else {
            lemma_entry_parse(folded[i - np].0, folded[i - np].1);
        }
    }
    assert forall|i: int, j: int| 0 <= i < j < merged.len() implies env_key(#[trigger] merged[i])
        != env_key(#[trigger] merged[j]) by {
        if i < np && j >= np {
            assert(has_key(pairs, pairs[i].0));
            assert(has_key(folded, folded[j - np].0));
        }
    }

    // The denoted mapping.
    assert(lines_map(merged) == pairs_map(pairs).union_prefer_right(pairs_map(folded)));
    assert(lines_map(merged) =~= lines_map(cur).union_prefer_right(pairs_map(pairs))) by {
        let lhs = pairs_map(pairs).union_prefer_right(
            lines_map(cur).remove_keys(keys_set(pairs)),
        );
        let rhs = lines_map(cur).union_prefer_right(pairs_map(pairs));
        assert forall|k: Seq<char>| lhs.dom().contains(k) == rhs.dom().contains(k) by {}
        assert forall|k: Seq<char>| rhs.dom().contains(k) implies lhs[k] == rhs[k] by {
            if pairs_map(pairs).dom().contains(k) {
                assert(has_key(pairs, k));
                assert(!lines_map(cur).remove_keys(keys_set(pairs)).dom().contains(k));
            }
        }
        assert(lhs =~= rhs);
    }
}

} // verus!
