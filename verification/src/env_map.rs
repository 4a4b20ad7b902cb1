//! Ordered string maps: environment variables and commands kept in
//! insertion order. Inserting an existing key replaces its value in place;
//! a new key goes at the end.
use vstd::prelude::*;
use crate::text::{copy_str, eq_str};

verus! {

/// The entries of a map as pairs of texts.
pub open spec fn pairs_view(s: Seq<(String, String)>) -> Seq<(Seq<char>, Seq<char>)> {
    s.map_values(|p: (String, String)| (p.0@, p.1@))
}

/// The index of the last entry with key `k`, or -1.
pub open spec fn key_index(m: Seq<(Seq<char>, Seq<char>)>, k: Seq<char>) -> int
    decreases m.len(),
{
    if m.len() == 0 {
        -1
    } else if m.last().0 == k {
        m.len() - 1
    } else {
        key_index(m.drop_last(), k)
    }
}

/// The value stored under `k`.
pub open spec fn map_get(m: Seq<(Seq<char>, Seq<char>)>, k: Seq<char>) -> Option<Seq<char>> {
    let i = key_index(m, k);
    if i >= 0 {
        Some(m[i].1)
    } else {
        None
    }
}

/// The value under `k`, or the empty text.
pub open spec fn map_get_or_empty(m: Seq<(Seq<char>, Seq<char>)>, k: Seq<char>) -> Seq<char> {
    match map_get(m, k) {
        Some(v) => v,
        None => seq![],
    }
}

/// `m` with `k` set to `v`: in place when present, else appended.
pub open spec fn map_insert(m: Seq<(Seq<char>, Seq<char>)>, k: Seq<char>, v: Seq<char>) -> Seq<
    (Seq<char>, Seq<char>),
> {
    let i = key_index(m, k);
    if i >= 0 {
        m.update(i, (k, v))
    } else {
        m.push((k, v))
    }
}

/// `m` with every entry of `vars` inserted in order.
pub open spec fn map_insert_all(
    m: Seq<(Seq<char>, Seq<char>)>,
    vars: Seq<(Seq<char>, Seq<char>)>,
) -> Seq<(Seq<char>, Seq<char>)>
    decreases vars.len(),
{
    if vars.len() == 0 {
        m
    } else {
        map_insert(map_insert_all(m, vars.drop_last()), vars.last().0, vars.last().1)
    }
}

/// No key occurs twice.
pub open spec fn distinct_keys(m: Seq<(Seq<char>, Seq<char>)>) -> bool {
    forall|i: int, j: int| 0 <= i < j < m.len() ==> m[i].0 != m[j].0
}

pub proof fn lemma_key_index(m: Seq<(Seq<char>, Seq<char>)>, k: Seq<char>)
    ensures
        -1 <= key_index(m, k) < m.len(),
        key_index(m, k) >= 0 ==> m[key_index(m, k)].0 == k,
        key_index(m, k) < 0 ==> forall|j: int| 0 <= j < m.len() ==> m[j].0 != k,
        forall|j: int| key_index(m, k) < j < m.len() ==> m[j].0 != k,
    decreases m.len(),
{
    if m.len() > 0 && m.last().0 != k {
        lemma_key_index(m.drop_last(), k);
        assert forall|j: int| 0 <= j < m.len() - 1 implies m[j] == m.drop_last()[j] by {}
    }
}

/// With distinct keys, an entry with key `k` sits exactly at `key_index`.
pub proof fn lemma_key_index_unique(m: Seq<(Seq<char>, Seq<char>)>, k: Seq<char>, j: int)
    requires
        distinct_keys(m),
        0 <= j < m.len(),
        m[j].0 == k,
    ensures
        key_index(m, k) == j,
{
    lemma_key_index(m, k);
}

/// Reading a key just written gives the written value.
pub proof fn law_get_after_insert(m: Seq<(Seq<char>, Seq<char>)>, k: Seq<char>, v: Seq<char>)
    ensures
        map_get(map_insert(m, k, v), k) == Some(v),
{
    lemma_key_index(m, k);
    let n = map_insert(m, k, v);
    lemma_key_index(n, k);
    let i = key_index(m, k);
    if i < 0 {
        assert(n.last().0 == k);
    } else {
        assert(n[i].0 == k);
    }
}

/// Writing one key leaves every other key's value as it was.
pub proof fn law_insert_leaves_other_keys(
    m: Seq<(Seq<char>, Seq<char>)>,
    k: Seq<char>,
    v: Seq<char>,
    other: Seq<char>,
)
    requires
        other != k,
    ensures
        map_get(map_insert(m, k, v), other) == map_get(m, other),
{
    lemma_key_index(m, k);
    lemma_key_index(m, other);
    let n = map_insert(m, k, v);
    lemma_key_index(n, other);
    let a = key_index(m, other);
    let b = key_index(n, other);
    if a >= 0 {
        assert(n[a].0 == other);
    }
    if b >= 0 && b < m.len() {
        assert(m[b].0 == other);
    }
}

/// Inserting keeps keys distinct, and keeps an existing key in its place.
pub proof fn law_insert_keeps_keys_distinct_and_in_place(
    m: Seq<(Seq<char>, Seq<char>)>,
    k: Seq<char>,
    v: Seq<char>,
)
    requires
        distinct_keys(m),
    ensures
        distinct_keys(map_insert(m, k, v)),
        map_get(m, k) is Some ==> map_insert(m, k, v).len() == m.len() && key_index(
            map_insert(m, k, v),
            k,
        ) == key_index(m, k),
        map_get(m, k) is None ==> map_insert(m, k, v) == m.push((k, v)),
{
    lemma_key_index(m, k);
    let n = map_insert(m, k, v);
    if key_index(m, k) >= 0 {
        lemma_key_index_unique(n, k, key_index(m, k));
    }
}

/// Inserting entries keeps every existing key in its place; the entries
/// after them hold keys the inserted entries name and the map did not.
pub proof fn law_insert_all_keeps_key_order(m: Seq<(Seq<char>, Seq<char>)>, vars: Seq<(Seq<char>, Seq<char>)>)
    ensures
        map_insert_all(m, vars).len() >= m.len(),
        forall|i: int| 0 <= i < m.len() ==> (#[trigger] map_insert_all(m, vars)[i]).0 == m[i].0,
        forall|i: int|
            m.len() <= i < map_insert_all(m, vars).len() ==> map_get(m, (#[trigger] map_insert_all(m, vars)[i]).0)
                is None && map_get(vars, map_insert_all(m, vars)[i].0) is Some,
    decreases vars.len(),
{
    if vars.len() > 0 {
        let rest = vars.drop_last();
        law_insert_all_keeps_key_order(m, rest);
        let r = map_insert_all(m, rest);
        let last = vars.last();
        let n = map_insert_all(m, vars);
        assert(n == map_insert(r, last.0, last.1));
        lemma_key_index(r, last.0);
        lemma_key_index(vars, last.0);
        assert(vars[vars.len() - 1] == last);
        assert forall|i: int| 0 <= i < m.len() implies (#[trigger] n[i]).0 == m[i].0 by {
            assert(r[i].0 == m[i].0);
        }
        assert forall|i: int| m.len() <= i < n.len() implies map_get(m, (#[trigger] n[i]).0) is None && map_get(
            vars,
            n[i].0,
        ) is Some by {
            let x = n[i].0;
            lemma_key_index(m, x);
            lemma_key_index(vars, x);
            lemma_key_index(rest, x);
            if i < r.len() {
                assert(x == r[i].0);
                if key_index(m, x) >= 0 {
                    let j = key_index(m, x);
                    assert(r[j].0 == m[j].0);
                    if key_index(r, last.0) >= 0 && key_index(r, last.0) == i {
                    }
                }
                if x != last.0 {
                    assert(map_get(rest, r[i].0) is Some);
                    let j = key_index(rest, x);
                    assert(vars[j] == rest[j]);
                }
            } else {
                assert(x == last.0);
                if key_index(m, x) >= 0 {
                    let j = key_index(m, x);
                    assert(r[j].0 == m[j].0);
                }
            }
        }
    }
}

/// The keys of an ordered map, in order.
pub open spec fn map_keys(m: Seq<(Seq<char>, Seq<char>)>) -> Seq<Seq<char>> {
    m.map_values(|p: (Seq<char>, Seq<char>)| p.0)
}

/// The keys inserting `vars` into `m` adds: each key neither in `m` nor
/// added before, in the order the entries give them.
pub open spec fn appended_keys(m: Seq<(Seq<char>, Seq<char>)>, vars: Seq<(Seq<char>, Seq<char>)>) -> Seq<Seq<char>>
    decreases vars.len(),
{
    if vars.len() == 0 {
        seq![]
    } else {
        let prev = appended_keys(m, vars.drop_last());
        let k = vars.last().0;
        if map_keys(m).contains(k) || prev.contains(k) {
            prev
        } else {
            prev.push(k)
        }
    }
}

/// Inserting entries keeps the map's keys in their order and adds the new
/// keys after them, in the order the entries first give them.
pub proof fn law_insert_all_appends_new_keys(m: Seq<(Seq<char>, Seq<char>)>, vars: Seq<(Seq<char>, Seq<char>)>)
    ensures
        map_keys(map_insert_all(m, vars)) == map_keys(m) + appended_keys(m, vars),
    decreases vars.len(),
{
    if vars.len() == 0 {
        assert(map_keys(m) + Seq::<Seq<char>>::empty() =~= map_keys(m));
    } else {
        let rest = vars.drop_last();
        law_insert_all_appends_new_keys(m, rest);
        let r = map_insert_all(m, rest);
        let k = vars.last().0;
        let v = vars.last().1;
        let prev = appended_keys(m, rest);
        let n = map_insert(r, k, v);
        assert(map_insert_all(m, vars) == n);
        lemma_key_index(r, k);
        let kr = map_keys(r);
        assert(kr == map_keys(m) + prev);
        if key_index(r, k) >= 0 {
            let i = key_index(r, k);
            assert(map_keys(n) =~= kr);
            assert(kr[i] == k);
            if i < map_keys(m).len() {
                assert(map_keys(m)[i] == k);
            } else {
                assert(prev[i - map_keys(m).len()] == k);
            }
        } else {
            assert(map_keys(n) =~= kr.push(k));
            if map_keys(m).contains(k) {
                let j = choose|j: int| 0 <= j < map_keys(m).len() && map_keys(m)[j] == k;
                assert(kr[j] == k);
                assert(r[j].0 == k);
            }
            if prev.contains(k) {
                let j = choose|j: int| 0 <= j < prev.len() && prev[j] == k;
                assert(kr[map_keys(m).len() + j] == k);
                assert(r[map_keys(m).len() + j].0 == k);
            }
            assert(kr.push(k) =~= map_keys(m) + prev.push(k));
        }
    }
}

/// The entries of an ordered map found by key.
pub fn find_key(m: &Vec<(String, String)>, k: &str) -> (r: Option<usize>)
    ensures
        r matches Some(i) ==> i as int == key_index(pairs_view(m@), k@),
        r is None <==> key_index(pairs_view(m@), k@) < 0,
{
    let ghost pv = pairs_view(m@);
    assert(pv.subrange(0, m@.len() as int) =~= pv);
    let mut i: usize = m.len();
    while i > 0
        invariant
            0 <= i <= m@.len(),
            pv == pairs_view(m@),
            key_index(pv, k@) == key_index(pv.subrange(0, i as int), k@),
        decreases i,
    {
        let ghost sub = pv.subrange(0, i as int);
        assert(sub.drop_last() =~= pv.subrange(0, i - 1));
        assert(sub.last() == pv[i - 1]);
        if eq_str(m[i - 1].0.as_str(), k) {
            return Some(i - 1);
        }
        i = i - 1;
    }
    None
}

/// The value stored under `k`, copied.
pub fn map_get_exec(m: &Vec<(String, String)>, k: &str) -> (r: Option<String>)
    ensures
        r matches Some(v) ==> map_get(pairs_view(m@), k@) == Some(v@),
        r is None ==> map_get(pairs_view(m@), k@) is None,
{
    proof {
        lemma_key_index(pairs_view(m@), k@);
    }
    match find_key(m, k) {
        Some(i) => {
            assert(pairs_view(m@)[i as int] == (m@[i as int].0@, m@[i as int].1@));
            assert(map_get(pairs_view(m@), k@) == Some(m@[i as int].1@));
            let v = m[i].1.clone();
            Some(v)
        },
        None => None,
    }
}

/// Set `k` to `v`: in place when present, else appended.
pub fn map_insert_exec(m: &mut Vec<(String, String)>, k: &str, v: &str)
    ensures
        pairs_view(final(m)@) == map_insert(pairs_view(old(m)@), k@, v@),
{
    proof {
        lemma_key_index(pairs_view(m@), k@);
    }
    match find_key(m, k) {
        Some(i) => {
            let ghost before = m@;
            assert(pairs_view(before).len() == before.len());
            assert(map_insert(pairs_view(before), k@, v@) == pairs_view(before).update(i as int, (k@, v@)));
            m.set(i, (copy_str(k), copy_str(v)));
            assert(pairs_view(m@) =~= pairs_view(before).update(i as int, (k@, v@)));
        },
        None => {
            let ghost before = m@;
            assert(map_insert(pairs_view(before), k@, v@) == pairs_view(before).push((k@, v@)));
            m.push((copy_str(k), copy_str(v)));
            assert(pairs_view(m@) =~= pairs_view(before).push((k@, v@)));
        },
    }
}

/// Insert every entry of `vars`, in order.
pub fn map_insert_all_exec(m: &mut Vec<(String, String)>, vars: &Vec<(String, String)>)
    ensures
        pairs_view(final(m)@) == map_insert_all(pairs_view(old(m)@), pairs_view(vars@)),
{
    let ghost start = pairs_view(m@);
    let mut i: usize = 0;
    while i < vars.len()
        invariant
            0 <= i <= vars@.len(),
            pairs_view(m@) == map_insert_all(start, pairs_view(vars@).subrange(0, i as int)),
        decreases vars@.len() - i,
    {
        let ghost pv = pairs_view(vars@);
        assert(pv.subrange(0, i + 1).drop_last() =~= pv.subrange(0, i as int));
        map_insert_exec(m, vars[i].0.as_str(), vars[i].1.as_str());
        i = i + 1;
    }
    assert(pairs_view(vars@).subrange(0, vars@.len() as int) =~= pairs_view(vars@));
}

/// A copy of an ordered map.
pub fn clone_pairs(m: &Vec<(String, String)>) -> (r: Vec<(String, String)>)
    ensures
        pairs_view(r@) == pairs_view(m@),
{
    let mut r: Vec<(String, String)> = Vec::new();
    let mut i: usize = 0;
    while i < m.len()
        invariant
            0 <= i <= m@.len(),
            r@.len() == i,
            pairs_view(r@) == pairs_view(m@).subrange(0, i as int),
        decreases m@.len() - i,
    {
        let ghost before = r@;
        let a = m[i].0.clone();
        let b = m[i].1.clone();
        r.push((a, b));
        assert(pairs_view(r@)[i as int] == pairs_view(m@)[i as int]);
        assert(pairs_view(r@) =~= pairs_view(m@).subrange(0, i + 1));
        i = i + 1;
    }
    assert(pairs_view(m@).subrange(0, m@.len() as int) =~= pairs_view(m@));
    r
}

} // verus!
