//! Counting occurrences of string keys, in order of first appearance.
//!
//! A count table is a vector of `(key, count)` pairs in which every key
//! occurs once; it stands for the `key -> count` maps of the summaries.

use vstd::prelude::*;

verus! {

/// Abstract view of a count table.
pub open spec fn counts_view(t: Seq<(String, usize)>) -> Seq<(Seq<char>, nat)> {
    t.map_values(|p: (String, usize)| (p.0@, p.1 as nat))
}

/// Position of the first entry with key `k` at or after `from`, or `-1`.
pub open spec fn key_position_from(t: Seq<(Seq<char>, nat)>, k: Seq<char>, from: int) -> int
    decreases t.len() - from,
{
    if from < 0 || from >= t.len() {
        -1
    } else if t[from].0 == k {
        from
    } else {
        key_position_from(t, k, from + 1)
    }
}

/// Position of the entry with key `k`, or `-1` when there is none.
pub open spec fn key_position(t: Seq<(Seq<char>, nat)>, k: Seq<char>) -> int {
    key_position_from(t, k, 0)
}

/// Adds one occurrence of `k` to the table.
pub open spec fn bump(t: Seq<(Seq<char>, nat)>, k: Seq<char>) -> Seq<(Seq<char>, nat)> {
    let i = key_position(t, k);
    if i < 0 {
        t.push((k, 1))
    } else {
        t.update(i, (k, t[i].1 + 1))
    }
}

/// The count table of a sequence of keys: each distinct key once, in order
/// of first appearance, with the number of times it occurs.
pub open spec fn tally(keys: Seq<Seq<char>>) -> Seq<(Seq<char>, nat)>
    decreases keys.len(),
{
    if keys.len() == 0 {
        Seq::empty()
    } else {
        bump(tally(keys.drop_last()), keys.last())
    }
}

/// The count recorded for `k` (zero when `k` is absent).
pub open spec fn count_of(t: Seq<(Seq<char>, nat)>, k: Seq<char>) -> nat {
    let i = key_position(t, k);
    if i < 0 { 0 } else { t[i].1 }
}

/// Number of occurrences of `k` in `keys`.
pub open spec fn occurrences(keys: Seq<Seq<char>>, k: Seq<char>) -> nat
    decreases keys.len(),
{
    if keys.len() == 0 {
        0
    } else {
        occurrences(keys.drop_last(), k) + if keys.last() == k { 1nat } else { 0nat }
    }
}

/// Sum of the counts of a table.
pub open spec fn total_count(t: Seq<(Seq<char>, nat)>) -> nat
    decreases t.len(),
{
    if t.len() == 0 {
        0
    } else {
        total_count(t.drop_last()) + t.last().1
    }
}

/// The views of a vector of strings.
pub open spec fn string_views(v: Seq<String>) -> Seq<Seq<char>> {
    v.map_values(|s: String| s@)
}

proof fn lemma_key_position_from(t: Seq<(Seq<char>, nat)>, k: Seq<char>, from: int)
    requires
        0 <= from,
    ensures
        ({
            let i = key_position_from(t, k, from);
            (i == -1 && forall|j: int| from <= j < t.len() ==> t[j].0 != k)
            || (from <= i < t.len() && t[i].0 == k && forall|j: int| from <= j < i ==> t[j].0 != k)
        }),
    decreases t.len() - from,
{
    if from < t.len() && t[from].0 != k {
        lemma_key_position_from(t, k, from + 1);
    }
}

/// Characterizes `key_position`: the first entry with the key, or `-1`.
pub proof fn lemma_key_position(t: Seq<(Seq<char>, nat)>, k: Seq<char>)
    ensures
        ({
            let i = key_position(t, k);
            (i == -1 && forall|j: int| 0 <= j < t.len() ==> t[j].0 != k)
            || (0 <= i < t.len() && t[i].0 == k && forall|j: int| 0 <= j < i ==> t[j].0 != k)
        }),
{
    lemma_key_position_from(t, k, 0);
}

/// Every key occurs at most once in a table.
pub open spec fn distinct_keys(t: Seq<(Seq<char>, nat)>) -> bool {
    forall|i: int, j: int| #![trigger t[i], t[j]] 0 <= i < j < t.len() ==> t[i].0 != t[j].0
}

proof fn lemma_total_count_update(t: Seq<(Seq<char>, nat)>, i: int, e: (Seq<char>, nat))
    requires
        0 <= i < t.len(),
    ensures
        total_count(t.update(i, e)) == total_count(t) - t[i].1 + e.1,
    decreases t.len(),
{
    if i == t.len() - 1 {
        assert(t.update(i, e).drop_last() =~= t.drop_last());
    } else {
        lemma_total_count_update(t.drop_last(), i, e);
        assert(t.update(i, e).drop_last() =~= t.drop_last().update(i, e));
    }
}

/// One occurrence of `x` added to a table with distinct keys: the keys stay
/// distinct, the count of `x` grows by one, every other count stays, and
/// the total grows by one.
proof fn lemma_bump(t: Seq<(Seq<char>, nat)>, x: Seq<char>, k: Seq<char>)
    requires
        distinct_keys(t),
    ensures
        distinct_keys(bump(t, x)),
        count_of(bump(t, x), k) == count_of(t, k) + if x == k { 1nat } else { 0nat },
        total_count(bump(t, x)) == total_count(t) + 1,
{
    let b = bump(t, x);
    lemma_key_position(t, x);
    lemma_key_position(t, k);
    lemma_key_position(b, k);
    let i = key_position(t, x);
    if i < 0 {
        assert(b.drop_last() =~= t);
        assert forall|a: int, c: int| #![trigger b[a], b[c]] 0 <= a < c < b.len() implies b[a].0 != b[c].0 by {
            if c == t.len() {
                assert(b[a] == t[a]);
            } else {
                assert(b[a] == t[a] && b[c] == t[c]);
            }
        }
        let pb = key_position(b, k);
        let pt = key_position(t, k);
        if x == k {
            if pb != t.len() {
                assert(b[t.len() as int].0 == k);
            }
        } else {
            if pt >= 0 {
                assert(b[pt] == t[pt]);
                if pb != pt {
                    if pb >= 0 && pb < pt {
                        assert(b[pb] == t[pb]);
                    }
                }
            } else {
                if pb >= 0 && pb < t.len() {
                    assert(b[pb] == t[pb]);
                }
            }
        }
    } else {
        lemma_total_count_update(t, i, (x, t[i].1 + 1));
        assert forall|a: int, c: int| #![trigger b[a], b[c]] 0 <= a < c < b.len() implies b[a].0 != b[c].0 by {
            assert(t[a].0 != t[c].0);
        }
        assert forall|j: int| 0 <= j < b.len() implies #[trigger] b[j].0 == t[j].0 by {}
        let pb = key_position(b, k);
        let pt = key_position(t, k);
        if pb != pt {
            if pb >= 0 {
                assert(b[pb].0 == t[pb].0);
            }
            if pt >= 0 {
                assert(b[pt].0 == t[pt].0);
            }
        }
    }
}

/// The count table of a sequence of keys holds each key once, records for
/// every key the number of times it occurs, and its counts sum to the
/// number of keys.
pub proof fn lemma_tally_counts(keys: Seq<Seq<char>>, k: Seq<char>)
    ensures
        distinct_keys(tally(keys)),
        count_of(tally(keys), k) == occurrences(keys, k),
        total_count(tally(keys)) == keys.len(),
    decreases keys.len(),
{
    if keys.len() > 0 {
        lemma_tally_counts(keys.drop_last(), k);
        lemma_bump(tally(keys.drop_last()), keys.last(), k);
    }
}

fn find_key(t: &Vec<(String, usize)>, k: &String) -> (r: Option<usize>)
    ensures
        match r {
            Some(i) => i as int == key_position(counts_view(t@), k@),
            None => key_position(counts_view(t@), k@) == -1,
        },
{
    proof { lemma_key_position(counts_view(t@), k@); }
    let mut i: usize = 0;
    while i < t.len()
        invariant
            i <= t@.len(),
            forall|j: int| 0 <= j < i ==> counts_view(t@)[j].0 != k@,
        decreases t@.len() - i,
    {
        if t[i].0 == *k {
            proof {
                let v = counts_view(t@);
                lemma_key_position(v, k@);
                assert(v[i as int].0 == k@);
                let p = key_position(v, k@);
                if p != i as int {
                    if p < i as int {
                        assert(v[p].0 != k@);
                    } else {
                        assert(v[i as int].0 != k@);
                    }
                }
            }
            return Some(i);
        }
        i = i + 1;
    }
    None
}

/// Counts the occurrences of each key.
pub fn tally_keys(keys: &Vec<String>) -> (r: Vec<(String, usize)>)
    ensures
        counts_view(r@) == tally(string_views(keys@)),
{
    let mut t: Vec<(String, usize)> = Vec::new();
    let mut n: usize = 0;
    while n < keys.len()
        invariant
            n <= keys@.len(),
            counts_view(t@) == tally(string_views(keys@).take(n as int)),
            forall|j: int| 0 <= j < t@.len() ==> t@[j].1 <= n,
        decreases keys@.len() - n,
    {
        let k = &keys[n];
        let ghost before = counts_view(t@);
        proof {
            assert(string_views(keys@).take(n + 1).drop_last() =~= string_views(keys@).take(n as int));
            assert(string_views(keys@).take(n + 1).last() == k@);
            lemma_key_position(before, k@);
        }
        match find_key(&t, k) {
            Some(i) => {
                let c = t[i].1;
                let key = t[i].0.clone();
                t.set(i, (key, c + 1));
            },
            None => {
                t.push((k.clone(), 1));
            },
        }
        proof {
            assert(counts_view(t@) =~= bump(before, k@));
        }
        n = n + 1;
    }
    proof {
        assert(string_views(keys@).take(keys@.len() as int) =~= string_views(keys@));
    }
    t
}

} // verus!
