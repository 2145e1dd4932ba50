//! The machinery behind the precomputed orderings of a `Collection`.
//!
//! Every ordering is produced the same way: each arena slot gets a
//! sort entry carrying up to two integer ranks and a lowercase name,
//! the entries are sorted by `(rank, rank2, name, idx)`, and the
//! indices are read back off. The index tie-break keeps every
//! ordering deterministic.

use vstd::prelude::*;
use crate::strings::{bytes_lt, bytes_three_way, lemma_bytes_lt_trans, lemma_bytes_lt_trichotomy};

verus! {

/// One arena slot prepared for sorting: two integer ranks, a
/// lowercase name compared byte-wise, and the slot index itself as
/// the final tie-break.
pub struct SortEntry {
    pub rank: u64,
    pub rank2: u64,
    pub name: Vec<u8>,
    pub idx: usize,
}

/// The total order the orderings sort by: `rank`, then `rank2`, then
/// the name bytes lexicographically, then the slot index.
pub open spec fn entry_le(a: SortEntry, b: SortEntry) -> bool {
    if a.rank != b.rank {
        a.rank < b.rank
    } else if a.rank2 != b.rank2 {
        a.rank2 < b.rank2
    } else if a.name@ != b.name@ {
        bytes_lt(a.name@, b.name@)
    } else {
        a.idx <= b.idx
    }
}

/// `entry_le` relates every pair one way or the other.
pub proof fn lemma_entry_le_total(a: SortEntry, b: SortEntry)
    ensures
        entry_le(a, b) || entry_le(b, a),
{
    if a.rank == b.rank && a.rank2 == b.rank2 && a.name@ != b.name@ {
        lemma_bytes_lt_trichotomy(a.name@, b.name@);
    }
}

/// `entry_le` is transitive.
pub proof fn lemma_entry_le_trans(a: SortEntry, b: SortEntry, c: SortEntry)
    requires
        entry_le(a, b),
        entry_le(b, c),
    ensures
        entry_le(a, c),
{
    if a.rank == b.rank && b.rank == c.rank && a.rank2 == b.rank2 && b.rank2 == c.rank2 {
        if a.name@ != b.name@ && b.name@ != c.name@ && a.name@ != c.name@ {
            lemma_bytes_lt_trans(a.name@, b.name@, c.name@);
        } else if a.name@ != b.name@ && b.name@ != c.name@ && a.name@ == c.name@ {
            lemma_bytes_lt_trichotomy(a.name@, b.name@);
        }
    }
}

/// Compute [`entry_le`].
fn entry_le_exec(a: &SortEntry, b: &SortEntry) -> (r: bool)
    ensures
        r == entry_le(*a, *b),
{
    if a.rank != b.rank {
        a.rank < b.rank
    } else if a.rank2 != b.rank2 {
        a.rank2 < b.rank2
    } else {
        let c = bytes_three_way(a.name.as_slice(), b.name.as_slice());
        if c == -1 {
            true
        } else if c == 1 {
            false
        } else {
            a.idx <= b.idx
        }
    }
}

/// A sequence of entries in `entry_le` order.
pub open spec fn entries_sorted(s: Seq<SortEntry>) -> bool {
    forall|i: int, j: int| 0 <= i < j < s.len() ==> entry_le(s[i], s[j])
}

/// Selection sort on entries: the result holds the same entries, in
/// `entry_le` order.
fn sort_entries(v: Vec<SortEntry>) -> (r: Vec<SortEntry>)
    ensures
        entries_sorted(r@),
        r@.to_multiset() == v@.to_multiset(),
{
    broadcast use vstd::seq_lib::group_to_multiset_ensures;

    let mut work = v;
    let ghost all = work@.to_multiset();
    let mut r: Vec<SortEntry> = Vec::new();
    proof {
        assert(r@.to_multiset().add(work@.to_multiset()) =~= all);
    }
    while work.len() > 0
        invariant
            r@.to_multiset().add(work@.to_multiset()) == all,
            all == v@.to_multiset(),
            entries_sorted(r@),
            forall|i: int, j: int|
                0 <= i < r@.len() && 0 <= j < work@.len() ==> entry_le(r@[i], work@[j]),
        decreases work@.len(),
    {
        let mut m: usize = 0;
        let mut k: usize = 1;
        while k < work.len()
            invariant
                m < k <= work@.len(),
                work@.len() > 0,
                forall|j: int| 0 <= j < k ==> entry_le(work@[m as int], work@[j]),
            decreases work@.len() - k,
        {
            if entry_le_exec(&work[k], &work[m]) {
                proof {
                    assert forall|j: int| 0 <= j < k + 1 implies entry_le(
                        work@[k as int],
                        work@[j],
                    ) by {
                        if j < k {
                            lemma_entry_le_trans(work@[k as int], work@[m as int], work@[j]);
                        }
                    }
                }
                m = k;
            } else {
                proof {
                    lemma_entry_le_total(work@[k as int], work@[m as int]);
                }
            }
            k = k + 1;
        }
        let ghost old_work = work@;
        let ghost old_r = r@;
        let x = work.remove(m);
        r.push(x);
        proof {
            broadcast use vstd::seq_lib::group_to_multiset_ensures;

            assert(old_work.contains(old_work[m as int]));
            assert(old_work.to_multiset().count(old_work[m as int]) > 0);
            assert(r@.to_multiset().add(work@.to_multiset()) =~= all);
            assert(entries_sorted(r@)) by {
                assert(forall|i: int| 0 <= i < old_r.len() ==> r@[i] == old_r[i]);
                assert(r@[r@.len() - 1] == old_work[m as int]);
            }
            assert forall|i: int, j: int|
                0 <= i < r@.len() && 0 <= j < work@.len() implies entry_le(r@[i], work@[j]) by {
                assert(work@[j] == old_work.remove(m as int)[j]);
                assert(work@[j] == if j < m { old_work[j] } else { old_work[j + 1] });
            }
        }
    }
    r
}

/// An ordering over an arena of `n` slots: it holds exactly the
/// indices `0..n`, each exactly once.
pub open spec fn is_key_ordering(s: Seq<usize>, n: nat) -> bool {
    &&& s.len() == n
    &&& forall|i: int| 0 <= i < s.len() ==> s[i] < n
    &&& s.no_duplicates()
    &&& forall|k: usize| k < n ==> #[trigger] s.contains(k)
}

/// Sort the arena indices `0..n` by their entries: entry `i` must sit
/// at slot `i`. The result is a permutation of `0..n` in `entry_le`
/// order of the given entries.
pub fn sorted_indices(entries: Vec<SortEntry>) -> (r: Vec<usize>)
    requires
        forall|i: int| 0 <= i < entries@.len() ==> (#[trigger] entries@[i]).idx == i,
    ensures
        is_key_ordering(r@, entries@.len()),
        forall|a: int, b: int|
            0 <= a < b < r@.len() ==> entry_le(
                entries@[r@[a] as int],
                entries@[r@[b] as int],
            ),
{
    broadcast use vstd::seq_lib::group_to_multiset_ensures;

    let ghost ge = entries@;
    let ghost n = entries@.len();
    let sorted = sort_entries(entries);
    let ghost ss = sorted@;
    proof {
        // Every sorted entry is the input entry at its own idx.
        assert forall|j: int| 0 <= j < ss.len() implies ss[j].idx < n && ss[j]
            == ge[ss[j].idx as int] by {
            assert(ss.contains(ss[j]));
            assert(ge.to_multiset().count(ss[j]) > 0);
            assert(ge.contains(ss[j]));
            let i = choose|i: int| 0 <= i < ge.len() && ge[i] == ss[j];
            assert(ge[i].idx == i);
        }
        // Input entries are pairwise distinct, so sorted ones are too.
        assert(ge.no_duplicates()) by {
            assert forall|i: int, j: int|
                0 <= i < ge.len() && 0 <= j < ge.len() && i != j implies ge[i] != ge[j] by {
                assert(ge[i].idx == i && ge[j].idx == j);
            }
        }
        assert(ss.no_duplicates()) by {
            ge.lemma_multiset_has_no_duplicates();
            assert forall|x: SortEntry| ss.to_multiset().contains(x) implies ss.to_multiset().count(
                x,
            ) == 1 by {
                assert(ge.to_multiset().contains(x));
            }
            ss.lemma_multiset_has_no_duplicates_conv();
        }
        assert(ss.len() == n) by {
            assert(ss.to_multiset().len() == ge.to_multiset().len());
        }
    }
    let mut r: Vec<usize> = Vec::new();
    let mut i: usize = 0;
    while i < sorted.len()
        invariant
            i <= sorted@.len(),
            sorted@ == ss,
            r@.len() == i,
            forall|j: int| 0 <= j < i ==> r@[j] == ss[j].idx,
        decreases sorted@.len() - i,
    {
        let e = &sorted[i];
        r.push(e.idx);
        i = i + 1;
    }
    proof {
        assert(r@.no_duplicates()) by {
            assert forall|a: int, b: int|
                0 <= a < r@.len() && 0 <= b < r@.len() && a != b implies r@[a] != r@[b] by {
                if ss[a].idx == ss[b].idx {
                    assert(ss[a] == ge[ss[a].idx as int]);
                    assert(ss[b] == ge[ss[b].idx as int]);
                }
            }
        }
        assert forall|k: usize| k < n implies #[trigger] r@.contains(k) by {
            assert(ge.contains(ge[k as int]));
            assert(ss.to_multiset().count(ge[k as int]) > 0);
            assert(ss.contains(ge[k as int]));
            let j = choose|j: int| 0 <= j < ss.len() && ss[j] == ge[k as int];
            assert(ge[k as int].idx == k);
            assert(r@[j] == k);
        }
    }
    r
}

} // verus!
