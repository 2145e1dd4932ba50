//! Fuzzy search over the library's names and titles.
//!
//! The similarity score of two case-folded byte strings is
//! `min(100, 200·p / (|a| + |b|))`, where `p` is the length of their
//! longest common prefix; two equal strings score 100, two strings
//! with nothing in common score 0. The score is deterministic,
//! symmetric, and grows with the common prefix.

use vstd::prelude::*;
use crate::collection::Collection;
use crate::key::{AlbumKey, ArtistKey, Keychain, SongKey};
use crate::sort::{entry_le, is_key_ordering, sorted_indices, SortEntry};
use crate::strings::{lower_bytes_of, lowercase_bytes};

verus! {

/// How much of a similarity ranking a query wants back.
#[derive(Clone, Copy, Debug, Hash, PartialEq, Eq, Structural)]
pub enum SearchKind {
    /// Every key with a nonzero score, best first.
    All,
    /// Only keys scoring at least 70.
    Sim70,
    /// At most the best 25 keys per kind.
    Top25,
    /// At most the single best key per kind.
    Top1,
}

impl SearchKind {
    /// The human-readable description of this kind.
    pub fn human(&self) -> (r: &'static str)
        ensures
            *self is All ==> r@ == "View all the results, sorted from most similar to least"@,
            *self is Sim70 ==> r@ == "View only the results that are at least 70% similar"@,
            *self is Top25 ==> r@ == "View only the top 25 similar results"@,
            *self is Top1 ==> r@ == "View only the top 1 similar results"@,
    {
        match self {
            SearchKind::All => "View all the results, sorted from most similar to least",
            SearchKind::Sim70 => "View only the results that are at least 70% similar",
            SearchKind::Top25 => "View only the top 25 similar results",
            SearchKind::Top1 => "View only the top 1 similar results",
        }
    }

    /// The next kind in display order, wrapping at the end.
    pub fn next(&self) -> (r: Self)
        ensures
            *self is All ==> r is Sim70,
            *self is Sim70 ==> r is Top25,
            *self is Top25 ==> r is Top1,
            *self is Top1 ==> r is All,
    {
        match self {
            SearchKind::All => SearchKind::Sim70,
            SearchKind::Sim70 => SearchKind::Top25,
            SearchKind::Top25 => SearchKind::Top1,
            SearchKind::Top1 => SearchKind::All,
        }
    }

    /// The previous kind in display order, wrapping at the front.
    pub fn previous(&self) -> (r: Self)
        ensures
            *self is All ==> r is Top1,
            *self is Sim70 ==> r is All,
            *self is Top25 ==> r is Sim70,
            *self is Top1 ==> r is Top25,
    {
        match self {
            SearchKind::All => SearchKind::Top1,
            SearchKind::Sim70 => SearchKind::All,
            SearchKind::Top25 => SearchKind::Sim70,
            SearchKind::Top1 => SearchKind::Top25,
        }
    }
}

/// The length of the longest common prefix of two byte strings.
pub open spec fn spec_lcp(a: Seq<u8>, b: Seq<u8>) -> nat
    decreases a.len(),
{
    if a.len() == 0 || b.len() == 0 || a[0] != b[0] {
        0
    } else {
        1 + spec_lcp(a.skip(1), b.skip(1))
    }
}

/// The similarity score of two byte strings, `0..=100`.
pub open spec fn spec_sim(a: Seq<u8>, b: Seq<u8>) -> int {
    if a.len() + b.len() == 0 {
        100
    } else {
        let q = 200 * spec_lcp(a, b) as int / (a.len() + b.len()) as int;
        if q > 100 {
            100
        } else {
            q
        }
    }
}

/// The common prefix does not depend on the order of its arguments,
/// so neither does the score.
pub proof fn lemma_sim_symmetric(a: Seq<u8>, b: Seq<u8>)
    ensures
        spec_lcp(a, b) == spec_lcp(b, a),
        spec_sim(a, b) == spec_sim(b, a),
    decreases a.len(),
{
    if a.len() != 0 && b.len() != 0 && a[0] == b[0] {
        lemma_sim_symmetric(a.skip(1), b.skip(1));
    }
}

/// The byte views of a list of case-folded names.
pub open spec fn folded_views(names: Seq<Vec<u8>>) -> Seq<Seq<u8>> {
    names.map_values(|b: Vec<u8>| b@)
}

/// The lowest score a kind accepts: 70 for `Sim70`, otherwise any
/// nonzero score.
pub open spec fn kind_min_sim(kind: SearchKind) -> int {
    if kind is Sim70 {
        70
    } else {
        1
    }
}

/// Whether a kind's answer of this length must be complete: `All`
/// and `Sim70` always are; a Top answer only while under its cap.
pub open spec fn kind_complete(kind: SearchKind, len: nat) -> bool {
    match kind {
        SearchKind::All => true,
        SearchKind::Sim70 => true,
        SearchKind::Top25 => len < 25,
        SearchKind::Top1 => len < 1,
    }
}

/// Slot `a` strictly outranks slot `b` against query `q`: a higher
/// score, or an equal score and a lower slot index.
pub open spec fn outranks(q: Seq<u8>, names: Seq<Seq<u8>>, a: int, b: int) -> bool {
    ||| spec_sim(q, names[a]) > spec_sim(q, names[b])
    ||| (spec_sim(q, names[a]) == spec_sim(q, names[b]) && a < b)
}

/// The answer a kind owes for one arena of case-folded names:
/// pairwise-distinct slots that all score at least the kind's
/// minimum, in strictly descending `(score, slot)` order; complete —
/// holding every qualifying slot — whenever the kind demands it; and
/// never passing over a qualifying slot for a lower-ranked one.
pub open spec fn spec_selection(
    q: Seq<u8>,
    names: Seq<Seq<u8>>,
    r: Seq<usize>,
    kind: SearchKind,
) -> bool {
    &&& r.no_duplicates()
    &&& forall|k: int| 0 <= k < r.len() ==> (#[trigger] r[k]) < names.len()
    &&& forall|k: int|
        0 <= k < r.len() ==> spec_sim(q, names[(#[trigger] r[k]) as int]) >= kind_min_sim(kind)
    &&& forall|i: int, j: int|
        0 <= i < j < r.len() ==> outranks(q, names, (#[trigger] r[i]) as int, (#[trigger] r[j]) as int)
    &&& (kind is Top25 ==> r.len() <= 25)
    &&& (kind is Top1 ==> r.len() <= 1)
    &&& (kind_complete(kind, r.len()) ==> forall|t: int|
        0 <= t < names.len() && spec_sim(q, #[trigger] names[t]) >= kind_min_sim(kind)
            ==> r.contains(t as usize))
    &&& forall|t: int|
        0 <= t < names.len() && spec_sim(q, #[trigger] names[t]) >= kind_min_sim(kind)
            && !r.contains(t as usize) ==> forall|k: int|
            0 <= k < r.len() ==> outranks(q, names, (#[trigger] r[k]) as int, t)
}

/// Compute the longest common prefix of two byte slices.
fn lcp(a: &[u8], b: &[u8]) -> (r: usize)
    ensures
        r == spec_lcp(a@, b@),
{
    let an = a.len();
    let bn = b.len();
    let mut i: usize = 0;
    proof {
        assert(a@.skip(0) =~= a@);
        assert(b@.skip(0) =~= b@);
    }
    loop
        invariant
            i <= an,
            i <= bn,
            an == a@.len(),
            bn == b@.len(),
            spec_lcp(a@, b@) == i + spec_lcp(a@.skip(i as int), b@.skip(i as int)),
        decreases an - i,
    {
        if i == an || i == bn {
            return i;
        }
        proof {
            assert(a@.skip(i as int)[0] == a@[i as int]);
            assert(b@.skip(i as int)[0] == b@[i as int]);
        }
        if a[i] != b[i] {
            return i;
        }
        proof {
            assert(a@.skip(i as int).skip(1) =~= a@.skip(i as int + 1));
            assert(b@.skip(i as int).skip(1) =~= b@.skip(i as int + 1));
        }
        i = i + 1;
    }
}

/// Compute the similarity score of two byte slices.
pub fn similarity(a: &[u8], b: &[u8]) -> (r: u8)
    ensures
        r as int == spec_sim(a@, b@),
        r <= 100,
{
    let an = a.len();
    let bn = b.len();
    if an == 0 && bn == 0 {
        return 100;
    }
    let p = lcp(a, b);
    let q: u128 = 200 * (p as u128) / ((an as u128) + (bn as u128));
    if q > 100 {
        100
    } else {
        q as u8
    }
}

/// The case-folded artist names of a collection, by slot.
pub open spec fn artist_names(c: Collection) -> Seq<Seq<u8>> {
    Seq::new(c.artists@.len(), |i: int| c.artists@[i].name_lowercase@)
}

/// The case-folded album titles of a collection, by slot.
pub open spec fn album_titles(c: Collection) -> Seq<Seq<u8>> {
    Seq::new(c.albums@.len(), |i: int| c.albums@[i].title_lowercase@)
}

/// The case-folded song titles of a collection, by slot.
pub open spec fn song_titles(c: Collection) -> Seq<Seq<u8>> {
    Seq::new(c.songs@.len(), |i: int| c.songs@[i].title_lowercase@)
}

/// A prefix of the full ranking is the answer a Top kind owes.
proof fn lemma_prefix_selection(
    q: Seq<u8>,
    names: Seq<Seq<u8>>,
    ranked: Seq<usize>,
    cap: int,
    kind: SearchKind,
)
    requires
        spec_selection(q, names, ranked, SearchKind::All),
        names.len() <= usize::MAX,
        (kind is Top25 && cap == 25) || (kind is Top1 && cap == 1),
    ensures
        spec_selection(
            q,
            names,
            ranked.subrange(
                0,
                if cap < ranked.len() {
                    cap
                } else {
                    ranked.len() as int
                },
            ),
            kind,
        ),
{
    let l: int = if cap < ranked.len() {
        cap
    } else {
        ranked.len() as int
    };
    let r = ranked.subrange(0, l);
    assert forall|i: int, j: int|
        0 <= i < r.len() && 0 <= j < r.len() && i != j implies r[i] != r[j] by {
        assert(r[i] == ranked[i] && r[j] == ranked[j]);
    }
    if l < cap {
        assert(r =~= ranked);
    }
    assert forall|t: int|
        0 <= t < names.len() && spec_sim(q, #[trigger] names[t]) >= kind_min_sim(kind)
            && !r.contains(t as usize) implies forall|k: int|
        0 <= k < r.len() ==> outranks(q, names, (#[trigger] r[k]) as int, t) by {
        assert((t as usize) as int == t);
        assert(ranked.contains(t as usize));
        let w = choose|w: int| 0 <= w < ranked.len() && ranked[w] == t as usize;
        assert(w >= l) by {
            if w < l {
                assert(r[w] == t as usize);
            }
        }
        assert forall|k: int| 0 <= k < r.len() implies outranks(
            q,
            names,
            (#[trigger] r[k]) as int,
            t,
        ) by {
            assert(r[k] == ranked[k]);
            assert(outranks(q, names, ranked[k] as int, ranked[w] as int));
            assert(ranked[w] as int == t);
        }
    }
    assert(spec_selection(q, names, r, kind));
}

/// The fuzzy search engine over one collection's names and titles.
pub struct Search;

impl Search {
    /// Rank the given case-folded names against a case-folded query:
    /// the full answer for [`SearchKind::All`] — every slot with a
    /// nonzero score, in strictly descending `(score, slot)` order.
    pub fn rank_names(q: &Vec<u8>, names: &Vec<Vec<u8>>) -> (r: Vec<usize>)
        ensures
            spec_selection(q@, folded_views(names@), r@, SearchKind::All),
    {
        let n = names.len();
        let mut sims: Vec<u8> = Vec::new();
        let mut i: usize = 0;
        while i < n
            invariant
                i <= n,
                n == names@.len(),
                sims@.len() == i,
                forall|t: int|
                    0 <= t < i ==> (#[trigger] sims@[t]) as int == spec_sim(q@, names@[t]@),
            decreases n - i,
        {
            let s = similarity(q.as_slice(), names[i].as_slice());
            sims.push(s);
            i = i + 1;
        }
        let mut entries: Vec<SortEntry> = Vec::new();
        let mut p: usize = 0;
        while p < n
            invariant
                p <= n,
                n == names@.len(),
                sims@.len() == n,
                forall|t: int|
                    0 <= t < n ==> (#[trigger] sims@[t]) as int == spec_sim(q@, names@[t]@),
                entries@.len() == p,
                forall|t: int|
                    0 <= t < p ==> {
                        let e = #[trigger] entries@[t];
                        &&& e.idx == t
                        &&& e.rank as int == 100 - spec_sim(q@, names@[t]@)
                        &&& e.rank2 == 0
                        &&& e.name@.len() == 0
                    },
            decreases n - p,
        {
            let rank: u64 = (100 - sims[p]) as u64;
            entries.push(SortEntry { rank, rank2: 0, name: Vec::new(), idx: p });
            p = p + 1;
        }
        let ghost ge = entries@;
        let perm = sorted_indices(entries);
        let mut r: Vec<usize> = Vec::new();
        let mut k: usize = 0;
        while k < perm.len()
            invariant
                k <= perm@.len(),
                n == names@.len(),
                sims@.len() == n,
                forall|t: int|
                    0 <= t < n ==> (#[trigger] sims@[t]) as int == spec_sim(q@, names@[t]@),
                is_key_ordering(perm@, n as nat),
                forall|a2: int, b2: int|
                    0 <= a2 < b2 < perm@.len() ==> entry_le(ge[perm@[a2] as int], ge[perm@[b2] as int]),
                forall|t: int|
                    0 <= t < n ==> {
                        let e = #[trigger] ge[t];
                        &&& e.idx == t
                        &&& e.rank as int == 100 - spec_sim(q@, names@[t]@)
                        &&& e.rank2 == 0
                        &&& e.name@.len() == 0
                    },
                ge.len() == n,
                r@.no_duplicates(),
                forall|t: int| 0 <= t < r@.len() ==> (#[trigger] r@[t]) < n,
                forall|t: int|
                    0 <= t < r@.len() ==> spec_sim(q@, names@[(#[trigger] r@[t]) as int]@) > 0,
                forall|i2: int, j2: int|
                    0 <= i2 < j2 < r@.len() ==> spec_sim(q@, names@[(#[trigger] r@[i2]) as int]@)
                        > spec_sim(q@, names@[(#[trigger] r@[j2]) as int]@) || (spec_sim(
                        q@,
                        names@[r@[i2] as int]@,
                    ) == spec_sim(q@, names@[r@[j2] as int]@) && r@[i2] < r@[j2]),
                forall|t: int|
                    0 <= t < n && spec_sim(q@, (#[trigger] names@[t])@) > 0 && perm@.contains(
                        t as usize,
                    ) && perm@.index_of(t as usize) < k ==> r@.contains(t as usize),
                forall|t: int|
                    0 <= t < r@.len() ==> exists|w: int|
                        0 <= w < k && perm@[w] == #[trigger] r@[t],
            decreases perm@.len() - k,
        {
            proof {
                assert(perm@[k as int] < n);
            }
            let idx = perm[k];
            let ghost old_r = r@;
            if sims[idx] > 0 {
                r.push(idx);
            }
            proof {
                assert(sims@[idx as int] as int == spec_sim(q@, names@[idx as int]@));
                assert forall|t: int|
                    0 <= t < n && spec_sim(q@, (#[trigger] names@[t])@) > 0 && perm@.contains(
                        t as usize,
                    ) && perm@.index_of(t as usize) < k + 1 implies r@.contains(t as usize) by {
                    let w = perm@.index_of(t as usize);
                    assert(perm@.contains(t as usize));
                    if w < k {
                        assert(old_r.contains(t as usize));
                        let u = choose|u: int| 0 <= u < old_r.len() && old_r[u] == t as usize;
                        assert(r@[u] == t as usize);
                    } else {
                        assert(perm@[w] == t as usize);
                        assert(w == k);
                        assert(idx == t as usize);
                        assert(r@[r@.len() - 1] == t as usize);
                    }
                }
                assert forall|i2: int, j2: int|
                    0 <= i2 < j2 < r@.len() implies spec_sim(
                    q@,
                    names@[(#[trigger] r@[i2]) as int]@,
                ) > spec_sim(q@, names@[(#[trigger] r@[j2]) as int]@) || (spec_sim(
                    q@,
                    names@[r@[i2] as int]@,
                ) == spec_sim(q@, names@[r@[j2] as int]@) && r@[i2] < r@[j2]) by {
                    if j2 == r@.len() - 1 && r@.len() > old_r.len() {
                        let w = choose|w: int| 0 <= w < k && perm@[w] == r@[i2];
                        assert(entry_le(ge[perm@[w] as int], ge[perm@[k as int] as int]));
                        assert(perm@[w] != perm@[k as int]);
                    }
                }
            }
            k = k + 1;
        }
        proof {
            let fv = folded_views(names@);
            assert(forall|t: int| 0 <= t < names@.len() ==> (#[trigger] fv[t]) == names@[t]@);
            assert forall|t: int|
                0 <= t < n && spec_sim(q@, (#[trigger] names@[t])@) > 0 implies r@.contains(
                t as usize,
            ) by {
                assert(perm@.contains(t as usize));
                assert(0 <= perm@.index_of(t as usize) < perm@.len());
            }
            assert forall|t: int|
                0 <= t < fv.len() && spec_sim(q@, #[trigger] fv[t]) >= kind_min_sim(
                    SearchKind::All,
                ) && !r@.contains(t as usize) implies forall|k2: int|
                0 <= k2 < r@.len() ==> outranks(q@, fv, (#[trigger] r@[k2]) as int, t) by {
                assert(spec_sim(q@, names@[t]@) > 0);
                assert(r@.contains(t as usize));
            }
            assert forall|i2: int, j2: int| 0 <= i2 < j2 < r@.len() implies outranks(
                q@,
                fv,
                (#[trigger] r@[i2]) as int,
                (#[trigger] r@[j2]) as int,
            ) by {
                assert(fv[r@[i2] as int] == names@[r@[i2] as int]@);
                assert(fv[r@[j2] as int] == names@[r@[j2] as int]@);
            }
            assert(spec_selection(q@, fv, r@, SearchKind::All));
        }
        r
    }

    /// Narrow the full ranking to what a search kind asks for:
    /// everything, only scores of 70 and up, the best 25, or the
    /// single best.
    fn apply_kind(ranked: Vec<usize>, q: &Vec<u8>, names: &Vec<Vec<u8>>, kind: SearchKind) -> (r:
        Vec<usize>)
        requires
            spec_selection(q@, folded_views(names@), ranked@, SearchKind::All),
        ensures
            spec_selection(q@, folded_views(names@), r@, kind),
    {
        let nn = names.len();
        proof {
            let fv = folded_views(names@);
            assert(forall|t: int| 0 <= t < names@.len() ==> (#[trigger] fv[t]) == names@[t]@);
        }
        match kind {
            SearchKind::All => ranked,
            SearchKind::Sim70 => {
                let mut out: Vec<usize> = Vec::new();
                let mut i: usize = 0;
                while i < ranked.len()
                    invariant
                        i <= ranked@.len(),
                        names@.len() <= usize::MAX,
                        spec_selection(q@, folded_views(names@), ranked@, SearchKind::All),
                        forall|t: int|
                            0 <= t < names@.len() ==> (#[trigger] folded_views(names@)[t])
                                == names@[t]@,
                        forall|t: int|
                            0 <= t < out@.len() ==> exists|w: int|
                                0 <= w < i && ranked@[w] == #[trigger] out@[t],
                        out@.no_duplicates(),
                        forall|t: int| 0 <= t < out@.len() ==> (#[trigger] out@[t]) < names@.len(),
                        forall|t: int|
                            0 <= t < out@.len() ==> spec_sim(
                                q@,
                                names@[(#[trigger] out@[t]) as int]@,
                            ) >= 70,
                        forall|i2: int, j2: int|
                            0 <= i2 < j2 < out@.len() ==> outranks(
                                q@,
                                folded_views(names@),
                                (#[trigger] out@[i2]) as int,
                                (#[trigger] out@[j2]) as int,
                            ),
                        forall|t: int|
                            0 <= t < names@.len() && spec_sim(q@, (#[trigger] names@[t])@) >= 70
                                && ranked@.contains(t as usize) && ranked@.index_of(t as usize)
                                < i ==> out@.contains(t as usize),
                    decreases ranked@.len() - i,
                {
                    let idx = ranked[i];
                    let ghost old_out = out@;
                    let sim = similarity(q.as_slice(), names[idx].as_slice());
                    if sim >= 70 {
                        out.push(idx);
                    }
                    proof {
                        let fv = folded_views(names@);
                        assert forall|t: int|
                            0 <= t < out@.len() implies exists|w: int|
                            0 <= w < i + 1 && ranked@[w] == #[trigger] out@[t] by {
                            if t < old_out.len() {
                                let w = choose|w: int|
                                    0 <= w < i && ranked@[w] == old_out[t];
                                assert(ranked@[w] == out@[t]);
                            } else {
                                assert(ranked@[i as int] == out@[t]);
                            }
                        }
                        assert forall|a2: int, b2: int|
                            0 <= a2 < out@.len() && 0 <= b2 < out@.len() && a2 != b2 implies out@[a2]
                            != out@[b2] by {
                            let wa = choose|w: int| 0 <= w < i + 1 && ranked@[w] == out@[a2];
                            let wb = choose|w: int| 0 <= w < i + 1 && ranked@[w] == out@[b2];
                            if out@[a2] == out@[b2] {
                                assert(wa != b2 || true);
                                if wa != wb {
                                    assert(ranked@[wa] != ranked@[wb]);
                                } else {
                                    if a2 < old_out.len() && b2 < old_out.len() {
                                        assert(old_out[a2] != old_out[b2]);
                                    } else {
                                        let lo = if a2 < b2 {
                                            a2
                                        } else {
                                            b2
                                        };
                                        let wl = choose|w: int|
                                            0 <= w < i && ranked@[w] == old_out[lo];
                                        assert(ranked@[wl] != ranked@[i as int]);
                                    }
                                }
                            }
                        }
                        assert forall|i2: int, j2: int|
                            0 <= i2 < j2 < out@.len() implies outranks(
                            q@,
                            fv,
                            (#[trigger] out@[i2]) as int,
                            (#[trigger] out@[j2]) as int,
                        ) by {
                            if j2 == out@.len() - 1 && out@.len() > old_out.len() {
                                let w = choose|w: int| 0 <= w < i && ranked@[w] == out@[i2];
                                assert(outranks(
                                    q@,
                                    fv,
                                    ranked@[w] as int,
                                    ranked@[i as int] as int,
                                ));
                            }
                        }
                        assert forall|t: int|
                            0 <= t < names@.len() && spec_sim(q@, (#[trigger] names@[t])@) >= 70
                                && ranked@.contains(t as usize) && ranked@.index_of(t as usize) < i
                                + 1 implies out@.contains(t as usize) by {
                            assert((t as usize) as int == t);
                            let w = ranked@.index_of(t as usize);
                            if w < i {
                                assert(old_out.contains(t as usize));
                                let u = choose|u: int|
                                    0 <= u < old_out.len() && old_out[u] == t as usize;
                                assert(out@[u] == t as usize);
                            } else {
                                assert(w == i);
                                assert(idx == t as usize);
                                assert(idx as int == t);
                                assert(spec_sim(q@, names@[idx as int]@) >= 70);
                                assert(out@[out@.len() - 1] == t as usize);
                            }
                        }
                    }
                    i = i + 1;
                }
                proof {
                    let fv = folded_views(names@);
                    assert forall|t: int|
                        0 <= t < fv.len() && spec_sim(q@, #[trigger] fv[t]) >= 70 implies out@.contains(
                        t as usize,
                    ) by {
                        assert((t as usize) as int == t);
                        assert(spec_sim(q@, names@[t]@) >= 70);
                        assert(spec_sim(q@, names@[t]@) >= 1);
                        assert(ranked@.contains(t as usize));
                        assert(0 <= ranked@.index_of(t as usize) < ranked@.len());
                    }
                    assert forall|t: int|
                        0 <= t < fv.len() && spec_sim(q@, #[trigger] fv[t]) >= kind_min_sim(
                            SearchKind::Sim70,
                        ) && !out@.contains(t as usize) implies forall|k2: int|
                        0 <= k2 < out@.len() ==> outranks(q@, fv, (#[trigger] out@[k2]) as int, t) by {
                        assert(out@.contains(t as usize));
                    }
                    assert(spec_selection(q@, fv, out@, SearchKind::Sim70));
                }
                out
            },
            SearchKind::Top25 => {
                let mut out: Vec<usize> = Vec::new();
                let mut i: usize = 0;
                while i < ranked.len() && i < 25
                    invariant
                        i <= ranked@.len(),
                        i <= 25,
                        out@.len() == i,
                        forall|t: int| 0 <= t < i ==> #[trigger] out@[t] == ranked@[t],
                    decreases ranked@.len() - i,
                {
                    out.push(ranked[i]);
                    i = i + 1;
                }
                proof {
                    let l: int = if 25 < ranked@.len() {
                        25
                    } else {
                        ranked@.len() as int
                    };
                    assert(out@ =~= ranked@.subrange(0, l));
                    lemma_prefix_selection(
                        q@,
                        folded_views(names@),
                        ranked@,
                        25,
                        SearchKind::Top25,
                    );
                }
                out
            },
            SearchKind::Top1 => {
                let mut out: Vec<usize> = Vec::new();
                if ranked.len() > 0 {
                    out.push(ranked[0]);
                }
                proof {
                    let l: int = if 1 < ranked@.len() {
                        1
                    } else {
                        ranked@.len() as int
                    };
                    assert(out@ =~= ranked@.subrange(0, l));
                    lemma_prefix_selection(q@, folded_views(names@), ranked@, 1, SearchKind::Top1);
                }
                out
            },
        }
    }

    /// Answer a query against a collection: fold the query, rank
    /// every artist, album and song name by similarity, narrow each
    /// ranking to what the kind asks for, and hand the keys back.
    /// Each returned list is exactly the kind's answer over that
    /// arena's case-folded names — see [`spec_selection`].
    pub fn search(c: &Collection, query: &str, kind: SearchKind) -> (r: Keychain)
        ensures
            spec_selection(
                lower_bytes_of(query@),
                artist_names(*c),
                crate::collection::artist_key_idxs(r.artists@),
                kind,
            ),
            spec_selection(
                lower_bytes_of(query@),
                album_titles(*c),
                crate::collection::album_key_idxs(r.albums@),
                kind,
            ),
            spec_selection(
                lower_bytes_of(query@),
                song_titles(*c),
                crate::collection::song_key_idxs(r.songs@),
                kind,
            ),
    {
        let q = lowercase_bytes(query);
        let mut artist_name_list: Vec<Vec<u8>> = Vec::new();
        let mut i: usize = 0;
        while i < c.artists.len()
            invariant
                i <= c.artists@.len(),
                artist_name_list@.len() == i,
                forall|t: int|
                    0 <= t < i ==> (#[trigger] artist_name_list@[t])@
                        == c.artists@[t].name_lowercase@,
            decreases c.artists@.len() - i,
        {
            artist_name_list.push(crate::ccd::Ccd::clone_bytes(&c.artists[i].name_lowercase));
            i = i + 1;
        }
        let mut album_title_list: Vec<Vec<u8>> = Vec::new();
        let mut j: usize = 0;
        while j < c.albums.len()
            invariant
                j <= c.albums@.len(),
                album_title_list@.len() == j,
                forall|t: int|
                    0 <= t < j ==> (#[trigger] album_title_list@[t])@
                        == c.albums@[t].title_lowercase@,
            decreases c.albums@.len() - j,
        {
            album_title_list.push(crate::ccd::Ccd::clone_bytes(&c.albums[j].title_lowercase));
            j = j + 1;
        }
        let mut song_title_list: Vec<Vec<u8>> = Vec::new();
        let mut t2: usize = 0;
        while t2 < c.songs.len()
            invariant
                t2 <= c.songs@.len(),
                song_title_list@.len() == t2,
                forall|t: int|
                    0 <= t < t2 ==> (#[trigger] song_title_list@[t])@
                        == c.songs@[t].title_lowercase@,
            decreases c.songs@.len() - t2,
        {
            song_title_list.push(crate::ccd::Ccd::clone_bytes(&c.songs[t2].title_lowercase));
            t2 = t2 + 1;
        }
        proof {
            assert(folded_views(artist_name_list@) =~= artist_names(*c));
            assert(folded_views(album_title_list@) =~= album_titles(*c));
            assert(folded_views(song_title_list@) =~= song_titles(*c));
        }
        let ranked_artists = Self::rank_names(&q, &artist_name_list);
        let picked_artists = Self::apply_kind(ranked_artists, &q, &artist_name_list, kind);
        let ranked_albums = Self::rank_names(&q, &album_title_list);
        let picked_albums = Self::apply_kind(ranked_albums, &q, &album_title_list, kind);
        let ranked_songs = Self::rank_names(&q, &song_title_list);
        let picked_songs = Self::apply_kind(ranked_songs, &q, &song_title_list, kind);
        let mut artists: Vec<ArtistKey> = Vec::new();
        let mut a: usize = 0;
        while a < picked_artists.len()
            invariant
                a <= picked_artists@.len(),
                artists@.len() == a,
                forall|k: int| 0 <= k < a ==> (#[trigger] artists@[k]).idx == picked_artists@[k],
            decreases picked_artists@.len() - a,
        {
            artists.push(ArtistKey::new(picked_artists[a]));
            a = a + 1;
        }
        let mut albums: Vec<AlbumKey> = Vec::new();
        let mut b: usize = 0;
        while b < picked_albums.len()
            invariant
                b <= picked_albums@.len(),
                albums@.len() == b,
                forall|k: int| 0 <= k < b ==> (#[trigger] albums@[k]).idx == picked_albums@[k],
            decreases picked_albums@.len() - b,
        {
            albums.push(AlbumKey::new(picked_albums[b]));
            b = b + 1;
        }
        let mut songs: Vec<SongKey> = Vec::new();
        let mut s2: usize = 0;
        while s2 < picked_songs.len()
            invariant
                s2 <= picked_songs@.len(),
                songs@.len() == s2,
                forall|k: int| 0 <= k < s2 ==> (#[trigger] songs@[k]).idx == picked_songs@[k],
            decreases picked_songs@.len() - s2,
        {
            songs.push(SongKey::new(picked_songs[s2]));
            s2 = s2 + 1;
        }
        proof {
            assert(crate::collection::artist_key_idxs(artists@) =~= picked_artists@);
            assert(crate::collection::album_key_idxs(albums@) =~= picked_albums@);
            assert(crate::collection::song_key_idxs(songs@) =~= picked_songs@);
            assert(folded_views(artist_name_list@) == artist_names(*c));
            assert(folded_views(album_title_list@) == album_titles(*c));
            assert(folded_views(song_title_list@) == song_titles(*c));
        }
        Keychain { artists, albums, songs }
    }
}

} // verus!
