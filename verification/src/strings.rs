//! Case folding and the lexicographic order used by the sorted
//! orderings of a `Collection`.
//!
//! Names and titles are compared through their precomputed lowercase
//! forms, byte-wise over the UTF-8 encoding, which for valid UTF-8
//! coincides with the code-point order `str` itself uses.

use vstd::prelude::*;

verus! {

/// The UTF-8 bytes of what `str::to_lowercase` returns for a given
/// character sequence.
pub uninterp spec fn lower_bytes_of(s: Seq<char>) -> Seq<u8>;

/// Relies on `str::to_lowercase`: the case-folded form is a function
/// of the characters alone, and an empty string stays empty. The
/// result is handed out as its UTF-8 bytes, the form every comparison
/// in this crate works on.
#[verifier::external_body]
pub fn lowercase_bytes(s: &str) -> (r: Vec<u8>)
    ensures
        r@ == lower_bytes_of(s@),
        s@.len() == 0 ==> r@.len() == 0,
{
    s.to_lowercase().into_bytes()
}

/// Strict lexicographic order on byte sequences: the empty sequence
/// comes first, otherwise the first differing byte decides.
pub open spec fn bytes_lt(a: Seq<u8>, b: Seq<u8>) -> bool
    decreases a.len(),
{
    if b.len() == 0 {
        false
    } else if a.len() == 0 {
        true
    } else if a[0] != b[0] {
        a[0] < b[0]
    } else {
        bytes_lt(a.skip(1), b.skip(1))
    }
}

/// `bytes_lt` is irreflexive and asymmetric, and two sequences that
/// neither order strictly are equal.
pub proof fn lemma_bytes_lt_trichotomy(a: Seq<u8>, b: Seq<u8>)
    ensures
        bytes_lt(a, b) ==> !bytes_lt(b, a),
        !bytes_lt(a, b) && !bytes_lt(b, a) ==> a =~= b,
    decreases a.len(),
{
    if a.len() != 0 && b.len() != 0 && a[0] == b[0] {
        lemma_bytes_lt_trichotomy(a.skip(1), b.skip(1));
        if !bytes_lt(a, b) && !bytes_lt(b, a) {
            assert(a.skip(1) =~= b.skip(1));
            assert(a =~= b) by {
                assert(forall|i: int|
                    1 <= i < a.len() ==> a[i] == a.skip(1)[i - 1] && b[i] == b.skip(1)[i - 1]);
            }
        }
    }
}

/// `bytes_lt` is transitive.
pub proof fn lemma_bytes_lt_trans(a: Seq<u8>, b: Seq<u8>, c: Seq<u8>)
    requires
        bytes_lt(a, b),
        bytes_lt(b, c),
    ensures
        bytes_lt(a, c),
    decreases a.len(),
{
    if a.len() != 0 && b.len() != 0 && c.len() != 0 {
        if a[0] == b[0] && b[0] == c[0] {
            lemma_bytes_lt_trans(a.skip(1), b.skip(1), c.skip(1));
        }
    }
}

/// Three-way comparison of two byte slices in lexicographic order:
/// negative, zero or positive as `a` comes before, equal to, or
/// after `b`.
pub fn bytes_three_way(ab: &[u8], bb: &[u8]) -> (r: i8)
    ensures
        r == -1 || r == 0 || r == 1,
        (r == -1) == bytes_lt(ab@, bb@),
        (r == 1) == bytes_lt(bb@, ab@),
        (r == 0) == (ab@ == bb@),
{
    let an: usize = ab.len();
    let bn: usize = bb.len();
    let mut i: usize = 0;
    proof {
        assert(ab@.skip(0) =~= ab@);
        assert(bb@.skip(0) =~= bb@);
    }
    loop
        invariant
            i <= an,
            i <= bn,
            an == ab@.len(),
            bn == bb@.len(),
            forall|j: int| 0 <= j < i ==> ab@[j] == bb@[j],
            bytes_lt(ab@, bb@) == bytes_lt(ab@.skip(i as int), bb@.skip(i as int)),
            bytes_lt(bb@, ab@) == bytes_lt(bb@.skip(i as int), ab@.skip(i as int)),
        decreases an - i,
    {
        if i == an && i == bn {
            proof {
                assert(ab@.skip(i as int).len() == 0);
                assert(bb@.skip(i as int).len() == 0);
                assert(ab@ =~= bb@) by {
                    lemma_bytes_lt_trichotomy(ab@, bb@);
                }
            }
            return 0;
        }
        if i == an {
            proof {
                assert(ab@.skip(i as int).len() == 0);
                assert(bb@.skip(i as int).len() > 0);
            }
            return -1;
        }
        if i == bn {
            proof {
                assert(bb@.skip(i as int).len() == 0);
                assert(ab@.skip(i as int).len() > 0);
            }
            return 1;
        }
        let x = ab[i];
        let y = bb[i];
        proof {
            assert(ab@.skip(i as int)[0] == ab@[i as int]);
            assert(bb@.skip(i as int)[0] == bb@[i as int]);
        }
        if x < y {
            return -1;
        }
        if x > y {
            return 1;
        }
        proof {
            assert(ab@.skip(i as int).skip(1) =~= ab@.skip(i as int + 1));
            assert(bb@.skip(i as int).skip(1) =~= bb@.skip(i as int + 1));
        }
        i = i + 1;
    }
}

} // verus!
