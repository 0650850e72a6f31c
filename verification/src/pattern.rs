//! The rhythmic pattern and its cyclic rotation.
//!
//! A pattern is an ordered sequence of accent flags. The second voice of the
//! piece is the pattern rotated right by the cycle's phase amount; rotation
//! amounts are normalized into `[0, N)` by Euclidean remainder, so any amount,
//! however large, names a valid phase.

use vstd::prelude::*;
use vstd::arithmetic::div_mod::{
    lemma_mod_add_multiples_vanish, lemma_mod_bound, lemma_small_mod,
    lemma_sub_mod_noop, lemma_sub_mod_noop_right,
};

verus! {

/// The pattern rotated right by `r` positions: element `i` of the result is
/// element `(i - r) mod len` of the source. The remainder is Euclidean, so
/// the source index is always in `[0, len)` even when `i - r` is negative.
pub open spec fn rotate_right_spec(s: Seq<bool>, r: int) -> Seq<bool> {
    Seq::new(s.len(), |i: int| s[(i - r) % (s.len() as int)])
}

/// The position in the unrotated pattern that lands at position `i` once the
/// pattern is rotated right by `r`: the Euclidean remainder `(i - r) mod n`,
/// normalized into `[0, n)`.
pub fn rotated_source_index(n: usize, r: usize, i: usize) -> (src: usize)
    requires
        i < n,
    ensures
        src < n,
        src as int == (i as int - r as int) % (n as int),
{
    let shift = r % n;
    let src = if i >= shift {
        i - shift
    } else {
        n - shift + i
    };
    proof {
        lemma_sub_mod_noop_right(i as int, r as int, n as int);
        if i >= shift {
            lemma_small_mod((i - shift) as nat, n as nat);
        } else {
            lemma_mod_add_multiples_vanish(i as int - shift as int, n as int);
            lemma_small_mod((n - shift + i) as nat, n as nat);
        }
    }
    src
}

/// Build the pattern rotated right by `r` positions.
pub fn rotate_right(pattern: &Vec<bool>, r: usize) -> (result: Vec<bool>)
    ensures
        result@ == rotate_right_spec(pattern@, r as int),
{
    let n = pattern.len();
    let mut result: Vec<bool> = Vec::new();
    if n == 0 {
        assert(result@ =~= rotate_right_spec(pattern@, r as int));
        return result;
    }
    let mut i: usize = 0;
    while i < n
        invariant
            0 < n == pattern.len(),
            i <= n,
            result@.len() == i,
            forall|j: int|
                0 <= j < i ==> result@[j] == pattern@[(j - r as int) % (n as int)],
        decreases n - i,
    {
        let src = rotated_source_index(n, r, i);
        result.push(pattern[src]);
        i += 1;
    }
    assert(result@ =~= rotate_right_spec(pattern@, r as int));
    result
}

/// Rotation is a cyclic group action: rotating right by `r` and then by
/// `len - r` brings every element back to its place, so the composition is
/// the identity on the pattern.
pub proof fn lemma_rotate_right_inverse(s: Seq<bool>, r: int)
    requires
        s.len() > 0,
        0 <= r <= s.len(),
    ensures
        rotate_right_spec(rotate_right_spec(s, r), s.len() - r) == s,
{
    let n = s.len() as int;
    let once = rotate_right_spec(s, r);
    let twice = rotate_right_spec(once, n - r);
    assert forall|i: int| 0 <= i < n implies twice[i] == s[i] by {
        let a = i - (n - r);
        lemma_mod_bound(a, n);
        lemma_sub_mod_noop(a, r, n);
        lemma_sub_mod_noop_right(a % n, r, n);
        assert(((a % n) - r) % n == (a - r) % n);
        lemma_mod_add_multiples_vanish(i - n, n);
        lemma_small_mod(i as nat, n as nat);
        assert((a - r) % n == i);
    };
    assert(twice =~= s);
}

} // verus!
