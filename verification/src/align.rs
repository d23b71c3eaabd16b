//! Rounding a byte cursor up to an alignment boundary, the one arithmetic
//! primitive every placement pass shares.

use vstd::prelude::*;

verus! {

use vstd::arithmetic::div_mod::{
    lemma_fundamental_div_mod, lemma_mod_bound, lemma_mod_multiples_basic,
};

/// Smallest multiple of `a` that is at or above `p` (so `p` itself when `p`
/// is already a multiple of `a`).
pub open spec fn spec_align_up(p: int, a: int) -> int
    recommends
        1 <= a,
{
    if p % a == 0 {
        p
    } else {
        p + (a - p % a)
    }
}

/// The aligned cursor never moves backwards, advances by less than one full
/// alignment unit, and lands on a multiple of the alignment.
pub proof fn lemma_align_up_properties(p: int, a: int)
    requires
        1 <= a,
        0 <= p,
    ensures
        p <= spec_align_up(p, a) < p + a,
        spec_align_up(p, a) % a == 0,
{
    lemma_mod_bound(p, a);
    if p % a != 0 {
        lemma_fundamental_div_mod(p, a);
        assert(p + (a - p % a) == a * (p / a + 1)) by (nonlinear_arith)
            requires
                p == a * (p / a) + p % a,
        ;
        lemma_mod_multiples_basic(p / a + 1, a);
    }
}

/// Rounds `p` up to the next multiple of `a`.
pub fn align_up(p: u64, a: u64) -> (r: u64)
    requires
        1 <= a,
        spec_align_up(p as int, a as int) <= u64::MAX,
    ensures
        r == spec_align_up(p as int, a as int),
{
    let rem = p % a;
    if rem == 0 {
        p
    } else {
        p + (a - rem)
    }
}

} // verus!
