//! The rule by which the arena grows: to the smallest power of two that holds what is written.

use vstd::arithmetic::power2::{lemma_pow2_strictly_increases, lemma_pow2_unfold, pow2};
use vstd::prelude::*;

verus! {

/// Whether `n` is 1, 2, 4, 8, ...
pub open spec fn is_power_of_two(n: nat) -> bool {
    exists|e: nat| n == pow2(e)
}

/// The first of `p`, `2p`, `4p`, ... that is at least `n`.
pub open spec fn doubled_from(p: nat, n: nat) -> nat
    decreases (if n > p { n - p } else { 0 }),
{
    if p >= n || p == 0 {
        p
    } else {
        doubled_from(2 * p, n)
    }
}

/// The smallest power of two that is at least `n`.
pub open spec fn next_power_of_two(n: nat) -> nat {
    doubled_from(1, n)
}

proof fn lemma_pow2_order(e: nat, f: nat)
    ensures
        e <= f ==> pow2(e) <= pow2(f),
        pow2(e) < pow2(f) ==> e < f,
{
    if e < f {
        lemma_pow2_strictly_increases(e, f);
    } else if f < e {
        lemma_pow2_strictly_increases(f, e);
    }
}

proof fn lemma_doubled_from(p: nat, e: nat, n: nat)
    requires
        p == pow2(e),
    ensures
        doubled_from(p, n) >= n,
        doubled_from(p, n) >= p,
        is_power_of_two(doubled_from(p, n)),
        forall|f: nat| p <= pow2(f) && n <= #[trigger] pow2(f) ==> doubled_from(p, n) <= pow2(f),
    decreases (if n > p { n - p } else { 0 }),
{
    vstd::arithmetic::power2::lemma_pow2_pos(e);
    if p >= n {
    } else {
        lemma_pow2_unfold(e + 1);
        lemma_doubled_from(2 * p, e + 1, n);
        assert forall|f: nat| p <= pow2(f) && n <= #[trigger] pow2(f) implies doubled_from(p, n)
            <= pow2(f) by {
            lemma_pow2_order(e, f);
            lemma_pow2_order(e + 1, f);
        }
    }
}

/// [`next_power_of_two`] is what its name says: a power of two, at least `n`, and below every
/// other such power.
pub proof fn lemma_next_power_of_two(n: nat)
    ensures
        is_power_of_two(next_power_of_two(n)),
        next_power_of_two(n) >= n,
        next_power_of_two(n) >= 1,
        forall|q: nat| is_power_of_two(q) && q >= n ==> next_power_of_two(n) <= q,
{
    vstd::arithmetic::power2::lemma2_to64();
    lemma_doubled_from(1, 0, n);
    assert forall|q: nat| is_power_of_two(q) && q >= n implies next_power_of_two(n) <= q by {
        let f = choose|f: nat| q == pow2(f);
        vstd::arithmetic::power2::lemma_pow2_pos(f);
    }
}

/// Between `n` and its next power of two, every number has the same next power of two.
pub proof fn lemma_next_power_of_two_stable(n: nat, m: nat)
    requires
        n <= m <= next_power_of_two(n),
    ensures
        next_power_of_two(m) == next_power_of_two(n),
{
    lemma_next_power_of_two(n);
    lemma_next_power_of_two(m);
}

/// The smallest power of two that is at least `n`, or `None` where it does not fit in a
/// `usize`.
pub fn checked_next_power_of_two(n: usize) -> (r: Option<usize>)
    ensures
        match r {
            Some(p) => p == next_power_of_two(n as nat),
            None => next_power_of_two(n as nat) > usize::MAX,
        },
{
    let mut p: usize = 1;
    let ghost mut e: nat = 0;
    proof {
        vstd::arithmetic::power2::lemma2_to64();
    }
    while p < n
        invariant
            p >= 1,
            p == pow2(e),
            doubled_from(p as nat, n as nat) == next_power_of_two(n as nat),
        decreases (if n > p { n - p } else { 0 }),
    {
        if p > usize::MAX / 2 {
            proof {
                lemma_pow2_unfold(e + 1);
                lemma_doubled_from((2 * p) as nat, e + 1, n as nat);
            }
            return None;
        }
        proof {
            lemma_pow2_unfold(e + 1);
            e = e + 1;
        }
        p = 2 * p;
    }
    Some(p)
}

} // verus!
