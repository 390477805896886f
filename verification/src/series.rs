//! Arithmetic series: the sum of `a, a + d, a + 2d, ...` in closed form.

use vstd::prelude::*;

verus! {

/// The term at position `i` (counted from zero) of the arithmetic sequence
/// that starts at `a` and grows by `d` at each step.
pub open spec fn term(a: nat, d: nat, i: nat) -> nat {
    a + i * d
}

/// The sum of the first `n` terms of the sequence, added up one term at a
/// time. This is the definition that the closed form is measured against.
pub open spec fn series_sum(a: nat, d: nat, n: nat) -> nat
    decreases n,
{
    if n == 0 {
        0
    } else {
        series_sum(a, d, (n - 1) as nat) + term(a, d, (n - 1) as nat)
    }
}

/// The product `n * (2a + (n - 1)d)`, which is twice the sum of the first
/// `n` terms. For `n == 0` the second factor may be negative; the product is
/// zero all the same.
pub open spec fn doubled_sum(a: nat, d: nat, n: nat) -> int {
    n * (2 * a + (n - 1) * d)
}

/// The closed form agrees with term-by-term addition for every start,
/// every step and every number of terms: `n * (2a + (n - 1)d)` is exactly
/// twice the sum, so halving it loses nothing.
pub proof fn lemma_closed_form(a: nat, d: nat, n: nat)
    ensures
        doubled_sum(a, d, n) == 2 * series_sum(a, d, n),
        doubled_sum(a, d, n) % 2 == 0,
        doubled_sum(a, d, n) / 2 == series_sum(a, d, n),
    decreases n,
{
    if n > 0 {
        let m = (n - 1) as nat;
        lemma_closed_form(a, d, m);
        assert(doubled_sum(a, d, n) == doubled_sum(a, d, m) + 2 * term(a, d, m))
            by (nonlinear_arith)
            requires
                n == m + 1,
        ;
    }
}

/// With a step of zero every term is `a`, so `n` terms sum to `a * n`.
pub proof fn lemma_constant_series(a: nat, n: nat)
    ensures
        series_sum(a, 0, n) == a * n,
    decreases n,
{
    if n > 0 {
        let m = (n - 1) as nat;
        lemma_constant_series(a, m);
        assert(term(a, 0, m) == a) by (nonlinear_arith);
        assert(a * m + a == a * n) by (nonlinear_arith)
            requires
                n == m + 1,
        ;
    } else {
        assert(a * n == 0) by (nonlinear_arith)
            requires
                n == 0,
        ;
    }
}

/// Sum of the `n` terms `a, a + d, ..., a + (n - 1)d`, computed as
/// `n * (2a + (n - 1)d) / 2`.
///
/// The product `n * (2a + (n - 1)d)` has to fit in a `u32`; for `n == 0`
/// it is zero and the result is zero whatever `a` and `d` are.
pub fn arith_sum(a: u32, d: u32, n: u32) -> (sum: u32)
    requires
        doubled_sum(a as nat, d as nat, n as nat) <= u32::MAX,
    ensures
        sum == series_sum(a as nat, d as nat, n as nat),
        sum == doubled_sum(a as nat, d as nat, n as nat) / 2,
        n == 0 ==> sum == 0,
        d == 0 ==> sum == a * n,
{
    if n == 0 {
        return 0;
    }
    proof {
        lemma_closed_form(a as nat, d as nat, n as nat);
        lemma_constant_series(a as nat, n as nat);
        let inner: int = 2 * a + (n - 1) * d;
        assert(0 <= (n - 1) * d && 0 <= inner <= n * inner) by (nonlinear_arith)
            requires
                n >= 1,
                d >= 0,
                a >= 0,
                inner == 2 * a + (n - 1) * d,
        ;
    }
    n * ((2 * a) + ((n - 1) * d)) / 2
}

/// The result depends on the arguments alone: whatever two calls on the
/// same `a`, `d` and `n` return is the same number.
pub proof fn lemma_arith_sum_repeatable(a: u32, d: u32, n: u32, first: u32, second: u32)
    requires
        call_ensures(arith_sum, (a, d, n), first),
        call_ensures(arith_sum, (a, d, n), second),
    ensures
        first == second,
{
}

} // verus!
