//! The sum of the multiples of 3 or 5 below 1000, by inclusion and
//! exclusion over three arithmetic series.

use vstd::prelude::*;
use vstd::arithmetic::div_mod::{lemma_fundamental_div_mod, lemma_fundamental_div_mod_converse};
use crate::series::{arith_sum, series_sum, term};

verus! {

/// The sum of the multiples of `k` among `0, 1, ..., limit - 1`, found by
/// looking at each number in turn.
pub open spec fn sum_of_multiples(k: nat, limit: nat) -> nat
    decreases limit,
{
    if limit == 0 {
        0
    } else {
        let i = (limit - 1) as nat;
        sum_of_multiples(k, i) + if i % k == 0 {
            i
        } else {
            0
        }
    }
}

/// The sum of the numbers among `0, 1, ..., limit - 1` that are a multiple
/// of 3 or of 5 (or of both, counted once), found by looking at each number
/// in turn.
pub open spec fn sum_of_multiples_of_3_or_5(limit: nat) -> nat
    decreases limit,
{
    if limit == 0 {
        0
    } else {
        let i = (limit - 1) as nat;
        sum_of_multiples_of_3_or_5(i) + if i % 3 == 0 || i % 5 == 0 {
            i
        } else {
            0
        }
    }
}

/// The multiples of `k` below `limit` are the arithmetic series that
/// starts at `k`, grows by `k`, and has `(limit - 1) / k` terms.
pub proof fn lemma_multiples_form_series(k: nat, limit: nat)
    requires
        k > 0,
        limit > 0,
    ensures
        sum_of_multiples(k, limit) == series_sum(k, k, ((limit - 1) / (k as int)) as nat),
    decreases limit,
{
    let i = (limit - 1) as nat;
    let q = i as int / k as int;
    let r = i as int % k as int;
    lemma_fundamental_div_mod(i as int, k as int);
    if i == 0 {
        assert(sum_of_multiples(k, 0) == 0);
        lemma_fundamental_div_mod_converse(0, k as int, 0, 0);
    } else {
        lemma_multiples_form_series(k, i);
        if r == 0 {
            assert(q >= 1 && i - 1 == (q - 1) * k + (k - 1) && i == q * k) by (nonlinear_arith)
                requires
                    i == k * q + r,
                    r == 0,
                    i >= 1,
                    k > 0,
            ;
            lemma_fundamental_div_mod_converse(i - 1, k as int, q - 1, k - 1);
            assert(term(k, k, (q - 1) as nat) == i) by (nonlinear_arith)
                requires
                    i == q * k,
                    q >= 1,
                    term(k, k, (q - 1) as nat) == k + ((q - 1) as nat) * k,
            ;
        } else {
            assert(i - 1 == q * k + (r - 1)) by (nonlinear_arith)
                requires
                    i == k * q + r,
            ;
            lemma_fundamental_div_mod_converse(i - 1, k as int, q, r - 1);
        }
    }
}

/// Adding the multiples of 3 to the multiples of 5 counts the multiples of
/// 15 twice; taking them away once leaves each multiple of 3 or 5 counted
/// exactly once.
pub proof fn lemma_inclusion_exclusion(limit: nat)
    ensures
        sum_of_multiples_of_3_or_5(limit) == sum_of_multiples(3, limit) + sum_of_multiples(
            5,
            limit,
        ) - sum_of_multiples(15, limit),
    decreases limit,
{
    if limit > 0 {
        lemma_inclusion_exclusion((limit - 1) as nat);
    }
}

/// The sum of all multiples of 3 or 5 below 1000.
///
/// It is computed from three closed-form series: the 333 multiples of 3,
/// plus the 199 multiples of 5, minus the 66 multiples of 15 that the first
/// two have in common.
pub fn sum_of_multiples_below_1000() -> (total: u32)
    ensures
        total == sum_of_multiples_of_3_or_5(1000),
        total == sum_of_multiples(3, 1000) + sum_of_multiples(5, 1000) - sum_of_multiples(
            15,
            1000,
        ),
        total == 233168,
{
    let threes = arith_sum(3, 3, 333);
    let fives = arith_sum(5, 5, 199);
    let fifteens = arith_sum(15, 15, 66);
    proof {
        lemma_multiples_form_series(3, 1000);
        lemma_multiples_form_series(5, 1000);
        lemma_multiples_form_series(15, 1000);
        lemma_inclusion_exclusion(1000);
    }
    threes + fives - fifteens
}

/// Every call returns the same total.
pub proof fn lemma_total_repeatable(first: u32, second: u32)
    requires
        call_ensures(sum_of_multiples_below_1000, (), first),
        call_ensures(sum_of_multiples_below_1000, (), second),
    ensures
        first == second,
{
}

} // verus!
