//! Fibonacci numbers by the defining recurrence.

use vstd::prelude::*;

verus! {

/// The Fibonacci sequence: 0, 1, and from then on each number is the sum of
/// the two before it.
pub open spec fn fibonacci(k: nat) -> nat
    decreases k,
{
    if k < 2 {
        k
    } else {
        fibonacci((k - 1) as nat) + fibonacci((k - 2) as nat)
    }
}

/// The largest index whose Fibonacci number fits in a `u32`.
pub const MAX_INDEX: u32 = 47;

/// From index 2 on, every Fibonacci number is the sum of its two
/// predecessors.
pub proof fn lemma_fibonacci_recurrence(k: nat)
    requires
        k >= 2,
    ensures
        fibonacci(k) == fibonacci((k - 1) as nat) + fibonacci((k - 2) as nat),
{
}

/// The sequence never decreases.
pub proof fn lemma_fibonacci_monotonic(i: nat, j: nat)
    requires
        i <= j,
    ensures
        fibonacci(i) <= fibonacci(j),
    decreases j,
{
    if i < j {
        lemma_fibonacci_monotonic(i, (j - 1) as nat);
        if j >= 2 {
            assert(fibonacci(j) >= fibonacci((j - 1) as nat));
        }
    }
}

/// The two Fibonacci numbers on either side of the `u32` limit.
proof fn lemma_fibonacci_at_limit()
    ensures
        fibonacci(47) == 2971215073,
        fibonacci(48) == 4807526976,
{
    reveal_with_fuel(fibonacci, 9);
    assert(fibonacci(7) == 13 && fibonacci(8) == 21);
    assert(fibonacci(15) == 610 && fibonacci(16) == 987);
    assert(fibonacci(23) == 28657 && fibonacci(24) == 46368);
    assert(fibonacci(31) == 1346269 && fibonacci(32) == 2178309);
    assert(fibonacci(39) == 63245986 && fibonacci(40) == 102334155);
}

/// A Fibonacci number fits in a `u32` exactly when its index is at most
/// `MAX_INDEX`.
pub proof fn lemma_fits_u32(k: nat)
    ensures
        fibonacci(k) <= u32::MAX <==> k <= MAX_INDEX,
{
    lemma_fibonacci_at_limit();
    if k <= 47 {
        lemma_fibonacci_monotonic(k, 47);
    } else {
        lemma_fibonacci_monotonic(48, k);
    }
}

/// The Fibonacci number at index `upper_bound`, computed by following the
/// recurrence directly. The work grows exponentially with the index.
pub fn fib(upper_bound: u32) -> (value: u32)
    requires
        upper_bound <= MAX_INDEX,
    ensures
        value == fibonacci(upper_bound as nat),
    decreases upper_bound,
{
    match upper_bound {
        0 => 0,
        1 => 1,
        _ => {
            proof {
                lemma_fits_u32(upper_bound as nat);
            }
            fib(upper_bound - 1) + fib(upper_bound - 2)
        },
    }
}

/// What `fib` returns obeys the recurrence: from index 2 on, the result at
/// an index is the sum of the results at the two indices before it.
pub proof fn lemma_fib_recurrence(upper_bound: u32, at: u32, one_before: u32, two_before: u32)
    requires
        upper_bound >= 2,
        call_ensures(fib, (upper_bound,), at),
        call_ensures(fib, ((upper_bound - 1) as u32,), one_before),
        call_ensures(fib, ((upper_bound - 2) as u32,), two_before),
    ensures
        at == one_before + two_before,
{
}

/// The result depends on the index alone: whatever two calls on the same
/// index return is the same number.
pub proof fn lemma_fib_repeatable(upper_bound: u32, first: u32, second: u32)
    requires
        call_ensures(fib, (upper_bound,), first),
        call_ensures(fib, (upper_bound,), second),
    ensures
        first == second,
{
}

} // verus!
