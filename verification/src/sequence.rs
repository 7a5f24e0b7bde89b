//! The sequence itself: its definition, the executable recursion, and the
//! facts about it that the rest of the crate relies on.

use vstd::prelude::*;

verus! {

/// The `n`-th Fibonacci number: `0` and `1` at indices zero and one, and
/// from there on the sum of the two terms before.
pub open spec fn fib(n: nat) -> nat
    decreases n,
{
    if n == 0 {
        0
    } else if n == 1 {
        1
    } else {
        fib((n - 1) as nat) + fib((n - 2) as nat)
    }
}

/// The last index whose term still fits in a `u64`.
pub const MAX_INDEX: u32 = 93;

/// Computes the `n`-th Fibonacci number by direct recursion on the
/// definition: two base cases, and two recursive calls everywhere else.
/// The running time is exponential in `n`.
pub fn fibonacci(n: u32) -> (value: u64)
    requires
        n <= MAX_INDEX,
    ensures
        value == fib(n as nat),
    decreases n,
{
    match n {
        0 => 0,
        1 => 1,
        _ => {
            proof {
                lemma_fib_fits_u64(n as nat);
            }
            fibonacci(n - 1) + fibonacci(n - 2)
        },
    }
}

/// The sequence starts with `0` and `1`.
pub proof fn lemma_fib_base_cases()
    ensures
        fib(0) == 0,
        fib(1) == 1,
{
}

/// From index two on, each term is the sum of the two terms before it.
pub proof fn lemma_fib_recurrence(n: nat)
    requires
        n >= 2,
    ensures
        fib(n) == fib((n - 1) as nat) + fib((n - 2) as nat),
{
}

/// The first ten terms.
pub proof fn lemma_fib_first_ten()
    ensures
        Seq::new(10, |n: int| fib(n as nat)) == seq![0nat, 1, 1, 2, 3, 5, 8, 13, 21, 34],
{
    reveal_with_fuel(fib, 10);
}

/// The sequence never decreases.
pub proof fn lemma_fib_nondecreasing(low: nat, high: nat)
    requires
        low <= high,
    ensures
        fib(low) <= fib(high),
    decreases high - low,
{
    if low < high {
        lemma_fib_nondecreasing(low, (high - 1) as nat);
    }
}

/// Ten places further on, the sequence is a fixed combination of two
/// neighbouring terms.
proof fn lemma_fib_ten_ahead(n: nat)
    ensures
        fib(n + 10) == 34 * fib(n) + 55 * fib(n + 1),
        fib(n + 11) == 55 * fib(n) + 89 * fib(n + 1),
{
    let a = fib(n);
    let b = fib(n + 1);
    assert(fib(n + 2) == a + b);
    assert(fib(n + 3) == a + 2 * b);
    assert(fib(n + 4) == 2 * a + 3 * b);
    assert(fib(n + 5) == 3 * a + 5 * b);
    assert(fib(n + 6) == 5 * a + 8 * b);
    assert(fib(n + 7) == 8 * a + 13 * b);
    assert(fib(n + 8) == 13 * a + 21 * b);
    assert(fib(n + 9) == 21 * a + 34 * b);
    assert(fib(n + 10) == 34 * a + 55 * b);
}

/// The two terms on either side of the `u64` boundary.
pub proof fn lemma_fib_boundary()
    ensures
        fib(93) == 12200160415121876738,
        fib(94) == 19740274219868223167,
{
    lemma_fib_ten_ahead(0);
    lemma_fib_ten_ahead(10);
    lemma_fib_ten_ahead(20);
    lemma_fib_ten_ahead(30);
    lemma_fib_ten_ahead(40);
    lemma_fib_ten_ahead(50);
    lemma_fib_ten_ahead(60);
    lemma_fib_ten_ahead(70);
    lemma_fib_ten_ahead(80);
    assert(fib(92) == 7540113804746346429);
    assert(fib(93) == 12200160415121876738);
}

/// A term fits in a `u64` exactly when its index is at most `MAX_INDEX`.
pub proof fn lemma_fib_fits_u64(n: nat)
    ensures
        fib(n) <= u64::MAX <==> n <= MAX_INDEX,
{
    lemma_fib_boundary();
    if n <= 93 {
        lemma_fib_nondecreasing(n, 93);
    } else {
        lemma_fib_nondecreasing(94, n);
    }
}

} // verus!
