//! Powers of ten, as far as a decimal's scale reaches.

use vstd::arithmetic::power::{lemma_pow0, lemma_pow_adds, lemma_pow_positive, pow};
use vstd::prelude::*;

verus! {

/// The largest scale a decimal can carry: the number of digits after the point.
pub const MAX_SCALE: u32 = 28;

/// Ten to the power of [`MAX_SCALE`]: how many smallest units make up one.
pub const UNITS_PER_ONE: u128 = 10_000_000_000_000_000_000_000_000_000;

/// Ten to the power of `n`.
pub open spec fn pow10(n: nat) -> int {
    pow(10, n)
}

/// A power of ten is at least one.
pub proof fn lemma_pow10_positive(n: nat)
    ensures
        pow10(n) >= 1,
{
    lemma_pow_positive(10, n);
}

/// The power of a sum is the product of the powers.
pub proof fn lemma_pow10_adds(a: nat, b: nat)
    ensures
        pow10(a + b) == pow10(a) * pow10(b),
{
    lemma_pow_adds(10, a, b);
}

/// Each further power is ten times the one before.
pub proof fn lemma_pow10_step(n: nat)
    ensures
        pow10(n + 1) == 10 * pow10(n),
{
    reveal(pow);
}

/// The value of the largest power in use.
pub proof fn lemma_pow10_max()
    ensures
        pow10(28) == UNITS_PER_ONE,
{
    lemma_pow0(10);
    lemma_pow10_step(0);
    lemma_pow10_step(1);
    lemma_pow10_step(2);
    lemma_pow10_step(3);
    assert(pow10(4) == 10_000);
    lemma_pow10_adds(4, 4);
    assert(pow10(8) == 100_000_000);
    lemma_pow10_adds(8, 8);
    assert(pow10(16) == 10_000_000_000_000_000);
    lemma_pow10_adds(16, 8);
    assert(pow10(24) == 1_000_000_000_000_000_000_000_000);
    lemma_pow10_adds(24, 4);
}

/// Powers of ten grow with the exponent.
pub proof fn lemma_pow10_monotonic(a: nat, b: nat)
    requires
        a <= b,
    ensures
        pow10(a) <= pow10(b),
    decreases b - a,
{
    if a < b {
        lemma_pow10_monotonic(a, (b - 1) as nat);
        lemma_pow10_step((b - 1) as nat);
        lemma_pow10_positive((b - 1) as nat);
    }
}

/// Ten to the power of `n`, for an exponent within the scale range.
pub fn pow10_exec(n: u32) -> (r: u128)
    requires
        n <= MAX_SCALE,
    ensures
        r == pow10(n as nat),
        1 <= r <= UNITS_PER_ONE,
{
    let mut r: u128 = 1;
    let mut i: u32 = 0;
    proof {
        lemma_pow0(10);
        lemma_pow10_max();
        lemma_pow10_monotonic(0, 28);
    }
    while i < n
        invariant
            i <= n <= MAX_SCALE,
            r == pow10(i as nat),
            1 <= r <= UNITS_PER_ONE,
            pow10(28) == UNITS_PER_ONE,
        decreases n - i,
    {
        proof {
            lemma_pow10_step(i as nat);
            lemma_pow10_monotonic((i + 1) as nat, 28);
        }
        r = r * 10;
        i = i + 1;
    }
    r
}

} // verus!
