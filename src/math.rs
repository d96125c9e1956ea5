//! Scaled-integer helpers shared by the reward and share computations.

use vstd::prelude::*;

verus! {

/// `10` raised to `n`.
pub open spec fn pow10(n: nat) -> nat
    decreases n,
{
    if n == 0 {
        1
    } else {
        10 * pow10((n - 1) as nat)
    }
}

/// Powers of ten grow with the exponent.
pub proof fn lemma_pow10_monotone(a: nat, b: nat)
    requires
        a <= b,
    ensures
        pow10(a) <= pow10(b),
        pow10(a) >= 1,
    decreases b,
{
    if b > a {
        lemma_pow10_monotone(a, (b - 1) as nat);
    } else if a > 0 {
        lemma_pow10_monotone((a - 1) as nat, (a - 1) as nat);
    }
}

/// The scaling factor `10^decimals`, or `None` where it does not fit in a `u128`.
pub fn decimal_places(decimals: u32) -> (r: Option<u128>)
    ensures
        pow10(decimals as nat) <= u128::MAX ==> r == Some(pow10(decimals as nat) as u128),
        pow10(decimals as nat) > u128::MAX ==> r is None,
{
    let mut acc: u128 = 1;
    let mut i: u32 = 0;
    while i < decimals
        invariant
            i <= decimals,
            acc as nat == pow10(i as nat),
        decreases decimals - i,
    {
        match acc.checked_mul(10) {
            Some(next) => {
                acc = next;
                i = i + 1;
            },
            None => {
                proof {
                    lemma_pow10_monotone((i + 1) as nat, decimals as nat);
                }
                return None;
            },
        }
    }
    Some(acc)
}

/// `a * b / c` rounded down, or `None` where `a * b` overflows a `u128`.
pub fn checked_mul_div(a: u128, b: u128, c: u128) -> (r: Option<u128>)
    requires
        c != 0,
    ensures
        a * b <= u128::MAX ==> r == Some(((a * b) / (c as int)) as u128),
        a * b > u128::MAX ==> r is None,
{
    match a.checked_mul(b) {
        Some(p) => Some(p / c),
        None => None,
    }
}

} // verus!
