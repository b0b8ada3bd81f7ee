//! Sums of price-weighted amounts computed without overflow.
use vstd::prelude::*;

verus! {

/// `acc + price * amount`, where the caller has shown that it fits.
pub fn accumulate(acc: u128, price: u128, amount: u64) -> (r: u128)
    requires
        acc + price * amount <= u128::MAX,
    ensures
        r == acc + price * amount,
{
    proof {
        vstd::arithmetic::mul::lemma_mul_nonnegative(price as int, amount as int);
    }
    acc + price * (amount as u128)
}

/// A product of two natural numbers is natural.
pub proof fn lemma_terms_nonnegative(price: u128, amount: u64)
    ensures
        price * amount >= 0,
{
    vstd::arithmetic::mul::lemma_mul_nonnegative(price as int, amount as int);
}

/// `acc + price * amount` where it fits in a `u128`, else `None`.
pub fn checked_accumulate(acc: u128, price: u128, amount: u64) -> (r: Option<u128>)
    ensures
        acc + price * amount <= u128::MAX ==> r == Some((acc + price * amount) as u128),
        acc + price * amount > u128::MAX ==> r is None,
{
    proof {
        vstd::arithmetic::mul::lemma_mul_nonnegative(price as int, amount as int);
    }
    match price.checked_mul(amount as u128) {
        None => None,
        Some(term) => acc.checked_add(term),
    }
}

/// Integer division rounds down: `x / d` times `d` is at most `x`, and one
/// more times `d` exceeds it.
pub proof fn lemma_quotient_rounds_down(x: int, d: int)
    requires
        0 <= x,
        0 < d,
    ensures
        0 <= x / d,
        (x / d) * d <= x,
        x < (x / d + 1) * d,
{
    vstd::arithmetic::div_mod::lemma_fundamental_div_mod(x, d);
    vstd::arithmetic::div_mod::lemma_mod_pos_bound(x, d);
    vstd::arithmetic::div_mod::lemma_div_pos_is_pos(x, d);
    let q = x / d;
    assert(q * d <= x && x < (q + 1) * d) by (nonlinear_arith)
        requires
            x == d * q + x % d,
            0 <= x % d < d,
    ;
}

} // verus!
