use vstd::prelude::*;

use crate::errors::CreditsError;

verus! {

pub open spec fn fits_i128(x: int) -> bool {
    i128::MIN <= x <= i128::MAX
}

pub open spec fn abs(x: int) -> int {
    if x < 0 { -x } else { x }
}

/// Integer division rounding toward zero, as Rust's `/` does.
pub open spec fn trunc_div(x: int, d: int) -> int {
    if (x < 0) != (d < 0) {
        -(abs(x) / abs(d))
    } else {
        abs(x) / abs(d)
    }
}

/// The remainder that goes with `trunc_div`, as Rust's `%` gives it: it has
/// the sign of `x` and is smaller than `d` in magnitude.
pub open spec fn trunc_rem(x: int, d: int) -> int {
    if x < 0 {
        -(abs(x) % abs(d))
    } else {
        abs(x) % abs(d)
    }
}

/// Percentage of the fee rates.
pub const PERCENT: i128 = 100;

/// The part of `amount` that a fee rate of `fees` percent takes, rounded
/// toward zero.
pub open spec fn fee_share(amount: int, fees: int) -> int {
    trunc_div(amount * fees, PERCENT as int)
}

/// `fees` percent of `amount`, rounded toward zero; `Overflow` where
/// `amount * fees` does not fit an `i128`.
pub fn percent_of(amount: i128, fees: i128) -> (r: Result<i128, CreditsError>)
    ensures
        match r {
            Ok(v) => fits_i128(amount * fees) && v == fee_share(amount as int, fees as int),
            Err(e) => !fits_i128(amount * fees) && e == CreditsError::Overflow,
        },
{
    match amount.checked_mul(fees) {
        Some(p) => {
            match p.checked_div(PERCENT) {
                Some(q) => Ok(q),
                None => {
                    assert(false);
                    Err(CreditsError::Overflow)
                },
            }
        },
        None => Err(CreditsError::Overflow),
    }
}

/// `x % d` as Rust computes it, for a `d` that is not zero and a pair that
/// does not overflow.
pub fn remainder(x: i128, d: i128) -> (r: i128)
    requires
        d != 0,
        !(x == i128::MIN && d == -1),
    ensures
        r == trunc_rem(x as int, d as int),
{
    match x.checked_rem(d) {
        Some(r) => r,
        None => {
            assert(false);
            0
        },
    }
}

/// Facts on the remainder by a positive divisor of a number at least as
/// large as the divisor: it lies in `[0, d)`, and what it leaves is a
/// positive multiple of `d`.
pub proof fn lemma_rem_positive(x: int, d: int)
    requires
        0 < d <= x,
    ensures
        trunc_rem(x, d) == x % d,
        0 <= trunc_rem(x, d) < d,
        (x - trunc_rem(x, d)) % d == 0,
        x - trunc_rem(x, d) >= d,
{
    vstd::arithmetic::div_mod::lemma_fundamental_div_mod(x, d);
    vstd::arithmetic::div_mod::lemma_mod_multiples_basic(x / d, d);
    vstd::arithmetic::div_mod::lemma_div_pos_is_pos(x, d);
    assert(x / d >= 1) by {
        vstd::arithmetic::div_mod::lemma_div_non_zero(x, d);
    }
    assert(d * (x / d) >= d) by (nonlinear_arith)
        requires
            x / d >= 1,
            d > 0,
    ;
    assert((x / d) * d == d * (x / d)) by (nonlinear_arith);
}

/// The remainder never exceeds the dividend in magnitude and has its sign.
pub proof fn lemma_rem_bounds(x: int, d: int)
    requires
        d != 0,
    ensures
        abs(trunc_rem(x, d)) <= abs(x),
        abs(trunc_rem(x, d)) < abs(d),
        x >= 0 ==> trunc_rem(x, d) >= 0,
        x < 0 ==> trunc_rem(x, d) <= 0,
{
    vstd::arithmetic::div_mod::lemma_mod_pos_bound(abs(x), abs(d));
    vstd::arithmetic::div_mod::lemma_mod_decreases(abs(x) as nat, abs(d) as nat);
}

} // verus!
