//! Fixed-point units and the rounding rule of the model.
use vstd::prelude::*;
use vstd::arithmetic::div_mod::lemma_fundamental_div_mod;

verus! {

/// Micro-dollars in one dollar: every amount of money is a count of micro-dollars.
pub const MICROS_PER_USD: i64 = 1_000_000;

/// Parts per million in a whole: every rate is a count of parts per million.
pub const PPM: i64 = 1_000_000;

/// Whether an integer can be stored as an `i64`.
pub open spec fn fits(x: int) -> bool {
    i64::MIN <= x <= i64::MAX
}

/// `rate` (parts per million) of `amount` (micro-dollars), rounded down.
pub open spec fn spec_portion(amount: int, rate: int) -> int {
    (amount * rate) / (PPM as int)
}

/// Division rounded towards negative infinity, which is what `/` means on `int`
/// for a positive divisor.
pub fn floor_div(a: i128, d: i128) -> (q: i128)
    requires
        d > 0,
        a > i128::MIN,
    ensures
        q == a / d,
{
    if a >= 0 {
        a / d
    } else {
        let m: i128 = -a - 1;
        let t: i128 = m / d;
        proof {
            let tq = m as int / d as int;
            let tr = m as int % d as int;
            lemma_fundamental_div_mod(m as int, d as int);
            assert(0 <= tr < d);
            assert(tq >= 0) by (nonlinear_arith)
                requires m >= 0, d > 0, tq == m as int / d as int;
            // a == d * (-tq - 1) + (d - 1 - tr), with 0 <= d - 1 - tr < d
            assert(a as int == (-tq - 1) * d + (d - 1 - tr)) by (nonlinear_arith)
                requires m as int == d * tq + tr, a as int == -(m as int) - 1;
            vstd::arithmetic::div_mod::lemma_fundamental_div_mod_converse_div(
                a as int, d as int, -tq - 1, d - 1 - tr);
        }
        -t - 1
    }
}

/// The rounding of `spec_portion`: the exact product, less what was rounded off,
/// with less than one unit rounded off.
pub proof fn lemma_portion_rounding(amount: int, rate: int)
    ensures
        spec_portion(amount, rate) * PPM <= amount * rate,
        amount * rate < spec_portion(amount, rate) * PPM + PPM,
{
    lemma_fundamental_div_mod(amount * rate, PPM as int);
    assert(0 <= (amount * rate) % (PPM as int) < PPM);
}

/// `rate` (parts per million) of `amount` (micro-dollars), rounded down.
pub fn portion(amount: i64, rate: i64) -> (r: i128)
    ensures
        r == spec_portion(amount as int, rate as int),
{
    assert(-0x4000_0000_0000_0000_0000_0000_0000_0000 <= amount * rate
        <= 0x4000_0000_0000_0000_0000_0000_0000_0000) by (nonlinear_arith)
        requires i64::MIN <= amount <= i64::MAX, i64::MIN <= rate <= i64::MAX;
    let p: i128 = (amount as i128) * (rate as i128);
    floor_div(p, PPM as i128)
}

} // verus!
