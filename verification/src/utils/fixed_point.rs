//! Fixed-point arithmetic on values in hundredths of a unit.

use vstd::prelude::*;

verus! {

/// The sum of two fixed-point values, or `None` when it does not fit in 32 bits.
pub open spec fn fixed_sum(a: u32, b: u32) -> Option<u32> {
    if a + b <= u32::MAX { Some((a + b) as u32) } else { None }
}

/// The difference of two fixed-point values, or `None` when it is negative.
pub open spec fn fixed_difference(a: u32, b: u32) -> Option<u32> {
    if a >= b { Some((a - b) as u32) } else { None }
}

/// The multiple of `100 / precision` nearest to `value`, halves rounding up.
pub open spec fn rounded_to_precision(value: u32, precision: u32) -> int {
    let factor = (100u32 / precision) as int;
    ((value + factor / 2) / factor) * factor
}

/// Round a fixed-point value to `precision` steps per unit (for example
/// `precision == 10` rounds to tenths), halves rounding up.
pub fn round_to_precision(value: u32, precision: u32) -> (r: u32)
    requires
        0 < precision <= 100,
        value + (100u32 / precision) as int / 2 <= u32::MAX,
    ensures
        r == rounded_to_precision(value, precision),
{
    let factor: u32 = 100 / precision;
    assert(factor >= 1) by (nonlinear_arith)
        requires
            factor == 100u32 / precision,
            0 < precision <= 100,
    ;
    let q = (value + factor / 2) / factor;
    assert(q * factor <= value + factor / 2) by (nonlinear_arith)
        requires
            q as int == (value + factor as int / 2) / factor as int,
            factor >= 1,
    ;
    q * factor
}

/// Rounding a value that is already rounded to a precision leaves it unchanged.
pub proof fn lemma_round_to_precision_idempotent(value: u32, precision: u32)
    requires
        0 < precision <= 100,
        value + (100u32 / precision) as int / 2 <= u32::MAX,
    ensures
        ({
            let r = rounded_to_precision(value, precision);
            &&& 0 <= r <= u32::MAX
            &&& rounded_to_precision(r as u32, precision) == r
        }),
{
    let f = (100u32 / precision) as int;
    assert(f >= 1) by (nonlinear_arith)
        requires
            f == 100u32 / precision,
            0 < precision <= 100,
    ;
    let q = (value + f / 2) / f;
    let r = q * f;
    assert(0 <= r <= value + f / 2) by (nonlinear_arith)
        requires
            q == (value + f / 2) / f,
            r == q * f,
            f >= 1,
            value >= 0,
    ;
    assert((r + f / 2) / f == q) by (nonlinear_arith)
        requires
            r == q * f,
            f >= 1,
            q >= 0,
    ;
}

/// Add two fixed-point values, `None` on overflow.
pub fn add_fixed(a: u32, b: u32) -> (r: Option<u32>)
    ensures
        r == fixed_sum(a, b),
{
    a.checked_add(b)
}

/// Subtract two fixed-point values, `None` on underflow.
pub fn sub_fixed(a: u32, b: u32) -> (r: Option<u32>)
    ensures
        r == fixed_difference(a, b),
{
    a.checked_sub(b)
}

/// Subtracting what was added gives the original value back.
pub proof fn lemma_add_then_sub(a: u32, b: u32)
    ensures
        fixed_sum(a, b) matches Some(c) ==> fixed_difference(c, b) == Some(a),
{
}

/// Multiply two fixed-point values: `a * b / 100`, truncated to 32 bits.
pub fn mul_fixed(a: u32, b: u32) -> (r: u32)
    ensures
        r == ((a * b) / 100) as u32,
{
    assert((a as u64) * (b as u64) <= u64::MAX) by (nonlinear_arith);
    ((a as u64) * (b as u64) / 100) as u32
}

/// Divide two fixed-point values: `a * 100 / b` truncated to 32 bits, `None`
/// when `b` is zero.
pub fn div_fixed(a: u32, b: u32) -> (r: Option<u32>)
    ensures
        b == 0 ==> r is None,
        b != 0 ==> r == Some(((a * 100) / (b as int)) as u32),
{
    if b == 0 {
        return None;
    }
    let result = ((a as u64) * 100) / (b as u64);
    Some(result as u32)
}

/// Average of two fixed-point values, rounded down, computed without overflow.
pub fn avg_fixed(a: u32, b: u32) -> (r: u32)
    ensures
        r == (a + b) / 2,
{
    (a / 2) + (b / 2) + ((a % 2) + (b % 2)) / 2
}

/// The average lies between the two values.
pub proof fn lemma_avg_between(a: u32, b: u32)
    ensures
        a <= b ==> a <= (a + b) / 2 <= b,
        b <= a ==> b <= (a + b) / 2 <= a,
{
}

} // verus!
