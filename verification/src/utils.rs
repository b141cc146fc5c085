//! Fixed-point conversion between fiat amounts and share quantities.
//!
//! Amounts carry six decimal places: one whole unit is [`SCALE`] minimal
//! units. Both conversions round toward zero, which favours the fund by less
//! than one minimal unit per conversion.

use crate::errors::{CustomError, FundError};
use vstd::prelude::*;

verus! {

/// The number of minimal units in one whole unit.
pub const SCALE: u64 = 1_000_000;

/// `floor(a * SCALE / b)`, where that is defined and `a * SCALE` fits in 64 bits.
pub open spec fn divide_spec(a: u64, b: u64) -> Option<u64> {
    if b == 0 || a * SCALE > u64::MAX {
        None
    } else {
        Some(((a * SCALE) / (b as int)) as u64)
    }
}

/// `floor(a * b / SCALE)`, where `a * b` fits in 64 bits.
pub open spec fn multiply_spec(a: u64, b: u64) -> Option<u64> {
    if a * b > u64::MAX {
        None
    } else {
        Some(((a * b) / (SCALE as int)) as u64)
    }
}

/// Divides one fixed-point amount by another: the quotient of `a` scaled up
/// by [`SCALE`] and `b`, rounded toward zero.
///
/// Fails with `ArithmeticError` exactly when `b` is zero or `a * SCALE` does
/// not fit in 64 bits.
pub fn fixed_point_divide_checked(a: u64, b: u64) -> (r: Result<u64, FundError>)
    ensures
        match divide_spec(a, b) {
            Some(q) => r == Ok::<u64, FundError>(q),
            None => r == Err::<u64, FundError>(FundError::Custom(CustomError::ArithmeticError)),
        },
        r is Err <==> (b == 0 || a * SCALE > u64::MAX),
        r matches Ok(q) ==> q == (a * SCALE) / (b as int),
{
    if b == 0 {
        return Err(FundError::Custom(CustomError::ArithmeticError));
    }
    match a.checked_mul(SCALE) {
        None => Err(FundError::Custom(CustomError::ArithmeticError)),
        Some(scaled_a) => {
            proof {
                lemma_quotient_bounds(scaled_a as int, b as int);
            }
            Ok(scaled_a / b)
        },
    }
}

/// Multiplies two fixed-point amounts: the product of `a` and `b` scaled down
/// by [`SCALE`], rounded toward zero.
///
/// Fails with `ArithmeticError` exactly when `a * b` does not fit in 64 bits.
pub fn fixed_point_multiply_checked(a: u64, b: u64) -> (r: Result<u64, FundError>)
    ensures
        match multiply_spec(a, b) {
            Some(p) => r == Ok::<u64, FundError>(p),
            None => r == Err::<u64, FundError>(FundError::Custom(CustomError::ArithmeticError)),
        },
        r is Err <==> a * b > u64::MAX,
        r matches Ok(p) ==> p == (a * b) / (SCALE as int),
{
    match a.checked_mul(b) {
        None => Err(FundError::Custom(CustomError::ArithmeticError)),
        Some(product) => {
            proof {
                lemma_quotient_bounds(product as int, SCALE as int);
            }
            Ok(product / SCALE)
        },
    }
}

/// A quotient of a natural number by a positive one lies between zero and
/// the dividend, and misses it by less than the divisor once multiplied back.
pub proof fn lemma_quotient_bounds(n: int, d: int)
    requires
        0 <= n,
        0 < d,
    ensures
        0 <= n / d <= n,
        (n / d) * d <= n < (n / d) * d + d,
{
    vstd::arithmetic::div_mod::lemma_fundamental_div_mod(n, d);
    vstd::arithmetic::div_mod::lemma_mod_bound(n, d);
    vstd::arithmetic::div_mod::lemma_div_pos_is_pos(n, d);
    assert((n / d) * d == d * (n / d)) by (nonlinear_arith);
    assert(n / d <= n) by (nonlinear_arith)
        requires
            0 <= n / d,
            0 < d,
            (n / d) * d <= n,
    ;
}

/// Converting fiat to shares and back never pays out more than was paid in.
///
/// For every `a` and every nonzero `b` for which the division succeeds, the
/// multiplication of the quotient with `b` succeeds too, its result is at
/// most `a`, and it falls short of `a` by less than `b / SCALE + 1`.
pub proof fn lemma_divide_then_multiply(a: u64, b: u64)
    requires
        b > 0,
        a * SCALE <= u64::MAX,
    ensures
        divide_spec(a, b) is Some,
        multiply_spec(divide_spec(a, b).unwrap(), b) is Some,
        multiply_spec(divide_spec(a, b).unwrap(), b).unwrap() <= a,
        (a - multiply_spec(divide_spec(a, b).unwrap(), b).unwrap()) * SCALE < b + SCALE,
{
    let s = SCALE as int;
    let n = a * s;
    lemma_quotient_bounds(n, b as int);
    let q = n / (b as int);
    assert(divide_spec(a, b) == Some(q as u64));
    let m = q * b;
    assert(0 <= m) by (nonlinear_arith)
        requires
            0 <= q,
            0 < b,
            m == q * b,
    ;
    assert(m <= n && n < m + b);
    lemma_quotient_bounds(m, s);
    let p = m / s;
    assert(multiply_spec(q as u64, b) == Some(p as u64));
    assert(p <= a) by (nonlinear_arith)
        requires
            p * s <= m,
            m <= a * s,
            s == 1_000_000,
    ;
    assert((a - p) * s < b + s) by (nonlinear_arith)
        requires
            m < p * s + s,
            a * s < m + b,
            s == 1_000_000,
    ;
}

/// The two conversions report `ArithmeticError` on overflow and on nothing
/// else but a zero divisor.
pub proof fn lemma_overflow_exactly(a: u64, b: u64)
    ensures
        divide_spec(a, b) is None <==> (b == 0 || a * SCALE > u64::MAX),
        multiply_spec(a, b) is None <==> a * b > u64::MAX,
{
}

} // verus!
