//! Checked signed 64-bit arithmetic, provided by the `proven` crate.
//!
//! Every operation of the evaluator goes through one of the five wrappers
//! below; each wrapper states exactly on which inputs `proven::SafeMath`
//! succeeds and which error it reports otherwise.

use vstd::prelude::*;

verus! {

/// The two protections checked arithmetic can trigger.
#[derive(Clone, Copy, Debug, PartialEq, Eq, Structural)]
pub enum ArithmeticError {
    /// The mathematical result does not fit in a signed 64-bit integer.
    Overflow,
    /// The divisor of a division or modulo was zero.
    DivisionByZero,
}

/// Rust's `/` on signed integers: division truncated towards zero.
pub open spec fn div_trunc(x: int, d: int) -> int
    recommends
        d != 0,
{
    if x == 0 {
        0
    } else if x > 0 && d > 0 {
        x / d
    } else if x < 0 && d < 0 {
        (x * -1) / (d * -1)
    } else if x < 0 {
        ((x * -1) / d) * -1
    } else {
        (x / (d * -1)) * -1
    }
}

/// Rust's `%` on signed integers: remainder of division truncated towards
/// zero, taking the sign of the dividend.
pub open spec fn rem_trunc(x: int, d: int) -> int
    recommends
        d != 0,
{
    if x == 0 {
        0
    } else if x > 0 && d > 0 {
        x % d
    } else if x < 0 && d < 0 {
        ((x * -1) % (d * -1)) * -1
    } else if x < 0 {
        ((x * -1) % d) * -1
    } else {
        x % (d * -1)
    }
}

/// What checked addition returns on the given operands.
pub open spec fn checked_add_spec(a: i64, b: i64) -> Result<i64, ArithmeticError> {
    if i64::MIN <= a + b <= i64::MAX {
        Ok((a + b) as i64)
    } else {
        Err(ArithmeticError::Overflow)
    }
}

/// What checked subtraction returns on the given operands.
pub open spec fn checked_sub_spec(a: i64, b: i64) -> Result<i64, ArithmeticError> {
    if i64::MIN <= a - b <= i64::MAX {
        Ok((a - b) as i64)
    } else {
        Err(ArithmeticError::Overflow)
    }
}

/// What checked multiplication returns on the given operands.
pub open spec fn checked_mul_spec(a: i64, b: i64) -> Result<i64, ArithmeticError> {
    if i64::MIN <= a * b <= i64::MAX {
        Ok((a * b) as i64)
    } else {
        Err(ArithmeticError::Overflow)
    }
}

/// What checked division returns on the given operands.
pub open spec fn checked_div_spec(a: i64, b: i64) -> Result<i64, ArithmeticError> {
    if b == 0 {
        Err(ArithmeticError::DivisionByZero)
    } else if a == i64::MIN && b == -1 {
        Err(ArithmeticError::Overflow)
    } else {
        Ok(div_trunc(a as int, b as int) as i64)
    }
}

/// What checked modulo returns on the given operands.
pub open spec fn checked_mod_spec(a: i64, b: i64) -> Result<i64, ArithmeticError> {
    if b == 0 {
        Err(ArithmeticError::DivisionByZero)
    } else if a == i64::MIN && b == -1 {
        Err(ArithmeticError::Overflow)
    } else {
        Ok(rem_trunc(a as int, b as int) as i64)
    }
}

/// Relies on `proven::SafeMath::add`: `Ok(a + b)` exactly when the sum fits
/// in an `i64`, and an overflow error otherwise.
#[verifier::external_body]
pub fn math_add(a: i64, b: i64) -> (r: Result<i64, ArithmeticError>)
    ensures
        r == checked_add_spec(a, b),
{
    match proven::SafeMath::add(a, b) {
        Ok(v) => Ok(v),
        Err(_) => Err(ArithmeticError::Overflow),
    }
}

/// Relies on `proven::SafeMath::sub`: `Ok(a - b)` exactly when the
/// difference fits in an `i64`, and an overflow error otherwise.
#[verifier::external_body]
pub fn math_sub(a: i64, b: i64) -> (r: Result<i64, ArithmeticError>)
    ensures
        r == checked_sub_spec(a, b),
{
    match proven::SafeMath::sub(a, b) {
        Ok(v) => Ok(v),
        Err(_) => Err(ArithmeticError::Overflow),
    }
}

/// Relies on `proven::SafeMath::mul`: `Ok(a * b)` exactly when the product
/// fits in an `i64`, and an overflow error otherwise.
#[verifier::external_body]
pub fn math_mul(a: i64, b: i64) -> (r: Result<i64, ArithmeticError>)
    ensures
        r == checked_mul_spec(a, b),
{
    match proven::SafeMath::mul(a, b) {
        Ok(v) => Ok(v),
        Err(_) => Err(ArithmeticError::Overflow),
    }
}

/// Relies on `proven::SafeMath::div`: a zero divisor is reported as
/// division by zero, `i64::MIN / -1` as overflow, and any other pair
/// divides truncated towards zero.
#[verifier::external_body]
pub fn math_div(a: i64, b: i64) -> (r: Result<i64, ArithmeticError>)
    ensures
        r == checked_div_spec(a, b),
{
    match proven::SafeMath::div(a, b) {
        Ok(v) => Ok(v),
        Err(proven::Error::DivisionByZero) => Err(ArithmeticError::DivisionByZero),
        Err(_) => Err(ArithmeticError::Overflow),
    }
}

/// Relies on `proven::SafeMath::modulo`: a zero divisor is reported as
/// division by zero, and any other pair yields the remainder of truncated
/// division. `proven` computes the remainder with Rust's `%`, which panics
/// on `i64::MIN % -1`, so that pair is excluded here and handled by the
/// caller.
#[verifier::external_body]
pub fn math_mod(a: i64, b: i64) -> (r: Result<i64, ArithmeticError>)
    requires
        !(a == i64::MIN && b == -1),
    ensures
        r == checked_mod_spec(a, b),
{
    match proven::SafeMath::modulo(a, b) {
        Ok(v) => Ok(v),
        Err(proven::Error::DivisionByZero) => Err(ArithmeticError::DivisionByZero),
        Err(_) => Err(ArithmeticError::Overflow),
    }
}

} // verus!
