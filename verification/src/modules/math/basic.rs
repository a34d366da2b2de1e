use vstd::prelude::*;

use crate::error::ContractError;

verus! {

/// The value of `a / b` as Rust computes it on integers: the quotient
/// rounded toward zero.
pub open spec fn trunc_div(a: int, b: int) -> int
    recommends
        b != 0,
{
    if a >= 0 && b > 0 {
        a / b
    } else if a < 0 && b < 0 {
        (-a) / (-b)
    } else if a < 0 {
        -((-a) / b)
    } else {
        -(a / (-b))
    }
}

/// Whether `x` fits in an `i128`.
pub open spec fn in_i128(x: int) -> bool {
    i128::MIN <= x <= i128::MAX
}

/// The outcome of a checked addition.
pub open spec fn add_outcome(a: int, b: int) -> Result<i128, ContractError> {
    if in_i128(a + b) {
        Ok((a + b) as i128)
    } else {
        Err(ContractError::Overflow)
    }
}

/// The outcome of a checked subtraction.
pub open spec fn sub_outcome(a: int, b: int) -> Result<i128, ContractError> {
    if in_i128(a - b) {
        Ok((a - b) as i128)
    } else {
        Err(ContractError::Underflow)
    }
}

/// The outcome of a checked multiplication.
pub open spec fn mul_outcome(a: int, b: int) -> Result<i128, ContractError> {
    if in_i128(a * b) {
        Ok((a * b) as i128)
    } else {
        Err(ContractError::Overflow)
    }
}

/// The outcome of a checked division: a zero divisor is refused, and the
/// one quotient that leaves the range (`i128::MIN / -1`) overflows.
pub open spec fn div_outcome(a: int, b: int) -> Result<i128, ContractError> {
    if b == 0 {
        Err(ContractError::DivisionError)
    } else if in_i128(trunc_div(a, b)) {
        Ok(trunc_div(a, b) as i128)
    } else {
        Err(ContractError::Overflow)
    }
}

/// Namespace for the checked arithmetic on token amounts.
pub struct BasicMath;

/// Arithmetic on `i128` amounts that reports overflow instead of wrapping.
pub trait BasicArithmetic {
    fn safe_add(a: i128, b: i128) -> (r: Result<i128, ContractError>)
        ensures
            r == add_outcome(a as int, b as int),
    ;

    fn safe_sub(a: i128, b: i128) -> (r: Result<i128, ContractError>)
        ensures
            r == sub_outcome(a as int, b as int),
    ;

    fn safe_mul(a: i128, b: i128) -> (r: Result<i128, ContractError>)
        ensures
            r == mul_outcome(a as int, b as int),
    ;

    fn safe_div(a: i128, b: i128) -> (r: Result<i128, ContractError>)
        ensures
            r == div_outcome(a as int, b as int),
    ;
}

impl BasicArithmetic for BasicMath {
    fn safe_add(a: i128, b: i128) -> (r: Result<i128, ContractError>) {
        match a.checked_add(b) {
            Some(v) => Ok(v),
            None => Err(ContractError::Overflow),
        }
    }

    fn safe_sub(a: i128, b: i128) -> (r: Result<i128, ContractError>) {
        match a.checked_sub(b) {
            Some(v) => Ok(v),
            None => Err(ContractError::Underflow),
        }
    }

    fn safe_mul(a: i128, b: i128) -> (r: Result<i128, ContractError>) {
        match a.checked_mul(b) {
            Some(v) => Ok(v),
            None => Err(ContractError::Overflow),
        }
    }

    fn safe_div(a: i128, b: i128) -> (r: Result<i128, ContractError>) {
        if b == 0 {
            return Err(ContractError::DivisionError);
        }
        match a.checked_div(b) {
            Some(v) => Ok(v),
            None => Err(ContractError::Overflow),
        }
    }
}

} // verus!
