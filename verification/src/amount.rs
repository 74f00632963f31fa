//! Arithmetic on amounts. An amount is a 128-bit unsigned integer; an operation whose
//! result does not fit is refused, never wrapped.
use vstd::prelude::*;
use crate::error_conversion::{ContractError, ContractErrorView};

verus! {

/// `a + b`, refused where it exceeds 128 bits.
pub open spec fn plus_spec(a: u128, b: u128) -> Result<u128, ContractErrorView> {
    if a + b <= u128::MAX {
        Ok((a + b) as u128)
    } else {
        Err(ContractErrorView::Overflow)
    }
}

/// `a - b`, refused where `b` exceeds `a`.
pub open spec fn minus_spec(a: u128, b: u128) -> Result<u128, ContractErrorView> {
    if b <= a {
        Ok((a - b) as u128)
    } else {
        Err(ContractErrorView::Overflow)
    }
}

/// `a * b`, refused where it exceeds 128 bits.
pub open spec fn times_spec(a: u128, b: u128) -> Result<u128, ContractErrorView> {
    if a * b <= u128::MAX {
        Ok((a * b) as u128)
    } else {
        Err(ContractErrorView::Overflow)
    }
}

/// `floor(a * b / c)`: the product is formed first and refused where it exceeds 128 bits;
/// then the division is refused where `c` is zero.
pub open spec fn mul_div_spec(a: u128, b: u128, c: u128) -> Result<u128, ContractErrorView> {
    if a * b > u128::MAX {
        Err(ContractErrorView::Overflow)
    } else if c == 0 {
        Err(ContractErrorView::DivideByZero)
    } else {
        Ok(((a * b) / (c as int)) as u128)
    }
}

/// Whether the outcome `r` of a computation is the outcome `want` that its contract names.
pub open spec fn is_outcome<T>(r: Result<T, ContractError>, want: Result<T, ContractErrorView>) -> bool {
    match want {
        Ok(v) => r == Ok::<T, ContractError>(v),
        Err(e) => r is Err && r->Err_0@ == e,
    }
}

/// `a + b`.
pub fn plus(a: u128, b: u128) -> (r: Result<u128, ContractError>)
    ensures
        is_outcome(r, plus_spec(a, b)),
{
    match a.checked_add(b) {
        Some(v) => Ok(v),
        None => Err(ContractError::Overflow),
    }
}

/// `a - b`.
pub fn minus(a: u128, b: u128) -> (r: Result<u128, ContractError>)
    ensures
        is_outcome(r, minus_spec(a, b)),
{
    match a.checked_sub(b) {
        Some(v) => Ok(v),
        None => Err(ContractError::Overflow),
    }
}

/// `a * b`.
pub fn times(a: u128, b: u128) -> (r: Result<u128, ContractError>)
    ensures
        is_outcome(r, times_spec(a, b)),
{
    match a.checked_mul(b) {
        Some(v) => Ok(v),
        None => Err(ContractError::Overflow),
    }
}

/// `floor(a * b / c)`.
pub fn mul_div(a: u128, b: u128, c: u128) -> (r: Result<u128, ContractError>)
    ensures
        is_outcome(r, mul_div_spec(a, b, c)),
{
    match a.checked_mul(b) {
        Some(v) => {
            if c == 0 {
                Err(ContractError::DivideByZero)
            } else {
                Ok(v / c)
            }
        },
        None => Err(ContractError::Overflow),
    }
}

} // verus!
