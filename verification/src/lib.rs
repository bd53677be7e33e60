//! Addition and multiplication of unsigned 64-bit integers.
//!
//! Both operations are total: a result that does not fit in 64 bits wraps
//! around, that is, it is reduced modulo 2^64. The contracts state the results
//! over unbounded integers, and the `laws` module proves the algebraic
//! properties that callers may rely on.

use vstd::prelude::*;

pub mod laws;

verus! {

/// The number of values a `u64` can take, 2^64: results are reduced modulo it.
pub open spec fn modulus() -> int {
    0x1_0000_0000_0000_0000
}

/// The sum of `left` and `right` as integers, reduced modulo 2^64.
pub open spec fn wrapped_sum(left: u64, right: u64) -> int {
    (left + right) % modulus()
}

/// The product of `left` and `right` as integers, reduced modulo 2^64.
pub open spec fn wrapped_product(left: u64, right: u64) -> int {
    (left * right) % modulus()
}

/// Multiplies two numbers, wrapping around at 2^64.
pub fn mult_numbers(left: u64, right: u64) -> (product: u64)
    ensures
        product == wrapped_product(left, right),
{
    left.wrapping_mul(right)
}

/// Adds two numbers, wrapping around at 2^64.
pub fn add_numbers(left: u64, right: u64) -> (sum: u64)
    ensures
        sum == wrapped_sum(left, right),
{
    left.wrapping_add(right)
}

} // verus!
