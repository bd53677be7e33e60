//! Algebraic laws of the wrapping operations, stated over their models.

use vstd::prelude::*;
use crate::{wrapped_product, wrapped_sum};

verus! {

/// Addition is commutative: swapping the operands does not change the sum.
pub proof fn lemma_add_commutative(a: u64, b: u64)
    ensures
        wrapped_sum(a, b) == wrapped_sum(b, a),
{
}

/// Zero is the identity of addition.
pub proof fn lemma_add_zero(a: u64)
    ensures
        wrapped_sum(a, 0) == a,
{
}

/// Multiplication is commutative: swapping the operands does not change the
/// product.
pub proof fn lemma_mult_commutative(a: u64, b: u64)
    ensures
        wrapped_product(a, b) == wrapped_product(b, a),
{
    assert(a * b == b * a) by (nonlinear_arith);
}

/// One is the identity of multiplication.
pub proof fn lemma_mult_one(a: u64)
    ensures
        wrapped_product(a, 1) == a,
{
}

/// Zero absorbs: any number times zero is zero.
pub proof fn lemma_mult_zero(a: u64)
    ensures
        wrapped_product(a, 0) == 0,
{
}

} // verus!
