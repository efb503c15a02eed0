//! Algebraic laws of `add` and `multiply`, stated over the spec functions
//! that their contracts use.
//!
//! Each law covers both halves of a contract: when the function may be
//! called, and what it then returns.

use crate::{product, product_fits, sum, sum_fits};
use vstd::prelude::*;

verus! {

/// Addition is commutative: `add` may be called on `(a, b)` exactly when it
/// may be called on `(b, a)`, and it returns the same total for both.
pub proof fn lemma_add_commutative(a: usize, b: usize)
    ensures
        sum_fits(a, b) == sum_fits(b, a),
        sum(a, b) == sum(b, a),
{
}

/// Zero is the identity of addition, on either side: `add` may always be
/// called with a zero argument, and it returns the other argument.
pub proof fn lemma_add_zero(a: usize)
    ensures
        sum_fits(a, 0),
        sum(a, 0) == a,
        sum_fits(0, a),
        sum(0, a) == a,
{
}

/// Multiplication is commutative: `multiply` may be called on `(x, y)`
/// exactly when it may be called on `(y, x)`, and it returns the same
/// product for both.
pub proof fn lemma_multiply_commutative(x: i32, y: i32)
    ensures
        product_fits(x, y) == product_fits(y, x),
        product(x, y) == product(y, x),
{
}

/// One is the identity of multiplication, on either side: `multiply` may
/// always be called with an argument of one, and it returns the other
/// argument.
pub proof fn lemma_multiply_one(x: i32)
    ensures
        product_fits(x, 1),
        product(x, 1) == x,
        product_fits(1, x),
        product(1, x) == x,
{
}

/// Zero annihilates: `multiply` may always be called with a zero argument,
/// and it returns zero.
pub proof fn lemma_multiply_zero(x: i32)
    ensures
        product_fits(x, 0),
        product(x, 0) == 0,
        product_fits(0, x),
        product(0, x) == 0,
{
}

} // verus!
