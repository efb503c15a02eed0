//! Addition and multiplication on machine integers, specified over the
//! mathematical integers.
//!
//! Overflow policy: neither function wraps, saturates or reports an error.
//! Each one requires that the exact result fits in its return type, so a
//! verified caller can never overflow, and each returns exactly that result.
//! A caller that is not verified has to establish the same bound itself
//! before calling, for instance by a range check on its arguments.

use vstd::prelude::*;

pub mod laws;

verus! {

/// The exact sum of two words, as a mathematical integer.
pub open spec fn sum(left: usize, right: usize) -> int {
    left + right
}

/// Whether the exact sum of two words fits in a `usize`.
pub open spec fn sum_fits(left: usize, right: usize) -> bool {
    sum(left, right) <= usize::MAX
}

/// Adds two words.
///
/// The sum must fit in a `usize`; the result is then the exact sum.
pub fn add(left: usize, right: usize) -> (total: usize)
    requires
        sum_fits(left, right),
    ensures
        total == sum(left, right),
{
    left + right
}

/// The exact product of two signed 32-bit integers, as a mathematical integer.
pub open spec fn product(x: i32, y: i32) -> int {
    x * y
}

/// Whether the exact product of two signed 32-bit integers fits in an `i32`.
pub open spec fn product_fits(x: i32, y: i32) -> bool {
    i32::MIN <= product(x, y) <= i32::MAX
}

/// Multiplies two signed 32-bit integers.
///
/// The product must fit in an `i32`; the result is then the exact product.
pub fn multiply(x: i32, y: i32) -> (scaled: i32)
    requires
        product_fits(x, y),
    ensures
        scaled == product(x, y),
{
    x * y
}

} // verus!
