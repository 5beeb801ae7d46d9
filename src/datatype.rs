//! Primitive types: integer arithmetic and checked array access.
use vstd::prelude::*;

verus! {

/// The results of the basic integer operators on fixed operands.
#[derive(Clone, Copy, Debug, PartialEq, Eq, Structural)]
pub struct Arithmetic {
    /// `5 + 10`
    pub sum: i32,
    /// `4 * 30`
    pub product: i32,
    /// `-5 / 3`, which truncates toward zero
    pub truncated: i32,
    /// `43 % 5`
    pub remainder: i32,
}

/// Evaluates the integer operators of the primitive-type tour. Division
/// truncates toward zero, so `-5 / 3` is `-1`.
pub fn datatype() -> (r: Arithmetic)
    ensures
        r.sum == 15,
        r.product == 120,
        r.truncated == -1,
        r.remainder == 3,
{
    let sum: i32 = 5 + 10;
    let product: i32 = 4 * 30;
    let minus_five: i32 = -5;
    let truncated: i32 = minus_five / 3;
    let remainder: i32 = 43 % 5;
    Arithmetic { sum, product, truncated, remainder }
}

/// The element of `a` at `index`, or `None` when `index` is past the end.
pub fn element_at(a: &[i32], index: usize) -> (r: Option<i32>)
    ensures
        index < a@.len() ==> r == Some(a@[index as int]),
        index >= a@.len() ==> r is None,
{
    if index < a.len() {
        Some(a[index])
    } else {
        None
    }
}

} // verus!
