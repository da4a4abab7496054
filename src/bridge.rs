//! The two operations exported to the host scripting runtime.
//!
//! Both are pure: the result is a function of the arguments alone. Where
//! the exact result does not fit the return type, the call fails with
//! `BridgeError::ArithmeticOverflow` instead of wrapping.

use vstd::prelude::*;
use crate::decimal::{decimal, decimal_string};

verus! {

/// Why a bridge operation failed.
#[derive(Debug, Clone, Copy, PartialEq, Eq, Structural)]
pub enum BridgeError {
    /// The exact result is outside the range of the return type.
    ArithmeticOverflow,
}

/// A string result seen through the view of its text.
pub open spec fn text_result(r: Result<String, BridgeError>) -> Result<Seq<char>, BridgeError> {
    match r {
        Ok(s) => Ok(s@),
        Err(e) => Err(e),
    }
}

/// What `sum_as_string(a, b)` returns: the decimal text of `a + b`, or an
/// overflow error where `a + b` exceeds `u64::MAX`.
pub open spec fn sum_as_string_result(a: u64, b: u64) -> Result<Seq<char>, BridgeError> {
    if a + b <= u64::MAX {
        Ok(decimal((a + b) as nat))
    } else {
        Err(BridgeError::ArithmeticOverflow)
    }
}

/// Formats the sum of two numbers as a decimal string.
pub fn sum_as_string(a: u64, b: u64) -> (r: Result<String, BridgeError>)
    ensures
        text_result(r) == sum_as_string_result(a, b),
{
    match a.checked_add(b) {
        Some(total) => Ok(decimal_string(total)),
        None => Err(BridgeError::ArithmeticOverflow),
    }
}

/// The sum of all elements of `s`, as an unbounded integer.
pub open spec fn sum(s: Seq<i64>) -> int
    decreases s.len(),
{
    if s.len() == 0 {
        0
    } else {
        sum(s.drop_last()) + s.last()
    }
}

/// What `accelerated_computation(data)` returns: twice the sum of `data`,
/// or an overflow error where that value is outside the range of `i64`.
pub open spec fn accelerated_computation_result(data: Seq<i64>) -> Result<i64, BridgeError> {
    let doubled = 2 * sum(data);
    if i64::MIN <= doubled <= i64::MAX {
        Ok(doubled as i64)
    } else {
        Err(BridgeError::ArithmeticOverflow)
    }
}

/// Doubles the sum of `data`.
///
/// The sum is accumulated in `i128`, which holds the sum of any vector of
/// `i64` exactly, so the call fails only when the doubled sum itself does
/// not fit in `i64` (in particular, whenever the sum does not).
pub fn accelerated_computation(data: Vec<i64>) -> (r: Result<i64, BridgeError>)
    ensures
        r == accelerated_computation_result(data@),
{
    let mut total: i128 = 0;
    let mut i: usize = 0;
    while i < data.len()
        invariant
            i <= data@.len(),
            total == sum(data@.take(i as int)),
            -(i as int) * 0x8000_0000_0000_0000 <= total <= (i as int) * 0x7fff_ffff_ffff_ffff,
        decreases data@.len() - i,
    {
        proof {
            assert(data@.take(i as int + 1).drop_last() =~= data@.take(i as int));
        }
        total = total + data[i] as i128;
        i = i + 1;
    }
    proof {
        assert(data@.take(i as int) =~= data@);
    }
    if total < -0x4000_0000_0000_0000 || total > 0x3fff_ffff_ffff_ffff {
        Err(BridgeError::ArithmeticOverflow)
    } else {
        Ok((total * 2) as i64)
    }
}

/// `sum_as_string` is idempotent: any two results of calls with the same
/// arguments hold the same text (or the same error).
pub proof fn lemma_sum_as_string_idempotent(
    a: u64,
    b: u64,
    first: Result<String, BridgeError>,
    second: Result<String, BridgeError>,
)
    requires
        text_result(first) == sum_as_string_result(a, b),
        text_result(second) == sum_as_string_result(a, b),
    ensures
        text_result(first) == text_result(second),
{
}

/// `accelerated_computation` is idempotent: any two results of calls with
/// the same data are equal.
pub proof fn lemma_accelerated_computation_idempotent(
    data: Seq<i64>,
    first: Result<i64, BridgeError>,
    second: Result<i64, BridgeError>,
)
    requires
        first == accelerated_computation_result(data),
        second == accelerated_computation_result(data),
    ensures
        first == second,
{
}

} // verus!
