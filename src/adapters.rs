//! The arithmetic behind the runtime adapters that generated code calls.
//!
//! The adapters themselves unwrap the host's integer objects and wrap the
//! results again; what they compute on the unwrapped values is stated here.
use vstd::prelude::*;

verus! {

/// `a + b`, or `None` when the sum does not fit in an `i64`.
pub fn add_longs(a: i64, b: i64) -> (r: Option<i64>)
    ensures
        r is None <==> !(i64::MIN <= a + b <= i64::MAX),
        r matches Some(c) ==> c == a + b,
{
    a.checked_add(b)
}

/// `a - b`, or `None` when the difference does not fit in an `i64`.
pub fn sub_longs(a: i64, b: i64) -> (r: Option<i64>)
    ensures
        r is None <==> !(i64::MIN <= a - b <= i64::MAX),
        r matches Some(c) ==> c == a - b,
{
    a.checked_sub(b)
}

/// `1` when `lhs < rhs`, else `0`: the flag the host turns into a boolean.
pub fn less_than_flag(lhs: i64, rhs: i64) -> (r: i64)
    ensures
        r == if lhs < rhs {
            1i64
        } else {
            0i64
        },
{
    if lhs < rhs {
        1
    } else {
        0
    }
}

/// The truth flag that generated code compares with zero: `1` exactly when
/// the host's truth test answered `1`.
pub fn truth_flag(answer: i32) -> (r: i64)
    ensures
        r == if answer == 1 {
            1i64
        } else {
            0i64
        },
{
    if answer == 1 {
        1
    } else {
        0
    }
}

} // verus!
