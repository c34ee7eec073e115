//! The browser-bound guest module's computing export.

use vstd::prelude::*;
use crate::wasm::arith::{add_wrapping, wrap_i32};

verus! {

/// `add`: `a + b` in 32-bit wrapping arithmetic, as the release build that
/// ships to the browser computes it.
pub fn add(a: i32, b: i32) -> (r: i32)
    ensures
        r == wrap_i32(a + b),
        i32::MIN <= a + b <= i32::MAX ==> r == a + b,
{
    add_wrapping(a, b)
}

} // verus!
