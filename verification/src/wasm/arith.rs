//! 32-bit two's-complement arithmetic, as WebAssembly's `i32.add` does it.

use vstd::prelude::*;

verus! {

/// The 32-bit two's-complement value congruent to `x` modulo 2^32.
pub open spec fn wrap_i32(x: int) -> int {
    let m = x % 0x1_0000_0000;
    if m >= 0x8000_0000 {
        m - 0x1_0000_0000
    } else {
        m
    }
}

/// Wrapping keeps a value that fits in 32 bits, and otherwise gives the one
/// 32-bit value that differs from it by a multiple of 2^32.
pub proof fn law_wrap_i32(x: int)
    ensures
        i32::MIN <= wrap_i32(x) <= i32::MAX,
        (x - wrap_i32(x)) % 0x1_0000_0000 == 0,
        i32::MIN <= x <= i32::MAX ==> wrap_i32(x) == x,
{
}

/// `a + b` wrapped to 32 bits, as `i32::wrapping_add` computes it.
pub fn add_wrapping(a: i32, b: i32) -> (r: i32)
    ensures
        r == wrap_i32(a + b),
{
    let r = a.wrapping_add(b);
    assert(r == wrap_i32(a + b)) by (nonlinear_arith)
        requires
            r == vstd::wrapping::i32_specs::wrapping_add(a, b),
            -0x8000_0000 <= a < 0x8000_0000,
            -0x8000_0000 <= b < 0x8000_0000,
    ;
    r
}

} // verus!
