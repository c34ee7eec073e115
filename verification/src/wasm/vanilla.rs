//! The plain guest module: a call counter and an addition that the host
//! finishes.

use vstd::prelude::*;
use crate::wasm::arith::{add_wrapping, wrap_i32};

verus! {

/// The guest's global call counter.
#[derive(Debug, Clone, PartialEq)]
pub struct Counter {
    pub count: usize,
}

/// The value `add` hands to the host for a counter of `count`.
pub open spec fn add_value(count: usize, left: i32, right: i32) -> int {
    wrap_i32(wrap_i32(left + right) + (count as i32))
}

impl Counter {
    /// The counter at start.
    pub fn new() -> (c: Counter)
        ensures
            c.count == 0,
    {
        Counter { count: 0 }
    }

    /// `run`: counts the call, wrapping at the word size as an atomic
    /// `fetch_add` does; the caller then calls the host's `hello`.
    pub fn run(&mut self)
        ensures
            final(self).count == (if old(self).count == usize::MAX {
                0
            } else {
                old(self).count + 1
            }),
    {
        if self.count == usize::MAX {
            self.count = 0;
        } else {
            self.count = self.count + 1;
        }
    }

    /// `add`: the value handed to the host's `add_one`, which gives the
    /// export's result: `left + right + count`, in 32-bit wrapping
    /// arithmetic, the count cut to 32 bits.
    pub fn add(&self, left: i32, right: i32) -> (r: i32)
        ensures
            r == add_value(self.count, left, right),
    {
        let c = self.count as i32;
        add_wrapping(add_wrapping(left, right), c)
    }
}

/// Each `run` raises what the next `add` hands to the host by one, as long
/// as the count fits in 32 bits: after `k` runs from the start, `add(l, r)`
/// hands over `l + r + k`.
pub proof fn law_run_raises_add(count: usize, left: i32, right: i32)
    requires
        count < i32::MAX,
    ensures
        add_value((count + 1) as usize, left, right) == wrap_i32(add_value(count, left, right) + 1),
        add_value(0, left, right) == wrap_i32(left + right),
{
    let w = wrap_i32(left + right);
    assert(-0x8000_0000 <= w < 0x8000_0000);
    assert((count as i32) == count);
    assert(((count + 1) as usize as i32) == count + 1);
    assert(wrap_i32(w + count + 1) == wrap_i32(wrap_i32(w + count) + 1)) by (nonlinear_arith)
        requires
            -0x8000_0000 <= w < 0x8000_0000,
            0 <= count < 0x7fff_ffff,
    ;
    assert(wrap_i32(w + 0) == w) by (nonlinear_arith)
        requires
            -0x8000_0000 <= w < 0x8000_0000,
    ;
}

} // verus!
