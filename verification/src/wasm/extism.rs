//! The plug-in guest module's computing exports.

use vstd::prelude::*;

verus! {

/// `sum`: `left + right`.  The plug-in is built in the debug profile
/// (`cargo build --target wasm32-unknown-unknown`, with no `--release`),
/// where an overflowing `+` panics; so the sum must fit in 32 bits.
pub fn sum(left: i32, right: i32) -> (r: i32)
    requires
        i32::MIN <= left + right <= i32::MAX,
    ensures
        r == left + right,
{
    left + right
}

/// `process_bytes`: hands the input back unchanged.
pub fn process_bytes(input: Vec<u8>) -> (output: Vec<u8>)
    ensures
        output@ == input@,
{
    input
}

} // verus!
