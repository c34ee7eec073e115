//! The string-passing guest module: the texts it hands to its host, a
//! byte buffer that the host reads and writes through, and the layout
//! checks of its allocation exports.

use vstd::prelude::*;
use crate::text::{i64_to_string, signed_decimal};
use vstd::utf8::{decode_utf8, valid_utf8};

verus! {

/// `run`: the text handed to the host's `console_log`,
/// `hello wasm <src>`.
pub fn run(src: i32) -> (s: String)
    ensures
        s@ == "hello wasm "@ + signed_decimal(src as int),
{
    let mut s = String::from_str("hello wasm ");
    let n = i64_to_string(src as i64);
    s.append(n.as_str());
    s
}

/// `print`: the line printed for the UTF-8 text the host placed in
/// memory, `Hello, <text>`.  The export reads the bytes as text unchecked,
/// so they must be valid UTF-8.
pub fn print(bytes: &[u8]) -> (s: String)
    requires
        valid_utf8(bytes@),
    ensures
        s@ == "Hello, "@ + decode_utf8(bytes@),
{
    let mut s = String::from_str("Hello, ");
    match utf8_text(bytes) {
        Some(text) => s.append(text),
        None => {},
    }
    s
}

/// `std::str::from_utf8`: the text that the bytes encode, when they are
/// valid UTF-8.
#[verifier::external_body]
pub(crate) fn utf8_text(bytes: &[u8]) -> (text: Option<&str>)
    ensures
        text is Some <==> valid_utf8(bytes@),
        text matches Some(t) ==> t@ == decode_utf8(bytes@),
{
    std::str::from_utf8(bytes).ok()
}

/// The guest's shared byte buffer.
#[derive(Debug, Clone, PartialEq)]
pub struct LinearMemory {
    pub bytes: Vec<u8>,
}

/// The buffer after a resize to `size`: cut to `size` bytes, or extended
/// with zero bytes to `size`.
pub open spec fn resized(bytes: Seq<u8>, size: nat) -> Seq<u8> {
    if size <= bytes.len() {
        bytes.subrange(0, size as int)
    } else {
        bytes + Seq::new((size - bytes.len()) as nat, |i: int| 0u8)
    }
}

impl LinearMemory {
    /// An empty buffer.
    pub fn new() -> (m: LinearMemory)
        ensures
            m.bytes@ == Seq::<u8>::empty(),
    {
        LinearMemory { bytes: Vec::new() }
    }

    /// `resize`: sets the buffer's length, keeping its first bytes and
    /// filling new ones with zero.
    pub fn resize(&mut self, size: usize)
        ensures
            final(self).bytes@ == resized(old(self).bytes@, size as nat),
    {
        let ghost before = self.bytes@;
        if size <= self.bytes.len() {
            self.bytes.truncate(size);
        } else {
            while self.bytes.len() < size
                invariant
                    before.len() <= self.bytes@.len() <= size,
                    self.bytes@.subrange(0, before.len() as int) == before,
                    forall|i: int| before.len() <= i < self.bytes@.len() ==> self.bytes@[i] == 0u8,
                decreases size - self.bytes.len(),
            {
                self.bytes.push(0u8);
            }
            assert(self.bytes@ =~= resized(before, size as nat));
        }
    }

    /// `get_ptr`: the buffer's contents, which the host reads and writes.
    pub fn get_ptr(&self) -> (data: &[u8])
        ensures
            data@ == self.bytes@,
    {
        self.bytes.as_slice()
    }

    /// `get_size`: the buffer's length as a 32-bit integer, cut to 32 bits
    /// as `as i32` does.
    pub fn get_size(&self) -> (n: i32)
        ensures
            self.bytes@.len() <= i32::MAX ==> n == self.bytes@.len(),
            n == self.bytes@.len() as i32,
    {
        self.bytes.len() as i32
    }
}

/// What a resize writes, a size read gives back: after `resize(n)` the
/// buffer holds `n` bytes, and its first bytes are those it had.
pub proof fn law_resize_then_size(bytes: Seq<u8>, n: nat)
    ensures
        resized(bytes, n).len() == n,
        forall|i: int| 0 <= i < n && i < bytes.len() ==> #[trigger] resized(bytes, n)[i] == bytes[i],
        forall|i: int| bytes.len() <= i < n ==> #[trigger] resized(bytes, n)[i] == 0u8,
{
}

/// Resizing to the current length changes nothing, and resizing twice is
/// resizing once to the second size when the first did not cut the buffer
/// below it.
pub proof fn law_resize_idempotent(bytes: Seq<u8>, m: nat, n: nat)
    requires
        n <= m || bytes.len() <= m,
    ensures
        resized(bytes, bytes.len()) == bytes,
        resized(resized(bytes, m), n) == resized(bytes, n),
{
    assert(resized(bytes, bytes.len()) =~= bytes);
    assert(resized(resized(bytes, m), n) =~= resized(bytes, n));
}

/// `n` is a power of two.
pub open spec fn is_power_of_two(n: nat) -> bool
    decreases n,
{
    if n == 0 {
        false
    } else if n == 1 {
        true
    } else {
        n % 2 == 0 && is_power_of_two(n / 2)
    }
}

/// The conditions under which `std::alloc::Layout::from_size_align`
/// succeeds, as its documentation gives them: `align` is a power of two
/// (so not zero), and `size` rounded up to a multiple of `align` is at most
/// `isize::MAX`.
pub open spec fn layout_valid(size: usize, align: usize) -> bool {
    &&& is_power_of_two(align as nat)
    &&& (size + align - 1) / (align as int) * (align as int) <= isize::MAX
}

/// Whether `n` is a power of two, halving it while it is even.
fn power_of_two(n: usize) -> (r: bool)
    ensures
        r == is_power_of_two(n as nat),
{
    let mut m: usize = n;
    while m > 1 && m % 2 == 0
        invariant
            is_power_of_two(m as nat) == is_power_of_two(n as nat),
        decreases m,
    {
        m = m / 2;
    }
    m == 1
}

/// The layout check of `std::alloc::Layout::from_size_align`, as its
/// documentation states it.
fn layout_ok(size: usize, align: usize) -> (ok: bool)
    ensures
        ok == layout_valid(size, align),
{
    if !power_of_two(align) {
        return false;
    }
    let a: u128 = align as u128;
    let total: u128 = size as u128 + a - 1;
    let q: u128 = total / a;
    assert(q * a <= total) by (nonlinear_arith)
        requires
            a > 0,
            q == total / a,
    ;
    let rounded: u128 = q * a;
    rounded <= isize::MAX as u128
}

/// Whether `allocate`, `dealloc` and `__wbindgen_realloc` may go on with a
/// layout of `size` bytes aligned to `align`; they panic otherwise.
pub fn layout_allowed(size: usize, align: usize) -> (ok: bool)
    ensures
        ok == layout_valid(size, align),
{
    layout_ok(size, align)
}

/// What `__wbindgen_malloc` does for a request.
#[derive(Debug, Clone, PartialEq)]
pub enum MallocPlan {
    /// Allocate a block of the requested layout.
    Allocate,
    /// Return the alignment itself as a dangling, well-aligned address.
    Dangling(usize),
    /// Panic with `malloc_failure`.
    Fail,
}

/// What `__wbindgen_malloc` does for a request of `size` bytes aligned to
/// `align`.
pub open spec fn malloc_decision(size: usize, align: usize) -> MallocPlan {
    if !layout_valid(size, align) {
        MallocPlan::Fail
    } else if size > 0 {
        MallocPlan::Allocate
    } else {
        MallocPlan::Dangling(align)
    }
}

/// Whether `__wbindgen_free` of a block of `size` bytes releases it.
pub open spec fn releases(size: usize) -> bool {
    size != 0
}

/// `__wbindgen_malloc`: a zero-sized request gets the alignment as address,
/// others a fresh block; a request without a valid layout fails.
pub fn malloc_plan(size: usize, align: usize) -> (plan: MallocPlan)
    ensures
        plan == malloc_decision(size, align),
{
    if layout_ok(size, align) {
        if size > 0 {
            MallocPlan::Allocate
        } else {
            MallocPlan::Dangling(align)
        }
    } else {
        MallocPlan::Fail
    }
}

/// `__wbindgen_free`: whether there is a block to release (zero-sized
/// blocks were never allocated).
pub fn free_needed(size: usize) -> (r: bool)
    ensures
        r == releases(size),
{
    size != 0
}

/// `__wbindgen_malloc` and `__wbindgen_free` pair up: for a request with a
/// valid layout, a block is allocated exactly when freeing that many bytes
/// releases one, so what is allocated is released and a zero-sized request,
/// answered with the alignment as address, is never handed to the system
/// allocator on either side.
pub proof fn law_malloc_free_pair(size: usize, align: usize)
    requires
        layout_valid(size, align),
    ensures
        malloc_decision(size, align) is Allocate <==> releases(size),
        !releases(size) ==> malloc_decision(size, align) == MallocPlan::Dangling(align),
{
}

} // verus!
