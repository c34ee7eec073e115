//! The WebAssembly guest modules: what each exported function computes,
//! apart from the calls into its host.

pub mod arith;
pub mod vanilla;
pub mod string;
pub mod extism;
pub mod pack;
pub mod making;
