//! OmniCompute core logic: the unified virtual address space allocator, the
//! sliding pager's decisions, the `omni.tensor` dialect, its passes, GLSL code
//! generation and the JIT pipeline with its kernel cache, hardware selection,
//! blind splitting for the P2P network, the zero-trust crypto helpers and the
//! CUDA shim's bookkeeping.
use vstd::prelude::*;

pub mod allocator;
pub mod pager;
pub mod text;
pub mod strmap;
pub mod dialect;
pub mod hardware;
pub mod passes;
pub mod tee;
pub mod obfuscator;
pub mod shim;
pub mod codegen;
pub mod jit;
pub mod router;
pub mod cli;

verus! {

/// Returns the library's version string.
pub fn version() -> (v: &'static str)
    ensures
        v@ == "0.1.0"@,
{
    "0.1.0"
}

} // verus!
