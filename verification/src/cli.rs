//! The subcommands of the `omnicompute` command-line tool.
use vstd::prelude::*;

verus! {

/// The subcommands of the `omnicompute` tool.
#[derive(Debug)]
pub enum CliCommands {
    /// Launch the virtualization runtime and run a program under it.
    Run {
        /// The executable to wrap (e.g. `python`).
        executable: String,
        /// Arguments passed to the program.
        args: Vec<String>,
    },
    /// Benchmark the local hardware, memory bandwidth and JIT latency.
    Benchmark,
    /// Join the P2P network to contribute idle accelerators.
    WorkerJoin {
        /// Address the P2P transport listens on.
        bind: String,
        /// VRAM offered to the network, in GB.
        vram_limit_gb: u64,
    },
    /// Query the network topology and scheduling statistics.
    Status,
}

/// The bytes of VRAM a worker offers for a limit in GB.
pub fn vram_limit_bytes(vram_limit_gb: u64) -> (r: u64)
    requires
        vram_limit_gb * 1024 * 1024 * 1024 <= u64::MAX,
    ensures
        r == vram_limit_gb * 1024 * 1024 * 1024,
{
    vram_limit_gb * 1024 * 1024 * 1024
}

} // verus!
