# omnicompute

OmniCompute virtualizes heterogeneous accelerators behind a CUDA-compatible
interface: a shim answers CUDA calls, a JIT lifts captured PTX into the
`omni.tensor` dialect, optimizes it and generates code for the real hardware,
a unified allocator and a sliding pager manage device memory, and a P2P layer
splits work between the local machine and remote workers.

## Layout

- `src/` — the verified library (Verus):
  - `allocator.rs` — the unified virtual address space allocator and its laws;
  - `pager.rs` — the sliding window's page commands and their effect;
  - `dialect.rs`, `strmap.rs`, `text.rs` — tensor types, operations, modules,
    the PTX lifter, and the text helpers they print with;
  - `passes.rs` — constant folding plans, operator fusion, loop tiling, dead
    code elimination;
  - `codegen.rs` — lowering to Vulkan GLSL compute shaders;
  - `jit.rs` — the compilation pipeline and its kernel cache (`dashmap`);
  - `hardware.rs` — backends, operating systems and the probe's priority order;
  - `router.rs` — blind splitting of modules between local and remote;
  - `tee.rs` — attestation reports and AES-256-GCM device data (`aes-gcm`,
    `rand`);
  - `obfuscator.rs` — control-flow flattening of kernel source;
  - `shim.rs` — virtual devices, device attributes and properties, CUDA error
    codes, streams, modules and interception statistics;
  - `cli.rs` — the tool's subcommands.
- `tests/` — tests of the library.
- `app/` — the `omnicompute` binary: argument parsing, console output,
  process launching, the paging worker thread, floating-point figures and
  arithmetic (hardware estimates, constant folding values, tensor
  obfuscation, worker scoring), the P2P node and wire format, and the C ABI of
  the CUDA shim.
