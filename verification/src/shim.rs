//! Bookkeeping of the CUDA masquerade layer: the virtual devices it exposes,
//! the attributes and properties it reports, its error codes and names, the
//! per-stream launch queues, loaded modules, and interception statistics.
use crate::strmap::StrMap;
use crate::text::{decimal, owned, push_decimal, push_str};
use vstd::prelude::*;
use vstd::string::*;
use vstd::utf8::encode_utf8;

verus! {

/// The real hardware behind a virtual device.
#[derive(Debug, Clone, PartialEq, Eq)]
pub enum HardwareBackend {
    NvidiaCuda,
    AmdRocm,
    AppleMetal,
    IntelVulkan,
    GenericVulkan,
    CpuFallback,
    RemoteP2p { node_id: String },
}

/// A virtual CUDA-compatible device.
#[derive(Debug, Clone)]
pub struct VirtualDevice {
    /// CUDA device index.
    pub index: i32,
    /// Human-readable name.
    pub name: String,
    /// Total virtual memory in bytes (24 GB does not fit a 32-bit `usize`,
    /// so the count is kept as a `u64`).
    pub total_memory: u64,
    /// Compute capability, major.
    pub compute_capability_major: i32,
    /// Compute capability, minor.
    pub compute_capability_minor: i32,
    /// Backing hardware.
    pub backend: HardwareBackend,
    /// Warp / wavefront size.
    pub warp_size: i32,
    /// Streaming multiprocessors / compute units.
    pub multiprocessor_count: i32,
    /// Maximum threads per block.
    pub max_threads_per_block: i32,
    /// L2 cache size in bytes.
    pub l2_cache_size: i32,
}

/// The name of the single virtual device.
pub open spec fn virtual_device_name() -> Seq<char> {
    "OmniCompute Virtual GPU 0 (Heterogeneous Backend)"@
}

/// The virtual devices the shim exposes: one Ampere-compatible device with
/// 24 GB of virtual memory on the CPU fallback backend.
pub fn detect_virtual_devices() -> (r: Vec<VirtualDevice>)
    ensures
        r@.len() == 1,
        r@[0].index == 0,
        r@[0].name@ == virtual_device_name(),
        r@[0].total_memory == 24 * 1024 * 1024 * 1024,
        r@[0].compute_capability_major == 8,
        r@[0].compute_capability_minor == 0,
        r@[0].backend == HardwareBackend::CpuFallback,
        r@[0].warp_size == 32,
        r@[0].multiprocessor_count == 108,
        r@[0].max_threads_per_block == 1024,
        r@[0].l2_cache_size == 40 * 1024 * 1024,
{
    let mut name = String::new();
    push_str(&mut name, "OmniCompute Virtual GPU 0 (Heterogeneous Backend)");
    assert(name@ =~= virtual_device_name());
    let mut devices: Vec<VirtualDevice> = Vec::new();
    devices.push(
        VirtualDevice {
            index: 0,
            name,
            total_memory: 24 * 1024 * 1024 * 1024,
            compute_capability_major: 8,
            compute_capability_minor: 0,
            backend: HardwareBackend::CpuFallback,
            warp_size: 32,
            multiprocessor_count: 108,
            max_threads_per_block: 1024,
            l2_cache_size: 40 * 1024 * 1024,
        },
    );
    devices
}

/// The value a device attribute query reports.
pub open spec fn attribute_value(d: VirtualDevice, attrib: i32) -> i32 {
    if attrib == 1 {
        d.max_threads_per_block
    } else if attrib == 4 {
        d.warp_size
    } else if attrib == 14 {
        d.multiprocessor_count
    } else if attrib == 16 {
        d.compute_capability_major
    } else if attrib == 17 {
        d.compute_capability_minor
    } else if attrib == 39 {
        1
    } else if attrib == 75 {
        32
    } else {
        0
    }
}

/// Answers a `CUdevice_attribute` query for a virtual device: max threads per
/// block (1), warp size (4), multiprocessors (14), compute capability (16,
/// 17), unified addressing (39), max blocks per multiprocessor (75); any other
/// attribute reads 0.
pub fn device_attribute(dev: &VirtualDevice, attrib: i32) -> (r: i32)
    ensures
        r == attribute_value(*dev, attrib),
{
    match attrib {
        1 => dev.max_threads_per_block,
        4 => dev.warp_size,
        14 => dev.multiprocessor_count,
        16 => dev.compute_capability_major,
        17 => dev.compute_capability_minor,
        39 => 1,
        75 => 32,
        _ => 0,
    }
}

/// The device properties the runtime reports for a virtual device; every
/// property not listed here reads zero.
#[derive(Debug, Clone)]
pub struct DeviceProperties {
    /// The device name's bytes, cut to at most 255 so that a terminating
    /// zero fits the 256-byte name field.
    pub name: Vec<u8>,
    /// Global memory in bytes.
    pub total_global_mem: u64,
    /// Compute capability, major.
    pub major: i32,
    /// Compute capability, minor.
    pub minor: i32,
    /// Warp size.
    pub warp_size: i32,
    /// Streaming multiprocessors.
    pub multi_processor_count: i32,
    /// Maximum threads per block.
    pub max_threads_per_block: i32,
    /// Maximum block dimensions.
    pub max_threads_dim: [i32; 3],
    /// Maximum grid dimensions.
    pub max_grid_size: [i32; 3],
    /// L2 cache size in bytes.
    pub l2_cache_size: i32,
    /// Shared memory per block in bytes.
    pub shared_mem_per_block: u64,
    /// Registers per block.
    pub regs_per_block: i32,
    /// Clock rate in kHz.
    pub clock_rate: i32,
    /// Memory clock rate in kHz.
    pub memory_clock_rate: i32,
    /// Memory bus width in bits.
    pub memory_bus_width: i32,
    /// Unified addressing flag.
    pub unified_addressing: i32,
    /// Managed memory flag.
    pub managed_memory: i32,
    /// Concurrent kernels flag.
    pub concurrent_kernels: i32,
    /// Cooperative launch flag.
    pub cooperative_launch: i32,
    /// Asynchronous copy engines.
    pub async_engine_count: i32,
    /// Maximum resident blocks per multiprocessor.
    pub max_blocks_per_multi_processor: i32,
    /// Shared memory per multiprocessor in bytes.
    pub shared_mem_per_multiprocessor: u64,
}

/// The properties of a virtual device: its name (at most 255 bytes), memory,
/// compute capability, warp size, multiprocessors, block limit and L2 size,
/// with the fixed limits and clocks of the emulated Ampere-class part.
pub fn device_properties(vdev: &VirtualDevice) -> (p: DeviceProperties)
    ensures
        p.name@ == encode_utf8(vdev.name@).take(min_len(encode_utf8(vdev.name@).len(), 255)),
        p.total_global_mem == vdev.total_memory,
        p.major == vdev.compute_capability_major,
        p.minor == vdev.compute_capability_minor,
        p.warp_size == vdev.warp_size,
        p.multi_processor_count == vdev.multiprocessor_count,
        p.max_threads_per_block == vdev.max_threads_per_block,
        p.max_threads_dim@ == seq![1024i32, 1024i32, 64i32],
        p.max_grid_size@ == seq![2147483647i32, 65535i32, 65535i32],
        p.l2_cache_size == vdev.l2_cache_size,
        p.shared_mem_per_block == 49152,
        p.regs_per_block == 65536,
        p.clock_rate == 1_800_000,
        p.memory_clock_rate == 9_001_000,
        p.memory_bus_width == 5120,
        p.unified_addressing == 1,
        p.managed_memory == 1,
        p.concurrent_kernels == 1,
        p.cooperative_launch == 1,
        p.async_engine_count == 3,
        p.max_blocks_per_multi_processor == 32,
        p.shared_mem_per_multiprocessor == 102400,
{
    let bytes = vdev.name.as_str().as_bytes();
    let copy_len: usize = if bytes.len() < 255 {
        bytes.len()
    } else {
        255
    };
    let mut name: Vec<u8> = Vec::new();
    let mut i: usize = 0;
    while i < copy_len
        invariant
            copy_len <= bytes@.len(),
            i <= copy_len,
            name@ == bytes@.take(i as int),
        decreases copy_len - i,
    {
        name.push(bytes[i]);
        i = i + 1;
    }
    let max_threads_dim: [i32; 3] = [1024, 1024, 64];
    let max_grid_size: [i32; 3] = [2147483647, 65535, 65535];
    assert(max_threads_dim@ =~= seq![1024i32, 1024i32, 64i32]);
    assert(max_grid_size@ =~= seq![2147483647i32, 65535i32, 65535i32]);
    DeviceProperties {
        name,
        total_global_mem: vdev.total_memory,
        major: vdev.compute_capability_major,
        minor: vdev.compute_capability_minor,
        warp_size: vdev.warp_size,
        multi_processor_count: vdev.multiprocessor_count,
        max_threads_per_block: vdev.max_threads_per_block,
        max_threads_dim,
        max_grid_size,
        l2_cache_size: vdev.l2_cache_size,
        shared_mem_per_block: 49152,
        regs_per_block: 65536,
        clock_rate: 1_800_000,
        memory_clock_rate: 9_001_000,
        memory_bus_width: 5120,
        unified_addressing: 1,
        managed_memory: 1,
        concurrent_kernels: 1,
        cooperative_launch: 1,
        async_engine_count: 3,
        max_blocks_per_multi_processor: 32,
        shared_mem_per_multiprocessor: 102400,
    }
}

/// The smaller of two lengths.
pub open spec fn min_len(a: nat, b: nat) -> int {
    if a < b {
        a as int
    } else {
        b as int
    }
}

/// Whether `ordinal` names one of `count` devices.
pub fn valid_ordinal(count: usize, ordinal: i32) -> (r: bool)
    ensures
        r == (0 <= ordinal && ordinal < count),
{
    ordinal >= 0 && (ordinal as usize) < count
}

/// CUDA Driver API result codes.
#[allow(non_camel_case_types)]
#[derive(Debug, Clone, Copy, PartialEq, Eq, Structural)]
pub enum CuResult {
    CUDA_SUCCESS,
    CUDA_ERROR_INVALID_VALUE,
    CUDA_ERROR_OUT_OF_MEMORY,
    CUDA_ERROR_NOT_INITIALIZED,
    CUDA_ERROR_INVALID_CONTEXT,
    CUDA_ERROR_INVALID_MODULE,
    CUDA_ERROR_INVALID_IMAGE,
    CUDA_ERROR_NOT_FOUND,
    CUDA_ERROR_INVALID_HANDLE,
    CUDA_ERROR_NO_DEVICE,
    CUDA_ERROR_UNKNOWN,
}

impl CuResult {
    /// The numeric `CUresult` value.
    pub open spec fn value(self) -> u32 {
        match self {
            CuResult::CUDA_SUCCESS => 0,
            CuResult::CUDA_ERROR_INVALID_VALUE => 1,
            CuResult::CUDA_ERROR_OUT_OF_MEMORY => 2,
            CuResult::CUDA_ERROR_NOT_INITIALIZED => 3,
            CuResult::CUDA_ERROR_INVALID_CONTEXT => 201,
            CuResult::CUDA_ERROR_INVALID_MODULE => 301,
            CuResult::CUDA_ERROR_INVALID_IMAGE => 200,
            CuResult::CUDA_ERROR_NOT_FOUND => 500,
            CuResult::CUDA_ERROR_INVALID_HANDLE => 400,
            CuResult::CUDA_ERROR_NO_DEVICE => 100,
            CuResult::CUDA_ERROR_UNKNOWN => 999,
        }
    }

    /// Returns the numeric `CUresult` value.
    pub fn code(&self) -> (r: u32)
        ensures
            r == self.value(),
    {
        match self {
            CuResult::CUDA_SUCCESS => 0,
            CuResult::CUDA_ERROR_INVALID_VALUE => 1,
            CuResult::CUDA_ERROR_OUT_OF_MEMORY => 2,
            CuResult::CUDA_ERROR_NOT_INITIALIZED => 3,
            CuResult::CUDA_ERROR_INVALID_CONTEXT => 201,
            CuResult::CUDA_ERROR_INVALID_MODULE => 301,
            CuResult::CUDA_ERROR_INVALID_IMAGE => 200,
            CuResult::CUDA_ERROR_NOT_FOUND => 500,
            CuResult::CUDA_ERROR_INVALID_HANDLE => 400,
            CuResult::CUDA_ERROR_NO_DEVICE => 100,
            CuResult::CUDA_ERROR_UNKNOWN => 999,
        }
    }
}

/// CUDA Runtime API error codes.
#[allow(non_camel_case_types)]
#[derive(Debug, Clone, Copy, PartialEq, Eq, Structural)]
pub enum CudaError {
    cudaSuccess,
    cudaErrorInvalidValue,
    cudaErrorMemoryAllocation,
    cudaErrorInitializationError,
    cudaErrorInvalidDevice,
    cudaErrorInvalidMemcpyDirection,
    cudaErrorNoDevice,
    cudaErrorNotReady,
    cudaErrorUnknown,
}

impl CudaError {
    /// The numeric `cudaError_t` value.
    pub open spec fn value(self) -> u32 {
        match self {
            CudaError::cudaSuccess => 0,
            CudaError::cudaErrorInvalidValue => 1,
            CudaError::cudaErrorMemoryAllocation => 2,
            CudaError::cudaErrorInitializationError => 3,
            CudaError::cudaErrorInvalidDevice => 10,
            CudaError::cudaErrorInvalidMemcpyDirection => 21,
            CudaError::cudaErrorNoDevice => 100,
            CudaError::cudaErrorNotReady => 600,
            CudaError::cudaErrorUnknown => 999,
        }
    }

    /// Returns the numeric `cudaError_t` value.
    pub fn code(&self) -> (r: u32)
        ensures
            r == self.value(),
    {
        match self {
            CudaError::cudaSuccess => 0,
            CudaError::cudaErrorInvalidValue => 1,
            CudaError::cudaErrorMemoryAllocation => 2,
            CudaError::cudaErrorInitializationError => 3,
            CudaError::cudaErrorInvalidDevice => 10,
            CudaError::cudaErrorInvalidMemcpyDirection => 21,
            CudaError::cudaErrorNoDevice => 100,
            CudaError::cudaErrorNotReady => 600,
            CudaError::cudaErrorUnknown => 999,
        }
    }

    /// The error for a numeric `cudaError_t`; unknown codes read as
    /// `cudaErrorUnknown`.
    pub fn from_code(code: u32) -> (r: Self)
        ensures
            r.value() == code || (r == CudaError::cudaErrorUnknown && forall|e: CudaError|
                #[trigger] e.value() != code),
    {
        match code {
            0 => CudaError::cudaSuccess,
            1 => CudaError::cudaErrorInvalidValue,
            2 => CudaError::cudaErrorMemoryAllocation,
            3 => CudaError::cudaErrorInitializationError,
            10 => CudaError::cudaErrorInvalidDevice,
            21 => CudaError::cudaErrorInvalidMemcpyDirection,
            100 => CudaError::cudaErrorNoDevice,
            600 => CudaError::cudaErrorNotReady,
            _ => CudaError::cudaErrorUnknown,
        }
    }

    /// The human-readable description.
    pub open spec fn description(self) -> Seq<char> {
        match self {
            CudaError::cudaSuccess => "cudaSuccess"@,
            CudaError::cudaErrorInvalidValue => "invalid argument"@,
            CudaError::cudaErrorMemoryAllocation => "device-side assert triggered / out of memory"@,
            CudaError::cudaErrorInvalidDevice => "invalid device ordinal"@,
            _ => "unknown error"@,
        }
    }

    /// The error's symbolic name.
    pub open spec fn symbol(self) -> Seq<char> {
        match self {
            CudaError::cudaSuccess => "cudaSuccess"@,
            CudaError::cudaErrorInvalidValue => "cudaErrorInvalidValue"@,
            CudaError::cudaErrorMemoryAllocation => "cudaErrorMemoryAllocation"@,
            _ => "cudaErrorUnknown"@,
        }
    }

    /// Returns the human-readable description of the error.
    pub fn error_string(&self) -> (r: &'static str)
        ensures
            r@ == self.description(),
    {
        match self {
            CudaError::cudaSuccess => "cudaSuccess",
            CudaError::cudaErrorInvalidValue => "invalid argument",
            CudaError::cudaErrorMemoryAllocation => "device-side assert triggered / out of memory",
            CudaError::cudaErrorInvalidDevice => "invalid device ordinal",
            _ => "unknown error",
        }
    }

    /// Returns the symbolic name of the error.
    pub fn error_name(&self) -> (r: &'static str)
        ensures
            r@ == self.symbol(),
    {
        match self {
            CudaError::cudaSuccess => "cudaSuccess",
            CudaError::cudaErrorInvalidValue => "cudaErrorInvalidValue",
            CudaError::cudaErrorMemoryAllocation => "cudaErrorMemoryAllocation",
            _ => "cudaErrorUnknown",
        }
    }
}

/// Distinct driver results have distinct numeric codes.
pub proof fn law_cu_result_codes_distinct(a: CuResult, b: CuResult)
    ensures
        a.value() == b.value() ==> a == b,
{
}

/// Distinct runtime errors have distinct numeric codes, so reading back the
/// code of an error gives the error.
pub proof fn law_cuda_error_codes_distinct(a: CudaError, b: CudaError)
    ensures
        a.value() == b.value() ==> a == b,
{
}

/// Direction of a memory copy.
#[allow(non_camel_case_types)]
#[derive(Debug, Clone, Copy, PartialEq, Eq, Structural)]
pub enum CudaMemcpyKind {
    cudaMemcpyHostToHost,
    cudaMemcpyHostToDevice,
    cudaMemcpyDeviceToHost,
    cudaMemcpyDeviceToDevice,
    cudaMemcpyDefault,
}

/// A recorded kernel launch.
#[derive(Debug)]
pub struct KernelLaunch {
    /// Kernel identifier.
    pub kernel_id: u64,
    /// Grid dimensions.
    pub grid_dim: (u32, u32, u32),
    /// Block dimensions.
    pub block_dim: (u32, u32, u32),
    /// Shared memory per block in bytes.
    pub shared_mem_bytes: u32,
    /// Serialized kernel arguments.
    pub args: Vec<u8>,
}

/// The execution context of a CUDA stream.
#[derive(Debug)]
pub struct StreamContext {
    /// Stream handle.
    pub handle: u64,
    /// Device the stream belongs to.
    pub device_index: i32,
    /// Whether every queued launch has completed.
    pub synchronized: bool,
    /// Launches queued on the stream.
    pub pending_kernels: Vec<KernelLaunch>,
}

impl StreamContext {
    /// A fresh stream on device 0: synchronized, with nothing queued.
    pub fn new(handle: u64) -> (r: Self)
        ensures
            r.handle == handle,
            r.device_index == 0,
            r.synchronized,
            r.pending_kernels@.len() == 0,
    {
        StreamContext { handle, device_index: 0, synchronized: true, pending_kernels: Vec::new() }
    }

    /// Queues a launch; the stream is no longer synchronized.
    pub fn enqueue(&mut self, launch: KernelLaunch)
        ensures
            final(self).handle == old(self).handle,
            final(self).device_index == old(self).device_index,
            !final(self).synchronized,
            final(self).pending_kernels@ == old(self).pending_kernels@.push(launch),
    {
        self.pending_kernels.push(launch);
        self.synchronized = false;
    }

    /// Drains the queue; the stream is synchronized.
    pub fn synchronize(&mut self)
        ensures
            final(self).handle == old(self).handle,
            final(self).device_index == old(self).device_index,
            final(self).synchronized,
            final(self).pending_kernels@.len() == 0,
    {
        self.pending_kernels.clear();
        self.synchronized = true;
    }
}

/// A tracked device allocation.
#[derive(Debug, Clone)]
pub struct AllocEntry {
    /// Virtual address returned to the caller.
    pub virtual_ptr: u64,
    /// Size in bytes.
    pub size: usize,
    /// Owning device.
    pub device_index: i32,
    /// Whether the pager may not evict it.
    pub pinned: bool,
}

/// Opaque CUDA module handle.
pub struct CUmod(pub u64);

/// Opaque CUDA function handle.
pub struct CUfunc(pub u64);

/// How a module was loaded.
#[derive(Debug, Clone)]
pub enum ModuleSource {
    /// From a file path.
    File(String),
    /// From in-memory PTX of the given length.
    Data { ptx_len: usize },
    /// From a fat binary.
    Fatbin,
}

/// A loaded CUDA module.
#[derive(Debug)]
pub struct ModuleEntry {
    /// Module handle id.
    pub id: u64,
    /// Where it came from.
    pub source: ModuleSource,
    /// Kernel name to function handle id.
    pub functions: StrMap<u64>,
    /// The PTX / cubin bytes.
    pub raw_bytes: Vec<u8>,
}

impl ModuleEntry {
    /// A module with no functions resolved yet.
    pub fn new(id: u64, source: ModuleSource, raw_bytes: Vec<u8>) -> (r: Self)
        ensures
            r.id == id,
            r.source == source,
            r.raw_bytes == raw_bytes,
            r.functions@ == Map::<Seq<char>, u64>::empty(),
    {
        ModuleEntry { id, source, functions: StrMap::new(), raw_bytes }
    }

    /// Records the function handle resolved for a kernel name.
    pub fn register_function(&mut self, name: String, func_id: u64)
        ensures
            final(self).id == old(self).id,
            final(self).source == old(self).source,
            final(self).raw_bytes == old(self).raw_bytes,
            final(self).functions@ == old(self).functions@.insert(name@, func_id),
    {
        self.functions.insert(name, func_id);
    }
}

/// The CUDA symbols the shim overrides: the runtime API, then the driver
/// API.
pub open spec fn hooked_symbol_names() -> Seq<Seq<char>> {
    seq![
        "cudaGetDeviceCount"@,
        "cudaGetDeviceProperties"@,
        "cudaSetDevice"@,
        "cudaGetDevice"@,
        "cudaMalloc"@,
        "cudaFree"@,
        "cudaMemcpy"@,
        "cudaMemcpyAsync"@,
        "cudaMemset"@,
        "cudaStreamCreate"@,
        "cudaStreamDestroy"@,
        "cudaStreamSynchronize"@,
        "cudaLaunchKernel"@,
        "cudaGetLastError"@,
        "cudaGetErrorString"@,
        "cudaGetErrorName"@,
        "cudaDeviceSynchronize"@,
        "cudaRuntimeGetVersion"@,
        "cuInit"@,
        "cuDriverGetVersion"@,
        "cuDeviceGetCount"@,
        "cuDeviceGet"@,
        "cuDeviceGetAttribute"@,
        "cuCtxCreate"@,
        "cuCtxGetCurrent"@,
        "cuCtxSynchronize"@,
        "cuModuleLoad"@,
        "cuModuleLoadData"@,
        "cuModuleGetFunction"@,
        "cuModuleUnload"@,
        "cuLaunchKernel"@,
        "cuMemAlloc"@,
        "cuMemFree"@,
        "cuMemcpyHtoD"@,
        "cuMemcpyDtoH"@,
    ]
}

/// The CUDA symbols the shim overrides, in registration order.
pub fn hooked_symbols() -> (r: Vec<&'static str>)
    ensures
        r@.map_values(|s: &str| s@) == hooked_symbol_names(),
{
    let mut v: Vec<&'static str> = Vec::new();
    v.push("cudaGetDeviceCount");
    v.push("cudaGetDeviceProperties");
    v.push("cudaSetDevice");
    v.push("cudaGetDevice");
    v.push("cudaMalloc");
    v.push("cudaFree");
    v.push("cudaMemcpy");
    v.push("cudaMemcpyAsync");
    v.push("cudaMemset");
    v.push("cudaStreamCreate");
    v.push("cudaStreamDestroy");
    v.push("cudaStreamSynchronize");
    v.push("cudaLaunchKernel");
    v.push("cudaGetLastError");
    v.push("cudaGetErrorString");
    v.push("cudaGetErrorName");
    v.push("cudaDeviceSynchronize");
    v.push("cudaRuntimeGetVersion");
    v.push("cuInit");
    v.push("cuDriverGetVersion");
    v.push("cuDeviceGetCount");
    v.push("cuDeviceGet");
    v.push("cuDeviceGetAttribute");
    v.push("cuCtxCreate");
    v.push("cuCtxGetCurrent");
    v.push("cuCtxSynchronize");
    v.push("cuModuleLoad");
    v.push("cuModuleLoadData");
    v.push("cuModuleGetFunction");
    v.push("cuModuleUnload");
    v.push("cuLaunchKernel");
    v.push("cuMemAlloc");
    v.push("cuMemFree");
    v.push("cuMemcpyHtoD");
    v.push("cuMemcpyDtoH");
    assert(v@.map_values(|s: &str| s@) =~= hooked_symbol_names());
    v
}

/// Categories of intercepted calls.
#[derive(Debug, Clone, Copy, PartialEq, Eq, Structural)]
pub enum CallType {
    Malloc,
    Launch,
    Memcpy,
    Other,
}

/// Interception statistics.
#[derive(Debug, Default, Clone, Copy)]
pub struct InterceptStats {
    /// Calls intercepted.
    pub total_calls: u64,
    /// `cudaMalloc` calls.
    pub malloc_calls: u64,
    /// Kernel launches.
    pub launch_calls: u64,
    /// Memory copies.
    pub memcpy_calls: u64,
    /// Bytes allocated.
    pub bytes_allocated: u64,
    /// Bytes transferred.
    pub bytes_transferred: u64,
}

impl InterceptStats {
    /// All counters at zero.
    pub fn new() -> (r: Self)
        ensures
            r == (InterceptStats {
                total_calls: 0,
                malloc_calls: 0,
                launch_calls: 0,
                memcpy_calls: 0,
                bytes_allocated: 0,
                bytes_transferred: 0,
            }),
    {
        InterceptStats {
            total_calls: 0,
            malloc_calls: 0,
            launch_calls: 0,
            memcpy_calls: 0,
            bytes_allocated: 0,
            bytes_transferred: 0,
        }
    }
}

/// The statistics after one call of the given type moving `bytes` bytes.
pub open spec fn recorded(s: InterceptStats, call_type: CallType, bytes: u64) -> InterceptStats {
    let t = InterceptStats { total_calls: (s.total_calls + 1) as u64, ..s };
    match call_type {
        CallType::Malloc => InterceptStats {
            malloc_calls: (s.malloc_calls + 1) as u64,
            bytes_allocated: (s.bytes_allocated + bytes) as u64,
            ..t
        },
        CallType::Launch => InterceptStats { launch_calls: (s.launch_calls + 1) as u64, ..t },
        CallType::Memcpy => InterceptStats {
            memcpy_calls: (s.memcpy_calls + 1) as u64,
            bytes_transferred: (s.bytes_transferred + bytes) as u64,
            ..t
        },
        CallType::Other => t,
    }
}

/// Whether recording the call keeps every counter in range.
pub open spec fn can_record(s: InterceptStats, call_type: CallType, bytes: u64) -> bool {
    &&& s.total_calls < u64::MAX
    &&& call_type == CallType::Malloc ==> s.malloc_calls < u64::MAX && s.bytes_allocated + bytes
        <= u64::MAX
    &&& call_type == CallType::Launch ==> s.launch_calls < u64::MAX
    &&& call_type == CallType::Memcpy ==> s.memcpy_calls < u64::MAX && s.bytes_transferred + bytes
        <= u64::MAX
}

/// Whether recording a call keeps every counter in range.
pub fn fits_record(stats: &InterceptStats, call_type: CallType, bytes: u64) -> (r: bool)
    ensures
        r == can_record(*stats, call_type, bytes),
{
    stats.total_calls < u64::MAX && match call_type {
        CallType::Malloc => stats.malloc_calls < u64::MAX && bytes <= u64::MAX - stats.bytes_allocated,
        CallType::Launch => stats.launch_calls < u64::MAX,
        CallType::Memcpy => stats.memcpy_calls < u64::MAX && bytes <= u64::MAX
            - stats.bytes_transferred,
        CallType::Other => true,
    }
}

/// Records an intercepted call: every call counts, allocations add their
/// bytes to the allocated total, copies to the transferred total.
pub fn record_call(stats: &mut InterceptStats, call_type: CallType, bytes: u64)
    requires
        can_record(*old(stats), call_type, bytes),
    ensures
        *final(stats) == recorded(*old(stats), call_type, bytes),
{
    stats.total_calls = stats.total_calls + 1;
    match call_type {
        CallType::Malloc => {
            stats.malloc_calls = stats.malloc_calls + 1;
            stats.bytes_allocated = stats.bytes_allocated + bytes;
        },
        CallType::Launch => {
            stats.launch_calls = stats.launch_calls + 1;
        },
        CallType::Memcpy => {
            stats.memcpy_calls = stats.memcpy_calls + 1;
            stats.bytes_transferred = stats.bytes_transferred + bytes;
        },
        CallType::Other => {},
    }
}

/// The rule line of the status report.
pub open spec fn status_rule() -> Seq<char> {
    "═══════════════════════════════════════════"@
}

/// The lines of the interception status report.
pub open spec fn status_text(s: InterceptStats, hooks: nat) -> Seq<Seq<char>> {
    seq![
        status_rule(),
        "  OmniCompute Shim — Interception Status"@,
        status_rule(),
        "  Registered hooks : "@ + decimal(hooks),
        "  Total API calls  : "@ + decimal(s.total_calls as nat),
        "  Kernel launches  : "@ + decimal(s.launch_calls as nat),
        "  cudaMalloc calls : "@ + decimal(s.malloc_calls as nat),
        "  Bytes allocated  : "@ + decimal(s.bytes_allocated as nat / 1024 / 1024) + " MB"@,
        "  Bytes transferred: "@ + decimal(s.bytes_transferred as nat / 1024 / 1024) + " MB"@,
        status_rule(),
    ]
}

fn labelled(label: &str, value: u64, suffix: &str) -> (r: String)
    ensures
        r@ == label@ + decimal(value as nat) + suffix@,
{
    let mut s = String::new();
    push_str(&mut s, label);
    push_decimal(&mut s, value);
    push_str(&mut s, suffix);
    assert(s@ =~= label@ + decimal(value as nat) + suffix@);
    s
}


/// The lines of the interception status report for the given statistics and
/// number of registered hooks.
pub fn status_lines(stats: &InterceptStats, registered_hooks: usize) -> (r: Vec<String>)
    ensures
        r@.map_values(|l: String| l@) == status_text(*stats, registered_hooks as nat),
{
    let mut lines: Vec<String> = Vec::new();
    lines.push(owned("═══════════════════════════════════════════"));
    lines.push(owned("  OmniCompute Shim — Interception Status"));
    lines.push(owned("═══════════════════════════════════════════"));
    lines.push(labelled("  Registered hooks : ", registered_hooks as u64, ""));
    lines.push(labelled("  Total API calls  : ", stats.total_calls, ""));
    lines.push(labelled("  Kernel launches  : ", stats.launch_calls, ""));
    lines.push(labelled("  cudaMalloc calls : ", stats.malloc_calls, ""));
    lines.push(labelled("  Bytes allocated  : ", stats.bytes_allocated / 1024 / 1024, " MB"));
    lines.push(labelled("  Bytes transferred: ", stats.bytes_transferred / 1024 / 1024, " MB"));
    lines.push(owned("═══════════════════════════════════════════"));
    proof {
        reveal_strlit("");
        let v = lines@.map_values(|l: String| l@);
        let t = status_text(*stats, registered_hooks as nat);
        assert(v.len() == t.len());
        assert(v[3] =~= t[3]);
        assert(v[4] =~= t[4]);
        assert(v[5] =~= t[5]);
        assert(v[6] =~= t[6]);
        assert(v =~= t);
    }
    lines
}

} // verus!
