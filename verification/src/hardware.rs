//! Compute backends, host operating systems, and the choice of backend that
//! hardware probing makes from what it finds.
use crate::text::{decimal, owned, push_decimal, push_str, str_eq};
use vstd::prelude::*;
use vstd::string::*;

verus! {

/// The hardware backend selected for code generation and execution.
#[derive(Debug, Clone, PartialEq, Eq)]
pub enum TargetBackend {
    /// AMD GPU (AMDGCN via ROCm).
    AmdRocm { gfx_arch: String, wavefront_size: u32, compute_units: u32 },
    /// Apple Silicon (Metal, unified memory). The memory size is a `u64`:
    /// the sizes probing reports exceed a 32-bit `usize`.
    AppleMetal { chip_name: String, unified_memory_bytes: u64, gpu_cores: u32 },
    /// Vulkan-capable GPU (SPIR-V).
    VulkanGeneric { device_name: String, max_invocations: u32 },
    /// Vectorized CPU fallback.
    CpuVectorized { core_count: u32, simd_width: u32 },
    /// A remote node of the P2P network.
    RemoteP2p { peer_id: String, latency_us: u64 },
}

/// The user-facing device name of a backend.
pub open spec fn device_name_text(b: TargetBackend) -> Seq<char> {
    match b {
        TargetBackend::AmdRocm { gfx_arch, .. } => "AMD Radeon GPU ("@ + gfx_arch@ + ")"@,
        TargetBackend::AppleMetal { chip_name, .. } => chip_name@,
        TargetBackend::VulkanGeneric { device_name, .. } => device_name@,
        TargetBackend::CpuVectorized { core_count, simd_width } => "Host CPU ("@ + decimal(
            core_count as nat,
        ) + " Cores, "@ + decimal(simd_width as nat) + "bit SIMD)"@,
        TargetBackend::RemoteP2p { peer_id, .. } => "Remote Peer Node ("@ + peer_id@ + ")"@,
    }
}

impl TargetBackend {
    /// An equal copy.
    pub fn copy(&self) -> (r: Self)
        ensures
            r == *self,
    {
        match self {
            TargetBackend::AmdRocm { gfx_arch, wavefront_size, compute_units } => TargetBackend::AmdRocm {
                gfx_arch: gfx_arch.clone(),
                wavefront_size: *wavefront_size,
                compute_units: *compute_units,
            },
            TargetBackend::AppleMetal { chip_name, unified_memory_bytes, gpu_cores } => TargetBackend::AppleMetal {
                chip_name: chip_name.clone(),
                unified_memory_bytes: *unified_memory_bytes,
                gpu_cores: *gpu_cores,
            },
            TargetBackend::VulkanGeneric { device_name, max_invocations } => TargetBackend::VulkanGeneric {
                device_name: device_name.clone(),
                max_invocations: *max_invocations,
            },
            TargetBackend::CpuVectorized { core_count, simd_width } => TargetBackend::CpuVectorized {
                core_count: *core_count,
                simd_width: *simd_width,
            },
            TargetBackend::RemoteP2p { peer_id, latency_us } => TargetBackend::RemoteP2p {
                peer_id: peer_id.clone(),
                latency_us: *latency_us,
            },
        }
    }

    /// Returns a user-friendly name of the compute device.
    pub fn device_name(&self) -> (r: String)
        ensures
            r@ == device_name_text(*self),
    {
        match self {
            TargetBackend::AmdRocm { gfx_arch, .. } => {
                let mut s = String::new();
                push_str(&mut s, "AMD Radeon GPU (");
                push_str(&mut s, gfx_arch.as_str());
                push_str(&mut s, ")");
                s
            },
            TargetBackend::AppleMetal { chip_name, .. } => chip_name.clone(),
            TargetBackend::VulkanGeneric { device_name, .. } => device_name.clone(),
            TargetBackend::CpuVectorized { core_count, simd_width } => {
                let mut s = String::new();
                push_str(&mut s, "Host CPU (");
                push_decimal(&mut s, *core_count as u64);
                push_str(&mut s, " Cores, ");
                push_decimal(&mut s, *simd_width as u64);
                push_str(&mut s, "bit SIMD)");
                s
            },
            TargetBackend::RemoteP2p { peer_id, .. } => {
                let mut s = String::new();
                push_str(&mut s, "Remote Peer Node (");
                push_str(&mut s, peer_id.as_str());
                push_str(&mut s, ")");
                s
            },
        }
    }
}

/// Host operating system.
#[derive(Debug, Clone, Copy, PartialEq, Eq, Structural)]
pub enum OperatingSystem {
    Linux,
    MacOs,
    Windows,
}

impl OperatingSystem {
    /// The operating system for a target OS name as Rust spells it
    /// (`std::env::consts::OS`); any other name counts as Linux.
    pub fn from_target_os(os: &str) -> (r: Self)
        ensures
            r == (if os@ == "macos"@ {
                OperatingSystem::MacOs
            } else if os@ == "windows"@ {
                OperatingSystem::Windows
            } else {
                OperatingSystem::Linux
            }),
    {
        if crate::text::str_eq(os, "macos") {
            OperatingSystem::MacOs
        } else if crate::text::str_eq(os, "windows") {
            OperatingSystem::Windows
        } else {
            OperatingSystem::Linux
        }
    }

    /// The environment variable that injects a library into processes.
    pub open spec fn preload_var(self) -> Seq<char> {
        match self {
            OperatingSystem::Linux => "LD_PRELOAD"@,
            OperatingSystem::MacOs => "DYLD_INSERT_LIBRARIES"@,
            OperatingSystem::Windows => "N/A (DLL search order hijack)"@,
        }
    }

    /// The environment variable and value that load the shim into a launched
    /// program: the preload library on Linux and macOS, a marker for the
    /// injected DLL on Windows.
    pub fn injection_env(&self) -> (r: (&'static str, &'static str))
        ensures
            r.0@ == match self {
                OperatingSystem::Linux => "LD_PRELOAD"@,
                OperatingSystem::MacOs => "DYLD_INSERT_LIBRARIES"@,
                OperatingSystem::Windows => "OMNICOMPUTE_SHIM_ACTIVE"@,
            },
            r.1@ == match self {
                OperatingSystem::Linux => "libomni_shim.so"@,
                OperatingSystem::MacOs => "libomni_shim.dylib"@,
                OperatingSystem::Windows => "1"@,
            },
    {
        match self {
            OperatingSystem::Linux => ("LD_PRELOAD", "libomni_shim.so"),
            OperatingSystem::MacOs => ("DYLD_INSERT_LIBRARIES", "libomni_shim.dylib"),
            OperatingSystem::Windows => ("OMNICOMPUTE_SHIM_ACTIVE", "1"),
        }
    }

    /// Returns the LD_PRELOAD / DYLD_INSERT_LIBRARIES variable for this OS.
    pub fn preload_env_var(&self) -> (r: &'static str)
        ensures
            r@ == self.preload_var(),
    {
        match self {
            OperatingSystem::Linux => "LD_PRELOAD",
            OperatingSystem::MacOs => "DYLD_INSERT_LIBRARIES",
            OperatingSystem::Windows => "N/A (DLL search order hijack)",
        }
    }
}

/// What hardware probing found, in the order it looks.
#[derive(Debug, Clone, Copy, PartialEq, Eq, Structural)]
pub enum DetectedHardware {
    /// `OMNI_FORCE_BACKEND=amd`: a simulated RDNA3 GPU.
    ForcedAmd,
    /// `/dev/kfd` exists on Linux: an AMD GPU under ROCm.
    RocmDevice,
    /// macOS on aarch64: Apple Silicon.
    AppleSilicon,
    /// `OMNI_FORCE_BACKEND=metal`: a simulated Apple M3 Max.
    ForcedMetal,
    /// `OMNI_FORCE_BACKEND=vulkan`: a simulated Vulkan GPU.
    ForcedVulkan,
    /// No accelerator: the vectorized CPU.
    CpuOnly,
}

/// Whether the forced backend is the given name.
pub open spec fn forced_is(forced: Option<&str>, name: Seq<char>) -> bool {
    forced matches Some(f) && f@ == name
}

/// The probe's priority order: AMD (forced, then `/dev/kfd`), Apple Silicon
/// (native, then forced), a forced Vulkan GPU, then the CPU.
pub open spec fn probe_order(forced: Option<&str>, kfd_present: bool, apple_silicon: bool) -> DetectedHardware {
    if forced_is(forced, "amd"@) {
        DetectedHardware::ForcedAmd
    } else if kfd_present {
        DetectedHardware::RocmDevice
    } else if apple_silicon {
        DetectedHardware::AppleSilicon
    } else if forced_is(forced, "metal"@) {
        DetectedHardware::ForcedMetal
    } else if forced_is(forced, "vulkan"@) {
        DetectedHardware::ForcedVulkan
    } else {
        DetectedHardware::CpuOnly
    }
}

/// Probes the host for compute hardware.
pub struct HardwareDetector;

impl HardwareDetector {
    /// Picks what the probe reports from what the host shows: the forced
    /// backend (`OMNI_FORCE_BACKEND`), whether `/dev/kfd` exists on Linux,
    /// and whether the host is macOS on aarch64.
    pub fn classify(forced_backend: Option<&str>, kfd_present: bool, apple_silicon: bool) -> (r: DetectedHardware)
        ensures
            r == probe_order(forced_backend, kfd_present, apple_silicon),
    {
        let forced_amd = match forced_backend {
            Some(f) => str_eq(f, "amd"),
            None => false,
        };
        let forced_metal = match forced_backend {
            Some(f) => str_eq(f, "metal"),
            None => false,
        };
        let forced_vulkan = match forced_backend {
            Some(f) => str_eq(f, "vulkan"),
            None => false,
        };
        if forced_amd {
            DetectedHardware::ForcedAmd
        } else if kfd_present {
            DetectedHardware::RocmDevice
        } else if apple_silicon {
            DetectedHardware::AppleSilicon
        } else if forced_metal {
            DetectedHardware::ForcedMetal
        } else if forced_vulkan {
            DetectedHardware::ForcedVulkan
        } else {
            DetectedHardware::CpuOnly
        }
    }

    /// The target backend of a probe result; the CPU reports its core count
    /// and SIMD width.
    pub fn backend_for(d: DetectedHardware, core_count: u32, simd_width: u32) -> (r: TargetBackend)
        ensures
            match d {
                DetectedHardware::ForcedAmd => r matches TargetBackend::AmdRocm {
                    gfx_arch,
                    wavefront_size,
                    compute_units,
                } && gfx_arch@ == "gfx1100"@ && wavefront_size == 32 && compute_units == 96,
                DetectedHardware::RocmDevice => r matches TargetBackend::AmdRocm {
                    gfx_arch,
                    wavefront_size,
                    compute_units,
                } && gfx_arch@ == "gfx906"@ && wavefront_size == 64 && compute_units == 60,
                DetectedHardware::AppleSilicon => r matches TargetBackend::AppleMetal {
                    chip_name,
                    unified_memory_bytes,
                    gpu_cores,
                } && chip_name@ == "Apple Silicon"@ && unified_memory_bytes == 24 * 1024 * 1024
                    * 1024 && gpu_cores == 30,
                DetectedHardware::ForcedMetal => r matches TargetBackend::AppleMetal {
                    chip_name,
                    unified_memory_bytes,
                    gpu_cores,
                } && chip_name@ == "Apple M3 Max (simulated)"@ && unified_memory_bytes == 96 * 1024
                    * 1024 * 1024 && gpu_cores == 40,
                DetectedHardware::ForcedVulkan => r matches TargetBackend::VulkanGeneric {
                    device_name,
                    max_invocations,
                } && device_name@ == "Vulkan Device (simulated)"@ && max_invocations == 1024,
                DetectedHardware::CpuOnly => r == TargetBackend::CpuVectorized {
                    core_count,
                    simd_width,
                },
            },
    {
        match d {
            DetectedHardware::ForcedAmd => TargetBackend::AmdRocm {
                gfx_arch: owned("gfx1100"),
                wavefront_size: 32,
                compute_units: 96,
            },
            DetectedHardware::RocmDevice => TargetBackend::AmdRocm {
                gfx_arch: owned("gfx906"),
                wavefront_size: 64,
                compute_units: 60,
            },
            DetectedHardware::AppleSilicon => TargetBackend::AppleMetal {
                chip_name: owned("Apple Silicon"),
                unified_memory_bytes: 24 * 1024 * 1024 * 1024,
                gpu_cores: 30,
            },
            DetectedHardware::ForcedMetal => TargetBackend::AppleMetal {
                chip_name: owned("Apple M3 Max (simulated)"),
                unified_memory_bytes: 96 * 1024 * 1024 * 1024,
                gpu_cores: 40,
            },
            DetectedHardware::ForcedVulkan => TargetBackend::VulkanGeneric {
                device_name: owned("Vulkan Device (simulated)"),
                max_invocations: 1024,
            },
            DetectedHardware::CpuOnly => TargetBackend::CpuVectorized { core_count, simd_width },
        }
    }
}

/// The memory and capability figures of a probed device; the throughput
/// estimates, which are floating point, are not part of it.
#[derive(Debug, Clone, Copy, PartialEq, Eq, Structural)]
pub struct DeviceProfile {
    /// Device memory in bytes.
    pub vram_bytes: u64,
    /// L2 cache in bytes.
    pub l2_cache_bytes: u64,
    /// Hardware atomics.
    pub atomic_support: bool,
    /// Matrix / tensor cores.
    pub tensor_core_support: bool,
    /// Host operating system.
    pub os: OperatingSystem,
}

/// Device memory each probe result reports, in bytes.
pub open spec fn vram_for(d: DetectedHardware) -> nat {
    match d {
        DetectedHardware::ForcedAmd => 24 * 1024 * 1024 * 1024,
        DetectedHardware::RocmDevice => 16 * 1024 * 1024 * 1024,
        DetectedHardware::AppleSilicon => 24 * 1024 * 1024 * 1024,
        DetectedHardware::ForcedMetal => 96 * 1024 * 1024 * 1024,
        DetectedHardware::ForcedVulkan => 8 * 1024 * 1024 * 1024,
        DetectedHardware::CpuOnly => 8 * 1024 * 1024 * 1024,
    }
}

/// L2 cache each probe result reports, in bytes.
pub open spec fn l2_for(d: DetectedHardware) -> nat {
    match d {
        DetectedHardware::ForcedAmd => 6 * 1024 * 1024,
        DetectedHardware::RocmDevice => 4 * 1024 * 1024,
        DetectedHardware::AppleSilicon => 24 * 1024 * 1024,
        DetectedHardware::ForcedMetal => 48 * 1024 * 1024,
        DetectedHardware::ForcedVulkan => 2 * 1024 * 1024,
        DetectedHardware::CpuOnly => 1024 * 1024,
    }
}

/// Whether each probe result has matrix cores.
pub open spec fn tensor_cores_for(d: DetectedHardware) -> bool {
    match d {
        DetectedHardware::ForcedAmd | DetectedHardware::AppleSilicon
        | DetectedHardware::ForcedMetal => true,
        _ => false,
    }
}

/// The operating system a probe result reports, given the host's: a ROCm
/// device is only found on Linux and Apple Silicon only on macOS; forced and
/// CPU results report the host.
pub open spec fn os_for(d: DetectedHardware, host: OperatingSystem) -> OperatingSystem {
    match d {
        DetectedHardware::RocmDevice => OperatingSystem::Linux,
        DetectedHardware::AppleSilicon => OperatingSystem::MacOs,
        _ => host,
    }
}

impl HardwareDetector {
    /// The profile figures of a probe result on a host running `os`; every
    /// device supports atomics.
    pub fn profile_for(d: DetectedHardware, os: OperatingSystem) -> (p: DeviceProfile)
        ensures
            p.vram_bytes == vram_for(d),
            p.l2_cache_bytes == l2_for(d),
            p.atomic_support,
            p.tensor_core_support == tensor_cores_for(d),
            p.os == os_for(d, os),
    {
        let (vram_bytes, l2_cache_bytes, tensor_core_support, os) = match d {
            DetectedHardware::ForcedAmd => (24 * 1024 * 1024 * 1024, 6 * 1024 * 1024, true, os),
            DetectedHardware::RocmDevice => (
                16 * 1024 * 1024 * 1024,
                4 * 1024 * 1024,
                false,
                OperatingSystem::Linux,
            ),
            DetectedHardware::AppleSilicon => (
                24 * 1024 * 1024 * 1024,
                24 * 1024 * 1024,
                true,
                OperatingSystem::MacOs,
            ),
            DetectedHardware::ForcedMetal => (96 * 1024 * 1024 * 1024, 48 * 1024 * 1024, true, os),
            DetectedHardware::ForcedVulkan => (8 * 1024 * 1024 * 1024, 2 * 1024 * 1024, false, os),
            DetectedHardware::CpuOnly => (8 * 1024 * 1024 * 1024, 1024 * 1024, false, os),
        };
        DeviceProfile { vram_bytes, l2_cache_bytes, atomic_support: true, tensor_core_support, os }
    }
}

/// Whatever the probe finds, it reports some device memory and some L2
/// cache.
pub proof fn law_probed_memory_is_positive(d: DetectedHardware)
    ensures
        vram_for(d) > 0,
        l2_for(d) > 0,
{
}

} // verus!
