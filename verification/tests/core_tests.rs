use omnicompute::allocator::{AllocatorError, DuvasAllocator, MemoryDomain, VIRTUAL_BASE};
use omnicompute::dialect::{AttrValue, ElementType, F64Bits, IrLifter, OmniModule, OmniOp, OpKind, TensorType};
use omnicompute::hardware::{DetectedHardware, HardwareDetector, OperatingSystem, TargetBackend};

const ALL_DETECTED: [DetectedHardware; 6] = [
    DetectedHardware::ForcedAmd,
    DetectedHardware::RocmDevice,
    DetectedHardware::AppleSilicon,
    DetectedHardware::ForcedMetal,
    DetectedHardware::ForcedVulkan,
    DetectedHardware::CpuOnly,
];
use omnicompute::pager::{apply_page_command, window_commands, PageCommand};
use omnicompute::strmap::StrMap;
use omnicompute::version;

fn op(kind: OpKind, inputs: &[&str], output: &str, shape: Vec<i64>, element: ElementType) -> OmniOp {
    OmniOp {
        id: 0,
        kind,
        inputs: inputs.iter().map(|s| s.to_string()).collect(),
        output: output.to_string(),
        attrs: StrMap::new(),
        result_type: TensorType::static_tensor(shape, element),
    }
}

#[test]
fn test_os_detection() {
    for name in ["linux", "macos", "windows", "freebsd"] {
        let os = OperatingSystem::from_target_os(name);
        assert!(matches!(
            os,
            OperatingSystem::Linux | OperatingSystem::MacOs | OperatingSystem::Windows
        ));
    }
}

#[test]
fn os_names_map_to_their_injection_variables() {
    assert_eq!(OperatingSystem::from_target_os("macos"), OperatingSystem::MacOs);
    assert_eq!(OperatingSystem::from_target_os("windows"), OperatingSystem::Windows);
    assert_eq!(OperatingSystem::from_target_os("linux"), OperatingSystem::Linux);
    assert_eq!(OperatingSystem::from_target_os("freebsd"), OperatingSystem::Linux);
    assert_eq!(OperatingSystem::Linux.preload_env_var(), "LD_PRELOAD");
    assert_eq!(OperatingSystem::MacOs.preload_env_var(), "DYLD_INSERT_LIBRARIES");
    assert_eq!(OperatingSystem::Windows.preload_env_var(), "N/A (DLL search order hijack)");
}

#[test]
fn test_version_not_empty() {
    assert!(!version().is_empty());
    assert_eq!(version(), "0.1.0");
}

#[test]
fn device_names_follow_the_backend() {
    let amd = TargetBackend::AmdRocm { gfx_arch: "gfx1100".to_string(), wavefront_size: 32, compute_units: 96 };
    assert_eq!(amd.device_name(), "AMD Radeon GPU (gfx1100)");
    let cpu = TargetBackend::CpuVectorized { core_count: 16, simd_width: 256 };
    assert_eq!(cpu.device_name(), "Host CPU (16 Cores, 256bit SIMD)");
    let peer = TargetBackend::RemoteP2p { peer_id: "peer-7".to_string(), latency_us: 900 };
    assert_eq!(peer.device_name(), "Remote Peer Node (peer-7)");
    let vk = TargetBackend::VulkanGeneric { device_name: "Arc A770".to_string(), max_invocations: 1024 };
    assert_eq!(vk.device_name(), "Arc A770");
}

#[test]
fn probe_priority_prefers_forced_amd_then_kfd_then_apple() {
    assert_eq!(HardwareDetector::classify(Some("amd"), true, true), DetectedHardware::ForcedAmd);
    assert_eq!(HardwareDetector::classify(Some("metal"), true, true), DetectedHardware::RocmDevice);
    assert_eq!(HardwareDetector::classify(Some("metal"), false, true), DetectedHardware::AppleSilicon);
    assert_eq!(HardwareDetector::classify(Some("metal"), false, false), DetectedHardware::ForcedMetal);
    assert_eq!(HardwareDetector::classify(Some("vulkan"), false, false), DetectedHardware::ForcedVulkan);
    assert_eq!(HardwareDetector::classify(Some("cuda"), false, false), DetectedHardware::CpuOnly);
    assert_eq!(HardwareDetector::classify(None, false, false), DetectedHardware::CpuOnly);
}

#[test]
fn probe_results_name_their_backends() {
    match HardwareDetector::backend_for(DetectedHardware::ForcedAmd, 8, 256) {
        TargetBackend::AmdRocm { gfx_arch, wavefront_size, compute_units } => {
            assert_eq!(gfx_arch, "gfx1100");
            assert_eq!((wavefront_size, compute_units), (32, 96));
        }
        other => panic!("unexpected backend {:?}", other),
    }
    match HardwareDetector::backend_for(DetectedHardware::ForcedMetal, 8, 256) {
        TargetBackend::AppleMetal { chip_name, unified_memory_bytes, gpu_cores } => {
            assert_eq!(chip_name, "Apple M3 Max (simulated)");
            assert_eq!(unified_memory_bytes, 96 * 1024 * 1024 * 1024);
            assert_eq!(gpu_cores, 40);
        }
        other => panic!("unexpected backend {:?}", other),
    }
    assert_eq!(
        HardwareDetector::backend_for(DetectedHardware::CpuOnly, 12, 512),
        TargetBackend::CpuVectorized { core_count: 12, simd_width: 512 }
    );
}

#[test]
fn test_alloc_and_free() {
    let mut allocator = DuvasAllocator::new(1024 * 1024);
    let addr1 = allocator.allocate(100 * 1024, false).unwrap();
    let addr2 = allocator.allocate(200 * 1024, false).unwrap();

    assert!(addr2 > addr1);
    assert_eq!(allocator.get_domain(addr1), Some(MemoryDomain::LocalDevice));

    let (used, cap, virt) = allocator.get_metrics();
    assert_eq!(used, 300 * 1024);
    assert_eq!(cap, 1024 * 1024);
    assert_eq!(virt, 300 * 1024);

    allocator.free(addr1).unwrap();
    let (used, _, _) = allocator.get_metrics();
    assert_eq!(used, 200 * 1024);
}

#[test]
fn test_overallocation_fallback() {
    let mut allocator = DuvasAllocator::new(100 * 1024);
    let addr1 = allocator.allocate(60 * 1024, false).unwrap();
    let addr2 = allocator.allocate(60 * 1024, false).unwrap();

    assert_eq!(allocator.get_domain(addr1), Some(MemoryDomain::LocalDevice));
    assert_eq!(allocator.get_domain(addr2), Some(MemoryDomain::Host));
}

#[test]
fn test_migration() {
    let mut allocator = DuvasAllocator::new(100 * 1024);
    let addr = allocator.allocate(40 * 1024, false).unwrap();
    assert_eq!(allocator.get_domain(addr), Some(MemoryDomain::LocalDevice));

    allocator.migrate(addr, MemoryDomain::Host).unwrap();
    assert_eq!(allocator.get_domain(addr), Some(MemoryDomain::Host));
    assert_eq!(allocator.get_metrics().0, 0);
}

#[test]
fn allocations_are_page_aligned_and_start_at_the_base() {
    let mut allocator = DuvasAllocator::new(1 << 20);
    let a = allocator.allocate(1, true).unwrap();
    let b = allocator.allocate(4097, false).unwrap();
    assert_eq!(a, VIRTUAL_BASE);
    assert_eq!(b, VIRTUAL_BASE + 4096);
    assert_eq!(allocator.get_metrics(), (4096 + 8192, 1 << 20, 4096 + 8192));
    assert!(allocator.can_allocate(4096));
    assert!(!allocator.can_allocate(usize::MAX));
}

#[test]
fn allocator_errors_name_the_address() {
    let mut allocator = DuvasAllocator::new(1 << 20);
    let a = allocator.allocate(4096, false).unwrap();
    assert_eq!(allocator.free(a + 1), Err(AllocatorError::InvalidFree(a + 1)));
    assert_eq!(allocator.migrate(a + 1, MemoryDomain::Host), Err(AllocatorError::UnallocatedAddress(a + 1)));
    assert_eq!(allocator.get_domain(a + 1), None);
    allocator.free(a).unwrap();
    assert_eq!(allocator.free(a), Err(AllocatorError::InvalidFree(a)));
}

#[test]
fn free_undoes_allocate() {
    let mut allocator = DuvasAllocator::new(64 * 1024);
    let keep = allocator.allocate(8 * 1024, false).unwrap();
    let before = allocator.get_metrics();
    let tmp = allocator.allocate(100 * 1024, false).unwrap();
    assert_eq!(allocator.get_domain(tmp), Some(MemoryDomain::Host));
    allocator.free(tmp).unwrap();
    assert_eq!(allocator.get_metrics(), before);
    assert_eq!(allocator.get_domain(tmp), None);
    assert_eq!(allocator.get_domain(keep), Some(MemoryDomain::LocalDevice));
}

#[test]
fn migration_moves_device_bytes() {
    let mut allocator = DuvasAllocator::new(1 << 20);
    let a = allocator.allocate(8192, false).unwrap();
    allocator.migrate(a, MemoryDomain::Host).unwrap();
    assert_eq!(allocator.get_metrics(), (0, 1 << 20, 8192));
    allocator.migrate(a, MemoryDomain::LocalDevice).unwrap();
    assert_eq!(allocator.get_metrics(), (8192, 1 << 20, 8192));
    allocator.migrate(a, MemoryDomain::LocalDevice).unwrap();
    assert_eq!(allocator.get_metrics(), (8192, 1 << 20, 8192));
}

#[test]
fn test_pager_slide_window() {
    let mut allocator = DuvasAllocator::new(100 * 1024 * 1024);
    let layer1 = allocator.allocate(10 * 1024 * 1024, false).unwrap();
    let layer2 = allocator.allocate(10 * 1024 * 1024, false).unwrap();
    let layer3 = allocator.allocate(10 * 1024 * 1024, false).unwrap();
    allocator.migrate(layer3, MemoryDomain::Host).unwrap();
    assert_eq!(allocator.get_domain(layer3), Some(MemoryDomain::Host));

    let cmds = window_commands(&[layer2], &[layer3], &[layer1]);
    assert_eq!(
        cmds,
        vec![PageCommand::Evict { virtual_addr: layer1 }, PageCommand::Prefetch { virtual_addr: layer3 }]
    );
    for cmd in cmds {
        assert!(apply_page_command(&mut allocator, cmd));
    }
    assert_eq!(allocator.get_domain(layer3), Some(MemoryDomain::LocalDevice));
    assert_eq!(allocator.get_domain(layer1), Some(MemoryDomain::Host));
    assert_eq!(allocator.get_domain(layer2), Some(MemoryDomain::LocalDevice));
    assert!(!apply_page_command(&mut allocator, PageCommand::Shutdown));
    assert!(apply_page_command(&mut allocator, PageCommand::Evict { virtual_addr: 12345 }));
}

#[test]
fn test_element_type_widths() {
    assert_eq!(ElementType::F32.byte_width(), 4);
    assert_eq!(ElementType::F16.byte_width(), 2);
    assert_eq!(ElementType::BF16.byte_width(), 2);
    assert_eq!(ElementType::I8.byte_width(), 1);
    assert_eq!(ElementType::F64.byte_width(), 8);
}

#[test]
fn element_type_names_and_classes() {
    assert_eq!(ElementType::F8E4M3.mlir_name(), "f8E4M3FN");
    assert_eq!(ElementType::Bool.mlir_name(), "i1");
    assert_eq!(ElementType::U8.mlir_name(), "ui8");
    assert!(ElementType::BF16.is_float());
    assert!(!ElementType::I64.is_float());
    assert_eq!(ElementType::Opaque.byte_width(), 0);
}

#[test]
fn test_tensor_type_display() {
    let t = TensorType::static_tensor(vec![128, 256], ElementType::F16);
    assert_eq!(t.to_string(), "tensor<128x256xf16>");
}

#[test]
fn test_dynamic_tensor_display() {
    let t = TensorType::dynamic(3, ElementType::BF16);
    assert_eq!(t.to_string(), "tensor<?x?x?xbf16>");
}

#[test]
fn test_tensor_byte_size() {
    let t = TensorType::static_tensor(vec![4, 4], ElementType::F32);
    assert_eq!(t.byte_size(), Some(4 * 4 * 4));
}

#[test]
fn tensor_sizes_and_rank() {
    let t = TensorType::static_tensor(vec![2, 3, 5], ElementType::I16);
    assert_eq!(t.rank(), 3);
    assert_eq!(t.num_elements(), Some(30));
    assert_eq!(t.byte_size(), Some(60));
    let d = TensorType::dynamic(2, ElementType::F32);
    assert_eq!(d.rank(), 2);
    assert_eq!(d.num_elements(), None);
    assert_eq!(d.byte_size(), None);
    let scalar = TensorType::static_tensor(vec![], ElementType::F64);
    assert_eq!(scalar.to_string(), "tensor<xf64>");
    assert_eq!(scalar.num_elements(), Some(1));
    let negative = TensorType::static_tensor(vec![-1, 4], ElementType::I8);
    assert_eq!(negative.to_string(), "tensor<-1x4xi8>");
}

#[test]
fn test_module_push_and_count() {
    let mut module = OmniModule::new();
    assert_eq!(module.op_count(), 0);

    let matmul = op(OpKind::MatMul, &["a", "b"], "c", vec![64, 64], ElementType::F32);
    module.push_op(matmul);
    assert_eq!(module.op_count(), 1);
    assert!(module.value_type("c").is_some());
}

#[test]
fn push_op_numbers_operations_and_records_types() {
    let mut module = OmniModule::new();
    let first = module.push_op(op(OpKind::Relu, &["x"], "y", vec![8], ElementType::F16));
    let second = module.push_op(op(OpKind::Add, &["y", "y"], "z", vec![8], ElementType::F32));
    assert_eq!((first, second), (0, 1));
    assert_eq!(module.ops[1].id, 1);
    assert_eq!(module.value_type("z").unwrap().to_string(), "tensor<8xf32>");
    assert!(module.value_type("x").is_none());
}

#[test]
fn test_ir_lifter_creates_module() {
    let mut lifter = IrLifter::new();
    let fake_ptx = b".version 8.0\n.target sm_90\n";
    let module = lifter.lift_ptx(fake_ptx, 0xDEAD);
    assert!(module.op_count() >= 1);
}

#[test]
fn lifter_recognizes_kernel_classes() {
    let mut lifter = IrLifter::new();
    let m = lifter.lift_ptx(b"mma.sync.aligned.m16n8k16", 1);
    assert_eq!(m.ops[0].kind, OpKind::MatMul);
    assert_eq!(m.ops[0].inputs, vec!["v0".to_string(), "v1".to_string()]);
    assert_eq!(m.ops[0].output, "v2");
    assert_eq!(m.ops[0].result_type.to_string(), "tensor<?x?xf16>");
    let m = lifter.lift_ptx(b"ex2.approx.f32 div.approx.f32", 2);
    assert_eq!(m.ops[0].kind, OpKind::Softmax { axis: -1 });
    assert_eq!(m.ops[0].output, "v5");
    let m = lifter.lift_ptx(b"tanh.approx.f32", 3);
    assert_eq!(m.ops[0].kind, OpKind::UnaryFunc { func: omnicompute::dialect::UnaryFunc::Exp });
    let raw = lifter.lift_ptx(b"ld.global", 4);
    assert_eq!(raw.ops[0].kind, OpKind::Opaque { ptx_hash: IrLifter::hash_bytes(b"ld.global") });
    // Bytes that are not UTF-8 are a binary cubin and match no pattern.
    let binary: &[u8] = &[0xff, b'w', b'm', b'm', b'a'];
    let m = lifter.lift_ptx(binary, 5);
    assert_eq!(m.ops[0].kind, OpKind::Opaque { ptx_hash: IrLifter::hash_bytes(binary) });
}

#[test]
fn opaque_hash_is_the_polynomial_over_the_bytes() {
    assert_eq!(IrLifter::hash_bytes(b""), 0xcbf29ce484222325);
    let expected = 0xcbf29ce484222325u64.wrapping_mul(0x100000001b3).wrapping_add(b'a' as u64);
    assert_eq!(IrLifter::hash_bytes(b"a"), expected);
    let mut lifter = IrLifter::new();
    assert_eq!(lifter.fresh_value(), "v0");
    assert_eq!(lifter.fresh_value(), "v1");
}

#[test]
fn string_map_keeps_the_last_value() {
    let mut m: StrMap<i64> = StrMap::new();
    assert!(!m.contains_key("k"));
    m.insert("k".to_string(), 1);
    m.insert("j".to_string(), 2);
    m.insert("k".to_string(), 3);
    assert_eq!(m.get("k"), Some(&3));
    assert_eq!(m.get("j"), Some(&2));
    assert_eq!(m.get("x"), None);
    let _ = AttrValue::Float(F64Bits(0));
}

#[test]
fn test_probe_always_succeeds() {
    for forced in [None, Some("amd"), Some("metal"), Some("vulkan"), Some("other")] {
        for kfd in [false, true] {
            for apple in [false, true] {
                let d = HardwareDetector::classify(forced, kfd, apple);
                let profile = HardwareDetector::profile_for(d, OperatingSystem::Linux);
                assert!(profile.vram_bytes > 0);
                assert!(profile.l2_cache_bytes > 0);
            }
        }
    }
}

#[test]
fn test_cpu_fallback_core_count() {
    let d = HardwareDetector::classify(None, false, false);
    assert_eq!(d, DetectedHardware::CpuOnly);
    if let TargetBackend::CpuVectorized { core_count, .. } = HardwareDetector::backend_for(d, 4, 128) {
        assert!(core_count >= 1);
    } else {
        panic!("the CPU fallback reports a vectorized CPU");
    }
}

#[test]
fn profile_figures_per_probe_result() {
    let gb: u64 = 1024 * 1024 * 1024;
    let mb: u64 = 1024 * 1024;
    let metal = HardwareDetector::profile_for(DetectedHardware::ForcedMetal, OperatingSystem::Windows);
    assert_eq!((metal.vram_bytes, metal.l2_cache_bytes), (96 * gb, 48 * mb));
    assert!(metal.tensor_core_support && metal.atomic_support);
    assert_eq!(metal.os, OperatingSystem::Windows);
    let rocm = HardwareDetector::profile_for(DetectedHardware::RocmDevice, OperatingSystem::Windows);
    assert_eq!((rocm.vram_bytes, rocm.l2_cache_bytes, rocm.tensor_core_support), (16 * gb, 4 * mb, false));
    assert_eq!(rocm.os, OperatingSystem::Linux);
    let apple = HardwareDetector::profile_for(DetectedHardware::AppleSilicon, OperatingSystem::Linux);
    assert_eq!(apple.os, OperatingSystem::MacOs);
    let cpu = HardwareDetector::profile_for(DetectedHardware::CpuOnly, OperatingSystem::MacOs);
    assert_eq!((cpu.vram_bytes, cpu.l2_cache_bytes, cpu.tensor_core_support), (8 * gb, mb, false));
    for d in ALL_DETECTED {
        assert!(HardwareDetector::profile_for(d, OperatingSystem::Linux).vram_bytes > 0);
    }
}

#[test]
fn active_layers_are_never_evicted() {
    let mut allocator = DuvasAllocator::new(1 << 30);
    let a = allocator.allocate(4096, false).unwrap();
    let b = allocator.allocate(4096, false).unwrap();
    let cmds = window_commands(&[a], &[], &[a, b]);
    assert_eq!(cmds, vec![PageCommand::Evict { virtual_addr: b }]);
    for cmd in cmds {
        apply_page_command(&mut allocator, cmd);
    }
    assert_eq!(allocator.get_domain(a), Some(MemoryDomain::LocalDevice));
    assert_eq!(allocator.get_domain(b), Some(MemoryDomain::Host));
}

#[test]
fn later_allocations_start_past_earlier_ones() {
    let mut allocator = DuvasAllocator::new(1 << 20);
    let a = allocator.allocate(5000, false).unwrap();
    allocator.free(a).unwrap();
    let b = allocator.allocate(10, true).unwrap();
    allocator.migrate(b, MemoryDomain::Host).unwrap();
    let c = allocator.allocate(1, false).unwrap();
    assert!(a >= VIRTUAL_BASE && a % 4096 == 0);
    assert!(b >= a + 8192);
    assert!(c >= b + 4096);
}
