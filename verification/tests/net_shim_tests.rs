use omnicompute::obfuscator::ControlFlowObfuscator;
use omnicompute::shim::{
    detect_virtual_devices, device_attribute, device_properties, hooked_symbols, record_call,
    status_lines, valid_ordinal, CallType, CuResult, CudaError, HardwareBackend, InterceptStats,
    KernelLaunch, StreamContext,
};
use omnicompute::tee::{TeeError, TeeSandbox, TeeType};

#[test]
fn test_control_flow_flattening() {
    let code = "kernel void test() {\n\tint x = 1;\n}";
    let flattened = ControlFlowObfuscator::flatten_control_flow(code);
    assert!(flattened.contains("dummy_pred"));
}

#[test]
fn test_tee_sandbox_init_and_crypt() {
    let sandbox = TeeSandbox::init().unwrap();

    let plain_data = b"FlashAttention-3-Parameters-Confidential";
    let encrypted = sandbox.encrypt_device_data(plain_data).unwrap();
    assert_ne!(plain_data.to_vec(), encrypted);

    let decrypted = sandbox.decrypt_device_data(&encrypted).unwrap();
    assert_eq!(plain_data.to_vec(), decrypted);
}

#[test]
fn test_attestation_verification() {
    let sandbox = TeeSandbox::init().unwrap();
    let report = sandbox.generate_attestation_report(b"user_session_nonce_123").unwrap();

    let is_valid = TeeSandbox::verify_report(&report).unwrap();
    assert!(is_valid);
}

#[test]
fn attestation_report_layout_and_rejections() {
    let sandbox = TeeSandbox::init().unwrap();
    assert_eq!(sandbox.tee_type, TeeType::Simulation);
    let report = sandbox.generate_attestation_report(b"n").unwrap();
    let mut expected = b"TEE_REPORT_HEADER".to_vec();
    expected.push(3);
    expected.push(b'n');
    assert_eq!(report, expected);

    assert_eq!(TeeSandbox::verify_report(b"TEE_REPORT_HEADER"), Err(TeeError::InvalidReportSize));
    assert_eq!(TeeSandbox::verify_report(b"TEE_REPORT_HEADEX\x01"), Err(TeeError::InvalidHeader));
    assert_eq!(TeeSandbox::verify_report(b"TEE_REPORT_HEADER\x07"), Err(TeeError::UnknownPlatform));
    assert_eq!(TeeSandbox::verify_report(b"TEE_REPORT_HEADER\x01"), Ok(true));
}

#[test]
fn ciphertext_is_nonce_data_and_tag_and_tampering_is_caught() {
    let sandbox = TeeSandbox::init().unwrap();
    let data = b"weights";
    let payload = sandbox.encrypt_device_data(data).unwrap();
    assert_eq!(payload.len(), 12 + data.len() + 16);
    assert_ne!(&payload[12..12 + data.len()], &data[..]);

    let mut tampered = payload.clone();
    tampered[14] ^= 1;
    assert_eq!(sandbox.decrypt_device_data(&tampered), Err(TeeError::DecryptionFailed));
    assert_eq!(sandbox.decrypt_device_data(&payload[..11]), Err(TeeError::InvalidCiphertextSize));
    assert_eq!(sandbox.decrypt_device_data(&payload[..20]), Err(TeeError::DecryptionFailed));

    let other = TeeSandbox::init().unwrap();
    assert_eq!(other.decrypt_device_data(&payload), Err(TeeError::DecryptionFailed));

    let empty = sandbox.encrypt_device_data(b"").unwrap();
    assert_eq!(empty.len(), 28);
    assert_eq!(sandbox.decrypt_device_data(&empty), Ok(Vec::new()));
}

#[test]
fn flattening_adds_opaque_predicates_after_entry_lines_only() {
    let plain = ControlFlowObfuscator::flatten_control_flow("a;\r\nb;\n");
    assert_eq!(plain, "// Flat control flow obfuscated by Omni-Net\na;\nb;");
    let kernel = ControlFlowObfuscator::flatten_control_flow("void f()\nx;");
    assert_eq!(
        kernel,
        "// Flat control flow obfuscated by Omni-Net\nvoid f()\n\t// Opaque predicates for obfuscation\n\
\tint dummy_pred = 0;\n\tfor(int dummy_i=0; dummy_i < 10; ++dummy_i) { dummy_pred += dummy_i * 3; }\nx;"
    );
    assert_eq!(ControlFlowObfuscator::flatten_control_flow(""), "// Flat control flow obfuscated by Omni-Net");
}

#[test]
fn test_record_call_stats() {
    let mut stats = InterceptStats::new();
    record_call(&mut stats, CallType::Launch, 0);
    record_call(&mut stats, CallType::Malloc, 4096);
    assert_eq!(stats.total_calls, 2);
    assert_eq!(stats.launch_calls, 1);
    assert_eq!(stats.malloc_calls, 1);
    assert_eq!(stats.bytes_allocated, 4096);
}

#[test]
fn copies_count_transferred_bytes_and_other_calls_only_the_total() {
    let mut stats = InterceptStats::new();
    record_call(&mut stats, CallType::Memcpy, 3 * 1024 * 1024);
    record_call(&mut stats, CallType::Other, 99);
    assert_eq!(stats.total_calls, 2);
    assert_eq!(stats.memcpy_calls, 1);
    assert_eq!(stats.bytes_transferred, 3 * 1024 * 1024);
    assert_eq!(stats.bytes_allocated, 0);
    let lines = status_lines(&stats, 35);
    assert_eq!(lines.len(), 10);
    assert_eq!(lines[3], "  Registered hooks : 35");
    assert_eq!(lines[4], "  Total API calls  : 2");
    assert_eq!(lines[8], "  Bytes transferred: 3 MB");
    assert_eq!(lines[0], lines[9]);
}

#[test]
fn test_virtual_devices_non_empty() {
    let devices = detect_virtual_devices();
    assert!(!devices.is_empty(), "Must expose at least one virtual device");
}

#[test]
fn test_virtual_device_fields() {
    let devices = detect_virtual_devices();
    let dev = &devices[0];
    assert_eq!(dev.index, 0);
    assert!(dev.total_memory > 0);
    assert_eq!(dev.compute_capability_major, 8);
}

#[test]
fn virtual_device_attributes_and_properties() {
    let dev = &detect_virtual_devices()[0];
    assert_eq!(dev.backend, HardwareBackend::CpuFallback);
    assert_eq!(dev.total_memory, 24 * 1024 * 1024 * 1024);
    assert_eq!(device_attribute(dev, 1), 1024);
    assert_eq!(device_attribute(dev, 4), 32);
    assert_eq!(device_attribute(dev, 14), 108);
    assert_eq!(device_attribute(dev, 16), 8);
    assert_eq!(device_attribute(dev, 17), 0);
    assert_eq!(device_attribute(dev, 39), 1);
    assert_eq!(device_attribute(dev, 75), 32);
    assert_eq!(device_attribute(dev, 5), 0);
    let p = device_properties(dev);
    assert_eq!(p.name, b"OmniCompute Virtual GPU 0 (Heterogeneous Backend)".to_vec());
    assert_eq!(p.total_global_mem, 24 * 1024 * 1024 * 1024);
    assert_eq!(p.max_grid_size, [2147483647, 65535, 65535]);
    assert_eq!(p.l2_cache_size, 40 * 1024 * 1024);
    assert!(valid_ordinal(1, 0));
    assert!(!valid_ordinal(1, 1));
    assert!(!valid_ordinal(1, -1));
}

#[test]
fn test_device_properties() {
    assert!(valid_ordinal(1, 0));
    let p = device_properties(&detect_virtual_devices()[0]);
    assert!(p.total_global_mem > 0);
    assert_eq!(p.major, 8);
}

#[test]
fn long_device_names_are_cut_to_255_bytes() {
    let mut dev = detect_virtual_devices().remove(0);
    dev.name = "x".repeat(300);
    assert_eq!(device_properties(&dev).name.len(), 255);
}

#[test]
fn test_dispatch_table_populated() {
    let table = hooked_symbols();
    assert!(table.contains(&"cudaMalloc"));
    assert!(table.contains(&"cuLaunchKernel"));
    assert!(table.contains(&"cuModuleLoad"));
    assert!(table.len() >= 30, "Expected at least 30 hooks");
}

#[test]
fn error_codes_and_names() {
    assert_eq!(CuResult::CUDA_ERROR_INVALID_CONTEXT.code(), 201);
    assert_eq!(CuResult::CUDA_ERROR_UNKNOWN.code(), 999);
    assert_eq!(CudaError::cudaErrorInvalidValue.error_string(), "invalid argument");
    assert_eq!(CudaError::cudaErrorMemoryAllocation.error_name(), "cudaErrorMemoryAllocation");
}

#[test]
fn streams_queue_launches_until_synchronized() {
    let mut stream = StreamContext::new(7);
    assert!(stream.synchronized);
    stream.enqueue(KernelLaunch { kernel_id: 1, grid_dim: (1, 1, 1), block_dim: (32, 1, 1), shared_mem_bytes: 0, args: Vec::new() });
    assert!(!stream.synchronized);
    assert_eq!(stream.pending_kernels.len(), 1);
    stream.synchronize();
    assert!(stream.synchronized);
    assert!(stream.pending_kernels.is_empty());
    assert_eq!(stream.handle, 7);
}

#[test]
fn runtime_error_codes_read_back_as_the_same_error() {
    let all = [
        CudaError::cudaSuccess,
        CudaError::cudaErrorInvalidValue,
        CudaError::cudaErrorMemoryAllocation,
        CudaError::cudaErrorInitializationError,
        CudaError::cudaErrorInvalidDevice,
        CudaError::cudaErrorInvalidMemcpyDirection,
        CudaError::cudaErrorNoDevice,
        CudaError::cudaErrorNotReady,
        CudaError::cudaErrorUnknown,
    ];
    for e in all {
        assert_eq!(CudaError::from_code(e.code()), e);
    }
    assert_eq!(CudaError::from_code(12345), CudaError::cudaErrorUnknown);
    assert_eq!(CudaError::cudaErrorInvalidDevice.code(), 10);
}

#[test]
fn each_encryption_draws_a_fresh_nonce() {
    let sandbox = TeeSandbox::init().unwrap();
    let a = sandbox.encrypt_device_data(b"same bytes").unwrap();
    let b = sandbox.encrypt_device_data(b"same bytes").unwrap();
    assert_ne!(a[..12], b[..12]);
    assert_eq!(sandbox.decrypt_device_data(&a).unwrap(), sandbox.decrypt_device_data(&b).unwrap());
}
