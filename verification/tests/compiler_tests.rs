use omnicompute::codegen::{CodeGenerator, CodegenError, SpirvCodegen};
use omnicompute::dialect::{AttrValue, ElementType, F64Bits, OmniModule, OmniOp, OpKind, TensorType};
use omnicompute::hardware::{HardwareDetector, OperatingSystem, TargetBackend};
use omnicompute::jit::{JitEngine, JitError};
use omnicompute::passes::{FoldStep, PassManager};
use omnicompute::router::TaskRouter;
use omnicompute::strmap::StrMap;

fn op(kind: OpKind, inputs: &[&str], output: &str, shape: Vec<i64>, element: ElementType) -> OmniOp {
    OmniOp {
        id: 0,
        kind,
        inputs: inputs.iter().map(|s| s.to_string()).collect(),
        output: output.to_string(),
        attrs: StrMap::new(),
        result_type: TensorType::static_tensor(shape, element),
    }
}

fn amd() -> TargetBackend {
    TargetBackend::AmdRocm { gfx_arch: "gfx1100".to_string(), wavefront_size: 32, compute_units: 96 }
}

fn vulkan() -> TargetBackend {
    TargetBackend::VulkanGeneric { device_name: "Mock Intel Arc GPU".to_string(), max_invocations: 1024 }
}

/// Folds with the values a float evaluator computes from the plan.
fn fold(pm: &PassManager, module: &mut OmniModule) -> Result<(), usize> {
    let plan = pm.constant_fold_plan(module)?;
    let mut values: Vec<f64> = Vec::new();
    for (i, step) in plan.iter().enumerate() {
        let v = match step {
            FoldStep::Constant => match &module.ops[i].kind {
                OpKind::Fill { value } => f64::from_bits(value.0),
                _ => 0.0,
            },
            FoldStep::Sum(a, b) => values[*a] + values[*b],
            FoldStep::Product(a, b) => values[*a] * values[*b],
            FoldStep::Keep => 0.0,
        };
        values.push(v);
    }
    let bits: Vec<F64Bits> = values.iter().map(|v| F64Bits(v.to_bits())).collect();
    pm.apply_constant_folding(module, &plan, &bits);
    Ok(())
}

#[test]
fn test_constant_folding() {
    let mut module = OmniModule::new();
    module.push_op(op(OpKind::Fill { value: F64Bits(2.5f64.to_bits()) }, &[], "v0", vec![1], ElementType::F32));
    module.push_op(op(OpKind::Add, &["v0", "v0"], "v1", vec![1], ElementType::F32));

    let pm = PassManager::new(amd());
    fold(&pm, &mut module).unwrap();

    assert_eq!(module.ops.len(), 2);
    assert_eq!(module.ops[1].kind, OpKind::Fill { value: F64Bits(5.0f64.to_bits()) });
}

#[test]
fn folding_plan_chains_constants_and_stops_at_short_inputs() {
    let mut module = OmniModule::new();
    module.push_op(op(OpKind::Fill { value: F64Bits(3.0f64.to_bits()) }, &[], "a", vec![1], ElementType::F32));
    module.push_op(op(OpKind::Fill { value: F64Bits(4.0f64.to_bits()) }, &[], "b", vec![1], ElementType::F32));
    module.push_op(op(OpKind::Mul, &["a", "b"], "c", vec![1], ElementType::F32));
    module.push_op(op(OpKind::Add, &["c", "x"], "d", vec![1], ElementType::F32));
    module.push_op(op(OpKind::Add, &["c", "a"], "e", vec![1], ElementType::F32));
    let pm = PassManager::new(amd());
    let plan = pm.constant_fold_plan(&module).unwrap();
    assert_eq!(
        plan,
        vec![FoldStep::Constant, FoldStep::Constant, FoldStep::Product(0, 1), FoldStep::Keep, FoldStep::Sum(2, 0)]
    );
    fold(&pm, &mut module).unwrap();
    assert_eq!(module.ops[2].kind, OpKind::Fill { value: F64Bits(12.0f64.to_bits()) });
    assert_eq!(module.ops[3].kind, OpKind::Add);
    assert_eq!(module.ops[4].kind, OpKind::Fill { value: F64Bits(15.0f64.to_bits()) });

    let mut stuck = OmniModule::new();
    stuck.push_op(op(OpKind::Fill { value: F64Bits(1.0f64.to_bits()) }, &[], "a", vec![1], ElementType::F32));
    stuck.push_op(op(OpKind::Add, &["a"], "b", vec![1], ElementType::F32));
    assert_eq!(pm.constant_fold_plan(&stuck), Err(1));
}

#[test]
fn test_operator_fusion() {
    let mut module = OmniModule::new();
    module.push_op(op(OpKind::MatMul, &["a", "b"], "c", vec![128, 128], ElementType::F32));
    module.push_op(op(OpKind::Relu, &["c"], "d", vec![128, 128], ElementType::F32));

    let pm = PassManager::new(amd());
    pm.run_operator_fusion(&mut module);

    assert_eq!(module.ops.len(), 1);
    assert_eq!(module.ops[0].output, "d");
    assert!(module.ops[0].attrs.contains_key("fused_activation"));
}

#[test]
fn fusion_of_an_addition_keeps_its_other_inputs() {
    let mut module = OmniModule::new();
    module.push_op(op(OpKind::BatchedMatMul, &["a", "b"], "c", vec![4], ElementType::F16));
    module.push_op(op(OpKind::Add, &["c", "bias"], "d", vec![4], ElementType::F16));
    module.push_op(op(OpKind::MatMul, &["d", "w"], "e", vec![4], ElementType::F16));
    module.push_op(op(OpKind::Gelu, &["zzz"], "f", vec![4], ElementType::F16));
    let pm = PassManager::new(amd());
    pm.run_operator_fusion(&mut module);
    assert_eq!(module.ops.len(), 3);
    assert_eq!(module.ops[0].inputs, vec!["a".to_string(), "b".to_string(), "bias".to_string()]);
    assert_eq!(module.ops[0].output, "d");
    assert_eq!(module.ops[0].attrs.get("fused_activation"), Some(&AttrValue::String("Add".to_string())));
    assert_eq!(module.ops[1].kind, OpKind::MatMul);
    assert_eq!(module.ops[2].kind, OpKind::Gelu);
}

#[test]
fn tiling_uses_the_backend_tile_edge() {
    for (backend, edge) in [
        (amd(), 64),
        (TargetBackend::AppleMetal { chip_name: "M3".to_string(), unified_memory_bytes: 1, gpu_cores: 1 }, 32),
        (vulkan(), 16),
        (TargetBackend::CpuVectorized { core_count: 4, simd_width: 128 }, 8),
    ] {
        let mut module = OmniModule::new();
        module.push_op(op(OpKind::MatMul, &["a", "b"], "c", vec![4], ElementType::F16));
        module.push_op(op(OpKind::Relu, &["c"], "d", vec![4], ElementType::F16));
        let pm = PassManager::new(backend);
        pm.run_loop_tiling(&mut module);
        assert_eq!(module.ops[0].attrs.get("tile_m"), Some(&AttrValue::Int(edge)));
        assert_eq!(module.ops[0].attrs.get("tile_n"), Some(&AttrValue::Int(edge)));
        assert_eq!(module.ops[0].attrs.get("tile_k"), Some(&AttrValue::Int(16)));
        assert_eq!(module.ops[0].attrs.get("vector_width"), Some(&AttrValue::Int(4)));
        assert!(!module.ops[1].attrs.contains_key("tile_m"));
    }
}

#[test]
fn dead_code_elimination_keeps_what_the_root_reads() {
    let mut module = OmniModule::new();
    module.push_op(op(OpKind::Relu, &["in"], "a", vec![4], ElementType::F32));
    module.push_op(op(OpKind::Relu, &["in"], "unused", vec![4], ElementType::F32));
    module.push_op(op(OpKind::Add, &["a", "in"], "out", vec![4], ElementType::F32));
    let pm = PassManager::new(amd());
    pm.run_dce(&mut module);
    let outputs: Vec<&str> = module.ops.iter().map(|o| o.output.as_str()).collect();
    assert_eq!(outputs, vec!["a", "out"]);
    let mut empty = OmniModule::new();
    pm.run_dce(&mut empty);
    assert_eq!(empty.op_count(), 0);
}

#[test]
fn dead_code_elimination_roots_at_the_last_operation_whatever_its_id() {
    let pm = PassManager::new(amd());
    let mut module = OmniModule::new();
    let mut only = op(OpKind::Relu, &["x"], "y", vec![4], ElementType::F32);
    only.id = 5;
    module.ops.push(only);
    pm.run_dce(&mut module);
    assert_eq!(module.ops.len(), 1);
    assert_eq!(module.ops[0].output, "y");

    let mut fused = OmniModule::new();
    fused.push_op(op(OpKind::Relu, &["in"], "a", vec![4], ElementType::F32));
    fused.push_op(op(OpKind::MatMul, &["a", "w"], "c", vec![4], ElementType::F32));
    fused.push_op(op(OpKind::Relu, &["c"], "d", vec![4], ElementType::F32));
    pm.run_operator_fusion(&mut fused);
    assert_eq!(fused.ops.len(), 2);
    pm.run_dce(&mut fused);
    let outputs: Vec<&str> = fused.ops.iter().map(|o| o.output.as_str()).collect();
    assert_eq!(outputs, vec!["a", "d"]);
}

#[test]
fn shader_for_a_relu_has_its_exact_text() {
    let mut module = OmniModule::new();
    module.push_op(op(OpKind::Relu, &["x"], "y", vec![4], ElementType::F32));
    let codegen = SpirvCodegen::new(vulkan());
    let kernel = codegen.generate(&module).unwrap();
    assert_eq!(kernel.name, "omni_relu_0");
    assert_eq!(kernel.block_size, [256, 1, 1]);
    let expected = "#version 450 core\n\
#extension GL_EXT_shader_explicit_arithmetic_types_float16 : enable\n\
#extension GL_EXT_shader_explicit_arithmetic_types_int64 : enable\n\n\
layout(local_size_x = 256, local_size_y = 1, local_size_z = 1) in;\n\n\
layout(std430, binding = 0) readonly buffer BufferX { float x[]; };\n\
layout(std430, binding = 1) writeonly buffer BufferY { float y[]; };\n\n\
layout(push_constant) uniform Params { int n; } params;\n\n\
void main() {\n\
\tint idx = int(gl_GlobalInvocationID.x);\n\
\tif (idx < params.n) {\n\
\t\ty[idx] = max(x[idx], float(0.0));\n\
\t}\n\
}\n";
    assert_eq!(String::from_utf8(kernel.payload).unwrap(), expected);
}

#[test]
fn shader_for_a_fused_matmul_uses_tiles_and_activation() {
    let mut module = OmniModule::new();
    module.push_op(op(OpKind::MatMul, &["a", "b"], "c", vec![4], ElementType::I64));
    module.push_op(op(OpKind::Silu, &["c"], "d", vec![4], ElementType::I64));
    let pm = PassManager::new(amd());
    pm.run_operator_fusion(&mut module);
    pm.run_loop_tiling(&mut module);
    let kernel = SpirvCodegen::new(amd()).generate(&module).unwrap();
    let text = String::from_utf8(kernel.payload).unwrap();
    assert_eq!(kernel.name, "omni_matmul_0");
    assert_eq!(kernel.block_size, [16, 16, 1]);
    assert!(text.contains("shared int64_t sA[64][16];\nshared int64_t sB[16][64];\n"));
    assert!(text.contains("\tint row = int(gl_WorkGroupID.y) * 64 + ty;\n"));
    assert!(text.contains("\t\tsum = sum / (float16_t(1.0) + exp(-sum));\n\t\tC[row * params.N + col] = sum;\n\t}\n}\n"));
    assert!(text.ends_with("\t\tC[row * params.N + col] = sum;\n\t}\n}\n"));
}

#[test]
fn shader_for_an_opaque_kernel_names_its_hash_in_hex() {
    let mut module = OmniModule::new();
    module.push_op(op(OpKind::Opaque { ptx_hash: 0xdeadbeef }, &[], "o", vec![1], ElementType::F32));
    module.push_op(op(OpKind::Add, &["o", "o"], "p", vec![1], ElementType::BF16));
    let kernel = SpirvCodegen::new(vulkan()).generate(&module).unwrap();
    let text = String::from_utf8(kernel.payload).unwrap();
    assert!(text.contains("// Fallback opaque block for PTX hash: 0xdeadbeef\n"));
    assert!(text.contains("readonly buffer BufferA { float16_t a[]; };"));
    assert_eq!(kernel.name, "omni_add_1");
    assert_eq!(kernel.block_size, [256, 1, 1]);
}

#[test]
fn empty_module_gives_the_preamble_only() {
    let module = OmniModule::new();
    let kernel = SpirvCodegen::new(vulkan()).generate(&module).unwrap();
    assert_eq!(kernel.name, "omni_kernel");
    assert_eq!(kernel.block_size, [16, 16, 1]);
    assert_eq!(
        String::from_utf8(kernel.payload).unwrap(),
        "#version 450 core\n#extension GL_EXT_shader_explicit_arithmetic_types_float16 : enable\n\
#extension GL_EXT_shader_explicit_arithmetic_types_int64 : enable\n\n"
    );
}

#[test]
fn codegen_reports_the_first_unsupported_operation() {
    let mut module = OmniModule::new();
    module.push_op(op(OpKind::Relu, &["x"], "y", vec![4], ElementType::F32));
    module.push_op(op(OpKind::Softmax { axis: -1 }, &["y"], "z", vec![4], ElementType::F32));
    module.push_op(op(OpKind::Gelu, &["z"], "w", vec![4], ElementType::F32));
    let r = SpirvCodegen::new(vulkan()).generate(&module);
    assert_eq!(r.err(), Some(CodegenError::UnsupportedOp { index: 1 }));
}

#[test]
fn test_jit_compilation_cache() {
    let mut engine = JitEngine::new(&vulkan()).unwrap();
    let fake_ptx = b".version 8.0\n.target sm_90\n mma.sync.aligned.m16n8k16 ";

    let kernel1 = engine.compile_ptx(fake_ptx, 42).unwrap();
    assert!(kernel1.name.contains("matmul"));

    let kernel2 = engine.compile_ptx(fake_ptx, 42).unwrap();
    assert_eq!(kernel1.name, kernel2.name);
    assert_eq!(kernel1.payload, kernel2.payload);
}

#[test]
fn test_end_to_end_jit_pipeline() {
    let detected = HardwareDetector::classify(None, false, false);
    let backend = HardwareDetector::backend_for(detected, 4, 128);
    assert!(
        matches!(backend, TargetBackend::AmdRocm { .. } | TargetBackend::AppleMetal { .. } | TargetBackend::VulkanGeneric { .. } | TargetBackend::CpuVectorized { .. }),
        "Expected valid hardware backend"
    );
    let profile = HardwareDetector::profile_for(detected, OperatingSystem::Linux);
    let mut allocator = omnicompute::allocator::DuvasAllocator::new(profile.vram_bytes as usize);
    let ptr = allocator.allocate(1024, false).unwrap();
    assert!(ptr > 0);

    let mut engine = JitEngine::new(&backend).unwrap();
    let binary = engine.compile_ptx(b"dummy ptx payload", 1).unwrap();
    assert!(!binary.payload.is_empty(), "JIT compilation produced empty payload");
    assert_eq!(binary.name, "omni_fallback_0");

    allocator.free(ptr).unwrap();
}

#[test]
fn jit_tiles_matmul_for_the_cpu_and_caches_per_payload() {
    let mut engine = JitEngine::new(&TargetBackend::CpuVectorized { core_count: 2, simd_width: 128 }).unwrap();
    let k = engine.compile_ptx(b"wmma.load", 7).unwrap();
    let text = String::from_utf8(k.payload.clone()).unwrap();
    assert!(text.contains("shared float16_t sA[8][16];"));
    assert!(!text.contains("sum = max"));
    // A different kernel id is a different cache entry, compiled the same way.
    let k2 = engine.compile_ptx(b"wmma.load", 8).unwrap();
    assert_eq!(k2.payload, k.payload);
    engine.clear_cache();
    let k3 = engine.compile_ptx(b"wmma.load", 7).unwrap();
    assert_eq!(k3.payload, k.payload);
}

#[test]
fn jit_answer_stays_across_other_compiles() {
    let mut engine = JitEngine::new(&vulkan()).unwrap();
    let first = engine.compile_ptx(b"mma.sync", 3).unwrap();
    let other = engine.compile_ptx(b"dummy ptx payload", 4).unwrap();
    assert_eq!(other.name, "omni_fallback_0");
    let failed = engine.compile_ptx(b"ex2.approx", 5);
    assert!(failed.is_err());
    let again = engine.compile_ptx(b"mma.sync", 3).unwrap();
    assert_eq!(again.name, first.name);
    assert_eq!(again.payload, first.payload);
    assert_eq!(again.block_size, first.block_size);
}

#[test]
fn jit_errors_for_unlowerable_kernels_and_missing_backends() {
    let mut engine = JitEngine::new(&vulkan()).unwrap();
    let r = engine.compile_ptx(b"ex2.approx div.approx", 1);
    assert_eq!(r.err(), Some(JitError::Codegen(CodegenError::UnsupportedOp { index: 0 })));
    let mut amd_engine = JitEngine::new(&amd()).unwrap();
    assert_eq!(amd_engine.compile_ptx(b"mma.sync", 1).err(), Some(JitError::NoCodegenForBackend));
}

#[test]
fn test_blind_splitting() {
    let mut module = OmniModule::new();
    module.push_op(op(OpKind::Gather { axis: 0 }, &["tokens", "weights"], "v0", vec![1, 4096], ElementType::F32));
    module.push_op(op(OpKind::MatMul, &["v0", "layer1"], "v1", vec![1, 4096], ElementType::F32));

    let router = TaskRouter::new();
    let (local, global) = router.blind_split(&module);

    assert_eq!(local.len(), 1);
    assert_eq!(local[0].kind, OpKind::Gather { axis: 0 });

    assert_eq!(global.len(), 1);
    assert_eq!(global[0].kind, OpKind::MatMul);
}

#[test]
fn blind_split_keeps_order_and_copies_content() {
    let mut module = OmniModule::new();
    module.push_op(op(OpKind::Softmax { axis: 1 }, &["a"], "s", vec![2], ElementType::F32));
    module.push_op(op(OpKind::Add, &["s", "b"], "t", vec![2], ElementType::F32));
    module.push_op(op(OpKind::ReduceSum { axes: vec![0, 1], keep_dims: true }, &["t"], "u", vec![1], ElementType::F32));
    module.push_op(op(OpKind::Mul, &["u", "u"], "w", vec![1], ElementType::F32));
    module.ops[1].attrs.insert("note".to_string(), AttrValue::IntList(vec![3, 4]));
    let (local, global) = TaskRouter::new().blind_split(&module);
    assert_eq!(local.iter().map(|o| o.output.as_str()).collect::<Vec<_>>(), vec!["s", "u"]);
    assert_eq!(global.iter().map(|o| o.output.as_str()).collect::<Vec<_>>(), vec!["t", "w"]);
    assert_eq!(local[1].kind, OpKind::ReduceSum { axes: vec![0, 1], keep_dims: true });
    assert_eq!(global[0].attrs.get("note"), Some(&AttrValue::IntList(vec![3, 4])));
    assert_eq!(global[0].inputs, vec!["s".to_string(), "b".to_string()]);
    assert_eq!(global[1].id, 3);
}
