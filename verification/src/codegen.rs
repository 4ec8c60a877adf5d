//! Lowering of `omni.tensor` modules to Vulkan GLSL compute shaders for
//! SPIR-V targets: one shader stage per operation, with tiled shared-memory
//! matrix multiplication and element-wise kernels.
use crate::dialect::{AttrValue, ElementType, OmniModule, OmniOp, OpKind};
use crate::hardware::TargetBackend;
use crate::text::{
    decimal, lower_hex, owned, push_decimal, push_hex, push_signed_decimal, push_str,
    signed_decimal, str_eq,
};
use vstd::prelude::*;
use vstd::string::*;
use vstd::utf8::encode_utf8;

verus! {

/// The output of code generation.
#[derive(Debug, Clone)]
pub struct GeneratedKernel {
    /// Name of the kernel entry point.
    pub name: String,
    /// Generated shader source or binary payload.
    pub payload: Vec<u8>,
    /// Workgroup size hint `[x, y, z]`.
    pub block_size: [u32; 3],
}

/// The content of a generated kernel: name, payload and workgroup size.
pub struct KernelView {
    pub name: Seq<char>,
    pub payload: Seq<u8>,
    pub block_size: Seq<u32>,
}

impl View for GeneratedKernel {
    type V = KernelView;

    open spec fn view(&self) -> KernelView {
        KernelView { name: self.name@, payload: self.payload@, block_size: self.block_size@ }
    }
}

impl GeneratedKernel {
    /// A copy with the same content.
    pub fn deep_copy(&self) -> (r: Self)
        ensures
            r@ == self@,
    {
        let mut payload: Vec<u8> = Vec::new();
        let mut i: usize = 0;
        while i < self.payload.len()
            invariant
                i <= self.payload@.len(),
                payload@ == self.payload@.take(i as int),
            decreases self.payload@.len() - i,
        {
            payload.push(self.payload[i]);
            i = i + 1;
        }
        assert(payload@ =~= self.payload@);
        let block_size: [u32; 3] = [self.block_size[0], self.block_size[1], self.block_size[2]];
        assert(block_size@ =~= self.block_size@);
        GeneratedKernel { name: self.name.clone(), payload, block_size }
    }
}

/// Why code generation failed.
#[derive(Debug, Clone, Copy, PartialEq, Eq, Structural)]
pub enum CodegenError {
    /// The operation at this index has a kind the generator cannot lower.
    UnsupportedOp { index: usize },
}

/// A backend that lowers modules to kernels.
pub trait CodeGenerator {
    /// Lowers a module into a kernel for the backend.
    fn generate(&self, module: &OmniModule) -> Result<GeneratedKernel, CodegenError>;
}

/// The GLSL spelling of an element type.
pub open spec fn glsl_type(t: ElementType) -> Seq<char> {
    match t {
        ElementType::U8 => "uint"@,
        ElementType::I8 | ElementType::I16 | ElementType::I32 => "int"@,
        ElementType::I64 => "int64_t"@,
        ElementType::F16 | ElementType::BF16 => "float16_t"@,
        ElementType::F32 => "float"@,
        ElementType::F64 => "double"@,
        _ => "float"@,
    }
}

/// The integer attribute under `key`, or `default` when it is absent or not
/// an integer.
pub open spec fn int_attr_or(attrs: Map<Seq<char>, AttrValue>, key: Seq<char>, default: i64) -> i64 {
    if attrs.contains_key(key) {
        match attrs[key] {
            AttrValue::Int(v) => v,
            _ => default,
        }
    } else {
        default
    }
}

/// The line that applies a fused activation to the accumulator, or nothing
/// when no known activation was fused.
pub open spec fn activation_line(attrs: Map<Seq<char>, AttrValue>) -> Seq<char> {
    if attrs.contains_key("fused_activation"@) {
        match attrs["fused_activation"@] {
            AttrValue::String(a) => if a@ == "Relu"@ {
                "\t\tsum = max(sum, float16_t(0.0));\n"@
            } else if a@ == "Gelu"@ {
                "\t\tsum = sum * float16_t(0.5) * (float16_t(1.0) + erf(sum * float16_t(0.70710678)));\n"@
            } else if a@ == "Silu"@ {
                "\t\tsum = sum / (float16_t(1.0) + exp(-sum));\n"@
            } else {
                seq![]
            },
            _ => seq![],
        }
    } else {
        seq![]
    }
}

/// The opening of a tiled matrix multiplication shader, up to the store guard.
#[verifier::opaque]
pub open spec fn matmul_prologue(dt: Seq<char>, tm: i64, tn: i64, tk: i64) -> Seq<char> {
    "layout(local_size_x = 16, local_size_y = 16, local_size_z = 1) in;\n\nlayout(std430, binding = 0) readonly buffer BufferA { "@
        + dt
        + " A[]; };\nlayout(std430, binding = 1) readonly buffer BufferB { "@
        + dt
        + " B[]; };\nlayout(std430, binding = 2) writeonly buffer BufferC { "@
        + dt
        + " C[]; };\n\nlayout(push_constant) uniform Params {\n\tint M; int N; int K;\n} params;\n\nshared "@
        + dt
        + " sA["@
        + signed_decimal(tm as int)
        + "]["@
        + signed_decimal(tk as int)
        + "];\nshared "@
        + dt
        + " sB["@
        + signed_decimal(tk as int)
        + "]["@
        + signed_decimal(tn as int)
        + "];\n\nvoid main() {\n\tint tx = int(gl_LocalInvocationID.x);\n\tint ty = int(gl_LocalInvocationID.y);\n\tint row = int(gl_WorkGroupID.y) * "@
        + signed_decimal(tm as int)
        + " + ty;\n\tint col = int(gl_WorkGroupID.x) * "@
        + signed_decimal(tn as int)
        + " + tx;\n\n\t"@
        + dt
        + " sum = "@
        + dt
        + "(0.0);\n\n\tfor (int ph = 0; ph < (params.K + "@
        + signed_decimal(tk as int)
        + " - 1) / "@
        + signed_decimal(tk as int)
        + "; ++ph) {\n\t\tif (row < params.M && ph * "@
        + signed_decimal(tk as int)
        + " + tx < params.K) {\n\t\t\tsA[ty][tx] = A[row * params.K + ph * "@
        + signed_decimal(tk as int)
        + " + tx];\n\t\t} else {\n\t\t\tsA[ty][tx] = "@
        + dt
        + "(0.0);\n\t\t}\n\n\t\tif (ph * "@
        + signed_decimal(tk as int)
        + " + ty < params.K && col < params.N) {\n\t\t\tsB[ty][tx] = B[(ph * "@
        + signed_decimal(tk as int)
        + " + ty) * params.N + col];\n\t\t} else {\n\t\t\tsB[ty][tx] = "@
        + dt
        + "(0.0);\n\t\t}\n\n\t\tbarrier();\n\n\t\tfor (int k = 0; k < "@
        + signed_decimal(tk as int)
        + "; ++k) {\n\t\t\tsum += sA[ty][k] * sB[k][tx];\n\t\t}\n\n\t\tbarrier();\n\t}\n\n\tif (row < params.M && col < params.N) {\n"@
}

/// The element-wise ReLU shader.
#[verifier::opaque]
pub open spec fn relu_shader(dt: Seq<char>) -> Seq<char> {
    "layout(local_size_x = 256, local_size_y = 1, local_size_z = 1) in;\n\nlayout(std430, binding = 0) readonly buffer BufferX { "@
        + dt
        + " x[]; };\nlayout(std430, binding = 1) writeonly buffer BufferY { "@
        + dt
        + " y[]; };\n\nlayout(push_constant) uniform Params { int n; } params;\n\nvoid main() {\n\tint idx = int(gl_GlobalInvocationID.x);\n\tif (idx < params.n) {\n\t\ty[idx] = max(x[idx], "@
        + dt
        + "(0.0));\n\t}\n}\n"@
}

/// The element-wise addition shader.
#[verifier::opaque]
pub open spec fn add_shader(dt: Seq<char>) -> Seq<char> {
    "layout(local_size_x = 256, local_size_y = 1, local_size_z = 1) in;\n\nlayout(std430, binding = 0) readonly buffer BufferA { "@
        + dt
        + " a[]; };\nlayout(std430, binding = 1) readonly buffer BufferB { "@
        + dt
        + " b[]; };\nlayout(std430, binding = 2) writeonly buffer BufferC { "@
        + dt
        + " c[]; };\n\nlayout(push_constant) uniform Params { int n; } params;\n\nvoid main() {\n\tint idx = int(gl_GlobalInvocationID.x);\n\tif (idx < params.n) {\n\t\tc[idx] = a[idx] + b[idx];\n\t}\n}\n"@
}

/// The pass-through shader that stands in for an opaque PTX kernel.
#[verifier::opaque]
pub open spec fn fallback_shader(h: u64) -> Seq<char> {
    "// Fallback opaque block for PTX hash: 0x"@
        + lower_hex(h as nat)
        + "\nlayout(local_size_x = 256, local_size_y = 1, local_size_z = 1) in;\nlayout(std430, binding = 0) readonly buffer BufferIn { float A[]; };\nlayout(std430, binding = 1) writeonly buffer BufferOut { float B[]; };\nlayout(push_constant) uniform Params { int n; } params;\n\nvoid main() {\n\tint idx = int(gl_GlobalInvocationID.x);\n\tif (idx < params.n) B[idx] = A[idx];\n}\n"@
}

/// The closing of a matrix multiplication shader: the store of the
/// accumulator.
pub open spec fn matmul_epilogue() -> Seq<char> {
    "\t\tC[row * params.N + col] = sum;\n\t}\n}\n"@
}

/// The whole shader of a matrix multiplication: tile sizes from the
/// `tile_m`, `tile_n`, `tile_k` attributes (16 when absent), then the fused
/// activation, then the store.
pub open spec fn matmul_shader(op: OmniOp) -> Seq<char> {
    matmul_prologue(
        glsl_type(op.result_type.element_type),
        int_attr_or(op.attrs@, "tile_m"@, 16),
        int_attr_or(op.attrs@, "tile_n"@, 16),
        int_attr_or(op.attrs@, "tile_k"@, 16),
    ) + activation_line(op.attrs@) + matmul_epilogue()
}

/// A lowered operation: kernel name, shader text and workgroup size.
pub struct Lowered {
    pub name: Seq<char>,
    pub text: Seq<char>,
    pub block: Seq<u32>,
}

/// How the generator lowers one operation; `None` for kinds it does not
/// support.
#[verifier::opaque]
pub open spec fn lowered(op: OmniOp) -> Option<Lowered> {
    match op.kind {
        OpKind::MatMul | OpKind::BatchedMatMul => Some(
            Lowered {
                name: "omni_matmul_"@ + decimal(op.id as nat),
                text: matmul_shader(op),
                block: seq![16u32, 16u32, 1u32],
            },
        ),
        OpKind::Relu => Some(
            Lowered {
                name: "omni_relu_"@ + decimal(op.id as nat),
                text: relu_shader(glsl_type(op.result_type.element_type)),
                block: seq![256u32, 1u32, 1u32],
            },
        ),
        OpKind::Add => Some(
            Lowered {
                name: "omni_add_"@ + decimal(op.id as nat),
                text: add_shader(glsl_type(op.result_type.element_type)),
                block: seq![256u32, 1u32, 1u32],
            },
        ),
        OpKind::Opaque { ptx_hash } => Some(
            Lowered {
                name: "omni_fallback_"@ + decimal(op.id as nat),
                text: fallback_shader(ptx_hash),
                block: seq![256u32, 1u32, 1u32],
            },
        ),
        _ => None,
    }
}

/// The preamble every shader starts with.
pub open spec fn glsl_preamble() -> Seq<char> {
    "#version 450 core\n"@ + "#extension GL_EXT_shader_explicit_arithmetic_types_float16 : enable\n"@
        + "#extension GL_EXT_shader_explicit_arithmetic_types_int64 : enable\n\n"@
}

/// The shader source of a list of lowerable operations: the preamble, then
/// each operation's stage in order.
pub open spec fn shader_source(ops: Seq<OmniOp>) -> Seq<char>
    decreases ops.len(),
{
    if ops.len() == 0 {
        glsl_preamble()
    } else {
        shader_source(ops.drop_last()) + lowered(ops.last()).unwrap().text
    }
}

/// Whether every operation can be lowered.
pub open spec fn all_lowerable(ops: Seq<OmniOp>) -> bool {
    forall|i: int| 0 <= i < ops.len() ==> (#[trigger] lowered(ops[i])) is Some
}

/// The kernel name: that of the last operation, `omni_kernel` for an empty
/// module.
pub open spec fn kernel_name(ops: Seq<OmniOp>) -> Seq<char> {
    if ops.len() == 0 {
        "omni_kernel"@
    } else {
        lowered(ops.last()).unwrap().name
    }
}

/// The workgroup size: that of the last operation, `[16, 16, 1]` for an
/// empty module.
pub open spec fn kernel_block(ops: Seq<OmniOp>) -> Seq<u32> {
    if ops.len() == 0 {
        seq![16u32, 16u32, 1u32]
    } else {
        lowered(ops.last()).unwrap().block
    }
}

/// Whether the attributes name `act` as the fused activation.
pub open spec fn fused_activation_is(attrs: Map<Seq<char>, AttrValue>, act: Seq<char>) -> bool {
    &&& attrs.contains_key("fused_activation"@)
    &&& attrs["fused_activation"@] matches AttrValue::String(a) && a@ == act
}

/// A matrix multiplication stage applies its fused activation to the
/// accumulator right before storing it: ReLU, GELU and SiLU each add their
/// own line between the tiled loop and the store of `sum`, and any other (or
/// no) fused activation adds nothing, so the raw product is stored.
pub proof fn law_matmul_applies_activation_before_store(op: OmniOp)
    requires
        op.kind == OpKind::MatMul || op.kind == OpKind::BatchedMatMul,
    ensures
        lowered(op) is Some,
        ({
            let text = lowered(op).unwrap().text;
            let pre = matmul_prologue(
                glsl_type(op.result_type.element_type),
                int_attr_or(op.attrs@, "tile_m"@, 16),
                int_attr_or(op.attrs@, "tile_n"@, 16),
                int_attr_or(op.attrs@, "tile_k"@, 16),
            );
            let store = "\t\tC[row * params.N + col] = sum;\n\t}\n}\n"@;
            &&& fused_activation_is(op.attrs@, "Relu"@) ==> text == pre
                + "\t\tsum = max(sum, float16_t(0.0));\n"@ + store
            &&& fused_activation_is(op.attrs@, "Gelu"@) ==> text == pre
                + "\t\tsum = sum * float16_t(0.5) * (float16_t(1.0) + erf(sum * float16_t(0.70710678)));\n"@
                + store
            &&& fused_activation_is(op.attrs@, "Silu"@) ==> text == pre
                + "\t\tsum = sum / (float16_t(1.0) + exp(-sum));\n"@ + store
            &&& !fused_activation_is(op.attrs@, "Relu"@) && !fused_activation_is(op.attrs@, "Gelu"@)
                && !fused_activation_is(op.attrs@, "Silu"@) ==> text == pre + store
        }),
{
    reveal(lowered);
    reveal_strlit("Relu");
    reveal_strlit("Gelu");
    reveal_strlit("Silu");
    reveal_strlit("\t\tC[row * params.N + col] = sum;\n\t}\n}\n");
    let pre = matmul_prologue(
        glsl_type(op.result_type.element_type),
        int_attr_or(op.attrs@, "tile_m"@, 16),
        int_attr_or(op.attrs@, "tile_n"@, 16),
        int_attr_or(op.attrs@, "tile_k"@, 16),
    );
    assert("Gelu"@[0] != "Relu"@[0] && "Silu"@[0] != "Relu"@[0] && "Silu"@[0] != "Gelu"@[0]);
    let line = activation_line(op.attrs@);
    let store = "\t\tC[row * params.N + col] = sum;\n\t}\n}\n"@;
    assert(lowered(op).unwrap().text == pre + line + matmul_epilogue());
    assert(matmul_epilogue() == store);
    if fused_activation_is(op.attrs@, "Relu"@) {
        assert(line == "\t\tsum = max(sum, float16_t(0.0));\n"@);
    }
    if fused_activation_is(op.attrs@, "Gelu"@) {
        assert(line == "\t\tsum = sum * float16_t(0.5) * (float16_t(1.0) + erf(sum * float16_t(0.70710678)));\n"@);
    }
    if fused_activation_is(op.attrs@, "Silu"@) {
        assert(line == "\t\tsum = sum / (float16_t(1.0) + exp(-sum));\n"@);
    }
    if !fused_activation_is(op.attrs@, "Relu"@) && !fused_activation_is(op.attrs@, "Gelu"@)
        && !fused_activation_is(op.attrs@, "Silu"@) {
        assert(line == Seq::<char>::empty());
        assert(pre + line =~= pre);
    }
}

/// What the generator returns for a list of operations: the kernel, or the
/// first operation it cannot lower.
pub open spec fn generate_spec(ops: Seq<OmniOp>, r: Result<GeneratedKernel, CodegenError>) -> bool {
    match r {
        Ok(k) => {
            &&& all_lowerable(ops)
            &&& k.name@ == kernel_name(ops)
            &&& k.payload@ == encode_utf8(shader_source(ops))
            &&& k.block_size@ == kernel_block(ops)
        },
        Err(CodegenError::UnsupportedOp { index }) => {
            &&& index < ops.len()
            &&& lowered(ops[index as int]) is None
            &&& all_lowerable(ops.take(index as int))
        },
    }
}

fn build_matmul_prologue(dt: &str, tm: i64, tn: i64, tk: i64) -> (r: String)
    ensures
        r@ == matmul_prologue(dt@, tm, tn, tk),
{
    reveal(matmul_prologue);
    let mut t = owned("layout(local_size_x = 16, local_size_y = 16, local_size_z = 1) in;\n\nlayout(std430, binding = 0) readonly buffer BufferA { ");
    push_str(&mut t, dt);
    push_str(&mut t, " A[]; };\nlayout(std430, binding = 1) readonly buffer BufferB { ");
    push_str(&mut t, dt);
    push_str(&mut t, " B[]; };\nlayout(std430, binding = 2) writeonly buffer BufferC { ");
    push_str(&mut t, dt);
    push_str(&mut t, " C[]; };\n\nlayout(push_constant) uniform Params {\n\tint M; int N; int K;\n} params;\n\nshared ");
    push_str(&mut t, dt);
    push_str(&mut t, " sA[");
    push_signed_decimal(&mut t, tm);
    push_str(&mut t, "][");
    push_signed_decimal(&mut t, tk);
    push_str(&mut t, "];\nshared ");
    push_str(&mut t, dt);
    push_str(&mut t, " sB[");
    push_signed_decimal(&mut t, tk);
    push_str(&mut t, "][");
    push_signed_decimal(&mut t, tn);
    push_str(&mut t, "];\n\nvoid main() {\n\tint tx = int(gl_LocalInvocationID.x);\n\tint ty = int(gl_LocalInvocationID.y);\n\tint row = int(gl_WorkGroupID.y) * ");
    push_signed_decimal(&mut t, tm);
    push_str(&mut t, " + ty;\n\tint col = int(gl_WorkGroupID.x) * ");
    push_signed_decimal(&mut t, tn);
    push_str(&mut t, " + tx;\n\n\t");
    push_str(&mut t, dt);
    push_str(&mut t, " sum = ");
    push_str(&mut t, dt);
    push_str(&mut t, "(0.0);\n\n\tfor (int ph = 0; ph < (params.K + ");
    push_signed_decimal(&mut t, tk);
    push_str(&mut t, " - 1) / ");
    push_signed_decimal(&mut t, tk);
    push_str(&mut t, "; ++ph) {\n\t\tif (row < params.M && ph * ");
    push_signed_decimal(&mut t, tk);
    push_str(&mut t, " + tx < params.K) {\n\t\t\tsA[ty][tx] = A[row * params.K + ph * ");
    push_signed_decimal(&mut t, tk);
    push_str(&mut t, " + tx];\n\t\t} else {\n\t\t\tsA[ty][tx] = ");
    push_str(&mut t, dt);
    push_str(&mut t, "(0.0);\n\t\t}\n\n\t\tif (ph * ");
    push_signed_decimal(&mut t, tk);
    push_str(&mut t, " + ty < params.K && col < params.N) {\n\t\t\tsB[ty][tx] = B[(ph * ");
    push_signed_decimal(&mut t, tk);
    push_str(&mut t, " + ty) * params.N + col];\n\t\t} else {\n\t\t\tsB[ty][tx] = ");
    push_str(&mut t, dt);
    push_str(&mut t, "(0.0);\n\t\t}\n\n\t\tbarrier();\n\n\t\tfor (int k = 0; k < ");
    push_signed_decimal(&mut t, tk);
    push_str(&mut t, "; ++k) {\n\t\t\tsum += sA[ty][k] * sB[k][tx];\n\t\t}\n\n\t\tbarrier();\n\t}\n\n\tif (row < params.M && col < params.N) {\n");
    t
}

fn build_relu_shader(dt: &str) -> (r: String)
    ensures
        r@ == relu_shader(dt@),
{
    reveal(relu_shader);
    let mut t = owned("layout(local_size_x = 256, local_size_y = 1, local_size_z = 1) in;\n\nlayout(std430, binding = 0) readonly buffer BufferX { ");
    push_str(&mut t, dt);
    push_str(&mut t, " x[]; };\nlayout(std430, binding = 1) writeonly buffer BufferY { ");
    push_str(&mut t, dt);
    push_str(&mut t, " y[]; };\n\nlayout(push_constant) uniform Params { int n; } params;\n\nvoid main() {\n\tint idx = int(gl_GlobalInvocationID.x);\n\tif (idx < params.n) {\n\t\ty[idx] = max(x[idx], ");
    push_str(&mut t, dt);
    push_str(&mut t, "(0.0));\n\t}\n}\n");
    t
}

fn build_add_shader(dt: &str) -> (r: String)
    ensures
        r@ == add_shader(dt@),
{
    reveal(add_shader);
    let mut t = owned("layout(local_size_x = 256, local_size_y = 1, local_size_z = 1) in;\n\nlayout(std430, binding = 0) readonly buffer BufferA { ");
    push_str(&mut t, dt);
    push_str(&mut t, " a[]; };\nlayout(std430, binding = 1) readonly buffer BufferB { ");
    push_str(&mut t, dt);
    push_str(&mut t, " b[]; };\nlayout(std430, binding = 2) writeonly buffer BufferC { ");
    push_str(&mut t, dt);
    push_str(&mut t, " c[]; };\n\nlayout(push_constant) uniform Params { int n; } params;\n\nvoid main() {\n\tint idx = int(gl_GlobalInvocationID.x);\n\tif (idx < params.n) {\n\t\tc[idx] = a[idx] + b[idx];\n\t}\n}\n");
    t
}

fn build_fallback_shader(h: u64) -> (r: String)
    ensures
        r@ == fallback_shader(h),
{
    reveal(fallback_shader);
    let mut t = owned("// Fallback opaque block for PTX hash: 0x");
    push_hex(&mut t, h);
    push_str(&mut t, "\nlayout(local_size_x = 256, local_size_y = 1, local_size_z = 1) in;\nlayout(std430, binding = 0) readonly buffer BufferIn { float A[]; };\nlayout(std430, binding = 1) writeonly buffer BufferOut { float B[]; };\nlayout(push_constant) uniform Params { int n; } params;\n\nvoid main() {\n\tint idx = int(gl_GlobalInvocationID.x);\n\tif (idx < params.n) B[idx] = A[idx];\n}\n");
    t
}

fn build_matmul_shader(op: &OmniOp) -> (r: String)
    ensures
        r@ == matmul_shader(*op),
{
    let dt = SpirvCodegen::map_element_type(&op.result_type.element_type);
    let tm = int_attr(op, "tile_m", 16);
    let tn = int_attr(op, "tile_n", 16);
    let tk = int_attr(op, "tile_k", 16);
    let mut t = build_matmul_prologue(dt, tm, tn, tk);
    match op.attrs.get("fused_activation") {
        Some(AttrValue::String(act)) => {
            if str_eq(act.as_str(), "Relu") {
                push_str(&mut t, "\t\tsum = max(sum, float16_t(0.0));\n");
            } else if str_eq(act.as_str(), "Gelu") {
                push_str(
                    &mut t,
                    "\t\tsum = sum * float16_t(0.5) * (float16_t(1.0) + erf(sum * float16_t(0.70710678)));\n",
                );
            } else if str_eq(act.as_str(), "Silu") {
                push_str(&mut t, "\t\tsum = sum / (float16_t(1.0) + exp(-sum));\n");
            } else {
                assert(t@ =~= t@ + activation_line(op.attrs@));
            }
        },
        _ => {
            assert(t@ =~= t@ + activation_line(op.attrs@));
        },
    }
    push_str(&mut t, "\t\tC[row * params.N + col] = sum;\n\t}\n}\n");
    t
}

/// The integer attribute under `key`, or `default`.
fn int_attr(op: &OmniOp, key: &str, default: i64) -> (r: i64)
    ensures
        r == int_attr_or(op.attrs@, key@, default),
{
    match op.attrs.get(key) {
        Some(AttrValue::Int(v)) => *v,
        _ => default,
    }
}

/// An owned name: `prefix` followed by the decimal id.
fn numbered(prefix: &str, id: u64) -> (r: String)
    ensures
        r@ == prefix@ + decimal(id as nat),
{
    let mut n = owned(prefix);
    push_decimal(&mut n, id);
    n
}

/// Lowers one operation: its kernel name, shader text and workgroup size.
fn lower_op(op: &OmniOp) -> (r: Option<(String, String, [u32; 3])>)
    ensures
        match r {
            Some((name, text, block)) => lowered(*op) matches Some(l) && name@ == l.name
                && text@ == l.text && block@ == l.block,
            None => lowered(*op) is None,
        },
{
    reveal(lowered);
    match &op.kind {
        OpKind::MatMul | OpKind::BatchedMatMul => {
            let block: [u32; 3] = [16, 16, 1];
            assert(block@ =~= seq![16u32, 16u32, 1u32]);
            Some((numbered("omni_matmul_", op.id), build_matmul_shader(op), block))
        },
        OpKind::Relu => {
            let dt = SpirvCodegen::map_element_type(&op.result_type.element_type);
            let block: [u32; 3] = [256, 1, 1];
            assert(block@ =~= seq![256u32, 1u32, 1u32]);
            Some((numbered("omni_relu_", op.id), build_relu_shader(dt), block))
        },
        OpKind::Add => {
            let dt = SpirvCodegen::map_element_type(&op.result_type.element_type);
            let block: [u32; 3] = [256, 1, 1];
            assert(block@ =~= seq![256u32, 1u32, 1u32]);
            Some((numbered("omni_add_", op.id), build_add_shader(dt), block))
        },
        OpKind::Opaque { ptx_hash } => {
            let block: [u32; 3] = [256, 1, 1];
            assert(block@ =~= seq![256u32, 1u32, 1u32]);
            Some((numbered("omni_fallback_", op.id), build_fallback_shader(*ptx_hash), block))
        },
        _ => None,
    }
}

/// The bytes of a string, as an owned vector.
fn string_bytes(s: &String) -> (r: Vec<u8>)
    ensures
        r@ == encode_utf8(s@),
{
    let b = s.as_str().as_bytes();
    let mut v: Vec<u8> = Vec::new();
    let mut i: usize = 0;
    while i < b.len()
        invariant
            i <= b@.len(),
            v@ == b@.take(i as int),
        decreases b@.len() - i,
    {
        v.push(b[i]);
        i = i + 1;
    }
    assert(v@ =~= b@);
    v
}

/// The SPIR-V / Vulkan GLSL shader generator.
pub struct SpirvCodegen {
    target: TargetBackend,
}

impl SpirvCodegen {
    /// The backend the generator targets.
    pub closed spec fn backend(&self) -> TargetBackend {
        self.target
    }

    /// Creates a generator for a target backend.
    pub fn new(target: TargetBackend) -> (r: Self)
        ensures
            r.backend() == target,
    {
        SpirvCodegen { target }
    }

    /// The GLSL spelling of an element type.
    fn map_element_type(t: &ElementType) -> (r: &'static str)
        ensures
            r@ == glsl_type(*t),
    {
        match t {
            ElementType::U8 => "uint",
            ElementType::I8 => "int",
            ElementType::I16 => "int",
            ElementType::I32 => "int",
            ElementType::I64 => "int64_t",
            ElementType::F16 => "float16_t",
            ElementType::BF16 => "float16_t",
            ElementType::F32 => "float",
            ElementType::F64 => "double",
            _ => "float",
        }
    }
}

impl CodeGenerator for SpirvCodegen {
    /// Lowers every operation in order into one GLSL compute shader; the
    /// kernel takes the name and workgroup size of the last operation.
    fn generate(&self, module: &OmniModule) -> (r: Result<GeneratedKernel, CodegenError>)
        ensures
            generate_spec(module.ops@, r),
    {
        let ops = &module.ops;
        let mut glsl = owned("#version 450 core\n");
        push_str(&mut glsl, "#extension GL_EXT_shader_explicit_arithmetic_types_float16 : enable\n");
        push_str(&mut glsl, "#extension GL_EXT_shader_explicit_arithmetic_types_int64 : enable\n\n");
        let mut kernel = owned("omni_kernel");
        let mut block_size: [u32; 3] = [16, 16, 1];
        assert(block_size@ =~= seq![16u32, 16u32, 1u32]);
        assert(ops@.take(0) =~= seq![]);
        let mut i: usize = 0;
        while i < ops.len()
            invariant
                ops@ == module.ops@,
                i <= ops@.len(),
                glsl@ == shader_source(ops@.take(i as int)),
                kernel@ == kernel_name(ops@.take(i as int)),
                block_size@ == kernel_block(ops@.take(i as int)),
                all_lowerable(ops@.take(i as int)),
            decreases ops@.len() - i,
        {
            let ghost prefix = ops@.take(i as int);
            let ghost next = ops@.take(i + 1);
            assert(next.drop_last() =~= prefix);
            assert(next.last() == ops@[i as int]);
            match lower_op(&ops[i]) {
                Some((name, text, block)) => {
                    push_str(&mut glsl, text.as_str());
                    kernel = name;
                    block_size = block;
                    assert forall|j: int| 0 <= j < next.len() implies (#[trigger] lowered(
                        next[j],
                    )) is Some by {
                        if j < i {
                            assert(next[j] == prefix[j]);
                        }
                    }
                },
                None => {
                    return Err(CodegenError::UnsupportedOp { index: i });
                },
            }
            i = i + 1;
        }
        assert(ops@.take(i as int) =~= ops@);
        let payload = string_bytes(&glsl);
        Ok(GeneratedKernel { name: kernel, payload, block_size })
    }
}

} // verus!
