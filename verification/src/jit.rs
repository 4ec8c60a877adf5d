//! The JIT engine: compiles captured PTX into kernels for the target backend
//! through lifting, optimization passes and code generation, and caches the
//! results by a hash of the payload and kernel id.
use crate::codegen::{
    activation_line, fused_activation_is, glsl_type, int_attr_or, law_matmul_applies_activation_before_store, all_lowerable, shader_source, fallback_shader, generate_spec, glsl_preamble, lowered,
    matmul_epilogue, matmul_prologue, matmul_shader, CodeGenerator, CodegenError,
    GeneratedKernel, KernelView, SpirvCodegen,
};
use crate::dialect::{lifted_kind, names, AttrValue, ElementType, IrLifter, OmniModule, OmniOp, OpKind};
use crate::hardware::TargetBackend;
use crate::passes::{
    dce_kept, dce_result, fold_plan, fold_step, fused_label, fuses, fusion_plan, is_fused, is_tiled,
    law_fusion_labels_the_epilogue_kind, realizes, tile_edge, FoldStep, FusionStep,
    PassManager,
};
use crate::text::decimal;
use dashmap::DashMap;
use vstd::prelude::*;
use vstd::string::*;
use vstd::utf8::encode_utf8;

verus! {

/// The concurrent map of `dashmap`.
#[verifier::external_type_specification]
#[verifier::external_body]
#[verifier::reject_recursive_types(K)]
#[verifier::reject_recursive_types(V)]
#[verifier::reject_recursive_types(S)]
pub struct ExDashMap<K, V, S>(DashMap<K, V, S>);

/// The kernels a cache holds, by key.
pub uninterp spec fn cached_kernels(cache: DashMap<u64, GeneratedKernel>) -> Map<u64, KernelView>;

/// The empty kernel table.
pub open spec fn no_kernels() -> Map<u64, KernelView> {
    Map::empty()
}

/// `DashMap::new`: a map with no entries.
#[verifier::external_body]
fn new_kernel_cache() -> (r: DashMap<u64, GeneratedKernel>)
    ensures
        cached_kernels(r) == no_kernels(),
{
    DashMap::new()
}

/// `DashMap::get`, with the entry cloned out: the kernel stored under `key`,
/// or `None` when there is none.
#[verifier::external_body]
fn cache_lookup(cache: &DashMap<u64, GeneratedKernel>, key: u64) -> (r: Option<GeneratedKernel>)
    ensures
        match r {
            Some(k) => cached_kernels(*cache).contains_key(key) && k@ == cached_kernels(*cache)[key],
            None => !cached_kernels(*cache).contains_key(key),
        },
{
    match cache.get(&key) {
        Some(entry) => Some(entry.value().clone()),
        None => None,
    }
}

/// `DashMap::insert`: stores `kernel` under `key`, replacing any earlier
/// entry for it.
#[verifier::external_body]
fn cache_store(cache: &mut DashMap<u64, GeneratedKernel>, key: u64, kernel: GeneratedKernel)
    ensures
        cached_kernels(*final(cache)) == cached_kernels(*old(cache)).insert(key, kernel@),
{
    cache.insert(key, kernel);
}

/// `DashMap::clear`: removes every entry.
#[verifier::external_body]
fn cache_clear(cache: &mut DashMap<u64, GeneratedKernel>)
    ensures
        cached_kernels(*final(cache)) == no_kernels(),
{
    cache.clear();
}

/// Why a compilation failed.
#[derive(Debug, Clone, Copy, PartialEq, Eq, Structural)]
pub enum JitError {
    /// The backend has no code generator here (AMD GPU and Apple Metal).
    NoCodegenForBackend,
    /// Code generation rejected the optimized module.
    Codegen(CodegenError),
}

/// The FNV-style multiplier of the kernel hash.
pub open spec fn fnv_prime() -> u64 {
    0x00000100000001b3u64
}

/// Folds bytes into a hash: multiply, then xor in the byte.
pub open spec fn fnv_fold(seed: u64, bytes: Seq<u8>) -> u64
    decreases bytes.len(),
{
    if bytes.len() == 0 {
        seed
    } else {
        fnv_fold(seed, bytes.drop_last()).wrapping_mul(fnv_prime()) ^ (bytes.last() as u64)
    }
}

/// The cache key of a PTX payload and kernel id: the kernel id is mixed
/// into the offset basis, then every byte is folded in.
pub open spec fn ptx_key(ptx: Seq<u8>, kernel_id: u64) -> u64 {
    fnv_fold(0xcbf29ce484222325u64.wrapping_mul(fnv_prime()) ^ kernel_id, ptx)
}

/// The kernel the pipeline makes from a PTX payload on a backend. Lifting
/// yields one operation on `f16` tensors; folding and fusion leave it as it
/// is; tiling annotates a matrix multiplication with the backend's tile
/// edge; code generation lowers it to GLSL, or fails for a kind it cannot
/// lower.
pub open spec fn compiled_kernel(ptx: Seq<u8>, backend: TargetBackend) -> Result<KernelView, JitError> {
    if backend is AmdRocm || backend is AppleMetal {
        Err(JitError::NoCodegenForBackend)
    } else {
        let t = tile_edge(backend);
        match lifted_kind(ptx) {
            OpKind::MatMul => Ok(
                KernelView {
                    name: "omni_matmul_"@ + decimal(0),
                    payload: encode_utf8(
                        glsl_preamble() + (matmul_prologue("float16_t"@, t, t, 16) + matmul_epilogue()),
                    ),
                    block_size: seq![16u32, 16u32, 1u32],
                },
            ),
            OpKind::Opaque { ptx_hash } => Ok(
                KernelView {
                    name: "omni_fallback_"@ + decimal(0),
                    payload: encode_utf8(glsl_preamble() + fallback_shader(ptx_hash)),
                    block_size: seq![256u32, 1u32, 1u32],
                },
            ),
            _ => Err(JitError::Codegen(CodegenError::UnsupportedOp { index: 0 })),
        }
    }
}

/// What one compilation answers and what the cache holds afterwards: a
/// cached kernel when the key is present; otherwise the pipeline's kernel,
/// which is cached when it succeeds.
pub open spec fn compile_outcome(
    cache: Map<u64, KernelView>,
    backend: TargetBackend,
    ptx: Seq<u8>,
    kernel_id: u64,
) -> (Result<KernelView, JitError>, Map<u64, KernelView>) {
    let key = ptx_key(ptx, kernel_id);
    if cache.contains_key(key) {
        (Ok(cache[key]), cache)
    } else {
        match compiled_kernel(ptx, backend) {
            Ok(k) => (Ok(k), cache.insert(key, k)),
            Err(e) => (Err(e), cache),
        }
    }
}

/// The content of a compilation result.
pub open spec fn result_view(r: Result<GeneratedKernel, JitError>) -> Result<KernelView, JitError> {
    match r {
        Ok(k) => Ok(k@),
        Err(e) => Err(e),
    }
}

/// Compiling the same payload again, right after, answers the same and
/// leaves the cache as it was.
pub proof fn law_recompile_is_stable(
    cache: Map<u64, KernelView>,
    backend: TargetBackend,
    ptx: Seq<u8>,
    kernel_id: u64,
)
    ensures
        ({
            let (r1, c1) = compile_outcome(cache, backend, ptx, kernel_id);
            let (r2, c2) = compile_outcome(c1, backend, ptx, kernel_id);
            r2 == r1 && c2 == c1
        }),
{
}

/// Whether a cache agrees with the pipeline on `(ptx, kernel_id)`: an entry
/// under its key, if any, is the kernel the pipeline makes of `ptx`.
pub open spec fn cache_agrees(
    cache: Map<u64, KernelView>,
    backend: TargetBackend,
    ptx: Seq<u8>,
    kernel_id: u64,
) -> bool {
    cache.contains_key(ptx_key(ptx, kernel_id)) ==> Ok::<KernelView, JitError>(
        cache[ptx_key(ptx, kernel_id)],
    ) == compiled_kernel(ptx, backend)
}

/// One engine call, as it changes the cache, that does not collide with
/// `(ptx, kernel_id)`: a clear, or a compile of a payload whose cache key
/// differs or which is `ptx` itself.
pub open spec fn cache_call(
    pre: Map<u64, KernelView>,
    post: Map<u64, KernelView>,
    backend: TargetBackend,
    ptx: Seq<u8>,
    kernel_id: u64,
) -> bool {
    ||| post == no_kernels()
    ||| compile_call(pre, post, backend, ptx, kernel_id)
}

/// One compile, as it changes the cache, that does not collide with
/// `(ptx, kernel_id)`: of a payload whose cache key differs, or of `ptx`
/// itself.
pub open spec fn compile_call(
    pre: Map<u64, KernelView>,
    post: Map<u64, KernelView>,
    backend: TargetBackend,
    ptx: Seq<u8>,
    kernel_id: u64,
) -> bool {
    exists|p2: Seq<u8>, id2: u64|
        (ptx_key(p2, id2) != ptx_key(ptx, kernel_id) || p2 == ptx) && post == compile_outcome(
            pre,
            backend,
            p2,
            id2,
        ).1
}

/// Whether compiling `ptx` on `cache` answers `answer`, and an entry under
/// its key, if any, is that answer.
spec fn answers_with(
    cache: Map<u64, KernelView>,
    backend: TargetBackend,
    ptx: Seq<u8>,
    kernel_id: u64,
    answer: Result<KernelView, JitError>,
) -> bool {
    &&& compile_outcome(cache, backend, ptx, kernel_id).0 == answer
    &&& cache.contains_key(ptx_key(ptx, kernel_id)) ==> Ok::<KernelView, JitError>(
        cache[ptx_key(ptx, kernel_id)],
    ) == answer
}

/// A compile that does not collide with `(ptx, kernel_id)` keeps the answer
/// for `ptx`.
proof fn lemma_compile_call_keeps_answer(
    pre: Map<u64, KernelView>,
    post: Map<u64, KernelView>,
    backend: TargetBackend,
    ptx: Seq<u8>,
    kernel_id: u64,
    answer: Result<KernelView, JitError>,
)
    requires
        answers_with(pre, backend, ptx, kernel_id, answer),
        compile_call(pre, post, backend, ptx, kernel_id),
    ensures
        answers_with(post, backend, ptx, kernel_id, answer),
{
    let (p2, id2) = choose|p2: Seq<u8>, id2: u64|
        (ptx_key(p2, id2) != ptx_key(ptx, kernel_id) || p2 == ptx) && post == compile_outcome(
            pre,
            backend,
            p2,
            id2,
        ).1;
    assert(answers_with(post, backend, ptx, kernel_id, answer));
}

/// Every cache of a run of such compiles answers as the first did.
proof fn lemma_prefix_answers(
    caches: Seq<Map<u64, KernelView>>,
    backend: TargetBackend,
    ptx: Seq<u8>,
    kernel_id: u64,
    k: int,
)
    requires
        0 <= k < caches.len(),
        forall|j: int|
            0 <= j < caches.len() - 1 ==> compile_call(
                #[trigger] caches[j],
                caches[j + 1],
                backend,
                ptx,
                kernel_id,
            ),
    ensures
        answers_with(
            caches[k],
            backend,
            ptx,
            kernel_id,
            compile_outcome(caches[0], backend, ptx, kernel_id).0,
        ),
    decreases k,
{
    if k > 0 {
        lemma_prefix_answers(caches, backend, ptx, kernel_id, k - 1);
        lemma_compile_call_keeps_answer(
            caches[k - 1],
            caches[k],
            backend,
            ptx,
            kernel_id,
            compile_outcome(caches[0], backend, ptx, kernel_id).0,
        );
    }
}

/// The cache never changes an answer: whatever the cache held at the start
/// (an entry left by an earlier colliding payload too), over any run of
/// compiles none of which collides with the cache key of `(ptx, kernel_id)`,
/// compiling `ptx` answers at every step what it answered at the first.
pub proof fn law_answer_stays_without_collisions(
    caches: Seq<Map<u64, KernelView>>,
    backend: TargetBackend,
    ptx: Seq<u8>,
    kernel_id: u64,
)
    requires
        caches.len() > 0,
        forall|k: int|
            0 <= k < caches.len() - 1 ==> compile_call(
                #[trigger] caches[k],
                caches[k + 1],
                backend,
                ptx,
                kernel_id,
            ),
    ensures
        forall|k: int|
            0 <= k < caches.len() ==> compile_outcome(#[trigger] caches[k], backend, ptx, kernel_id).0
                == compile_outcome(caches[0], backend, ptx, kernel_id).0,
{
    assert forall|k: int| 0 <= k < caches.len() implies compile_outcome(
        #[trigger] caches[k],
        backend,
        ptx,
        kernel_id,
    ).0 == compile_outcome(caches[0], backend, ptx, kernel_id).0 by {
        lemma_prefix_answers(caches, backend, ptx, kernel_id, k);
    }
}

/// Such calls keep a cache agreeing with the pipeline on `(ptx, kernel_id)`.
proof fn lemma_cache_call_keeps_agreement(
    pre: Map<u64, KernelView>,
    post: Map<u64, KernelView>,
    backend: TargetBackend,
    ptx: Seq<u8>,
    kernel_id: u64,
)
    requires
        cache_agrees(pre, backend, ptx, kernel_id),
        cache_call(pre, post, backend, ptx, kernel_id),
    ensures
        cache_agrees(post, backend, ptx, kernel_id),
{
    if post != no_kernels() {
        let (p2, id2) = choose|p2: Seq<u8>, id2: u64|
            (ptx_key(p2, id2) != ptx_key(ptx, kernel_id) || p2 == ptx) && post == compile_outcome(
                pre,
                backend,
                p2,
                id2,
            ).1;
        assert(cache_agrees(post, backend, ptx, kernel_id));
    }
}

/// The cache only saves work: starting from a cache that agrees with the
/// pipeline on `(ptx, kernel_id)` (a new engine's cache is empty), after any
/// run of clears and of compiles that do not collide with its cache key,
/// compiling `ptx` answers exactly what the pipeline makes of it without a
/// cache, as every earlier compile of it did.
pub proof fn law_cache_never_changes_results(
    caches: Seq<Map<u64, KernelView>>,
    backend: TargetBackend,
    ptx: Seq<u8>,
    kernel_id: u64,
)
    requires
        caches.len() > 0,
        cache_agrees(caches[0], backend, ptx, kernel_id),
        forall|k: int|
            0 <= k < caches.len() - 1 ==> cache_call(
                #[trigger] caches[k],
                caches[k + 1],
                backend,
                ptx,
                kernel_id,
            ),
    ensures
        forall|k: int|
            0 <= k < caches.len() ==> compile_outcome(#[trigger] caches[k], backend, ptx, kernel_id).0
                == compiled_kernel(ptx, backend),
{
    assert forall|k: int| 0 <= k < caches.len() implies compile_outcome(
        #[trigger] caches[k],
        backend,
        ptx,
        kernel_id,
    ).0 == compiled_kernel(ptx, backend) by {
        lemma_prefix_agrees(caches, backend, ptx, kernel_id, k);
    }
}

/// Every cache of such a run agrees with the pipeline.
proof fn lemma_prefix_agrees(
    caches: Seq<Map<u64, KernelView>>,
    backend: TargetBackend,
    ptx: Seq<u8>,
    kernel_id: u64,
    k: int,
)
    requires
        0 <= k < caches.len(),
        cache_agrees(caches[0], backend, ptx, kernel_id),
        forall|j: int|
            0 <= j < caches.len() - 1 ==> cache_call(
                #[trigger] caches[j],
                caches[j + 1],
                backend,
                ptx,
                kernel_id,
            ),
    ensures
        cache_agrees(caches[k], backend, ptx, kernel_id),
    decreases k,
{
    if k > 0 {
        lemma_prefix_agrees(caches, backend, ptx, kernel_id, k - 1);
        lemma_cache_call_keeps_agreement(caches[k - 1], caches[k], backend, ptx, kernel_id);
    }
}

/// A fused epilogue reaches the generated shader: when fusion folds a ReLU,
/// GELU or SiLU into a matrix multiplication, the fused stage applies that
/// activation to the accumulator right before storing it; a fused addition
/// adds no activation line.
pub proof fn law_fused_epilogue_reaches_the_shader(op: OmniOp, cur: OmniOp, next: OmniOp)
    requires
        fuses(cur, next),
        is_fused(op, cur, next),
    ensures
        lowered(op) is Some,
        ({
            let text = lowered(op).unwrap().text;
            let pre = matmul_prologue(
                glsl_type(op.result_type.element_type),
                int_attr_or(op.attrs@, "tile_m"@, 16),
                int_attr_or(op.attrs@, "tile_n"@, 16),
                int_attr_or(op.attrs@, "tile_k"@, 16),
            );
            let store = "\t\tC[row * params.N + col] = sum;\n\t}\n}\n"@;
            &&& next.kind == OpKind::Relu ==> text == pre + "\t\tsum = max(sum, float16_t(0.0));\n"@
                + store
            &&& next.kind == OpKind::Gelu ==> text == pre
                + "\t\tsum = sum * float16_t(0.5) * (float16_t(1.0) + erf(sum * float16_t(0.70710678)));\n"@
                + store
            &&& next.kind == OpKind::Silu ==> text == pre
                + "\t\tsum = sum / (float16_t(1.0) + exp(-sum));\n"@ + store
            &&& next.kind == OpKind::Add ==> text == pre + store
        }),
{
    law_fusion_labels_the_epilogue_kind(op, cur, next);
    law_matmul_applies_activation_before_store(op);
    reveal_strlit("Relu");
    reveal_strlit("Gelu");
    reveal_strlit("Silu");
    reveal_strlit("Add");
    assert("Add"@.len() != "Relu"@.len());
    assert(fused_label(op) is Some ==> (fused_activation_is(op.attrs@, fused_label(op).unwrap())));
}

/// The attributes loop tiling gives a matrix multiplication that had none.
pub open spec fn tile_attrs(t: i64) -> Map<Seq<char>, AttrValue> {
    Map::<Seq<char>, AttrValue>::empty().insert("tile_m"@, AttrValue::Int(t)).insert(
        "tile_n"@,
        AttrValue::Int(t),
    ).insert("tile_k"@, AttrValue::Int(16)).insert("vector_width"@, AttrValue::Int(4))
}

/// Whether `op` is what the passes leave of a lifted payload: the lifted
/// operation, annotated by tiling when it multiplies matrices.
pub open spec fn pipeline_op(op: OmniOp, ptx: Seq<u8>, backend: TargetBackend) -> bool {
    &&& op.id == 0
    &&& op.kind == lifted_kind(ptx)
    &&& op.result_type.element_type == ElementType::F16
    &&& op.attrs@ == if op.kind == OpKind::MatMul {
        tile_attrs(tile_edge(backend))
    } else {
        Map::<Seq<char>, AttrValue>::empty()
    }
}

/// The attribute keys tiling writes differ from each other and from the key
/// of a fused activation.
proof fn lemma_tile_keys()
    ensures
        "fused_activation"@ != "tile_m"@,
        "fused_activation"@ != "tile_n"@,
        "fused_activation"@ != "tile_k"@,
        "fused_activation"@ != "vector_width"@,
        "tile_m"@ != "tile_n"@,
        "tile_m"@ != "tile_k"@,
        "tile_m"@ != "vector_width"@,
        "tile_n"@ != "tile_k"@,
        "tile_n"@ != "vector_width"@,
        "tile_k"@ != "vector_width"@,
{
    reveal_strlit("fused_activation");
    reveal_strlit("tile_m");
    reveal_strlit("tile_n");
    reveal_strlit("tile_k");
    reveal_strlit("vector_width");
    assert("fused_activation"@.len() == 16);
    assert("tile_m"@.len() == 6);
    assert("tile_n"@.len() == 6);
    assert("tile_k"@.len() == 6);
    assert("vector_width"@.len() == 12);
    assert("tile_m"@[5] != "tile_n"@[5]);
    assert("tile_m"@[5] != "tile_k"@[5]);
    assert("tile_n"@[5] != "tile_k"@[5]);
}

/// The shader of the matrix multiplication the passes leave.
proof fn lemma_matmul_lowering(op: OmniOp, t: i64)
    requires
        op.kind == OpKind::MatMul,
        op.result_type.element_type == ElementType::F16,
        op.attrs@ == tile_attrs(t),
    ensures
        matmul_shader(op) == matmul_prologue("float16_t"@, t, t, 16) + matmul_epilogue(),
{
    lemma_tile_keys();
    assert(!op.attrs@.contains_key("fused_activation"@));
    assert(op.attrs@["tile_m"@] == AttrValue::Int(t));
    assert(op.attrs@["tile_n"@] == AttrValue::Int(t));
    assert(op.attrs@["tile_k"@] == AttrValue::Int(16));
    assert(activation_line(op.attrs@) == Seq::<char>::empty());
    assert(matmul_prologue("float16_t"@, t, t, 16) + Seq::<char>::empty() =~= matmul_prologue(
        "float16_t"@,
        t,
        t,
        16,
    ));
}

/// Code generation of the operation the passes leave gives the pipeline's
/// kernel.
proof fn lemma_codegen_of_pipeline_op(
    ptx: Seq<u8>,
    backend: TargetBackend,
    op: OmniOp,
    r: Result<GeneratedKernel, CodegenError>,
)
    requires
        pipeline_op(op, ptx, backend),
        generate_spec(seq![op], r),
        !(backend is AmdRocm || backend is AppleMetal),
    ensures
        match r {
            Ok(k) => compiled_kernel(ptx, backend) == Ok::<KernelView, JitError>(k@),
            Err(e) => compiled_kernel(ptx, backend) == Err::<KernelView, JitError>(JitError::Codegen(e)),
        },
{
    reveal(lowered);
    let ops = seq![op];
    assert(ops.drop_last() =~= seq![]);
    assert(ops.last() == op);
    assert(shader_source(seq![]) == glsl_preamble());
    match op.kind {
        OpKind::MatMul => {
            lemma_matmul_lowering(op, tile_edge(backend));
            assert(lowered(op) is Some);
            assert(all_lowerable(ops));
        },
        OpKind::Opaque { ptx_hash } => {
            assert(lowered(op) is Some);
            assert(all_lowerable(ops));
        },
        _ => {
            assert(lowered(op) is None);
            assert(!all_lowerable(ops));
        },
    }
}

/// The JIT compiler for one target backend, with its kernel cache.
pub struct JitEngine {
    target_backend: TargetBackend,
    kernel_cache: DashMap<u64, GeneratedKernel>,
}

impl JitEngine {
    /// The backend kernels are compiled for.
    pub closed spec fn backend(&self) -> TargetBackend {
        self.target_backend
    }

    /// The compiled kernels, by cache key.
    pub closed spec fn cache(&self) -> Map<u64, KernelView> {
        cached_kernels(self.kernel_cache)
    }

    /// Creates an engine for a backend, with an empty cache.
    pub fn new(target: &TargetBackend) -> (r: Result<Self, JitError>)
        ensures
            r matches Ok(e) && e.backend() == *target && e.cache() == Map::<u64, KernelView>::empty(),
    {
        Ok(JitEngine { target_backend: target.copy(), kernel_cache: new_kernel_cache() })
    }

    /// The cache key of a PTX payload and kernel id.
    fn hash_ptx(ptx_bytes: &[u8], kernel_id: u64) -> (h: u64)
        ensures
            h == ptx_key(ptx_bytes@, kernel_id),
    {
        let mut hash: u64 = 0xcbf29ce484222325u64;
        hash = hash.wrapping_mul(0x00000100000001b3u64) ^ kernel_id;
        let ghost seed = hash;
        let mut i: usize = 0;
        while i < ptx_bytes.len()
            invariant
                i <= ptx_bytes@.len(),
                hash == fnv_fold(seed, ptx_bytes@.take(i as int)),
            decreases ptx_bytes@.len() - i,
        {
            assert(ptx_bytes@.take(i + 1).drop_last() =~= ptx_bytes@.take(i as int));
            hash = hash.wrapping_mul(0x00000100000001b3u64) ^ (ptx_bytes[i] as u64);
            i = i + 1;
        }
        assert(ptx_bytes@.take(i as int) =~= ptx_bytes@);
        hash
    }

    /// Compiles a PTX payload: answers from the cache when the payload's key
    /// is present; otherwise lifts it, runs constant folding, operator fusion,
    /// loop tiling and dead code elimination, generates code for the backend,
    /// and caches a successful result.
    pub fn compile_ptx(&mut self, ptx_bytes: &[u8], kernel_id: u64) -> (r: Result<GeneratedKernel, JitError>)
        ensures
            (result_view(r), final(self).cache()) == compile_outcome(
                old(self).cache(),
                old(self).backend(),
                ptx_bytes@,
                kernel_id,
            ),
            final(self).backend() == old(self).backend(),
    {
        let kernel_hash = Self::hash_ptx(ptx_bytes, kernel_id);
        match cache_lookup(&self.kernel_cache, kernel_hash) {
            Some(cached) => {
                return Ok(cached);
            },
            None => {},
        }
        let result = self.run_pipeline(ptx_bytes, kernel_id);
        match result {
            Ok(kernel) => {
                let stored = kernel.deep_copy();
                cache_store(&mut self.kernel_cache, kernel_hash, stored);
                Ok(kernel)
            },
            Err(e) => Err(e),
        }
    }

    /// Lifts a payload and runs the optimization passes on it.
    #[verifier::spinoff_prover]
    #[verifier::rlimit(50)]
    fn optimized_module(&self, ptx_bytes: &[u8], kernel_id: u64) -> (m: OmniModule)
        ensures
            m.ops@.len() == 1,
            pipeline_op(m.ops@[0], ptx_bytes@, self.backend()),
    {
        let mut lifter = IrLifter::new();
        let mut module = lifter.lift_ptx(ptx_bytes, kernel_id);
        let ghost lifted = module.ops@[0];
        let pass_manager = PassManager::new(self.target_backend.copy());
        let plan = pass_manager.constant_fold_plan(&module);
        proof {
            assert(module.ops@.drop_last() =~= seq![]);
            assert(fold_plan(seq![]) == Seq::<FoldStep>::empty());
            assert(fold_step(lifted, module.ops@, seq![]) == FoldStep::Keep);
            assert(fold_plan(module.ops@) =~= seq![FoldStep::Keep]);
        }
        match plan {
            Ok(steps) => {
                assert(steps@ =~= seq![FoldStep::Keep]);
            },
            Err(_) => {
                assert(false);
            },
        }
        let ghost before_fusion = module.ops@;
        pass_manager.run_operator_fusion(&mut module);
        proof {
            assert(before_fusion.drop_first() =~= seq![]);
            assert(fusion_plan(seq![]) == Seq::<FusionStep>::empty());
            assert(fusion_plan(before_fusion) =~= seq![FusionStep::Keep(lifted)]);
            assert(module.ops@.len() == 1);
            assert(realizes(fusion_plan(before_fusion)[0], module.ops@[0]));
            assert(module.ops@[0] == lifted);
        }
        pass_manager.run_loop_tiling(&mut module);
        let ghost tiled = module.ops@[0];
        proof {
            assert(is_tiled(tiled, lifted, tile_edge(self.backend())));
            if tiled.kind == OpKind::MatMul {
                assert(tiled.attrs@ =~= tile_attrs(tile_edge(self.backend())));
            }
        }
        let ghost before_dce = module.ops@;
        pass_manager.run_dce(&mut module);
        proof {
            assert(before_dce.drop_last() =~= seq![]);
            assert(dce_kept(Seq::<OmniOp>::empty(), names(tiled.inputs@)) == Seq::<OmniOp>::empty());
            assert(dce_result(before_dce) =~= seq![tiled]);
        }
        module
    }

    /// Lifts, optimizes and lowers a payload, without the cache.
    fn run_pipeline(&self, ptx_bytes: &[u8], kernel_id: u64) -> (r: Result<GeneratedKernel, JitError>)
        ensures
            result_view(r) == compiled_kernel(ptx_bytes@, self.backend()),
    {
        let module = self.optimized_module(ptx_bytes, kernel_id);
        match &self.target_backend {
            TargetBackend::AmdRocm { .. } | TargetBackend::AppleMetal { .. } => Err(
                JitError::NoCodegenForBackend,
            ),
            _ => {
                let codegen = SpirvCodegen::new(self.target_backend.copy());
                let generated = codegen.generate(&module);
                proof {
                    assert(module.ops@ =~= seq![module.ops@[0]]);
                    lemma_codegen_of_pipeline_op(ptx_bytes@, self.backend(), module.ops@[0], generated);
                }
                match generated {
                    Ok(kernel) => Ok(kernel),
                    Err(e) => Err(JitError::Codegen(e)),
                }
            },
        }
    }

    /// Empties the kernel cache.
    pub fn clear_cache(&mut self)
        ensures
            final(self).cache() == Map::<u64, KernelView>::empty(),
            final(self).backend() == old(self).backend(),
    {
        cache_clear(&mut self.kernel_cache);
    }
}

} // verus!
