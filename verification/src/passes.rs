//! Structural optimization passes over `omni.tensor` modules: operator
//! fusion, loop tiling and dead code elimination.
use crate::dialect::{names, AttrValue, F64Bits, OmniModule, OmniOp, OpKind};
use crate::hardware::TargetBackend;
use crate::strmap::StrMap;
use crate::text::{owned, push_str, str_eq};
use vstd::prelude::*;
use vstd::string::*;

verus! {

broadcast use vstd::seq_lib::group_seq_properties;

/// Whether the kind is a matrix multiplication.
pub open spec fn is_matmul(k: OpKind) -> bool {
    k == OpKind::MatMul || k == OpKind::BatchedMatMul
}

/// Whether the kind is an activation or addition that fusion folds into a
/// preceding matrix multiplication.
pub open spec fn is_fusable_epilogue(k: OpKind) -> bool {
    k == OpKind::Relu || k == OpKind::Gelu || k == OpKind::Silu || k == OpKind::Add
}

/// The name fusion records for an epilogue kind.
pub open spec fn epilogue_name(k: OpKind) -> Seq<char> {
    match k {
        OpKind::Relu => "Relu"@,
        OpKind::Gelu => "Gelu"@,
        OpKind::Silu => "Silu"@,
        _ => "Add"@,
    }
}

/// Whether `next` is fused into `cur`: `cur` multiplies matrices and `next`
/// is an epilogue that reads `cur`'s output.
pub open spec fn fuses(cur: OmniOp, next: OmniOp) -> bool {
    is_matmul(cur.kind) && is_fusable_epilogue(next.kind) && names(next.inputs@).contains(cur.output@)
}

/// A step of the fusion pass: keep an operation, or fuse a pair.
pub enum FusionStep {
    Keep(OmniOp),
    Fuse(OmniOp, OmniOp),
}

/// The steps fusion takes over a list of operations, front to back.
pub open spec fn fusion_plan(ops: Seq<OmniOp>) -> Seq<FusionStep>
    decreases ops.len(),
{
    if ops.len() == 0 {
        seq![]
    } else if ops.len() >= 2 && fuses(ops[0], ops[1]) {
        seq![FusionStep::Fuse(ops[0], ops[1])] + fusion_plan(ops.subrange(2, ops.len() as int))
    } else {
        seq![FusionStep::Keep(ops[0])] + fusion_plan(ops.drop_first())
    }
}

/// The names in `s` other than `x`, in order.
pub open spec fn without(s: Seq<Seq<char>>, x: Seq<char>) -> Seq<Seq<char>>
    decreases s.len(),
{
    if s.len() == 0 {
        seq![]
    } else if s.last() == x {
        without(s.drop_last(), x)
    } else {
        without(s.drop_last(), x).push(s.last())
    }
}

/// The key under which fusion records the fused epilogue.
pub open spec fn fused_key() -> Seq<char> {
    "fused_activation"@
}

/// Whether `op` is what fusing `next` into `cur` produces: `cur` with the
/// epilogue's name recorded under `fused_activation`, the epilogue's other
/// inputs appended when it is an addition, and the epilogue's output and type.
pub open spec fn is_fused(op: OmniOp, cur: OmniOp, next: OmniOp) -> bool {
    &&& op.id == cur.id
    &&& op.kind == cur.kind
    &&& names(op.inputs@) == names(cur.inputs@) + if next.kind == OpKind::Add {
        without(names(next.inputs@), cur.output@)
    } else {
        seq![]
    }
    &&& op.output == next.output
    &&& op.result_type == next.result_type
    &&& op.attrs@.dom() == cur.attrs@.dom().insert(fused_key())
    &&& forall|k: Seq<char>| k != fused_key() ==> #[trigger] op.attrs@[k] == cur.attrs@[k]
    &&& match op.attrs@[fused_key()] {
        AttrValue::String(s) => s@ == epilogue_name(next.kind),
        _ => false,
    }
}

/// Whether `op` is the result of a fusion step.
pub open spec fn realizes(step: FusionStep, op: OmniOp) -> bool {
    match step {
        FusionStep::Keep(o) => op == o,
        FusionStep::Fuse(c, n) => is_fused(op, c, n),
    }
}

/// The tile edge loop tiling uses for a backend.
pub open spec fn tile_edge(b: TargetBackend) -> i64 {
    match b {
        TargetBackend::AmdRocm { .. } => 64,
        TargetBackend::AppleMetal { .. } => 32,
        TargetBackend::VulkanGeneric { .. } => 16,
        TargetBackend::CpuVectorized { .. } | TargetBackend::RemoteP2p { .. } => 8,
    }
}

/// Whether `op` is `orig` after loop tiling with tile edge `t`: matrix
/// multiplications gain `tile_m = tile_n = t`, `tile_k = 16` and
/// `vector_width = 4`; every other operation is left as it is.
pub open spec fn is_tiled(op: OmniOp, orig: OmniOp, t: i64) -> bool {
    if is_matmul(orig.kind) {
        &&& op.id == orig.id
        &&& op.kind == orig.kind
        &&& op.inputs == orig.inputs
        &&& op.output == orig.output
        &&& op.result_type == orig.result_type
        &&& op.attrs@ == orig.attrs@.insert("tile_m"@, AttrValue::Int(t)).insert(
            "tile_n"@,
            AttrValue::Int(t),
        ).insert("tile_k"@, AttrValue::Int(16)).insert("vector_width"@, AttrValue::Int(4))
    } else {
        op == orig
    }
}

/// The operations a backward sweep keeps, given the names read by the live
/// operations seen so far (`refs`): an operation is live when a live
/// operation reads its output, and then its own inputs are read too.
pub open spec fn dce_kept(ops: Seq<OmniOp>, refs: Seq<Seq<char>>) -> Seq<OmniOp>
    decreases ops.len(),
{
    if ops.len() == 0 {
        seq![]
    } else {
        let op = ops.last();
        if refs.contains(op.output@) {
            dce_kept(ops.drop_last(), refs + names(op.inputs@)).push(op)
        } else {
            dce_kept(ops.drop_last(), refs)
        }
    }
}

/// What dead code elimination leaves: the last operation is the root and is
/// always kept; every operation whose output a kept operation reads, directly
/// or through other kept operations, is kept; the order is preserved.
pub open spec fn dce_result(ops: Seq<OmniOp>) -> Seq<OmniOp> {
    if ops.len() == 0 {
        seq![]
    } else {
        dce_kept(ops.drop_last(), names(ops.last().inputs@)).push(ops.last())
    }
}

/// Fusion never adds operations: every step consumes one operation, or two
/// when it fuses a pair.
pub proof fn law_fusion_never_grows(ops: Seq<OmniOp>)
    ensures
        fusion_plan(ops).len() <= ops.len(),
    decreases ops.len(),
{
    if ops.len() >= 2 && fuses(ops[0], ops[1]) {
        law_fusion_never_grows(ops.subrange(2, ops.len() as int));
    } else if ops.len() > 0 {
        law_fusion_never_grows(ops.drop_first());
    }
}

/// A backward sweep keeps at most the operations it is given.
proof fn lemma_dce_kept_len(ops: Seq<OmniOp>, refs: Seq<Seq<char>>)
    ensures
        dce_kept(ops, refs).len() <= ops.len(),
    decreases ops.len(),
{
    if ops.len() > 0 {
        let op = ops.last();
        if refs.contains(op.output@) {
            lemma_dce_kept_len(ops.drop_last(), refs + names(op.inputs@));
        } else {
            lemma_dce_kept_len(ops.drop_last(), refs);
        }
    }
}

/// Dead code elimination keeps at most the operations it was given, and
/// never removes the final operation, whatever the operations' ids.
pub proof fn law_dce_keeps_root(ops: Seq<OmniOp>)
    ensures
        dce_result(ops).len() <= ops.len(),
        ops.len() > 0 ==> dce_result(ops).len() > 0 && dce_result(ops).last() == ops.last(),
{
    if ops.len() > 0 {
        lemma_dce_kept_len(ops.drop_last(), names(ops.last().inputs@));
    }
}

/// The label fusion records under `fused_activation`, when it is a string.
pub open spec fn fused_label(op: OmniOp) -> Option<Seq<char>> {
    if op.attrs@.contains_key(fused_key()) {
        match op.attrs@[fused_key()] {
            AttrValue::String(s) => Some(s@),
            _ => None,
        }
    } else {
        None
    }
}

/// Fusion records the epilogue's own kind name: fusing a ReLU, GELU, SiLU or
/// addition labels the result `Relu`, `Gelu`, `Silu` or `Add`; so epilogues
/// of different kinds leave different labels.
pub proof fn law_fusion_labels_the_epilogue_kind(op: OmniOp, cur: OmniOp, next: OmniOp)
    requires
        is_fused(op, cur, next),
    ensures
        next.kind == OpKind::Relu ==> fused_label(op) == Some("Relu"@),
        next.kind == OpKind::Gelu ==> fused_label(op) == Some("Gelu"@),
        next.kind == OpKind::Silu ==> fused_label(op) == Some("Silu"@),
        next.kind == OpKind::Add ==> fused_label(op) == Some("Add"@),
{
}

/// Two fusions of epilogues of different kinds record different labels.
pub proof fn law_fusion_labels_distinct(
    op1: OmniOp,
    cur1: OmniOp,
    next1: OmniOp,
    op2: OmniOp,
    cur2: OmniOp,
    next2: OmniOp,
)
    requires
        is_fused(op1, cur1, next1),
        is_fused(op2, cur2, next2),
        is_fusable_epilogue(next1.kind),
        is_fusable_epilogue(next2.kind),
        next1.kind != next2.kind,
    ensures
        fused_label(op1) is Some && fused_label(op2) is Some && fused_label(op1) != fused_label(op2),
{
    reveal_strlit("Relu");
    reveal_strlit("Gelu");
    reveal_strlit("Silu");
    reveal_strlit("Add");
    assert("Gelu"@[0] != "Relu"@[0] && "Silu"@[0] != "Relu"@[0] && "Silu"@[0] != "Gelu"@[0]);
    assert("Add"@.len() != "Relu"@.len());
}

/// Whether `r` is the operations of `ops` at the increasing positions `idx`.
pub open spec fn picks(r: Seq<OmniOp>, ops: Seq<OmniOp>, idx: Seq<int>) -> bool {
    &&& idx.len() == r.len()
    &&& forall|p: int| 0 <= p < idx.len() ==> 0 <= #[trigger] idx[p] < ops.len() && r[p] == ops[idx[p]]
    &&& forall|p: int, q: int| 0 <= p < q < idx.len() ==> idx[p] < idx[q]
}

/// The positions in `ops` of the operations a backward sweep keeps.
spec fn dce_kept_positions(ops: Seq<OmniOp>, refs: Seq<Seq<char>>) -> Seq<int>
    decreases ops.len(),
{
    if ops.len() == 0 {
        seq![]
    } else {
        let op = ops.last();
        if refs.contains(op.output@) {
            dce_kept_positions(ops.drop_last(), refs + names(op.inputs@)).push(ops.len() - 1)
        } else {
            dce_kept_positions(ops.drop_last(), refs)
        }
    }
}

/// What a backward sweep keeps: an operation read by `refs` is kept; a kept
/// operation's producers before it are kept; a kept operation is read by
/// `refs` or by a later kept operation.
proof fn lemma_dce_kept_closed(ops: Seq<OmniOp>, refs: Seq<Seq<char>>)
    ensures
        picks(dce_kept(ops, refs), ops, dce_kept_positions(ops, refs)),
        forall|j: int|
            0 <= j < ops.len() && #[trigger] refs.contains(ops[j].output@) ==> dce_kept_positions(
                ops,
                refs,
            ).contains(j),
        forall|p: int, j: int|
            0 <= p < dce_kept_positions(ops, refs).len() && 0 <= j < dce_kept_positions(ops, refs)[p]
                && #[trigger] names(ops[dce_kept_positions(ops, refs)[p]].inputs@).contains(
                ops[j].output@,
            ) ==> dce_kept_positions(ops, refs).contains(j),
        forall|p: int|
            0 <= p < dce_kept(ops, refs).len() ==> refs.contains(#[trigger] dce_kept(ops, refs)[p].output@)
                || exists|q: int|
                p < q < dce_kept(ops, refs).len() && names(dce_kept(ops, refs)[q].inputs@).contains(
                    dce_kept(ops, refs)[p].output@,
                ),
    decreases ops.len(),
{
    if ops.len() > 0 {
        let op = ops.last();
        let rest = ops.drop_last();
        let n = ops.len() - 1;
        if refs.contains(op.output@) {
            let refs2 = refs + names(op.inputs@);
            lemma_dce_kept_closed(rest, refs2);
            let r0 = dce_kept(rest, refs2);
            let i0 = dce_kept_positions(rest, refs2);
            let r = dce_kept(ops, refs);
            let idx = dce_kept_positions(ops, refs);
            assert(r == r0.push(op));
            assert(idx == i0.push(n));
            assert forall|j: int|
                0 <= j < ops.len() && #[trigger] refs.contains(ops[j].output@) implies idx.contains(j) by {
                if j == n {
                    assert(idx[idx.len() - 1] == j);
                } else {
                    assert(ops[j] == rest[j]);
                    assert(refs2.contains(rest[j].output@)) by {
                        let w = choose|w: int| 0 <= w < refs.len() && refs[w] == ops[j].output@;
                        assert(refs2[w] == refs[w]);
                    }
                    let k = choose|k: int| 0 <= k < i0.len() && i0[k] == j;
                    assert(idx[k] == j);
                }
            }
            assert forall|p: int, j: int|
                0 <= p < idx.len() && 0 <= j < idx[p] && #[trigger] names(ops[idx[p]].inputs@).contains(
                    ops[j].output@,
                ) implies idx.contains(j) by {
                assert(ops[j] == rest[j]);
                if p == idx.len() - 1 {
                    assert(ops[idx[p]] == op);
                    assert(refs2.contains(rest[j].output@)) by {
                        let w = choose|w: int|
                            0 <= w < names(op.inputs@).len() && names(op.inputs@)[w] == ops[j].output@;
                        assert(refs2[refs.len() + w] == names(op.inputs@)[w]);
                    }
                } else {
                    assert(idx[p] == i0[p]);
                    assert(ops[idx[p]] == rest[i0[p]]);
                }
                let k = choose|k: int| 0 <= k < i0.len() && i0[k] == j;
                assert(idx[k] == j);
            }
            assert forall|p: int| 0 <= p < r.len() implies refs.contains(#[trigger] r[p].output@)
                || exists|q: int|
                p < q < r.len() && names(r[q].inputs@).contains(r[p].output@) by {
                if p < r.len() - 1 {
                    assert(r[p] == r0[p]);
                    if refs2.contains(r0[p].output@) {
                        let w = choose|w: int| 0 <= w < refs2.len() && refs2[w] == r0[p].output@;
                        if w >= refs.len() {
                            assert(names(op.inputs@)[w - refs.len()] == r0[p].output@);
                            assert(names(r[r.len() - 1].inputs@).contains(r[p].output@));
                        } else {
                            assert(refs[w] == r0[p].output@);
                        }
                    } else {
                        let q = choose|q: int|
                            p < q < r0.len() && names(r0[q].inputs@).contains(r0[p].output@);
                        assert(r[q] == r0[q]);
                    }
                }
            }
        } else {
            lemma_dce_kept_closed(rest, refs);
            let idx = dce_kept_positions(ops, refs);
            assert forall|j: int|
                0 <= j < ops.len() && #[trigger] refs.contains(ops[j].output@) implies idx.contains(j) by {
                assert(j != n);
                assert(ops[j] == rest[j]);
            }
            assert forall|p: int, j: int|
                0 <= p < idx.len() && 0 <= j < idx[p] && #[trigger] names(ops[idx[p]].inputs@).contains(
                    ops[j].output@,
                ) implies idx.contains(j) by {
                assert(ops[j] == rest[j]);
                assert(ops[idx[p]] == rest[idx[p]]);
            }
        }
    }
}

/// Dead code elimination keeps exactly what the root needs. The result is
/// the module's operations at increasing positions ending with the last
/// operation; whenever a kept operation reads a name that an earlier
/// operation produces, that producer is kept too (liveness is transitive);
/// and every kept operation other than the root is read by a later kept one.
pub proof fn law_dce_keeps_live_producers(ops: Seq<OmniOp>)
    requires
        ops.len() > 0,
    ensures
        exists|idx: Seq<int>|
            {
                &&& #[trigger] picks(dce_result(ops), ops, idx)
                &&& idx.last() == ops.len() - 1
                &&& forall|p: int, j: int|
                    0 <= p < idx.len() && 0 <= j < idx[p] && #[trigger] names(
                        ops[idx[p]].inputs@,
                    ).contains(ops[j].output@) ==> idx.contains(j)
                &&& forall|p: int|
                    0 <= p < idx.len() - 1 ==> exists|q: int|
                        p < q < idx.len() && names(dce_result(ops)[q].inputs@).contains(
                            #[trigger] dce_result(ops)[p].output@,
                        )
            },
{
    let n = ops.len() - 1;
    let rest = ops.drop_last();
    let root = ops.last();
    let refs = names(root.inputs@);
    lemma_dce_kept_closed(rest, refs);
    let r0 = dce_kept(rest, refs);
    let i0 = dce_kept_positions(rest, refs);
    let r = dce_result(ops);
    let idx = i0.push(n);
    assert(r == r0.push(root));
    assert(picks(r, ops, idx)) by {
        assert forall|p: int| 0 <= p < idx.len() implies 0 <= #[trigger] idx[p] < ops.len() && r[p]
            == ops[idx[p]] by {
            if p < idx.len() - 1 {
                assert(rest[i0[p]] == ops[i0[p]]);
            }
        }
    }
    assert forall|p: int, j: int|
        0 <= p < idx.len() && 0 <= j < idx[p] && #[trigger] names(ops[idx[p]].inputs@).contains(
            ops[j].output@,
        ) implies idx.contains(j) by {
        assert(ops[j] == rest[j]);
        if p < idx.len() - 1 {
            assert(ops[idx[p]] == rest[i0[p]]);
        } else {
            assert(refs.contains(rest[j].output@));
        }
        let k = choose|k: int| 0 <= k < i0.len() && i0[k] == j;
        assert(idx[k] == j);
    }
    assert forall|p: int| 0 <= p < idx.len() - 1 implies exists|q: int|
        p < q < idx.len() && names(r[q].inputs@).contains(#[trigger] r[p].output@) by {
        assert(r[p] == r0[p]);
        if refs.contains(r0[p].output@) {
            assert(names(r[idx.len() - 1].inputs@).contains(r[p].output@));
        } else {
            let q = choose|q: int| p < q < r0.len() && names(r0[q].inputs@).contains(r0[p].output@);
            assert(r[q] == r0[q]);
        }
    }
}

/// Coordinates the optimization passes for one target backend.
pub struct PassManager {
    target_backend: TargetBackend,
}

impl PassManager {
    /// The backend the passes optimize for.
    pub closed spec fn backend(&self) -> TargetBackend {
        self.target_backend
    }

    /// Creates a pass manager for a target backend.
    pub fn new(target_backend: TargetBackend) -> (r: Self)
        ensures
            r.backend() == target_backend,
    {
        PassManager { target_backend }
    }

    /// Plans constant folding: `Fill` operations make constants, and an
    /// addition or multiplication whose inputs are all constants is folded.
    /// Fails with the index of the first such operation that has fewer than
    /// two inputs.
    pub fn constant_fold_plan(&self, module: &OmniModule) -> (r: Result<Vec<FoldStep>, usize>)
        ensures
            match r {
                Ok(plan) => plan@ == fold_plan(module.ops@) && forall|i: int|
                    0 <= i < module.ops@.len() ==> !#[trigger] folding_stuck(module.ops@, i),
                Err(i) => i < module.ops@.len() && folding_stuck(module.ops@, i as int) && forall|
                    j: int,
                | 0 <= j < i ==> !#[trigger] folding_stuck(module.ops@, j),
            },
    {
        let ops = &module.ops;
        let mut sources: StrMap<usize> = StrMap::new();
        let mut plan: Vec<FoldStep> = Vec::new();
        let mut i: usize = 0;
        assert(ops@.take(0) =~= seq![]);
        while i < ops.len()
            invariant
                ops@ == module.ops@,
                i <= ops@.len(),
                plan@ == fold_plan(ops@.take(i as int)),
                plan@.len() == i,
                forall|name: Seq<char>|
                    #![trigger sources@.contains_key(name)]
                    sources@.contains_key(name) <==> constant_source(ops@, plan@, name) is Some,
                forall|name: Seq<char>|
                    #![trigger sources@.contains_key(name)]
                    sources@.contains_key(name) ==> sources@[name] as int == constant_source(
                        ops@,
                        plan@,
                        name,
                    ).unwrap(),
                forall|j: int| 0 <= j < i ==> !#[trigger] folding_stuck(ops@, j),
            decreases ops@.len() - i,
        {
            let ghost prefix = ops@.take(i as int);
            let ghost next = ops@.take(i + 1);
            let op = &ops[i];
            proof {
                assert(prefix.len() == plan@.len());
                assert(next.drop_last() =~= prefix);
                assert(next.last() == ops@[i as int]);
                assert forall|name: Seq<char>| #[trigger]
                    constant_source(next, plan@, name) == constant_source(ops@, plan@, name) by {
                    lemma_constant_source_prefix(next, ops@, plan@, name);
                }
                assert(fold_plan(next) == plan@.push(fold_step(ops@[i as int], next, plan@)));
                let opi = ops@[i as int];
                assert(inputs_constant(opi, next, plan@) == inputs_constant(opi, ops@, plan@)) by {
                    assert forall|k: int| 0 <= k < opi.inputs@.len() implies constant_source(
                        next,
                        plan@,
                        opi.inputs@[k]@,
                    ) == constant_source(ops@, plan@, opi.inputs@[k]@) by {
                        lemma_constant_source_prefix(next, ops@, plan@, opi.inputs@[k]@);
                    }
                }
            }
            let step = match &op.kind {
                OpKind::Fill { .. } => FoldStep::Constant,
                OpKind::Add | OpKind::Mul => {
                    let known = all_known(&op.inputs, &sources);
                    proof {
                        assert(known == inputs_constant(ops@[i as int], ops@, plan@));
                    }
                    if known {
                        if op.inputs.len() < 2 {
                            proof {
                                assert(folding_stuck(ops@, i as int));
                            }
                            return Err(i);
                        }
                        let a: usize = match sources.get(op.inputs[0].as_str()) {
                            Some(v) => *v,
                            None => 0,
                        };
                        let b: usize = match sources.get(op.inputs[1].as_str()) {
                            Some(v) => *v,
                            None => 0,
                        };
                        proof {
                            assert(sources@.contains_key(op.inputs@[0]@));
                            assert(sources@.contains_key(op.inputs@[1]@));
                        }
                        match &op.kind {
                            OpKind::Add => FoldStep::Sum(a, b),
                            _ => FoldStep::Product(a, b),
                        }
                    } else {
                        FoldStep::Keep
                    }
                },
                _ => FoldStep::Keep,
            };
            assert(step == fold_step(ops@[i as int], next, plan@));
            assert(!folding_stuck(ops@, i as int));
            let ghost old_plan = plan@;
            if step != FoldStep::Keep {
                sources.insert(op.output.clone(), i);
            }
            plan.push(step);
            proof {
                assert forall|name: Seq<char>|
                    #![trigger sources@.contains_key(name)]
                    sources@.contains_key(name) <==> constant_source(ops@, plan@, name) is Some by {
                    lemma_constant_source_push(ops@, old_plan, step, name);
                }
                assert forall|name: Seq<char>|
                    #![trigger sources@.contains_key(name)]
                    sources@.contains_key(name) implies sources@[name] as int == constant_source(
                        ops@,
                        plan@,
                        name,
                    ).unwrap() by {
                    lemma_constant_source_push(ops@, old_plan, step, name);
                }
            }
            i = i + 1;
        }
        assert(ops@.take(i as int) =~= ops@);
        Ok(plan)
    }

    /// Applies a folding plan: every folded addition or multiplication
    /// becomes a `Fill` of the value computed for it in `values`; every other
    /// operation is left as it is.
    pub fn apply_constant_folding(&self, module: &mut OmniModule, plan: &Vec<FoldStep>, values: &Vec<F64Bits>)
        requires
            plan@ == fold_plan(old(module).ops@),
            values@.len() == old(module).ops@.len(),
        ensures
            final(module).ops@.len() == old(module).ops@.len(),
            forall|i: int|
                0 <= i < old(module).ops@.len() ==> (#[trigger] final(module).ops@[i]) == match plan@[i] {
                    FoldStep::Sum(_, _) | FoldStep::Product(_, _) => OmniOp {
                        kind: OpKind::Fill { value: values@[i] },
                        ..old(module).ops@[i]
                    },
                    _ => old(module).ops@[i],
                },
            final(module).value_types == old(module).value_types,
            final(module).attrs == old(module).attrs,
            final(module).next_id == old(module).next_id,
    {
        let ghost orig = module.ops@;
        proof {
            lemma_fold_plan_len(orig);
        }
        let mut ops: Vec<OmniOp> = Vec::new();
        std::mem::swap(&mut ops, &mut module.ops);
        let mut out: Vec<OmniOp> = Vec::new();
        let n: usize = values.len();
        let mut i: usize = 0;
        while ops.len() > 0
            invariant
                n == orig.len(),
                i == out@.len(),
                out@.len() + ops@.len() == orig.len(),
                ops@ == orig.subrange(i as int, orig.len() as int),
                plan@.len() == orig.len(),
                values@.len() == orig.len(),
                forall|j: int|
                    0 <= j < i ==> (#[trigger] out@[j]) == match plan@[j] {
                        FoldStep::Sum(_, _) | FoldStep::Product(_, _) => OmniOp {
                            kind: OpKind::Fill { value: values@[j] },
                            ..orig[j]
                        },
                        _ => orig[j],
                    },
            decreases ops@.len(),
        {
            let mut op = ops.remove(0);
            assert(op == orig[i as int]);
            match plan[i] {
                FoldStep::Sum(_, _) | FoldStep::Product(_, _) => {
                    op.kind = OpKind::Fill { value: values[i] };
                },
                _ => {},
            }
            out.push(op);
            i = i + 1;
            proof {
                assert(ops@ =~= orig.subrange(i as int, orig.len() as int));
            }
        }
        module.ops = out;
    }

    /// Fuses element-wise epilogues (ReLU, GELU, SiLU, addition) into the
    /// matrix multiplication right before them when they read its output.
    pub fn run_operator_fusion(&self, module: &mut OmniModule)
        ensures
            final(module).ops@.len() == fusion_plan(old(module).ops@).len(),
            forall|j: int|
                0 <= j < final(module).ops@.len() ==> realizes(
                    #[trigger] fusion_plan(old(module).ops@)[j],
                    final(module).ops@[j],
                ),
            final(module).value_types == old(module).value_types,
            final(module).attrs == old(module).attrs,
            final(module).next_id == old(module).next_id,
    {
        let mut ops: Vec<OmniOp> = Vec::new();
        std::mem::swap(&mut ops, &mut module.ops);
        let ghost orig = ops@;
        let mut out: Vec<OmniOp> = Vec::new();
        while ops.len() > 0
            invariant
                fusion_plan(orig) =~= fusion_plan_done(orig, ops@),
                out@.len() == fusion_plan(orig).len() - fusion_plan(ops@).len(),
                fusion_plan(orig).len() >= fusion_plan(ops@).len(),
                forall|j: int|
                    0 <= j < out@.len() ==> realizes(#[trigger] fusion_plan(orig)[j], out@[j]),
            decreases ops@.len(),
        {
            let ghost before = ops@;
            let cur = ops.remove(0);
            let fuse_next = if ops.len() > 0 {
                fuses_exec(&cur, &ops[0])
            } else {
                false
            };
            if fuse_next {
                let next = ops.remove(0);
                proof {
                    assert(before.len() >= 2 && fuses(before[0], before[1]));
                    assert(ops@ =~= before.subrange(2, before.len() as int));
                    lemma_plan_done_step(orig, before, ops@);
                }
                let fused = fuse_pair(cur, next);
                out.push(fused);
            } else {
                proof {
                    assert(!(before.len() >= 2 && fuses(before[0], before[1])));
                    assert(ops@ =~= before.drop_first());
                    lemma_plan_done_step(orig, before, ops@);
                }
                out.push(cur);
            }
        }
        module.ops = out;
    }

    /// Annotates every matrix multiplication with cache-aligned tiling
    /// parameters for the target backend.
    pub fn run_loop_tiling(&self, module: &mut OmniModule)
        ensures
            final(module).ops@.len() == old(module).ops@.len(),
            forall|j: int|
                0 <= j < final(module).ops@.len() ==> is_tiled(
                    #[trigger] final(module).ops@[j],
                    old(module).ops@[j],
                    tile_edge(self.backend()),
                ),
            final(module).value_types == old(module).value_types,
            final(module).attrs == old(module).attrs,
            final(module).next_id == old(module).next_id,
    {
        let tile: i64 = match self.target_backend {
            TargetBackend::AmdRocm { .. } => 64,
            TargetBackend::AppleMetal { .. } => 32,
            TargetBackend::VulkanGeneric { .. } => 16,
            TargetBackend::CpuVectorized { .. } | TargetBackend::RemoteP2p { .. } => 8,
        };
        let mut ops: Vec<OmniOp> = Vec::new();
        std::mem::swap(&mut ops, &mut module.ops);
        let ghost orig = ops@;
        let mut out: Vec<OmniOp> = Vec::new();
        while ops.len() > 0
            invariant
                out@.len() + ops@.len() == orig.len(),
                ops@ == orig.subrange(out@.len() as int, orig.len() as int),
                forall|j: int| 0 <= j < out@.len() ==> is_tiled(#[trigger] out@[j], orig[j], tile),
            decreases ops@.len(),
        {
            let ghost k = out@.len();
            let mut op = ops.remove(0);
            assert(op == orig[k as int]);
            let mm = match op.kind {
                OpKind::MatMul | OpKind::BatchedMatMul => true,
                _ => false,
            };
            if mm {
                op.attrs.insert(owned("tile_m"), AttrValue::Int(tile));
                op.attrs.insert(owned("tile_n"), AttrValue::Int(tile));
                op.attrs.insert(owned("tile_k"), AttrValue::Int(16));
                op.attrs.insert(owned("vector_width"), AttrValue::Int(4));
            }
            out.push(op);
            proof {
                assert(ops@ =~= orig.subrange(out@.len() as int, orig.len() as int));
            }
        }
        module.ops = out;
    }

    /// Removes operations whose outputs no live operation reads. The last
    /// operation is the root and is always kept; the sweep runs from it to
    /// the first operation.
    pub fn run_dce(&self, module: &mut OmniModule)
        ensures
            final(module).ops@ == dce_result(old(module).ops@),
            final(module).value_types == old(module).value_types,
            final(module).attrs == old(module).attrs,
            final(module).next_id == old(module).next_id,
    {
        let mut ops: Vec<OmniOp> = Vec::new();
        std::mem::swap(&mut ops, &mut module.ops);
        if ops.len() == 0 {
            module.ops = ops;
            return;
        }
        let ghost orig = ops@;
        let root = ops.pop().unwrap();
        proof {
            assert(orig.drop_last() =~= ops@);
            assert(orig.last() == root);
        }
        let mut referenced: Vec<String> = Vec::new();
        add_names(&mut referenced, &root.inputs);
        assert(names(referenced@) =~= names(root.inputs@));
        let mut kept_rev: Vec<OmniOp> = Vec::new();
        kept_rev.push(root);
        assert(dce_kept(ops@, names(referenced@)) + kept_rev@.reverse() =~= dce_result(orig));
        while ops.len() > 0
            invariant
                dce_result(orig) == dce_kept(ops@, names(referenced@)) + kept_rev@.reverse(),
            decreases ops@.len(),
        {
            let ghost before = ops@;
            let op = ops.pop().unwrap();
            proof {
                assert(before.drop_last() =~= ops@);
                assert(before.last() == op);
            }
            if names_contain(&referenced, &op.output) {
                add_names(&mut referenced, &op.inputs);
                let ghost kr = kept_rev@;
                kept_rev.push(op);
                proof {
                    assert(kept_rev@.reverse() =~= seq![op] + kr.reverse());
                }
            }
        }
        let mut out: Vec<OmniOp> = Vec::new();
        let ghost all = kept_rev@.reverse();
        while kept_rev.len() > 0
            invariant
                all == out@ + kept_rev@.reverse(),
            decreases kept_rev@.len(),
        {
            let ghost before = kept_rev@;
            let op = kept_rev.pop().unwrap();
            out.push(op);
            proof {
                assert(before.reverse() =~= seq![op] + kept_rev@.reverse());
            }
        }
        assert(out@ =~= all);
        module.ops = out;
    }
}

/// Appends copies of `inputs` to `referenced`.
fn add_names(referenced: &mut Vec<String>, inputs: &Vec<String>)
    ensures
        names(final(referenced)@) == names(old(referenced)@) + names(inputs@),
{
    let ghost refs = names(referenced@);
    let mut i: usize = 0;
    while i < inputs.len()
        invariant
            i <= inputs@.len(),
            names(referenced@) == refs + names(inputs@.take(i as int)),
        decreases inputs@.len() - i,
    {
        let ghost prev_ref = referenced@;
        referenced.push(inputs[i].clone());
        assert(names(referenced@) =~= names(prev_ref).push(inputs@[i as int]@));
        i = i + 1;
        proof {
            assert(names(inputs@.take(i as int)) =~= names(inputs@.take(i - 1)).push(
                inputs@[i - 1]@,
            ));
            assert(names(referenced@) =~= refs + names(inputs@.take(i as int)));
        }
    }
    assert(inputs@.take(i as int) =~= inputs@);
}

/// How constant folding treats one operation.
#[derive(Debug, Clone, Copy, PartialEq, Eq, Structural)]
pub enum FoldStep {
    /// Left as it is.
    Keep,
    /// A `Fill`: its output is a known constant.
    Constant,
    /// An addition of two known constants, made by the operations at these
    /// indices; it becomes a `Fill` of their sum.
    Sum(usize, usize),
    /// A multiplication of two known constants, made by the operations at
    /// these indices; it becomes a `Fill` of their product.
    Product(usize, usize),
}

/// The index of the latest operation, among those `steps` covers, that made
/// a constant named `name`.
pub open spec fn constant_source(ops: Seq<OmniOp>, steps: Seq<FoldStep>, name: Seq<char>) -> Option<
    int,
>
    decreases steps.len(),
{
    if steps.len() == 0 {
        None
    } else if steps.last() != FoldStep::Keep && ops[steps.len() - 1].output@ == name {
        Some(steps.len() - 1)
    } else {
        constant_source(ops, steps.drop_last(), name)
    }
}

/// Whether every input of `op` names a known constant.
pub open spec fn inputs_constant(op: OmniOp, ops: Seq<OmniOp>, steps: Seq<FoldStep>) -> bool {
    forall|k: int|
        0 <= k < op.inputs@.len() ==> (#[trigger] constant_source(ops, steps, op.inputs@[k]@)) is Some
}

/// The folding step for `op`, given the steps of the operations before it.
pub open spec fn fold_step(op: OmniOp, ops: Seq<OmniOp>, steps: Seq<FoldStep>) -> FoldStep {
    let a = constant_source(ops, steps, op.inputs@[0]@).unwrap() as usize;
    let b = constant_source(ops, steps, op.inputs@[1]@).unwrap() as usize;
    match op.kind {
        OpKind::Fill { .. } => FoldStep::Constant,
        OpKind::Add => if inputs_constant(op, ops, steps) {
            FoldStep::Sum(a, b)
        } else {
            FoldStep::Keep
        },
        OpKind::Mul => if inputs_constant(op, ops, steps) {
            FoldStep::Product(a, b)
        } else {
            FoldStep::Keep
        },
        _ => FoldStep::Keep,
    }
}

/// The folding steps of a list of operations, front to back.
pub open spec fn fold_plan(ops: Seq<OmniOp>) -> Seq<FoldStep>
    decreases ops.len(),
{
    if ops.len() == 0 {
        seq![]
    } else {
        let prev = fold_plan(ops.drop_last());
        prev.push(fold_step(ops.last(), ops, prev))
    }
}

/// Whether folding cannot proceed at operation `i`: an addition or
/// multiplication whose inputs are all constants has fewer than two inputs.
pub open spec fn folding_stuck(ops: Seq<OmniOp>, i: int) -> bool {
    let op = ops[i];
    &&& (op.kind == OpKind::Add || op.kind == OpKind::Mul)
    &&& inputs_constant(op, ops, fold_plan(ops.take(i)))
    &&& op.inputs@.len() < 2
}

/// `constant_source` reads only the operations its steps cover.
proof fn lemma_constant_source_prefix(a: Seq<OmniOp>, b: Seq<OmniOp>, steps: Seq<FoldStep>, name: Seq<char>)
    requires
        steps.len() <= a.len(),
        steps.len() <= b.len(),
        forall|j: int| 0 <= j < steps.len() ==> a[j] == b[j],
    ensures
        constant_source(a, steps, name) == constant_source(b, steps, name),
    decreases steps.len(),
{
    if steps.len() > 0 {
        lemma_constant_source_prefix(a, b, steps.drop_last(), name);
    }
}

/// `constant_source` after one more step.
proof fn lemma_constant_source_push(ops: Seq<OmniOp>, steps: Seq<FoldStep>, s: FoldStep, name: Seq<char>)
    ensures
        constant_source(ops, steps.push(s), name) == if s != FoldStep::Keep
            && ops[steps.len() as int].output@ == name {
            Some(steps.len() as int)
        } else {
            constant_source(ops, steps, name)
        },
{
    assert(steps.push(s).drop_last() =~= steps);
}

/// The plan has one step per operation.
proof fn lemma_fold_plan_len(ops: Seq<OmniOp>)
    ensures
        fold_plan(ops).len() == ops.len(),
    decreases ops.len(),
{
    if ops.len() > 0 {
        lemma_fold_plan_len(ops.drop_last());
    }
}

/// Whether every name in `inputs` is a key of `sources`.
fn all_known(inputs: &Vec<String>, sources: &StrMap<usize>) -> (r: bool)
    ensures
        r == forall|k: int| 0 <= k < inputs@.len() ==> sources@.contains_key(#[trigger] inputs@[k]@),
{
    let mut k: usize = 0;
    while k < inputs.len()
        invariant
            k <= inputs@.len(),
            forall|j: int| 0 <= j < k ==> sources@.contains_key(#[trigger] inputs@[j]@),
        decreases inputs@.len() - k,
    {
        if !sources.contains_key(inputs[k].as_str()) {
            return false;
        }
        k = k + 1;
    }
    true
}


/// The plan for `orig` is the plan for what has been processed followed by
/// the plan for what remains; stated through lengths.
pub open spec fn fusion_plan_done(orig: Seq<OmniOp>, rest: Seq<OmniOp>) -> Seq<FusionStep> {
    fusion_plan(orig).subrange(0, fusion_plan(orig).len() - fusion_plan(rest).len())
        + fusion_plan(rest)
}

proof fn lemma_plan_done_step(orig: Seq<OmniOp>, before: Seq<OmniOp>, after: Seq<OmniOp>)
    requires
        fusion_plan(orig) =~= fusion_plan_done(orig, before),
        fusion_plan(orig).len() >= fusion_plan(before).len(),
        before.len() > 0,
        (before.len() >= 2 && fuses(before[0], before[1])) ==> after == before.subrange(
            2,
            before.len() as int,
        ),
        !(before.len() >= 2 && fuses(before[0], before[1])) ==> after == before.drop_first(),
    ensures
        fusion_plan(before) == seq![
            if before.len() >= 2 && fuses(before[0], before[1]) {
                FusionStep::Fuse(before[0], before[1])
            } else {
                FusionStep::Keep(before[0])
            },
        ] + fusion_plan(after),
        fusion_plan(orig) =~= fusion_plan_done(orig, after),
        fusion_plan(orig).len() >= fusion_plan(after).len(),
{
    let p = fusion_plan(orig);
    let pb = fusion_plan(before);
    let pa = fusion_plan(after);
    assert(pb.len() == pa.len() + 1);
    let k = p.len() - pb.len();
    assert(p.subrange(0, k + 1) =~= p.subrange(0, k).push(pb[0]));
    assert(p =~= p.subrange(0, k + 1) + pa);
}

/// Executable form of `fuses`.
fn fuses_exec(cur: &OmniOp, next: &OmniOp) -> (r: bool)
    ensures
        r == fuses(*cur, *next),
{
    let mm = match cur.kind {
        OpKind::MatMul | OpKind::BatchedMatMul => true,
        _ => false,
    };
    let epi = match next.kind {
        OpKind::Relu | OpKind::Gelu | OpKind::Silu | OpKind::Add => true,
        _ => false,
    };
    if !(mm && epi) {
        return false;
    }
    names_contain(&next.inputs, &cur.output)
}

/// Whether a list of names contains `x`.
pub fn names_contain(v: &Vec<String>, x: &String) -> (r: bool)
    ensures
        r == names(v@).contains(x@),
{
    let mut i: usize = 0;
    while i < v.len()
        invariant
            i <= v@.len(),
            forall|j: int| 0 <= j < i ==> v@[j]@ != x@,
        decreases v@.len() - i,
    {
        if str_eq(v[i].as_str(), x.as_str()) {
            assert(names(v@)[i as int] == x@);
            return true;
        }
        i = i + 1;
    }
    assert forall|j: int| 0 <= j < names(v@).len() implies names(v@)[j] != x@ by {
        assert(names(v@)[j] == v@[j]@);
    }
    false
}

/// Fuses `next` into `cur`.
fn fuse_pair(cur: OmniOp, next: OmniOp) -> (r: OmniOp)
    ensures
        is_fused(r, cur, next),
{
    let is_add = match next.kind {
        OpKind::Add => true,
        _ => false,
    };
    let mut label = String::new();
    match next.kind {
        OpKind::Relu => push_str(&mut label, "Relu"),
        OpKind::Gelu => push_str(&mut label, "Gelu"),
        OpKind::Silu => push_str(&mut label, "Silu"),
        _ => push_str(&mut label, "Add"),
    }
    assert(label@ =~= epilogue_name(next.kind));
    let mut fused = cur;
    let ghost cur0 = fused;
    let mut key = String::new();
    push_str(&mut key, "fused_activation");
    assert(key@ =~= fused_key());
    let ghost label_view = label@;
    fused.attrs.insert(key, AttrValue::String(label));
    assert(fused.attrs@.dom() =~= cur0.attrs@.dom().insert(fused_key()));
    let ghost tagged = fused;
    if is_add {
        let mut i: usize = 0;
        while i < next.inputs.len()
            invariant
                i <= next.inputs@.len(),
                names(fused.inputs@) == names(cur0.inputs@) + without(
                    names(next.inputs@.take(i as int)),
                    cur0.output@,
                ),
                fused.output == cur0.output,
                fused.id == tagged.id,
                fused.kind == tagged.kind,
                fused.attrs == tagged.attrs,
                fused.result_type == tagged.result_type,
            decreases next.inputs@.len() - i,
        {
            let ghost prev = fused.inputs@;
            proof {
                assert(names(next.inputs@.take(i + 1)).drop_last() =~= names(
                    next.inputs@.take(i as int),
                ));
                assert(names(next.inputs@.take(i + 1)).last() == next.inputs@[i as int]@);
            }
            if !str_eq(next.inputs[i].as_str(), fused.output.as_str()) {
                fused.inputs.push(next.inputs[i].clone());
                proof {
                    assert(names(fused.inputs@) =~= names(prev).push(next.inputs@[i as int]@));
                }
            }
            i = i + 1;
        }
        assert(next.inputs@.take(i as int) =~= next.inputs@);
    } else {
        assert(names(fused.inputs@) =~= names(cur0.inputs@) + seq![]);
    }
    fused.output = next.output;
    fused.result_type = next.result_type;
    fused
}

} // verus!
