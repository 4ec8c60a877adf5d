//! Blind splitting of a module for the P2P network: operations that touch
//! user tokens stay on the local machine, privacy-flat arithmetic may be
//! offloaded to remote workers.
use crate::dialect::{same_op, OmniModule, OmniOp, OpKind};
use vstd::prelude::*;

verus! {

broadcast use vstd::seq_lib::group_seq_properties;

/// Whether an operation kind is compute-heavy arithmetic that carries no
/// token indices and may leave the machine: matrix products, addition,
/// multiplication and unary functions.
pub open spec fn offloadable(k: OpKind) -> bool {
    match k {
        OpKind::MatMul | OpKind::BatchedMatMul | OpKind::Add | OpKind::Mul
        | OpKind::UnaryFunc { .. } => true,
        _ => false,
    }
}

/// The operations that stay local, in order.
pub open spec fn local_ops(ops: Seq<OmniOp>) -> Seq<OmniOp>
    decreases ops.len(),
{
    if ops.len() == 0 {
        seq![]
    } else if offloadable(ops.last().kind) {
        local_ops(ops.drop_last())
    } else {
        local_ops(ops.drop_last()).push(ops.last())
    }
}

/// The operations that may be offloaded, in order.
pub open spec fn global_ops(ops: Seq<OmniOp>) -> Seq<OmniOp>
    decreases ops.len(),
{
    if ops.len() == 0 {
        seq![]
    } else if offloadable(ops.last().kind) {
        global_ops(ops.drop_last()).push(ops.last())
    } else {
        global_ops(ops.drop_last())
    }
}

/// Blind splitting is a partition: every operation lands in exactly one of
/// the two sets, so their sizes add up to the module's.
pub proof fn law_split_partitions(ops: Seq<OmniOp>)
    ensures
        local_ops(ops).len() + global_ops(ops).len() == ops.len(),
        forall|i: int| 0 <= i < local_ops(ops).len() ==> !offloadable(#[trigger] local_ops(ops)[i].kind),
        forall|i: int| 0 <= i < global_ops(ops).len() ==> offloadable(#[trigger] global_ops(ops)[i].kind),
    decreases ops.len(),
{
    if ops.len() > 0 {
        law_split_partitions(ops.drop_last());
    }
}

/// Whether a kind is one of the privacy-flat arithmetic kinds: matrix
/// products, addition, multiplication or a unary function.
pub open spec fn is_flat_arithmetic(k: OpKind) -> bool {
    k == OpKind::MatMul || k == OpKind::BatchedMatMul || k == OpKind::Add || k == OpKind::Mul
        || k is UnaryFunc
}

/// Whether a kind touches user token data: gather, scatter or softmax.
pub open spec fn touches_tokens(k: OpKind) -> bool {
    k is Gather || k is Scatter || k is Softmax
}

/// Only privacy-flat arithmetic leaves the machine: every offloaded
/// operation is a matrix product, addition, multiplication or unary
/// function, and every such operation of the module is offloaded; every
/// other operation, among them each gather, scatter and softmax, stays local.
pub proof fn law_split_keeps_token_ops_local(ops: Seq<OmniOp>)
    ensures
        forall|j: int| 0 <= j < global_ops(ops).len() ==> is_flat_arithmetic(#[trigger] global_ops(ops)[j].kind),
        forall|j: int| 0 <= j < local_ops(ops).len() ==> !is_flat_arithmetic(#[trigger] local_ops(ops)[j].kind),
        forall|i: int| 0 <= i < ops.len() && touches_tokens(#[trigger] ops[i].kind) ==> local_ops(ops).contains(ops[i]),
        forall|i: int| 0 <= i < ops.len() && !is_flat_arithmetic(#[trigger] ops[i].kind) ==> local_ops(ops).contains(ops[i]),
        forall|i: int| 0 <= i < ops.len() && is_flat_arithmetic(#[trigger] ops[i].kind) ==> global_ops(ops).contains(ops[i]),
    decreases ops.len(),
{
    if ops.len() > 0 {
        let rest = ops.drop_last();
        let last = ops.last();
        law_split_keeps_token_ops_local(rest);
        assert(offloadable(last.kind) == is_flat_arithmetic(last.kind));
        let l = local_ops(ops);
        let g = global_ops(ops);
        assert forall|i: int| 0 <= i < ops.len() && !is_flat_arithmetic(#[trigger] ops[i].kind) implies l.contains(ops[i]) by {
            if i == ops.len() - 1 {
                assert(l[l.len() - 1] == ops[i]);
            } else {
                assert(ops[i] == rest[i]);
                let k = choose|k: int| 0 <= k < local_ops(rest).len() && local_ops(rest)[k] == rest[i];
                assert(l[k] == rest[i]);
            }
        }
        assert forall|i: int| 0 <= i < ops.len() && is_flat_arithmetic(#[trigger] ops[i].kind) implies g.contains(ops[i]) by {
            if i == ops.len() - 1 {
                assert(g[g.len() - 1] == ops[i]);
            } else {
                assert(ops[i] == rest[i]);
                let k = choose|k: int| 0 <= k < global_ops(rest).len() && global_ops(rest)[k] == rest[i];
                assert(g[k] == rest[i]);
            }
        }
        assert forall|i: int| 0 <= i < ops.len() && touches_tokens(#[trigger] ops[i].kind) implies l.contains(ops[i]) by {
            assert(!is_flat_arithmetic(ops[i].kind));
        }
    }
}

/// Whether `copies` holds, position by position, copies of `ops`.
pub open spec fn copies_of(copies: Seq<OmniOp>, ops: Seq<OmniOp>) -> bool {
    &&& copies.len() == ops.len()
    &&& forall|i: int| 0 <= i < ops.len() ==> same_op(#[trigger] ops[i], copies[i])
}

/// Splits modules between the local machine and the network.
pub struct TaskRouter;

impl TaskRouter {
    /// Creates a router.
    pub fn new() -> (r: Self) {
        TaskRouter
    }

    /// Splits a module into the operations pinned to the local machine
    /// (gather, scatter, softmax and every kind not known to be safe) and
    /// those that may be offloaded, each in module order.
    pub fn blind_split(&self, module: &OmniModule) -> (r: (Vec<OmniOp>, Vec<OmniOp>))
        ensures
            copies_of(r.0@, local_ops(module.ops@)),
            copies_of(r.1@, global_ops(module.ops@)),
    {
        let ops = &module.ops;
        let mut local: Vec<OmniOp> = Vec::new();
        let mut global: Vec<OmniOp> = Vec::new();
        let mut i: usize = 0;
        assert(ops@.take(0) =~= seq![]);
        while i < ops.len()
            invariant
                i <= ops@.len(),
                copies_of(local@, local_ops(ops@.take(i as int))),
                copies_of(global@, global_ops(ops@.take(i as int))),
            decreases ops@.len() - i,
        {
            let ghost prefix = ops@.take(i as int);
            let ghost next = ops@.take(i + 1);
            proof {
                assert(next.drop_last() =~= prefix);
                assert(next.last() == ops@[i as int]);
            }
            let op = &ops[i];
            let offload = match op.kind {
                OpKind::MatMul | OpKind::BatchedMatMul | OpKind::Add | OpKind::Mul
                | OpKind::UnaryFunc { .. } => true,
                _ => false,
            };
            let copy = op.deep_copy();
            if offload {
                global.push(copy);
            } else {
                local.push(copy);
            }
            i = i + 1;
        }
        assert(ops@.take(i as int) =~= ops@);
        (local, global)
    }
}

} // verus!
