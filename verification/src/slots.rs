//! The temporary-slot discipline.
//!
//! Within one emitted fragment every slot allocation is matched by exactly
//! one free, frees happen in reverse allocation order, and no instruction
//! refers to a slot position deeper than the number of slots allocated at
//! that point of the sequence. Violating this corrupts the relative
//! addressing of `LoadUnderTMPLocal`.

use vstd::prelude::*;
use crate::cil_op::CILOp;

verus! {

/// How an instruction changes the number of allocated temporary slots.
pub open spec fn slot_effect(op: CILOp) -> int {
    match op {
        CILOp::NewTMPLocal(_) => 1,
        CILOp::FreeTMPLocal => -1,
        _ => 0,
    }
}

/// Whether an instruction's slot references stay within `depth` allocated
/// slots. `LoadUnderTMPLocal(n)` reads the slot `n` positions below the top,
/// so `n + 1` slots must exist.
pub open spec fn slot_ref_ok(op: CILOp, depth: int) -> bool {
    match op {
        CILOp::SetTMPLocal => depth >= 1,
        CILOp::LoadTMPLocal => depth >= 1,
        CILOp::LoadAddresOfTMPLocal => depth >= 1,
        CILOp::FreeTMPLocal => depth >= 1,
        CILOp::LoadUnderTMPLocal(n) => depth >= n + 1,
        _ => true,
    }
}

/// An instruction that neither allocates, frees, nor addresses a temporary
/// slot. The conversion, constant, arithmetic and call operands handed to
/// the strategies must all be of this kind.
pub open spec fn slot_neutral(op: CILOp) -> bool {
    match op {
        CILOp::NewTMPLocal(_) => false,
        CILOp::SetTMPLocal => false,
        CILOp::LoadTMPLocal => false,
        CILOp::LoadUnderTMPLocal(_) => false,
        CILOp::LoadAddresOfTMPLocal => false,
        CILOp::FreeTMPLocal => false,
        _ => true,
    }
}

/// Walks `ops` from position `i` with `depth` slots currently allocated and
/// checks that every slot reference is in bounds, the depth never goes
/// negative, and exactly `depth` frees remain unmatched at the end.
pub open spec fn slots_ok_from(ops: Seq<CILOp>, i: int, depth: int) -> bool
    decreases ops.len() - i,
{
    if i < 0 || i >= ops.len() {
        depth == 0
    } else {
        &&& slot_ref_ok(ops[i], depth)
        &&& depth + slot_effect(ops[i]) >= 0
        &&& slots_ok_from(ops, i + 1, depth + slot_effect(ops[i]))
    }
}

/// A fragment whose slot allocations and frees balance to zero and whose
/// slot references never reach below the slots allocated at that point.
pub open spec fn slots_balanced(ops: Seq<CILOp>) -> bool {
    slots_ok_from(ops, 0, 0)
}

/// A slot-neutral instruction keeps the depth unchanged and makes no slot
/// reference, whatever the current depth is.
pub proof fn lemma_slot_neutral(op: CILOp, depth: int)
    requires
        slot_neutral(op),
    ensures
        slot_effect(op) == 0,
        slot_ref_ok(op, depth),
{
}

} // verus!
