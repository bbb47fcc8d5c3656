//! Lowering of checked binary operations.
//!
//! Each strategy emits a self-contained instruction fragment that consumes
//! the two same-typed operands on the evaluation stack and leaves a single
//! result pair `{value, overflow}` behind, with the temporary-slot stack
//! balanced. The dispatchers `add`, `sub` and `mul` select the strategy and
//! its constants per operand type; `binop_checked` is the entry point.

use vstd::prelude::*;
use crate::cil_op::{
    type_max, type_min, wide_call, wide_call_op, CILOp, CallSite, Field, FieldDescriptor, FnSig,
    RuntimeType, SlotType, Type, WideOp,
};
use crate::codegen_error::{BinOp, CodegenError};
use crate::slots::{lemma_slot_neutral, slot_neutral, slots_balanced, slots_ok_from};

verus! {

/// The fragment of the unsigned-add mask strategy: store both operands,
/// add, truncate, and read overflow off `sum < (a | b)`; then build the
/// result pair and free all five temporaries in reverse order.
pub open spec fn uadd_mask_ops(tpe: Type, truncate: CILOp) -> Seq<CILOp> {
    seq![
        CILOp::NewTMPLocal(SlotType::Scalar(tpe)),
        CILOp::SetTMPLocal,
        CILOp::NewTMPLocal(SlotType::Scalar(tpe)),
        CILOp::SetTMPLocal,
        CILOp::LoadTMPLocal,
        CILOp::LoadUnderTMPLocal(1),
        CILOp::Add,
        truncate,
        CILOp::Dup,
        CILOp::NewTMPLocal(SlotType::Scalar(tpe)),
        CILOp::SetTMPLocal,
        CILOp::LoadUnderTMPLocal(1),
        CILOp::LoadUnderTMPLocal(2),
        CILOp::Or,
        CILOp::Lt,
        CILOp::NewTMPLocal(SlotType::Scalar(Type::Bool)),
        CILOp::SetTMPLocal,
        CILOp::NewTMPLocal(SlotType::Pair(tpe)),
        CILOp::LoadAddresOfTMPLocal,
        CILOp::LoadUnderTMPLocal(1),
        CILOp::STField(FieldDescriptor { owner: tpe, tpe: Type::Bool, name: Field::Item2 }),
        CILOp::LoadAddresOfTMPLocal,
        CILOp::LoadUnderTMPLocal(2),
        CILOp::STField(FieldDescriptor { owner: tpe, tpe: tpe, name: Field::Item1 }),
        CILOp::LoadTMPLocal,
        CILOp::FreeTMPLocal,
        CILOp::FreeTMPLocal,
        CILOp::FreeTMPLocal,
        CILOp::FreeTMPLocal,
        CILOp::FreeTMPLocal,
    ]
}

/// Emits the unsigned-add mask strategy for `tpe`, truncating the raw sum
/// with `truncate`.
pub fn checked_uadd_type(tpe: Type, truncate: CILOp) -> (r: Vec<CILOp>)
    requires
        slot_neutral(truncate),
    ensures
        r@ == uadd_mask_ops(tpe, truncate),
        slots_balanced(r@),
{
    let mut r: Vec<CILOp> = Vec::new();
    r.push(CILOp::NewTMPLocal(SlotType::Scalar(tpe)));
    r.push(CILOp::SetTMPLocal);
    r.push(CILOp::NewTMPLocal(SlotType::Scalar(tpe)));
    r.push(CILOp::SetTMPLocal);
    r.push(CILOp::LoadTMPLocal);
    r.push(CILOp::LoadUnderTMPLocal(1));
    r.push(CILOp::Add);
    r.push(truncate);
    r.push(CILOp::Dup);
    r.push(CILOp::NewTMPLocal(SlotType::Scalar(tpe)));
    r.push(CILOp::SetTMPLocal);
    r.push(CILOp::LoadUnderTMPLocal(1));
    r.push(CILOp::LoadUnderTMPLocal(2));
    r.push(CILOp::Or);
    r.push(CILOp::Lt);
    r.push(CILOp::NewTMPLocal(SlotType::Scalar(Type::Bool)));
    r.push(CILOp::SetTMPLocal);
    r.push(CILOp::NewTMPLocal(SlotType::Pair(tpe)));
    r.push(CILOp::LoadAddresOfTMPLocal);
    r.push(CILOp::LoadUnderTMPLocal(1));
    r.push(CILOp::STField(FieldDescriptor { owner: tpe, tpe: Type::Bool, name: Field::Item2 }));
    r.push(CILOp::LoadAddresOfTMPLocal);
    r.push(CILOp::LoadUnderTMPLocal(2));
    r.push(CILOp::STField(FieldDescriptor { owner: tpe, tpe: tpe, name: Field::Item1 }));
    r.push(CILOp::LoadTMPLocal);
    r.push(CILOp::FreeTMPLocal);
    r.push(CILOp::FreeTMPLocal);
    r.push(CILOp::FreeTMPLocal);
    r.push(CILOp::FreeTMPLocal);
    r.push(CILOp::FreeTMPLocal);
    proof {
        assert(r@ =~= uadd_mask_ops(tpe, truncate));
        lemma_uadd_mask_ops_balanced(tpe, truncate);
    }
    r
}

/// The unsigned-add mask fragment obeys the temporary-slot discipline.
pub proof fn lemma_uadd_mask_ops_balanced(tpe: Type, truncate: CILOp)
    requires
        slot_neutral(truncate),
    ensures
        slots_balanced(uadd_mask_ops(tpe, truncate)),
{
    let s = uadd_mask_ops(tpe, truncate);
    lemma_slot_neutral(truncate, 2);
    reveal_with_fuel(slots_ok_from, 32);
    assert(slots_ok_from(s, 0, 0));
}

/// The fragment of the signed-add mask strategy: store both operands, add
/// and truncate the wrapped sum, extract the masked sign bits of both
/// operands and of the sum, and flag overflow when the operands agree in
/// sign and the sum does not; then build the result pair and free all six
/// temporaries in reverse order.
pub open spec fn sadd_mask_ops(tpe: Type, truncate: CILOp, mask: CILOp) -> Seq<CILOp> {
    seq![
        CILOp::NewTMPLocal(SlotType::Scalar(tpe)),
        CILOp::SetTMPLocal,
        CILOp::NewTMPLocal(SlotType::Scalar(tpe)),
        CILOp::SetTMPLocal,
        CILOp::LoadTMPLocal,
        CILOp::LoadUnderTMPLocal(1),
        CILOp::Add,
        truncate,
        CILOp::NewTMPLocal(SlotType::Scalar(tpe)),
        CILOp::SetTMPLocal,
        CILOp::LoadUnderTMPLocal(1),
        mask,
        CILOp::And,
        CILOp::Dup,
        CILOp::LoadUnderTMPLocal(2),
        mask,
        CILOp::And,
        CILOp::Eq,
        truncate,
        CILOp::NewTMPLocal(SlotType::Scalar(tpe)),
        CILOp::SetTMPLocal,
        CILOp::LoadUnderTMPLocal(1),
        mask,
        CILOp::And,
        CILOp::Eq,
        CILOp::Not,
        CILOp::LoadTMPLocal,
        CILOp::And,
        CILOp::NewTMPLocal(SlotType::Scalar(tpe)),
        CILOp::SetTMPLocal,
        CILOp::NewTMPLocal(SlotType::Pair(tpe)),
        CILOp::LoadAddresOfTMPLocal,
        CILOp::LoadUnderTMPLocal(1),
        CILOp::STField(FieldDescriptor { owner: tpe, tpe: Type::Bool, name: Field::Item2 }),
        CILOp::LoadAddresOfTMPLocal,
        CILOp::LoadUnderTMPLocal(3),
        CILOp::STField(FieldDescriptor { owner: tpe, tpe: tpe, name: Field::Item1 }),
        CILOp::LoadTMPLocal,
        CILOp::FreeTMPLocal,
        CILOp::FreeTMPLocal,
        CILOp::FreeTMPLocal,
        CILOp::FreeTMPLocal,
        CILOp::FreeTMPLocal,
        CILOp::FreeTMPLocal,
    ]
}

/// Emits the signed-add mask strategy for `tpe`; `mask` loads the sign-bit
/// mask of the type and `truncate` crops intermediate results to it.
pub fn checked_sadd_type(tpe: Type, truncate: CILOp, mask: CILOp) -> (r: Vec<CILOp>)
    requires
        slot_neutral(truncate),
        slot_neutral(mask),
    ensures
        r@ == sadd_mask_ops(tpe, truncate, mask),
        slots_balanced(r@),
{
    let mut r: Vec<CILOp> = Vec::new();
    r.push(CILOp::NewTMPLocal(SlotType::Scalar(tpe)));
    r.push(CILOp::SetTMPLocal);
    r.push(CILOp::NewTMPLocal(SlotType::Scalar(tpe)));
    r.push(CILOp::SetTMPLocal);
    r.push(CILOp::LoadTMPLocal);
    r.push(CILOp::LoadUnderTMPLocal(1));
    r.push(CILOp::Add);
    r.push(truncate);
    r.push(CILOp::NewTMPLocal(SlotType::Scalar(tpe)));
    r.push(CILOp::SetTMPLocal);
    r.push(CILOp::LoadUnderTMPLocal(1));
    r.push(mask);
    r.push(CILOp::And);
    r.push(CILOp::Dup);
    r.push(CILOp::LoadUnderTMPLocal(2));
    r.push(mask);
    r.push(CILOp::And);
    r.push(CILOp::Eq);
    r.push(truncate);
    r.push(CILOp::NewTMPLocal(SlotType::Scalar(tpe)));
    r.push(CILOp::SetTMPLocal);
    r.push(CILOp::LoadUnderTMPLocal(1));
    r.push(mask);
    r.push(CILOp::And);
    r.push(CILOp::Eq);
    r.push(CILOp::Not);
    r.push(CILOp::LoadTMPLocal);
    r.push(CILOp::And);
    r.push(CILOp::NewTMPLocal(SlotType::Scalar(tpe)));
    r.push(CILOp::SetTMPLocal);
    r.push(CILOp::NewTMPLocal(SlotType::Pair(tpe)));
    r.push(CILOp::LoadAddresOfTMPLocal);
    r.push(CILOp::LoadUnderTMPLocal(1));
    r.push(CILOp::STField(FieldDescriptor { owner: tpe, tpe: Type::Bool, name: Field::Item2 }));
    r.push(CILOp::LoadAddresOfTMPLocal);
    r.push(CILOp::LoadUnderTMPLocal(3));
    r.push(CILOp::STField(FieldDescriptor { owner: tpe, tpe: tpe, name: Field::Item1 }));
    r.push(CILOp::LoadTMPLocal);
    r.push(CILOp::FreeTMPLocal);
    r.push(CILOp::FreeTMPLocal);
    r.push(CILOp::FreeTMPLocal);
    r.push(CILOp::FreeTMPLocal);
    r.push(CILOp::FreeTMPLocal);
    r.push(CILOp::FreeTMPLocal);
    proof {
        assert(r@ =~= sadd_mask_ops(tpe, truncate, mask));
        lemma_sadd_mask_ops_balanced(tpe, truncate, mask);
    }
    r
}

/// The signed-add mask fragment obeys the temporary-slot discipline.
pub proof fn lemma_sadd_mask_ops_balanced(tpe: Type, truncate: CILOp, mask: CILOp)
    requires
        slot_neutral(truncate),
        slot_neutral(mask),
    ensures
        slots_balanced(sadd_mask_ops(tpe, truncate, mask)),
{
    let s = sadd_mask_ops(tpe, truncate, mask);
    lemma_slot_neutral(truncate, 2);
    lemma_slot_neutral(truncate, 3);
    lemma_slot_neutral(mask, 3);
    lemma_slot_neutral(mask, 4);
    reveal_with_fuel(slots_ok_from, 46);
    assert(slots_ok_from(s, 0, 0));
}

/// The fragment of the unsigned promotion strategy: store one operand,
/// promote both, apply the unchecked operator in the promoted type, store
/// the wide result, compare it against the overflow threshold, then build
/// the result pair from the flag and the truncated wide result and free all
/// four temporaries in reverse order.
pub open spec fn promoted_ubinop_ops(
    tpe: Type,
    promoted_type: Type,
    promote: CILOp,
    truncate: CILOp,
    omask: CILOp,
    binop: CILOp,
) -> Seq<CILOp> {
    seq![
        CILOp::NewTMPLocal(SlotType::Scalar(tpe)),
        CILOp::SetTMPLocal,
        promote,
        CILOp::LoadTMPLocal,
        promote,
        binop,
        CILOp::NewTMPLocal(SlotType::Scalar(promoted_type)),
        CILOp::SetTMPLocal,
        CILOp::LoadTMPLocal,
        omask,
        promote,
        CILOp::Gt,
        CILOp::NewTMPLocal(SlotType::Scalar(Type::Bool)),
        CILOp::SetTMPLocal,
        CILOp::NewTMPLocal(SlotType::Pair(tpe)),
        CILOp::LoadAddresOfTMPLocal,
        CILOp::LoadUnderTMPLocal(1),
        CILOp::STField(FieldDescriptor { owner: tpe, tpe: Type::Bool, name: Field::Item2 }),
        CILOp::LoadAddresOfTMPLocal,
        CILOp::LoadUnderTMPLocal(2),
        truncate,
        CILOp::STField(FieldDescriptor { owner: tpe, tpe: tpe, name: Field::Item1 }),
        CILOp::LoadTMPLocal,
        CILOp::FreeTMPLocal,
        CILOp::FreeTMPLocal,
        CILOp::FreeTMPLocal,
        CILOp::FreeTMPLocal,
    ]
}

/// Emits the unsigned promotion strategy: `promote` and `truncate` convert
/// between `tpe` and `promoted_type`, `omask` loads `tpe`'s maximum in the
/// promoted representation, and `binop` is the unchecked operator.
pub fn promoted_ubinop(
    tpe: Type,
    promoted_type: Type,
    promote: CILOp,
    truncate: CILOp,
    omask: CILOp,
    binop: CILOp,
) -> (r: Vec<CILOp>)
    requires
        slot_neutral(promote),
        slot_neutral(truncate),
        slot_neutral(omask),
        slot_neutral(binop),
    ensures
        r@ == promoted_ubinop_ops(tpe, promoted_type, promote, truncate, omask, binop),
        slots_balanced(r@),
{
    let mut r: Vec<CILOp> = Vec::new();
    r.push(CILOp::NewTMPLocal(SlotType::Scalar(tpe)));
    r.push(CILOp::SetTMPLocal);
    r.push(promote);
    r.push(CILOp::LoadTMPLocal);
    r.push(promote);
    r.push(binop);
    r.push(CILOp::NewTMPLocal(SlotType::Scalar(promoted_type)));
    r.push(CILOp::SetTMPLocal);
    r.push(CILOp::LoadTMPLocal);
    r.push(omask);
    r.push(promote);
    r.push(CILOp::Gt);
    r.push(CILOp::NewTMPLocal(SlotType::Scalar(Type::Bool)));
    r.push(CILOp::SetTMPLocal);
    r.push(CILOp::NewTMPLocal(SlotType::Pair(tpe)));
    r.push(CILOp::LoadAddresOfTMPLocal);
    r.push(CILOp::LoadUnderTMPLocal(1));
    r.push(CILOp::STField(FieldDescriptor { owner: tpe, tpe: Type::Bool, name: Field::Item2 }));
    r.push(CILOp::LoadAddresOfTMPLocal);
    r.push(CILOp::LoadUnderTMPLocal(2));
    r.push(truncate);
    r.push(CILOp::STField(FieldDescriptor { owner: tpe, tpe: tpe, name: Field::Item1 }));
    r.push(CILOp::LoadTMPLocal);
    r.push(CILOp::FreeTMPLocal);
    r.push(CILOp::FreeTMPLocal);
    r.push(CILOp::FreeTMPLocal);
    r.push(CILOp::FreeTMPLocal);
    proof {
        assert(r@ =~= promoted_ubinop_ops(tpe, promoted_type, promote, truncate, omask, binop));
        lemma_promoted_ubinop_ops_balanced(tpe, promoted_type, promote, truncate, omask, binop);
    }
    r
}

/// The unsigned promotion fragment obeys the temporary-slot discipline.
pub proof fn lemma_promoted_ubinop_ops_balanced(
    tpe: Type,
    promoted_type: Type,
    promote: CILOp,
    truncate: CILOp,
    omask: CILOp,
    binop: CILOp,
)
    requires
        slot_neutral(promote),
        slot_neutral(truncate),
        slot_neutral(omask),
        slot_neutral(binop),
    ensures
        slots_balanced(promoted_ubinop_ops(tpe, promoted_type, promote, truncate, omask, binop)),
{
    let s = promoted_ubinop_ops(tpe, promoted_type, promote, truncate, omask, binop);
    lemma_slot_neutral(promote, 1);
    lemma_slot_neutral(promote, 2);
    lemma_slot_neutral(binop, 1);
    lemma_slot_neutral(omask, 2);
    lemma_slot_neutral(truncate, 4);
    reveal_with_fuel(slots_ok_from, 30);
    assert(slots_ok_from(s, 0, 0));
}

/// The fragment of the signed promotion strategy: like the unsigned one,
/// but the stored wide result is additionally compared against the
/// underflow threshold and the two comparisons are or-ed into the flag.
pub open spec fn promoted_sbinop_ops(
    tpe: Type,
    promoted_type: Type,
    promote: CILOp,
    truncate: CILOp,
    omask: CILOp,
    umask: CILOp,
    binop: CILOp,
) -> Seq<CILOp> {
    seq![
        CILOp::NewTMPLocal(SlotType::Scalar(tpe)),
        CILOp::SetTMPLocal,
        promote,
        CILOp::LoadTMPLocal,
        promote,
        binop,
        CILOp::NewTMPLocal(SlotType::Scalar(promoted_type)),
        CILOp::SetTMPLocal,
        CILOp::LoadTMPLocal,
        omask,
        promote,
        CILOp::Gt,
        CILOp::LoadTMPLocal,
        umask,
        promote,
        CILOp::Lt,
        CILOp::Or,
        CILOp::NewTMPLocal(SlotType::Scalar(Type::Bool)),
        CILOp::SetTMPLocal,
        CILOp::NewTMPLocal(SlotType::Pair(tpe)),
        CILOp::LoadAddresOfTMPLocal,
        CILOp::LoadUnderTMPLocal(1),
        CILOp::STField(FieldDescriptor { owner: tpe, tpe: Type::Bool, name: Field::Item2 }),
        CILOp::LoadAddresOfTMPLocal,
        CILOp::LoadUnderTMPLocal(2),
        truncate,
        CILOp::STField(FieldDescriptor { owner: tpe, tpe: tpe, name: Field::Item1 }),
        CILOp::LoadTMPLocal,
        CILOp::FreeTMPLocal,
        CILOp::FreeTMPLocal,
        CILOp::FreeTMPLocal,
        CILOp::FreeTMPLocal,
    ]
}

/// Emits the signed promotion strategy; `omask` and `umask` load `tpe`'s
/// maximum and minimum in the promoted representation.
pub fn promoted_sbinop(
    tpe: Type,
    promoted_type: Type,
    promote: CILOp,
    truncate: CILOp,
    omask: CILOp,
    umask: CILOp,
    binop: CILOp,
) -> (r: Vec<CILOp>)
    requires
        slot_neutral(promote),
        slot_neutral(truncate),
        slot_neutral(omask),
        slot_neutral(umask),
        slot_neutral(binop),
    ensures
        r@ == promoted_sbinop_ops(tpe, promoted_type, promote, truncate, omask, umask, binop),
        slots_balanced(r@),
{
    let mut r: Vec<CILOp> = Vec::new();
    r.push(CILOp::NewTMPLocal(SlotType::Scalar(tpe)));
    r.push(CILOp::SetTMPLocal);
    r.push(promote);
    r.push(CILOp::LoadTMPLocal);
    r.push(promote);
    r.push(binop);
    r.push(CILOp::NewTMPLocal(SlotType::Scalar(promoted_type)));
    r.push(CILOp::SetTMPLocal);
    r.push(CILOp::LoadTMPLocal);
    r.push(omask);
    r.push(promote);
    r.push(CILOp::Gt);
    r.push(CILOp::LoadTMPLocal);
    r.push(umask);
    r.push(promote);
    r.push(CILOp::Lt);
    r.push(CILOp::Or);
    r.push(CILOp::NewTMPLocal(SlotType::Scalar(Type::Bool)));
    r.push(CILOp::SetTMPLocal);
    r.push(CILOp::NewTMPLocal(SlotType::Pair(tpe)));
    r.push(CILOp::LoadAddresOfTMPLocal);
    r.push(CILOp::LoadUnderTMPLocal(1));
    r.push(CILOp::STField(FieldDescriptor { owner: tpe, tpe: Type::Bool, name: Field::Item2 }));
    r.push(CILOp::LoadAddresOfTMPLocal);
    r.push(CILOp::LoadUnderTMPLocal(2));
    r.push(truncate);
    r.push(CILOp::STField(FieldDescriptor { owner: tpe, tpe: tpe, name: Field::Item1 }));
    r.push(CILOp::LoadTMPLocal);
    r.push(CILOp::FreeTMPLocal);
    r.push(CILOp::FreeTMPLocal);
    r.push(CILOp::FreeTMPLocal);
    r.push(CILOp::FreeTMPLocal);
    proof {
        assert(r@ =~= promoted_sbinop_ops(tpe, promoted_type, promote, truncate, omask, umask, binop));
        lemma_promoted_sbinop_ops_balanced(tpe, promoted_type, promote, truncate, omask, umask, binop);
    }
    r
}

/// The signed promotion fragment obeys the temporary-slot discipline.
pub proof fn lemma_promoted_sbinop_ops_balanced(
    tpe: Type,
    promoted_type: Type,
    promote: CILOp,
    truncate: CILOp,
    omask: CILOp,
    umask: CILOp,
    binop: CILOp,
)
    requires
        slot_neutral(promote),
        slot_neutral(truncate),
        slot_neutral(omask),
        slot_neutral(umask),
        slot_neutral(binop),
    ensures
        slots_balanced(promoted_sbinop_ops(tpe, promoted_type, promote, truncate, omask, umask, binop)),
{
    let s = promoted_sbinop_ops(tpe, promoted_type, promote, truncate, omask, umask, binop);
    lemma_slot_neutral(promote, 1);
    lemma_slot_neutral(promote, 2);
    lemma_slot_neutral(binop, 1);
    lemma_slot_neutral(omask, 2);
    lemma_slot_neutral(umask, 2);
    lemma_slot_neutral(truncate, 4);
    reveal_with_fuel(slots_ok_from, 35);
    assert(slots_ok_from(s, 0, 0));
}

/// The types with a registered checked-multiply lowering: only the 8-bit
/// types, whose exact product fits the 16-bit promoted type.
pub open spec fn mul_supported(tpe: Type) -> bool {
    tpe == Type::U8 || tpe == Type::I8
}

/// The types with a registered checked-add lowering.
pub open spec fn add_supported(tpe: Type) -> bool {
    match tpe {
        Type::Bool | Type::U128 | Type::I128 => false,
        _ => true,
    }
}

/// The types with a registered checked-subtract lowering.
pub open spec fn sub_supported(tpe: Type) -> bool {
    match tpe {
        Type::Bool | Type::U128 | Type::I128 => false,
        _ => true,
    }
}

/// The checked-multiply row of the dispatch table: the fragment emitted for
/// each supported type.
pub open spec fn mul_ops(tpe: Type) -> Seq<CILOp> {
    match tpe {
        Type::U8 => promoted_ubinop_ops(
            Type::U8,
            Type::U16,
            CILOp::ConvU16(false),
            CILOp::ConvU8(false),
            CILOp::LdcI32(0xff),
            CILOp::Mul,
        ),
        Type::I8 => promoted_sbinop_ops(
            Type::I8,
            Type::I16,
            CILOp::ConvI16(false),
            CILOp::ConvI8(false),
            CILOp::LdcI32(0x7f),
            CILOp::LdcI32(-0x80i32),
            CILOp::Mul,
        ),
        _ => Seq::empty(),
    }
}

/// The checked-add row of the dispatch table: signed types promote to the
/// doubled width (64-bit through the runtime-supplied 128-bit type),
/// unsigned types use the mask strategy without promotion.
pub open spec fn add_ops(tpe: Type) -> Seq<CILOp> {
    match tpe {
        Type::I8 => promoted_sbinop_ops(
            Type::I8,
            Type::I16,
            CILOp::ConvI16(false),
            CILOp::ConvI8(false),
            CILOp::LdcI32(0x7f),
            CILOp::LdcI32(-0x80i32),
            CILOp::Add,
        ),
        Type::U8 => uadd_mask_ops(Type::U8, CILOp::ConvU8(false)),
        Type::I16 => promoted_sbinop_ops(
            Type::I16,
            Type::I32,
            CILOp::ConvI32(false),
            CILOp::ConvI16(false),
            CILOp::LdcI32(0x7fff),
            CILOp::LdcI32(-0x8000i32),
            CILOp::Add,
        ),
        Type::U16 => uadd_mask_ops(Type::U16, CILOp::ConvU16(false)),
        Type::I32 => promoted_sbinop_ops(
            Type::I32,
            Type::I64,
            CILOp::ConvI64(false),
            CILOp::ConvI32(false),
            CILOp::LdcI32(i32::MAX),
            CILOp::LdcI32(i32::MIN),
            CILOp::Add,
        ),
        Type::U32 => uadd_mask_ops(Type::U32, CILOp::Nop),
        Type::I64 => promoted_sbinop_ops(
            Type::I64,
            Type::I128,
            wide_call_op(RuntimeType::Int128, WideOp::Implicit, Type::I64, None, Type::I128),
            wide_call_op(RuntimeType::Int128, WideOp::Explicit, Type::I128, None, Type::I64),
            CILOp::LdcI64(i64::MAX),
            CILOp::LdcI64(i64::MIN),
            wide_call_op(
                RuntimeType::Int128,
                WideOp::Addition,
                Type::I128,
                Some(Type::I128),
                Type::I128,
            ),
        ),
        Type::U64 => uadd_mask_ops(Type::U64, CILOp::Nop),
        _ => Seq::empty(),
    }
}

/// The checked-subtract row of the dispatch table: every width promotes to
/// the doubled width, the 64-bit types through the runtime-supplied 128-bit
/// types. Each overflow mask is the type's maximum written in the promoted
/// representation; for `U64` that is the 64-bit constant with all bits set.
pub open spec fn sub_ops(tpe: Type) -> Seq<CILOp> {
    match tpe {
        Type::I8 => promoted_sbinop_ops(
            Type::I8,
            Type::I16,
            CILOp::ConvI16(false),
            CILOp::ConvI8(false),
            CILOp::LdcI32(0x7f),
            CILOp::LdcI32(-0x80i32),
            CILOp::Sub,
        ),
        Type::U8 => promoted_ubinop_ops(
            Type::U8,
            Type::U16,
            CILOp::ConvU16(false),
            CILOp::ConvU8(false),
            CILOp::LdcI32(0xff),
            CILOp::Sub,
        ),
        Type::I16 => promoted_sbinop_ops(
            Type::I16,
            Type::I32,
            CILOp::ConvI32(false),
            CILOp::ConvI16(false),
            CILOp::LdcI32(0x7fff),
            CILOp::LdcI32(-0x8000i32),
            CILOp::Sub,
        ),
        Type::U16 => promoted_ubinop_ops(
            Type::U16,
            Type::U32,
            CILOp::ConvU32(false),
            CILOp::ConvU16(false),
            CILOp::LdcI32(0xffff),
            CILOp::Sub,
        ),
        Type::I32 => promoted_sbinop_ops(
            Type::I32,
            Type::I64,
            CILOp::ConvI64(false),
            CILOp::ConvI32(false),
            CILOp::LdcI32(i32::MAX),
            CILOp::LdcI32(i32::MIN),
            CILOp::Sub,
        ),
        Type::U32 => promoted_ubinop_ops(
            Type::U32,
            Type::U64,
            CILOp::ConvU64(false),
            CILOp::ConvU32(false),
            CILOp::LdcI64(0xffff_ffff),
            CILOp::Sub,
        ),
        Type::I64 => promoted_sbinop_ops(
            Type::I64,
            Type::I128,
            wide_call_op(RuntimeType::Int128, WideOp::Implicit, Type::I64, None, Type::I128),
            wide_call_op(RuntimeType::Int128, WideOp::Explicit, Type::I128, None, Type::I64),
            CILOp::LdcI64(i64::MAX),
            CILOp::LdcI64(i64::MIN),
            wide_call_op(
                RuntimeType::Int128,
                WideOp::Subtraction,
                Type::I128,
                Some(Type::I128),
                Type::I128,
            ),
        ),
        Type::U64 => promoted_ubinop_ops(
            Type::U64,
            Type::U128,
            wide_call_op(RuntimeType::UInt128, WideOp::Implicit, Type::U64, None, Type::U128),
            wide_call_op(RuntimeType::UInt128, WideOp::Explicit, Type::U128, None, Type::U64),
            CILOp::LdcI64(-1i64),
            wide_call_op(
                RuntimeType::UInt128,
                WideOp::Subtraction,
                Type::U128,
                Some(Type::U128),
                Type::U128,
            ),
        ),
        _ => Seq::empty(),
    }
}

/// Lowers checked multiplication for operands of type `tpe`.
pub fn mul(tpe: Type) -> (r: Result<Vec<CILOp>, CodegenError>)
    ensures
        r is Ok <==> mul_supported(tpe),
        r matches Ok(v) ==> v@ == mul_ops(tpe) && slots_balanced(v@),
        r matches Err(e) ==> e == CodegenError::UnsupportedOperation(BinOp::Mul, tpe),
{
    match tpe {
        Type::U8 => Ok(
            promoted_ubinop(
                Type::U8,
                Type::U16,
                CILOp::ConvU16(false),
                CILOp::ConvU8(false),
                CILOp::LdcI32(0xff),
                CILOp::Mul,
            ),
        ),
        Type::I8 => Ok(
            promoted_sbinop(
                Type::I8,
                Type::I16,
                CILOp::ConvI16(false),
                CILOp::ConvI8(false),
                CILOp::LdcI32(0x7f),
                CILOp::LdcI32(-0x80i32),
                CILOp::Mul,
            ),
        ),
        _ => Err(CodegenError::UnsupportedOperation(BinOp::Mul, tpe)),
    }
}

/// Lowers checked addition for operands of type `tpe`.
pub fn add(tpe: Type) -> (r: Result<Vec<CILOp>, CodegenError>)
    ensures
        r is Ok <==> add_supported(tpe),
        r matches Ok(v) ==> v@ == add_ops(tpe) && slots_balanced(v@),
        r matches Err(e) ==> e == CodegenError::UnsupportedOperation(BinOp::Add, tpe),
{
    match tpe {
        Type::I8 => Ok(
            promoted_sbinop(
                Type::I8,
                Type::I16,
                CILOp::ConvI16(false),
                CILOp::ConvI8(false),
                CILOp::LdcI32(0x7f),
                CILOp::LdcI32(-0x80i32),
                CILOp::Add,
            ),
        ),
        Type::U8 => Ok(checked_uadd_type(Type::U8, CILOp::ConvU8(false))),
        Type::I16 => Ok(
            promoted_sbinop(
                Type::I16,
                Type::I32,
                CILOp::ConvI32(false),
                CILOp::ConvI16(false),
                CILOp::LdcI32(0x7fff),
                CILOp::LdcI32(-0x8000i32),
                CILOp::Add,
            ),
        ),
        Type::U16 => Ok(checked_uadd_type(Type::U16, CILOp::ConvU16(false))),
        Type::I32 => Ok(
            promoted_sbinop(
                Type::I32,
                Type::I64,
                CILOp::ConvI64(false),
                CILOp::ConvI32(false),
                CILOp::LdcI32(i32::MAX),
                CILOp::LdcI32(i32::MIN),
                CILOp::Add,
            ),
        ),
        Type::U32 => Ok(checked_uadd_type(Type::U32, CILOp::Nop)),
        Type::I64 => Ok(
            promoted_sbinop(
                Type::I64,
                Type::I128,
                wide_call(RuntimeType::Int128, WideOp::Implicit, Type::I64, None, Type::I128),
                wide_call(RuntimeType::Int128, WideOp::Explicit, Type::I128, None, Type::I64),
                CILOp::LdcI64(i64::MAX),
                CILOp::LdcI64(i64::MIN),
                wide_call(
                    RuntimeType::Int128,
                    WideOp::Addition,
                    Type::I128,
                    Some(Type::I128),
                    Type::I128,
                ),
            ),
        ),
        Type::U64 => Ok(checked_uadd_type(Type::U64, CILOp::Nop)),
        _ => Err(CodegenError::UnsupportedOperation(BinOp::Add, tpe)),
    }
}

/// Lowers checked subtraction for operands of type `tpe`.
pub fn sub(tpe: Type) -> (r: Result<Vec<CILOp>, CodegenError>)
    ensures
        r is Ok <==> sub_supported(tpe),
        r matches Ok(v) ==> v@ == sub_ops(tpe) && slots_balanced(v@),
        r matches Err(e) ==> e == CodegenError::UnsupportedOperation(BinOp::Sub, tpe),
{
    match tpe {
        Type::I8 => Ok(
            promoted_sbinop(
                Type::I8,
                Type::I16,
                CILOp::ConvI16(false),
                CILOp::ConvI8(false),
                CILOp::LdcI32(0x7f),
                CILOp::LdcI32(-0x80i32),
                CILOp::Sub,
            ),
        ),
        Type::U8 => Ok(
            promoted_ubinop(
                Type::U8,
                Type::U16,
                CILOp::ConvU16(false),
                CILOp::ConvU8(false),
                CILOp::LdcI32(0xff),
                CILOp::Sub,
            ),
        ),
        Type::I16 => Ok(
            promoted_sbinop(
                Type::I16,
                Type::I32,
                CILOp::ConvI32(false),
                CILOp::ConvI16(false),
                CILOp::LdcI32(0x7fff),
                CILOp::LdcI32(-0x8000i32),
                CILOp::Sub,
            ),
        ),
        Type::U16 => Ok(
            promoted_ubinop(
                Type::U16,
                Type::U32,
                CILOp::ConvU32(false),
                CILOp::ConvU16(false),
                CILOp::LdcI32(0xffff),
                CILOp::Sub,
            ),
        ),
        Type::I32 => Ok(
            promoted_sbinop(
                Type::I32,
                Type::I64,
                CILOp::ConvI64(false),
                CILOp::ConvI32(false),
                CILOp::LdcI32(i32::MAX),
                CILOp::LdcI32(i32::MIN),
                CILOp::Sub,
            ),
        ),
        Type::U32 => Ok(
            promoted_ubinop(
                Type::U32,
                Type::U64,
                CILOp::ConvU64(false),
                CILOp::ConvU32(false),
                CILOp::LdcI64(0xffff_ffff),
                CILOp::Sub,
            ),
        ),
        Type::I64 => Ok(
            promoted_sbinop(
                Type::I64,
                Type::I128,
                wide_call(RuntimeType::Int128, WideOp::Implicit, Type::I64, None, Type::I128),
                wide_call(RuntimeType::Int128, WideOp::Explicit, Type::I128, None, Type::I64),
                CILOp::LdcI64(i64::MAX),
                CILOp::LdcI64(i64::MIN),
                wide_call(
                    RuntimeType::Int128,
                    WideOp::Subtraction,
                    Type::I128,
                    Some(Type::I128),
                    Type::I128,
                ),
            ),
        ),
        Type::U64 => Ok(
            promoted_ubinop(
                Type::U64,
                Type::U128,
                wide_call(RuntimeType::UInt128, WideOp::Implicit, Type::U64, None, Type::U128),
                wide_call(RuntimeType::UInt128, WideOp::Explicit, Type::U128, None, Type::U64),
                CILOp::LdcI64(-1i64),
                wide_call(
                    RuntimeType::UInt128,
                    WideOp::Subtraction,
                    Type::U128,
                    Some(Type::U128),
                    Type::U128,
                ),
            ),
        ),
        _ => Err(CodegenError::UnsupportedOperation(BinOp::Sub, tpe)),
    }
}

/// Whether the operation kind has a checked lowering at all.
pub open spec fn checked_kind(binop: BinOp) -> bool {
    match binop {
        BinOp::Add | BinOp::Sub | BinOp::Mul | BinOp::MulUnchecked => true,
        _ => false,
    }
}

/// `MulUnchecked` shares `Mul`'s row of the dispatch table; every other
/// kind stands for itself.
pub open spec fn canonical_kind(binop: BinOp) -> BinOp {
    if binop == BinOp::MulUnchecked {
        BinOp::Mul
    } else {
        binop
    }
}

/// The (operation, type) pairs whose lowering routes through the
/// runtime-supplied 128-bit integer types.
pub open spec fn uses_wide_runtime(binop: BinOp, tpe: Type) -> bool {
    match binop {
        BinOp::Add => tpe == Type::I64,
        BinOp::Sub => tpe == Type::I64 || tpe == Type::U64,
        _ => false,
    }
}

/// Whether the dispatch table has an entry for the pair.
pub open spec fn table_supported(binop: BinOp, tpe: Type) -> bool {
    match binop {
        BinOp::Add => add_supported(tpe),
        BinOp::Sub => sub_supported(tpe),
        BinOp::Mul | BinOp::MulUnchecked => mul_supported(tpe),
        _ => false,
    }
}

/// The fragment the dispatch table assigns to the pair.
pub open spec fn table_ops(binop: BinOp, tpe: Type) -> Seq<CILOp> {
    match binop {
        BinOp::Add => add_ops(tpe),
        BinOp::Sub => sub_ops(tpe),
        BinOp::Mul | BinOp::MulUnchecked => mul_ops(tpe),
        _ => Seq::empty(),
    }
}

/// Lowers one checked binary operation: the single entry point.
///
/// `ops_a` and `ops_b` are the already-lowered operand fragments and `ty_a`,
/// `ty_b` their resolved types, which the caller must have confirmed equal;
/// a mismatch is reported rather than silently miscompiled. `wide_runtime`
/// says whether the target environment supplies the 128-bit integer types
/// the wide-integer escape path calls into. On success the emitted fragment
/// is the two operand fragments followed by the table's strategy fragment,
/// which leaves one result pair behind and keeps the temporary-slot stack
/// balanced.
pub fn binop_checked(
    binop: BinOp,
    ops_a: Vec<CILOp>,
    ty_a: Type,
    ops_b: Vec<CILOp>,
    ty_b: Type,
    wide_runtime: bool,
) -> (r: Result<Vec<CILOp>, CodegenError>)
    ensures
        ty_a != ty_b ==> r == Err::<Vec<CILOp>, CodegenError>(
            CodegenError::TypeMismatch(ty_a, ty_b),
        ),
        ty_a == ty_b && !checked_kind(binop) ==> r == Err::<Vec<CILOp>, CodegenError>(
            CodegenError::UnsupportedOperation(binop, ty_a),
        ),
        ty_a == ty_b && checked_kind(binop) && uses_wide_runtime(binop, ty_a) && !wide_runtime
            ==> r == Err::<Vec<CILOp>, CodegenError>(
            CodegenError::UnsupportedTargetFeature(binop, ty_a),
        ),
        ty_a == ty_b && checked_kind(binop) && (wide_runtime || !uses_wide_runtime(binop, ty_a))
            && !table_supported(binop, ty_a) ==> r == Err::<Vec<CILOp>, CodegenError>(
            CodegenError::UnsupportedOperation(canonical_kind(binop), ty_a),
        ),
        ty_a == ty_b && checked_kind(binop) && (wide_runtime || !uses_wide_runtime(binop, ty_a))
            && table_supported(binop, ty_a) ==> (r matches Ok(v) && v@ == ops_a@ + ops_b@
            + table_ops(binop, ty_a) && slots_balanced(table_ops(binop, ty_a))),
{
    if ty_a != ty_b {
        return Err(CodegenError::TypeMismatch(ty_a, ty_b));
    }
    match binop {
        BinOp::Add | BinOp::Sub | BinOp::Mul | BinOp::MulUnchecked => {}
        _ => {
            return Err(CodegenError::UnsupportedOperation(binop, ty_a));
        }
    }
    if !wide_runtime {
        let needs_wide = match binop {
            BinOp::Add => matches!(ty_a, Type::I64),
            BinOp::Sub => matches!(ty_a, Type::I64 | Type::U64),
            _ => false,
        };
        if needs_wide {
            return Err(CodegenError::UnsupportedTargetFeature(binop, ty_a));
        }
    }
    let tail = match binop {
        BinOp::Add => crate::checked_binop::add(ty_a),
        BinOp::Sub => crate::checked_binop::sub(ty_a),
        _ => crate::checked_binop::mul(ty_a),
    };
    match tail {
        Ok(t) => {
            let mut v = ops_a;
            let mut rest = ops_b;
            v.append(&mut rest);
            let mut strategy = t;
            v.append(&mut strategy);
            Ok(v)
        }
        Err(e) => Err(e),
    }
}

/// The promoted type each registered promotion entry widens into: exactly
/// double the bit width, same signedness.
pub open spec fn promotion_target(binop: BinOp, tpe: Type) -> Option<Type> {
    match binop {
        BinOp::Add => match tpe {
            Type::I8 => Some(Type::I16),
            Type::I16 => Some(Type::I32),
            Type::I32 => Some(Type::I64),
            Type::I64 => Some(Type::I128),
            _ => None,
        },
        BinOp::Sub => match tpe {
            Type::I8 => Some(Type::I16),
            Type::U8 => Some(Type::U16),
            Type::I16 => Some(Type::I32),
            Type::U16 => Some(Type::U32),
            Type::I32 => Some(Type::I64),
            Type::U32 => Some(Type::U64),
            Type::I64 => Some(Type::I128),
            Type::U64 => Some(Type::U128),
            _ => None,
        },
        BinOp::Mul | BinOp::MulUnchecked => match tpe {
            Type::U8 => Some(Type::U16),
            Type::I8 => Some(Type::I16),
            _ => None,
        },
        _ => None,
    }
}

/// The exact mathematical result of the operation, before any wrapping.
pub open spec fn exact_binop(binop: BinOp, a: int, b: int) -> int {
    match binop {
        BinOp::Add => a + b,
        BinOp::Sub => a - b,
        BinOp::Mul | BinOp::MulUnchecked => a * b,
        _ => 0,
    }
}

/// Promotion-threshold law: for every promotion entry of the dispatch
/// table, the promoted type has headroom. The original type's two range
/// thresholds are representable in the promoted type, and so is the exact
/// result of the operation on any two in-range operands; the one exception
/// is unsigned subtraction, whose exact difference may be negative, but
/// then stays within the magnitude of the original type's maximum, so a
/// single wrap in the promoted type keeps it distinguishable and strictly
/// above the overflow threshold.
pub proof fn lemma_promotion_headroom(binop: BinOp, tpe: Type, a: int, b: int)
    requires
        promotion_target(binop, tpe) is Some,
        type_min(tpe) <= a <= type_max(tpe),
        type_min(tpe) <= b <= type_max(tpe),
    ensures
        type_min(promotion_target(binop, tpe).unwrap()) <= type_min(tpe),
        type_max(tpe) <= type_max(promotion_target(binop, tpe).unwrap()),
        exact_binop(binop, a, b) <= type_max(promotion_target(binop, tpe).unwrap()),
        type_min(tpe) < 0 || binop != BinOp::Sub ==> type_min(
            promotion_target(binop, tpe).unwrap(),
        ) <= exact_binop(binop, a, b),
        type_min(tpe) == 0 && binop == BinOp::Sub ==> -type_max(tpe) <= exact_binop(binop, a, b),
{
    match binop {
        BinOp::Mul | BinOp::MulUnchecked => {
            match tpe {
                Type::U8 => {
                    assert(0 <= a * b <= 0xff * 0xff) by (nonlinear_arith)
                        requires
                            0 <= a <= 0xff,
                            0 <= b <= 0xff,
                    ;
                }
                Type::I8 => {
                    assert(-0x3f80 <= a * b <= 0x4000) by (nonlinear_arith)
                        requires
                            -0x80 <= a <= 0x7f,
                            -0x80 <= b <= 0x7f,
                    ;
                }
                _ => {}
            }
        }
        _ => {}
    }
}

} // verus!