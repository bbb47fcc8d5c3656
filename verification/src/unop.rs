//! Lowering of unary operations.
//!
//! Negation and bitwise/logical not are single native instructions for every
//! native width; the 128-bit types route through the runtime-supplied
//! wide-integer type's unary operators, and boolean not is expressed as a
//! comparison with zero because the target has no direct boolean negate.

use vstd::prelude::*;
use crate::cil_op::{wide_call, wide_call_op, CILOp, RuntimeType, Type, WideOp};
use crate::codegen_error::UnOp;

verus! {

/// The instructions appended to an operand of type `tpe` to apply the unary
/// operation.
pub open spec fn unop_suffix(unnop: UnOp, tpe: Type) -> Seq<CILOp> {
    match unnop {
        UnOp::Neg => match tpe {
            Type::I128 => seq![
                wide_call_op(
                    RuntimeType::Int128,
                    WideOp::UnaryNegation,
                    Type::I128,
                    None,
                    Type::I128,
                ),
            ],
            _ => seq![CILOp::Neg],
        },
        UnOp::Not => match tpe {
            Type::Bool => seq![CILOp::LdcI32(0), CILOp::Eq],
            Type::U128 => seq![
                wide_call_op(
                    RuntimeType::UInt128,
                    WideOp::OnesComplement,
                    Type::U128,
                    None,
                    Type::U128,
                ),
            ],
            Type::I128 => seq![
                wide_call_op(
                    RuntimeType::Int128,
                    WideOp::OnesComplement,
                    Type::I128,
                    None,
                    Type::I128,
                ),
            ],
            _ => seq![CILOp::Not],
        },
    }
}

/// Lowers a unary operation: appends the operation's instructions to the
/// already-lowered operand fragment `ops` of type `tpe`.
pub fn unop(unnop: UnOp, ops: Vec<CILOp>, tpe: Type) -> (r: Vec<CILOp>)
    ensures
        r@ == ops@ + unop_suffix(unnop, tpe),
{
    let mut r = ops;
    match unnop {
        UnOp::Neg => match tpe {
            Type::I128 => {
                r.push(
                    wide_call(
                        RuntimeType::Int128,
                        WideOp::UnaryNegation,
                        Type::I128,
                        None,
                        Type::I128,
                    ),
                );
            }
            _ => {
                r.push(CILOp::Neg);
            }
        },
        UnOp::Not => match tpe {
            Type::Bool => {
                r.push(CILOp::LdcI32(0));
                r.push(CILOp::Eq);
            }
            Type::U128 => {
                r.push(
                    wide_call(
                        RuntimeType::UInt128,
                        WideOp::OnesComplement,
                        Type::U128,
                        None,
                        Type::U128,
                    ),
                );
            }
            Type::I128 => {
                r.push(
                    wide_call(
                        RuntimeType::Int128,
                        WideOp::OnesComplement,
                        Type::I128,
                        None,
                        Type::I128,
                    ),
                );
            }
            _ => {
                r.push(CILOp::Not);
            }
        },
    }
    proof {
        assert(r@ =~= ops@ + unop_suffix(unnop, tpe));
    }
    r
}

} // verus!
