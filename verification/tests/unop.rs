use cil_lower::cil_op::{CILOp, CallSite, FnSig, RuntimeType, Type, WideOp};
use cil_lower::codegen_error::UnOp;
use cil_lower::unop::unop;

#[test]
fn neg_is_a_native_instruction_for_native_widths() {
    let ops = vec![CILOp::LdcI32(5)];
    assert_eq!(unop(UnOp::Neg, ops, Type::I32), vec![CILOp::LdcI32(5), CILOp::Neg]);
    assert_eq!(unop(UnOp::Neg, Vec::new(), Type::I8), vec![CILOp::Neg]);
}

#[test]
fn neg_routes_through_the_wide_runtime_type_for_i128() {
    let got = unop(UnOp::Neg, Vec::new(), Type::I128);
    let call = CILOp::Call(CallSite {
        class: RuntimeType::Int128,
        method: WideOp::UnaryNegation,
        signature: FnSig { input_a: Type::I128, input_b: None, output: Type::I128 },
    });
    assert_eq!(got, vec![call]);
}

#[test]
fn bool_not_compares_against_zero() {
    let got = unop(UnOp::Not, vec![CILOp::LdcI32(1)], Type::Bool);
    assert_eq!(got, vec![CILOp::LdcI32(1), CILOp::LdcI32(0), CILOp::Eq]);
}

#[test]
fn not_routes_through_the_wide_runtime_types_for_128_bit() {
    let got = unop(UnOp::Not, Vec::new(), Type::U128);
    let call = CILOp::Call(CallSite {
        class: RuntimeType::UInt128,
        method: WideOp::OnesComplement,
        signature: FnSig { input_a: Type::U128, input_b: None, output: Type::U128 },
    });
    assert_eq!(got, vec![call]);
    let got_signed = unop(UnOp::Not, Vec::new(), Type::I128);
    let call_signed = CILOp::Call(CallSite {
        class: RuntimeType::Int128,
        method: WideOp::OnesComplement,
        signature: FnSig { input_a: Type::I128, input_b: None, output: Type::I128 },
    });
    assert_eq!(got_signed, vec![call_signed]);
    assert_eq!(unop(UnOp::Not, Vec::new(), Type::U32), vec![CILOp::Not]);
}
