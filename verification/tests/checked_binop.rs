use cil_lower::checked_binop::{add, binop_checked, mul, sub};
use cil_lower::cil_op::{CILOp, CallSite, Field, FieldDescriptor, FnSig, RuntimeType, SlotType, Type, WideOp};
use cil_lower::codegen_error::{BinOp, CodegenError};

#[test]
fn unsigned_add() {
    //u8
    for a in 0..u8::MAX {
        for b in 0..u8::MAX {
            let added = u8::checked_add(a, b);
            let alg_added = {
                let sum = u8::wrapping_add(a, b);
                if sum < a | b {
                    None
                } else {
                    Some(sum)
                }
            };
            assert_eq!(added, alg_added, "checked {a} + {b}");
        }
    }
}

#[test]
fn signed_add() {
    //u8
    for a in i8::MIN..i8::MAX {
        for b in i8::MIN..i8::MAX {
            let added = i8::checked_add(a, b);
            let alg_added = {
                let sum = i8::wrapping_add(a, b);
                let sign_a = a & (0b1000_0000_u8 as i8);
                let sign_b = b & (0b1000_0000_u8 as i8);
                let sum_sign = sum & (0b1000_0000_u8 as i8);
                let signs_equal = sign_a == sign_b;
                if signs_equal && sum_sign != sign_a {
                    None
                } else {
                    Some(sum)
                }
            };
            assert_eq!(added, alg_added, "checked {a} + {b}");
        }
    }
}

#[test]
fn add_u8_emits_mask_fragment() {
    let got = add(Type::U8).unwrap();
    let expected = vec![
        CILOp::NewTMPLocal(SlotType::Scalar(Type::U8)),
        CILOp::SetTMPLocal,
        CILOp::NewTMPLocal(SlotType::Scalar(Type::U8)),
        CILOp::SetTMPLocal,
        CILOp::LoadTMPLocal,
        CILOp::LoadUnderTMPLocal(1),
        CILOp::Add,
        CILOp::ConvU8(false),
        CILOp::Dup,
        CILOp::NewTMPLocal(SlotType::Scalar(Type::U8)),
        CILOp::SetTMPLocal,
        CILOp::LoadUnderTMPLocal(1),
        CILOp::LoadUnderTMPLocal(2),
        CILOp::Or,
        CILOp::Lt,
        CILOp::NewTMPLocal(SlotType::Scalar(Type::Bool)),
        CILOp::SetTMPLocal,
        CILOp::NewTMPLocal(SlotType::Pair(Type::U8)),
        CILOp::LoadAddresOfTMPLocal,
        CILOp::LoadUnderTMPLocal(1),
        CILOp::STField(FieldDescriptor { owner: Type::U8, tpe: Type::Bool, name: Field::Item2 }),
        CILOp::LoadAddresOfTMPLocal,
        CILOp::LoadUnderTMPLocal(2),
        CILOp::STField(FieldDescriptor { owner: Type::U8, tpe: Type::U8, name: Field::Item1 }),
        CILOp::LoadTMPLocal,
        CILOp::FreeTMPLocal,
        CILOp::FreeTMPLocal,
        CILOp::FreeTMPLocal,
        CILOp::FreeTMPLocal,
        CILOp::FreeTMPLocal,
    ];
    assert_eq!(got, expected);
}

#[test]
fn add_i8_emits_promotion_fragment() {
    let got = add(Type::I8).unwrap();
    let expected = vec![
        CILOp::NewTMPLocal(SlotType::Scalar(Type::I8)),
        CILOp::SetTMPLocal,
        CILOp::ConvI16(false),
        CILOp::LoadTMPLocal,
        CILOp::ConvI16(false),
        CILOp::Add,
        CILOp::NewTMPLocal(SlotType::Scalar(Type::I16)),
        CILOp::SetTMPLocal,
        CILOp::LoadTMPLocal,
        CILOp::LdcI32(0x7f),
        CILOp::ConvI16(false),
        CILOp::Gt,
        CILOp::LoadTMPLocal,
        CILOp::LdcI32(-0x80),
        CILOp::ConvI16(false),
        CILOp::Lt,
        CILOp::Or,
        CILOp::NewTMPLocal(SlotType::Scalar(Type::Bool)),
        CILOp::SetTMPLocal,
        CILOp::NewTMPLocal(SlotType::Pair(Type::I8)),
        CILOp::LoadAddresOfTMPLocal,
        CILOp::LoadUnderTMPLocal(1),
        CILOp::STField(FieldDescriptor { owner: Type::I8, tpe: Type::Bool, name: Field::Item2 }),
        CILOp::LoadAddresOfTMPLocal,
        CILOp::LoadUnderTMPLocal(2),
        CILOp::ConvI8(false),
        CILOp::STField(FieldDescriptor { owner: Type::I8, tpe: Type::I8, name: Field::Item1 }),
        CILOp::LoadTMPLocal,
        CILOp::FreeTMPLocal,
        CILOp::FreeTMPLocal,
        CILOp::FreeTMPLocal,
        CILOp::FreeTMPLocal,
    ];
    assert_eq!(got, expected);
}

#[test]
fn sub_u64_routes_through_wide_runtime_type() {
    let got = sub(Type::U64).unwrap();
    let widen = CILOp::Call(CallSite {
        class: RuntimeType::UInt128,
        method: WideOp::Implicit,
        signature: FnSig { input_a: Type::U64, input_b: None, output: Type::U128 },
    });
    let narrow = CILOp::Call(CallSite {
        class: RuntimeType::UInt128,
        method: WideOp::Explicit,
        signature: FnSig { input_a: Type::U128, input_b: None, output: Type::U64 },
    });
    let wide_sub = CILOp::Call(CallSite {
        class: RuntimeType::UInt128,
        method: WideOp::Subtraction,
        signature: FnSig { input_a: Type::U128, input_b: Some(Type::U128), output: Type::U128 },
    });
    assert_eq!(got[2], widen);
    assert_eq!(got[4], widen);
    assert_eq!(got[5], wide_sub);
    // The overflow mask is u64::MAX written as the 64-bit constant with all
    // bits set, widened by the same conversion as the operands.
    assert_eq!(got[9], CILOp::LdcI64(-1));
    assert_eq!(got[10], widen);
    assert_eq!(got[20], narrow);
}

#[test]
fn mul_u32_is_unsupported() {
    assert_eq!(mul(Type::U32), Err(CodegenError::UnsupportedOperation(BinOp::Mul, Type::U32)));
}

#[test]
fn mul_i16_and_bool_are_unsupported() {
    assert_eq!(mul(Type::I16), Err(CodegenError::UnsupportedOperation(BinOp::Mul, Type::I16)));
    assert_eq!(add(Type::Bool), Err(CodegenError::UnsupportedOperation(BinOp::Add, Type::Bool)));
    assert_eq!(sub(Type::I128), Err(CodegenError::UnsupportedOperation(BinOp::Sub, Type::I128)));
}

#[test]
fn every_supported_fragment_balances_its_slots() {
    let types = [
        Type::U8,
        Type::U16,
        Type::U32,
        Type::U64,
        Type::I8,
        Type::I16,
        Type::I32,
        Type::I64,
    ];
    let mut fragments: Vec<Vec<CILOp>> = Vec::new();
    for tpe in types {
        fragments.push(add(tpe).unwrap());
        fragments.push(sub(tpe).unwrap());
    }
    fragments.push(mul(Type::U8).unwrap());
    fragments.push(mul(Type::I8).unwrap());
    for ops in &fragments {
        let mut depth: i64 = 0;
        for op in ops {
            match op {
                CILOp::NewTMPLocal(_) => depth += 1,
                CILOp::FreeTMPLocal => {
                    assert!(depth >= 1);
                    depth -= 1;
                }
                CILOp::SetTMPLocal | CILOp::LoadTMPLocal | CILOp::LoadAddresOfTMPLocal => {
                    assert!(depth >= 1);
                }
                CILOp::LoadUnderTMPLocal(n) => {
                    assert!(depth >= *n as i64 + 1);
                }
                _ => {}
            }
        }
        assert_eq!(depth, 0);
    }
}

#[test]
fn binop_checked_concatenates_operands_then_strategy() {
    let ops_a = vec![CILOp::LdcI32(7)];
    let ops_b = vec![CILOp::LdcI32(9)];
    let got = binop_checked(BinOp::Add, ops_a, Type::U8, ops_b, Type::U8, true).unwrap();
    let tail = add(Type::U8).unwrap();
    assert_eq!(got[0], CILOp::LdcI32(7));
    assert_eq!(got[1], CILOp::LdcI32(9));
    assert_eq!(&got[2..], &tail[..]);
}

#[test]
fn binop_checked_rejects_mismatched_operand_types() {
    let r = binop_checked(BinOp::Add, Vec::new(), Type::U8, Vec::new(), Type::U16, true);
    assert_eq!(r, Err(CodegenError::TypeMismatch(Type::U8, Type::U16)));
}

#[test]
fn binop_checked_rejects_unknown_kind() {
    let r = binop_checked(BinOp::Div, Vec::new(), Type::U8, Vec::new(), Type::U8, true);
    assert_eq!(r, Err(CodegenError::UnsupportedOperation(BinOp::Div, Type::U8)));
}

#[test]
fn binop_checked_needs_wide_runtime_for_64_bit() {
    let r = binop_checked(BinOp::Sub, Vec::new(), Type::I64, Vec::new(), Type::I64, false);
    assert_eq!(r, Err(CodegenError::UnsupportedTargetFeature(BinOp::Sub, Type::I64)));
    let r2 = binop_checked(BinOp::Sub, Vec::new(), Type::U64, Vec::new(), Type::U64, false);
    assert_eq!(r2, Err(CodegenError::UnsupportedTargetFeature(BinOp::Sub, Type::U64)));
    // The unsigned 64-bit add uses the mask strategy and needs no wide type.
    assert!(binop_checked(BinOp::Add, Vec::new(), Type::U64, Vec::new(), Type::U64, false).is_ok());
    assert!(binop_checked(BinOp::Sub, Vec::new(), Type::I64, Vec::new(), Type::I64, true).is_ok());
}

#[test]
fn binop_checked_mul_unchecked_shares_the_mul_row() {
    let direct = binop_checked(BinOp::Mul, Vec::new(), Type::I8, Vec::new(), Type::I8, true);
    let unchecked = binop_checked(BinOp::MulUnchecked, Vec::new(), Type::I8, Vec::new(), Type::I8, true);
    assert_eq!(direct, unchecked);
    let gap = binop_checked(BinOp::MulUnchecked, Vec::new(), Type::U16, Vec::new(), Type::U16, true);
    assert_eq!(gap, Err(CodegenError::UnsupportedOperation(BinOp::Mul, Type::U16)));
}
