//! The instruction vocabulary of the target stack machine, as far as the
//! checked-arithmetic engine needs it.
//!
//! An instruction fragment is an immutable `Vec<CILOp>`; concatenation order
//! is emitted program order. The temporary-slot instructions form a strict
//! LIFO discipline whose rules live in [`crate::slots`].

use vstd::prelude::*;

verus! {

/// A scalar machine type: width and signedness, plus `Bool` and the two
/// runtime-supplied 128-bit integer types used by the wide-integer escape
/// path.
#[derive(Clone, Copy, Debug, PartialEq, Eq, Structural)]
pub enum Type {
    Bool,
    U8,
    U16,
    U32,
    U64,
    U128,
    I8,
    I16,
    I32,
    I64,
    I128,
}

/// The type of one temporary slot: either a scalar, or the two-field result
/// pair `{value: T, overflow: Bool}` that every checked operation returns.
#[derive(Clone, Copy, Debug, PartialEq, Eq, Structural)]
pub enum SlotType {
    Scalar(Type),
    Pair(Type),
}

/// A runtime-supplied wide-integer type, reachable only through calls.
#[derive(Clone, Copy, Debug, PartialEq, Eq, Structural)]
pub enum RuntimeType {
    Int128,
    UInt128,
}

/// The named operators of the runtime-supplied wide-integer types: widening
/// and narrowing conversion, arithmetic, and the two unary operators.
#[derive(Clone, Copy, Debug, PartialEq, Eq, Structural)]
pub enum WideOp {
    Implicit,
    Explicit,
    Addition,
    Subtraction,
    UnaryNegation,
    OnesComplement,
}

/// The declared signature of a called operator: one or two inputs and an
/// output.
#[derive(Clone, Copy, Debug, PartialEq, Eq, Structural)]
pub struct FnSig {
    pub input_a: Type,
    pub input_b: Option<Type>,
    pub output: Type,
}

/// A call target: a named operator of a runtime-supplied wide-integer type,
/// with its declared signature.
#[derive(Clone, Copy, Debug, PartialEq, Eq, Structural)]
pub struct CallSite {
    pub class: RuntimeType,
    pub method: WideOp,
    pub signature: FnSig,
}

/// The two fields of the result pair: `Item1` is the value, `Item2` the
/// overflow flag.
#[derive(Clone, Copy, Debug, PartialEq, Eq, Structural)]
pub enum Field {
    Item1,
    Item2,
}

/// Selects a field of a result pair whose value type is `owner`; `tpe` is the
/// type of the selected field.
#[derive(Clone, Copy, Debug, PartialEq, Eq, Structural)]
pub struct FieldDescriptor {
    pub owner: Type,
    pub tpe: Type,
    pub name: Field,
}

/// One target-machine instruction.
///
/// The comparison instructions `Eq`, `Lt` and `Gt` compare according to the
/// signedness of their operands' types; the conversions truncate or extend to
/// the named width.
#[derive(Clone, Copy, Debug, PartialEq, Eq, Structural)]
pub enum CILOp {
    /// Allocates a new temporary slot of the given type on the slot stack.
    NewTMPLocal(SlotType),
    /// Pops the evaluation stack into the most recently allocated slot.
    SetTMPLocal,
    /// Pushes the value of the most recently allocated slot.
    LoadTMPLocal,
    /// Pushes the value of the slot `n` allocations below the top slot.
    LoadUnderTMPLocal(u32),
    /// Pushes the address of the most recently allocated slot.
    LoadAddresOfTMPLocal,
    /// Frees the most recently allocated slot.
    FreeTMPLocal,
    Add,
    Sub,
    Mul,
    Or,
    And,
    Not,
    Eq,
    Lt,
    Gt,
    Dup,
    Nop,
    Neg,
    ConvU8(bool),
    ConvU16(bool),
    ConvU32(bool),
    ConvU64(bool),
    ConvI8(bool),
    ConvI16(bool),
    ConvI32(bool),
    ConvI64(bool),
    LdcI32(i32),
    LdcI64(i64),
    /// Calls an operator of a runtime-supplied wide-integer type.
    Call(CallSite),
    /// Pops an address and a value and stores the value into the named field
    /// of the aggregate behind the address.
    STField(FieldDescriptor),
}

/// The smallest value representable in a scalar integer type.
pub open spec fn type_min(t: Type) -> int {
    match t {
        Type::Bool => 0,
        Type::U8 => 0,
        Type::U16 => 0,
        Type::U32 => 0,
        Type::U64 => 0,
        Type::U128 => 0,
        Type::I8 => i8::MIN as int,
        Type::I16 => i16::MIN as int,
        Type::I32 => i32::MIN as int,
        Type::I64 => i64::MIN as int,
        Type::I128 => i128::MIN as int,
    }
}

/// The largest value representable in a scalar integer type.
pub open spec fn type_max(t: Type) -> int {
    match t {
        Type::Bool => 1,
        Type::U8 => u8::MAX as int,
        Type::U16 => u16::MAX as int,
        Type::U32 => u32::MAX as int,
        Type::U64 => u64::MAX as int,
        Type::U128 => u128::MAX as int,
        Type::I8 => i8::MAX as int,
        Type::I16 => i16::MAX as int,
        Type::I32 => i32::MAX as int,
        Type::I64 => i64::MAX as int,
        Type::I128 => i128::MAX as int,
    }
}

/// The call instruction that reaches a named operator of a runtime-supplied
/// 128-bit type, with its declared signature.
pub open spec fn wide_call_op(
    class: RuntimeType,
    method: WideOp,
    input_a: Type,
    input_b: Option<Type>,
    output: Type,
) -> CILOp {
    CILOp::Call(
        CallSite {
            class,
            method,
            signature: FnSig { input_a, input_b, output },
        },
    )
}

/// The call through which the wide-integer escape path reaches a named
/// operator of a runtime-supplied 128-bit type.
pub fn wide_call(class: RuntimeType, method: WideOp, input_a: Type, input_b: Option<Type>, output: Type) -> (r: CILOp)
    ensures
        r == wide_call_op(class, method, input_a, input_b, output),
{
    CILOp::Call(
        CallSite {
            class,
            method,
            signature: FnSig { input_a, input_b, output },
        },
    )
}

} // verus!
