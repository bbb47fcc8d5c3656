//! The failures a lowering call can report. All of them are synchronous,
//! compile-time diagnostics; none is recoverable mid-lowering.

use vstd::prelude::*;
use crate::cil_op::Type;

verus! {

/// The kind of a binary operation as the intermediate representation names
/// it. Only `Add`, `Sub`, `Mul` and `MulUnchecked` have checked lowerings.
#[derive(Clone, Copy, Debug, PartialEq, Eq, Structural)]
pub enum BinOp {
    Add,
    Sub,
    Mul,
    MulUnchecked,
    Div,
    Rem,
}

/// The kind of a unary operation.
#[derive(Clone, Copy, Debug, PartialEq, Eq, Structural)]
pub enum UnOp {
    Neg,
    Not,
}

/// A diagnostic raised while lowering a checked operation.
#[derive(Clone, Copy, Debug, PartialEq, Eq, Structural)]
pub enum CodegenError {
    /// No lowering strategy is registered for this (operation, type) pair.
    UnsupportedOperation(BinOp, Type),
    /// The two operands resolved to different types; the caller was required
    /// to rule this out.
    TypeMismatch(Type, Type),
    /// The (operation, type) pair needs the runtime-supplied wide-integer
    /// type, and the target environment does not provide one.
    UnsupportedTargetFeature(BinOp, Type),
}

} // verus!
