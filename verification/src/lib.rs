//! Lowering of checked integer arithmetic to stack-machine instruction
//! sequences.
//!
//! The target machine has no overflow-reporting arithmetic instructions, so a
//! checked add, subtract or multiply is synthesized from unchecked primitive
//! instructions, type conversions, comparisons and temporary-slot bookkeeping.
//! Every checked operation leaves a single two-field result pair
//! `{value, overflow}` on the evaluation stack and a balanced temporary-slot
//! stack behind.

pub mod checked_binop;
pub mod cil_op;
pub mod cil_tree;
pub mod codegen_error;
pub mod semantics;
pub mod slots;
pub mod unop;
