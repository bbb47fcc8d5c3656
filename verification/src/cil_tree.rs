//! A tree of instructions, flattened into the instruction fragment it
//! stands for. Fragments are pure data: built once, then only concatenated.

use vstd::prelude::*;
use crate::cil_op::CILOp;

verus! {

/// The root of an instruction tree: an ordered sequence of instructions.
#[derive(Clone, Debug)]
pub struct CILRoot {
    pub ops: Vec<CILOp>,
}

/// An instruction tree.
#[derive(Clone, Debug)]
pub struct CILTree {
    pub tree: CILRoot,
}

impl From<CILRoot> for CILTree {
    fn from(tree: CILRoot) -> (r: Self) {
        Self { tree }
    }
}

impl vstd::std_specs::convert::FromSpecImpl<CILRoot> for CILTree {
    open spec fn obeys_from_spec() -> bool {
        true
    }

    open spec fn from_spec(tree: CILRoot) -> Self {
        CILTree { tree }
    }
}

impl CILTree {
    /// The flat instruction fragment this tree stands for.
    pub fn flatten(&self) -> (r: Vec<CILOp>)
        ensures
            r@ == self.tree.ops@,
    {
        let mut r: Vec<CILOp> = Vec::new();
        let mut i: usize = 0;
        while i < self.tree.ops.len()
            invariant
                i <= self.tree.ops.len(),
                r@ == self.tree.ops@.take(i as int),
            decreases self.tree.ops.len() - i,
        {
            r.push(self.tree.ops[i]);
            i = i + 1;
            proof {
                assert(r@ =~= self.tree.ops@.take(i as int));
            }
        }
        proof {
            assert(r@ =~= self.tree.ops@);
        }
        r
    }
}

/// Appends one instruction to a fragment and hands the fragment back.
pub fn append_vec(ops: Vec<CILOp>, by: CILOp) -> (r: Vec<CILOp>)
    ensures
        r@ == ops@.push(by),
{
    let mut r = ops;
    r.push(by);
    r
}

} // verus!
