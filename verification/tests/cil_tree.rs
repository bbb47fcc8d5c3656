use cil_lower::cil_op::CILOp;
use cil_lower::cil_tree::{append_vec, CILRoot, CILTree};

#[test]
fn flatten_hands_back_the_root_ops() {
    let root = CILRoot { ops: vec![CILOp::LdcI32(1), CILOp::Neg, CILOp::ConvI8(false)] };
    let tree = CILTree::from(root.clone());
    assert_eq!(tree.flatten(), root.ops);
}

#[test]
fn flatten_of_empty_root_is_empty() {
    let tree = CILTree::from(CILRoot { ops: vec![] });
    assert_eq!(tree.flatten(), Vec::<CILOp>::new());
}

#[test]
fn append_vec_pushes_one_instruction() {
    let ops = vec![CILOp::LdcI32(3), CILOp::LdcI32(4)];
    let got = append_vec(ops, CILOp::Add);
    assert_eq!(got, vec![CILOp::LdcI32(3), CILOp::LdcI32(4), CILOp::Add]);
    let empty = append_vec(Vec::new(), CILOp::Nop);
    assert_eq!(empty, vec![CILOp::Nop]);
}
