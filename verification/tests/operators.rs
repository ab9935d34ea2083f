use solidity::error::SolidityError;
use solidity::operators::{AssignOp, BinOp, UnaryOp};

#[test]
fn assign_ops_read_and_print() {
    assert_eq!(AssignOp::new(">>>="), Ok(AssignOp::AssignSar));
    assert_eq!(AssignOp::new("+=").unwrap().to_string(), "+=");
    assert_eq!(AssignOp::new("=").unwrap(), AssignOp::Assign);
    assert_eq!(AssignOp::new("=="), Err(SolidityError::InvalidAssignOp("==".to_string())));
}

#[test]
fn bin_ops_read_and_print() {
    for op in ["<", ">", "<=", ">=", "==", "!=", "&&", "||", "+", "-", "*", "/", "%", "**", "&", "|", "^", "<<", ">>", ">>>"] {
        assert_eq!(BinOp::new(op).unwrap().to_string(), op);
    }
    assert_eq!(BinOp::new("**"), Ok(BinOp::Power));
    assert_eq!(BinOp::new("=>"), Err(SolidityError::InvalidBinOp("=>".to_string())));
}

#[test]
fn unary_ops_depend_on_position() {
    assert_eq!(UnaryOp::new("++", true), Ok(UnaryOp::PreIncr));
    assert_eq!(UnaryOp::new("++", false), Ok(UnaryOp::PostIncr));
    assert_eq!(UnaryOp::new("--", false), Ok(UnaryOp::PostDecr));
    assert_eq!(UnaryOp::new("delete", true).unwrap().to_string(), "delete");
    assert_eq!(UnaryOp::PostIncr.to_string(), "++");
    assert_eq!(UnaryOp::new("+", true), Err(SolidityError::InvalidUnaryOp("+".to_string())));
}
