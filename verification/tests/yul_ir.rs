use solidity::name::Name;
use solidity::yul_ir::{
    YulIRBoolLit, YulIRCallExpr, YulIRExpr, YulIRHexLit, YulIRIdentifier, YulIRLit, YulIRMemberExpr,
    YulIRNumLit, YulIRStringLit,
};
use solidity::yul_ir_stmts::{
    YulIRAssignStmt, YulIRBlock, YulIRForStmt, YulIRFuncDef, YulIRIfStmt, YulIRStmt,
    YulIRSwitchDefault, YulIRSwitchStmt, YulIRSwitchValue, YulIRVarDecl,
};
use solidity::yul_ir_types::{YulIRIntType, YulIRTupleType, YulIRType};

fn ident(s: &str) -> YulIRIdentifier {
    YulIRIdentifier::new(Name::from_str(s), YulIRType::Unkn)
}

fn num(s: &str) -> YulIRExpr {
    YulIRExpr::Lit(YulIRLit::Num(YulIRNumLit::new_decimal(s.to_string())))
}

#[test]
fn yul_ir_types_text() {
    assert_eq!(YulIRIntType::new(256, false).to_string(), "uint256");
    let t = YulIRType::Tuple(YulIRTupleType::new(vec![
        YulIRType::Int(YulIRIntType::new(8, true)),
        YulIRType::Bool,
        YulIRType::String,
    ]));
    assert_eq!(t.to_string(), "(int8, bool, string)");
    assert_eq!(YulIRType::Unkn.to_string(), "unresolved_type");
}

#[test]
fn yul_ir_literals_and_expressions_text() {
    assert_eq!(YulIRLit::Bool(YulIRBoolLit::new(true)).to_string(), "true");
    assert_eq!(YulIRLit::Hex(YulIRHexLit::new("00ff")).to_string(), "hex\"00ff\"");
    assert_eq!(YulIRLit::Str(YulIRStringLit::new("abc")).to_string(), "\"abc\"");
    assert_eq!(YulIRLit::Num(YulIRNumLit::new_hex("0x10".to_string())).to_string(), "0x10");
    let call = YulIRCallExpr::new(ident("add"), vec![num("1"), YulIRExpr::Ident(ident("x"))]);
    assert_eq!(YulIRExpr::Call(call).to_string(), "add(1, x)");
    let m = YulIRMemberExpr::new(Name::from_str("s"), Name::new("slot".to_string(), Some(1)));
    assert_eq!(m.to_string(), "s.slot_1");
}

#[test]
fn yul_ir_statements_text() {
    let decl = YulIRVarDecl::new(
        vec![ident("x"), YulIRIdentifier::new(Name::from_str("y"), YulIRType::Bool)],
        Some(num("2")),
    );
    assert_eq!(decl.to_string(), "let x, y: bool := 2");
    let assign = YulIRAssignStmt::new(vec![ident("x")], num("3"));
    let body = YulIRBlock::new(vec![YulIRStmt::Assign(assign), YulIRStmt::Leave]);
    assert_eq!(body.to_string(), "{\n    x := 3\n    leave\n}");
    let empty = YulIRBlock::new(vec![]);
    assert_eq!(empty.to_string(), "{}");
    let iff = YulIRStmt::If(YulIRIfStmt::new(YulIRExpr::Ident(ident("c")), YulIRBlock::new(vec![YulIRStmt::Break])));
    assert_eq!(iff.to_string(), "if c {\n    break\n}");
    let fors = YulIRStmt::For(YulIRForStmt::new(
        YulIRBlock::new(vec![]),
        YulIRExpr::Ident(ident("c")),
        YulIRBlock::new(vec![]),
        YulIRBlock::new(vec![YulIRStmt::Continue]),
    ));
    assert_eq!(fors.to_string(), "for {} c {} {\n    continue\n}");
}

#[test]
fn yul_ir_switch_and_function_text() {
    let sw = YulIRSwitchStmt::new(
        YulIRExpr::Ident(ident("v")),
        vec![YulIRSwitchValue::new(
            YulIRLit::Num(YulIRNumLit::new_decimal("0".to_string())),
            YulIRBlock::new(vec![YulIRStmt::Leave]),
        )],
        Some(YulIRSwitchDefault::new(YulIRBlock::new(vec![]))),
    );
    assert_eq!(
        YulIRStmt::Switch(sw).to_string(),
        "switch v \ncase 0     {\n        leave\n    }\ndefault     {}"
    );
    let f = YulIRFuncDef::new("f", vec![ident("a")], vec![ident("r")], YulIRBlock::new(vec![]));
    assert_eq!(f.to_string(), "\nfunction f(a) -> r{}");
    let g = YulIRFuncDef::new("g", vec![], vec![], YulIRBlock::new(vec![]));
    assert_eq!(YulIRStmt::FuncDef(g).to_string(), "\nfunction g() {}");
}
