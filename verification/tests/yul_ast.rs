use solidity::loc::Loc;
use solidity::name::Name;
use solidity::yul_ast::{YulExpr, YulHexLit, YulIdentifier, YulLit, YulMemberExpr, YulNumLit, YulStringLit};
use solidity::yul_sections::{YulCode, YulComment, YulData, YulDataContent, YulObject, YulObjectChild};
use solidity::yul_stmts::{YulBlock, YulStmt, YulSwitchDefault, YulSwitchValue, YulVarDecl};
use solidity::yul_types::{YulIntType, YulTupleType, YulType};

#[test]
fn yul_types_text() {
    let t = YulIntType::new(64, true);
    assert_eq!(t.bitwidth, 64);
    assert!(t.is_signed);
    assert_eq!(YulType::Int(t).to_string(), "int64");
    assert_eq!(YulType::Tuple(YulTupleType::new(vec![])).to_string(), "()");
}

#[test]
fn yul_member_and_identifiers() {
    let mut m = YulMemberExpr::new(Name::from_str("x"), Name::from_str("offset"), Some(Loc::new(1, 0, 1, 8)));
    m.set_naming_index(Some(3));
    assert_eq!(m.member, Name::new("offset".to_string(), Some(3)));
    assert_eq!(YulExpr::Member(m).to_string(), "x.offset_3");
    let i = YulIdentifier::new(Name::from_str("y"), YulType::Unkn, None);
    assert_eq!(i.to_string(), "y");
}

#[test]
fn yul_switch_cases_text() {
    let v = YulSwitchValue::new(
        YulLit::Num(YulNumLit::new_hex("0x1".to_string())),
        YulBlock::new(vec![YulStmt::Break]),
    );
    assert_eq!(v.to_string(), "case 0x1     {\n        break\n    }");
    let d = YulSwitchDefault::new(YulBlock::new(vec![]));
    assert_eq!(d.to_string(), "default     {}");
}

#[test]
fn yul_sections_text() {
    let decl = YulVarDecl::new(vec![YulIdentifier::new(Name::from_str("a"), YulType::Unkn, None)], None);
    let code = YulCode::new(YulBlock::new(vec![YulStmt::VarDecl(decl)]));
    assert_eq!(code.to_string(), "code {\n    let a\n}\n");
    let data = YulData::new(YulStringLit::new("d"), YulDataContent::Hex(YulHexLit::new("ab")));
    assert_eq!(data.to_string(), "data \"d\" hex\"ab\"");
    let inner = YulObject::new("In".to_string(), YulCode::new(YulBlock::new(vec![])), vec![]);
    let obj = YulObject::new(
        "Out".to_string(),
        code,
        vec![YulObjectChild::Object(inner), YulObjectChild::Data(data)],
    );
    assert_eq!(
        obj.to_string(),
        "object Out {\n    code {\n        let a\n    }\n    \n    object In {\n        code {}\n        \n    }\n    data \"d\" hex\"ab\"\n}"
    );
    let c = YulComment::new("// note".to_string());
    assert_eq!(c.to_string(), "// note");
}
