use solidity::definitions::{ContractKind, EnumDef, FuncKind, StructDef, StructField, TypeDef};
use solidity::error::SolidityError;
use solidity::exprs::{NewExpr, TypeNameExpr};
use solidity::stmts::PlaceholderStmt;
use solidity::lits::{BoolLit, HexLit, HexNum, IntNum, Lit, Num, NumLit, NumUnit, StringLit, UnicodeLit};
use solidity::loc::{DataLoc, Loc};
use solidity::name::Name;
use solidity::types::Type;

#[test]
fn kinds_read_and_print() {
    assert_eq!(ContractKind::from_string("library"), Ok(ContractKind::Library));
    assert_eq!(
        ContractKind::from_string("module"),
        Err(SolidityError::UnknownContractKind("module".to_string()))
    );
    assert_eq!(FuncKind::new("freeFunction"), Ok(FuncKind::FreeFunc));
    assert_eq!(FuncKind::FreeFunc.to_string(), "function");
    assert_eq!(FuncKind::new("ctor"), Err(SolidityError::UnknownFuncKind("ctor".to_string())));
}

#[test]
fn enum_def_text() {
    let e = EnumDef::new(Some(3), None, Name::from_str("Color"), vec!["Red".to_string(), "Green".to_string()], None);
    assert_eq!(e.to_string(), "enum Color {\n    Red,\n    Green\n}");
    assert_eq!(e.scope_id, None);
    assert_eq!(e.id, Some(3));
}

#[test]
fn struct_def_text() {
    let f1 = StructField::new(None, "owner".to_string(), Type::Address { payable: true }, None);
    let f2 = StructField::new(
        None,
        "vals".to_string(),
        Type::Array { base: Box::new(Type::Int { bitwidth: Some(8), is_signed: true }), length: None, data_loc: DataLoc::Storage },
        Some(Loc::new(1, 2, 3, 4)),
    );
    assert_eq!(f2.to_string(), "int8[] storage vals");
    let s = StructDef::new(None, Some(1), Name::from_str("S"), vec![f1, f2], None);
    assert_eq!(s.to_string(), "struct S {\n    address payable owner;\n    int8[] storage vals;\n}");
}

#[test]
fn type_def_and_types_text() {
    let t = TypeDef::new(None, None, Name::from_str("Price"), Type::Int { bitwidth: Some(128), is_signed: false }, None);
    assert_eq!(t.to_string(), "type Price is uint128;");
    let m = Type::Mapping {
        key: Box::new(Type::Address { payable: false }),
        value: Box::new(Type::Bytes { length: Some(32), data_loc: DataLoc::Unspecified }),
    };
    assert_eq!(m.to_string(), "mapping(address => bytes32)");
    assert_eq!(Type::Bytes { length: None, data_loc: DataLoc::Calldata }.to_string(), "bytes calldata");
    let a = Type::Array { base: Box::new(Type::Bool), length: Some(3), data_loc: DataLoc::Memory };
    assert_eq!(a.to_string(), "bool[3] memory");
    assert_eq!(a.data_loc(), DataLoc::Memory);
    assert_eq!(a.clone(), a);
    assert_eq!(Type::Struct { name: Name::new("S".to_string(), Some(2)), scope: None, data_loc: DataLoc::Memory }.to_string(), "S_2 memory");
}

#[test]
fn expressions_with_types() {
    let mut e = NewExpr::new(Some(7), Type::String { data_loc: DataLoc::Memory }, None);
    assert_eq!(e.to_string(), "new string memory");
    e.update_data_type(Type::Bool);
    assert_eq!(e.typ, Type::Bool);
    assert_eq!(e.id, Some(7));
    let mut t = TypeNameExpr::new(None, Type::String { data_loc: DataLoc::Storage }, None);
    assert_eq!(t.to_string(), "string");
    t.update_data_type(Type::Address { payable: false });
    assert_eq!(t.to_string(), "address");
    let mut h = HexNum::new("0xff".to_string(), Type::Int { bitwidth: None, is_signed: false });
    assert_eq!(h.to_string(), "0xff");
    h.update_data_type(Type::Bool);
    assert_eq!(h.typ, Type::Bool);
}

#[test]
fn number_units_and_placeholder() {
    assert_eq!(NumUnit::new("gwei"), NumUnit::Gwei);
    assert_eq!(NumUnit::new("years").to_string(), "years");
    let p = PlaceholderStmt::new(None, None);
    assert_eq!(p.to_string(), "_");
}

#[test]
fn literals_text_and_types() {
    let n = NumLit::new(
        Num::Int(IntNum::new("5".to_string(), Type::Int { bitwidth: None, is_signed: false })),
        Some(NumUnit::Ether),
        None,
    );
    let mut l = Lit::Num(n);
    assert_eq!(l.to_string(), "5 ether");
    l.update_data_type(Type::Int { bitwidth: Some(256), is_signed: false });
    assert_eq!(l.typ(), Type::Int { bitwidth: Some(256), is_signed: false });
    assert_eq!(Lit::Bool(BoolLit::new(false, Type::Bool, None)).to_string(), "false");
    assert_eq!(Lit::String(StringLit::new("hi".to_string(), Type::String { data_loc: DataLoc::Memory }, None)).to_string(), "\"hi\"");
    assert_eq!(Lit::Hex(HexLit::new("0a", Type::Bool, None)).to_string(), "hex\"0a\"");
    let u = Lit::Unicode(UnicodeLit::new("é".to_string(), Type::Bool, Some(Loc::new(1, 1, 1, 9))));
    assert_eq!(u.to_string(), "unicode\"é\"");
    assert_eq!(u.loc(), Some(Loc::new(1, 1, 1, 9)));
}
