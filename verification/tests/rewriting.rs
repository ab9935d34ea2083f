use solidity::compare::compare_source_unit;
use solidity::contracts::{ContractDef, ContractElem, FuncDef};
use solidity::definitions::{ContractKind, FuncKind, VarDecl};
use solidity::exprs::TypeNameExpr;
use solidity::imports::unfold_imported_source_unit;
use solidity::expressions::{BinaryExpr, CallExpr, Expr, Identifier, MemberExpr, NamedArg, TupleExpr};
use solidity::lits::{BoolLit, IntNum, Lit, Num, NumLit, StringLit};
use solidity::loc::DataLoc;
use solidity::name::Name;
use solidity::operators::{BinOp, CallKind};
use solidity::rewriting::{
    eliminate_named_args, unroll_unary_tuple, SubstituteImportedExpr, TupleUnroller,
};
use solidity::source_unit::{SourceUnit, SourceUnitElem};
use solidity::specifiers::{FuncMut, FuncVis, Overriding, VarMut, VarVis};
use solidity::stmts::{Block, ExprStmt, ReturnStmt, Stmt};
use solidity::types::Type;

fn uint() -> Type {
    Type::Int { bitwidth: Some(256), is_signed: false }
}

fn address() -> Type {
    Type::Address { payable: false }
}

fn ident(name: &str) -> Expr {
    Expr::Ident(Identifier::new(None, Name::from_str(name), uint(), None))
}

fn number(v: &str) -> Expr {
    Expr::Lit(Lit::Num(NumLit::new(Num::Int(IntNum::new(v.to_string(), uint())), None, None)))
}

fn boolean(b: bool) -> Expr {
    Expr::Lit(Lit::Bool(BoolLit::new(b, Type::Bool, None)))
}

fn string(s: &str) -> Expr {
    Expr::Lit(Lit::String(StringLit::new(s.to_string(), Type::String { data_loc: DataLoc::Memory }, None)))
}

fn address_zero() -> Expr {
    let callee = Expr::TypeName(TypeNameExpr::new(None, address(), None));
    Expr::Call(CallExpr::new_call_unnamed_args(
        None,
        callee,
        vec![],
        vec![number("0")],
        CallKind::TypeConversionCall,
        address(),
        None,
    ))
}

fn decl(name: &str, typ: Type, data_loc: Option<DataLoc>) -> VarDecl {
    VarDecl::new(
        None,
        None,
        Name::from_str(name),
        typ,
        None,
        VarMut::Mutable,
        false,
        VarVis::Unspecified,
        data_loc,
        Overriding::Unspecified,
        None,
    )
}

fn func(
    name: &str,
    vis: FuncVis,
    params: Vec<VarDecl>,
    returns: Vec<VarDecl>,
    body: Vec<Stmt>,
) -> FuncDef {
    FuncDef::new(
        None,
        None,
        Name::from_str(name),
        FuncKind::ContractFunc,
        Some(Block::new(None, body, false, None)),
        false,
        vis,
        FuncMut::Pure,
        params,
        vec![],
        Overriding::Unspecified,
        returns,
        None,
        None,
    )
}

fn contract(name: &str, elems: Vec<ContractElem>) -> ContractDef {
    ContractDef::new(None, None, Name::from_str(name), ContractKind::Contract, false, vec![], elems, None)
}

fn ret(e: Expr) -> Stmt {
    Stmt::Return(ReturnStmt::new(None, Some(e), None))
}

fn many_inputs() -> FuncDef {
    func(
        "someFuncWithManyInputs",
        FuncVis::Public,
        vec![
            decl("x", uint(), None),
            decl("y", uint(), None),
            decl("z", uint(), None),
            decl("a", address(), None),
            decl("b", Type::Bool, None),
            decl("c", Type::String { data_loc: DataLoc::Memory }, Some(DataLoc::Memory)),
        ],
        vec![decl("", uint(), None)],
        vec![],
    )
}

fn positional_call() -> Expr {
    Expr::Call(CallExpr::new_call_unnamed_args(
        None,
        ident("someFuncWithManyInputs"),
        vec![],
        vec![number("1"), number("2"), number("3"), address_zero(), boolean(true), string("c")],
        CallKind::FuncCall,
        uint(),
        None,
    ))
}

fn named_call() -> Expr {
    Expr::Call(CallExpr::new_call_named_args(
        None,
        ident("someFuncWithManyInputs"),
        vec![],
        vec![
            NamedArg::new("a".to_string(), address_zero(), None),
            NamedArg::new("b".to_string(), boolean(true), None),
            NamedArg::new("c".to_string(), string("c"), None),
            NamedArg::new("x".to_string(), number("1"), None),
            NamedArg::new("y".to_string(), number("2"), None),
            NamedArg::new("z".to_string(), number("3"), None),
        ],
        CallKind::FuncCall,
        uint(),
        None,
    ))
}

fn xyz(key_value_call: Expr) -> SourceUnit {
    let body = contract(
        "XYZ",
        vec![
            ContractElem::Func(many_inputs()),
            ContractElem::Func(func(
                "callFunc",
                FuncVis::External,
                vec![],
                vec![decl("", uint(), None)],
                vec![ret(positional_call())],
            )),
            ContractElem::Func(func(
                "callFuncWithKeyValue",
                FuncVis::External,
                vec![],
                vec![decl("", uint(), None)],
                vec![ret(key_value_call)],
            )),
        ],
    );
    SourceUnit::new(None, "xyz.sol".to_string(), vec![SourceUnitElem::Contract(body)])
}

#[test]
fn test_eliminate_named_arguments() {
    let input_sunits = vec![xyz(named_call())];
    let output_sunits = eliminate_named_args(&input_sunits);
    let expected_sunits = vec![xyz(positional_call())];
    assert_eq!(output_sunits.len(), expected_sunits.len());
    for (out, exp) in output_sunits.iter().zip(expected_sunits.iter()) {
        if let Err(err) = compare_source_unit(out, exp) {
            panic!("Failed to eliminiate named args: {}", err.message)
        }
    }
}

#[test]
fn named_arguments_of_unknown_callees_stay() {
    let unknown = Expr::Call(CallExpr::new_call_named_args(
        None,
        ident("g"),
        vec![],
        vec![NamedArg::new("b".to_string(), number("2"), None), NamedArg::new("a".to_string(), number("1"), None)],
        CallKind::FuncCall,
        uint(),
        None,
    ));
    let input = vec![xyz(unknown)];
    let output = eliminate_named_args(&input);
    assert_eq!(output[0].to_string(), input[0].to_string());
    assert!(output[0].to_string().contains("return g({b: 2, a: 1});"));
}

#[test]
fn calls_through_a_tuple_of_one_component_are_unrolled() {
    let tuple = Expr::Tuple(TupleExpr::new(None, vec![Some(ident("g"))], uint(), None));
    let through_tuple = Expr::Call(CallExpr::new_call_unnamed_args(
        None,
        tuple,
        vec![],
        vec![number("1")],
        CallKind::FuncCall,
        uint(),
        None,
    ));
    let f = func("f", FuncVis::Public, vec![], vec![], vec![ret(through_tuple)]);
    let unit = SourceUnit::new(None, "t.sol".to_string(), vec![SourceUnitElem::Func(f)]);
    let out = unroll_unary_tuple(&[unit]);
    assert_eq!(out.len(), 1);
    assert!(out[0].to_string().contains("return g(1);"));
    let unroller = TupleUnroller {};
    let pair = Expr::Tuple(TupleExpr::new(None, vec![Some(ident("a")), Some(ident("b"))], uint(), None));
    let untouched = func("h", FuncVis::Public, vec![], vec![], vec![ret(pair)]);
    let unit2 = SourceUnit::new(None, "u.sol".to_string(), vec![SourceUnitElem::Func(untouched)]);
    let out2 = unroller.unrolle_single_tuple(&unit2);
    assert_eq!(out2.to_string(), unit2.to_string());
    assert!(out2.to_string().contains("return (a, b);"));
}

#[test]
fn tuples_of_one_component_are_unrolled_everywhere() {
    let inner = Expr::Tuple(TupleExpr::new(None, vec![Some(ident("a"))], uint(), None));
    let nested = Expr::Tuple(TupleExpr::new(None, vec![Some(inner)], uint(), None));
    let sum = Expr::Binary(BinaryExpr::new(None, BinOp::Add, nested, number("1"), uint(), None));
    let f = func("f", FuncVis::Public, vec![], vec![], vec![ret(sum)]);
    let unit = SourceUnit::new(None, "t.sol".to_string(), vec![SourceUnitElem::Func(f)]);
    let out = unroll_unary_tuple(&[unit]);
    assert_eq!(out.len(), 1);
    assert!(out[0].to_string().contains("return a + 1;"));
}

#[test]
fn member_accesses_through_an_alias_are_replaced() {
    let access = Expr::Member(MemberExpr::new(None, ident("A"), Name::from_str("f"), uint(), None));
    let other = Expr::Member(MemberExpr::new(None, ident("B"), Name::from_str("f"), uint(), None));
    let sum = Expr::Binary(BinaryExpr::new(None, BinOp::Add, access, other, uint(), None));
    let substitutor = SubstituteImportedExpr::new(vec![("A.f".to_string(), Name::from_str("f"))]);
    assert_eq!(substitutor.map_expr(&sum).to_string(), "f + B.f");
    let stmt = Stmt::Expr(ExprStmt::new(None, sum, None));
    let g = func("g", FuncVis::Public, vec![], vec![], vec![stmt]);
    let elems = substitutor.substitue(&[SourceUnitElem::Func(g)]);
    assert_eq!(elems.len(), 1);
    assert!(elems[0].to_string().contains("f + B.f;"));
    let later = SubstituteImportedExpr::new(vec![
        ("A.f".to_string(), Name::from_str("f")),
        ("A.f".to_string(), Name::from_str("h")),
    ]);
    let access = Expr::Member(MemberExpr::new(None, ident("A"), Name::from_str("f"), uint(), None));
    assert_eq!(later.map_expr(&access).to_string(), "h");
}

#[test]
fn a_source_unit_imported_under_an_alias_is_unfolded() {
    let f = func("f", FuncVis::Public, vec![], vec![], vec![]);
    let lib = contract("L", vec![]);
    let imported = SourceUnit::new(
        None,
        "lib.sol".to_string(),
        vec![SourceUnitElem::Func(f), SourceUnitElem::Contract(lib)],
    );
    let access = Expr::Member(MemberExpr::new(None, ident("A"), Name::from_str("f"), uint(), None));
    let other = Expr::Member(MemberExpr::new(None, ident("A"), Name::from_str("g"), uint(), None));
    let g = func(
        "g",
        FuncVis::Public,
        vec![],
        vec![],
        vec![Stmt::Expr(ExprStmt::new(None, Expr::Binary(BinaryExpr::new(None, BinOp::Add, access, other, uint(), None)), None))],
    );
    let target = vec![SourceUnitElem::Func(g)];
    let mut names: Vec<String> = vec![];
    let (imported_elems, substituted) = unfold_imported_source_unit(&mut names, &imported, "A", &target);
    assert_eq!(names, vec!["lib.sol:f".to_string(), "lib.sol:L".to_string()]);
    assert_eq!(imported_elems.len(), 2);
    assert_eq!(imported_elems[1].to_string(), imported.elems[1].to_string());
    assert_eq!(substituted.len(), 1);
    assert!(substituted[0].to_string().contains("f + A.g;"));
    let (again, _) = unfold_imported_source_unit(&mut names, &imported, "A", &target);
    assert!(again.is_empty());
    assert_eq!(names.len(), 2);
}
