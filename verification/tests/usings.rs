use solidity::compare::compare_source_unit;
use solidity::contracts::{ContractDef, ContractElem, FuncDef};
use solidity::definitions::{ContractKind, FuncKind, VarDecl};
use solidity::directives::{UsingDir, UsingFunc, UsingKind, UsingLib};
use solidity::expressions::{BinaryExpr, CallExpr, Expr, Identifier, MemberExpr, TupleExpr};
use solidity::lits::{IntNum, Lit, Num, NumLit};
use solidity::name::Name;
use solidity::operators::{BinOp, CallKind};
use solidity::passes::UsedFunc;
use solidity::rewriting::{eliminate_using_directives, UsingEliminator};
use solidity::usings::UsedFuncFinder;
use solidity::source_unit::{SourceUnit, SourceUnitElem};
use solidity::specifiers::{FuncMut, FuncVis, Overriding, VarMut, VarVis};
use solidity::stmts::{Block, ReturnStmt, Stmt};
use solidity::types::Type;

fn uint() -> Type {
    Type::Int { bitwidth: Some(256), is_signed: false }
}

fn ident(name: &str) -> Expr {
    Expr::Ident(Identifier::new(None, Name::from_str(name), uint(), None))
}

fn number(v: &str) -> Expr {
    Expr::Lit(Lit::Num(NumLit::new(Num::Int(IntNum::new(v.to_string(), uint())), None, None)))
}

fn decl(name: &str) -> VarDecl {
    VarDecl::new(
        None,
        None,
        Name::from_str(name),
        uint(),
        None,
        VarMut::Mutable,
        false,
        VarVis::Unspecified,
        None,
        Overriding::Unspecified,
        None,
    )
}

fn func(name: &str, kind: FuncKind, mutability: FuncMut, params: Vec<&str>, returns: usize, body: Vec<Stmt>) -> FuncDef {
    FuncDef::new(
        None,
        None,
        Name::from_str(name),
        kind,
        Some(Block::new(None, body, false, None)),
        false,
        FuncVis::Public,
        mutability,
        params.into_iter().map(decl).collect(),
        vec![],
        Overriding::Unspecified,
        (0..returns).map(|_| decl("")).collect(),
        None,
        None,
    )
}

fn ret(e: Expr) -> Stmt {
    Stmt::Return(ReturnStmt::new(None, Some(e), None))
}

fn call(callee: Expr, args: Vec<Expr>) -> Expr {
    Expr::Call(CallExpr::new_call_unnamed_args(None, callee, vec![], args, CallKind::FuncCall, uint(), None))
}

fn member(base: Expr, name: &str) -> Expr {
    Expr::Member(MemberExpr::new(None, base, Name::from_str(name), uint(), None))
}

fn contract(name: &str, kind: ContractKind, body: Vec<ContractElem>) -> ContractDef {
    ContractDef::new(None, None, Name::from_str(name), kind, false, vec![], body, None)
}

fn library() -> SourceUnitElem {
    let sum = Expr::Binary(BinaryExpr::new(None, BinOp::Add, ident("self"), ident("b"), uint(), None));
    let add = func("add", FuncKind::ContractFunc, FuncMut::Unspecified, vec!["self", "b"], 1, vec![ret(sum)]);
    SourceUnitElem::Contract(contract("SomeLibrary", ContractKind::Library, vec![ContractElem::Func(add)]))
}

fn add3(body: Expr) -> ContractElem {
    ContractElem::Func(func("add3", FuncKind::ContractFunc, FuncMut::Unspecified, vec!["number"], 1, vec![ret(body)]))
}

#[test]
fn remove_using_1() {
    let using = UsingDir::new(None, UsingKind::UsingLib(UsingLib::new("SomeLibrary")), Some(uint()), false, None);
    let input = SourceUnit::new(
        None,
        "using.sol".to_string(),
        vec![
            library(),
            SourceUnitElem::Contract(contract(
                "SomeContract",
                ContractKind::Contract,
                vec![ContractElem::Using(using), add3(call(member(ident("number"), "add"), vec![number("3")]))],
            )),
        ],
    );
    let output_sunits = eliminate_using_directives(&[input]);

    let lib = Expr::Ident(Identifier::new(
        None,
        Name::from_str("SomeLibrary"),
        Type::Contract { name: Name::from_str("SomeLibrary"), is_lib: true },
        None,
    ));
    let expected = SourceUnit::new(
        None,
        "using.sol".to_string(),
        vec![
            library(),
            SourceUnitElem::Contract(contract(
                "SomeContract",
                ContractKind::Contract,
                vec![add3(call(member(lib, "add"), vec![ident("number"), number("3")]))],
            )),
        ],
    );
    let expected_sunits = vec![expected];
    assert_eq!(output_sunits.len(), expected_sunits.len());
    for (out, exp) in output_sunits.iter().zip(expected_sunits.iter()) {
        if let Err(err) = compare_source_unit(out, exp) {
            panic!("Failed to eliminate using directive: {}", err.message)
        }
    }
    assert!(output_sunits[0].to_string().contains("return SomeLibrary.add(number, 3);"));
}

fn free_funcs() -> Vec<SourceUnitElem> {
    let f_body = Expr::Binary(BinaryExpr::new(None, BinOp::Add, ident("x"), number("2"), uint(), None));
    let g_body = Expr::Binary(BinaryExpr::new(None, BinOp::Add, ident("x"), number("8"), uint(), None));
    vec![
        SourceUnitElem::Func(func("f", FuncKind::FreeFunc, FuncMut::Pure, vec!["x"], 1, vec![ret(f_body)])),
        SourceUnitElem::Func(func("g", FuncKind::FreeFunc, FuncMut::Pure, vec!["x"], 1, vec![ret(g_body)])),
    ]
}

fn test_func(pair: Vec<Expr>) -> SourceUnitElem {
    let tuple = Expr::Tuple(TupleExpr::new(None, pair.into_iter().map(Some).collect(), uint(), None));
    let test = func("test", FuncKind::ContractFunc, FuncMut::Pure, vec!["x", "y"], 2, vec![ret(tuple)]);
    SourceUnitElem::Contract(contract("C", ContractKind::Contract, vec![ContractElem::Func(test)]))
}

#[test]
fn remove_using_2() {
    let using = UsingDir::new(
        None,
        UsingKind::UsingFunc(vec![UsingFunc::new("g", None), UsingFunc::new("f", None)]),
        Some(uint()),
        false,
        None,
    );
    let mut input_elems = free_funcs();
    input_elems.push(SourceUnitElem::Using(using));
    input_elems.push(test_func(vec![call(member(ident("x"), "f"), vec![]), call(member(ident("y"), "g"), vec![])]));
    let input_sunits = vec![SourceUnit::new(None, "using.sol".to_string(), input_elems)];
    let output_sunits = eliminate_using_directives(&input_sunits);

    let mut expected_elems = free_funcs();
    expected_elems.push(test_func(vec![call(ident("f"), vec![ident("x")]), call(ident("g"), vec![ident("y")])]));
    let expected_sunits = vec![SourceUnit::new(None, "using.sol".to_string(), expected_elems)];

    assert_eq!(output_sunits.len(), expected_sunits.len());
    for (out, exp) in output_sunits.iter().zip(expected_sunits.iter()) {
        if let Err(err) = compare_source_unit(out, exp) {
            panic!("Failed to eliminate using directive: {}", err.message)
        }
    }
    assert!(output_sunits[0].to_string().contains("return (f(x), g(y));"));
}

#[test]
fn member_calls_on_other_types_stay() {
    let using = UsingDir::new(
        None,
        UsingKind::UsingFunc(vec![UsingFunc::new("f", None)]),
        Some(Type::Bool),
        false,
        None,
    );
    let mut elems = free_funcs();
    elems.push(SourceUnitElem::Using(using));
    elems.push(test_func(vec![call(member(ident("x"), "f"), vec![]), call(member(ident("y"), "h"), vec![])]));
    let unit = SourceUnit::new(None, "using.sol".to_string(), elems);
    let out = UsingEliminator::new(&unit).eliminate_using(&unit);
    assert_eq!(out.elems.len(), 3);
    let text = out.to_string();
    assert!(text.contains("return (x.f(), y.h());"));
    assert!(!text.contains("using {"));
}

#[test]
fn functions_used_through_using_directives_are_found() {
    let using = UsingDir::new(
        None,
        UsingKind::UsingFunc(vec![UsingFunc::new("g", None), UsingFunc::new("h", None), UsingFunc::new("f", None)]),
        Some(uint()),
        false,
        None,
    );
    let lib_using = UsingDir::new(None, UsingKind::UsingLib(UsingLib::new("SomeLibrary")), Some(uint()), false, None);
    let mut elems = free_funcs();
    elems.push(SourceUnitElem::Using(using));
    elems.push(SourceUnitElem::Using(lib_using));
    let unit = SourceUnit::new(None, "using.sol".to_string(), elems);
    let finder = UsedFuncFinder::new(&unit);
    let found = finder._find_used_funcs();
    assert_eq!(
        found,
        vec![UsedFunc::new(Name::from_str("g"), Some(uint())), UsedFunc::new(Name::from_str("f"), Some(uint()))]
    );
    let in_contract = UsingDir::new(None, UsingKind::UsingFunc(vec![UsingFunc::new("f", None)]), Some(Type::Bool), false, None);
    let c = contract("C", ContractKind::Contract, vec![ContractElem::Using(in_contract)]);
    let mut finder = UsedFuncFinder::new(&unit);
    let folded = finder.fold_contract_def(vec![], &c);
    assert_eq!(folded, vec![UsedFunc::new(Name::from_str("f"), Some(Type::Bool))]);
    assert!(finder.current_contract.is_none());
}
