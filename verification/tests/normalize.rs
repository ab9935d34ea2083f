use solidity::contracts::{ContractDef, ContractElem, ErrorDef, FuncDef};
use solidity::definitions::{ContractKind, FuncKind, VarDecl};
use solidity::directives::{ImportDir, ImportSourceUnit, PragmaDir, PragmaKind};
use solidity::imports::{construct_source_unit_map, extract_import};
use solidity::expressions::{
    copy_expr, BinaryExpr, CallArgs, CallExpr, Expr, Identifier, MemberExpr, NamedArg,
};
use solidity::lits::{IntNum, Lit, Num, NumLit};
use solidity::modifiers::{create_ident_from_var_decl, find_modifier_declarations, ModifierTransformer};
use solidity::name::Name;
use solidity::named_args::{NamedArgsEliminator, ParamNamesFinder};
use solidity::operators::{BinOp, CallKind};
use solidity::source_unit::{SourceUnit, SourceUnitElem};
use solidity::specifiers::{FuncMut, FuncVis, Overriding, VarMut, VarVis};
use solidity::stmts::{Block, ExprStmt, PlaceholderStmt, ReturnStmt, Stmt};
use solidity::substitution::{substitute_stmt, IdentExprSubstitutor};
use solidity::types::Type;

fn uint() -> Type {
    Type::Int { bitwidth: Some(256), is_signed: false }
}

fn id(name: &str) -> Identifier {
    Identifier::new(None, Name::from_str(name), uint(), None)
}

fn ident(name: &str) -> Expr {
    Expr::Ident(id(name))
}

fn number(v: &str) -> Expr {
    Expr::Lit(Lit::Num(NumLit::new(Num::Int(IntNum::new(v.to_string(), uint())), None, None)))
}

fn param(name: &str) -> VarDecl {
    VarDecl::new(
        None,
        None,
        Name::from_str(name),
        uint(),
        None,
        VarMut::Mutable,
        false,
        VarVis::Unspecified,
        None,
        Overriding::Unspecified,
        None,
    )
}

fn call(callee: Expr, args: Vec<Expr>, kind: CallKind) -> CallExpr {
    CallExpr::new_call_unnamed_args(None, callee, vec![], args, kind, uint(), None)
}

fn func(name: &str, kind: FuncKind, params: Vec<VarDecl>, mods: Vec<CallExpr>, body: Vec<Stmt>) -> FuncDef {
    FuncDef::new(
        None,
        None,
        Name::from_str(name),
        kind,
        Some(Block::new(None, body, false, None)),
        false,
        FuncVis::Public,
        FuncMut::Unspecified,
        params,
        mods,
        Overriding::Unspecified,
        vec![],
        None,
        None,
    )
}

#[test]
fn copies_print_the_same() {
    let e = Expr::Binary(BinaryExpr::new(Some(2), BinOp::Mul, ident("a"), number("3"), uint(), None));
    let c = copy_expr(&e);
    assert_eq!(c, e);
    assert_eq!(e.clone().to_string(), "a * 3");
}

#[test]
fn substitute_identifiers_in_statements() {
    let sum = Expr::Binary(BinaryExpr::new(None, BinOp::Add, ident("a"), ident("b"), uint(), None));
    let stmt = Stmt::Return(ReturnStmt::new(None, Some(sum), None));
    let out = substitute_stmt(vec![id("a")], vec![number("5")], &stmt);
    assert_eq!(out.to_string(), "return 5 + b;");
    let later = IdentExprSubstitutor::new(vec![id("b"), id("b")], vec![number("1"), number("2")]);
    assert_eq!(later.map_stmt(&stmt).to_string(), "return a + 2;");
    let other_type = Identifier::new(None, Name::from_str("a"), Type::Bool, None);
    let untouched = substitute_stmt(vec![other_type], vec![number("5")], &stmt);
    assert_eq!(untouched.to_string(), "return a + b;");
}

#[test]
fn modifier_invocations_are_expanded() {
    let require = Stmt::Expr(ExprStmt::new(None, Expr::Call(call(ident("require"), vec![ident("x")], CallKind::FuncCall)), None));
    let modifier = func(
        "guard",
        FuncKind::Modifier,
        vec![param("x")],
        vec![],
        vec![require, Stmt::Placeholder(PlaceholderStmt::new(None, None))],
    );
    assert_eq!(create_ident_from_var_decl(&param("x")), id("x"));
    let contract = ContractDef::new(
        None,
        None,
        Name::from_str("C"),
        ContractKind::Contract,
        false,
        vec![],
        vec![ContractElem::Func(modifier)],
        None,
    );
    let unit = SourceUnit::new(None, "c.sol".to_string(), vec![SourceUnitElem::Contract(contract)]);
    let mods = find_modifier_declarations(&unit);
    assert_eq!(mods.len(), 1);
    assert_eq!(mods[0].0, Name::from_str("guard"));
    let transformer = ModifierTransformer { modifier_def_map: mods };

    let base = call(ident("Base"), vec![number("1")], CallKind::BaseConstructorCall);
    let invoc = call(ident("guard"), vec![ident("owner")], CallKind::ModifierInvoc);
    let f = func(
        "f",
        FuncKind::ContractFunc,
        vec![],
        vec![base, invoc],
        vec![Stmt::Return(ReturnStmt::new(None, Some(number("1")), None))],
    );
    let g = transformer.map_func_def(&f);
    assert_eq!(g.modifier_invocs.len(), 1);
    assert_eq!(g.modifier_invocs[0].kind, CallKind::BaseConstructorCall);
    assert_eq!(g.to_string(), "function f() public Base(1) {\n    require(owner);\n    return 1;\n}");

    let twice = func(
        "h",
        FuncKind::ContractFunc,
        vec![],
        vec![call(ident("guard"), vec![ident("a")], CallKind::ModifierInvoc), call(ident("guard"), vec![ident("b")], CallKind::ModifierInvoc)],
        vec![],
    );
    assert_eq!(
        transformer.map_func_def(&twice).to_string(),
        "function h() public {\n    require(b);\n    require(a);\n}"
    );
}

#[test]
fn parameter_names_are_found_by_key() {
    let free = func("f", FuncKind::FreeFunc, vec![param("a"), param("b")], vec![], vec![]);
    let contract = ContractDef::new(
        None,
        None,
        Name::from_str("C"),
        ContractKind::Contract,
        false,
        vec![],
        vec![
            ContractElem::Func(func("g", FuncKind::ContractFunc, vec![param("x")], vec![], vec![])),
            ContractElem::Error(ErrorDef::new(Name::from_str("E"), vec![param("code")], None)),
        ],
        None,
    );
    let unit = SourceUnit::new(None, "a.sol".to_string(), vec![SourceUnitElem::Func(free), SourceUnitElem::Contract(contract)]);
    let mut finder = ParamNamesFinder::new();
    let table = finder.find_parameter_names(&vec![unit]);
    assert!(finder.current_contract.is_none());
    let keys: Vec<String> = table.iter().map(|e| e.0.clone()).collect();
    assert_eq!(keys, vec!["f".to_string(), "C.g".to_string(), "C.E".to_string()]);
    assert_eq!(table[0].1, vec!["a".to_string(), "b".to_string()]);
}

#[test]
fn named_arguments_are_put_in_parameter_order() {
    let free = func("f", FuncKind::FreeFunc, vec![param("a"), param("b")], vec![], vec![]);
    let unit = SourceUnit::new(None, "a.sol".to_string(), vec![SourceUnitElem::Func(free)]);
    let mut elim = NamedArgsEliminator::new(&vec![unit]);
    let named = CallExpr::new_call_named_args(
        None,
        ident("f"),
        vec![],
        vec![NamedArg::new("b".to_string(), number("2"), None), NamedArg::new("a".to_string(), number("1"), None)],
        CallKind::FuncCall,
        uint(),
        None,
    );
    let out = elim.map_call_expr(&named);
    assert_eq!(out.to_string(), "f(1, 2)");
    assert!(matches!(out.args, CallArgs::Unnamed(_)));

    let unknown = CallExpr::new_call_named_args(
        None,
        ident("g"),
        vec![],
        vec![NamedArg::new("x".to_string(), number("2"), None)],
        CallKind::FuncCall,
        uint(),
        None,
    );
    assert_eq!(elim.map_call_expr(&unknown).to_string(), "g({x: 2})");

    elim.current_contract_scope = Some("C".to_string());
    assert_eq!(elim.map_call_expr(&named).to_string(), "f({b: 2, a: 1})");
    let member = CallExpr::new_call_named_args(
        None,
        Expr::Member(MemberExpr::new(None, ident("L"), Name::from_str("f"), uint(), None)),
        vec![],
        vec![NamedArg::new("a".to_string(), number("1"), None)],
        CallKind::FuncCall,
        uint(),
        None,
    );
    assert_eq!(elim.map_call_expr(&member).to_string(), "L.f({a: 1})");
}

#[test]
fn source_units_lose_their_modifiers() {
    let require = Stmt::Expr(ExprStmt::new(None, Expr::Call(call(ident("require"), vec![ident("x")], CallKind::FuncCall)), None));
    let modifier = func(
        "guard",
        FuncKind::Modifier,
        vec![param("x")],
        vec![],
        vec![require, Stmt::Placeholder(PlaceholderStmt::new(None, None))],
    );
    let f = func(
        "f",
        FuncKind::ContractFunc,
        vec![],
        vec![call(ident("guard"), vec![ident("owner")], CallKind::ModifierInvoc)],
        vec![Stmt::Return(ReturnStmt::new(None, Some(number("1")), None))],
    );
    let contract = ContractDef::new(
        None,
        None,
        Name::from_str("C"),
        ContractKind::Contract,
        false,
        vec![],
        vec![ContractElem::Func(modifier), ContractElem::Func(f)],
        None,
    );
    let unit = SourceUnit::new(None, "c.sol".to_string(), vec![SourceUnitElem::Contract(contract)]);
    let out = solidity::modifiers::eliminate_modifier_invocs(&vec![unit]);
    assert_eq!(out.len(), 1);
    assert_eq!(
        out[0].to_string(),
        "// File: c.sol\ncontract C {\n    function f() public {\n        require(owner);\n        return 1;\n    }\n}"
    );
}

#[test]
fn first_import_is_extracted() {
    let pragma = SourceUnitElem::Pragma(PragmaDir::new(None, PragmaKind::new_version("^0.8.0".to_string()), None));
    let imp = |p: &str| {
        SourceUnitElem::Import(ImportDir::new_import_path(
            None,
            ImportSourceUnit::new(p.to_string(), p.to_string(), None, None),
        ))
    };
    let free = SourceUnitElem::Func(func("f", FuncKind::FreeFunc, vec![], vec![], vec![]));
    let elems = vec![pragma, imp("a.sol"), free, imp("b.sol")];
    let (dir, others) = extract_import(&elems).unwrap();
    assert_eq!(dir.get_import_path(), "a.sol");
    assert_eq!(others.len(), 3);
    assert!(matches!(others[0], SourceUnitElem::Pragma(_)));
    assert!(matches!(others[1], SourceUnitElem::Func(_)));
    assert!(matches!(others[2], SourceUnitElem::Import(_)));
    assert!(extract_import(&vec![]).is_none());

    let units = vec![
        SourceUnit::new(Some(1), "x.sol".to_string(), vec![]),
        SourceUnit::new(Some(2), "y.sol".to_string(), vec![]),
    ];
    let map = construct_source_unit_map(&units);
    assert_eq!(map.len(), 2);
    assert_eq!(map[1].0, "y.sol");
    assert_eq!(map[1].1.id, Some(2));
}
