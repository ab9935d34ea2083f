use solidity::compare::{
    compare_block, compare_contract_def, compare_expr, compare_func_def, compare_name,
    compare_source_unit, compare_stmt, compare_type,
};
use solidity::contracts::{BaseContract, ContractDef, ContractElem, ErrorDef, EventDef, FuncDef};
use solidity::definitions::{ContractKind, EnumDef, FuncKind, StructDef, StructField, TypeDef, VarDecl};
use solidity::expressions::{BinaryExpr, CallExpr, Expr, Identifier, NamedArg};
use solidity::lits::{BoolLit, IntNum, Lit, Num, NumLit};
use solidity::loc::{DataLoc, Loc};
use solidity::name::Name;
use solidity::operators::{BinOp, CallKind};
use solidity::source_unit::{SourceUnit, SourceUnitElem};
use solidity::specifiers::{FuncMut, FuncVis, Overriding, VarMut, VarVis};
use solidity::stmts::{Block, BreakStmt, ExprStmt, IfStmt, PlaceholderStmt, ReturnStmt, Stmt};
use solidity::types::Type;

fn uint() -> Type {
    Type::Int { bitwidth: Some(256), is_signed: false }
}

fn ident(name: &str) -> Expr {
    Expr::Ident(Identifier::new(None, Name::from_str(name), uint(), None))
}

fn number(v: &str) -> Expr {
    Expr::Lit(Lit::Num(NumLit::new(Num::Int(IntNum::new(v.to_string(), uint())), None, None)))
}

fn param(name: &str) -> VarDecl {
    VarDecl::new(
        None,
        None,
        Name::from_str(name),
        uint(),
        None,
        VarMut::Mutable,
        false,
        VarVis::Unspecified,
        None,
        Overriding::Unspecified,
        None,
    )
}

fn ret(e: Expr) -> Stmt {
    Stmt::Return(ReturnStmt::new(None, Some(e), None))
}

fn func(name: &str, kind: FuncKind, body: Option<Block>) -> FuncDef {
    FuncDef::new(
        None,
        None,
        Name::from_str(name),
        kind,
        body,
        false,
        FuncVis::Public,
        FuncMut::Pure,
        vec![param("a")],
        vec![],
        Overriding::Unspecified,
        vec![param("")],
        None,
        None,
    )
}

fn sum_body() -> Block {
    let sum = Expr::Binary(BinaryExpr::new(None, BinOp::Add, ident("a"), number("1"), uint(), None));
    Block::new(None, vec![ret(sum)], false, None)
}

#[test]
fn func_def_text() {
    let f = func("inc", FuncKind::ContractFunc, Some(sum_body()));
    assert_eq!(f.to_string(), "function inc(a) public pure returns (uint256) {\n    return a + 1;\n}");
    let g = func("inc", FuncKind::ContractFunc, None);
    assert_eq!(g.to_string(), "function inc(a) public pure returns (uint256);");
    assert!(f.is_free_function() == false);
    assert!(func("", FuncKind::Fallback, None).is_fallback_function());
}

#[test]
fn func_def_text_with_modifier_and_override() {
    let modifier = CallExpr::new_call_unnamed_args(
        None,
        ident("onlyOwner"),
        vec![],
        vec![],
        CallKind::ModifierInvoc,
        uint(),
        None,
    );
    let f = FuncDef::new(
        None,
        None,
        Name::from_str("set"),
        FuncKind::ContractFunc,
        Some(Block::new(None, vec![], false, None)),
        true,
        FuncVis::External,
        FuncMut::Unspecified,
        vec![],
        vec![modifier],
        Overriding::All,
        vec![],
        None,
        None,
    );
    assert_eq!(f.to_string(), "function set() external virtual onlyOwner() override {}");
}

#[test]
fn old_fallback_prints_function_keyword() {
    let f = FuncDef::new(
        None,
        None,
        Name::from_str(""),
        FuncKind::Fallback,
        None,
        false,
        FuncVis::External,
        FuncMut::Unspecified,
        vec![],
        vec![],
        Overriding::Unspecified,
        vec![],
        None,
        Some("^0.5.0".to_string()),
    );
    assert_eq!(f.to_string(), "function() external;");
    let g = FuncDef::new(
        None,
        None,
        Name::from_str(""),
        FuncKind::Fallback,
        None,
        false,
        FuncVis::External,
        FuncMut::Unspecified,
        vec![],
        vec![],
        Overriding::Unspecified,
        vec![],
        None,
        Some("^0.8.0".to_string()),
    );
    assert_eq!(g.to_string(), "fallback() external;");
}

#[test]
fn error_and_event_text() {
    let e = ErrorDef::new(Name::from_str("Bad"), vec![param("code"), param("why")], None);
    assert_eq!(e.to_string(), "error Bad (code, why);");
    let ev = EventDef::new(Name::from_str("Moved"), true, vec![param("to")], None);
    assert_eq!(ev.to_string(), "event Moved (to) anonymous;");
    let ev2 = EventDef::new(Name::from_str("Moved"), false, vec![], None);
    assert_eq!(ev2.to_string(), "event Moved ();");
}

#[test]
fn contract_text_and_queries() {
    let base = BaseContract::new(Name::from_str("Base"), vec![number("7")], None);
    assert_eq!(base.to_string(), "Base(7)");
    let s = StructDef::new(None, None, Name::from_str("S"), vec![StructField::new(None, "x".to_string(), uint(), None)], None);
    let e = EnumDef::new(None, None, Name::from_str("E"), vec!["A".to_string()], None);
    let c = ContractDef::new(
        None,
        None,
        Name::from_str("C"),
        ContractKind::Contract,
        true,
        vec![base],
        vec![
            ContractElem::Var(param("total")),
            ContractElem::Func(func("inc", FuncKind::ContractFunc, Some(sum_body()))),
            ContractElem::Func(func("", FuncKind::Fallback, None)),
        ],
        None,
    );
    assert_eq!(
        c.to_string(),
        "abstract contract C is Base {\n    uint256 total;\n\n    function inc(a) public pure returns (uint256) {\n        return a + 1;\n    }\n\n    fallback(a) public pure returns (uint256);\n}"
    );
    assert_eq!(c.functions().len(), 2);
    assert_eq!(c.functions()[1].kind, FuncKind::Fallback);
    assert_eq!(c.find_function_def("inc").map(|f| f.name.base.clone()), Some("inc".to_string()));
    assert_eq!(c.find_function_def("fallback").map(|f| f.kind), Some(FuncKind::Fallback));
    assert!(c.find_function_def("dec").is_none());

    let types_only = ContractDef::new(
        None,
        None,
        Name::from_str("T"),
        ContractKind::Library,
        false,
        vec![],
        vec![
            ContractElem::Struct(s),
            ContractElem::Enum(e),
            ContractElem::Type(TypeDef::new(None, None, Name::from_str("P"), uint(), None)),
        ],
        None,
    );
    let tys = types_only.get_user_defined_types();
    assert_eq!(tys.len(), 3);
    assert_eq!(
        tys[0],
        Type::Struct { name: Name::from_str("S"), scope: Some(Name::from_str("T")), data_loc: DataLoc::Unspecified }
    );
    assert_eq!(tys[1], Type::Enum { name: Name::from_str("E"), scope: Some(Name::from_str("T")) });
    assert_eq!(tys[2], Type::UserDefined { name: Name::from_str("P"), scope: Some(Name::from_str("T")) });
}

#[test]
fn source_unit_contract_lookups() {
    let mk = |n: &str, i: Option<usize>| {
        SourceUnitElem::Contract(ContractDef::new(
            None,
            None,
            Name::new(n.to_string(), i),
            ContractKind::Interface,
            false,
            vec![],
            vec![],
            None,
        ))
    };
    let u = SourceUnit::new(None, "a.sol".to_string(), vec![mk("A", Some(1)), mk("A", Some(2)), mk("B", None)]);
    assert_eq!(u.find_contract_def(&Name::new("A".to_string(), Some(2))).map(|c| c.name.index), Some(Some(2)));
    assert!(u.find_contract_def(&Name::from_str("A")).is_none());
    assert_eq!(u.find_contract_def_by_base_name(&Name::from_str("A")).map(|c| c.name.index), Some(Some(1)));
    assert_eq!(u.find_imported_source_unit(&Name::from_str("B")).map(|c| c.name.index), Some(None));
    let map = u.construct_contract_map();
    assert_eq!(map.len(), 3);
    assert_eq!(map[2].0, Name::from_str("B"));
    assert_eq!(u.elems[0].get_name(), Some(Name::new("A".to_string(), Some(1))));
    assert_eq!(u.to_string(), "// File: a.sol\ninterface A_1 {\n\n}\n\ninterface A_2 {\n\n}\n\ninterface B {\n\n}");
}

#[test]
fn compare_names_and_types() {
    assert!(compare_name(&Name::from_str("x"), &Name::from_str("x")).is_ok());
    assert!(compare_name(&Name::new("x".to_string(), Some(1)), &Name::from_str("x")).is_err());
    let e = compare_name(&Name::from_str("x"), &Name::from_str("y")).unwrap_err();
    assert_eq!(e.message, "Different names:\n\nx\n\n-- vs --\n\ny\n");
    let u = Type::Int { bitwidth: None, is_signed: false };
    assert!(compare_type(&u, &uint()).is_ok());
    assert!(compare_type(&u, &Type::Int { bitwidth: Some(8), is_signed: false }).is_err());
    assert!(compare_type(&Type::Bool, &uint()).is_err());
}

#[test]
fn compare_expressions_ignore_ids_and_locations() {
    let a = Expr::Ident(Identifier::new(Some(1), Name::from_str("a"), uint(), Some(Loc::new(1, 1, 1, 2))));
    let b = Expr::Ident(Identifier::new(Some(9), Name::from_str("a"), Type::Bool, None));
    assert!(compare_expr(&a, &b).is_ok());
    assert!(compare_expr(&ident("a"), &ident("b")).is_err());
    assert!(compare_expr(&ident("a"), &number("1")).is_err());
    let t = Expr::Lit(Lit::Bool(BoolLit::new(true, Type::Bool, None)));
    let f = Expr::Lit(Lit::Bool(BoolLit::new(false, Type::Bool, None)));
    assert!(compare_expr(&t, &f).is_err());
    let c1 = Expr::Call(CallExpr::new_call_named_args(
        None,
        ident("f"),
        vec![],
        vec![NamedArg::new("x".to_string(), number("1"), None)],
        CallKind::FuncCall,
        uint(),
        None,
    ));
    let c2 = Expr::Call(CallExpr::new_call_unnamed_args(None, ident("f"), vec![], vec![number("1")], CallKind::FuncCall, uint(), None));
    let e = compare_expr(&c1, &c2).unwrap_err();
    assert_eq!(e.message, "Different argument types");
}

#[test]
fn compare_statements_and_functions() {
    let s1 = Stmt::If(IfStmt::new(None, ident("c"), Stmt::Break(BreakStmt::new(None, None)), None, None));
    let s2 = Stmt::If(IfStmt::new(Some(4), ident("c"), Stmt::Break(BreakStmt::new(None, None)), None, None));
    assert!(compare_stmt(&s1, &s2).is_ok());
    let s3 = Stmt::Expr(ExprStmt::new(None, ident("c"), None));
    let e = compare_stmt(&s1, &s3).unwrap_err();
    assert_eq!(e.message, "Different statements:\n\nif (c) break;\n\n-- vs --\n\nc;\n");
    let b1 = Block::new(None, vec![Stmt::Placeholder(PlaceholderStmt::new(None, None))], false, None);
    let b2 = Block::new(None, vec![Stmt::Placeholder(PlaceholderStmt::new(None, None))], true, None);
    assert!(compare_block(&b1, &b1).is_ok());
    assert!(compare_block(&b1, &b2).is_err());

    let f = func("inc", FuncKind::ContractFunc, Some(sum_body()));
    let g = func("inc", FuncKind::ContractFunc, Some(sum_body()));
    assert!(compare_func_def(&f, &g).is_ok());
    let h = func("inc", FuncKind::ContractFunc, None);
    let e = compare_func_def(&f, &h).unwrap_err();
    assert!(e.message.starts_with("Different block: "));
    let k = func("inc", FuncKind::FreeFunc, Some(sum_body()));
    let e = compare_func_def(&f, &k).unwrap_err();
    assert_eq!(e.message, "Different function kind:\n\ninc\n\n-- vs --\n\ninc\n");
}

#[test]
fn compare_contracts_and_source_units() {
    let mk = |kind: ContractKind| {
        ContractDef::new(
            None,
            None,
            Name::from_str("C"),
            kind,
            false,
            vec![],
            vec![ContractElem::Func(func("inc", FuncKind::ContractFunc, Some(sum_body())))],
            None,
        )
    };
    assert!(compare_contract_def(&mk(ContractKind::Contract), &mk(ContractKind::Contract)).is_ok());
    assert!(compare_contract_def(&mk(ContractKind::Contract), &mk(ContractKind::Library)).is_err());
    let u1 = SourceUnit::new(None, "a.sol".to_string(), vec![SourceUnitElem::Contract(mk(ContractKind::Contract))]);
    let u2 = SourceUnit::new(Some(3), "b.sol".to_string(), vec![SourceUnitElem::Contract(mk(ContractKind::Contract))]);
    assert!(compare_source_unit(&u1, &u2).is_ok());
    let u3 = SourceUnit::new(None, "a.sol".to_string(), vec![]);
    let e = compare_source_unit(&u1, &u3).unwrap_err();
    assert!(e.message.starts_with("Different number of source unit elements:\n\n// File: a.sol\n"));
}

#[test]
fn comparison_is_reflexive_and_symmetric_on_expressions() {
    let e = Expr::Binary(BinaryExpr::new(Some(1), BinOp::Mul, ident("a"), number("2"), uint(), None));
    assert!(compare_expr(&e, &e).is_ok());
    let f = Expr::Binary(BinaryExpr::new(None, BinOp::Mul, ident("a"), number("3"), uint(), None));
    assert_eq!(compare_expr(&e, &f).is_ok(), compare_expr(&f, &e).is_ok());
    assert!(compare_expr(&e, &f).is_err());
    let t = Type::Int { bitwidth: Some(256), is_signed: true };
    let u = Type::Int { bitwidth: None, is_signed: true };
    assert!(compare_type(&t, &u).is_ok() && compare_type(&u, &t).is_ok());
}
