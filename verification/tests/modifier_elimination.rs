use solidity::compare::compare_source_unit;
use solidity::contracts::{ContractDef, ContractElem, FuncDef};
use solidity::definitions::{ContractKind, FuncKind, VarDecl};
use solidity::exprs::TypeNameExpr;
use solidity::expressions::{AssignExpr, BinaryExpr, CallExpr, Expr, Identifier, MemberExpr, UnaryExpr};
use solidity::lits::{BoolLit, IntNum, Lit, Num, NumLit, StringLit};
use solidity::loc::DataLoc;
use solidity::modifiers::eliminate_modifier_invocs;
use solidity::name::Name;
use solidity::operators::{AssignOp, BinOp, CallKind, UnaryOp};
use solidity::source_unit::{SourceUnit, SourceUnitElem};
use solidity::specifiers::{FuncMut, FuncVis, Overriding, VarMut, VarVis};
use solidity::stmts::{Block, ExprStmt, IfStmt, PlaceholderStmt, Stmt};
use solidity::types::Type;

fn uint() -> Type {
    Type::Int { bitwidth: Some(256), is_signed: false }
}

fn address() -> Type {
    Type::Address { payable: false }
}

fn ident_of(name: &str, typ: Type) -> Expr {
    Expr::Ident(Identifier::new(None, Name::from_str(name), typ, None))
}

fn number(v: &str) -> Expr {
    Expr::Lit(Lit::Num(NumLit::new(Num::Int(IntNum::new(v.to_string(), uint())), None, None)))
}

fn boolean(b: bool) -> Expr {
    Expr::Lit(Lit::Bool(BoolLit::new(b, Type::Bool, None)))
}

fn string(s: &str) -> Expr {
    Expr::Lit(Lit::String(StringLit::new(s.to_string(), Type::String { data_loc: DataLoc::Memory }, None)))
}

fn call(callee: Expr, args: Vec<Expr>, kind: CallKind, typ: Type) -> Expr {
    Expr::Call(CallExpr::new_call_unnamed_args(None, callee, vec![], args, kind, typ, None))
}

fn address_zero() -> Expr {
    call(Expr::TypeName(TypeNameExpr::new(None, address(), None)), vec![number("0")], CallKind::TypeConversionCall, address())
}

fn msg_sender() -> Expr {
    Expr::Member(MemberExpr::new(None, ident_of("msg", address()), Name::from_str("sender"), address(), None))
}

fn require(cond: Expr, message: &str) -> Stmt {
    let e = call(ident_of("require", Type::Bool), vec![cond, string(message)], CallKind::FuncCall, Type::Bool);
    Stmt::Expr(ExprStmt::new(None, e, None))
}

fn assign(op: AssignOp, lhs: Expr, rhs: Expr, typ: Type) -> Stmt {
    Stmt::Expr(ExprStmt::new(None, Expr::Assign(AssignExpr::new(None, op, lhs, rhs, typ, None)), None))
}

fn binary(op: BinOp, lhs: Expr, rhs: Expr) -> Expr {
    Expr::Binary(BinaryExpr::new(None, op, lhs, rhs, Type::Bool, None))
}

fn placeholder() -> Stmt {
    Stmt::Placeholder(PlaceholderStmt::new(None, None))
}

fn var(name: &str, typ: Type, value: Option<Expr>, state: bool) -> VarDecl {
    VarDecl::new(
        None,
        None,
        Name::from_str(name),
        typ,
        value,
        VarMut::Mutable,
        state,
        if state { VarVis::Public } else { VarVis::Unspecified },
        None,
        Overriding::Unspecified,
        None,
    )
}

fn modifier_invoc(name: &str, args: Vec<Expr>) -> CallExpr {
    CallExpr::new_call_unnamed_args(None, ident_of(name, uint()), vec![], args, CallKind::ModifierInvoc, uint(), None)
}

fn def(name: &str, kind: FuncKind, params: Vec<VarDecl>, mods: Vec<CallExpr>, body: Vec<Stmt>) -> FuncDef {
    FuncDef::new(
        None,
        None,
        Name::from_str(name),
        kind,
        Some(Block::new(None, body, false, None)),
        false,
        if kind == FuncKind::Modifier { FuncVis::Internal } else { FuncVis::Public },
        FuncMut::NonPayable,
        params,
        mods,
        Overriding::Unspecified,
        vec![],
        None,
        None,
    )
}

fn state_vars() -> Vec<ContractElem> {
    vec![
        ContractElem::Var(var("owner", address(), None, true)),
        ContractElem::Var(var("x", uint(), Some(number("10")), true)),
        ContractElem::Var(var("locked", Type::Bool, None, true)),
    ]
}

fn constructor() -> ContractElem {
    ContractElem::Func(def(
        "",
        FuncKind::Constructor,
        vec![],
        vec![],
        vec![assign(AssignOp::Assign, ident_of("owner", address()), msg_sender(), address())],
    ))
}

fn decrement_call() -> Stmt {
    let i_minus_one = Expr::Binary(BinaryExpr::new(None, BinOp::Sub, ident_of("i", uint()), number("1"), uint(), None));
    let e = call(ident_of("decrement", uint()), vec![i_minus_one], CallKind::FuncCall, Type::Bool);
    let inner = Stmt::Block(Block::new(None, vec![Stmt::Expr(ExprStmt::new(None, e, None))], false, None));
    Stmt::If(IfStmt::new(None, binary(BinOp::Gt, ident_of("i", uint()), number("1")), inner, None, None))
}

fn source(elems: Vec<ContractElem>) -> SourceUnit {
    let c = ContractDef::new(None, None, Name::from_str("FunctionModifier"), ContractKind::Contract, false, vec![], elems, None);
    SourceUnit::new(None, "modifiers.sol".to_string(), vec![SourceUnitElem::Contract(c)])
}

#[test]
fn remove_modifiers() {
    let only_owner = def(
        "onlyOwner",
        FuncKind::Modifier,
        vec![],
        vec![],
        vec![require(binary(BinOp::Eq, msg_sender(), ident_of("owner", address())), "Not owner"), placeholder()],
    );
    let valid_address = def(
        "validAddress",
        FuncKind::Modifier,
        vec![var("_addr", address(), None, false)],
        vec![],
        vec![require(binary(BinOp::Ne, ident_of("_addr", address()), address_zero()), "Not valid address"), placeholder()],
    );
    let change_owner = def(
        "changeOwner",
        FuncKind::ContractFunc,
        vec![var("_newOwner", address(), None, false)],
        vec![modifier_invoc("onlyOwner", vec![]), modifier_invoc("validAddress", vec![ident_of("_newOwner", address())])],
        vec![assign(AssignOp::Assign, ident_of("owner", address()), ident_of("_newOwner", address()), address())],
    );
    let not_locked = Expr::Unary(UnaryExpr::new(None, UnaryOp::Not, ident_of("locked", Type::Bool), Type::Bool, None));
    let no_reentrancy = def(
        "noReentrancy",
        FuncKind::Modifier,
        vec![],
        vec![],
        vec![
            require(not_locked, "No reentrancy"),
            assign(AssignOp::Assign, ident_of("locked", Type::Bool), boolean(true), Type::Bool),
            placeholder(),
            assign(AssignOp::Assign, ident_of("locked", Type::Bool), boolean(false), Type::Bool),
        ],
    );
    let decrement = def(
        "decrement",
        FuncKind::ContractFunc,
        vec![var("i", uint(), None, false)],
        vec![modifier_invoc("noReentrancy", vec![])],
        vec![assign(AssignOp::AssignSub, ident_of("x", uint()), ident_of("i", uint()), uint()), decrement_call()],
    );
    let mut input_elems = state_vars();
    input_elems.push(constructor());
    input_elems.push(ContractElem::Func(only_owner));
    input_elems.push(ContractElem::Func(valid_address));
    input_elems.push(ContractElem::Func(change_owner));
    input_elems.push(ContractElem::Func(no_reentrancy));
    input_elems.push(ContractElem::Func(decrement));
    let input_sunits = vec![source(input_elems)];
    let output_sunits = eliminate_modifier_invocs(&input_sunits);

    let not_locked = Expr::Unary(UnaryExpr::new(None, UnaryOp::Not, ident_of("locked", Type::Bool), Type::Bool, None));
    let expected_change_owner = def(
        "changeOwner",
        FuncKind::ContractFunc,
        vec![var("_newOwner", address(), None, false)],
        vec![],
        vec![
            require(binary(BinOp::Ne, ident_of("_newOwner", address()), address_zero()), "Not valid address"),
            require(binary(BinOp::Eq, msg_sender(), ident_of("owner", address())), "Not owner"),
            assign(AssignOp::Assign, ident_of("owner", address()), ident_of("_newOwner", address()), address()),
        ],
    );
    let expected_decrement = def(
        "decrement",
        FuncKind::ContractFunc,
        vec![var("i", uint(), None, false)],
        vec![],
        vec![
            require(not_locked, "No reentrancy"),
            assign(AssignOp::Assign, ident_of("locked", Type::Bool), boolean(true), Type::Bool),
            assign(AssignOp::AssignSub, ident_of("x", uint()), ident_of("i", uint()), uint()),
            decrement_call(),
            assign(AssignOp::Assign, ident_of("locked", Type::Bool), boolean(false), Type::Bool),
        ],
    );
    let mut expected_elems = state_vars();
    expected_elems.push(constructor());
    expected_elems.push(ContractElem::Func(expected_change_owner));
    expected_elems.push(ContractElem::Func(expected_decrement));
    let expected_sunits = vec![source(expected_elems)];

    assert_eq!(output_sunits.len(), expected_sunits.len());
    for (out, exp) in output_sunits.iter().zip(expected_sunits.iter()) {
        if let Err(err) = compare_source_unit(out, exp) {
            panic!("Failed to eliminiate modifiers: {}", err.message)
        }
    }
}
