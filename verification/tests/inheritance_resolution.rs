use solidity::compare::compare_source_unit;
use solidity::contracts::{BaseContract, ContractDef, ContractElem, FuncDef};
use solidity::definitions::{ContractKind, FuncKind, VarDecl};
use solidity::expressions::{CallExpr, Expr, Identifier, MemberExpr};
use solidity::inheritance_resolution::{resolve_inheritance, InheritanceFlattener, InheritanceLinearizer};
use solidity::lits::{Lit, StringLit};
use solidity::loc::DataLoc;
use solidity::name::Name;
use solidity::operators::CallKind;
use solidity::source_unit::{SourceUnit, SourceUnitElem};
use solidity::specifiers::{FuncMut, FuncVis, Overriding, VarMut, VarVis};
use solidity::stmts::{Block, ReturnStmt, Stmt};
use solidity::types::Type;

fn string_type() -> Type {
    Type::String { data_loc: DataLoc::Memory }
}

fn indexed(base: &str, index: usize) -> Name {
    Name { base: base.to_string(), index: Some(index) }
}

fn string(s: &str) -> Expr {
    Expr::Lit(Lit::String(StringLit::new(s.to_string(), string_type(), None)))
}

fn ident(name: Name) -> Expr {
    Expr::Ident(Identifier::new(None, name, string_type(), None))
}

fn return_decls() -> Vec<VarDecl> {
    vec![VarDecl::new(
        None,
        None,
        Name::from_str(""),
        string_type(),
        None,
        VarMut::Mutable,
        false,
        VarVis::Unspecified,
        Some(DataLoc::Memory),
        Overriding::Unspecified,
        None,
    )]
}

fn foo(index: usize, is_virtual: bool, overriding: Overriding, value: Expr) -> ContractElem {
    let body = vec![Stmt::Return(ReturnStmt::new(None, Some(value), None))];
    ContractElem::Func(FuncDef::new(
        if is_virtual { Some(10 + index as isize) } else { None },
        None,
        indexed("foo", index),
        FuncKind::ContractFunc,
        Some(Block::new(None, body, false, None)),
        is_virtual,
        FuncVis::Public,
        FuncMut::Pure,
        vec![],
        vec![],
        overriding,
        return_decls(),
        None,
        None,
    ))
}

fn call_member(base: Expr, member: Name) -> Expr {
    let callee = Expr::Member(MemberExpr::new(None, base, member, string_type(), None));
    Expr::Call(CallExpr::new_call_unnamed_args(None, callee, vec![], vec![], CallKind::FuncCall, string_type(), None))
}

fn contract(index: usize, bases: Vec<usize>, elems: Vec<ContractElem>) -> SourceUnitElem {
    let names = ["A", "B", "C", "D", "E", "F"];
    let bases = bases.into_iter().map(|b| BaseContract::new(indexed(names[b], 0), vec![], None)).collect();
    SourceUnitElem::Contract(ContractDef::new(None, None, indexed(names[index], 0), ContractKind::Contract, false, bases, elems, None))
}

fn listed(bases: Vec<&str>) -> Overriding {
    Overriding::Listed(bases.into_iter().map(|b| indexed(b, 0)).collect())
}

fn source(
    a: ContractElem,
    b: ContractElem,
    c: ContractElem,
    d: ContractElem,
    e: ContractElem,
    f: ContractElem,
) -> SourceUnit {
    SourceUnit::new(
        None,
        "inheritance.sol".to_string(),
        vec![
            contract(0, vec![], vec![a]),
            contract(1, vec![0], vec![b]),
            contract(2, vec![0], vec![c]),
            contract(3, vec![1, 2], vec![d]),
            contract(4, vec![2, 1], vec![e]),
            contract(5, vec![0, 1], vec![f]),
        ],
    )
}

fn super_foo() -> Expr {
    call_member(ident(Name::from_str("super")), Name::from_str("foo"))
}

#[test]
fn test_resolve_inheritance() {
    let input = source(
        foo(0, true, Overriding::Unspecified, string("A")),
        foo(1, true, Overriding::All, string("B")),
        foo(2, true, Overriding::All, string("C")),
        foo(3, false, listed(vec!["B", "C"]), super_foo()),
        foo(4, false, listed(vec!["C", "B"]), super_foo()),
        foo(5, false, listed(vec!["A", "B"]), super_foo()),
    );
    let output_sunits = resolve_inheritance(&[input]);

    let expected = source(
        foo(0, false, Overriding::Unspecified, string("A")),
        foo(1, false, Overriding::Unspecified, string("B")),
        foo(2, false, Overriding::Unspecified, string("C")),
        foo(3, false, Overriding::Unspecified, call_member(ident(indexed("C", 0)), indexed("foo", 2))),
        foo(4, false, Overriding::Unspecified, call_member(ident(indexed("B", 0)), indexed("foo", 1))),
        foo(5, false, Overriding::Unspecified, call_member(ident(indexed("B", 0)), indexed("foo", 1))),
    );
    let expected_sunits = vec![expected];
    assert_eq!(output_sunits.len(), expected_sunits.len());
    for (out, exp) in output_sunits.iter().zip(expected_sunits.iter()) {
        if let Err(err) = compare_source_unit(out, exp) {
            panic!("Failed to resolve inheritance: {}", err.message)
        }
    }
    let text = output_sunits[0].to_string();
    assert!(text.contains("return C_0.foo_2();"));
    assert!(text.contains("return B_0.foo_1();"));
    assert!(!text.contains("virtual"));
    assert!(!text.contains("override"));
}

#[test]
fn inheritance_is_found_and_linearized() {
    let unit = source(
        foo(0, true, Overriding::Unspecified, string("A")),
        foo(1, true, Overriding::All, string("B")),
        foo(2, true, Overriding::All, string("C")),
        foo(3, false, listed(vec!["B", "C"]), super_foo()),
        foo(4, false, listed(vec!["C", "B"]), super_foo()),
        foo(5, false, listed(vec!["A", "B"]), super_foo()),
    );
    let mut finder = InheritanceLinearizer::new();
    let found = finder.find_inheritance(&unit);
    assert_eq!(found.len(), 6);
    assert_eq!(found[3].0, indexed("D", 0));
    assert_eq!(found[3].1, vec![indexed("B", 0), indexed("C", 0)]);
    let flattener = InheritanceFlattener::new(&unit);
    let d = flattener.linearization_map.iter().find(|p| p.0 == indexed("D", 0)).unwrap();
    assert_eq!(d.1, vec![indexed("D", 0), indexed("C", 0), indexed("B", 0), indexed("A", 0)]);
}

#[test]
fn virtual_functions_without_a_body_are_dropped() {
    let abstract_foo = FuncDef::new(
        None,
        None,
        indexed("foo", 0),
        FuncKind::ContractFunc,
        None,
        true,
        FuncVis::Public,
        FuncMut::Pure,
        vec![],
        vec![],
        Overriding::Unspecified,
        return_decls(),
        None,
        None,
    );
    let unit = SourceUnit::new(
        None,
        "abstract.sol".to_string(),
        vec![contract(0, vec![], vec![ContractElem::Func(abstract_foo), foo(1, true, Overriding::Unspecified, string("x"))])],
    );
    let out = resolve_inheritance(&[unit]);
    match &out[0].elems[0] {
        SourceUnitElem::Contract(c) => {
            assert_eq!(c.body.len(), 1);
            match &c.body[0] {
                ContractElem::Func(f) => {
                    assert_eq!(f.name, indexed("foo", 1));
                    assert!(!f.is_virtual);
                    assert_eq!(f.id, None);
                }
                _ => panic!("expected a function"),
            }
        }
        _ => panic!("expected a contract"),
    }
}
