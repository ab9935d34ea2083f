use solidity::localizer::Localizer;
use solidity::name::Name;
use solidity::named_args::ParamNamesFinder;
use solidity::expressions::{Expr, Identifier, MemberExpr};
use solidity::passes::{AstParser, JsonAst, ModifierDefFinder, NameIdxFlattener, UsedFunc};
use solidity::rewriting::SubstituteImportedExpr;
use solidity::types::Type;

#[test]
fn callable_names_are_scoped_by_contract() {
    let mut f = ParamNamesFinder::new();
    assert_eq!(f.encode_callable_name(&Name::new("transfer".to_string(), Some(2))), "transfer_2");
    f.current_contract = Some("Token".to_string());
    assert_eq!(f.encode_callable_name(&Name::from_str("transfer")), "Token.transfer");
}

#[test]
fn flattening_name_indices() {
    let fl = NameIdxFlattener::new();
    assert_eq!(fl.map_name(&Name::new("x".to_string(), Some(3))), Name::from_str("x_3"));
    assert_eq!(fl.map_name(&Name::from_str("y")), Name::from_str("y"));
    let _ = ModifierDefFinder::new();
}

#[test]
fn imported_symbols_are_substituted() {
    let s = SubstituteImportedExpr::new(vec![
        ("Lib.f".to_string(), Name::from_str("f_lib")),
        ("Lib.f".to_string(), Name::from_str("other")),
    ]);
    let lib = Expr::Ident(Identifier::new(None, Name::from_str("Lib"), Type::Bool, None));
    let f = Expr::Member(MemberExpr::new(None, lib, Name::from_str("f"), Type::Bool, None));
    assert_eq!(s.map_expr(&f).to_string(), "other");
    let lib = Expr::Ident(Identifier::new(None, Name::from_str("Lib"), Type::Bool, None));
    let g = Expr::Member(MemberExpr::new(None, lib, Name::from_str("g"), Type::Bool, None));
    assert_eq!(s.map_expr(&g).to_string(), "Lib.g");
}

#[test]
fn pass_state_constructors() {
    let u = UsedFunc::new(Name::from_str("add"), Some(Type::Bool));
    assert_eq!(u.target_typ, Some(Type::Bool));
    let j = JsonAst { json_data: "{}".to_string(), file_name: Some("a.sol".to_string()), base_path: None };
    let p = AstParser::new(&j);
    assert_eq!(p.solidity_json, Some("{}".to_string()));
    assert_eq!(p.input_file, Some("a.sol".to_string()));
    assert!(p.localizer.is_none());
    let l = Localizer::from_content("a.sol".to_string(), b"x").unwrap();
    assert_eq!(l.get_pos_of_line(1), Some(1));
}
