use solidity::compare::{compare_bool_lit, compare_hex_lit, compare_lit, compare_string_lit};
use solidity::lits::{BoolLit, HexLit, Lit, StringLit};
use solidity::loc::DataLoc;
use solidity::types::Type;

fn string_type() -> Type {
    Type::String { data_loc: DataLoc::Memory }
}

#[test]
fn equal_literals_compare_equal() {
    let a = StringLit::new("abc".to_string(), string_type(), None);
    let b = StringLit::new("abc".to_string(), string_type(), None);
    assert!(compare_string_lit(&a, &b).is_ok());
    assert!(compare_lit(&Lit::String(a), &Lit::String(b)).is_ok());
    let t = BoolLit::new(true, Type::Bool, None);
    assert!(compare_bool_lit(&t, &BoolLit::new(true, Type::Bool, None)).is_ok());
}

#[test]
fn different_literal_values_are_reported() {
    let a = StringLit::new("abc".to_string(), string_type(), None);
    let b = StringLit::new("abd".to_string(), string_type(), None);
    assert!(compare_string_lit(&a, &b).is_err());
    let t = BoolLit::new(true, Type::Bool, None);
    let f = BoolLit::new(false, Type::Bool, None);
    assert!(compare_bool_lit(&t, &f).is_err());
    let h1 = HexLit::new("00ff", Type::Bool, None);
    let h2 = HexLit::new("00fe", Type::Bool, None);
    assert!(compare_hex_lit(&h1, &h2).is_err());
}

#[test]
fn literals_of_different_kinds_are_reported() {
    let s = Lit::String(StringLit::new("true".to_string(), string_type(), None));
    let b = Lit::Bool(BoolLit::new(true, Type::Bool, None));
    assert!(compare_lit(&s, &b).is_err());
}

#[test]
fn literal_differences_show_both_literals() {
    let a = StringLit::new("abc".to_string(), string_type(), None);
    let b = StringLit::new("abd".to_string(), string_type(), None);
    let err = compare_string_lit(&a, &b).unwrap_err();
    assert_eq!(err.message, "Different string literals:\n\n\"abc\"\n\n-- vs --\n\n\"abd\"\n");
    let s = Lit::String(StringLit::new("x".to_string(), string_type(), None));
    let t = Lit::Bool(BoolLit::new(true, Type::Bool, None));
    let err = compare_lit(&s, &t).unwrap_err();
    assert_eq!(err.message, "Different literal types:\n\n\"x\"\n\n-- vs --\n\ntrue\n");
}
