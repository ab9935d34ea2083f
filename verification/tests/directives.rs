use solidity::directives::{
    ImportDir, ImportSourceUnit, ImportSymbol, ImportSymbols, PragmaDir, PragmaKind, UsingDir,
    UsingFunc, UsingKind, UsingLib,
};
use solidity::loc::DataLoc;
use solidity::name::Name;
use solidity::types::Type;

#[test]
fn using_lib_splits_path() {
    let u = UsingLib::new("A.B.Lib");
    assert_eq!(u.lib_name, Name::from_str("Lib"));
    assert_eq!(u.lib_path.names, vec![Name::from_str("A"), Name::from_str("B")]);
    assert_eq!(u.to_string(), "A.B.Lib");
    let v = UsingLib::new("Lib");
    assert!(v.lib_path.names.is_empty());
    assert_eq!(v.to_string(), "Lib");
}

#[test]
fn using_func_with_operator() {
    let f = UsingFunc::new("L.add", Some("+"));
    assert_eq!(f.func_name, Name::from_str("add"));
    assert_eq!(f.alias_operator, Some("+".to_string()));
    assert_eq!(f.to_string(), "L.add as +");
    let g = UsingFunc::new("sub", None);
    assert_eq!(g.to_string(), "sub");
}

#[test]
fn using_directive_text() {
    let d = UsingDir::new(
        None,
        UsingKind::UsingLib(UsingLib::new("SafeMath")),
        Some(Type::Int { bitwidth: Some(256), is_signed: false }),
        false,
        None,
    );
    assert_eq!(d.to_string(), "using SafeMath for uint256;");
    let fs = UsingKind::UsingFunc(vec![UsingFunc::new("f", None), UsingFunc::new("L.g", Some("-"))]);
    let e = UsingDir::new(None, fs, None, true, None);
    assert_eq!(e.to_string(), "using {f, L.g as -} for * global;");
    let s = UsingDir::new(
        None,
        UsingKind::UsingLib(UsingLib::new("Str")),
        Some(Type::String { data_loc: DataLoc::Memory }),
        false,
        None,
    );
    assert_eq!(s.to_string(), "using Str for string memory;");
}

#[test]
fn import_directives_text_and_path() {
    let i = ImportDir::new_import_path(
        Some(1),
        ImportSourceUnit::new("/abs/a.sol".to_string(), "./a.sol".to_string(), None, None),
    );
    assert_eq!(i.to_string(), "import \"./a.sol\";");
    assert_eq!(i.get_import_path(), "/abs/a.sol");
    let j = ImportDir::new_import_path(
        None,
        ImportSourceUnit::new("/abs/a.sol".to_string(), "./a.sol".to_string(), Some("A".to_string()), None),
    );
    assert_eq!(j.to_string(), "import \"./a.sol\" as A;");
    let syms = ImportSymbols::new(
        "/abs/b.sol".to_string(),
        "b.sol".to_string(),
        vec![
            ImportSymbol::new("X".to_string(), None, None),
            ImportSymbol::new("Y".to_string(), Some("Z".to_string()), None),
        ],
        None,
    );
    let k = ImportDir::new_import_symbols(None, syms);
    assert_eq!(k.to_string(), "import { X, Y as Z } from \"b.sol\";");
    assert_eq!(k.get_import_path(), "/abs/b.sol");
}

#[test]
fn pragma_directives_text() {
    let p = PragmaDir::new(None, PragmaKind::new_version("^0.8.0".to_string()), None);
    assert_eq!(p.to_string(), "pragma solidity ^0.8.0;");
    assert_eq!(PragmaKind::new_abi_coder("v2".to_string()).to_string(), "abicoder v2");
    assert_eq!(
        PragmaKind::new_experimental("SMTChecker".to_string()),
        PragmaKind::Experimental("SMTChecker".to_string())
    );
}
