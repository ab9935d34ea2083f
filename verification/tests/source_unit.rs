use solidity::definitions::{EnumDef, StructDef};
use solidity::directives::{PragmaDir, PragmaKind};
use solidity::loc::Loc;
use solidity::name::Name;
use solidity::source_unit::{merge_pragma_elems, merge_pragmas, SourceUnit, SourceUnitElem};

fn pragma(kind: PragmaKind, loc: Option<Loc>) -> SourceUnitElem {
    SourceUnitElem::Pragma(PragmaDir::new(Some(1), kind, loc))
}

fn enum_def(name: &str) -> SourceUnitElem {
    SourceUnitElem::Enum(EnumDef::new(None, None, Name::from_str(name), vec!["A".to_string()], None))
}

#[test]
fn merge_pragma_elems_groups_and_orders() {
    let l1 = Some(Loc::new(1, 0, 1, 20));
    let elems = vec![
        enum_def("E1"),
        pragma(PragmaKind::Version("^0.8.0".to_string()), l1),
        pragma(PragmaKind::AbiCoder("v1".to_string()), None),
        pragma(PragmaKind::Experimental("SMTChecker".to_string()), None),
        enum_def("E2"),
        pragma(PragmaKind::Version(">=0.8.2".to_string()), None),
        pragma(PragmaKind::AbiCoder("v2".to_string()), Some(Loc::new(5, 0, 5, 17))),
        pragma(PragmaKind::AbiCoder("v1".to_string()), None),
    ];
    let merged = merge_pragma_elems(elems);
    assert_eq!(merged.len(), 5);
    assert_eq!(merged[0], SourceUnitElem::Pragma(PragmaDir::new(None, PragmaKind::Version("^0.8.0, >=0.8.2".to_string()), None)));
    assert_eq!(merged[1], pragma(PragmaKind::AbiCoder("v2".to_string()), Some(Loc::new(5, 0, 5, 17))));
    assert_eq!(merged[2], pragma(PragmaKind::Experimental("SMTChecker".to_string()), None));
    assert_eq!(merged[3], enum_def("E1"));
    assert_eq!(merged[4], enum_def("E2"));
}

#[test]
fn merge_pragma_elems_keeps_location_of_single_version_pragma() {
    let l1 = Some(Loc::new(2, 0, 2, 23));
    let merged = merge_pragma_elems(vec![pragma(PragmaKind::Version("0.8.19".to_string()), l1)]);
    assert_eq!(merged, vec![SourceUnitElem::Pragma(PragmaDir::new(None, PragmaKind::Version("0.8.19".to_string()), l1))]);
    assert_eq!(merge_pragma_elems(vec![]), vec![]);
}

#[test]
fn merge_pragma_elems_takes_first_of_equal_abicoders() {
    let merged = merge_pragma_elems(vec![
        pragma(PragmaKind::AbiCoder("v2".to_string()), Some(Loc::new(1, 0, 1, 1))),
        pragma(PragmaKind::AbiCoder("v2".to_string()), Some(Loc::new(2, 0, 2, 1))),
    ]);
    assert_eq!(merged, vec![pragma(PragmaKind::AbiCoder("v2".to_string()), Some(Loc::new(1, 0, 1, 1)))]);
}

#[test]
fn source_unit_queries_and_text() {
    let s = StructDef::new(None, None, Name::from_str("S"), vec![], None);
    let unit = SourceUnit::new(
        Some(0),
        "a.sol".to_string(),
        vec![
            pragma(PragmaKind::Version("^0.8.0".to_string()), None),
            SourceUnitElem::Struct(s),
            pragma(PragmaKind::Version("<0.9.0".to_string()), None),
        ],
    );
    assert_eq!(unit.get_solidity_pragma_versions(), vec!["^0.8.0".to_string(), "<0.9.0".to_string()]);
    assert!(unit.find_struct_def(&Name::from_str("S")).is_some());
    assert!(unit.find_struct_def(&Name::from_str("T")).is_none());
    assert_eq!(unit.elems[1].get_name(), Some(Name::from_str("S")));
    assert_eq!(unit.elems[0].get_name(), None);
    assert_eq!(
        unit.to_string(),
        "// File: a.sol\npragma solidity ^0.8.0;\n\nstruct S {\n\n}\n\npragma solidity <0.9.0;"
    );
    let empty = SourceUnit::new(None, "b.sol".to_string(), vec![]);
    assert_eq!(empty.to_string(), "// File: b.sol\n<Empty source unit>");
    let merged = merge_pragmas(vec![unit]);
    assert_eq!(merged[0].path, "a.sol");
    assert_eq!(merged[0].elems.len(), 2);
}

#[test]
fn merging_merged_pragmas_changes_nothing() {
    let elems = vec![
        enum_def("E1"),
        pragma(PragmaKind::Version("^0.8.0".to_string()), None),
        pragma(PragmaKind::AbiCoder("v1".to_string()), None),
        pragma(PragmaKind::Experimental("SMTChecker".to_string()), None),
        enum_def("E2"),
        pragma(PragmaKind::Version(">=0.8.2".to_string()), None),
        pragma(PragmaKind::AbiCoder("v2".to_string()), None),
    ];
    let once = merge_pragma_elems(elems);
    let again = vec![
        SourceUnitElem::Pragma(PragmaDir::new(None, PragmaKind::Version("^0.8.0, >=0.8.2".to_string()), None)),
        pragma(PragmaKind::AbiCoder("v2".to_string()), None),
        pragma(PragmaKind::Experimental("SMTChecker".to_string()), None),
        enum_def("E1"),
        enum_def("E2"),
    ];
    assert_eq!(once, again);
    let twice = merge_pragma_elems(again);
    assert_eq!(twice, once);
    assert_eq!(twice[3], enum_def("E1"));
    assert_eq!(twice[4], enum_def("E2"));
}
