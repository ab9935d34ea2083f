use solidity::error::SolidityError;
use solidity::version::{
    check_range_constraint, check_version_constraint, find_compatible_solc_versions,
    init_solc_version_groups, range_text_supported, SolcVersion, VersionRange,
};
use solidity::version_parser::parse_pragma_solidity_version;

fn v(minor: u64, patch: u64) -> SolcVersion {
    SolcVersion { major: 0, minor, patch }
}

#[test]
fn solc_version_groups() {
    let groups = init_solc_version_groups();
    assert_eq!(groups.len(), 5);
    assert_eq!(groups[0].len(), 27);
    assert_eq!(groups[0][0], v(4, 26));
    assert_eq!(groups[4][0], v(8, 20));
    assert_eq!(groups[4].last(), Some(&v(8, 0)));
}

#[test]
fn version_constraints() {
    assert!(check_version_constraint(&v(8, 19), "^0.8.0"));
    assert!(!check_version_constraint(&v(7, 6), "^0.8.0"));
    assert!(!check_version_constraint(&v(8, 1), "not a range"));
    let r = VersionRange::parse(">=0.8.0 <0.8.5").unwrap();
    assert!(r.satisfied_by(&v(8, 4)));
    assert!(check_range_constraint(&r, "^0.8.3"));
    assert!(!check_range_constraint(&r, "^0.7.0"));
}

#[test]
fn compatible_versions() {
    let vs = find_compatible_solc_versions(&Some("^0.8.18".to_string())).unwrap();
    assert_eq!(vs, vec![v(8, 20), v(8, 19), v(8, 18)]);
    let all = find_compatible_solc_versions(&None).unwrap();
    assert_eq!(all[0], v(8, 20));
    assert_eq!(
        find_compatible_solc_versions(&Some("^0.9.0".to_string())),
        Err(SolidityError::NoSatisfyingVersion("^0.9.0".to_string()))
    );
    assert!(matches!(
        find_compatible_solc_versions(&Some("garbage".to_string())),
        Err(SolidityError::InvalidVersionConstraint(_))
    ));
}

#[test]
fn pragma_versions_in_source() {
    let src = "// pragma solidity 0.4.0;\n/* pragma solidity 0.5.0; */\npragma solidity ^0.8.0;\ncontract C {}\npragma solidity >=0.7.0 <0.9.0 ;";
    assert_eq!(parse_pragma_solidity_version(src), vec!["^0.8.0".to_string(), ">=0.7.0 <0.9.0".to_string()]);
    assert!(parse_pragma_solidity_version("contract C {}").is_empty());
}

#[test]
fn range_shapes_the_parser_does_not_handle_are_refused() {
    assert!(!range_text_supported("~x"));
    assert!(!range_text_supported("=*"));
    assert!(!range_text_supported(">=0.4.0 ~> 1.x.2"));
    assert!(!range_text_supported("1.0.0 || = v x"));
    assert!(VersionRange::parse("~x").is_none());
    assert!(VersionRange::parse("=*").is_none());
    assert!(!check_version_constraint(&v(8, 1), "~1.x.2"));
    assert!(range_text_supported(">=0.4.0 <0.9.0"));
    assert!(range_text_supported("~1.2.3"));
    assert!(range_text_supported("~1.x"));
    assert!(range_text_supported(">=x"));
    assert!(VersionRange::parse("~1.2").is_some());
}
