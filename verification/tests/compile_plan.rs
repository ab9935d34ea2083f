use solidity::compile_plan::{
    best_solc_versions, compilation_error_message, solc_compile_args, solc_installed,
    supported_solidity_range,
};
use solidity::error::SolidityError;
use solidity::version::{SolcVersion, VersionRange};

fn v(minor: u64, patch: u64) -> SolcVersion {
    SolcVersion { major: 0, minor, patch }
}

#[test]
fn solidity_range_of_pragmas() {
    assert!(supported_solidity_range(&vec!["^0.8.0".to_string(), "<0.9.0".to_string()]).is_ok());
    assert_eq!(
        supported_solidity_range(&vec!["<0.4.10".to_string()]).err(),
        Some(SolidityError::UnsupportedVersion("<0.4.10".to_string()))
    );
    assert_eq!(
        supported_solidity_range(&vec!["what".to_string(), "ever".to_string()]).err(),
        Some(SolidityError::UnparsableVersion("what, ever".to_string()))
    );
}

#[test]
fn best_versions_prefer_the_requested_one() {
    let compatible = vec![v(8, 20), v(8, 19), v(8, 18)];
    assert_eq!(best_solc_versions(&compatible, v(8, 19)), vec![v(8, 19)]);
    assert_eq!(best_solc_versions(&compatible, v(7, 0)), compatible);
    assert_eq!(best_solc_versions(&vec![], v(7, 0)), vec![v(7, 0)]);
}

#[test]
fn compiler_arguments() {
    let range = VersionRange::parse("^0.8.10").unwrap();
    let args = solc_compile_args(
        "a.sol",
        &Some("/b".to_string()),
        &vec!["/i1".to_string(), "/i2".to_string()],
        &range,
        &v(8, 19),
    );
    assert_eq!(args, "a.sol --base-path /b --include-path /i1 --include-path /i2 --combined-json ast");
    let old = VersionRange::parse("^0.6.0").unwrap();
    let args = solc_compile_args("a.sol", &Some("/b".to_string()), &vec!["/i".to_string()], &old, &v(6, 12));
    assert_eq!(args, "a.sol --combined-json ast,compact-format");
}

#[test]
fn compilation_errors_are_trimmed() {
    let m = compilation_error_message(&v(8, 19), "a.sol", "  Error: Source file requires different compiler version\n");
    assert_eq!(m, "\nsolc 0.8.19 failed to compile: a.sol\n\nCompilation error: Source file requires different compiler version\n");
    let m = compilation_error_message(&v(8, 19), "a.sol", "Warning: x");
    assert_eq!(m, "\nsolc 0.8.19 failed to compile: a.sol\n\nCompilation error: Warning: x\n");
    let m = compilation_error_message(&v(8, 19), "a.sol", "\u{A0}\tWarning: y\u{3000}\r\n");
    assert_eq!(m, "\nsolc 0.8.19 failed to compile: a.sol\n\nCompilation error: Warning: y\n");
}

#[test]
fn installed_compilers() {
    let listed = "0.8.19\n0.8.20 (current, set by /home/x/.solc-select/global-version)\n";
    assert!(solc_installed(listed, &v(8, 20)));
    assert!(solc_installed(listed, &v(8, 19)));
    assert!(!solc_installed(listed, &v(8, 1)));
    assert!(!solc_installed("", &v(8, 1)));
    assert_eq!(v(8, 1).to_string(), "0.8.1");
}
