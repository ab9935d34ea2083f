use solidity::pass_representation::PassRepresentation;

#[test]
fn test_requires_ir() {
    assert!(!PassRepresentation::Ast.requires_ir());
    assert!(PassRepresentation::Ir.requires_ir());
    assert!(PassRepresentation::Hybrid.requires_ir());
}

#[test]
fn test_uses_ast() {
    assert!(PassRepresentation::Ast.uses_ast());
    assert!(!PassRepresentation::Ir.uses_ast());
    assert!(PassRepresentation::Hybrid.uses_ast());
}

#[test]
fn pass_representation_names() {
    assert_eq!(PassRepresentation::Ast.as_str(), "AST");
    assert_eq!(PassRepresentation::Ir.as_str(), "IR");
    assert_eq!(PassRepresentation::Hybrid.to_string(), "Hybrid");
}
