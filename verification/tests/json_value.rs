use solidity::json_value::NodeType;

#[test]
fn node_types_from_names() {
    assert_eq!(NodeType::new("SourceUnit"), NodeType::SourceUnit);
    assert_eq!(NodeType::new("YulBlock"), NodeType::YulBlock);
    assert_eq!(NodeType::new("FunctionDefinition"), NodeType::FuncDef);
}
