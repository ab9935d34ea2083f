//! Values of the JSON AST that the compiler produces: node types and
//! source locations.
use vstd::prelude::*;
use crate::localizer::{Localizer, holds_pos};
use crate::loc::Loc;
use crate::text::{str_eq, parse_usize, is_digits, digits_value};

verus! {

/// Data structure describing node type.
#[derive(PartialEq, Eq, Debug, Clone, Copy, Structural)]
pub enum NodeType {
    ArrayTypeName,
    Assign,
    BinaryOperation,
    Block,
    BreakStmt,
    Conditional,
    ConstructorDef,
    ContinueStmt,
    ContractDef,
    DoWhileStmt,
    ElementaryTypeName,
    ElementaryTypeNameExpr,
    EmitStmt,
    EnumDef,
    ErrorDef,
    EventDef,
    ExprStmt,
    FallbackFuncDef,
    ForStmt,
    FuncCall,
    FuncCallOpts,
    FuncDef,
    FuncTypeName,
    Ident,
    IdentPath,
    IfStmt,
    Import,
    IndexAccess,
    IndexRangeAccess,
    InheritanceSpec,
    InlineAssembly,
    InterfaceDef,
    LibraryDef,
    Literal,
    Mapping,
    MemberAccess,
    ModifierDef,
    ModifierInvoc,
    NewExpr,
    OverrideSpecifier,
    ParameterList,
    PlaceholderStmt,
    Pragma,
    ReceiveFuncDef,
    ReturnStmt,
    RevertStmt,
    SourceUnit,
    StateVarDecl,
    StructDef,
    ThrowStmt,
    TryStmt,
    TupleExpr,
    UnaryOperation,
    UncheckedBlock,
    UserDefinedTypeName,
    UserDefinedValueTypeDef,
    Using,
    VarDecl,
    VarDeclStmt,
    WhileStmt,
    YulAssign,
    YulBlock,
    YulBreakStmt,
    YulContinueStmt,
    YulExprStmt,
    YulForLoop,
    YulFuncCall,
    YulFuncDef,
    YulIdent,
    YulIfStmt,
    YulLeaveStmt,
    YulLiteral,
    YulSwitchStmt,
    YulVarDecl,
}

/// The node type that a `nodeType` text of the JSON AST names, if any.
pub open spec fn node_type_of(s: Seq<char>) -> Option<NodeType> {
    if s == "ArrayTypeName"@ {
        Some(NodeType::ArrayTypeName)
    } else if s == "Assignment"@ {
        Some(NodeType::Assign)
    } else if s == "BinaryOperation"@ {
        Some(NodeType::BinaryOperation)
    } else if s == "Block"@ {
        Some(NodeType::Block)
    } else if s == "Break"@ {
        Some(NodeType::BreakStmt)
    } else if s == "Conditional"@ {
        Some(NodeType::Conditional)
    } else if s == "ConstructorDefinition"@ {
        Some(NodeType::ConstructorDef)
    } else if s == "Continue"@ {
        Some(NodeType::ContinueStmt)
    } else if s == "ContractDefinition"@ {
        Some(NodeType::ContractDef)
    } else if s == "DoWhileStatement"@ {
        Some(NodeType::DoWhileStmt)
    } else if s == "EmitStatement"@ {
        Some(NodeType::EmitStmt)
    } else if s == "ElementaryTypeName"@ {
        Some(NodeType::ElementaryTypeName)
    } else if s == "ElementaryTypeNameExpression"@ {
        Some(NodeType::ElementaryTypeNameExpr)
    } else if s == "EnumDefinition"@ {
        Some(NodeType::EnumDef)
    } else if s == "ErrorDefinition"@ {
        Some(NodeType::ErrorDef)
    } else if s == "EventDefinition"@ {
        Some(NodeType::EventDef)
    } else if s == "ExpressionStatement"@ {
        Some(NodeType::ExprStmt)
    } else if s == "FallbackFunctionDefinition"@ {
        Some(NodeType::FallbackFuncDef)
    } else if s == "ForStatement"@ {
        Some(NodeType::ForStmt)
    } else if s == "FunctionCall"@ {
        Some(NodeType::FuncCall)
    } else if s == "FunctionCallOptions"@ {
        Some(NodeType::FuncCallOpts)
    } else if s == "FunctionDefinition"@ {
        Some(NodeType::FuncDef)
    } else if s == "FunctionTypeName"@ {
        Some(NodeType::FuncTypeName)
    } else if s == "Identifier"@ {
        Some(NodeType::Ident)
    } else if s == "IdentifierPath"@ {
        Some(NodeType::IdentPath)
    } else if s == "IfStatement"@ {
        Some(NodeType::IfStmt)
    } else if s == "ImportDirective"@ {
        Some(NodeType::Import)
    } else if s == "IndexAccess"@ {
        Some(NodeType::IndexAccess)
    } else if s == "IndexRangeAccess"@ {
        Some(NodeType::IndexRangeAccess)
    } else if s == "InheritanceSpecifier"@ {
        Some(NodeType::InheritanceSpec)
    } else if s == "InlineAssembly"@ {
        Some(NodeType::InlineAssembly)
    } else if s == "InterfaceDefinition"@ {
        Some(NodeType::InterfaceDef)
    } else if s == "LibraryDefinition"@ {
        Some(NodeType::LibraryDef)
    } else if s == "Literal"@ {
        Some(NodeType::Literal)
    } else if s == "Mapping"@ {
        Some(NodeType::Mapping)
    } else if s == "MemberAccess"@ {
        Some(NodeType::MemberAccess)
    } else if s == "ModifierDefinition"@ {
        Some(NodeType::ModifierDef)
    } else if s == "ModifierInvocation"@ {
        Some(NodeType::ModifierInvoc)
    } else if s == "NewExpression"@ {
        Some(NodeType::NewExpr)
    } else if s == "OverrideSpecifier"@ {
        Some(NodeType::OverrideSpecifier)
    } else if s == "ParameterList"@ {
        Some(NodeType::ParameterList)
    } else if s == "PlaceholderStatement"@ {
        Some(NodeType::PlaceholderStmt)
    } else if s == "PragmaDirective"@ {
        Some(NodeType::Pragma)
    } else if s == "ReceiveFunctionDefinition"@ {
        Some(NodeType::ReceiveFuncDef)
    } else if s == "Return"@ {
        Some(NodeType::ReturnStmt)
    } else if s == "RevertStatement"@ {
        Some(NodeType::RevertStmt)
    } else if s == "SourceUnit"@ {
        Some(NodeType::SourceUnit)
    } else if s == "StateVariableDeclaration"@ {
        Some(NodeType::StateVarDecl)
    } else if s == "StructDefinition"@ {
        Some(NodeType::StructDef)
    } else if s == "Throw"@ {
        Some(NodeType::ThrowStmt)
    } else if s == "TupleExpression"@ {
        Some(NodeType::TupleExpr)
    } else if s == "TryStatement"@ {
        Some(NodeType::TryStmt)
    } else if s == "UnaryOperation"@ {
        Some(NodeType::UnaryOperation)
    } else if s == "UncheckedBlock"@ {
        Some(NodeType::UncheckedBlock)
    } else if s == "UserDefinedTypeName"@ {
        Some(NodeType::UserDefinedTypeName)
    } else if s == "UserDefinedValueTypeDefinition"@ {
        Some(NodeType::UserDefinedValueTypeDef)
    } else if s == "UsingForDirective"@ {
        Some(NodeType::Using)
    } else if s == "VariableDeclaration"@ {
        Some(NodeType::VarDecl)
    } else if s == "VariableDeclarationStatement"@ {
        Some(NodeType::VarDeclStmt)
    } else if s == "WhileStatement"@ {
        Some(NodeType::WhileStmt)
    } else if s == "YulAssignment"@ {
        Some(NodeType::YulAssign)
    } else if s == "YulBlock"@ {
        Some(NodeType::YulBlock)
    } else if s == "YulBreak"@ {
        Some(NodeType::YulBreakStmt)
    } else if s == "YulContinue"@ {
        Some(NodeType::YulContinueStmt)
    } else if s == "YulForLoop"@ {
        Some(NodeType::YulForLoop)
    } else if s == "YulFunctionCall"@ {
        Some(NodeType::YulFuncCall)
    } else if s == "YulExpressionStatement"@ {
        Some(NodeType::YulExprStmt)
    } else if s == "YulFunctionDefinition"@ {
        Some(NodeType::YulFuncDef)
    } else if s == "YulIdentifier"@ {
        Some(NodeType::YulIdent)
    } else if s == "YulIf"@ {
        Some(NodeType::YulIfStmt)
    } else if s == "YulLiteral"@ {
        Some(NodeType::YulLiteral)
    } else if s == "YulLeave"@ {
        Some(NodeType::YulLeaveStmt)
    } else if s == "YulSwitch"@ {
        Some(NodeType::YulSwitchStmt)
    } else if s == "YulVariableDeclaration"@ {
        Some(NodeType::YulVarDecl)
    } else {
        Option::None
    }
}

impl NodeType {
    /// The node type named by a `nodeType` text; the text must name one.
    pub fn new(node_type: &str) -> (res: Self)
        requires
            node_type_of(node_type@) is Some,
        ensures
            res == node_type_of(node_type@)->0,
    {
        if str_eq(node_type, "ArrayTypeName") {
            NodeType::ArrayTypeName
        } else if str_eq(node_type, "Assignment") {
            NodeType::Assign
        } else if str_eq(node_type, "BinaryOperation") {
            NodeType::BinaryOperation
        } else if str_eq(node_type, "Block") {
            NodeType::Block
        } else if str_eq(node_type, "Break") {
            NodeType::BreakStmt
        } else if str_eq(node_type, "Conditional") {
            NodeType::Conditional
        } else if str_eq(node_type, "ConstructorDefinition") {
            NodeType::ConstructorDef
        } else if str_eq(node_type, "Continue") {
            NodeType::ContinueStmt
        } else if str_eq(node_type, "ContractDefinition") {
            NodeType::ContractDef
        } else if str_eq(node_type, "DoWhileStatement") {
            NodeType::DoWhileStmt
        } else if str_eq(node_type, "EmitStatement") {
            NodeType::EmitStmt
        } else if str_eq(node_type, "ElementaryTypeName") {
            NodeType::ElementaryTypeName
        } else if str_eq(node_type, "ElementaryTypeNameExpression") {
            NodeType::ElementaryTypeNameExpr
        } else if str_eq(node_type, "EnumDefinition") {
            NodeType::EnumDef
        } else if str_eq(node_type, "ErrorDefinition") {
            NodeType::ErrorDef
        } else if str_eq(node_type, "EventDefinition") {
            NodeType::EventDef
        } else if str_eq(node_type, "ExpressionStatement") {
            NodeType::ExprStmt
        } else if str_eq(node_type, "FallbackFunctionDefinition") {
            NodeType::FallbackFuncDef
        } else if str_eq(node_type, "ForStatement") {
            NodeType::ForStmt
        } else if str_eq(node_type, "FunctionCall") {
            NodeType::FuncCall
        } else if str_eq(node_type, "FunctionCallOptions") {
            NodeType::FuncCallOpts
        } else if str_eq(node_type, "FunctionDefinition") {
            NodeType::FuncDef
        } else if str_eq(node_type, "FunctionTypeName") {
            NodeType::FuncTypeName
        } else if str_eq(node_type, "Identifier") {
            NodeType::Ident
        } else if str_eq(node_type, "IdentifierPath") {
            NodeType::IdentPath
        } else if str_eq(node_type, "IfStatement") {
            NodeType::IfStmt
        } else if str_eq(node_type, "ImportDirective") {
            NodeType::Import
        } else if str_eq(node_type, "IndexAccess") {
            NodeType::IndexAccess
        } else if str_eq(node_type, "IndexRangeAccess") {
            NodeType::IndexRangeAccess
        } else if str_eq(node_type, "InheritanceSpecifier") {
            NodeType::InheritanceSpec
        } else if str_eq(node_type, "InlineAssembly") {
            NodeType::InlineAssembly
        } else if str_eq(node_type, "InterfaceDefinition") {
            NodeType::InterfaceDef
        } else if str_eq(node_type, "LibraryDefinition") {
            NodeType::LibraryDef
        } else if str_eq(node_type, "Literal") {
            NodeType::Literal
        } else if str_eq(node_type, "Mapping") {
            NodeType::Mapping
        } else if str_eq(node_type, "MemberAccess") {
            NodeType::MemberAccess
        } else if str_eq(node_type, "ModifierDefinition") {
            NodeType::ModifierDef
        } else if str_eq(node_type, "ModifierInvocation") {
            NodeType::ModifierInvoc
        } else if str_eq(node_type, "NewExpression") {
            NodeType::NewExpr
        } else if str_eq(node_type, "OverrideSpecifier") {
            NodeType::OverrideSpecifier
        } else if str_eq(node_type, "ParameterList") {
            NodeType::ParameterList
        } else if str_eq(node_type, "PlaceholderStatement") {
            NodeType::PlaceholderStmt
        } else if str_eq(node_type, "PragmaDirective") {
            NodeType::Pragma
        } else if str_eq(node_type, "ReceiveFunctionDefinition") {
            NodeType::ReceiveFuncDef
        } else if str_eq(node_type, "Return") {
            NodeType::ReturnStmt
        } else if str_eq(node_type, "RevertStatement") {
            NodeType::RevertStmt
        } else if str_eq(node_type, "SourceUnit") {
            NodeType::SourceUnit
        } else if str_eq(node_type, "StateVariableDeclaration") {
            NodeType::StateVarDecl
        } else if str_eq(node_type, "StructDefinition") {
            NodeType::StructDef
        } else if str_eq(node_type, "Throw") {
            NodeType::ThrowStmt
        } else if str_eq(node_type, "TupleExpression") {
            NodeType::TupleExpr
        } else if str_eq(node_type, "TryStatement") {
            NodeType::TryStmt
        } else if str_eq(node_type, "UnaryOperation") {
            NodeType::UnaryOperation
        } else if str_eq(node_type, "UncheckedBlock") {
            NodeType::UncheckedBlock
        } else if str_eq(node_type, "UserDefinedTypeName") {
            NodeType::UserDefinedTypeName
        } else if str_eq(node_type, "UserDefinedValueTypeDefinition") {
            NodeType::UserDefinedValueTypeDef
        } else if str_eq(node_type, "UsingForDirective") {
            NodeType::Using
        } else if str_eq(node_type, "VariableDeclaration") {
            NodeType::VarDecl
        } else if str_eq(node_type, "VariableDeclarationStatement") {
            NodeType::VarDeclStmt
        } else if str_eq(node_type, "WhileStatement") {
            NodeType::WhileStmt
        } else if str_eq(node_type, "YulAssignment") {
            NodeType::YulAssign
        } else if str_eq(node_type, "YulBlock") {
            NodeType::YulBlock
        } else if str_eq(node_type, "YulBreak") {
            NodeType::YulBreakStmt
        } else if str_eq(node_type, "YulContinue") {
            NodeType::YulContinueStmt
        } else if str_eq(node_type, "YulForLoop") {
            NodeType::YulForLoop
        } else if str_eq(node_type, "YulFunctionCall") {
            NodeType::YulFuncCall
        } else if str_eq(node_type, "YulExpressionStatement") {
            NodeType::YulExprStmt
        } else if str_eq(node_type, "YulFunctionDefinition") {
            NodeType::YulFuncDef
        } else if str_eq(node_type, "YulIdentifier") {
            NodeType::YulIdent
        } else if str_eq(node_type, "YulIf") {
            NodeType::YulIfStmt
        } else if str_eq(node_type, "YulLiteral") {
            NodeType::YulLiteral
        } else if str_eq(node_type, "YulLeave") {
            NodeType::YulLeaveStmt
        } else if str_eq(node_type, "YulSwitch") {
            NodeType::YulSwitchStmt
        } else {
            NodeType::YulVarDecl
        }
    }
}


//-------------------------------------------------------------------------
// Source locations of the JSON AST
//-------------------------------------------------------------------------

/// The texts of the first two capture groups of the leftmost match of the
/// regular expression `pattern` in `text`, if the pattern compiles, there
/// is a match, and both groups took part in it.
pub uninterp spec fn spec_regex_first_two_groups(pattern: Seq<char>, text: Seq<char>) -> Option<
    (Seq<char>, Seq<char>),
>;

/// The views of an optional pair of strings.
pub open spec fn pair_view(p: Option<(String, String)>) -> Option<(Seq<char>, Seq<char>)> {
    match p {
        Some((a, b)) => Some((a@, b@)),
        Option::None => Option::None,
    }
}

/// `regex::Regex::new(pattern)` followed by `Regex::captures(text)`,
/// keeping the texts of groups 1 and 2. The contract only names the
/// result (the regex engine's matching is not restated); the result
/// depends on the pattern and the text alone.
#[verifier::external_body]
fn regex_first_two_groups(pattern: &str, text: &str) -> (res: Option<(String, String)>)
    ensures
        pair_view(res) == spec_regex_first_two_groups(pattern@, text@),
{
    let re = match regex::Regex::new(pattern) {
        Ok(re) => re,
        Err(_) => return None,
    };
    match re.captures(text) {
        Some(caps) => match (caps.get(1), caps.get(2)) {
            (Some(a), Some(b)) => Some((a.as_str().to_string(), b.as_str().to_string())),
            _ => None,
        },
        None => None,
    }
}

/// The location that a begin position and an end position (inclusive) of
/// the source file denote: lines counted from 1, columns from 0.
pub open spec fn loc_of_positions(lines: Seq<usize>, begin: int, end: int, loc: Loc) -> bool {
    &&& holds_pos(lines, loc.start_line - 1, begin)
    &&& loc.start_col == begin - lines[loc.start_line - 1]
    &&& holds_pos(lines, loc.end_line - 1, end)
    &&& loc.end_col == end - lines[loc.end_line - 1]
}

/// Location of a source range given by its begin position and length;
/// `None` when a position lies past the end of the file.
pub fn loc_of_range(localizer: &Localizer, begin_pos: usize, len: usize) -> (res: Option<Loc>)
    requires
        localizer.wf(),
        begin_pos + len >= 1,
        begin_pos + len <= usize::MAX,
    ensures
        res is Some <==> (begin_pos <= localizer.line_starts().last() && begin_pos + len - 1
            <= localizer.line_starts().last()),
        res matches Some(loc) ==> loc_of_positions(
            localizer.line_starts(),
            begin_pos as int,
            begin_pos + len - 1,
            loc,
        ),
{
    let end_pos = begin_pos + len - 1;
    let (l1, c1) = match localizer.get_line_column(begin_pos) {
        Some((l, c)) => (l, c),
        None => return None,
    };
    let (l2, c2) = match localizer.get_line_column(end_pos) {
        Some((l, c)) => (l, c),
        None => return None,
    };
    Some(Loc::new(l1 + 1, c1, l2 + 1, c2))
}

/// The pattern of a source location in the JSON AST:
/// `position:length:file`.
pub open spec fn location_pattern() -> Seq<char> {
    "(\\d+):(\\d+):(\\d+)"@
}

/// Construct location from a source location string of the JSON AST, of
/// the form `position:length:others`.
///
/// `None` when the string does not match, when a position lies past the
/// end of the file, or when the position and length are not decimal
/// numbers whose sum is between 1 and `usize::MAX` (inputs on which the
/// location could not be computed).
pub fn parse_loc(localizer: &Localizer, location: &str) -> (res: Option<Loc>)
    requires
        localizer.wf(),
    ensures
        spec_regex_first_two_groups(location_pattern(), location@) is None ==> res is None,
        spec_regex_first_two_groups(location_pattern(), location@) matches Some((p, l)) ==> {
            let ok = is_digits(p) && is_digits(l) && 1 <= digits_value(p) + digits_value(l)
                <= usize::MAX;
            &&& !ok ==> res is None
            &&& ok ==> (res is Some <==> (digits_value(p) <= localizer.line_starts().last()
                && digits_value(p) + digits_value(l) - 1 <= localizer.line_starts().last()))
            &&& ok ==> (res matches Some(loc) ==> loc_of_positions(
                localizer.line_starts(),
                digits_value(p) as int,
                digits_value(p) + digits_value(l) - 1,
                loc,
            ))
        },
{
    let caps = regex_first_two_groups("(\\d+):(\\d+):(\\d+)", location);
    match caps {
        None => None,
        Some((pos_text, len_text)) => {
            let begin_pos = match parse_usize(pos_text.as_str()) {
                Some(n) => n,
                None => return None,
            };
            let len = match parse_usize(len_text.as_str()) {
                Some(n) => n,
                None => return None,
            };
            if len > usize::MAX - begin_pos || begin_pos + len == 0 {
                return None;
            }
            loc_of_range(localizer, begin_pos, len)
        },
    }
}

} // verus!
