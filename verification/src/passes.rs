//! State of the normalization passes over the AST: the finder of modifier
//! definitions, used library functions, flattening of name indices, and the
//! JSON AST parser.
use vstd::prelude::*;
use crate::localizer::Localizer;
use crate::name::{Name, NameView, name_text};
use crate::types::Type;

verus! {

/// Finder of modifier definitions.
#[derive(Debug, Clone, Copy)]
pub struct ModifierDefFinder {}

impl ModifierDefFinder {
    pub fn new() -> (res: Self) {
        ModifierDefFinder {}
    }
}

/// A library function used for a target type, `None` meaning every type
/// (`using ... for *`).
#[derive(Debug, PartialEq, Eq)]
pub struct UsedFunc {
    /// Name of the implementation function.
    pub func_name: Name,
    /// The target data type.
    pub target_typ: Option<Type>,
}

impl UsedFunc {
    pub fn new(func_name: Name, target_typ: Option<Type>) -> (res: Self)
        ensures
            res == (UsedFunc { func_name, target_typ }),
    {
        UsedFunc { func_name, target_typ }
    }
}

/// Flattening of name indices into the names themselves.
#[derive(Debug, Clone, Copy)]
pub struct NameIdxFlattener {}

impl NameIdxFlattener {
    pub fn new() -> (res: Self) {
        Self {}
    }

    /// The name whose base is the text of `name` (its base and index) and
    /// that has no index.
    pub fn map_name(&self, name: &Name) -> (res: Name)
        ensures
            res@ == (NameView { base: name_text(name@), index: None }),
    {
        Name::new(name.to_string(), None)
    }
}

/// A JSON AST produced by the Solidity compiler, with the file it was
/// compiled from.
#[derive(Debug, Clone)]
pub struct JsonAst {
    pub json_data: String,
    pub file_name: Option<String>,
    pub base_path: Option<String>,
}

/// Parser of a JSON AST.
pub struct AstParser {
    pub solidity_json: Option<String>,
    pub input_file: Option<String>,
    pub base_path: Option<String>,
    pub localizer: Option<Localizer>,
}

/// A copy of an optional string.
fn clone_opt(s: &Option<String>) -> (res: Option<String>)
    ensures
        res == *s,
{
    match s {
        Some(t) => Some(t.clone()),
        None => None,
    }
}

impl AstParser {
    pub fn new(solidity_json: &JsonAst) -> (res: Self)
        ensures
            res.solidity_json == Some(solidity_json.json_data),
            res.input_file == solidity_json.file_name,
            res.base_path == solidity_json.base_path,
            res.localizer is None,
    {
        AstParser {
            solidity_json: Some(solidity_json.json_data.clone()),
            input_file: clone_opt(&solidity_json.file_name),
            base_path: clone_opt(&solidity_json.base_path),
            localizer: None,
        }
    }
}

} // verus!
