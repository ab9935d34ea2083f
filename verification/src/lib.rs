//! Verified core of a Solidity front end: the abstract syntax of Solidity
//! and Yul with the source text it prints to, source locations, names and
//! specifiers, compiler version selection, syntactic comparison, inheritance
//! linearization, and the normalization passes that rewrite source units:
//! substitution of identifiers, expansion of modifier invocations,
//! elimination of named arguments, of using directives and of imports under
//! an alias, resolution of `super` along the linearization, and unrolling
//! of tuples of one component.

pub mod pass_representation;
pub mod text;
pub mod error;
pub mod loc;
pub mod name;
pub mod specifiers;
pub mod localizer;
pub mod json_value;
pub mod version;
pub mod version_parser;
pub mod inheritance;
pub mod substitution;
pub mod yul_ir_types;
pub mod yul_ir;
pub mod yul_ir_stmts;
pub mod yul_types;
pub mod yul_ast;
pub mod yul_stmts;
pub mod yul_sections;
pub mod operators;
pub mod types;
pub mod definitions;
pub mod directives;
pub mod text_order;
pub mod source_unit;
pub mod exprs;
pub mod super_calls;
pub mod passes;
pub mod compile_plan;
pub mod lits;
pub mod expressions;
pub mod stmts;
pub mod contracts;
pub mod compare;
pub mod named_args;
pub mod modifiers;
pub mod copies;
pub mod imports;
pub mod rewriting;
pub mod usings;
pub mod inheritance_resolution;
