//! Syntactic comparison of two ASTs: names by their text, types, literals,
//! expressions, statements, definitions and source units, ignoring ids and
//! source locations. A comparison succeeds or reports the first difference
//! it meets.
use vstd::prelude::*;
use crate::expressions::{
    AssignExpr, BinaryExpr, CallArgs, CallExpr, CallOpt, CallOptsExpr, ConditionalExpr, Expr,
    Identifier, IndexExpr, InlineArrayExpr, MemberExpr, NamedArg, SliceExpr, TupleExpr, UnaryExpr,
    args_text, call_opts_text, expr_text, exprs_text, lemma_call_opts_text, lemma_exprs_text,
    lemma_named_args_text, lemma_opt_exprs_text, named_args_text, opt_exprs_text,
};
use crate::exprs::{NewExpr, TypeNameExpr};
use crate::contracts::{
    BaseContract, ContractDef, ContractElem, ErrorDef, EventDef, FuncDef, contract_elem_printable,
    func_printable,
};
use crate::source_unit::{SourceUnit, SourceUnitElem, elem_printable};
use crate::specifiers::Overriding;
use crate::definitions::{
    EnumDef, StructDef, StructField, TypeDef, VarDecl,
};
use crate::directives::{
    ImportDir, PragmaDir, UsingDir, import_dir_text, pragma_dir_text, using_dir_text,
};
use crate::lits::{BoolLit, HexLit, Lit, Num, NumLit, StringLit, UnicodeLit, lit_text};
use crate::stmts::{
    Block, BreakStmt, CatchClause, ContinueStmt, PlaceholderStmt, ThrowStmt, DoWhileStmt, EmitStmt, ExprStmt, ForStmt, IfStmt, ReturnStmt, RevertStmt,
    Stmt, TryStmt, VarDeclStmt, WhileStmt, block_printable, catches_printable, lemma_catches,
    lemma_stmts, stmt_printable, stmt_text, stmts_text, block_text,
};
use crate::name::{Name, NameView, name_text};
use crate::text::{str_eq, to_string};
use crate::types::{Type, opt_name_view, opt_names_equal, type_text, types_same};

verus! {

//-------------------------------------------------------------------------
// Names and types
//-------------------------------------------------------------------------

/// Two names are alike when they print the same text.
pub open spec fn names_alike(n1: NameView, n2: NameView) -> bool {
    name_text(n1) == name_text(n2)
}

/// Two optional names are alike when both are absent, or both present and
/// alike.
pub open spec fn opt_names_alike(n1: Option<Name>, n2: Option<Name>) -> bool {
    match (n1, n2) {
        (Some(a), Some(b)) => names_alike(a@, b@),
        (None, None) => true,
        _ => false,
    }
}

/// Two lists of names are alike when they have the same length and are
/// alike at each position.
pub open spec fn name_lists_alike(s1: Seq<Name>, s2: Seq<Name>) -> bool {
    s1.len() == s2.len() && forall|i: int| 0 <= i < s1.len() ==> names_alike(s1[i]@, s2[i]@)
}

/// Whether two integer bit widths are alike: equal, or one of them absent
/// and the other 256.
pub open spec fn bitwidths_alike(b1: Option<usize>, b2: Option<usize>) -> bool {
    match (b1, b2) {
        (None, None) => true,
        (None, Some(w)) => w == 256,
        (Some(w), None) => w == 256,
        (Some(w1), Some(w2)) => w1 == w2,
    }
}

/// Whether two types are alike.
pub open spec fn types_alike(t1: Type, t2: Type) -> bool
    decreases t1,
{
    match (t1, t2) {
        (Type::Bool, Type::Bool) => true,
        (Type::Int { bitwidth: b1, is_signed: s1 }, Type::Int { bitwidth: b2, is_signed: s2 }) => s1
            == s2 && bitwidths_alike(b1, b2),
        (Type::String { data_loc: d1 }, Type::String { data_loc: d2 }) => d1 == d2,
        (Type::Address { payable: p1 }, Type::Address { payable: p2 }) => p1 == p2,
        (Type::Bytes { length: l1, data_loc: d1 }, Type::Bytes { length: l2, data_loc: d2 }) => d1
            == d2 && l1 == l2,
        (
            Type::Array { base: b1, length: l1, data_loc: d1 },
            Type::Array { base: b2, length: l2, data_loc: d2 },
        ) => d1 == d2 && types_alike(*b1, *b2) && l1 == l2,
        (
            Type::Struct { name: n1, scope: s1, data_loc: d1 },
            Type::Struct { name: n2, scope: s2, data_loc: d2 },
        ) => d1 == d2 && names_alike(n1@, n2@) && opt_names_alike(s1, s2),
        (Type::Enum { name: n1, scope: s1 }, Type::Enum { name: n2, scope: s2 }) => names_alike(
            n1@,
            n2@,
        ) && opt_names_alike(s1, s2),
        (Type::Mapping { key: k1, value: v1 }, Type::Mapping { key: k2, value: v2 }) => types_alike(
            *k1,
            *k2,
        ) && types_alike(*v1, *v2),
        (Type::UserDefined { name: n1, scope: s1 }, Type::UserDefined { name: n2, scope: s2 }) => n1@
            == n2@ && opt_name_view(s1) == opt_name_view(s2),
        (Type::Contract { name: n1, is_lib: l1 }, Type::Contract { name: n2, is_lib: l2 }) => n1@
            == n2@ && l1 == l2,
        _ => false,
    }
}

//-------------------------------------------------------------------------
// Literals and expressions
//-------------------------------------------------------------------------

/// Whether two number values are the same: the same kind, text and type,
/// names taken by their views.
pub open spec fn nums_same(n1: Num, n2: Num) -> bool {
    match (n1, n2) {
        (Num::Int(a), Num::Int(b)) => a.value@ == b.value@ && types_same(a.typ, b.typ),
        (Num::FixedNum(a), Num::FixedNum(b)) => a.value@ == b.value@ && types_same(a.typ, b.typ),
        (Num::Hex(a), Num::Hex(b)) => a.value@ == b.value@ && types_same(a.typ, b.typ),
        _ => false,
    }
}

/// Whether two literals are alike.
pub open spec fn lits_alike(l1: Lit, l2: Lit) -> bool {
    match (l1, l2) {
        (Lit::Bool(a), Lit::Bool(b)) => a.value == b.value && types_alike(a.typ, b.typ),
        (Lit::Num(a), Lit::Num(b)) => nums_same(a.value, b.value) && a.unit == b.unit,
        (Lit::String(a), Lit::String(b)) => a.value@ == b.value@ && types_alike(a.typ, b.typ),
        (Lit::Hex(a), Lit::Hex(b)) => a.value@ == b.value@ && types_alike(a.typ, b.typ),
        (Lit::Unicode(a), Lit::Unicode(b)) => a.value@ == b.value@ && types_alike(a.typ, b.typ),
        _ => false,
    }
}

/// Whether two optional boxed expressions are alike.
pub open spec fn boxed_alike(e1: Option<Box<Expr>>, e2: Option<Box<Expr>>) -> bool
    decreases e1,
{
    match (e1, e2) {
        (Some(a), Some(b)) => exprs_alike(*a, *b),
        (None, None) => true,
        _ => false,
    }
}

/// Whether two optional expressions are alike.
pub open spec fn opt_exprs_alike(e1: Option<Expr>, e2: Option<Expr>) -> bool
    decreases e1,
{
    match (e1, e2) {
        (Some(a), Some(b)) => exprs_alike(a, b),
        (None, None) => true,
        _ => false,
    }
}

/// Whether two sequences of expressions have the same length and are
/// alike at each position.
pub open spec fn expr_seqs_alike(s1: Seq<Expr>, s2: Seq<Expr>) -> bool
    decreases s1,
{
    s1.len() == s2.len() && forall|i: int| 0 <= i < s1.len() ==> exprs_alike(s1[i], s2[i])
}

/// Whether two sequences of optional expressions have the same length and
/// are alike at each position.
pub open spec fn opt_expr_seqs_alike(s1: Seq<Option<Expr>>, s2: Seq<Option<Expr>>) -> bool
    decreases s1,
{
    s1.len() == s2.len() && forall|i: int| 0 <= i < s1.len() ==> opt_exprs_alike(s1[i], s2[i])
}

/// Whether two sequences of call options are alike: the same length, and
/// at each position the same name and alike values.
pub open spec fn call_opts_alike(s1: Seq<CallOpt>, s2: Seq<CallOpt>) -> bool
    decreases s1,
{
    s1.len() == s2.len() && forall|i: int|
        0 <= i < s1.len() ==> s1[i].name@ == s2[i].name@ && exprs_alike(s1[i].value, s2[i].value)
}

/// Whether two sequences of named arguments are alike: the same length,
/// and at each position the same name and alike values.
pub open spec fn named_args_alike(s1: Seq<NamedArg>, s2: Seq<NamedArg>) -> bool
    decreases s1,
{
    s1.len() == s2.len() && forall|i: int|
        0 <= i < s1.len() ==> s1[i].name@ == s2[i].name@ && exprs_alike(s1[i].value, s2[i].value)
}

/// Whether two argument lists are alike: both positional or both named,
/// and alike.
pub open spec fn args_alike(a1: CallArgs, a2: CallArgs) -> bool
    decreases a1,
{
    match (a1, a2) {
        (CallArgs::Unnamed(x), CallArgs::Unnamed(y)) => expr_seqs_alike(x@, y@),
        (CallArgs::Named(x), CallArgs::Named(y)) => named_args_alike(x@, y@),
        _ => false,
    }
}

/// Whether two calls are alike: their callees and their arguments.
pub open spec fn calls_alike(c1: CallExpr, c2: CallExpr) -> bool
    decreases c1,
{
    exprs_alike(*c1.callee, *c2.callee) && args_alike(c1.args, c2.args)
}

/// Whether two expressions are alike: of the same kind, with the same
/// operators, alike names, literals and types, and alike operands.
pub open spec fn exprs_alike(e1: Expr, e2: Expr) -> bool
    decreases e1,
{
    match (e1, e2) {
        (Expr::Ident(a), Expr::Ident(b)) => names_alike(a.name@, b.name@),
        (Expr::Lit(a), Expr::Lit(b)) => lits_alike(a, b),
        (Expr::Unary(a), Expr::Unary(b)) => a.op == b.op && exprs_alike(*a.body, *b.body),
        (Expr::Binary(a), Expr::Binary(b)) => a.operator == b.operator && exprs_alike(*a.left, *b.left)
            && exprs_alike(*a.right, *b.right),
        (Expr::Assign(a), Expr::Assign(b)) => a.operator == b.operator && exprs_alike(*a.left, *b.left)
            && exprs_alike(*a.right, *b.right),
        (Expr::Call(a), Expr::Call(b)) => calls_alike(a, b),
        (Expr::CallOpts(a), Expr::CallOpts(b)) => exprs_alike(*a.callee, *b.callee) && call_opts_alike(
            a.call_opts@,
            b.call_opts@,
        ),
        (Expr::Tuple(a), Expr::Tuple(b)) => opt_expr_seqs_alike(a.elems@, b.elems@),
        (Expr::Index(a), Expr::Index(b)) => exprs_alike(*a.base_expr, *b.base_expr) && boxed_alike(
            a.index,
            b.index,
        ),
        (Expr::Slice(a), Expr::Slice(b)) => exprs_alike(*a.base_expr, *b.base_expr) && boxed_alike(
            a.start_index,
            b.start_index,
        ) && boxed_alike(a.end_index, b.end_index),
        (Expr::Member(a), Expr::Member(b)) => names_alike(a.member@, b.member@) && exprs_alike(
            *a.base,
            *b.base,
        ),
        (Expr::Conditional(a), Expr::Conditional(b)) => exprs_alike(*a.cond, *b.cond) && exprs_alike(
            *a.true_br,
            *b.true_br,
        ) && exprs_alike(*a.false_br, *b.false_br),
        (Expr::InlineArray(a), Expr::InlineArray(b)) => expr_seqs_alike(a.elems@, b.elems@),
        (Expr::New(a), Expr::New(b)) => types_alike(a.typ, b.typ),
        (Expr::TypeName(a), Expr::TypeName(b)) => types_alike(a.typ, b.typ),
        _ => false,
    }
}

//-------------------------------------------------------------------------
// Definitions
//-------------------------------------------------------------------------

/// Whether two variable declarations are alike: their names, types and
/// initial values.
pub open spec fn var_decls_alike(v1: VarDecl, v2: VarDecl) -> bool {
    names_alike(v1.name@, v2.name@) && types_alike(v1.typ, v2.typ) && opt_exprs_alike(
        v1.value,
        v2.value,
    )
}

/// Whether two lists of variable declarations have the same length and are
/// alike at each position.
pub open spec fn var_decl_lists_alike(s1: Seq<VarDecl>, s2: Seq<VarDecl>) -> bool {
    s1.len() == s2.len() && forall|i: int| 0 <= i < s1.len() ==> var_decls_alike(s1[i], s2[i])
}

/// Whether two error definitions are alike.
pub open spec fn error_defs_alike(e1: ErrorDef, e2: ErrorDef) -> bool {
    names_alike(e1.name@, e2.name@) && var_decl_lists_alike(e1.params@, e2.params@)
}

/// Whether two event definitions are alike.
pub open spec fn event_defs_alike(e1: EventDef, e2: EventDef) -> bool {
    names_alike(e1.name@, e2.name@) && e1.is_anonymous == e2.is_anonymous && var_decl_lists_alike(
        e1.params@,
        e2.params@,
    )
}

/// Whether two user-defined value type definitions are alike.
pub open spec fn type_defs_alike(t1: TypeDef, t2: TypeDef) -> bool {
    names_alike(t1.name@, t2.name@) && types_alike(t1.base_typ, t2.base_typ)
}

/// Whether two struct fields are alike: the same name and alike types.
pub open spec fn struct_fields_alike(f1: StructField, f2: StructField) -> bool {
    f1.name@ == f2.name@ && types_alike(f1.typ, f2.typ)
}

/// Whether two struct definitions are alike.
pub open spec fn struct_defs_alike(d1: StructDef, d2: StructDef) -> bool {
    &&& names_alike(d1.name@, d2.name@)
    &&& d1.fields@.len() == d2.fields@.len()
    &&& forall|i: int|
        0 <= i < d1.fields@.len() ==> struct_fields_alike(d1.fields@[i], d2.fields@[i])
}

/// Whether two enum definitions are alike: alike names and the same
/// elements.
pub open spec fn enum_defs_alike(d1: EnumDef, d2: EnumDef) -> bool {
    &&& names_alike(d1.name@, d2.name@)
    &&& d1.elems@.len() == d2.elems@.len()
    &&& forall|i: int| 0 <= i < d1.elems@.len() ==> d1.elems@[i]@ == d2.elems@[i]@
}

/// Whether two base contracts are alike: equal names and alike arguments.
pub open spec fn base_contracts_alike(b1: BaseContract, b2: BaseContract) -> bool {
    b1.name@ == b2.name@ && expr_seqs_alike(b1.args@, b2.args@)
}

//-------------------------------------------------------------------------
// Statements
//-------------------------------------------------------------------------

/// The outcome of comparing two statements, or definitions that hold
/// statements: alike, different, or a pair that the comparison does not
/// handle (two inline assembly statements, or an optional statement
/// present on one side only), on which it stops the program.
#[derive(PartialEq, Eq, Debug, Clone, Copy, Structural)]
pub enum Outcome {
    Alike,
    Different,
    Unsupported,
}

/// The outcome of two comparisons made in turn: the second is made only
/// when the first finds the two alike.
pub open spec fn then(a: Outcome, b: Outcome) -> Outcome {
    if a == Outcome::Alike {
        b
    } else {
        a
    }
}

/// The outcome of a comparison that always completes.
pub open spec fn outcome_of(alike: bool) -> Outcome {
    if alike {
        Outcome::Alike
    } else {
        Outcome::Different
    }
}

/// Whether two optional variable declarations are alike.
pub open spec fn opt_var_decls_alike(v1: Option<VarDecl>, v2: Option<VarDecl>) -> bool {
    match (v1, v2) {
        (Some(a), Some(b)) => var_decls_alike(a, b),
        (None, None) => true,
        _ => false,
    }
}

/// Whether two variable declaration statements are alike: their
/// declarations, then their values.
pub open spec fn var_decl_stmts_alike(s1: VarDeclStmt, s2: VarDeclStmt) -> bool {
    &&& s1.var_decls@.len() == s2.var_decls@.len()
    &&& forall|i: int|
        0 <= i < s1.var_decls@.len() ==> opt_var_decls_alike(s1.var_decls@[i], s2.var_decls@[i])
    &&& opt_exprs_alike(s1.value, s2.value)
}

/// Whether two `emit` statements are alike.
pub open spec fn emit_stmts_alike(s1: EmitStmt, s2: EmitStmt) -> bool {
    exprs_alike(s1.event, s2.event) && args_alike(s1.args, s2.args)
}

/// Whether two `revert` statements are alike.
pub open spec fn revert_stmts_alike(s1: RevertStmt, s2: RevertStmt) -> bool {
    opt_exprs_alike(s1.error, s2.error) && args_alike(s1.args, s2.args)
}

/// The outcome of comparing two optional statements.
pub open spec fn opt_stmt_outcome(s1: Option<Box<Stmt>>, s2: Option<Box<Stmt>>) -> Outcome
    decreases s1,
{
    match (s1, s2) {
        (Some(a), Some(b)) => stmt_outcome(*a, *b),
        (None, None) => Outcome::Alike,
        _ => Outcome::Unsupported,
    }
}

/// The outcome of comparing two sequences of statements of the same
/// length, in order: the first outcome that is not `Alike`.
pub open spec fn stmts_outcome(s1: Seq<Stmt>, s2: Seq<Stmt>) -> Outcome
    decreases s1,
{
    if s1.len() == 0 {
        Outcome::Alike
    } else {
        then(
            stmt_outcome(s1[0], s2[0]),
            stmts_outcome(s1.subrange(1, s1.len() as int), s2.subrange(1, s2.len() as int)),
        )
    }
}

/// The outcome of comparing two blocks: both `unchecked` or neither, the
/// same number of statements, then the statements in order.
pub open spec fn block_outcome(b1: Block, b2: Block) -> Outcome
    decreases b1,
{
    if b1.unchecked != b2.unchecked || b1.body@.len() != b2.body@.len() {
        Outcome::Different
    } else {
        stmts_outcome(b1.body@, b2.body@)
    }
}

/// The outcome of comparing two catch clauses: neither names an error,
/// the same number of parameters, alike parameters, then the bodies.
pub open spec fn catch_outcome(c1: CatchClause, c2: CatchClause) -> Outcome
    decreases c1,
{
    if !(c1.error is None && c2.error is None) || c1.params@.len() != c2.params@.len()
        || !var_decl_lists_alike(c1.params@, c2.params@) {
        Outcome::Different
    } else {
        block_outcome(c1.body, c2.body)
    }
}

/// The outcome of comparing two sequences of catch clauses of the same
/// length, in order.
pub open spec fn catches_outcome(s1: Seq<CatchClause>, s2: Seq<CatchClause>) -> Outcome
    decreases s1,
{
    if s1.len() == 0 {
        Outcome::Alike
    } else {
        then(
            catch_outcome(s1[0], s2[0]),
            catches_outcome(s1.subrange(1, s1.len() as int), s2.subrange(1, s2.len() as int)),
        )
    }
}

/// The outcome of comparing two `try` statements: the guarded
/// expressions, the bodies, the return variables, then the catch clauses.
pub open spec fn try_outcome(s1: TryStmt, s2: TryStmt) -> Outcome
    decreases s1,
{
    then(
        outcome_of(exprs_alike(s1.guarded_expr, s2.guarded_expr)),
        then(
            block_outcome(s1.body, s2.body),
            if s1.return_vars@.len() != s2.return_vars@.len() || !var_decl_lists_alike(
                s1.return_vars@,
                s2.return_vars@,
            ) || s1.catch_clauses@.len() != s2.catch_clauses@.len() {
                Outcome::Different
            } else {
                catches_outcome(s1.catch_clauses@, s2.catch_clauses@)
            },
        ),
    )
}

/// The outcome of comparing two `if` statements: the conditions, the
/// true branches, then the false branches.
pub open spec fn if_outcome(s1: IfStmt, s2: IfStmt) -> Outcome
    decreases s1,
{
    then(
        outcome_of(exprs_alike(s1.condition, s2.condition)),
        then(
            stmt_outcome(*s1.true_branch, *s2.true_branch),
            opt_stmt_outcome(s1.false_branch, s2.false_branch),
        ),
    )
}

/// The outcome of comparing two `for` loops: the conditions, the
/// initializations, the updates, then the bodies.
pub open spec fn for_outcome(s1: ForStmt, s2: ForStmt) -> Outcome
    decreases s1,
{
    then(
        outcome_of(opt_exprs_alike(s1.condition, s2.condition)),
        then(
            opt_stmt_outcome(s1.pre_loop, s2.pre_loop),
            then(opt_stmt_outcome(s1.post_loop, s2.post_loop), stmt_outcome(*s1.body, *s2.body)),
        ),
    )
}

/// The outcome of comparing two `while` loops.
pub open spec fn while_outcome(s1: WhileStmt, s2: WhileStmt) -> Outcome
    decreases s1,
{
    then(outcome_of(exprs_alike(s1.condition, s2.condition)), stmt_outcome(*s1.body, *s2.body))
}

/// The outcome of comparing two `do ... while` loops.
pub open spec fn do_while_outcome(s1: DoWhileStmt, s2: DoWhileStmt) -> Outcome
    decreases s1,
{
    then(outcome_of(exprs_alike(s1.condition, s2.condition)), stmt_outcome(*s1.body, *s2.body))
}

/// The outcome of comparing two statements.
pub open spec fn stmt_outcome(s1: Stmt, s2: Stmt) -> Outcome
    decreases s1,
{
    match (s1, s2) {
        (Stmt::Asm(_), Stmt::Asm(_)) => Outcome::Unsupported,
        (Stmt::Block(a), Stmt::Block(b)) => block_outcome(a, b),
        (Stmt::Break(_), Stmt::Break(_)) => Outcome::Alike,
        (Stmt::Continue(_), Stmt::Continue(_)) => Outcome::Alike,
        (Stmt::DoWhile(a), Stmt::DoWhile(b)) => do_while_outcome(a, b),
        (Stmt::Emit(a), Stmt::Emit(b)) => outcome_of(emit_stmts_alike(a, b)),
        (Stmt::Expr(a), Stmt::Expr(b)) => outcome_of(exprs_alike(a.expr, b.expr)),
        (Stmt::For(a), Stmt::For(b)) => for_outcome(a, b),
        (Stmt::If(a), Stmt::If(b)) => if_outcome(a, b),
        (Stmt::Placeholder(_), Stmt::Placeholder(_)) => Outcome::Alike,
        (Stmt::Return(a), Stmt::Return(b)) => outcome_of(opt_exprs_alike(a.expr, b.expr)),
        (Stmt::Revert(a), Stmt::Revert(b)) => outcome_of(revert_stmts_alike(a, b)),
        (Stmt::Throw(_), Stmt::Throw(_)) => Outcome::Alike,
        (Stmt::Try(a), Stmt::Try(b)) => try_outcome(a, b),
        (Stmt::VarDecl(a), Stmt::VarDecl(b)) => outcome_of(var_decl_stmts_alike(a, b)),
        (Stmt::While(a), Stmt::While(b)) => while_outcome(a, b),
        _ => Outcome::Different,
    }
}

/// Whether an optional statement can be printed.
pub open spec fn opt_stmt_printable(s: Option<Box<Stmt>>) -> bool {
    match s {
        Some(x) => stmt_printable(*x),
        None => true,
    }
}

//-------------------------------------------------------------------------
// Functions, contracts and source units
//-------------------------------------------------------------------------

/// Whether two `override` specifiers are alike.
pub open spec fn overridings_alike(o1: Overriding, o2: Overriding) -> bool {
    match (o1, o2) {
        (Overriding::Listed(a), Overriding::Listed(b)) => name_lists_alike(a@, b@),
        (Overriding::All, Overriding::All) => true,
        (Overriding::Unspecified, Overriding::Unspecified) => true,
        _ => false,
    }
}

/// Whether everything of two functions but their bodies is alike: names,
/// kinds, visibilities, mutabilities, `virtual`, parameters, return
/// variables, modifier invocations and `override` specifiers.
pub open spec fn func_heads_alike(f1: FuncDef, f2: FuncDef) -> bool {
    &&& names_alike(f1.name@, f2.name@)
    &&& f1.kind == f2.kind
    &&& f1.visibility == f2.visibility
    &&& f1.mutability == f2.mutability
    &&& f1.is_virtual == f2.is_virtual
    &&& var_decl_lists_alike(f1.params@, f2.params@)
    &&& var_decl_lists_alike(f1.return_vars@, f2.return_vars@)
    &&& f1.modifier_invocs@.len() == f2.modifier_invocs@.len()
    &&& forall|i: int|
        0 <= i < f1.modifier_invocs@.len() ==> calls_alike(
            f1.modifier_invocs@[i],
            f2.modifier_invocs@[i],
        )
    &&& overridings_alike(f1.overriding, f2.overriding)
}

/// The outcome of comparing two optional blocks: both absent, or both
/// present and compared.
pub open spec fn opt_block_outcome(b1: Option<Block>, b2: Option<Block>) -> Outcome {
    match (b1, b2) {
        (Some(a), Some(b)) => block_outcome(a, b),
        (None, None) => Outcome::Alike,
        _ => Outcome::Different,
    }
}

/// The outcome of comparing two functions: their heads, then their bodies.
pub open spec fn func_outcome(f1: FuncDef, f2: FuncDef) -> Outcome {
    if !func_heads_alike(f1, f2) {
        Outcome::Different
    } else {
        opt_block_outcome(f1.body, f2.body)
    }
}

/// The outcome of comparing two contract elements.
pub open spec fn contract_elem_outcome(e1: ContractElem, e2: ContractElem) -> Outcome {
    match (e1, e2) {
        (ContractElem::Using(a), ContractElem::Using(b)) => outcome_of(
            using_dir_text(a) == using_dir_text(b),
        ),
        (ContractElem::Event(a), ContractElem::Event(b)) => outcome_of(event_defs_alike(a, b)),
        (ContractElem::Error(a), ContractElem::Error(b)) => outcome_of(error_defs_alike(a, b)),
        (ContractElem::Struct(a), ContractElem::Struct(b)) => outcome_of(struct_defs_alike(a, b)),
        (ContractElem::Enum(a), ContractElem::Enum(b)) => outcome_of(enum_defs_alike(a, b)),
        (ContractElem::Type(a), ContractElem::Type(b)) => outcome_of(type_defs_alike(a, b)),
        (ContractElem::Var(a), ContractElem::Var(b)) => outcome_of(var_decls_alike(a, b)),
        (ContractElem::Func(a), ContractElem::Func(b)) => func_outcome(a, b),
        _ => Outcome::Different,
    }
}

/// The outcome of comparing two sequences of contract elements of the
/// same length, in order.
pub open spec fn contract_elems_outcome(s1: Seq<ContractElem>, s2: Seq<ContractElem>) -> Outcome
    decreases s1.len(),
{
    if s1.len() == 0 {
        Outcome::Alike
    } else {
        then(
            contract_elem_outcome(s1[0], s2[0]),
            contract_elems_outcome(s1.subrange(1, s1.len() as int), s2.subrange(1, s2.len() as int)),
        )
    }
}

/// The outcome of comparing two contracts: names, kinds, `abstract`, the
/// numbers of base contracts and elements, the base contracts, then the
/// elements.
pub open spec fn contract_outcome(c1: ContractDef, c2: ContractDef) -> Outcome {
    if !(names_alike(c1.name@, c2.name@) && c1.kind == c2.kind && c1.is_abstract == c2.is_abstract
        && c1.base_contracts@.len() == c2.base_contracts@.len() && c1.body@.len()
        == c2.body@.len()) {
        Outcome::Different
    } else if !(forall|i: int|
        0 <= i < c1.base_contracts@.len() ==> base_contracts_alike(
            c1.base_contracts@[i],
            c2.base_contracts@[i],
        )) {
        Outcome::Different
    } else {
        contract_elems_outcome(c1.body@, c2.body@)
    }
}

/// The outcome of comparing two source unit elements.
pub open spec fn source_elem_outcome(e1: SourceUnitElem, e2: SourceUnitElem) -> Outcome {
    match (e1, e2) {
        (SourceUnitElem::Pragma(a), SourceUnitElem::Pragma(b)) => outcome_of(
            pragma_dir_text(a) == pragma_dir_text(b),
        ),
        (SourceUnitElem::Import(a), SourceUnitElem::Import(b)) => outcome_of(
            import_dir_text(a) == import_dir_text(b),
        ),
        (SourceUnitElem::Using(a), SourceUnitElem::Using(b)) => outcome_of(
            using_dir_text(a) == using_dir_text(b),
        ),
        (SourceUnitElem::Error(a), SourceUnitElem::Error(b)) => outcome_of(error_defs_alike(a, b)),
        (SourceUnitElem::Func(a), SourceUnitElem::Func(b)) => func_outcome(a, b),
        (SourceUnitElem::Var(a), SourceUnitElem::Var(b)) => outcome_of(var_decls_alike(a, b)),
        (SourceUnitElem::UserType(a), SourceUnitElem::UserType(b)) => outcome_of(type_defs_alike(a, b)),
        (SourceUnitElem::Struct(a), SourceUnitElem::Struct(b)) => outcome_of(struct_defs_alike(a, b)),
        (SourceUnitElem::Enum(a), SourceUnitElem::Enum(b)) => outcome_of(enum_defs_alike(a, b)),
        (SourceUnitElem::Contract(a), SourceUnitElem::Contract(b)) => contract_outcome(a, b),
        _ => Outcome::Different,
    }
}

/// The outcome of comparing two sequences of source unit elements of the
/// same length, in order.
pub open spec fn source_elems_outcome(s1: Seq<SourceUnitElem>, s2: Seq<SourceUnitElem>) -> Outcome
    decreases s1.len(),
{
    if s1.len() == 0 {
        Outcome::Alike
    } else {
        then(
            source_elem_outcome(s1[0], s2[0]),
            source_elems_outcome(s1.subrange(1, s1.len() as int), s2.subrange(1, s2.len() as int)),
        )
    }
}

/// The outcome of comparing two source units: the numbers of elements,
/// then the elements in order.
pub open spec fn source_unit_outcome(u1: SourceUnit, u2: SourceUnit) -> Outcome {
    if u1.elems@.len() != u2.elems@.len() {
        Outcome::Different
    } else {
        source_elems_outcome(u1.elems@, u2.elems@)
    }
}

/// Whether every element of a source unit can be printed.
pub open spec fn source_unit_printable(u: SourceUnit) -> bool {
    forall|i: int| 0 <= i < u.elems@.len() ==> elem_printable(#[trigger] u.elems@[i])
}

/// Whether every element of a contract can be printed.
pub open spec fn contract_printable(c: ContractDef) -> bool {
    forall|i: int| 0 <= i < c.body@.len() ==> contract_elem_printable(#[trigger] c.body@[i])
}

//-------------------------------------------------------------------------
// Reporting differences
//-------------------------------------------------------------------------

/// A difference found by a comparison, with a message that shows it.
#[derive(Debug)]
pub struct CompareError {
    pub message: String,
}

/// The text of a value as `{:?}` formats it.
#[verifier::external_body]
fn debug_text<T: std::fmt::Debug>(x: &T) -> String {
    format!("{:?}", x)
}

/// The message of a difference shown with both sides' texts: the message,
/// then the first text, a separator line and the second text.
pub open spec fn difference_text(msg: Seq<char>, t1: Seq<char>, t2: Seq<char>) -> Seq<char> {
    msg + ":\n\n"@ + t1 + "\n\n-- vs --\n\n"@ + t2 + "\n"@
}

/// The message of a difference shown with both sides' texts and the
/// message of the difference that caused it.
pub open spec fn difference_by_text(
    msg: Seq<char>,
    t1: Seq<char>,
    t2: Seq<char>,
    cause: Seq<char>,
) -> Seq<char> {
    difference_text(msg, t1, t2) + "\n\nError: "@ + cause
}

/// The message of a difference that names both sides on one line.
pub open spec fn failure_of_text(msg: Seq<char>, t1: Seq<char>, t2: Seq<char>) -> Seq<char> {
    msg + ": "@ + t1 + " -- "@ + t2
}

/// A difference reported with both sides' texts.
fn difference(msg: &str, t1: String, t2: String) -> (res: CompareError)
    ensures
        res.message@ == difference_text(msg@, t1@, t2@),
{
    let mut m = to_string(msg);
    m.append(":\n\n");
    m.append(t1.as_str());
    m.append("\n\n-- vs --\n\n");
    m.append(t2.as_str());
    m.append("\n");
    CompareError { message: m }
}

/// A difference reported with both sides' texts and the difference that
/// caused it.
fn difference_by(msg: &str, t1: String, t2: String, cause: CompareError) -> (res: CompareError)
    ensures
        res.message@ == difference_by_text(msg@, t1@, t2@, cause.message@),
{
    let mut m = difference(msg, t1, t2).message;
    m.append("\n\nError: ");
    m.append(cause.message.as_str());
    CompareError { message: m }
}

/// A difference reported by a bare message.
fn failure(msg: &str) -> (res: CompareError)
    ensures
        res.message@ == msg@,
{
    CompareError { message: to_string(msg) }
}

/// A difference reported by a message naming both sides.
fn failure_of(msg: &str, t1: String, t2: String) -> (res: CompareError)
    ensures
        res.message@ == failure_of_text(msg@, t1@, t2@),
{
    let mut m = to_string(msg);
    m.append(": ");
    m.append(t1.as_str());
    m.append(" -- ");
    m.append(t2.as_str());
    CompareError { message: m }
}

//-------------------------------------------------------------------------
// Comparing names and types
//-------------------------------------------------------------------------

/// Compares two names by their text.
pub fn compare_name(name1: &Name, name2: &Name) -> (res: Result<(), CompareError>)
    ensures
        res is Ok <==> names_alike(name1@, name2@),
        res matches Err(e) ==> e.message@ == difference_text(
            "Different names"@,
            name_text(name1@),
            name_text(name2@),
        ),
{
    let t1 = name1.to_string();
    let t2 = name2.to_string();
    if !str_eq(t1.as_str(), t2.as_str()) {
        return Err(difference("Different names", t1, t2));
    }
    Ok(())
}

/// Compares two optional names.
pub fn compare_name_opt(name1: &Option<Name>, name2: &Option<Name>) -> (res: Result<(), CompareError>)
    ensures
        res is Ok <==> opt_names_alike(*name1, *name2),
{
    match (name1, name2) {
        (Some(n1), Some(n2)) => compare_name(n1, n2),
        (None, None) => Ok(()),
        _ => Err(failure_of("Different name", debug_text(name1), debug_text(name2))),
    }
}

/// Compares two lists of names, position by position.
pub fn compare_names(names1: &Vec<Name>, names2: &Vec<Name>) -> (res: Result<(), CompareError>)
    ensures
        res is Ok <==> name_lists_alike(names1@, names2@),
{
    if names1.len() != names2.len() {
        return Err(failure_of("Different names", debug_text(names1), debug_text(names2)));
    }
    let mut i: usize = 0;
    while i < names1.len()
        invariant
            i <= names1.len(),
            names1.len() == names2.len(),
            forall|j: int| 0 <= j < i ==> names_alike(names1@[j]@, names2@[j]@),
        decreases names1.len() - i,
    {
        compare_name(&names1[i], &names2[i])?;
        i = i + 1;
    }
    Ok(())
}

/// Compares two types.
pub fn compare_type(t1: &Type, t2: &Type) -> (res: Result<(), CompareError>)
    ensures
        res is Ok <==> types_alike(*t1, *t2),
    decreases t1,
{
    let alike = match (t1, t2) {
        (Type::Bool, Type::Bool) => true,
        (Type::Int { bitwidth: b1, is_signed: s1 }, Type::Int { bitwidth: b2, is_signed: s2 }) => {
            if *s1 != *s2 {
                return Err(difference("Different int types", t1.to_string(), t2.to_string()));
            }
            match (b1, b2) {
                (None, None) => true,
                (None, Some(w)) => *w == 256,
                (Some(w), None) => *w == 256,
                (Some(w1), Some(w2)) => *w1 == *w2,
            }
        },
        (Type::String { data_loc: d1 }, Type::String { data_loc: d2 }) => *d1 == *d2,
        (Type::Address { payable: p1 }, Type::Address { payable: p2 }) => *p1 == *p2,
        (Type::Bytes { length: l1, data_loc: d1 }, Type::Bytes { length: l2, data_loc: d2 }) => *d1
            == *d2 && *l1 == *l2,
        (
            Type::Array { base: b1, length: l1, data_loc: d1 },
            Type::Array { base: b2, length: l2, data_loc: d2 },
        ) => *d1 == *d2 && compare_type(b1, b2).is_ok() && *l1 == *l2,
        (
            Type::Struct { name: n1, scope: s1, data_loc: d1 },
            Type::Struct { name: n2, scope: s2, data_loc: d2 },
        ) => {
            if *d1 != *d2 {
                return Err(difference("Different struct type", t1.to_string(), t2.to_string()));
            }
            if let Err(e) = compare_name(n1, n2) {
                return Err(difference_by("Different struct type", t1.to_string(), t2.to_string(), e));
            }
            if let Err(e) = compare_name_opt(s1, s2) {
                return Err(difference_by("Different struct type", t1.to_string(), t2.to_string(), e));
            }
            true
        },
        (Type::Enum { name: n1, scope: s1 }, Type::Enum { name: n2, scope: s2 }) => {
            if let Err(e) = compare_name(n1, n2) {
                return Err(difference_by("Different enum type", t1.to_string(), t2.to_string(), e));
            }
            if let Err(e) = compare_name_opt(s1, s2) {
                return Err(difference_by("Different enum type", t1.to_string(), t2.to_string(), e));
            }
            true
        },
        (Type::Mapping { key: k1, value: v1 }, Type::Mapping { key: k2, value: v2 }) => {
            if let Err(e) = compare_type(k1, k2) {
                return Err(difference_by("Different mapping key type", k1.to_string(), k2.to_string(), e));
            }
            if let Err(e) = compare_type(v1, v2) {
                return Err(
                    difference_by("Different mapping value type", v1.to_string(), v2.to_string(), e),
                );
            }
            true
        },
        (Type::UserDefined { name: n1, scope: s1 }, Type::UserDefined { name: n2, scope: s2 }) => n1.same(
            n2,
        ) && opt_names_equal(s1, s2),
        (Type::Contract { name: n1, is_lib: l1 }, Type::Contract { name: n2, is_lib: l2 }) => n1.same(
            n2,
        ) && *l1 == *l2,
        _ => false,
    };
    if !alike {
        return Err(difference(type_difference(t1, t2), t1.to_string(), t2.to_string()));
    }
    Ok(())
}

/// The message of a difference between two types, by their kinds.
pub open spec fn type_difference_text(t1: Type, t2: Type) -> Seq<char> {
    match (t1, t2) {
        (Type::Int { .. }, Type::Int { .. }) => "Different int types"@,
        (Type::String { .. }, Type::String { .. }) => "Different string type"@,
        (Type::Address { .. }, Type::Address { .. }) => "Different address types"@,
        (Type::Bytes { .. }, Type::Bytes { .. }) => "Different bytes types"@,
        (Type::Array { .. }, Type::Array { .. }) => "Different array types"@,
        (Type::UserDefined { .. }, Type::UserDefined { .. }) => "Different type name"@,
        (Type::Contract { .. }, Type::Contract { .. }) => "Different contract type"@,
        _ => "Different types"@,
    }
}

/// The message of a difference between two types, by their kinds.
fn type_difference(t1: &Type, t2: &Type) -> (res: &'static str)
    ensures
        res@ == type_difference_text(*t1, *t2),
{
    match (t1, t2) {
        (Type::Int { .. }, Type::Int { .. }) => "Different int types",
        (Type::String { .. }, Type::String { .. }) => "Different string type",
        (Type::Address { .. }, Type::Address { .. }) => "Different address types",
        (Type::Bytes { .. }, Type::Bytes { .. }) => "Different bytes types",
        (Type::Array { .. }, Type::Array { .. }) => "Different array types",
        (Type::UserDefined { .. }, Type::UserDefined { .. }) => "Different type name",
        (Type::Contract { .. }, Type::Contract { .. }) => "Different contract type",
        _ => "Different types",
    }
}

//-------------------------------------------------------------------------
// Comparing literals and expressions
//-------------------------------------------------------------------------

/// Whether two number values are the same (see `nums_same`).
fn nums_same_exec(n1: &Num, n2: &Num) -> (res: bool)
    ensures
        res == nums_same(*n1, *n2),
{
    match (n1, n2) {
        (Num::Int(a), Num::Int(b)) => a.value == b.value && Type::same(&a.typ, &b.typ),
        (Num::FixedNum(a), Num::FixedNum(b)) => a.value == b.value && Type::same(&a.typ, &b.typ),
        (Num::Hex(a), Num::Hex(b)) => a.value == b.value && Type::same(&a.typ, &b.typ),
        _ => false,
    }
}

/// The message of a difference between two literals: by their kinds,
/// with both literals' texts.
pub open spec fn lit_difference_text(l1: Lit, l2: Lit) -> Seq<char> {
    let label = match (l1, l2) {
        (Lit::Bool(_), Lit::Bool(_)) => "Different boolean literals"@,
        (Lit::Num(_), Lit::Num(_)) => "Different number literals"@,
        (Lit::String(_), Lit::String(_)) => "Different string literals"@,
        (Lit::Hex(_), Lit::Hex(_)) => "Different hex-string literals"@,
        (Lit::Unicode(_), Lit::Unicode(_)) => "Different unicode-string literals"@,
        _ => "Different literal types"@,
    };
    difference_text(label, lit_text(l1), lit_text(l2))
}

/// Compares two literals: of the same kind, then as that kind says.
pub fn compare_lit(l1: &Lit, l2: &Lit) -> (res: Result<(), CompareError>)
    ensures
        res is Ok <==> lits_alike(*l1, *l2),
        res matches Err(e) ==> e.message@ == lit_difference_text(*l1, *l2),
{
    match (l1, l2) {
        (Lit::Bool(a), Lit::Bool(b)) => compare_bool_lit(a, b),
        (Lit::Num(a), Lit::Num(b)) => compare_num_lit(a, b),
        (Lit::String(a), Lit::String(b)) => compare_string_lit(a, b),
        (Lit::Hex(a), Lit::Hex(b)) => compare_hex_lit(a, b),
        (Lit::Unicode(a), Lit::Unicode(b)) => compare_unicode_lit(a, b),
        _ => Err(difference("Different literal types", l1.to_string(), l2.to_string())),
    }
}

/// Compares two boolean literals: their values and types.
pub fn compare_bool_lit(l1: &BoolLit, l2: &BoolLit) -> (res: Result<(), CompareError>)
    ensures
        res is Ok <==> lits_alike(Lit::Bool(*l1), Lit::Bool(*l2)),
        res matches Err(e) ==> e.message@ == lit_difference_text(Lit::Bool(*l1), Lit::Bool(*l2)),
{
    if l1.value != l2.value || compare_type(&l1.typ, &l2.typ).is_err() {
        return Err(difference("Different boolean literals", l1.to_string(), l2.to_string()));
    }
    Ok(())
}

/// Compares two number literals: their values and units.
pub fn compare_num_lit(l1: &NumLit, l2: &NumLit) -> (res: Result<(), CompareError>)
    ensures
        res is Ok <==> lits_alike(Lit::Num(*l1), Lit::Num(*l2)),
        res matches Err(e) ==> e.message@ == lit_difference_text(Lit::Num(*l1), Lit::Num(*l2)),
{
    if !nums_same_exec(&l1.value, &l2.value) || l1.unit != l2.unit {
        return Err(difference("Different number literals", l1.to_string(), l2.to_string()));
    }
    Ok(())
}

/// Compares two string literals: their values and types.
pub fn compare_string_lit(l1: &StringLit, l2: &StringLit) -> (res: Result<(), CompareError>)
    ensures
        res is Ok <==> lits_alike(Lit::String(*l1), Lit::String(*l2)),
        res matches Err(e) ==> e.message@ == lit_difference_text(Lit::String(*l1), Lit::String(*l2)),
{
    if l1.value != l2.value || compare_type(&l1.typ, &l2.typ).is_err() {
        return Err(difference("Different string literals", l1.to_string(), l2.to_string()));
    }
    Ok(())
}

/// Compares two hex-string literals: their values and types.
pub fn compare_hex_lit(l1: &HexLit, l2: &HexLit) -> (res: Result<(), CompareError>)
    ensures
        res is Ok <==> lits_alike(Lit::Hex(*l1), Lit::Hex(*l2)),
        res matches Err(e) ==> e.message@ == lit_difference_text(Lit::Hex(*l1), Lit::Hex(*l2)),
{
    if l1.value != l2.value || compare_type(&l1.typ, &l2.typ).is_err() {
        return Err(difference("Different hex-string literals", l1.to_string(), l2.to_string()));
    }
    Ok(())
}

/// Compares two unicode-string literals: their values and types.
pub fn compare_unicode_lit(l1: &UnicodeLit, l2: &UnicodeLit) -> (res: Result<(), CompareError>)
    ensures
        res is Ok <==> lits_alike(Lit::Unicode(*l1), Lit::Unicode(*l2)),
        res matches Err(e) ==> e.message@ == lit_difference_text(Lit::Unicode(*l1), Lit::Unicode(*l2)),
{
    if l1.value != l2.value || compare_type(&l1.typ, &l2.typ).is_err() {
        return Err(difference("Different unicode-string literals", l1.to_string(), l2.to_string()));
    }
    Ok(())
}

/// Compares two identifiers by their names.
pub fn compare_ident(id1: &Identifier, id2: &Identifier) -> (res: Result<(), CompareError>)
    ensures
        res is Ok <==> names_alike(id1.name@, id2.name@),
{
    if let Err(e) = compare_name(&id1.name, &id2.name) {
        return Err(difference_by("Different identifiers", id1.name.to_string(), id2.name.to_string(), e));
    }
    Ok(())
}

/// Compares two optional boxed expressions.
pub fn compare_expr_rc_opt(exp1: &Option<Box<Expr>>, exp2: &Option<Box<Expr>>) -> (res: Result<
    (),
    CompareError,
>)
    ensures
        res is Ok <==> boxed_alike(*exp1, *exp2),
    decreases exp1,
{
    match (exp1, exp2) {
        (Some(e1), Some(e2)) => compare_expr(e1, e2),
        (None, None) => Ok(()),
        _ => Err(failure_of("Different expressions", debug_text(exp1), debug_text(exp2))),
    }
}

/// Compares two optional expressions.
pub fn compare_expr_opt(exp1: &Option<Expr>, exp2: &Option<Expr>) -> (res: Result<(), CompareError>)
    ensures
        res is Ok <==> opt_exprs_alike(*exp1, *exp2),
    decreases exp1,
{
    match (exp1, exp2) {
        (Some(e1), Some(e2)) => compare_expr(e1, e2),
        (None, None) => Ok(()),
        _ => Err(failure_of("Different expressions", debug_text(exp1), debug_text(exp2))),
    }
}

/// Compares two lists of expressions of the same length, position by
/// position.
fn compare_expr_list(es1: &Vec<Expr>, es2: &Vec<Expr>) -> (res: Result<(), CompareError>)
    requires
        es1.len() == es2.len(),
    ensures
        res is Ok <==> expr_seqs_alike(es1@, es2@),
    decreases es1@,
{
    let mut i: usize = 0;
    while i < es1.len()
        invariant
            i <= es1.len(),
            es1.len() == es2.len(),
            forall|j: int| 0 <= j < i ==> exprs_alike(es1@[j], es2@[j]),
        decreases es1.len() - i,
    {
        if let Err(e) = compare_expr(&es1[i], &es2[i]) {
            assert(!exprs_alike(es1@[i as int], es2@[i as int]));
            return Err(e);
        }
        i = i + 1;
    }
    Ok(())
}

/// Compares two lists of optional expressions of the same length,
/// position by position.
fn compare_opt_expr_list(es1: &Vec<Option<Expr>>, es2: &Vec<Option<Expr>>) -> (res: Result<
    (),
    CompareError,
>)
    requires
        es1.len() == es2.len(),
    ensures
        res is Ok <==> opt_expr_seqs_alike(es1@, es2@),
    decreases es1@,
{
    let mut i: usize = 0;
    while i < es1.len()
        invariant
            i <= es1.len(),
            es1.len() == es2.len(),
            forall|j: int| 0 <= j < i ==> opt_exprs_alike(es1@[j], es2@[j]),
        decreases es1.len() - i,
    {
        if let Err(e) = compare_expr_opt(&es1[i], &es2[i]) {
            assert(!opt_exprs_alike(es1@[i as int], es2@[i as int]));
            return Err(e);
        }
        i = i + 1;
    }
    Ok(())
}

/// Compares two lists of call options of the same length, position by
/// position.
fn compare_call_opt_list(os1: &Vec<CallOpt>, os2: &Vec<CallOpt>) -> (res: Result<(), CompareError>)
    requires
        os1.len() == os2.len(),
    ensures
        res is Ok <==> call_opts_alike(os1@, os2@),
    decreases os1@,
{
    let mut i: usize = 0;
    while i < os1.len()
        invariant
            i <= os1.len(),
            os1.len() == os2.len(),
            forall|j: int|
                0 <= j < i ==> os1@[j].name@ == os2@[j].name@ && exprs_alike(
                    os1@[j].value,
                    os2@[j].value,
                ),
        decreases os1.len() - i,
    {
        if let Err(e) = compare_call_opt(&os1[i], &os2[i]) {
            return Err(e);
        }
        i = i + 1;
    }
    Ok(())
}

/// Compares two lists of named arguments of the same length, position by
/// position: their names, then their values.
fn compare_named_arg_list(as1: &Vec<NamedArg>, as2: &Vec<NamedArg>) -> (res: Result<
    (),
    CompareError,
>)
    requires
        as1.len() == as2.len(),
    ensures
        res is Ok <==> named_args_alike(as1@, as2@),
    decreases as1@,
{
    let mut i: usize = 0;
    while i < as1.len()
        invariant
            i <= as1.len(),
            as1.len() == as2.len(),
            forall|j: int|
                0 <= j < i ==> as1@[j].name@ == as2@[j].name@ && exprs_alike(
                    as1@[j].value,
                    as2@[j].value,
                ),
        decreases as1.len() - i,
    {
        if as1[i].name != as2[i].name {
            return Err(failure("Different argument names"));
        }
        if let Err(e) = compare_expr(&as1[i].value, &as2[i].value) {
            return Err(e);
        }
        i = i + 1;
    }
    Ok(())
}

/// Compares two call argument lists.
pub fn compare_call_args(args1: &CallArgs, args2: &CallArgs) -> (res: Result<(), CompareError>)
    ensures
        res is Ok <==> args_alike(*args1, *args2),
    decreases args1,
{
    match (args1, args2) {
        (CallArgs::Unnamed(a1), CallArgs::Unnamed(a2)) => {
            if a1.len() != a2.len() {
                return Err(failure("Different number of arguments"));
            }
            compare_expr_list(a1, a2)
        },
        (CallArgs::Named(a1), CallArgs::Named(a2)) => {
            if a1.len() != a2.len() {
                return Err(failure("Different number of arguments"));
            }
            compare_named_arg_list(a1, a2)
        },
        _ => Err(failure("Different argument types")),
    }
}

/// Compares two calls: their callees, then their arguments.
pub fn compare_call_expr(exp1: &CallExpr, exp2: &CallExpr) -> (res: Result<(), CompareError>)
    ensures
        res is Ok <==> calls_alike(*exp1, *exp2),
    decreases exp1,
{
    compare_expr(&exp1.callee, &exp2.callee)?;
    compare_call_args(&exp1.args, &exp2.args)
}

/// Compares two call options: their names, then their values.
pub fn compare_call_opt(opt1: &CallOpt, opt2: &CallOpt) -> (res: Result<(), CompareError>)
    ensures
        res is Ok <==> (opt1.name@ == opt2.name@ && exprs_alike(opt1.value, opt2.value)),
    decreases opt1,
{
    if opt1.name != opt2.name {
        return Err(difference("Different call option names", opt1.to_string(), opt2.to_string()));
    }
    compare_expr(&opt1.value, &opt2.value)
}

/// Compares two expressions.
pub fn compare_expr(exp1: &Expr, exp2: &Expr) -> (res: Result<(), CompareError>)
    ensures
        res is Ok <==> exprs_alike(*exp1, *exp2),
    decreases exp1,
{
    match (exp1, exp2) {
        (Expr::Ident(a), Expr::Ident(b)) => compare_ident(a, b),
        (Expr::Lit(a), Expr::Lit(b)) => compare_lit(a, b),
        (Expr::Unary(a), Expr::Unary(b)) => compare_unary_expr(a, b),
        (Expr::Binary(a), Expr::Binary(b)) => compare_binary_expr(a, b),
        (Expr::Assign(a), Expr::Assign(b)) => compare_assign_expr(a, b),
        (Expr::Call(a), Expr::Call(b)) => compare_call_expr(a, b),
        (Expr::CallOpts(a), Expr::CallOpts(b)) => compare_call_opts_expr(a, b),
        (Expr::Tuple(a), Expr::Tuple(b)) => compare_tuple_expr(a, b),
        (Expr::Index(a), Expr::Index(b)) => compare_index_expr(a, b),
        (Expr::Slice(a), Expr::Slice(b)) => compare_slice_expr(a, b),
        (Expr::Member(a), Expr::Member(b)) => compare_member_expr(a, b),
        (Expr::Conditional(a), Expr::Conditional(b)) => compare_conditional_expr(a, b),
        (Expr::InlineArray(a), Expr::InlineArray(b)) => compare_inline_array_expr(a, b),
        (Expr::New(a), Expr::New(b)) => compare_new_expr(a, b),
        (Expr::TypeName(a), Expr::TypeName(b)) => compare_type_name_expr(a, b),
        _ => Err(difference("Different expression types", exp1.to_string(), exp2.to_string())),
    }
}

/// Compares two unary expressions: their operators, then their operands.
pub fn compare_unary_expr(e1: &UnaryExpr, e2: &UnaryExpr) -> (res: Result<(), CompareError>)
    ensures
        res is Ok <==> exprs_alike(Expr::Unary(*e1), Expr::Unary(*e2)),
    decreases e1,
{
    if e1.op != e2.op {
        return Err(difference("Different unary operators", e1.to_string(), e2.to_string()));
    }
    compare_expr(&e1.body, &e2.body)
}

/// Compares two binary expressions: their operators, then their operands.
pub fn compare_binary_expr(e1: &BinaryExpr, e2: &BinaryExpr) -> (res: Result<(), CompareError>)
    ensures
        res is Ok <==> exprs_alike(Expr::Binary(*e1), Expr::Binary(*e2)),
    decreases e1,
{
    if e1.operator != e2.operator {
        return Err(difference("Different binary operators", e1.to_string(), e2.to_string()));
    }
    compare_expr(&e1.left, &e2.left)?;
    compare_expr(&e1.right, &e2.right)
}

/// Compares two assignments: their operators, then their sides.
pub fn compare_assign_expr(e1: &AssignExpr, e2: &AssignExpr) -> (res: Result<(), CompareError>)
    ensures
        res is Ok <==> exprs_alike(Expr::Assign(*e1), Expr::Assign(*e2)),
    decreases e1,
{
    if e1.operator != e2.operator {
        return Err(difference("Different assignment operators", e1.to_string(), e2.to_string()));
    }
    compare_expr(&e1.left, &e2.left)?;
    compare_expr(&e1.right, &e2.right)
}

/// Compares two expressions with call options: their callees, then their
/// options.
pub fn compare_call_opts_expr(e1: &CallOptsExpr, e2: &CallOptsExpr) -> (res: Result<(), CompareError>)
    ensures
        res is Ok <==> exprs_alike(Expr::CallOpts(*e1), Expr::CallOpts(*e2)),
    decreases e1,
{
    compare_expr(&e1.callee, &e2.callee)?;
    if e1.call_opts.len() != e2.call_opts.len() {
        assert(!call_opts_alike(e1.call_opts@, e2.call_opts@));
        return Err(difference("Different number of call options", e1.to_string(), e2.to_string()));
    }
    compare_call_opt_list(&e1.call_opts, &e2.call_opts)
}

/// Compares two tuples, component by component.
pub fn compare_tuple_expr(e1: &TupleExpr, e2: &TupleExpr) -> (res: Result<(), CompareError>)
    ensures
        res is Ok <==> exprs_alike(Expr::Tuple(*e1), Expr::Tuple(*e2)),
    decreases e1,
{
    if e1.elems.len() != e2.elems.len() {
        assert(!opt_expr_seqs_alike(e1.elems@, e2.elems@));
        return Err(difference("Different number of tuple elements", e1.to_string(), e2.to_string()));
    }
    compare_opt_expr_list(&e1.elems, &e2.elems)
}

/// Compares two index accesses: their bases, then their indices.
pub fn compare_index_expr(e1: &IndexExpr, e2: &IndexExpr) -> (res: Result<(), CompareError>)
    ensures
        res is Ok <==> exprs_alike(Expr::Index(*e1), Expr::Index(*e2)),
    decreases e1,
{
    compare_expr(&e1.base_expr, &e2.base_expr)?;
    compare_expr_rc_opt(&e1.index, &e2.index)
}

/// Compares two slices: their bases, then their bounds.
pub fn compare_slice_expr(e1: &SliceExpr, e2: &SliceExpr) -> (res: Result<(), CompareError>)
    ensures
        res is Ok <==> exprs_alike(Expr::Slice(*e1), Expr::Slice(*e2)),
    decreases e1,
{
    compare_expr(&e1.base_expr, &e2.base_expr)?;
    compare_expr_rc_opt(&e1.start_index, &e2.start_index)?;
    compare_expr_rc_opt(&e1.end_index, &e2.end_index)
}

/// Compares two member accesses: their member names, then their bases.
pub fn compare_member_expr(e1: &MemberExpr, e2: &MemberExpr) -> (res: Result<(), CompareError>)
    ensures
        res is Ok <==> exprs_alike(Expr::Member(*e1), Expr::Member(*e2)),
    decreases e1,
{
    if let Err(e) = compare_name(&e1.member, &e2.member) {
        return Err(difference_by("Different member access expr", e1.to_string(), e2.to_string(), e));
    }
    compare_expr(&e1.base, &e2.base)
}

/// Compares two conditional expressions: conditions, then branches.
pub fn compare_conditional_expr(e1: &ConditionalExpr, e2: &ConditionalExpr) -> (res: Result<(), CompareError>)
    ensures
        res is Ok <==> exprs_alike(Expr::Conditional(*e1), Expr::Conditional(*e2)),
    decreases e1,
{
    compare_expr(&e1.cond, &e2.cond)?;
    compare_expr(&e1.true_br, &e2.true_br)?;
    compare_expr(&e1.false_br, &e2.false_br)
}

/// Compares two inline arrays, element by element.
pub fn compare_inline_array_expr(e1: &InlineArrayExpr, e2: &InlineArrayExpr) -> (res: Result<(), CompareError>)
    ensures
        res is Ok <==> exprs_alike(Expr::InlineArray(*e1), Expr::InlineArray(*e2)),
    decreases e1,
{
    if e1.elems.len() != e2.elems.len() {
        assert(!expr_seqs_alike(e1.elems@, e2.elems@));
        return Err(difference("Different inline array", e1.to_string(), e2.to_string()));
    }
    compare_expr_list(&e1.elems, &e2.elems)
}

/// Compares two `new` expressions by their types.
pub fn compare_new_expr(e1: &NewExpr, e2: &NewExpr) -> (res: Result<(), CompareError>)
    ensures
        res is Ok <==> exprs_alike(Expr::New(*e1), Expr::New(*e2)),
{
    compare_type(&e1.typ, &e2.typ)
}

/// Compares two type names by their types.
pub fn compare_type_name_expr(e1: &TypeNameExpr, e2: &TypeNameExpr) -> (res: Result<(), CompareError>)
    ensures
        res is Ok <==> exprs_alike(Expr::TypeName(*e1), Expr::TypeName(*e2)),
{
    compare_type(&e1.typ, &e2.typ)
}

//-------------------------------------------------------------------------
// Comparing directives and definitions
//-------------------------------------------------------------------------

/// Compares two pragma directives by their text.
pub fn compare_pragma_directive(p1: &PragmaDir, p2: &PragmaDir) -> (res: Result<(), CompareError>)
    ensures
        res is Ok <==> pragma_dir_text(*p1) == pragma_dir_text(*p2),
{
    let t1 = p1.to_string();
    let t2 = p2.to_string();
    if !str_eq(t1.as_str(), t2.as_str()) {
        return Err(difference("Different pragma", t1, t2));
    }
    Ok(())
}

/// Compares two import directives by their text.
pub fn compare_import_directive(i1: &ImportDir, i2: &ImportDir) -> (res: Result<(), CompareError>)
    ensures
        res is Ok <==> import_dir_text(*i1) == import_dir_text(*i2),
{
    let t1 = i1.to_string();
    let t2 = i2.to_string();
    if !str_eq(t1.as_str(), t2.as_str()) {
        return Err(difference("Different import", t1, t2));
    }
    Ok(())
}

/// Compares two using directives by their text.
pub fn compare_using_directive(u1: &UsingDir, u2: &UsingDir) -> (res: Result<(), CompareError>)
    ensures
        res is Ok <==> using_dir_text(*u1) == using_dir_text(*u2),
{
    let t1 = u1.to_string();
    let t2 = u2.to_string();
    if !str_eq(t1.as_str(), t2.as_str()) {
        return Err(difference("Different using", t1, t2));
    }
    Ok(())
}

/// Compares two variable declarations: their names, types and initial
/// values.
pub fn compare_var_decl(v1: &VarDecl, v2: &VarDecl) -> (res: Result<(), CompareError>)
    ensures
        res is Ok <==> var_decls_alike(*v1, *v2),
{
    if let Err(e) = compare_name(&v1.name, &v2.name) {
        return Err(difference_by("Different var decl", v1.name.to_string(), v2.name.to_string(), e));
    }
    compare_type(&v1.typ, &v2.typ)?;
    compare_expr_opt(&v1.value, &v2.value)
}

/// Compares two lists of variable declarations of the same length,
/// position by position.
fn compare_var_decl_list(vs1: &Vec<VarDecl>, vs2: &Vec<VarDecl>) -> (res: Result<(), CompareError>)
    requires
        vs1.len() == vs2.len(),
    ensures
        res is Ok <==> var_decl_lists_alike(vs1@, vs2@),
{
    let mut i: usize = 0;
    while i < vs1.len()
        invariant
            i <= vs1.len(),
            vs1.len() == vs2.len(),
            forall|j: int| 0 <= j < i ==> var_decls_alike(vs1@[j], vs2@[j]),
        decreases vs1.len() - i,
    {
        if let Err(e) = compare_var_decl(&vs1[i], &vs2[i]) {
            assert(!var_decls_alike(vs1@[i as int], vs2@[i as int]));
            return Err(e);
        }
        i = i + 1;
    }
    Ok(())
}

/// Compares two error definitions: their parameter counts, names and
/// parameters.
pub fn compare_error_defitinion(e1: &ErrorDef, e2: &ErrorDef) -> (res: Result<(), CompareError>)
    ensures
        res is Ok <==> error_defs_alike(*e1, *e2),
{
    if e1.params.len() != e2.params.len() {
        return Err(difference("Different error definition", e1.to_string(), e2.to_string()));
    }
    if let Err(e) = compare_name(&e1.name, &e2.name) {
        return Err(difference_by("Different error definition", e1.to_string(), e2.to_string(), e));
    }
    compare_var_decl_list(&e1.params, &e2.params)
}

/// Compares two event definitions: their names, anonymity, parameter
/// counts and parameters.
pub fn compare_event_definition(e1: &EventDef, e2: &EventDef) -> (res: Result<(), CompareError>)
    ensures
        res is Ok <==> event_defs_alike(*e1, *e2),
{
    if compare_name(&e1.name, &e2.name).is_err() || e1.is_anonymous != e2.is_anonymous
        || e1.params.len() != e2.params.len() {
        return Err(difference("Different event definitions", e1.to_string(), e2.to_string()));
    }
    compare_var_decl_list(&e1.params, &e2.params)
}

/// Compares two user-defined value type definitions: their names, then
/// their base types.
pub fn compare_user_defined_type_definition(t1: &TypeDef, t2: &TypeDef) -> (res: Result<
    (),
    CompareError,
>)
    ensures
        res is Ok <==> type_defs_alike(*t1, *t2),
{
    if let Err(e) = compare_name(&t1.name, &t2.name) {
        return Err(
            difference_by(
                "Different user-defined value type definition",
                t1.to_string(),
                t2.to_string(),
                e,
            ),
        );
    }
    compare_type(&t1.base_typ, &t2.base_typ)
}

/// Compares two struct fields: their names, then their types.
pub fn compare_struct_field(f1: &StructField, f2: &StructField) -> (res: Result<(), CompareError>)
    ensures
        res is Ok <==> struct_fields_alike(*f1, *f2),
{
    if f1.name != f2.name {
        return Err(difference("Different struct field", f1.to_string(), f2.to_string()));
    }
    compare_type(&f1.typ, &f2.typ)
}

/// Compares two struct definitions: their names, field counts and fields.
pub fn compare_struct_def(d1: &StructDef, d2: &StructDef) -> (res: Result<(), CompareError>)
    ensures
        res is Ok <==> struct_defs_alike(*d1, *d2),
{
    if let Err(e) = compare_name(&d1.name, &d2.name) {
        return Err(difference_by("Different struct name", d1.to_string(), d2.to_string(), e));
    }
    if d1.fields.len() != d2.fields.len() {
        return Err(difference("Different number of struct fields", d1.to_string(), d2.to_string()));
    }
    let mut i: usize = 0;
    while i < d1.fields.len()
        invariant
            i <= d1.fields.len(),
            d1.fields.len() == d2.fields.len(),
            forall|j: int| 0 <= j < i ==> struct_fields_alike(d1.fields@[j], d2.fields@[j]),
        decreases d1.fields.len() - i,
    {
        if let Err(e) = compare_struct_field(&d1.fields[i], &d2.fields[i]) {
            return Err(difference_by("Different struct definition", d1.to_string(), d2.to_string(), e));
        }
        i = i + 1;
    }
    Ok(())
}

/// Compares two enum elements.
pub fn compare_enum_elem(elem1: &str, elem2: &str) -> (res: Result<(), CompareError>)
    ensures
        res is Ok <==> elem1@ == elem2@,
{
    if !str_eq(elem1, elem2) {
        return Err(difference("Different enum element", to_string(elem1), to_string(elem2)));
    }
    Ok(())
}

/// Compares two enum definitions: their names, element counts and
/// elements.
pub fn compare_enum_def(d1: &EnumDef, d2: &EnumDef) -> (res: Result<(), CompareError>)
    ensures
        res is Ok <==> enum_defs_alike(*d1, *d2),
{
    if let Err(e) = compare_name(&d1.name, &d2.name) {
        return Err(difference_by("Different enum name", d1.to_string(), d2.to_string(), e));
    }
    if d1.elems.len() != d2.elems.len() {
        return Err(difference("Different number of enum elements", d1.to_string(), d2.to_string()));
    }
    let mut i: usize = 0;
    while i < d1.elems.len()
        invariant
            i <= d1.elems.len(),
            d1.elems.len() == d2.elems.len(),
            forall|j: int| 0 <= j < i ==> d1.elems@[j]@ == d2.elems@[j]@,
        decreases d1.elems.len() - i,
    {
        if let Err(e) = compare_enum_elem(d1.elems[i].as_str(), d2.elems[i].as_str()) {
            return Err(difference_by("Different enum definition", d1.to_string(), d2.to_string(), e));
        }
        i = i + 1;
    }
    Ok(())
}

/// Compares two base contracts: their names and argument counts, then
/// their arguments.
pub fn compare_base_contract(b1: &BaseContract, b2: &BaseContract) -> (res: Result<(), CompareError>)
    ensures
        res is Ok <==> base_contracts_alike(*b1, *b2),
{
    if !b1.name.same(&b2.name) || b1.args.len() != b2.args.len() {
        return Err(difference("Different base contract", b1.to_string(), b2.to_string()));
    }
    compare_expr_list(&b1.args, &b2.args)
}

//-------------------------------------------------------------------------
// Comparing statements
//-------------------------------------------------------------------------

/// Compares two `break` statements: always alike.
pub fn compare_break_stmt(_stmt1: &BreakStmt, _stmt2: &BreakStmt) -> (res: Result<(), CompareError>)
    ensures
        res is Ok,
{
    Ok(())
}

/// Compares two `continue` statements: always alike.
pub fn compare_continue_stmt(_stmt1: &ContinueStmt, _stmt2: &ContinueStmt) -> (res: Result<
    (),
    CompareError,
>)
    ensures
        res is Ok,
{
    Ok(())
}

/// Compares two `throw` statements: always alike.
pub fn compare_throw_stmt(_stmt1: &ThrowStmt, _stmt2: &ThrowStmt) -> (res: Result<(), CompareError>)
    ensures
        res is Ok,
{
    Ok(())
}

/// Compares two placeholder statements: always alike.
pub fn compare_place_holder_stmt(_stmt1: &PlaceholderStmt, _stmt2: &PlaceholderStmt) -> (res: Result<
    (),
    CompareError,
>)
    ensures
        res is Ok,
{
    Ok(())
}

/// Compares two expression statements.
pub fn compare_expr_stmt(stmt1: &ExprStmt, stmt2: &ExprStmt) -> (res: Result<(), CompareError>)
    ensures
        res is Ok <==> exprs_alike(stmt1.expr, stmt2.expr),
{
    compare_expr(&stmt1.expr, &stmt2.expr)
}

/// Compares two `return` statements.
pub fn compare_return_stmt(stmt1: &ReturnStmt, stmt2: &ReturnStmt) -> (res: Result<(), CompareError>)
    ensures
        res is Ok <==> opt_exprs_alike(stmt1.expr, stmt2.expr),
{
    compare_expr_opt(&stmt1.expr, &stmt2.expr)
}

/// Compares two `emit` statements: the events, then the arguments.
pub fn compare_emit_stmt(stmt1: &EmitStmt, stmt2: &EmitStmt) -> (res: Result<(), CompareError>)
    ensures
        res is Ok <==> emit_stmts_alike(*stmt1, *stmt2),
{
    compare_expr(&stmt1.event, &stmt2.event)?;
    compare_call_args(&stmt1.args, &stmt2.args)
}

/// Compares two `revert` statements: the errors, then the arguments.
pub fn compare_revert_stmt(stmt1: &RevertStmt, stmt2: &RevertStmt) -> (res: Result<(), CompareError>)
    ensures
        res is Ok <==> revert_stmts_alike(*stmt1, *stmt2),
{
    compare_expr_opt(&stmt1.error, &stmt2.error)?;
    compare_call_args(&stmt1.args, &stmt2.args)
}

/// Compares two variable declaration statements: the number of
/// declarations, each declaration, then the values.
pub fn compare_var_decl_stmt(stmt1: &VarDeclStmt, stmt2: &VarDeclStmt) -> (res: Result<
    (),
    CompareError,
>)
    ensures
        res is Ok <==> var_decl_stmts_alike(*stmt1, *stmt2),
{
    if stmt1.var_decls.len() != stmt2.var_decls.len() {
        return Err(
            difference("Different variable declaration statement", stmt1.to_string(), stmt2.to_string()),
        );
    }
    let mut i: usize = 0;
    while i < stmt1.var_decls.len()
        invariant
            i <= stmt1.var_decls.len(),
            stmt1.var_decls.len() == stmt2.var_decls.len(),
            forall|j: int|
                0 <= j < i ==> opt_var_decls_alike(stmt1.var_decls@[j], stmt2.var_decls@[j]),
        decreases stmt1.var_decls.len() - i,
    {
        match (&stmt1.var_decls[i], &stmt2.var_decls[i]) {
            (Some(v1), Some(v2)) => {
                if let Err(e) = compare_var_decl(v1, v2) {
                    assert(!opt_var_decls_alike(stmt1.var_decls@[i as int], stmt2.var_decls@[i as int]));
                    return Err(e);
                }
            },
            (None, None) => {},
            _ => {
                assert(!opt_var_decls_alike(stmt1.var_decls@[i as int], stmt2.var_decls@[i as int]));
                return Err(
                    failure_of(
                        "Different var decl",
                        debug_text(&stmt1.var_decls[i]),
                        debug_text(&stmt2.var_decls[i]),
                    ),
                );
            },
        }
        i = i + 1;
    }
    compare_expr_opt(&stmt1.value, &stmt2.value)
}

/// Compares two optional statements; both must be present or both absent.
pub fn compare_stmt_opt(stmt1: &Option<Box<Stmt>>, stmt2: &Option<Box<Stmt>>) -> (res: Result<
    (),
    CompareError,
>)
    requires
        opt_stmt_outcome(*stmt1, *stmt2) != Outcome::Unsupported,
        opt_stmt_printable(*stmt1),
        opt_stmt_printable(*stmt2),
    ensures
        res is Ok <==> opt_stmt_outcome(*stmt1, *stmt2) == Outcome::Alike,
    decreases stmt1,
{
    match (stmt1, stmt2) {
        (Some(s1), Some(s2)) => compare_stmt(s1, s2),
        _ => Ok(()),
    }
}

/// Compares two blocks: both `unchecked` or neither, the same number of
/// statements, then the statements in order.
pub fn compare_block(blk1: &Block, blk2: &Block) -> (res: Result<(), CompareError>)
    requires
        block_outcome(*blk1, *blk2) != Outcome::Unsupported,
        block_printable(*blk1),
        block_printable(*blk2),
    ensures
        res is Ok <==> block_outcome(*blk1, *blk2) == Outcome::Alike,
    decreases blk1,
{
    if blk1.unchecked != blk2.unchecked || blk1.body.len() != blk2.body.len() {
        return Err(difference("Different blocks", blk1.to_string(), blk2.to_string()));
    }
    let n = blk1.body.len();
    let ghost s1 = blk1.body@;
    let ghost s2 = blk2.body@;
    proof {
        lemma_stmts(s1);
        lemma_stmts(s2);
        assert(s1.subrange(0, n as int) =~= s1);
        assert(s2.subrange(0, n as int) =~= s2);
    }
    let mut i: usize = 0;
    while i < n
        invariant
            n == blk1.body.len(),
            n == blk2.body.len(),
            s1 == blk1.body@,
            s2 == blk2.body@,
            i <= n,
            forall|j: int| 0 <= j < n ==> stmt_printable(#[trigger] s1[j]),
            forall|j: int| 0 <= j < n ==> stmt_printable(#[trigger] s2[j]),
            stmts_outcome(s1, s2) != Outcome::Unsupported,
            stmts_outcome(s1, s2) == stmts_outcome(
                s1.subrange(i as int, n as int),
                s2.subrange(i as int, n as int),
            ),
        decreases n - i,
    {
        let ghost r1 = s1.subrange(i as int, n as int);
        let ghost r2 = s2.subrange(i as int, n as int);
        assert(r1[0] == s1[i as int]);
        assert(r2[0] == s2[i as int]);
        assert(r1.subrange(1, r1.len() as int) =~= s1.subrange(i + 1, n as int));
        assert(r2.subrange(1, r2.len() as int) =~= s2.subrange(i + 1, n as int));
        compare_stmt(&blk1.body[i], &blk2.body[i])?;
        i = i + 1;
    }
    Ok(())
}

/// Compares two catch clauses: neither may name an error, then the number
/// of parameters, the parameters and the bodies.
pub fn compare_catch_clause(cls1: &CatchClause, cls2: &CatchClause) -> (res: Result<
    (),
    CompareError,
>)
    requires
        catch_outcome(*cls1, *cls2) != Outcome::Unsupported,
        block_printable(cls1.body),
        block_printable(cls2.body),
    ensures
        res is Ok <==> catch_outcome(*cls1, *cls2) == Outcome::Alike,
    decreases cls1,
{
    match (&cls1.error, &cls2.error) {
        (None, None) => {},
        _ => {
            return Err(
                difference("Different errors in catch clause", cls1.to_string(), cls2.to_string()),
            );
        },
    }
    if cls1.params.len() != cls2.params.len() {
        return Err(
            difference("Different parameters in catch clause", cls1.to_string(), cls2.to_string()),
        );
    }
    compare_var_decl_list(&cls1.params, &cls2.params)?;
    compare_block(&cls1.body, &cls2.body)
}

/// Compares two `try` statements: the guarded expressions, the bodies,
/// the return variables, then the catch clauses.
pub fn compare_try_stmt(stmt1: &TryStmt, stmt2: &TryStmt) -> (res: Result<(), CompareError>)
    requires
        try_outcome(*stmt1, *stmt2) != Outcome::Unsupported,
        block_printable(stmt1.body),
        block_printable(stmt2.body),
        catches_printable(stmt1.catch_clauses@),
        catches_printable(stmt2.catch_clauses@),
    ensures
        res is Ok <==> try_outcome(*stmt1, *stmt2) == Outcome::Alike,
    decreases stmt1,
{
    compare_expr(&stmt1.guarded_expr, &stmt2.guarded_expr)?;
    compare_block(&stmt1.body, &stmt2.body)?;
    if stmt1.return_vars.len() != stmt2.return_vars.len() {
        return Err(
            difference("Different parameters in try statement", stmt1.to_string(), stmt2.to_string()),
        );
    }
    compare_var_decl_list(&stmt1.return_vars, &stmt2.return_vars)?;
    if stmt1.catch_clauses.len() != stmt2.catch_clauses.len() {
        return Err(
            difference(
                "Different catch clauses in try statements",
                stmt1.to_string(),
                stmt2.to_string(),
            ),
        );
    }
    let n = stmt1.catch_clauses.len();
    let ghost s1 = stmt1.catch_clauses@;
    let ghost s2 = stmt2.catch_clauses@;
    proof {
        lemma_catches(s1);
        lemma_catches(s2);
        assert(s1.subrange(0, n as int) =~= s1);
        assert(s2.subrange(0, n as int) =~= s2);
    }
    let mut i: usize = 0;
    while i < n
        invariant
            n == stmt1.catch_clauses.len(),
            n == stmt2.catch_clauses.len(),
            s1 == stmt1.catch_clauses@,
            s2 == stmt2.catch_clauses@,
            i <= n,
            forall|j: int| 0 <= j < n ==> block_printable(#[trigger] s1[j].body),
            forall|j: int| 0 <= j < n ==> block_printable(#[trigger] s2[j].body),
            catches_outcome(s1, s2) != Outcome::Unsupported,
            catches_outcome(s1, s2) == catches_outcome(
                s1.subrange(i as int, n as int),
                s2.subrange(i as int, n as int),
            ),
        decreases n - i,
    {
        let ghost r1 = s1.subrange(i as int, n as int);
        let ghost r2 = s2.subrange(i as int, n as int);
        assert(r1[0] == s1[i as int]);
        assert(r2[0] == s2[i as int]);
        assert(r1.subrange(1, r1.len() as int) =~= s1.subrange(i + 1, n as int));
        assert(r2.subrange(1, r2.len() as int) =~= s2.subrange(i + 1, n as int));
        compare_catch_clause(&stmt1.catch_clauses[i], &stmt2.catch_clauses[i])?;
        i = i + 1;
    }
    Ok(())
}

/// Compares two `if` statements: the conditions, the true branches, then
/// the false branches.
pub fn compare_if_stmt(stmt1: &IfStmt, stmt2: &IfStmt) -> (res: Result<(), CompareError>)
    requires
        if_outcome(*stmt1, *stmt2) != Outcome::Unsupported,
        stmt_printable(*stmt1.true_branch),
        stmt_printable(*stmt2.true_branch),
        opt_stmt_printable(stmt1.false_branch),
        opt_stmt_printable(stmt2.false_branch),
    ensures
        res is Ok <==> if_outcome(*stmt1, *stmt2) == Outcome::Alike,
    decreases stmt1,
{
    compare_expr(&stmt1.condition, &stmt2.condition)?;
    compare_stmt(&stmt1.true_branch, &stmt2.true_branch)?;
    compare_stmt_opt(&stmt1.false_branch, &stmt2.false_branch)
}

/// Compares two `for` loops: the conditions, the initializations, the
/// updates, then the bodies.
pub fn compare_for_stmt(s1: &ForStmt, s2: &ForStmt) -> (res: Result<(), CompareError>)
    requires
        for_outcome(*s1, *s2) != Outcome::Unsupported,
        opt_stmt_printable(s1.pre_loop),
        opt_stmt_printable(s2.pre_loop),
        opt_stmt_printable(s1.post_loop),
        opt_stmt_printable(s2.post_loop),
        stmt_printable(*s1.body),
        stmt_printable(*s2.body),
    ensures
        res is Ok <==> for_outcome(*s1, *s2) == Outcome::Alike,
    decreases s1,
{
    compare_expr_opt(&s1.condition, &s2.condition)?;
    compare_stmt_opt(&s1.pre_loop, &s2.pre_loop)?;
    compare_stmt_opt(&s1.post_loop, &s2.post_loop)?;
    compare_stmt(&s1.body, &s2.body)
}

/// Compares two `while` loops: the conditions, then the bodies.
pub fn compare_while_stmt(stmt1: &WhileStmt, stmt2: &WhileStmt) -> (res: Result<(), CompareError>)
    requires
        while_outcome(*stmt1, *stmt2) != Outcome::Unsupported,
        stmt_printable(*stmt1.body),
        stmt_printable(*stmt2.body),
    ensures
        res is Ok <==> while_outcome(*stmt1, *stmt2) == Outcome::Alike,
    decreases stmt1,
{
    compare_expr(&stmt1.condition, &stmt2.condition)?;
    compare_stmt(&stmt1.body, &stmt2.body)
}

/// Compares two `do ... while` loops: the conditions, then the bodies.
pub fn compare_do_while_stmt(stmt1: &DoWhileStmt, stmt2: &DoWhileStmt) -> (res: Result<
    (),
    CompareError,
>)
    requires
        do_while_outcome(*stmt1, *stmt2) != Outcome::Unsupported,
        stmt_printable(*stmt1.body),
        stmt_printable(*stmt2.body),
    ensures
        res is Ok <==> do_while_outcome(*stmt1, *stmt2) == Outcome::Alike,
    decreases stmt1,
{
    compare_expr(&stmt1.condition, &stmt2.condition)?;
    compare_stmt(&stmt1.body, &stmt2.body)
}

/// Compares two statements. Two inline assembly statements are not
/// compared.
pub fn compare_stmt(stmt1: &Stmt, stmt2: &Stmt) -> (res: Result<(), CompareError>)
    requires
        stmt_outcome(*stmt1, *stmt2) != Outcome::Unsupported,
        stmt_printable(*stmt1),
        stmt_printable(*stmt2),
    ensures
        res is Ok <==> stmt_outcome(*stmt1, *stmt2) == Outcome::Alike,
    decreases stmt1,
{
    match (stmt1, stmt2) {
        (Stmt::Block(a), Stmt::Block(b)) => compare_block(a, b),
        (Stmt::Break(a), Stmt::Break(b)) => compare_break_stmt(a, b),
        (Stmt::Continue(a), Stmt::Continue(b)) => compare_continue_stmt(a, b),
        (Stmt::DoWhile(a), Stmt::DoWhile(b)) => compare_do_while_stmt(a, b),
        (Stmt::Emit(a), Stmt::Emit(b)) => compare_emit_stmt(a, b),
        (Stmt::Expr(a), Stmt::Expr(b)) => compare_expr_stmt(a, b),
        (Stmt::For(a), Stmt::For(b)) => compare_for_stmt(a, b),
        (Stmt::If(a), Stmt::If(b)) => compare_if_stmt(a, b),
        (Stmt::Placeholder(a), Stmt::Placeholder(b)) => compare_place_holder_stmt(a, b),
        (Stmt::Return(a), Stmt::Return(b)) => compare_return_stmt(a, b),
        (Stmt::Revert(a), Stmt::Revert(b)) => compare_revert_stmt(a, b),
        (Stmt::Throw(a), Stmt::Throw(b)) => compare_throw_stmt(a, b),
        (Stmt::Try(a), Stmt::Try(b)) => compare_try_stmt(a, b),
        (Stmt::VarDecl(a), Stmt::VarDecl(b)) => compare_var_decl_stmt(a, b),
        (Stmt::While(a), Stmt::While(b)) => compare_while_stmt(a, b),
        _ => Err(difference("Different statements", stmt1.to_string(), stmt2.to_string())),
    }
}

//-------------------------------------------------------------------------
// Comparing functions, contracts and source units
//-------------------------------------------------------------------------

/// Compares two optional blocks: both absent, or both present and
/// compared.
pub fn compare_block_opt(blk1: &Option<Block>, blk2: &Option<Block>) -> (res: Result<
    (),
    CompareError,
>)
    requires
        opt_block_outcome(*blk1, *blk2) != Outcome::Unsupported,
        *blk1 matches Some(b) ==> block_printable(b),
        *blk2 matches Some(b) ==> block_printable(b),
    ensures
        res is Ok <==> opt_block_outcome(*blk1, *blk2) == Outcome::Alike,
{
    match (blk1, blk2) {
        (Some(b1), Some(b2)) => compare_block(b1, b2),
        (None, None) => Ok(()),
        _ => Err(failure_of("Different block", debug_text(blk1), debug_text(blk2))),
    }
}

/// Compares the modifier invocations of two functions, which are as many.
fn compare_modifier_invocs(ms1: &Vec<CallExpr>, ms2: &Vec<CallExpr>) -> (res: Result<
    (),
    CompareError,
>)
    requires
        ms1.len() == ms2.len(),
    ensures
        res is Ok <==> forall|i: int| 0 <= i < ms1@.len() ==> calls_alike(ms1@[i], ms2@[i]),
{
    let mut i: usize = 0;
    while i < ms1.len()
        invariant
            i <= ms1.len(),
            ms1.len() == ms2.len(),
            forall|j: int| 0 <= j < i ==> calls_alike(ms1@[j], ms2@[j]),
        decreases ms1.len() - i,
    {
        if let Err(e) = compare_call_expr(&ms1[i], &ms2[i]) {
            assert(!calls_alike(ms1@[i as int], ms2@[i as int]));
            return Err(e);
        }
        i = i + 1;
    }
    Ok(())
}

/// Compares two functions: their names, kinds, visibilities,
/// mutabilities, `virtual`, numbers of parameters, return variables and
/// modifier invocations; then those parameters, return variables and
/// invocations; then their `override` specifiers, then their bodies.
pub fn compare_func_def(f1: &FuncDef, f2: &FuncDef) -> (res: Result<(), CompareError>)
    requires
        func_outcome(*f1, *f2) != Outcome::Unsupported,
        func_printable(*f1),
        func_printable(*f2),
    ensures
        res is Ok <==> func_outcome(*f1, *f2) == Outcome::Alike,
{
    if let Err(e) = compare_name(&f1.name, &f2.name) {
        return Err(difference_by("Different function ", f1.to_string(), f2.to_string(), e));
    }
    if f1.kind != f2.kind {
        return Err(
            difference("Different function kind", f1.name.to_string(), f2.name.to_string()),
        );
    }
    if f1.visibility != f2.visibility {
        return Err(
            difference("Different function visibility", f1.name.to_string(), f2.name.to_string()),
        );
    }
    if f1.mutability != f2.mutability {
        return Err(
            difference("Different function mutability", f1.name.to_string(), f2.name.to_string()),
        );
    }
    if f1.is_virtual != f2.is_virtual {
        return Err(
            difference("Different function virtualilty", f1.name.to_string(), f2.name.to_string()),
        );
    }
    if f1.params.len() != f2.params.len() {
        return Err(
            difference("Different function parameters", f1.name.to_string(), f2.name.to_string()),
        );
    }
    if f1.return_vars.len() != f2.return_vars.len() {
        return Err(
            difference("Different function returns", f1.name.to_string(), f2.name.to_string()),
        );
    }
    if f1.modifier_invocs.len() != f2.modifier_invocs.len() {
        return Err(difference("Different function modifiers", f1.to_string(), f2.to_string()));
    }
    compare_var_decl_list(&f1.params, &f2.params)?;
    compare_var_decl_list(&f1.return_vars, &f2.return_vars)?;
    compare_modifier_invocs(&f1.modifier_invocs, &f2.modifier_invocs)?;
    match (&f1.overriding, &f2.overriding) {
        (Overriding::Listed(n1), Overriding::Listed(n2)) => {
            compare_names(n1, n2)?;
        },
        (Overriding::All, Overriding::All) => {},
        (Overriding::Unspecified, Overriding::Unspecified) => {},
        _ => {
            return Err(difference("Different function overrides", f1.to_string(), f2.to_string()));
        },
    }
    compare_block_opt(&f1.body, &f2.body)
}

/// Compares two contract elements.
pub fn compare_contract_elem(elem1: &ContractElem, elem2: &ContractElem) -> (res: Result<
    (),
    CompareError,
>)
    requires
        contract_elem_outcome(*elem1, *elem2) != Outcome::Unsupported,
        contract_elem_printable(*elem1),
        contract_elem_printable(*elem2),
    ensures
        res is Ok <==> contract_elem_outcome(*elem1, *elem2) == Outcome::Alike,
{
    match (elem1, elem2) {
        (ContractElem::Using(a), ContractElem::Using(b)) => compare_using_directive(a, b),
        (ContractElem::Event(a), ContractElem::Event(b)) => compare_event_definition(a, b),
        (ContractElem::Error(a), ContractElem::Error(b)) => compare_error_defitinion(a, b),
        (ContractElem::Struct(a), ContractElem::Struct(b)) => compare_struct_def(a, b),
        (ContractElem::Enum(a), ContractElem::Enum(b)) => compare_enum_def(a, b),
        (ContractElem::Type(a), ContractElem::Type(b)) => compare_user_defined_type_definition(a, b),
        (ContractElem::Var(a), ContractElem::Var(b)) => compare_var_decl(a, b),
        (ContractElem::Func(a), ContractElem::Func(b)) => compare_func_def(a, b),
        _ => Err(
            difference("Different contract elements", elem1.to_string(), elem2.to_string()),
        ),
    }
}

/// Compares two contracts: their names, kinds, `abstract`, numbers of base
/// contracts and elements, then the base contracts and the elements in
/// order.
pub fn compare_contract_def(ct1: &ContractDef, ct2: &ContractDef) -> (res: Result<
    (),
    CompareError,
>)
    requires
        contract_outcome(*ct1, *ct2) != Outcome::Unsupported,
        contract_printable(*ct1),
        contract_printable(*ct2),
    ensures
        res is Ok <==> contract_outcome(*ct1, *ct2) == Outcome::Alike,
{
    if let Err(e) = compare_name(&ct1.name, &ct2.name) {
        return Err(difference_by("Different contract name", ct1.to_string(), ct2.to_string(), e));
    }
    if ct1.kind != ct2.kind {
        return Err(difference("Different contract kind", ct1.to_string(), ct2.to_string()));
    }
    if ct1.is_abstract != ct2.is_abstract {
        return Err(
            difference("Different contract abstract type", ct1.to_string(), ct2.to_string()),
        );
    }
    if ct1.base_contracts.len() != ct2.base_contracts.len() {
        return Err(difference("Different contract bases", ct1.to_string(), ct2.to_string()));
    }
    if ct1.body.len() != ct2.body.len() {
        return Err(
            difference("Different number of contract elements", ct1.to_string(), ct2.to_string()),
        );
    }
    let mut i: usize = 0;
    while i < ct1.base_contracts.len()
        invariant
            i <= ct1.base_contracts.len(),
            ct1.base_contracts.len() == ct2.base_contracts.len(),
            forall|j: int|
                0 <= j < i ==> base_contracts_alike(ct1.base_contracts@[j], ct2.base_contracts@[j]),
        decreases ct1.base_contracts.len() - i,
    {
        if let Err(e) = compare_base_contract(&ct1.base_contracts[i], &ct2.base_contracts[i]) {
            assert(!base_contracts_alike(ct1.base_contracts@[i as int], ct2.base_contracts@[i as int]));
            return Err(e);
        }
        i = i + 1;
    }
    let n = ct1.body.len();
    let ghost s1 = ct1.body@;
    let ghost s2 = ct2.body@;
    assert(s1.subrange(0, n as int) =~= s1);
    assert(s2.subrange(0, n as int) =~= s2);
    let mut i: usize = 0;
    while i < n
        invariant
            n == ct1.body.len(),
            n == ct2.body.len(),
            s1 == ct1.body@,
            s2 == ct2.body@,
            i <= n,
            forall|j: int| 0 <= j < n ==> contract_elem_printable(#[trigger] s1[j]),
            forall|j: int| 0 <= j < n ==> contract_elem_printable(#[trigger] s2[j]),
            contract_elems_outcome(s1, s2) != Outcome::Unsupported,
            contract_elems_outcome(s1, s2) == contract_elems_outcome(
                s1.subrange(i as int, n as int),
                s2.subrange(i as int, n as int),
            ),
        decreases n - i,
    {
        let ghost r1 = s1.subrange(i as int, n as int);
        let ghost r2 = s2.subrange(i as int, n as int);
        assert(r1[0] == s1[i as int]);
        assert(r2[0] == s2[i as int]);
        assert(r1.subrange(1, r1.len() as int) =~= s1.subrange(i + 1, n as int));
        assert(r2.subrange(1, r2.len() as int) =~= s2.subrange(i + 1, n as int));
        compare_contract_elem(&ct1.body[i], &ct2.body[i])?;
        i = i + 1;
    }
    Ok(())
}

/// Compares two source unit elements.
pub fn compare_source_unit_elem(elem1: &SourceUnitElem, elem2: &SourceUnitElem) -> (res: Result<
    (),
    CompareError,
>)
    requires
        source_elem_outcome(*elem1, *elem2) != Outcome::Unsupported,
        elem_printable(*elem1),
        elem_printable(*elem2),
    ensures
        res is Ok <==> source_elem_outcome(*elem1, *elem2) == Outcome::Alike,
{
    match (elem1, elem2) {
        (SourceUnitElem::Pragma(a), SourceUnitElem::Pragma(b)) => compare_pragma_directive(a, b),
        (SourceUnitElem::Import(a), SourceUnitElem::Import(b)) => compare_import_directive(a, b),
        (SourceUnitElem::Using(a), SourceUnitElem::Using(b)) => compare_using_directive(a, b),
        (SourceUnitElem::Error(a), SourceUnitElem::Error(b)) => compare_error_defitinion(a, b),
        (SourceUnitElem::Func(a), SourceUnitElem::Func(b)) => compare_func_def(a, b),
        (SourceUnitElem::Var(a), SourceUnitElem::Var(b)) => compare_var_decl(a, b),
        (SourceUnitElem::UserType(a), SourceUnitElem::UserType(b)) => compare_user_defined_type_definition(
            a,
            b,
        ),
        (SourceUnitElem::Struct(a), SourceUnitElem::Struct(b)) => compare_struct_def(a, b),
        (SourceUnitElem::Enum(a), SourceUnitElem::Enum(b)) => compare_enum_def(a, b),
        (SourceUnitElem::Contract(a), SourceUnitElem::Contract(b)) => compare_contract_def(a, b),
        _ => Err(
            difference("Different source unit element", elem1.to_string(), elem2.to_string()),
        ),
    }
}

/// Compares two source units: the numbers of elements, then the elements
/// in order.
pub fn compare_source_unit(sunit1: &SourceUnit, sunit2: &SourceUnit) -> (res: Result<
    (),
    CompareError,
>)
    requires
        source_unit_outcome(*sunit1, *sunit2) != Outcome::Unsupported,
        source_unit_printable(*sunit1),
        source_unit_printable(*sunit2),
    ensures
        res is Ok <==> source_unit_outcome(*sunit1, *sunit2) == Outcome::Alike,
{
    if sunit1.elems.len() != sunit2.elems.len() {
        return Err(
            difference(
                "Different number of source unit elements",
                sunit1.to_string(),
                sunit2.to_string(),
            ),
        );
    }
    let n = sunit1.elems.len();
    let ghost s1 = sunit1.elems@;
    let ghost s2 = sunit2.elems@;
    assert(s1.subrange(0, n as int) =~= s1);
    assert(s2.subrange(0, n as int) =~= s2);
    let mut i: usize = 0;
    while i < n
        invariant
            n == sunit1.elems.len(),
            n == sunit2.elems.len(),
            s1 == sunit1.elems@,
            s2 == sunit2.elems@,
            i <= n,
            forall|j: int| 0 <= j < n ==> elem_printable(#[trigger] s1[j]),
            forall|j: int| 0 <= j < n ==> elem_printable(#[trigger] s2[j]),
            source_elems_outcome(s1, s2) != Outcome::Unsupported,
            source_elems_outcome(s1, s2) == source_elems_outcome(
                s1.subrange(i as int, n as int),
                s2.subrange(i as int, n as int),
            ),
        decreases n - i,
    {
        let ghost r1 = s1.subrange(i as int, n as int);
        let ghost r2 = s2.subrange(i as int, n as int);
        assert(r1[0] == s1[i as int]);
        assert(r2[0] == s2[i as int]);
        assert(r1.subrange(1, r1.len() as int) =~= s1.subrange(i + 1, n as int));
        assert(r2.subrange(1, r2.len() as int) =~= s2.subrange(i + 1, n as int));
        compare_source_unit_elem(&sunit1.elems[i], &sunit2.elems[i])?;
        i = i + 1;
    }
    Ok(())
}

//-------------------------------------------------------------------------
// Laws
//-------------------------------------------------------------------------

/// Every type is alike to itself.
pub proof fn lemma_types_alike_reflexive(t: Type)
    ensures
        types_alike(t, t),
    decreases t,
{
    match t {
        Type::Array { base, .. } => lemma_types_alike_reflexive(*base),
        Type::Mapping { key, value } => {
            lemma_types_alike_reflexive(*key);
            lemma_types_alike_reflexive(*value);
        },
        _ => {},
    }
}

/// Two types are alike in either order.
pub proof fn lemma_types_alike_symmetric(t1: Type, t2: Type)
    ensures
        types_alike(t1, t2) == types_alike(t2, t1),
    decreases t1,
{
    match (t1, t2) {
        (Type::Array { base: b1, .. }, Type::Array { base: b2, .. }) => lemma_types_alike_symmetric(
            *b1,
            *b2,
        ),
        (Type::Mapping { key: k1, value: v1 }, Type::Mapping { key: k2, value: v2 }) => {
            lemma_types_alike_symmetric(*k1, *k2);
            lemma_types_alike_symmetric(*v1, *v2);
        },
        _ => {},
    }
}

/// Every literal is alike to itself.
pub proof fn lemma_lits_alike_reflexive(l: Lit)
    ensures
        lits_alike(l, l),
{
    match l {
        Lit::Bool(a) => lemma_types_alike_reflexive(a.typ),
        Lit::Num(a) => lemma_types_same_reflexive(num_type_of(a.value)),
        Lit::String(a) => lemma_types_alike_reflexive(a.typ),
        Lit::Hex(a) => lemma_types_alike_reflexive(a.typ),
        Lit::Unicode(a) => lemma_types_alike_reflexive(a.typ),
    }
}

/// Two literals are alike in either order.
pub proof fn lemma_lits_alike_symmetric(l1: Lit, l2: Lit)
    ensures
        lits_alike(l1, l2) == lits_alike(l2, l1),
{
    match (l1, l2) {
        (Lit::Bool(a), Lit::Bool(b)) => lemma_types_alike_symmetric(a.typ, b.typ),
        (Lit::Num(a), Lit::Num(b)) => lemma_types_same_symmetric(num_type_of(a.value), num_type_of(b.value)),
        (Lit::String(a), Lit::String(b)) => lemma_types_alike_symmetric(a.typ, b.typ),
        (Lit::Hex(a), Lit::Hex(b)) => lemma_types_alike_symmetric(a.typ, b.typ),
        (Lit::Unicode(a), Lit::Unicode(b)) => lemma_types_alike_symmetric(a.typ, b.typ),
        _ => {},
    }
}

/// The type of a number value.
pub open spec fn num_type_of(n: Num) -> Type {
    match n {
        Num::Int(a) => a.typ,
        Num::FixedNum(a) => a.typ,
        Num::Hex(a) => a.typ,
    }
}

proof fn lemma_types_same_reflexive(t: Type)
    ensures
        types_same(t, t),
    decreases t,
{
    match t {
        Type::Array { base, .. } => lemma_types_same_reflexive(*base),
        Type::Mapping { key, value } => {
            lemma_types_same_reflexive(*key);
            lemma_types_same_reflexive(*value);
        },
        _ => {},
    }
}

proof fn lemma_types_same_symmetric(t1: Type, t2: Type)
    ensures
        types_same(t1, t2) == types_same(t2, t1),
    decreases t1,
{
    match (t1, t2) {
        (Type::Array { base: b1, .. }, Type::Array { base: b2, .. }) => lemma_types_same_symmetric(
            *b1,
            *b2,
        ),
        (Type::Mapping { key: k1, value: v1 }, Type::Mapping { key: k2, value: v2 }) => {
            lemma_types_same_symmetric(*k1, *k2);
            lemma_types_same_symmetric(*v1, *v2);
        },
        _ => {},
    }
}

/// Every expression is alike to itself: comparing an expression with
/// itself succeeds.
pub proof fn lemma_exprs_alike_reflexive(e: Expr)
    ensures
        exprs_alike(e, e),
    decreases e,
{
    match e {
        Expr::Lit(l) => {
            lemma_lits_alike_reflexive(l);
        },
        Expr::Unary(a) => lemma_exprs_alike_reflexive(*a.body),
        Expr::Binary(a) => {
            lemma_exprs_alike_reflexive(*a.left);
            lemma_exprs_alike_reflexive(*a.right);
        },
        Expr::Assign(a) => {
            lemma_exprs_alike_reflexive(*a.left);
            lemma_exprs_alike_reflexive(*a.right);
        },
        Expr::Call(c) => {
            lemma_exprs_alike_reflexive(*c.callee);
            match c.args {
                CallArgs::Unnamed(xs) => {
                    assert forall|i: int| 0 <= i < xs@.len() implies exprs_alike(xs@[i], xs@[i]) by {
                        lemma_exprs_alike_reflexive(xs@[i]);
                    }
                },
                CallArgs::Named(xs) => {
                    assert forall|i: int| 0 <= i < xs@.len() implies exprs_alike(
                        xs@[i].value,
                        xs@[i].value,
                    ) by {
                        lemma_exprs_alike_reflexive(xs@[i].value);
                    }
                },
            }
            assert(args_alike(c.args, c.args));
            assert(calls_alike(c, c));
        },
        Expr::CallOpts(a) => {
            lemma_exprs_alike_reflexive(*a.callee);
            assert forall|i: int| 0 <= i < a.call_opts@.len() implies exprs_alike(
                a.call_opts@[i].value,
                a.call_opts@[i].value,
            ) by {
                lemma_exprs_alike_reflexive(a.call_opts@[i].value);
            }
            assert(call_opts_alike(a.call_opts@, a.call_opts@));
        },
        Expr::Tuple(a) => {
            assert forall|i: int| 0 <= i < a.elems@.len() implies opt_exprs_alike(
                a.elems@[i],
                a.elems@[i],
            ) by {
                match a.elems@[i] {
                    Some(x) => lemma_exprs_alike_reflexive(x),
                    None => {},
                }
            }
            assert(opt_expr_seqs_alike(a.elems@, a.elems@));
        },
        Expr::Index(a) => {
            lemma_exprs_alike_reflexive(*a.base_expr);
            match a.index {
                Some(x) => lemma_exprs_alike_reflexive(*x),
                None => {},
            }
            assert(boxed_alike(a.index, a.index));
        },
        Expr::Slice(a) => {
            lemma_exprs_alike_reflexive(*a.base_expr);
            match a.start_index {
                Some(x) => lemma_exprs_alike_reflexive(*x),
                None => {},
            }
            match a.end_index {
                Some(x) => lemma_exprs_alike_reflexive(*x),
                None => {},
            }
            assert(boxed_alike(a.start_index, a.start_index));
            assert(boxed_alike(a.end_index, a.end_index));
        },
        Expr::Member(a) => lemma_exprs_alike_reflexive(*a.base),
        Expr::Conditional(a) => {
            lemma_exprs_alike_reflexive(*a.cond);
            lemma_exprs_alike_reflexive(*a.true_br);
            lemma_exprs_alike_reflexive(*a.false_br);
        },
        Expr::InlineArray(a) => {
            assert forall|i: int| 0 <= i < a.elems@.len() implies exprs_alike(
                a.elems@[i],
                a.elems@[i],
            ) by {
                lemma_exprs_alike_reflexive(a.elems@[i]);
            }
            assert(expr_seqs_alike(a.elems@, a.elems@));
        },
        Expr::New(a) => lemma_types_alike_reflexive(a.typ),
        Expr::TypeName(a) => lemma_types_alike_reflexive(a.typ),
        Expr::Ident(_) => {},
    }
}

/// Whether an expression holds no type expression (`new T`, a type name)
/// and no call with options: the parts whose text a comparison does not
/// follow character by character.
pub open spec fn plain_expr(e: Expr) -> bool
    decreases e,
{
    match e {
        Expr::Ident(_) => true,
        Expr::Lit(_) => true,
        Expr::Unary(u) => plain_expr(*u.body),
        Expr::Binary(b) => plain_expr(*b.left) && plain_expr(*b.right),
        Expr::Assign(a) => plain_expr(*a.left) && plain_expr(*a.right),
        Expr::Call(c) => c.call_opts@.len() == 0 && plain_expr(*c.callee) && plain_args(c.args),
        Expr::CallOpts(c) => plain_expr(*c.callee) && plain_call_opts(c.call_opts@),
        Expr::Tuple(t) => plain_opt_exprs(t.elems@),
        Expr::Index(i) => plain_expr(*i.base_expr) && plain_boxed(i.index),
        Expr::Slice(x) => plain_expr(*x.base_expr) && plain_boxed(x.start_index) && plain_boxed(
            x.end_index,
        ),
        Expr::Member(m) => plain_expr(*m.base),
        Expr::Conditional(c) => plain_expr(*c.cond) && plain_expr(*c.true_br) && plain_expr(
            *c.false_br,
        ),
        Expr::InlineArray(a) => plain_exprs(a.elems@),
        Expr::New(_) => false,
        Expr::TypeName(_) => false,
    }
}

/// An absent expression, or a plain one.
pub open spec fn plain_boxed(e: Option<Box<Expr>>) -> bool
    decreases e,
{
    match e {
        Some(x) => plain_expr(*x),
        None => true,
    }
}

/// Plain expressions.
pub open spec fn plain_exprs(s: Seq<Expr>) -> bool
    decreases s,
{
    forall|i: int| 0 <= i < s.len() ==> plain_expr(s[i])
}

/// Plain or left-out components.
pub open spec fn plain_opt_exprs(s: Seq<Option<Expr>>) -> bool
    decreases s,
{
    forall|i: int| 0 <= i < s.len() ==> (#[trigger] s[i] matches Some(x) ==> plain_expr(x))
}

/// Call options with plain values.
pub open spec fn plain_call_opts(s: Seq<CallOpt>) -> bool
    decreases s,
{
    forall|i: int| 0 <= i < s.len() ==> plain_expr(s[i].value)
}

/// Plain arguments.
pub open spec fn plain_args(a: CallArgs) -> bool
    decreases a,
{
    match a {
        CallArgs::Unnamed(x) => plain_exprs(x@),
        CallArgs::Named(x) => forall|i: int| 0 <= i < x@.len() ==> plain_expr(x@[i].value),
    }
}

/// Alike plain expressions print the same text: a comparison that
/// succeeds has followed every part of the two expressions that is printed,
/// from names and literals to operators and the order of operands.
pub proof fn lemma_alike_exprs_print_alike(e1: Expr, e2: Expr)
    requires
        exprs_alike(e1, e2),
        plain_expr(e1),
        plain_expr(e2),
    ensures
        expr_text(e1) == expr_text(e2),
    decreases e1,
{
    match (e1, e2) {
        (Expr::Ident(a), Expr::Ident(b)) => {
            assert(expr_text(e1) == expr_text(e2));
            assert(expr_text(e1) == expr_text(e2));
        },
        (Expr::Lit(a), Expr::Lit(b)) => {
            assert(expr_text(e1) == expr_text(e2));
            assert(expr_text(e1) == expr_text(e2));
        },
        (Expr::Unary(a), Expr::Unary(b)) => {
            lemma_alike_exprs_print_alike(*a.body, *b.body);
            assert(expr_text(e1) == expr_text(e2));
        },
        (Expr::Binary(a), Expr::Binary(b)) => {
            lemma_alike_exprs_print_alike(*a.left, *b.left);
            lemma_alike_exprs_print_alike(*a.right, *b.right);
            assert(expr_text(e1) == expr_text(e2));
        },
        (Expr::Assign(a), Expr::Assign(b)) => {
            lemma_alike_exprs_print_alike(*a.left, *b.left);
            lemma_alike_exprs_print_alike(*a.right, *b.right);
            assert(expr_text(e1) == expr_text(e2));
        },
        (Expr::Call(a), Expr::Call(b)) => {
            assert(calls_alike(a, b));
            assert(exprs_alike(*a.callee, *b.callee) && args_alike(a.args, b.args));
            assert(plain_args(a.args) && plain_args(b.args));
            lemma_alike_exprs_print_alike(*a.callee, *b.callee);
            match (a.args, b.args) {
                (CallArgs::Unnamed(x), CallArgs::Unnamed(y)) => {
                    assert(expr_seqs_alike(x@, y@));
                    assert(plain_exprs(x@) && plain_exprs(y@));
                    assert forall|i: int| 0 <= i < x@.len() implies expr_text(x@[i]) == expr_text(
                        y@[i],
                    ) by {
                        assert(exprs_alike(x@[i], y@[i]));
                        assert(plain_expr(x@[i]) && plain_expr(y@[i]));
                        assert(decreases_to!(e1 => x@[i])) by {
                            assert(decreases_to!(e1 => a));
                            assert(decreases_to!(a => a.args));
                            assert(decreases_to!(a.args => x));
                            assert(decreases_to!(x => x@));
                        }
                        lemma_alike_exprs_print_alike(x@[i], y@[i]);
                    }
                    lemma_exprs_text(x@);
                    lemma_exprs_text(y@);
                    assert(exprs_text(x@) =~= exprs_text(y@));
                    assert(args_text(a.args) == args_text(b.args));
                },
                (CallArgs::Named(x), CallArgs::Named(y)) => {
                    assert(named_args_alike(x@, y@));
                    assert forall|i: int| 0 <= i < x@.len() implies expr_text(x@[i].value)
                        == expr_text(y@[i].value) by {
                        assert(exprs_alike(x@[i].value, y@[i].value));
                        assert(plain_expr(x@[i].value) && plain_expr(y@[i].value));
                        assert(decreases_to!(e1 => x@[i].value)) by {
                            assert(decreases_to!(e1 => a));
                            assert(decreases_to!(a => a.args));
                            assert(decreases_to!(a.args => x));
                            assert(decreases_to!(x => x@));
                            assert(decreases_to!(x@ => x@[i]));
                        }
                        lemma_alike_exprs_print_alike(x@[i].value, y@[i].value);
                    }
                    lemma_named_args_text(x@);
                    lemma_named_args_text(y@);
                    assert(named_args_text(x@) =~= named_args_text(y@));
                    assert(args_text(a.args) == args_text(b.args));
                },
                _ => {},
            }
            assert(a.call_opts@.len() == 0 && b.call_opts@.len() == 0);
            assert(expr_text(e1) == expr_text(e2));
        },
        (Expr::CallOpts(a), Expr::CallOpts(b)) => {
            assert(call_opts_alike(a.call_opts@, b.call_opts@));
            assert(plain_call_opts(a.call_opts@) && plain_call_opts(b.call_opts@));
            lemma_alike_exprs_print_alike(*a.callee, *b.callee);
            assert forall|i: int| 0 <= i < a.call_opts@.len() implies expr_text(
                a.call_opts@[i].value,
            ) == expr_text(b.call_opts@[i].value) by {
                assert(exprs_alike(a.call_opts@[i].value, b.call_opts@[i].value));
                assert(plain_expr(a.call_opts@[i].value) && plain_expr(b.call_opts@[i].value));
                assert(decreases_to!(e1 => a.call_opts@[i].value)) by {
                    assert(decreases_to!(e1 => a));
                    assert(decreases_to!(a => a.call_opts));
                    assert(decreases_to!(a.call_opts => a.call_opts@));
                    assert(decreases_to!(a.call_opts@ => a.call_opts@[i]));
                }
                lemma_alike_exprs_print_alike(a.call_opts@[i].value, b.call_opts@[i].value);
            }
            lemma_call_opts_text(a.call_opts@);
            lemma_call_opts_text(b.call_opts@);
            assert(call_opts_text(a.call_opts@) =~= call_opts_text(b.call_opts@));
            assert(expr_text(e1) == expr_text(e2));
        },
        (Expr::Tuple(a), Expr::Tuple(b)) => {
            assert(opt_expr_seqs_alike(a.elems@, b.elems@));
            assert(plain_opt_exprs(a.elems@) && plain_opt_exprs(b.elems@));
            assert forall|i: int| 0 <= i < a.elems@.len() implies (match #[trigger] a.elems@[i] {
                Some(x) => expr_text(x),
                None => Seq::<char>::empty(),
            }) == (match b.elems@[i] {
                Some(x) => expr_text(x),
                None => Seq::<char>::empty(),
            }) by {
                assert(opt_exprs_alike(a.elems@[i], b.elems@[i]));
                match (a.elems@[i], b.elems@[i]) {
                    (Some(x), Some(y)) => {
                        assert(exprs_alike(x, y));
                        assert(plain_expr(x) && plain_expr(y));
                        assert(decreases_to!(e1 => x)) by {
                            assert(decreases_to!(e1 => a));
                            assert(decreases_to!(a => a.elems));
                            assert(decreases_to!(a.elems => a.elems@));
                            assert(decreases_to!(a.elems@ => a.elems@[i]));
                        }
                        lemma_alike_exprs_print_alike(x, y);
                    },
                    _ => {},
                }
            }
            lemma_opt_exprs_text(a.elems@);
            lemma_opt_exprs_text(b.elems@);
            assert(opt_exprs_text(a.elems@) =~= opt_exprs_text(b.elems@));
            assert(expr_text(e1) == expr_text(e2));
        },
        (Expr::Index(a), Expr::Index(b)) => {
            assert(exprs_alike(*a.base_expr, *b.base_expr) && boxed_alike(a.index, b.index));
            assert(plain_expr(*a.base_expr) && plain_boxed(a.index));
            assert(plain_expr(*b.base_expr) && plain_boxed(b.index));
            lemma_alike_exprs_print_alike(*a.base_expr, *b.base_expr);
            match (a.index, b.index) {
                (Some(x), Some(y)) => {
                    assert(exprs_alike(*x, *y) && plain_expr(*x) && plain_expr(*y));
                    lemma_alike_exprs_print_alike(*x, *y);
                },
                _ => {},
            }
            assert(expr_text(e1) == expr_text(e2));
        },
        (Expr::Slice(a), Expr::Slice(b)) => {
            assert(exprs_alike(*a.base_expr, *b.base_expr) && boxed_alike(a.start_index, b.start_index)
                && boxed_alike(a.end_index, b.end_index));
            assert(plain_expr(*a.base_expr) && plain_boxed(a.start_index) && plain_boxed(a.end_index));
            assert(plain_expr(*b.base_expr) && plain_boxed(b.start_index) && plain_boxed(b.end_index));
            lemma_alike_exprs_print_alike(*a.base_expr, *b.base_expr);
            match (a.start_index, b.start_index) {
                (Some(x), Some(y)) => {
                    assert(exprs_alike(*x, *y) && plain_expr(*x) && plain_expr(*y));
                    lemma_alike_exprs_print_alike(*x, *y);
                },
                _ => {},
            }
            match (a.end_index, b.end_index) {
                (Some(x), Some(y)) => {
                    assert(exprs_alike(*x, *y) && plain_expr(*x) && plain_expr(*y));
                    lemma_alike_exprs_print_alike(*x, *y);
                },
                _ => {},
            }
            assert(expr_text(e1) == expr_text(e2));
        },
        (Expr::Member(a), Expr::Member(b)) => {
            lemma_alike_exprs_print_alike(*a.base, *b.base);
            assert(expr_text(e1) == expr_text(e2));
        },
        (Expr::Conditional(a), Expr::Conditional(b)) => {
            lemma_alike_exprs_print_alike(*a.cond, *b.cond);
            lemma_alike_exprs_print_alike(*a.true_br, *b.true_br);
            lemma_alike_exprs_print_alike(*a.false_br, *b.false_br);
            assert(expr_text(e1) == expr_text(e2));
        },
        (Expr::InlineArray(a), Expr::InlineArray(b)) => {
            assert(expr_seqs_alike(a.elems@, b.elems@));
            assert(plain_exprs(a.elems@) && plain_exprs(b.elems@));
            assert forall|i: int| 0 <= i < a.elems@.len() implies expr_text(a.elems@[i]) == expr_text(
                b.elems@[i],
            ) by {
                assert(exprs_alike(a.elems@[i], b.elems@[i]));
                assert(plain_expr(a.elems@[i]) && plain_expr(b.elems@[i]));
                assert(decreases_to!(e1 => a.elems@[i])) by {
                    assert(decreases_to!(e1 => a));
                    assert(decreases_to!(a => a.elems));
                    assert(decreases_to!(a.elems => a.elems@));
                }
                lemma_alike_exprs_print_alike(a.elems@[i], b.elems@[i]);
            }
            lemma_exprs_text(a.elems@);
            lemma_exprs_text(b.elems@);
            assert(exprs_text(a.elems@) =~= exprs_text(b.elems@));
        },
        _ => {},
    }
}

/// Alike plain argument lists print the same text.
pub proof fn lemma_alike_args_print_alike(a1: CallArgs, a2: CallArgs)
    requires
        args_alike(a1, a2),
        plain_args(a1),
        plain_args(a2),
    ensures
        args_text(a1) == args_text(a2),
{
    match (a1, a2) {
        (CallArgs::Unnamed(x), CallArgs::Unnamed(y)) => {
            assert(expr_seqs_alike(x@, y@));
            assert(plain_exprs(x@) && plain_exprs(y@));
            assert forall|i: int| 0 <= i < x@.len() implies expr_text(x@[i]) == expr_text(y@[i]) by {
                assert(exprs_alike(x@[i], y@[i]));
                assert(plain_expr(x@[i]) && plain_expr(y@[i]));
                lemma_alike_exprs_print_alike(x@[i], y@[i]);
            }
            lemma_exprs_text(x@);
            lemma_exprs_text(y@);
            assert(exprs_text(x@) =~= exprs_text(y@));
        },
        (CallArgs::Named(x), CallArgs::Named(y)) => {
            assert(named_args_alike(x@, y@));
            assert forall|i: int| 0 <= i < x@.len() implies expr_text(x@[i].value) == expr_text(
                y@[i].value,
            ) by {
                assert(exprs_alike(x@[i].value, y@[i].value));
                assert(plain_expr(x@[i].value) && plain_expr(y@[i].value));
                lemma_alike_exprs_print_alike(x@[i].value, y@[i].value);
            }
            lemma_named_args_text(x@);
            lemma_named_args_text(y@);
            assert(named_args_text(x@) =~= named_args_text(y@));
        },
        _ => {},
    }
}

/// Alike plain optional expressions print the same text.
proof fn lemma_alike_opt_exprs_print_alike(e1: Option<Expr>, e2: Option<Expr>)
    requires
        opt_exprs_alike(e1, e2),
        e1 matches Some(x) ==> plain_expr(x),
        e2 matches Some(x) ==> plain_expr(x),
    ensures
        e1 is Some <==> e2 is Some,
        e1 matches Some(x) ==> expr_text(x) == expr_text(e2->0),
{
    match (e1, e2) {
        (Some(x), Some(y)) => lemma_alike_exprs_print_alike(x, y),
        _ => {},
    }
}

/// Whether a statement declares nothing and holds no inline assembly, no
/// `try` and only plain expressions: the statements whose text a
/// comparison follows character by character.
pub open spec fn plain_stmt(s: Stmt) -> bool
    decreases s,
{
    match s {
        Stmt::Asm(_) => false,
        Stmt::Block(b) => plain_stmts(b.body@),
        Stmt::Break(_) => true,
        Stmt::Continue(_) => true,
        Stmt::DoWhile(d) => plain_expr(d.condition) && plain_stmt(*d.body),
        Stmt::Emit(e) => plain_expr(e.event) && plain_args(e.args),
        Stmt::Expr(e) => plain_expr(e.expr),
        Stmt::For(f) => plain_opt_stmt(f.pre_loop) && (f.condition matches Some(c) ==> plain_expr(c))
            && plain_opt_stmt(f.post_loop) && plain_stmt(*f.body),
        Stmt::If(i) => plain_expr(i.condition) && plain_stmt(*i.true_branch) && plain_opt_stmt(
            i.false_branch,
        ),
        Stmt::Placeholder(_) => true,
        Stmt::Return(r) => r.expr matches Some(e) ==> plain_expr(e),
        Stmt::Revert(r) => (r.error matches Some(e) ==> plain_expr(e)) && plain_args(r.args),
        Stmt::Throw(_) => true,
        Stmt::Try(_) => false,
        Stmt::VarDecl(_) => false,
        Stmt::While(w) => plain_expr(w.condition) && plain_stmt(*w.body),
    }
}

/// An absent statement, or a plain one.
pub open spec fn plain_opt_stmt(s: Option<Box<Stmt>>) -> bool
    decreases s,
{
    match s {
        Some(x) => plain_stmt(*x),
        None => true,
    }
}

/// Plain statements.
pub open spec fn plain_stmts(s: Seq<Stmt>) -> bool
    decreases s,
{
    forall|i: int| 0 <= i < s.len() ==> plain_stmt(#[trigger] s[i])
}

/// Statements of the same number compare alike exactly when each pair does.
proof fn lemma_stmts_outcome_alike(s1: Seq<Stmt>, s2: Seq<Stmt>)
    requires
        s1.len() == s2.len(),
        stmts_outcome(s1, s2) == Outcome::Alike,
    ensures
        forall|i: int| 0 <= i < s1.len() ==> stmt_outcome(#[trigger] s1[i], s2[i]) == Outcome::Alike,
    decreases s1.len(),
{
    if s1.len() > 0 {
        let r1 = s1.subrange(1, s1.len() as int);
        let r2 = s2.subrange(1, s2.len() as int);
        lemma_stmts_outcome_alike(r1, r2);
        assert forall|i: int| 0 <= i < s1.len() implies stmt_outcome(#[trigger] s1[i], s2[i])
            == Outcome::Alike by {
            if i > 0 {
                assert(r1[i - 1] == s1[i] && r2[i - 1] == s2[i]);
            }
        }
    }
}

/// Alike plain optional statements print the same text.
proof fn lemma_alike_opt_stmts_print_alike(x: Option<Box<Stmt>>, y: Option<Box<Stmt>>)
    requires
        opt_stmt_outcome(x, y) == Outcome::Alike,
        plain_opt_stmt(x),
        plain_opt_stmt(y),
    ensures
        x is Some <==> y is Some,
        x matches Some(p) ==> stmt_text(*p) == stmt_text(*y->0),
    decreases x, 0int,
{
    match (x, y) {
        (Some(p), Some(q)) => {
            assert(stmt_outcome(*p, *q) == Outcome::Alike);
            assert(plain_stmt(*p) && plain_stmt(*q));
            lemma_alike_stmts_print_alike(*p, *q);
        },
        _ => {},
    }
}

/// Alike plain blocks print the same text.
proof fn lemma_alike_blocks_print_alike(a: Block, b: Block)
    requires
        block_outcome(a, b) == Outcome::Alike,
        plain_stmts(a.body@),
        plain_stmts(b.body@),
    ensures
        block_text(a) == block_text(b),
    decreases a, 0int,
{
    assert(a.unchecked == b.unchecked && a.body@.len() == b.body@.len());
    assert(stmts_outcome(a.body@, b.body@) == Outcome::Alike);
    lemma_stmts_outcome_alike(a.body@, b.body@);
    assert forall|i: int| 0 <= i < a.body@.len() implies stmt_text(a.body@[i]) == stmt_text(
        b.body@[i],
    ) by {
        assert(stmt_outcome(a.body@[i], b.body@[i]) == Outcome::Alike);
        assert(plain_stmt(a.body@[i]) && plain_stmt(b.body@[i]));
        assert(decreases_to!(a => a.body@[i])) by {
            assert(decreases_to!(a => a.body));
            assert(decreases_to!(a.body => a.body@));
        }
        lemma_alike_stmts_print_alike(a.body@[i], b.body@[i]);
    }
    lemma_stmts(a.body@);
    lemma_stmts(b.body@);
    assert(stmts_text(a.body@) =~= stmts_text(b.body@));
}

/// Alike plain `for` loops print the same text.
proof fn lemma_alike_fors_print_alike(a: ForStmt, b: ForStmt)
    requires
        for_outcome(a, b) == Outcome::Alike,
        plain_stmt(Stmt::For(a)),
        plain_stmt(Stmt::For(b)),
    ensures
        stmt_text(Stmt::For(a)) == stmt_text(Stmt::For(b)),
    decreases a, 0int,
{
    assert(opt_exprs_alike(a.condition, b.condition));
    assert(opt_stmt_outcome(a.pre_loop, b.pre_loop) == Outcome::Alike);
    assert(opt_stmt_outcome(a.post_loop, b.post_loop) == Outcome::Alike);
    assert(stmt_outcome(*a.body, *b.body) == Outcome::Alike);
    assert(plain_opt_stmt(a.pre_loop) && plain_opt_stmt(a.post_loop) && plain_stmt(*a.body));
    assert(plain_opt_stmt(b.pre_loop) && plain_opt_stmt(b.post_loop) && plain_stmt(*b.body));
    lemma_alike_opt_exprs_print_alike(a.condition, b.condition);
    lemma_alike_opt_stmts_print_alike(a.pre_loop, b.pre_loop);
    lemma_alike_opt_stmts_print_alike(a.post_loop, b.post_loop);
    lemma_alike_stmts_print_alike(*a.body, *b.body);
}

/// Alike plain `if` statements print the same text.
proof fn lemma_alike_ifs_print_alike(a: IfStmt, b: IfStmt)
    requires
        if_outcome(a, b) == Outcome::Alike,
        plain_stmt(Stmt::If(a)),
        plain_stmt(Stmt::If(b)),
    ensures
        stmt_text(Stmt::If(a)) == stmt_text(Stmt::If(b)),
    decreases a, 0int,
{
    assert(exprs_alike(a.condition, b.condition));
    assert(stmt_outcome(*a.true_branch, *b.true_branch) == Outcome::Alike);
    assert(opt_stmt_outcome(a.false_branch, b.false_branch) == Outcome::Alike);
    assert(plain_expr(a.condition) && plain_stmt(*a.true_branch) && plain_opt_stmt(a.false_branch));
    assert(plain_expr(b.condition) && plain_stmt(*b.true_branch) && plain_opt_stmt(b.false_branch));
    lemma_alike_exprs_print_alike(a.condition, b.condition);
    lemma_alike_stmts_print_alike(*a.true_branch, *b.true_branch);
    lemma_alike_opt_stmts_print_alike(a.false_branch, b.false_branch);
}

/// Alike plain statements print the same text: a comparison that finds
/// two statements alike has followed every printed part of them.
pub proof fn lemma_alike_stmts_print_alike(s1: Stmt, s2: Stmt)
    requires
        stmt_outcome(s1, s2) == Outcome::Alike,
        plain_stmt(s1),
        plain_stmt(s2),
    ensures
        stmt_text(s1) == stmt_text(s2),
    decreases s1, 1int,
{
    match (s1, s2) {
        (Stmt::Block(a), Stmt::Block(b)) => {
            lemma_alike_blocks_print_alike(a, b);
        },
        (Stmt::DoWhile(a), Stmt::DoWhile(b)) => {
            assert(exprs_alike(a.condition, b.condition));
            assert(stmt_outcome(*a.body, *b.body) == Outcome::Alike);
            lemma_alike_exprs_print_alike(a.condition, b.condition);
            lemma_alike_stmts_print_alike(*a.body, *b.body);
        },
        (Stmt::Emit(a), Stmt::Emit(b)) => {
            assert(emit_stmts_alike(a, b));
            lemma_alike_exprs_print_alike(a.event, b.event);
            lemma_alike_args_print_alike(a.args, b.args);
        },
        (Stmt::Expr(a), Stmt::Expr(b)) => {
            lemma_alike_exprs_print_alike(a.expr, b.expr);
        },
        (Stmt::For(a), Stmt::For(b)) => {
            lemma_alike_fors_print_alike(a, b);
        },
        (Stmt::If(a), Stmt::If(b)) => {
            lemma_alike_ifs_print_alike(a, b);
        },
        (Stmt::Return(a), Stmt::Return(b)) => {
            lemma_alike_opt_exprs_print_alike(a.expr, b.expr);
        },
        (Stmt::Revert(a), Stmt::Revert(b)) => {
            assert(revert_stmts_alike(a, b));
            lemma_alike_opt_exprs_print_alike(a.error, b.error);
            lemma_alike_args_print_alike(a.args, b.args);
        },
        (Stmt::While(a), Stmt::While(b)) => {
            assert(exprs_alike(a.condition, b.condition));
            assert(stmt_outcome(*a.body, *b.body) == Outcome::Alike);
            lemma_alike_exprs_print_alike(a.condition, b.condition);
            lemma_alike_stmts_print_alike(*a.body, *b.body);
        },
        _ => {},
    }
}

/// Elements of the same number compare alike exactly when each pair does.
#[verifier::rlimit(60)]
#[verifier::spinoff_prover]
proof fn lemma_source_elems_outcome_alike(s1: Seq<SourceUnitElem>, s2: Seq<SourceUnitElem>)
    requires
        s1.len() == s2.len(),
    ensures
        source_elems_outcome(s1, s2) == Outcome::Alike <==> forall|i: int|
            0 <= i < s1.len() ==> source_elem_outcome(#[trigger] s1[i], s2[i]) == Outcome::Alike,
    decreases s1.len(),
{
    if s1.len() > 0 {
        let r1 = s1.subrange(1, s1.len() as int);
        let r2 = s2.subrange(1, s2.len() as int);
        lemma_source_elems_outcome_alike(r1, r2);
        if forall|i: int| 0 <= i < s1.len() ==> source_elem_outcome(#[trigger] s1[i], s2[i]) == Outcome::Alike {
            assert forall|i: int| 0 <= i < r1.len() implies source_elem_outcome(#[trigger] r1[i], r2[i])
                == Outcome::Alike by {
                assert(r1[i] == s1[i + 1] && r2[i] == s2[i + 1]);
            }
            assert(source_elem_outcome(s1[0], s2[0]) == Outcome::Alike);
        }
        if source_elems_outcome(s1, s2) == Outcome::Alike {
            assert forall|i: int| 0 <= i < s1.len() implies source_elem_outcome(#[trigger] s1[i], s2[i])
                == Outcome::Alike by {
                if i > 0 {
                    assert(r1[i - 1] == s1[i] && r2[i - 1] == s2[i]);
                }
            }
        }
    }
}

/// Contract elements of the same number compare alike exactly when each
/// pair does.
#[verifier::rlimit(60)]
#[verifier::spinoff_prover]
proof fn lemma_contract_elems_outcome_alike(s1: Seq<ContractElem>, s2: Seq<ContractElem>)
    requires
        s1.len() == s2.len(),
    ensures
        contract_elems_outcome(s1, s2) == Outcome::Alike <==> forall|i: int|
            0 <= i < s1.len() ==> contract_elem_outcome(#[trigger] s1[i], s2[i]) == Outcome::Alike,
    decreases s1.len(),
{
    if s1.len() > 0 {
        let r1 = s1.subrange(1, s1.len() as int);
        let r2 = s2.subrange(1, s2.len() as int);
        lemma_contract_elems_outcome_alike(r1, r2);
        if forall|i: int| 0 <= i < s1.len() ==> contract_elem_outcome(#[trigger] s1[i], s2[i]) == Outcome::Alike {
            assert forall|i: int| 0 <= i < r1.len() implies contract_elem_outcome(#[trigger] r1[i], r2[i])
                == Outcome::Alike by {
                assert(r1[i] == s1[i + 1] && r2[i] == s2[i + 1]);
            }
            assert(contract_elem_outcome(s1[0], s2[0]) == Outcome::Alike);
        }
        if contract_elems_outcome(s1, s2) == Outcome::Alike {
            assert forall|i: int| 0 <= i < s1.len() implies contract_elem_outcome(#[trigger] s1[i], s2[i])
                == Outcome::Alike by {
                if i > 0 {
                    assert(r1[i - 1] == s1[i] && r2[i - 1] == s2[i]);
                }
            }
        }
    }
}

/// Two source units compare alike exactly when they have as many
/// elements and every element compares alike with the one at its place.
pub proof fn lemma_alike_units_elementwise(u1: SourceUnit, u2: SourceUnit)
    ensures
        source_unit_outcome(u1, u2) == Outcome::Alike <==> (u1.elems@.len() == u2.elems@.len()
            && forall|i: int|
            0 <= i < u1.elems@.len() ==> source_elem_outcome(#[trigger] u1.elems@[i], u2.elems@[i])
                == Outcome::Alike),
{
    if u1.elems@.len() == u2.elems@.len() {
        lemma_source_elems_outcome_alike(u1.elems@, u2.elems@);
    }
}

/// Two contracts compare alike exactly when their names print the same,
/// their kinds and `abstract` agree, and their base contracts and elements
/// compare alike place by place.
pub proof fn lemma_alike_contracts_elementwise(c1: ContractDef, c2: ContractDef)
    ensures
        contract_outcome(c1, c2) == Outcome::Alike <==> {
            &&& name_text(c1.name@) == name_text(c2.name@)
            &&& c1.kind == c2.kind
            &&& c1.is_abstract == c2.is_abstract
            &&& c1.base_contracts@.len() == c2.base_contracts@.len()
            &&& c1.body@.len() == c2.body@.len()
            &&& forall|i: int|
                0 <= i < c1.base_contracts@.len() ==> base_contracts_alike(
                    #[trigger] c1.base_contracts@[i],
                    c2.base_contracts@[i],
                )
            &&& forall|i: int|
                0 <= i < c1.body@.len() ==> contract_elem_outcome(#[trigger] c1.body@[i], c2.body@[i])
                    == Outcome::Alike
        },
{
    if c1.body@.len() == c2.body@.len() {
        lemma_contract_elems_outcome_alike(c1.body@, c2.body@);
    }
}

/// Two functions compare alike only when their names print the same, their
/// kinds, visibilities, mutabilities and `virtual` agree, their parameters
/// and return variables are alike, and both have a body or neither; plain
/// bodies then print the same text.
pub proof fn lemma_alike_funcs(f1: FuncDef, f2: FuncDef)
    requires
        func_outcome(f1, f2) == Outcome::Alike,
    ensures
        name_text(f1.name@) == name_text(f2.name@),
        f1.kind == f2.kind,
        f1.visibility == f2.visibility,
        f1.mutability == f2.mutability,
        f1.is_virtual == f2.is_virtual,
        var_decl_lists_alike(f1.params@, f2.params@),
        var_decl_lists_alike(f1.return_vars@, f2.return_vars@),
        f1.body is Some <==> f2.body is Some,
        (f1.body is Some && plain_stmts(f1.body->0.body@) && plain_stmts(f2.body->0.body@))
            ==> block_text(f1.body->0) == block_text(f2.body->0),
{
    match (f1.body, f2.body) {
        (Some(b1), Some(b2)) => {
            if plain_stmts(b1.body@) && plain_stmts(b2.body@) {
                lemma_alike_blocks_print_alike(b1, b2);
            }
        },
        _ => {},
    }
}

/// A type with every integer width written out: `uint` as `uint256`,
/// `int` as `int256`, inside arrays and mappings too.
pub open spec fn normal_type(t: Type) -> Type
    decreases t,
{
    match t {
        Type::Int { bitwidth, is_signed } => Type::Int {
            bitwidth: Some(
                match bitwidth {
                    Some(w) => w,
                    None => 256usize,
                },
            ),
            is_signed,
        },
        Type::Array { base, length, data_loc } => Type::Array {
            base: Box::new(normal_type(*base)),
            length,
            data_loc,
        },
        Type::Mapping { key, value } => Type::Mapping {
            key: Box::new(normal_type(*key)),
            value: Box::new(normal_type(*value)),
        },
        _ => t,
    }
}

/// Alike types print the same text once their integer widths are written
/// out: a comparison of types follows every printed part of them.
pub proof fn lemma_alike_types_print_alike(t1: Type, t2: Type)
    requires
        types_alike(t1, t2),
    ensures
        type_text(normal_type(t1)) == type_text(normal_type(t2)),
    decreases t1,
{
    match (t1, t2) {
        (Type::Array { base: b1, .. }, Type::Array { base: b2, .. }) => {
            lemma_alike_types_print_alike(*b1, *b2);
        },
        (Type::Mapping { key: k1, value: v1 }, Type::Mapping { key: k2, value: v2 }) => {
            lemma_alike_types_print_alike(*k1, *k2);
            lemma_alike_types_print_alike(*v1, *v2);
        },
        _ => {},
    }
}

/// Two index expressions are alike exactly when their bases are alike and
/// their indices are both absent, or both present and alike: `a[i]` and
/// `a[j]` differ wherever `i` and `j` do.
pub proof fn lemma_index_exprs_alike(a: IndexExpr, b: IndexExpr)
    ensures
        exprs_alike(Expr::Index(a), Expr::Index(b)) <==> {
            &&& exprs_alike(*a.base_expr, *b.base_expr)
            &&& (a.index is Some <==> b.index is Some)
            &&& (a.index matches Some(x) ==> exprs_alike(*x, *b.index->0))
        },
{
    assert(exprs_alike(Expr::Index(a), Expr::Index(b)) == (exprs_alike(*a.base_expr, *b.base_expr)
        && boxed_alike(a.index, b.index)));
    match (a.index, b.index) {
        (Some(x), Some(y)) => {
            assert(boxed_alike(a.index, b.index) == exprs_alike(*x, *y));
        },
        (None, None) => {},
        _ => {
            assert(!boxed_alike(a.index, b.index));
        },
    }
}

/// Two index expressions whose indices are identifiers of different texts
/// are never alike, whatever their bases.
pub proof fn lemma_index_by_different_identifiers(a: IndexExpr, b: IndexExpr, i: Identifier, j: Identifier)
    requires
        a.index == Some(Box::new(Expr::Ident(i))),
        b.index == Some(Box::new(Expr::Ident(j))),
        name_text(i.name@) != name_text(j.name@),
    ensures
        !exprs_alike(Expr::Index(a), Expr::Index(b)),
{
    lemma_index_exprs_alike(a, b);
}

/// Two expressions are alike in either order: comparing them succeeds in
/// one order exactly when it succeeds in the other.
pub proof fn lemma_exprs_alike_symmetric(e1: Expr, e2: Expr)
    ensures
        exprs_alike(e1, e2) == exprs_alike(e2, e1),
    decreases e1,
{
    match (e1, e2) {
        (Expr::Lit(a), Expr::Lit(b)) => lemma_lits_alike_symmetric(a, b),
        (Expr::Unary(a), Expr::Unary(b)) => lemma_exprs_alike_symmetric(*a.body, *b.body),
        (Expr::Binary(a), Expr::Binary(b)) => {
            lemma_exprs_alike_symmetric(*a.left, *b.left);
            lemma_exprs_alike_symmetric(*a.right, *b.right);
        },
        (Expr::Assign(a), Expr::Assign(b)) => {
            lemma_exprs_alike_symmetric(*a.left, *b.left);
            lemma_exprs_alike_symmetric(*a.right, *b.right);
        },
        (Expr::Call(a), Expr::Call(b)) => {
            lemma_exprs_alike_symmetric(*a.callee, *b.callee);
            match (a.args, b.args) {
                (CallArgs::Unnamed(xs), CallArgs::Unnamed(ys)) => {
                    if xs@.len() == ys@.len() {
                        assert forall|i: int| 0 <= i < xs@.len() implies exprs_alike(xs@[i], ys@[i])
                            == exprs_alike(ys@[i], xs@[i]) by {
                            lemma_exprs_alike_symmetric(xs@[i], ys@[i]);
                        }
                    }
                },
                (CallArgs::Named(xs), CallArgs::Named(ys)) => {
                    if xs@.len() == ys@.len() {
                        assert forall|i: int| 0 <= i < xs@.len() implies exprs_alike(
                            xs@[i].value,
                            ys@[i].value,
                        ) == exprs_alike(ys@[i].value, xs@[i].value) by {
                            lemma_exprs_alike_symmetric(xs@[i].value, ys@[i].value);
                        }
                    }
                },
                _ => {},
            }
            assert(args_alike(a.args, b.args) == args_alike(b.args, a.args));
            assert(calls_alike(a, b) == calls_alike(b, a));
        },
        (Expr::CallOpts(a), Expr::CallOpts(b)) => {
            lemma_exprs_alike_symmetric(*a.callee, *b.callee);
            if a.call_opts@.len() == b.call_opts@.len() {
                assert forall|i: int| 0 <= i < a.call_opts@.len() implies exprs_alike(
                    a.call_opts@[i].value,
                    b.call_opts@[i].value,
                ) == exprs_alike(b.call_opts@[i].value, a.call_opts@[i].value) by {
                    lemma_exprs_alike_symmetric(a.call_opts@[i].value, b.call_opts@[i].value);
                }
            }
            assert(call_opts_alike(a.call_opts@, b.call_opts@) == call_opts_alike(
                b.call_opts@,
                a.call_opts@,
            ));
        },
        (Expr::Tuple(a), Expr::Tuple(b)) => {
            if a.elems@.len() == b.elems@.len() {
                assert forall|i: int| 0 <= i < a.elems@.len() implies opt_exprs_alike(
                    a.elems@[i],
                    b.elems@[i],
                ) == opt_exprs_alike(b.elems@[i], a.elems@[i]) by {
                    match (a.elems@[i], b.elems@[i]) {
                        (Some(x), Some(y)) => lemma_exprs_alike_symmetric(x, y),
                        _ => {},
                    }
                }
            }
            assert(opt_expr_seqs_alike(a.elems@, b.elems@) == opt_expr_seqs_alike(b.elems@, a.elems@));
        },
        (Expr::Index(a), Expr::Index(b)) => {
            lemma_exprs_alike_symmetric(*a.base_expr, *b.base_expr);
            match (a.index, b.index) {
                (Some(x), Some(y)) => lemma_exprs_alike_symmetric(*x, *y),
                _ => {},
            }
            assert(boxed_alike(a.index, b.index) == boxed_alike(b.index, a.index));
        },
        (Expr::Slice(a), Expr::Slice(b)) => {
            lemma_exprs_alike_symmetric(*a.base_expr, *b.base_expr);
            match (a.start_index, b.start_index) {
                (Some(x), Some(y)) => lemma_exprs_alike_symmetric(*x, *y),
                _ => {},
            }
            match (a.end_index, b.end_index) {
                (Some(x), Some(y)) => lemma_exprs_alike_symmetric(*x, *y),
                _ => {},
            }
            assert(boxed_alike(a.start_index, b.start_index) == boxed_alike(b.start_index, a.start_index));
            assert(boxed_alike(a.end_index, b.end_index) == boxed_alike(b.end_index, a.end_index));
        },
        (Expr::Member(a), Expr::Member(b)) => lemma_exprs_alike_symmetric(*a.base, *b.base),
        (Expr::Conditional(a), Expr::Conditional(b)) => {
            lemma_exprs_alike_symmetric(*a.cond, *b.cond);
            lemma_exprs_alike_symmetric(*a.true_br, *b.true_br);
            lemma_exprs_alike_symmetric(*a.false_br, *b.false_br);
        },
        (Expr::InlineArray(a), Expr::InlineArray(b)) => {
            if a.elems@.len() == b.elems@.len() {
                assert forall|i: int| 0 <= i < a.elems@.len() implies exprs_alike(
                    a.elems@[i],
                    b.elems@[i],
                ) == exprs_alike(b.elems@[i], a.elems@[i]) by {
                    lemma_exprs_alike_symmetric(a.elems@[i], b.elems@[i]);
                }
            }
            assert(expr_seqs_alike(a.elems@, b.elems@) == expr_seqs_alike(b.elems@, a.elems@));
        },
        (Expr::New(a), Expr::New(b)) => lemma_types_alike_symmetric(a.typ, b.typ),
        (Expr::TypeName(a), Expr::TypeName(b)) => lemma_types_alike_symmetric(a.typ, b.typ),
        _ => {},
    }
}

} // verus!
