//! Statements and blocks of Solidity, with the source text they print
//! to.
use vstd::prelude::*;
use crate::definitions::{VarDecl, var_decl_rw, var_decl_rw_ok, var_decls_rw, var_decls_rw_ok, var_decl_text};
use crate::expressions::{
    CallArgs, Expr, Identifier, Rewrite, args_rw, args_rw_ok, args_text, expr_rw, expr_rw_ok,
    expr_text, opt_expr_rw, opt_expr_rw_ok,
};
use crate::loc::Loc;
use crate::text::{seq_join, strings_view, join, indent, indent_text, to_string};
use crate::yul_stmts::{
    YulStmt, stmt_printable as yul_printable, stmt_text as yul_stmt_text, yul_stmt_same,
};

verus! {

/// A statement.
#[derive(PartialEq, Eq, Debug)]
pub enum Stmt {
    Asm(AsmStmt),
    Block(Block),
    Break(BreakStmt),
    Continue(ContinueStmt),
    DoWhile(DoWhileStmt),
    Emit(EmitStmt),
    Expr(ExprStmt),
    For(ForStmt),
    If(IfStmt),
    Placeholder(PlaceholderStmt),
    Return(ReturnStmt),
    Revert(RevertStmt),
    Throw(ThrowStmt),
    Try(TryStmt),
    VarDecl(VarDeclStmt),
    While(WhileStmt),
}

/// A block of statements, possibly `unchecked`.
#[derive(PartialEq, Eq, Debug)]
pub struct Block {
    pub id: Option<isize>,
    pub body: Vec<Stmt>,
    pub unchecked: bool,
    pub loc: Option<Loc>,
}

/// An inline assembly statement.
#[derive(PartialEq, Eq, Debug)]
pub struct AsmStmt {
    pub id: Option<isize>,
    pub is_evmasm: bool,
    pub asm_flags: Vec<String>,
    pub body: Vec<YulStmt>,
    pub loc: Option<Loc>,
}

/// `break`.
#[derive(PartialEq, Eq, Debug, Clone, Copy, Structural)]
pub struct BreakStmt {
    pub id: Option<isize>,
    pub loc: Option<Loc>,
}

/// `continue`.
#[derive(PartialEq, Eq, Debug, Clone, Copy, Structural)]
pub struct ContinueStmt {
    pub id: Option<isize>,
    pub loc: Option<Loc>,
}

/// A `do ... while` loop.
#[derive(PartialEq, Eq, Debug)]
pub struct DoWhileStmt {
    pub id: Option<isize>,
    pub condition: Expr,
    pub body: Box<Stmt>,
    pub loc: Option<Loc>,
}

/// An `emit` statement.
#[derive(PartialEq, Eq, Debug)]
pub struct EmitStmt {
    pub id: Option<isize>,
    pub event: Expr,
    pub args: CallArgs,
    pub loc: Option<Loc>,
}

/// An expression statement.
#[derive(PartialEq, Eq, Debug)]
pub struct ExprStmt {
    pub id: Option<isize>,
    pub expr: Expr,
    pub loc: Option<Loc>,
}

/// A `for` loop.
#[derive(PartialEq, Eq, Debug)]
pub struct ForStmt {
    pub id: Option<isize>,
    pub pre_loop: Option<Box<Stmt>>,
    pub condition: Option<Expr>,
    pub post_loop: Option<Box<Stmt>>,
    pub body: Box<Stmt>,
    pub loc: Option<Loc>,
}

/// An `if` statement.
#[derive(PartialEq, Eq, Debug)]
pub struct IfStmt {
    pub id: Option<isize>,
    pub condition: Expr,
    pub true_branch: Box<Stmt>,
    pub false_branch: Option<Box<Stmt>>,
    pub loc: Option<Loc>,
}

/// The placeholder statement `_` of a modifier body.
#[derive(PartialEq, Eq, Debug, Clone, Copy, Structural)]
pub struct PlaceholderStmt {
    pub id: Option<isize>,
    pub loc: Option<Loc>,
}

/// A `return` statement.
#[derive(PartialEq, Eq, Debug)]
pub struct ReturnStmt {
    pub id: Option<isize>,
    pub expr: Option<Expr>,
    pub loc: Option<Loc>,
}

/// A `revert` statement.
#[derive(PartialEq, Eq, Debug)]
pub struct RevertStmt {
    pub id: Option<isize>,
    pub error: Option<Expr>,
    pub args: CallArgs,
    pub loc: Option<Loc>,
}

/// `throw` (before Solidity 0.5.0).
#[derive(PartialEq, Eq, Debug, Clone, Copy, Structural)]
pub struct ThrowStmt {
    pub id: Option<isize>,
    pub loc: Option<Loc>,
}

/// A `try` statement with its catch clauses.
#[derive(PartialEq, Eq, Debug)]
pub struct TryStmt {
    pub id: Option<isize>,
    pub guarded_expr: Expr,
    pub return_vars: Vec<VarDecl>,
    pub body: Block,
    pub catch_clauses: Vec<CatchClause>,
    pub loc: Option<Loc>,
}

/// A `catch` clause.
#[derive(PartialEq, Eq, Debug)]
pub struct CatchClause {
    pub id: Option<isize>,
    pub error: Option<String>,
    pub params: Vec<VarDecl>,
    pub body: Block,
    pub loc: Option<Loc>,
}

/// A variable declaration statement; declarations of a tuple may be left
/// out.
#[derive(PartialEq, Eq, Debug)]
pub struct VarDeclStmt {
    pub id: Option<isize>,
    pub var_decls: Vec<Option<VarDecl>>,
    pub value: Option<Expr>,
    pub loc: Option<Loc>,
}

/// A `while` loop.
#[derive(PartialEq, Eq, Debug)]
pub struct WhileStmt {
    pub id: Option<isize>,
    pub condition: Expr,
    pub body: Box<Stmt>,
    pub loc: Option<Loc>,
}

//-------------------------------------------------------------------------
// Text
//-------------------------------------------------------------------------

/// `t` without one trailing `;`.
pub open spec fn strip_semicolon(t: Seq<char>) -> Seq<char> {
    if t.len() > 0 && t.last() == ';' {
        t.drop_last()
    } else {
        t
    }
}

/// Texts of declarations.
pub open spec fn var_decls_text(vs: Seq<VarDecl>) -> Seq<Seq<char>> {
    vs.map_values(|v: VarDecl| var_decl_text(v))
}

/// Texts of the declarations of a tuple; nothing for a left-out one.
pub open spec fn opt_var_decls_text(vs: Seq<Option<VarDecl>>) -> Seq<Seq<char>> {
    vs.map_values(
        |v: Option<VarDecl>|
            match v {
                Some(d) => var_decl_text(d),
                None => Seq::empty(),
            },
    )
}

/// Text of a variable declaration statement.
pub open spec fn var_decl_stmt_text(v: VarDeclStmt) -> Seq<char> {
    (if v.var_decls@.len() == 1 {
        match v.var_decls@[0] {
            Some(d) => var_decl_text(d),
            None => Seq::empty(),
        }
    } else {
        "("@ + seq_join(opt_var_decls_text(v.var_decls@), ", "@) + ")"@
    }) + match v.value {
        Some(e) => " = "@ + expr_text(e) + ";"@,
        None => ";"@,
    }
}

/// Text of an inline assembly statement: each Yul statement indented by
/// four spaces, on a line of its own, in braces, with a line break at the
/// end.
pub open spec fn asm_text(a: AsmStmt) -> Seq<char> {
    "assembly "@ + (if a.is_evmasm {
        "\"evmasm\" "@
    } else {
        Seq::empty()
    }) + (if a.asm_flags@.len() == 0 {
        "{\n"@
    } else {
        seq_join(strings_view(a.asm_flags@), " "@) + " {\n"@
    }) + seq_join(a.body@.map_values(|y: YulStmt| indent_text(yul_stmt_text(y), 4)), "\n"@)
        + "\n}\n"@
}

/// Text of a statement.
pub open spec fn stmt_text(s: Stmt) -> Seq<char>
    decreases s,
{
    match s {
        Stmt::Asm(a) => asm_text(a),
        Stmt::Block(b) => block_text(b),
        Stmt::Break(_) => "break;"@,
        Stmt::Continue(_) => "continue;"@,
        Stmt::DoWhile(d) => "do "@ + stmt_text(*d.body) + "\nwhile ("@ + expr_text(d.condition)
            + ");"@,
        Stmt::Emit(e) => "emit "@ + expr_text(e.event) + "("@ + args_text(e.args) + ");"@,
        Stmt::Expr(e) => expr_text(e.expr) + ";"@,
        Stmt::For(f) => "for ("@ + match f.pre_loop {
            Some(p) => stmt_text(*p),
            None => ";"@,
        } + " "@ + match f.condition {
            Some(c) => expr_text(c) + ";"@,
            None => ";"@,
        } + " "@ + match f.post_loop {
            Some(p) => strip_semicolon(stmt_text(*p)),
            None => Seq::empty(),
        } + ") "@ + stmt_text(*f.body),
        Stmt::If(i) => "if ("@ + expr_text(i.condition) + ") "@ + stmt_text(*i.true_branch)
            + match i.false_branch {
            Some(f) => " else "@ + stmt_text(*f),
            None => Seq::empty(),
        },
        Stmt::Placeholder(_) => "_;"@,
        Stmt::Return(r) => match r.expr {
            Some(e) => "return "@ + expr_text(e) + ";"@,
            None => "return;"@,
        },
        Stmt::Revert(r) => match r.error {
            Some(e) => "revert "@ + expr_text(e) + "("@ + args_text(r.args) + ");"@,
            None => "revert("@ + args_text(r.args) + ");"@,
        },
        Stmt::Throw(_) => "throw;"@,
        Stmt::Try(t) => "try "@ + expr_text(t.guarded_expr) + (if t.return_vars@.len() > 0 {
            " returns ("@ + seq_join(var_decls_text(t.return_vars@), ", "@) + ")"@
        } else {
            Seq::empty()
        }) + block_text(t.body) + "\n"@ + " "@ + seq_join(catches_text(t.catch_clauses@), "\n"@),
        Stmt::VarDecl(v) => var_decl_stmt_text(v),
        Stmt::While(w) => "while ("@ + expr_text(w.condition) + ") "@ + stmt_text(*w.body) + " "@,
    }
}

/// Text of a block.
pub open spec fn block_text(b: Block) -> Seq<char>
    decreases b,
{
    (if b.unchecked {
        "unchecked "@
    } else {
        Seq::empty()
    }) + if b.body@.len() == 0 {
        "{}"@
    } else {
        "{\n"@ + seq_join(stmts_text(b.body@), "\n"@) + "\n}"@
    }
}

/// Texts of statements, each indented by four spaces.
pub open spec fn stmts_text(ss: Seq<Stmt>) -> Seq<Seq<char>>
    decreases ss,
{
    if ss.len() == 0 {
        Seq::empty()
    } else {
        stmts_text(ss.subrange(0, ss.len() - 1)).push(indent_text(stmt_text(ss[ss.len() - 1]), 4))
    }
}

/// Text of a catch clause.
pub open spec fn catch_text(c: CatchClause) -> Seq<char>
    decreases c,
{
    "catch "@ + match c.error {
        None => if c.params@.len() == 0 {
            block_text(c.body)
        } else {
            "("@ + seq_join(var_decls_text(c.params@), ", "@) + ") "@ + block_text(c.body)
        },
        Some(e) => e@ + "("@ + seq_join(var_decls_text(c.params@), ", "@) + ") "@ + block_text(
            c.body,
        ),
    }
}

/// Texts of catch clauses.
pub open spec fn catches_text(cs: Seq<CatchClause>) -> Seq<Seq<char>>
    decreases cs,
{
    if cs.len() == 0 {
        Seq::empty()
    } else {
        catches_text(cs.subrange(0, cs.len() - 1)).push(catch_text(cs[cs.len() - 1]))
    }
}

/// Whether a statement can be printed: every inline assembly in it holds
/// Yul statements that can be printed.
pub open spec fn stmt_printable(s: Stmt) -> bool
    decreases s,
{
    match s {
        Stmt::Asm(a) => forall|i: int| 0 <= i < a.body@.len() ==> yul_printable(#[trigger] a.body@[i]),
        Stmt::Block(b) => block_printable(b),
        Stmt::DoWhile(d) => stmt_printable(*d.body),
        Stmt::For(f) => (match f.pre_loop {
            Some(p) => stmt_printable(*p),
            None => true,
        }) && (match f.post_loop {
            Some(p) => stmt_printable(*p),
            None => true,
        }) && stmt_printable(*f.body),
        Stmt::If(i) => stmt_printable(*i.true_branch) && match i.false_branch {
            Some(f) => stmt_printable(*f),
            None => true,
        },
        Stmt::Try(t) => block_printable(t.body) && catches_printable(t.catch_clauses@),
        Stmt::While(w) => stmt_printable(*w.body),
        _ => true,
    }
}

/// Whether every statement of a block can be printed.
pub open spec fn block_printable(b: Block) -> bool
    decreases b,
{
    stmts_printable(b.body@)
}

/// Whether every statement of a sequence can be printed.
pub open spec fn stmts_printable(ss: Seq<Stmt>) -> bool
    decreases ss,
{
    ss.len() == 0 || (stmts_printable(ss.subrange(0, ss.len() - 1)) && stmt_printable(
        ss[ss.len() - 1],
    ))
}

/// Whether every catch clause can be printed.
pub open spec fn catches_printable(cs: Seq<CatchClause>) -> bool
    decreases cs,
{
    cs.len() == 0 || (catches_printable(cs.subrange(0, cs.len() - 1)) && block_printable(
        cs[cs.len() - 1].body,
    ))
}

pub(crate) proof fn lemma_stmts(ss: Seq<Stmt>)
    ensures
        stmts_text(ss).len() == ss.len(),
        forall|i: int|
            0 <= i < ss.len() ==> #[trigger] stmts_text(ss)[i] == indent_text(stmt_text(ss[i]), 4),
        stmts_printable(ss) ==> forall|i: int| 0 <= i < ss.len() ==> stmt_printable(#[trigger] ss[i]),
    decreases ss.len(),
{
    if ss.len() > 0 {
        let init = ss.subrange(0, ss.len() - 1);
        lemma_stmts(init);
        assert forall|i: int| 0 <= i < ss.len() implies #[trigger] stmts_text(ss)[i] == indent_text(
            stmt_text(ss[i]),
            4,
        ) by {
            if i < ss.len() - 1 {
                assert(init[i] == ss[i]);
            }
        }
        if stmts_printable(ss) {
            assert forall|i: int| 0 <= i < ss.len() implies stmt_printable(#[trigger] ss[i]) by {
                if i < ss.len() - 1 {
                    assert(init[i] == ss[i]);
                }
            }
        }
    }
}

pub(crate) proof fn lemma_catches(cs: Seq<CatchClause>)
    ensures
        catches_text(cs).len() == cs.len(),
        forall|i: int| 0 <= i < cs.len() ==> #[trigger] catches_text(cs)[i] == catch_text(cs[i]),
        catches_printable(cs) ==> forall|i: int|
            0 <= i < cs.len() ==> block_printable(#[trigger] cs[i].body),
    decreases cs.len(),
{
    if cs.len() > 0 {
        let init = cs.subrange(0, cs.len() - 1);
        lemma_catches(init);
        assert forall|i: int| 0 <= i < cs.len() implies #[trigger] catches_text(cs)[i] == catch_text(
            cs[i],
        ) by {
            if i < cs.len() - 1 {
                assert(init[i] == cs[i]);
            }
        }
        if catches_printable(cs) {
            assert forall|i: int| 0 <= i < cs.len() implies block_printable(#[trigger] cs[i].body) by {
                if i < cs.len() - 1 {
                    assert(init[i] == cs[i]);
                }
            }
        }
    }
}

//-------------------------------------------------------------------------
// Queries
//-------------------------------------------------------------------------

/// The location of a statement.
pub open spec fn stmt_loc(s: Stmt) -> Option<Loc> {
    match s {
        Stmt::Asm(x) => x.loc,
        Stmt::Block(x) => x.loc,
        Stmt::Break(x) => x.loc,
        Stmt::Continue(x) => x.loc,
        Stmt::DoWhile(x) => x.loc,
        Stmt::Emit(x) => x.loc,
        Stmt::Expr(x) => x.loc,
        Stmt::For(x) => x.loc,
        Stmt::If(x) => x.loc,
        Stmt::Placeholder(x) => x.loc,
        Stmt::Return(x) => x.loc,
        Stmt::Revert(x) => x.loc,
        Stmt::Throw(x) => x.loc,
        Stmt::Try(x) => x.loc,
        Stmt::VarDecl(x) => x.loc,
        Stmt::While(x) => x.loc,
    }
}

/// The node id of a statement.
pub open spec fn stmt_id(s: Stmt) -> Option<isize> {
    match s {
        Stmt::Asm(x) => x.id,
        Stmt::Block(x) => x.id,
        Stmt::Break(x) => x.id,
        Stmt::Continue(x) => x.id,
        Stmt::DoWhile(x) => x.id,
        Stmt::Emit(x) => x.id,
        Stmt::Expr(x) => x.id,
        Stmt::For(x) => x.id,
        Stmt::If(x) => x.id,
        Stmt::Placeholder(x) => x.id,
        Stmt::Return(x) => x.id,
        Stmt::Revert(x) => x.id,
        Stmt::Throw(x) => x.id,
        Stmt::Try(x) => x.id,
        Stmt::VarDecl(x) => x.id,
        Stmt::While(x) => x.id,
    }
}

/// The texts of declarations.
fn var_decls_to_strings(vs: &Vec<VarDecl>) -> (res: Vec<String>)
    ensures
        strings_view(res@) == var_decls_text(vs@),
{
    let mut parts: Vec<String> = Vec::new();
    let mut i: usize = 0;
    while i < vs.len()
        invariant
            i <= vs.len(),
            parts@.len() == i,
            forall|j: int| 0 <= j < i ==> #[trigger] parts@[j]@ == var_decl_text(vs@[j]),
        decreases vs.len() - i,
    {
        parts.push(vs[i].to_string());
        i = i + 1;
    }
    assert(strings_view(parts@) =~= var_decls_text(vs@));
    parts
}

impl Stmt {
    /// Whether the statement is an `unchecked` block.
    pub fn is_unchecked_block(&self) -> (res: bool)
        ensures
            res == (*self matches Stmt::Block(b) && b.unchecked),
    {
        match self {
            Stmt::Block(b) => b.unchecked,
            _ => false,
        }
    }

    /// The location of the statement.
    pub fn loc(&self) -> (res: Option<Loc>)
        ensures
            res == stmt_loc(*self),
    {
        match self {
            Stmt::Asm(x) => x.loc,
            Stmt::Block(x) => x.loc,
            Stmt::Break(x) => x.loc,
            Stmt::Continue(x) => x.loc,
            Stmt::DoWhile(x) => x.loc,
            Stmt::Emit(x) => x.loc,
            Stmt::Expr(x) => x.loc,
            Stmt::For(x) => x.loc,
            Stmt::If(x) => x.loc,
            Stmt::Placeholder(x) => x.loc,
            Stmt::Return(x) => x.loc,
            Stmt::Revert(x) => x.loc,
            Stmt::Throw(x) => x.loc,
            Stmt::Try(x) => x.loc,
            Stmt::VarDecl(x) => x.loc,
            Stmt::While(x) => x.loc,
        }
    }

    /// The node id of the statement.
    pub fn id(&self) -> (res: Option<isize>)
        ensures
            res == stmt_id(*self),
    {
        match self {
            Stmt::Asm(x) => x.id,
            Stmt::Block(x) => x.id,
            Stmt::Break(x) => x.id,
            Stmt::Continue(x) => x.id,
            Stmt::DoWhile(x) => x.id,
            Stmt::Emit(x) => x.id,
            Stmt::Expr(x) => x.id,
            Stmt::For(x) => x.id,
            Stmt::If(x) => x.id,
            Stmt::Placeholder(x) => x.id,
            Stmt::Return(x) => x.id,
            Stmt::Revert(x) => x.id,
            Stmt::Throw(x) => x.id,
            Stmt::Try(x) => x.id,
            Stmt::VarDecl(x) => x.id,
            Stmt::While(x) => x.id,
        }
    }

    /// The text that displaying the statement produces. Every inline
    /// assembly in it must be printable.
    pub fn to_string(&self) -> (res: String)
        requires
            stmt_printable(*self),
        ensures
            res@ == stmt_text(*self),
        decreases self,
    {
        match self {
            Stmt::Asm(a) => a.to_string(),
            Stmt::Block(b) => b.to_string(),
            Stmt::Break(_) => to_string("break;"),
            Stmt::Continue(_) => to_string("continue;"),
            Stmt::DoWhile(d) => {
                let mut s = to_string("do ");
                s.append(d.body.to_string().as_str());
                s.append("\nwhile (");
                s.append(d.condition.to_string().as_str());
                s.append(");");
                s
            },
            Stmt::Emit(e) => {
                let mut s = to_string("emit ");
                s.append(e.event.to_string().as_str());
                s.append("(");
                s.append(e.args.to_string().as_str());
                s.append(");");
                s
            },
            Stmt::Expr(e) => {
                let mut s = e.expr.to_string();
                s.append(";");
                s
            },
            Stmt::For(f) => {
                let mut s = to_string("for (");
                match &f.pre_loop {
                    Some(p) => s.append(p.to_string().as_str()),
                    None => s.append(";"),
                }
                s.append(" ");
                match &f.condition {
                    Some(c) => {
                        s.append(c.to_string().as_str());
                        s.append(";");
                    },
                    None => s.append(";"),
                }
                s.append(" ");
                if let Some(p) = &f.post_loop {
                    let t = p.to_string();
                    s.append(strip_semicolon_exec(&t).as_str());
                }
                s.append(") ");
                s.append(f.body.to_string().as_str());
                s
            },
            Stmt::If(i) => {
                let mut s = to_string("if (");
                s.append(i.condition.to_string().as_str());
                s.append(") ");
                s.append(i.true_branch.to_string().as_str());
                if let Some(f) = &i.false_branch {
                    s.append(" else ");
                    s.append(f.to_string().as_str());
                }
                s
            },
            Stmt::Placeholder(_) => to_string("_;"),
            Stmt::Return(r) => match &r.expr {
                Some(e) => {
                    let mut s = to_string("return ");
                    s.append(e.to_string().as_str());
                    s.append(";");
                    s
                },
                None => to_string("return;"),
            },
            Stmt::Revert(r) => {
                let mut s = match &r.error {
                    Some(e) => {
                        let mut s = to_string("revert ");
                        s.append(e.to_string().as_str());
                        s.append("(");
                        s
                    },
                    None => to_string("revert("),
                };
                s.append(r.args.to_string().as_str());
                s.append(");");
                s
            },
            Stmt::Throw(_) => to_string("throw;"),
            Stmt::Try(t) => t.to_string(),
            Stmt::VarDecl(v) => v.to_string(),
            Stmt::While(w) => {
                let mut s = to_string("while (");
                s.append(w.condition.to_string().as_str());
                s.append(") ");
                s.append(w.body.to_string().as_str());
                s.append(" ");
                s
            },
        }
    }
}

/// The text without one trailing `;`.
fn strip_semicolon_exec(t: &String) -> (res: String)
    ensures
        res@ == strip_semicolon(t@),
{
    let cs = crate::text::chars_of(t.as_str());
    let n = cs.len();
    if n > 0 && cs[n - 1] == ';' {
        let mut r = String::new();
        let mut i: usize = 0;
        while i + 1 < n
            invariant
                cs@ == t@,
                n == cs.len(),
                n > 0,
                i + 1 <= n,
                r@ == t@.take(i as int),
            decreases n - i,
        {
            crate::text::push_char(&mut r, cs[i]);
            i = i + 1;
            assert(r@ =~= t@.take(i as int));
        }
        assert(t@.take(i as int) =~= t@.drop_last());
        r
    } else {
        t.clone()
    }
}

impl Block {
    pub fn new(id: Option<isize>, body: Vec<Stmt>, unchecked: bool, loc: Option<Loc>) -> (res: Self)
        ensures
            res == (Block { id, body, unchecked, loc }),
    {
        Block { id, body, unchecked, loc }
    }

    /// The text that displaying the block produces.
    pub fn to_string(&self) -> (res: String)
        requires
            block_printable(*self),
        ensures
            res@ == block_text(*self),
        decreases self,
    {
        let mut s = if self.unchecked {
            to_string("unchecked ")
        } else {
            String::new()
        };
        if self.body.len() == 0 {
            s.append("{}");
            return s;
        }
        proof {
            lemma_stmts(self.body@);
        }
        let mut parts: Vec<String> = Vec::new();
        let mut i: usize = 0;
        while i < self.body.len()
            invariant
                i <= self.body.len(),
                parts@.len() == i,
                forall|j: int| 0 <= j < self.body@.len() ==> stmt_printable(#[trigger] self.body@[j]),
                forall|j: int|
                    0 <= j < i ==> #[trigger] parts@[j]@ == indent_text(stmt_text(self.body@[j]), 4),
            decreases self.body.len() - i,
        {
            proof {
                assert(decreases_to!(self => self.body));
                assert(decreases_to!(self.body => self.body@));
                assert(decreases_to!(self.body@ => self.body@[i as int]));
            }
            let t = self.body[i].to_string();
            parts.push(indent(t.as_str(), 4));
            i = i + 1;
        }
        assert(strings_view(parts@) =~= stmts_text(self.body@));
        s.append("{\n");
        s.append(join(&parts, "\n").as_str());
        s.append("\n}");
        s
    }
}

impl AsmStmt {
    pub fn new(id: Option<isize>, evmasm: bool, flags: Vec<String>, body: Vec<YulStmt>, loc: Option<Loc>) -> (res:
        Self)
        ensures
            res == (AsmStmt { id, is_evmasm: evmasm, asm_flags: flags, body, loc }),
    {
        AsmStmt { id, is_evmasm: evmasm, asm_flags: flags, body, loc }
    }

    /// The text that displaying the statement produces.
    pub fn to_string(&self) -> (res: String)
        requires
            forall|i: int| 0 <= i < self.body@.len() ==> yul_printable(#[trigger] self.body@[i]),
        ensures
            res@ == asm_text(*self),
    {
        let mut s = to_string("assembly ");
        if self.is_evmasm {
            s.append("\"evmasm\" ");
        }
        if self.asm_flags.len() == 0 {
            s.append("{\n");
        } else {
            s.append(join(&self.asm_flags, " ").as_str());
            s.append(" {\n");
        }
        let mut parts: Vec<String> = Vec::new();
        let mut i: usize = 0;
        while i < self.body.len()
            invariant
                i <= self.body.len(),
                parts@.len() == i,
                forall|j: int| 0 <= j < self.body@.len() ==> yul_printable(#[trigger] self.body@[j]),
                forall|j: int|
                    0 <= j < i ==> #[trigger] parts@[j]@ == indent_text(yul_stmt_text(self.body@[j]), 4),
            decreases self.body.len() - i,
        {
            let t = self.body[i].to_string();
            parts.push(indent(t.as_str(), 4));
            i = i + 1;
        }
        assert(strings_view(parts@) =~= self.body@.map_values(
            |y: YulStmt| indent_text(yul_stmt_text(y), 4),
        ));
        s.append(join(&parts, "\n").as_str());
        s.append("\n}\n");
        s
    }
}

impl TryStmt {
    pub fn new(
        id: Option<isize>,
        exp: Expr,
        return_vars: Vec<VarDecl>,
        body: Block,
        catches: Vec<CatchClause>,
        loc: Option<Loc>,
    ) -> (res: Self)
        ensures
            res == (TryStmt { id, guarded_expr: exp, return_vars, body, catch_clauses: catches, loc }),
    {
        TryStmt { id, guarded_expr: exp, return_vars, body, catch_clauses: catches, loc }
    }

    /// The text that displaying the statement produces.
    pub fn to_string(&self) -> (res: String)
        requires
            block_printable(self.body),
            catches_printable(self.catch_clauses@),
        ensures
            res@ == stmt_text(Stmt::Try(*self)),
        decreases self,
    {
        let mut s = to_string("try ");
        s.append(self.guarded_expr.to_string().as_str());
        if self.return_vars.len() > 0 {
            s.append(" returns (");
            s.append(join(&var_decls_to_strings(&self.return_vars), ", ").as_str());
            s.append(")");
        }
        s.append(self.body.to_string().as_str());
        s.append("\n");
        s.append(" ");
        proof {
            lemma_catches(self.catch_clauses@);
        }
        let mut parts: Vec<String> = Vec::new();
        let mut i: usize = 0;
        while i < self.catch_clauses.len()
            invariant
                i <= self.catch_clauses.len(),
                parts@.len() == i,
                forall|j: int|
                    0 <= j < self.catch_clauses@.len() ==> block_printable(
                        #[trigger] self.catch_clauses@[j].body,
                    ),
                forall|j: int| 0 <= j < i ==> #[trigger] parts@[j]@ == catch_text(self.catch_clauses@[j]),
            decreases self.catch_clauses.len() - i,
        {
            proof {
                assert(decreases_to!(self => self.catch_clauses));
                assert(decreases_to!(self.catch_clauses => self.catch_clauses@));
                assert(decreases_to!(self.catch_clauses@ => self.catch_clauses@[i as int]));
            }
            parts.push(self.catch_clauses[i].to_string());
            i = i + 1;
        }
        assert(strings_view(parts@) =~= catches_text(self.catch_clauses@));
        s.append(join(&parts, "\n").as_str());
        s
    }
}

impl CatchClause {
    pub fn new(id: Option<isize>, error: Option<&str>, params: Vec<VarDecl>, body: Block, loc: Option<Loc>) -> (res:
        Self)
        ensures
            match error {
                Some(e) => res.error matches Some(r) && r@ == e@,
                None => res.error is None,
            },
            res.id == id,
            res.params@ == params@,
            res.body == body,
            res.loc == loc,
    {
        let error = match error {
            Some(e) => Some(to_string(e)),
            None => None,
        };
        CatchClause { id, error, params, body, loc }
    }

    /// The text that displaying the clause produces.
    pub fn to_string(&self) -> (res: String)
        requires
            block_printable(self.body),
        ensures
            res@ == catch_text(*self),
        decreases self,
    {
        let mut s = to_string("catch ");
        let params = join(&var_decls_to_strings(&self.params), ", ");
        match &self.error {
            None => {
                if self.params.len() > 0 {
                    s.append("(");
                    s.append(params.as_str());
                    s.append(") ");
                }
            },
            Some(e) => {
                s.append(e.as_str());
                s.append("(");
                s.append(params.as_str());
                s.append(") ");
            },
        }
        s.append(self.body.to_string().as_str());
        s
    }
}

impl VarDeclStmt {
    pub fn new(id: Option<isize>, vars: Vec<Option<VarDecl>>, value: Option<Expr>, loc: Option<Loc>) -> (res:
        Self)
        ensures
            res == (VarDeclStmt { id, var_decls: vars, value, loc }),
    {
        VarDeclStmt { id, var_decls: vars, value, loc }
    }

    /// The statement declaring one variable, without value, at the
    /// declaration's location.
    pub fn from_var_decl(vdecl: VarDecl) -> (res: Self)
        ensures
            res.id is None,
            res.var_decls@ == seq![Some(vdecl)],
            res.value is None,
            res.loc == vdecl.loc,
    {
        let loc = vdecl.loc;
        let mut vars: Vec<Option<VarDecl>> = Vec::new();
        vars.push(Some(vdecl));
        assert(vars@ =~= seq![Some(vdecl)]);
        VarDeclStmt { id: None, var_decls: vars, value: None, loc }
    }

    /// The text that displaying the statement produces.
    pub fn to_string(&self) -> (res: String)
        ensures
            res@ == var_decl_stmt_text(*self),
    {
        let mut s = if self.var_decls.len() == 1 {
            match &self.var_decls[0] {
                Some(v) => v.to_string(),
                None => String::new(),
            }
        } else {
            let mut parts: Vec<String> = Vec::new();
            let mut i: usize = 0;
            while i < self.var_decls.len()
                invariant
                    i <= self.var_decls.len(),
                    parts@.len() == i,
                    forall|j: int|
                        0 <= j < i ==> #[trigger] parts@[j]@ == opt_var_decls_text(self.var_decls@)[j],
                decreases self.var_decls.len() - i,
            {
                let p = match &self.var_decls[i] {
                    Some(v) => v.to_string(),
                    None => String::new(),
                };
                parts.push(p);
                i = i + 1;
            }
            assert(strings_view(parts@) =~= opt_var_decls_text(self.var_decls@));
            let mut t = to_string("(");
            t.append(join(&parts, ", ").as_str());
            t.append(")");
            t
        };
        match &self.value {
            Some(e) => {
                s.append(" = ");
                s.append(e.to_string().as_str());
                s.append(";");
            },
            None => s.append(";"),
        }
        s
    }
}

impl BreakStmt {
    pub fn new(id: Option<isize>, loc: Option<Loc>) -> (res: Self)
        ensures
            res == (BreakStmt { id, loc }),
    {
        BreakStmt { id, loc }
    }
}

impl ContinueStmt {
    pub fn new(id: Option<isize>, loc: Option<Loc>) -> (res: Self)
        ensures
            res == (ContinueStmt { id, loc }),
    {
        ContinueStmt { id, loc }
    }
}

impl ThrowStmt {
    pub fn new(id: Option<isize>, loc: Option<Loc>) -> (res: Self)
        ensures
            res == (ThrowStmt { id, loc }),
    {
        ThrowStmt { id, loc }
    }
}

impl PlaceholderStmt {
    pub fn new(id: Option<isize>, loc: Option<Loc>) -> (res: Self)
        ensures
            res == (PlaceholderStmt { id, loc }),
    {
        PlaceholderStmt { id, loc }
    }

    /// The text that displaying the placeholder produces: `_`.
    pub fn to_string(&self) -> (res: String)
        ensures
            res@ == "_"@,
    {
        to_string("_")
    }
}

impl DoWhileStmt {
    pub fn new(id: Option<isize>, cond: Expr, body: Stmt, loc: Option<Loc>) -> (res: Self)
        ensures
            res == (DoWhileStmt { id, condition: cond, body: Box::new(body), loc }),
    {
        DoWhileStmt { id, condition: cond, body: Box::new(body), loc }
    }
}

impl EmitStmt {
    pub fn new(id: Option<isize>, event: Expr, args: CallArgs, loc: Option<Loc>) -> (res: Self)
        ensures
            res == (EmitStmt { id, event, args, loc }),
    {
        EmitStmt { id, event, args, loc }
    }
}

impl ExprStmt {
    pub fn new(id: Option<isize>, expr: Expr, loc: Option<Loc>) -> (res: Self)
        ensures
            res == (ExprStmt { id, expr, loc }),
    {
        ExprStmt { id, expr, loc }
    }
}

impl ForStmt {
    pub fn new(
        id: Option<isize>,
        pre: Option<Stmt>,
        cond: Option<Expr>,
        post: Option<Stmt>,
        body: Stmt,
        loc: Option<Loc>,
    ) -> (res: Self)
        ensures
            res.id == id,
            match pre {
                Some(p) => res.pre_loop matches Some(b) && *b == p,
                None => res.pre_loop is None,
            },
            res.condition == cond,
            match post {
                Some(p) => res.post_loop matches Some(b) && *b == p,
                None => res.post_loop is None,
            },
            *res.body == body,
            res.loc == loc,
    {
        let pre_loop = match pre {
            Some(p) => Some(Box::new(p)),
            None => None,
        };
        let post_loop = match post {
            Some(p) => Some(Box::new(p)),
            None => None,
        };
        ForStmt { id, pre_loop, condition: cond, post_loop, body: Box::new(body), loc }
    }
}

impl IfStmt {
    pub fn new(id: Option<isize>, cond: Expr, true_br: Stmt, false_br: Option<Stmt>, loc: Option<Loc>) -> (res:
        Self)
        ensures
            res.id == id,
            res.condition == cond,
            *res.true_branch == true_br,
            match false_br {
                Some(f) => res.false_branch matches Some(b) && *b == f,
                None => res.false_branch is None,
            },
            res.loc == loc,
    {
        let false_branch = match false_br {
            Some(f) => Some(Box::new(f)),
            None => None,
        };
        IfStmt { id, condition: cond, true_branch: Box::new(true_br), false_branch, loc }
    }
}

impl ReturnStmt {
    pub fn new(id: Option<isize>, expr: Option<Expr>, loc: Option<Loc>) -> (res: Self)
        ensures
            res == (ReturnStmt { id, expr, loc }),
    {
        ReturnStmt { id, expr, loc }
    }
}

impl RevertStmt {
    pub fn new(id: Option<isize>, error: Option<Expr>, arguments: CallArgs, loc: Option<Loc>) -> (res:
        Self)
        ensures
            res == (RevertStmt { id, error, args: arguments, loc }),
    {
        RevertStmt { id, error, args: arguments, loc }
    }
}

impl WhileStmt {
    pub fn new(id: Option<isize>, cond: Expr, body: Stmt, loc: Option<Loc>) -> (res: Self)
        ensures
            res == (WhileStmt { id, condition: cond, body: Box::new(body), loc }),
    {
        WhileStmt { id, condition: cond, body: Box::new(body), loc }
    }
}

//-------------------------------------------------------------------------
// Substitution in statements
//-------------------------------------------------------------------------

/// Whether inline assembly `b` is the same as `a`.
pub open spec fn asm_same(a: AsmStmt, b: AsmStmt) -> bool {
    &&& a.id == b.id
    &&& a.is_evmasm == b.is_evmasm
    &&& strings_view(a.asm_flags@) == strings_view(b.asm_flags@)
    &&& a.body@.len() == b.body@.len()
    &&& forall|i: int| 0 <= i < a.body@.len() ==> yul_stmt_same(a.body@[i], b.body@[i])
    &&& a.loc == b.loc
}

/// Whether optional declaration `b` is `a` rewritten by `w`.
pub open spec fn opt_var_decl_rw(w: Rewrite, a: Option<VarDecl>, b: Option<VarDecl>) -> bool {
    match (a, b) {
        (Some(x), Some(y)) => var_decl_rw(w, x, y),
        (None, None) => true,
        _ => false,
    }
}

/// Whether optional statement `b` is `a` rewritten by `w`.
pub open spec fn opt_stmt_rw(w: Rewrite, a: Option<Box<Stmt>>, b: Option<Box<Stmt>>) -> bool
    decreases a,
{
    match (a, b) {
        (Some(x), Some(y)) => stmt_rw(w, *x, *y),
        (None, None) => true,
        _ => false,
    }
}

/// Whether the statements of `b` are those of `a` rewritten by `w`, position by position.
pub open spec fn stmts_rw(w: Rewrite, a: Seq<Stmt>, b: Seq<Stmt>) -> bool
    decreases a,
{
    a.len() == b.len() && forall|i: int| 0 <= i < a.len() ==> stmt_rw(w, a[i], b[i])
}

/// Whether block `b` is block `a` rewritten by `w`.
pub open spec fn block_rw(w: Rewrite, a: Block, b: Block) -> bool
    decreases a,
{
    a.id == b.id && a.unchecked == b.unchecked && a.loc == b.loc && stmts_rw(w, a.body@, b.body@)
}

/// Whether catch clause `b` is catch clause `a` rewritten by `w`.
pub open spec fn catch_rw(w: Rewrite, a: CatchClause, b: CatchClause) -> bool
    decreases a,
{
    &&& a.id == b.id
    &&& (match (a.error, b.error) {
        (Some(x), Some(y)) => x@ == y@,
        (None, None) => true,
        _ => false,
    })
    &&& var_decls_rw(w, a.params@, b.params@)
    &&& block_rw(w, a.body, b.body)
    &&& a.loc == b.loc
}

/// Whether statement `b` is statement `a` with every expression in it
/// rewritten by `w`, and nothing else changed.
pub open spec fn stmt_rw(w: Rewrite, a: Stmt, b: Stmt) -> bool
    decreases a,
{
    match (a, b) {
        (Stmt::Asm(x), Stmt::Asm(y)) => asm_same(x, y),
        (Stmt::Block(x), Stmt::Block(y)) => block_rw(w, x, y),
        (Stmt::Break(x), Stmt::Break(y)) => x == y,
        (Stmt::Continue(x), Stmt::Continue(y)) => x == y,
        (Stmt::DoWhile(x), Stmt::DoWhile(y)) => x.id == y.id && x.loc == y.loc && expr_rw(w,
            x.condition,
            y.condition,
        ) && stmt_rw(w, *x.body, *y.body),
        (Stmt::Emit(x), Stmt::Emit(y)) => x.id == y.id && x.loc == y.loc && expr_rw(w,
            x.event,
            y.event,
        ) && args_rw(w, x.args, y.args),
        (Stmt::Expr(x), Stmt::Expr(y)) => x.id == y.id && x.loc == y.loc && expr_rw(w, x.expr, y.expr),
        (Stmt::For(x), Stmt::For(y)) => x.id == y.id && x.loc == y.loc && opt_stmt_rw(
            w,
            x.pre_loop,
            y.pre_loop,
        ) && opt_expr_rw(w, x.condition, y.condition) && opt_stmt_rw(w, x.post_loop, y.post_loop)
            && stmt_rw(w, *x.body, *y.body),
        (Stmt::If(x), Stmt::If(y)) => x.id == y.id && x.loc == y.loc && expr_rw(w,
            x.condition,
            y.condition,
        ) && stmt_rw(w, *x.true_branch, *y.true_branch) && opt_stmt_rw(
            w,
            x.false_branch,
            y.false_branch,
        ),
        (Stmt::Placeholder(x), Stmt::Placeholder(y)) => x == y,
        (Stmt::Return(x), Stmt::Return(y)) => x.id == y.id && x.loc == y.loc && opt_expr_rw(w,
            x.expr,
            y.expr,
        ),
        (Stmt::Revert(x), Stmt::Revert(y)) => x.id == y.id && x.loc == y.loc && opt_expr_rw(w,
            x.error,
            y.error,
        ) && args_rw(w, x.args, y.args),
        (Stmt::Throw(x), Stmt::Throw(y)) => x == y,
        (Stmt::Try(x), Stmt::Try(y)) => x.id == y.id && x.loc == y.loc && expr_rw(w,
            x.guarded_expr,
            y.guarded_expr,
        ) && var_decls_rw(w, x.return_vars@, y.return_vars@) && block_rw(w, x.body, y.body)
            && x.catch_clauses@.len() == y.catch_clauses@.len() && (forall|i: int|
            0 <= i < x.catch_clauses@.len() ==> catch_rw(
                w,
                x.catch_clauses@[i],
                y.catch_clauses@[i],
            )),
        (Stmt::VarDecl(x), Stmt::VarDecl(y)) => x.id == y.id && x.loc == y.loc
            && x.var_decls@.len() == y.var_decls@.len() && (forall|i: int|
            0 <= i < x.var_decls@.len() ==> opt_var_decl_rw(
                w,
                x.var_decls@[i],
                y.var_decls@[i],
            )) && opt_expr_rw(w, x.value, y.value),
        (Stmt::While(x), Stmt::While(y)) => x.id == y.id && x.loc == y.loc && expr_rw(w,
            x.condition,
            y.condition,
        ) && stmt_rw(w, *x.body, *y.body),
        _ => false,
    }
}

/// Whether an optional declaration can be rewritten by `w`.
pub open spec fn opt_var_decl_rw_ok(w: Rewrite, a: Option<VarDecl>) -> bool {
    match a {
        Some(x) => var_decl_rw_ok(w, x),
        None => true,
    }
}

/// Whether an optional statement can be rewritten by `w`.
pub open spec fn opt_stmt_rw_ok(w: Rewrite, a: Option<Box<Stmt>>) -> bool
    decreases a,
{
    match a {
        Some(x) => stmt_rw_ok(w, *x),
        None => true,
    }
}

/// Whether each statement can be rewritten by `w`.
pub open spec fn stmts_rw_ok(w: Rewrite, a: Seq<Stmt>) -> bool
    decreases a,
{
    forall|i: int| 0 <= i < a.len() ==> stmt_rw_ok(w, a[i])
}

/// Whether a block can be rewritten by `w`.
pub open spec fn block_rw_ok(w: Rewrite, a: Block) -> bool
    decreases a,
{
    stmts_rw_ok(w, a.body@)
}

/// Whether a catch clause can be rewritten by `w`.
pub open spec fn catch_rw_ok(w: Rewrite, a: CatchClause) -> bool
    decreases a,
{
    var_decls_rw_ok(w, a.params@) && block_rw_ok(w, a.body)
}

/// Whether every expression of a statement can be rewritten by `w` (see
/// `expr_rw_ok`).
pub open spec fn stmt_rw_ok(w: Rewrite, a: Stmt) -> bool
    decreases a,
{
    match a {
        Stmt::Block(x) => block_rw_ok(w, x),
        Stmt::DoWhile(x) => expr_rw_ok(w, x.condition) && stmt_rw_ok(w, *x.body),
        Stmt::Emit(x) => expr_rw_ok(w, x.event) && args_rw_ok(w, x.args),
        Stmt::Expr(x) => expr_rw_ok(w, x.expr),
        Stmt::For(x) => opt_stmt_rw_ok(w, x.pre_loop) && opt_expr_rw_ok(w, x.condition)
            && opt_stmt_rw_ok(w, x.post_loop) && stmt_rw_ok(w, *x.body),
        Stmt::If(x) => expr_rw_ok(w, x.condition) && stmt_rw_ok(w, *x.true_branch) && opt_stmt_rw_ok(
            w,
            x.false_branch,
        ),
        Stmt::Return(x) => opt_expr_rw_ok(w, x.expr),
        Stmt::Revert(x) => opt_expr_rw_ok(w, x.error) && args_rw_ok(w, x.args),
        Stmt::Try(x) => expr_rw_ok(w, x.guarded_expr) && var_decls_rw_ok(w, x.return_vars@)
            && block_rw_ok(w, x.body) && (forall|i: int|
            0 <= i < x.catch_clauses@.len() ==> catch_rw_ok(w, x.catch_clauses@[i])),
        Stmt::VarDecl(x) => (forall|i: int|
            0 <= i < x.var_decls@.len() ==> opt_var_decl_rw_ok(w, x.var_decls@[i])) && opt_expr_rw_ok(
            w,
            x.value,
        ),
        Stmt::While(x) => expr_rw_ok(w, x.condition) && stmt_rw_ok(w, *x.body),
        _ => true,
    }
}

/// Whether statement `b` is statement `a` with each identifier bound in
/// `p` replaced by the expression bound to it, everywhere expressions
/// occur, and nothing else changed.
pub open spec fn stmt_subst(p: Seq<(Identifier, Expr)>, a: Stmt, b: Stmt) -> bool {
    stmt_rw(Rewrite::Idents(p), a, b)
}

/// Whether statements `b` are statements `a` with the identifiers bound in
/// `p` replaced, position by position.
pub open spec fn stmts_subst(p: Seq<(Identifier, Expr)>, a: Seq<Stmt>, b: Seq<Stmt>) -> bool {
    stmts_rw(Rewrite::Idents(p), a, b)
}

/// Whether block `b` is block `a` with the identifiers bound in `p`
/// replaced.
pub open spec fn block_subst(p: Seq<(Identifier, Expr)>, a: Block, b: Block) -> bool {
    block_rw(Rewrite::Idents(p), a, b)
}

/// Whether catch clause `b` is catch clause `a` with the identifiers bound
/// in `p` replaced.
pub open spec fn catch_subst(p: Seq<(Identifier, Expr)>, a: CatchClause, b: CatchClause) -> bool {
    catch_rw(Rewrite::Idents(p), a, b)
}

/// Whether optional statement `b` is `a` with the identifiers bound in `p`
/// replaced.
pub open spec fn opt_stmt_subst(p: Seq<(Identifier, Expr)>, a: Option<Box<Stmt>>, b: Option<Box<Stmt>>) -> bool {
    opt_stmt_rw(Rewrite::Idents(p), a, b)
}

/// Whether optional declaration `b` is `a` with the identifiers bound in `p`
/// replaced.
pub open spec fn opt_var_decl_subst(p: Seq<(Identifier, Expr)>, a: Option<VarDecl>, b: Option<VarDecl>) -> bool {
    opt_var_decl_rw(Rewrite::Idents(p), a, b)
}

/// Whether two statements are the same.
pub open spec fn stmt_same(a: Stmt, b: Stmt) -> bool {
    stmt_subst(Seq::empty(), a, b)
}

/// Whether two blocks are the same.
pub open spec fn block_same(a: Block, b: Block) -> bool {
    block_subst(Seq::empty(), a, b)
}

/// The text of an `if` statement is `if (`, the condition, `) `, the
/// true branch, then ` else ` and the false branch if there is one: each
/// branch at its own place.
pub proof fn lemma_if_text(i: IfStmt)
    ensures
        ({
            let t = stmt_text(Stmt::If(i));
            let c = expr_text(i.condition).len() as int;
            let b = stmt_text(*i.true_branch).len() as int;
            &&& t.subrange(0, 4) == "if ("@
            &&& t.subrange(4, 4 + c) == expr_text(i.condition)
            &&& t.subrange(4 + c, 6 + c) == ") "@
            &&& t.subrange(6 + c, 6 + c + b) == stmt_text(*i.true_branch)
            &&& match i.false_branch {
                Some(f) => t.subrange(6 + c + b, 12 + c + b) == " else "@ && t.subrange(
                    12 + c + b,
                    t.len() as int,
                ) == stmt_text(*f) && t.len() == 12 + c + b + stmt_text(*f).len(),
                None => t.len() == 6 + c + b,
            }
        }),
{
    reveal_strlit("if (");
    reveal_strlit(") ");
    reveal_strlit(" else ");
    let t = stmt_text(Stmt::If(i));
    let ce = expr_text(i.condition);
    let tb = stmt_text(*i.true_branch);
    let c = ce.len() as int;
    let b = tb.len() as int;
    let rest: Seq<char> = match i.false_branch {
        Some(f) => " else "@ + stmt_text(*f),
        None => Seq::empty(),
    };
    assert(t =~= "if ("@ + ce + ") "@ + tb + rest);
    assert(t.subrange(0, 4) =~= "if ("@);
    assert(t.subrange(4, 4 + c) =~= ce);
    assert(t.subrange(4 + c, 6 + c) =~= ") "@);
    assert(t.subrange(6 + c, 6 + c + b) =~= tb);
    match i.false_branch {
        Some(f) => {
            assert(t.subrange(6 + c + b, 12 + c + b) =~= " else "@);
            assert(t.subrange(12 + c + b, t.len() as int) =~= stmt_text(*f));
        },
        None => {},
    }
}

/// The text of a `while` loop is `while (`, the condition, `) `, the body
/// and a space.
pub proof fn lemma_while_text(w: WhileStmt)
    ensures
        ({
            let t = stmt_text(Stmt::While(w));
            let c = expr_text(w.condition).len() as int;
            &&& t.len() == 7 + c + 2 + stmt_text(*w.body).len() + 1
            &&& t.subrange(0, 7) == "while ("@
            &&& t.subrange(7, 7 + c) == expr_text(w.condition)
            &&& t.subrange(7 + c, 9 + c) == ") "@
            &&& t.subrange(9 + c, t.len() - 1) == stmt_text(*w.body)
            &&& t[t.len() - 1] == ' '
        }),
{
    reveal_strlit("while (");
    reveal_strlit(") ");
    reveal_strlit(" ");
    let t = stmt_text(Stmt::While(w));
    let ce = expr_text(w.condition);
    let c = ce.len() as int;
    assert(t =~= "while ("@ + ce + ") "@ + stmt_text(*w.body) + " "@);
    assert(t.subrange(0, 7) =~= "while ("@);
    assert(t.subrange(7, 7 + c) =~= ce);
    assert(t.subrange(7 + c, 9 + c) =~= ") "@);
    assert(t.subrange(9 + c, t.len() - 1) =~= stmt_text(*w.body));
}

} // verus!
