//! Statements, blocks and definitions of Yul code (inline assembly), and
//! the text they print to.
use vstd::prelude::*;
use crate::name::name_text;
use crate::text::{seq_join, strings_view, join, indent, indent_text, to_string};
use crate::yul_types::{YulType, yul_type_text};
use crate::yul_ast::{
    YulIdentifier, YulExpr, YulLit, copy_yul_expr, copy_yul_idents, expr_text, ident_text, lit_text,
    yul_expr_same, yul_idents_same,
};

verus! {

/// A block of statements.
#[derive(Debug, PartialEq, Eq)]
pub struct YulBlock {
    pub body: Vec<YulStmt>,
}

/// A Yul IR statement.
#[derive(Debug, PartialEq, Eq)]
pub enum YulStmt {
    Assign(YulAssignStmt),
    Block(YulBlock),
    Break,
    Continue,
    Expr(YulExpr),
    For(YulForStmt),
    FuncDef(YulFuncDef),
    If(YulIfStmt),
    Leave,
    Switch(YulSwitchStmt),
    VarDecl(YulVarDecl),
}

/// An assignment `vars := value`.
#[derive(Debug, PartialEq, Eq)]
pub struct YulAssignStmt {
    pub vars: Vec<YulIdentifier>,
    pub value: YulExpr,
}

/// A `for` loop.
#[derive(Debug, PartialEq, Eq)]
pub struct YulForStmt {
    pub pre_loop: YulBlock,
    pub condition: YulExpr,
    pub post_loop: YulBlock,
    pub body: YulBlock,
}

/// An `if` statement.
#[derive(Debug, PartialEq, Eq)]
pub struct YulIfStmt {
    pub cond: YulExpr,
    pub body: YulBlock,
}

/// A `switch` statement.
#[derive(Debug, PartialEq, Eq)]
pub struct YulSwitchStmt {
    pub expr: YulExpr,
    pub values: Vec<YulSwitchValue>,
    pub default: Option<YulSwitchDefault>,
}

/// A `case` of a switch.
#[derive(Debug, PartialEq, Eq)]
pub struct YulSwitchValue {
    pub literal: YulLit,
    pub body: YulBlock,
}

/// The `default` case of a switch.
#[derive(Debug, PartialEq, Eq)]
pub struct YulSwitchDefault {
    pub body: YulBlock,
}

/// A function definition.
#[derive(Debug, PartialEq, Eq)]
pub struct YulFuncDef {
    pub name: String,
    pub params: Vec<YulIdentifier>,
    pub return_vars: Vec<YulIdentifier>,
    pub body: YulBlock,
}

/// A variable declaration `let vars := value`.
#[derive(Debug, PartialEq, Eq)]
pub struct YulVarDecl {
    pub vars: Vec<YulIdentifier>,
    pub value: Option<YulExpr>,
}

//-------------------------------------------------------------------------
// Constructors
//-------------------------------------------------------------------------

impl YulBlock {
    pub fn new(stmts: Vec<YulStmt>) -> (res: Self)
        ensures
            res.body@ == stmts@,
    {
        YulBlock { body: stmts }
    }
}

impl YulAssignStmt {
    pub fn new(variables: Vec<YulIdentifier>, value: YulExpr) -> (res: Self)
        ensures
            res.vars@ == variables@,
            res.value == value,
    {
        YulAssignStmt { vars: variables, value }
    }
}

impl YulForStmt {
    pub fn new(
        pre_loop: YulBlock,
        condition: YulExpr,
        post_loop: YulBlock,
        body: YulBlock,
    ) -> (res: Self)
        ensures
            res == (YulForStmt { pre_loop, condition, post_loop, body }),
    {
        YulForStmt { pre_loop, condition, post_loop, body }
    }
}

impl YulIfStmt {
    pub fn new(condition: YulExpr, body: YulBlock) -> (res: Self)
        ensures
            res.cond == condition,
            res.body == body,
    {
        YulIfStmt { cond: condition, body }
    }
}

impl YulSwitchStmt {
    pub fn new(
        expression: YulExpr,
        values: Vec<YulSwitchValue>,
        default: Option<YulSwitchDefault>,
    ) -> (res: Self)
        ensures
            res.expr == expression,
            res.values@ == values@,
            res.default == default,
    {
        YulSwitchStmt { expr: expression, values, default }
    }
}

impl YulSwitchValue {
    pub fn new(literal: YulLit, body: YulBlock) -> (res: Self)
        ensures
            res.literal == literal,
            res.body == body,
    {
        YulSwitchValue { literal, body }
    }
}

impl YulSwitchDefault {
    pub fn new(body: YulBlock) -> (res: Self)
        ensures
            res.body == body,
    {
        YulSwitchDefault { body }
    }
}

impl YulFuncDef {
    pub fn new(
        name: &str,
        params: Vec<YulIdentifier>,
        return_vars: Vec<YulIdentifier>,
        body: YulBlock,
    ) -> (res: Self)
        ensures
            res.name@ == name@,
            res.params@ == params@,
            res.return_vars@ == return_vars@,
            res.body == body,
    {
        YulFuncDef { name: to_string(name), params, return_vars, body }
    }
}

impl YulVarDecl {
    pub fn new(variables: Vec<YulIdentifier>, value: Option<YulExpr>) -> (res: Self)
        ensures
            res.vars@ == variables@,
            res.value == value,
    {
        YulVarDecl { vars: variables, value }
    }
}

//-------------------------------------------------------------------------
// Text
//-------------------------------------------------------------------------

/// Texts of identifiers: their names.
pub open spec fn idents_text(ids: Seq<YulIdentifier>) -> Seq<Seq<char>> {
    ids.map_values(|i: YulIdentifier| ident_text(i))
}

/// Text of a declared variable: its name, followed by its type unless the
/// type is unresolved.
pub open spec fn var_text(i: YulIdentifier) -> Seq<char> {
    match i.typ {
        YulType::Unkn => name_text(i.name@),
        _ => name_text(i.name@) + ": "@ + yul_type_text(i.typ),
    }
}

/// Text of a variable declaration.
pub open spec fn var_decl_text(v: YulVarDecl) -> Seq<char> {
    "let "@ + seq_join(v.vars@.map_values(|i: YulIdentifier| var_text(i)), ", "@) + match v.value {
        Some(e) => " := "@ + expr_text(e),
        Option::None => Seq::empty(),
    }
}

/// Text of a block: `{}` when empty, else the statements on lines of
/// their own, indented by four spaces, between braces.
pub open spec fn block_text(b: YulBlock) -> Seq<char>
    decreases b,
{
    if b.body@.len() == 0 {
        "{}"@
    } else {
        "{\n"@ + indent_text(seq_join(stmts_text(b.body@), "\n"@), 4) + "\n}"@
    }
}

/// Texts of a sequence of statements.
pub open spec fn stmts_text(ss: Seq<YulStmt>) -> Seq<Seq<char>>
    decreases ss,
{
    if ss.len() == 0 {
        Seq::empty()
    } else {
        stmts_text(ss.subrange(0, ss.len() - 1)).push(stmt_text(ss[ss.len() - 1]))
    }
}

/// Text of a `case`.
pub open spec fn case_text(v: YulSwitchValue) -> Seq<char>
    decreases v,
{
    "case "@ + lit_text(v.literal) + " "@ + indent_text(block_text(v.body), 4)
}

/// Text of the `default` case.
pub open spec fn default_text(d: YulSwitchDefault) -> Seq<char>
    decreases d,
{
    "default "@ + indent_text(block_text(d.body), 4)
}

/// Text of the cases of a switch, each on a line of its own.
pub open spec fn cases_text(vs: Seq<YulSwitchValue>) -> Seq<char>
    decreases vs,
{
    if vs.len() == 0 {
        Seq::empty()
    } else {
        cases_text(vs.subrange(0, vs.len() - 1)) + "\n"@ + case_text(vs[vs.len() - 1])
    }
}

/// Text of a function definition, on a line of its own.
pub open spec fn func_text(fd: YulFuncDef) -> Seq<char>
    decreases fd,
{
    "\nfunction "@ + fd.name@ + "("@ + seq_join(idents_text(fd.params@), ", "@) + ") "@ + (if fd.return_vars@.len()
        > 0 {
        "-> "@ + seq_join(idents_text(fd.return_vars@), ", "@)
    } else {
        Seq::empty()
    }) + block_text(fd.body)
}

/// Text of a statement.
pub open spec fn stmt_text(s: YulStmt) -> Seq<char>
    decreases s,
{
    match s {
        YulStmt::Block(b) => block_text(b),
        YulStmt::FuncDef(fd) => func_text(fd),
        YulStmt::VarDecl(v) => var_decl_text(v),
        YulStmt::Assign(a) => seq_join(idents_text(a.vars@), ", "@) + " := "@ + expr_text(a.value),
        YulStmt::Expr(e) => expr_text(e),
        YulStmt::If(i) => "if "@ + expr_text(i.cond) + " "@ + block_text(i.body),
        YulStmt::Switch(sw) => "switch "@ + expr_text(sw.expr) + " "@ + cases_text(sw.values@)
            + match sw.default {
            Some(d) => "\n"@ + default_text(d),
            Option::None => Seq::empty(),
        },
        YulStmt::For(f) => "for "@ + block_text(f.pre_loop) + " "@ + expr_text(f.condition) + " "@
            + block_text(f.post_loop) + " "@ + block_text(f.body),
        YulStmt::Break => "break"@,
        YulStmt::Continue => "continue"@,
        YulStmt::Leave => "leave"@,
    }
}

/// Whether a statement can be printed: every variable declaration and
/// assignment in it has at least one variable.
pub open spec fn stmt_printable(s: YulStmt) -> bool
    decreases s,
{
    match s {
        YulStmt::Block(b) => block_printable(b),
        YulStmt::FuncDef(fd) => block_printable(fd.body),
        YulStmt::VarDecl(v) => v.vars@.len() > 0,
        YulStmt::Assign(a) => a.vars@.len() > 0,
        YulStmt::If(i) => block_printable(i.body),
        YulStmt::Switch(sw) => cases_printable(sw.values@) && match sw.default {
            Some(d) => block_printable(d.body),
            Option::None => true,
        },
        YulStmt::For(f) => block_printable(f.pre_loop) && block_printable(f.post_loop)
            && block_printable(f.body),
        _ => true,
    }
}

/// Whether every statement of a block can be printed.
pub open spec fn block_printable(b: YulBlock) -> bool
    decreases b,
{
    stmts_printable(b.body@)
}

/// Whether every statement of a sequence can be printed.
pub open spec fn stmts_printable(ss: Seq<YulStmt>) -> bool
    decreases ss,
{
    ss.len() == 0 || (stmts_printable(ss.subrange(0, ss.len() - 1)) && stmt_printable(
        ss[ss.len() - 1],
    ))
}

/// Whether every case of a switch can be printed.
pub open spec fn cases_printable(vs: Seq<YulSwitchValue>) -> bool
    decreases vs,
{
    vs.len() == 0 || (cases_printable(vs.subrange(0, vs.len() - 1)) && block_printable(
        vs[vs.len() - 1].body,
    ))
}

proof fn lemma_stmts(ss: Seq<YulStmt>)
    ensures
        stmts_text(ss).len() == ss.len(),
        forall|i: int| 0 <= i < ss.len() ==> #[trigger] stmts_text(ss)[i] == stmt_text(ss[i]),
        stmts_printable(ss) ==> forall|i: int| 0 <= i < ss.len() ==> stmt_printable(#[trigger] ss[i]),
    decreases ss.len(),
{
    if ss.len() > 0 {
        let init = ss.subrange(0, ss.len() - 1);
        lemma_stmts(init);
        assert forall|i: int| 0 <= i < ss.len() implies #[trigger] stmts_text(ss)[i] == stmt_text(
            ss[i],
        ) by {
            if i < ss.len() - 1 {
                assert(init[i] == ss[i]);
            }
        }
        if stmts_printable(ss) {
            assert forall|i: int| 0 <= i < ss.len() implies stmt_printable(#[trigger] ss[i]) by {
                if i < ss.len() - 1 {
                    assert(init[i] == ss[i]);
                }
            }
        }
    }
}

proof fn lemma_cases(vs: Seq<YulSwitchValue>, k: int)
    requires
        0 <= k <= vs.len(),
    ensures
        cases_text(vs.take(k + 1)) == cases_text(vs.take(k)) + "\n"@ + case_text(vs[k]) || k == vs.len(),
        cases_printable(vs) ==> forall|i: int| 0 <= i < vs.len() ==> block_printable(#[trigger] vs[i].body),
    decreases vs.len(),
{
    if k < vs.len() {
        assert(vs.take(k + 1).subrange(0, k) =~= vs.take(k));
    }
    if vs.len() > 0 {
        let init = vs.subrange(0, vs.len() - 1);
        lemma_cases(init, 0);
        if cases_printable(vs) {
            assert forall|i: int| 0 <= i < vs.len() implies block_printable(#[trigger] vs[i].body) by {
                if i < vs.len() - 1 {
                    assert(init[i] == vs[i]);
                }
            }
        }
    }
}

/// The names of identifiers, as texts.
fn idents_to_strings(ids: &Vec<YulIdentifier>) -> (res: Vec<String>)
    ensures
        strings_view(res@) == idents_text(ids@),
{
    let mut parts: Vec<String> = Vec::new();
    let mut i: usize = 0;
    while i < ids.len()
        invariant
            i <= ids.len(),
            parts@.len() == i,
            forall|j: int| 0 <= j < i ==> #[trigger] parts@[j]@ == ident_text(ids@[j]),
        decreases ids.len() - i,
    {
        parts.push(ids[i].to_string());
        i = i + 1;
    }
    assert(strings_view(parts@) =~= idents_text(ids@));
    parts
}

impl YulVarDecl {
    /// The text that displaying the declaration produces. There must be at
    /// least one variable.
    pub fn to_string(&self) -> (res: String)
        requires
            self.vars@.len() > 0,
        ensures
            res@ == var_decl_text(*self),
    {
        let mut parts: Vec<String> = Vec::new();
        let mut i: usize = 0;
        while i < self.vars.len()
            invariant
                i <= self.vars.len(),
                parts@.len() == i,
                forall|j: int| 0 <= j < i ==> #[trigger] parts@[j]@ == var_text(self.vars@[j]),
            decreases self.vars.len() - i,
        {
            let v = &self.vars[i];
            let t = match v.typ {
                YulType::Unkn => v.name.to_string(),
                _ => {
                    let mut t = v.name.to_string();
                    t.append(": ");
                    t.append(v.typ.to_string().as_str());
                    t
                },
            };
            parts.push(t);
            i = i + 1;
        }
        assert(strings_view(parts@) =~= self.vars@.map_values(|i: YulIdentifier| var_text(i)));
        let mut s = to_string("let ");
        s.append(join(&parts, ", ").as_str());
        if let Some(e) = &self.value {
            s.append(" := ");
            s.append(e.to_string().as_str());
        }
        s
    }
}

impl YulAssignStmt {
    /// The text that displaying the assignment produces. There must be at
    /// least one variable.
    pub fn to_string(&self) -> (res: String)
        requires
            self.vars@.len() > 0,
        ensures
            res@ == stmt_text(YulStmt::Assign(*self)),
    {
        let parts = idents_to_strings(&self.vars);
        let mut s = join(&parts, ", ");
        s.append(" := ");
        s.append(self.value.to_string().as_str());
        s
    }
}

impl YulBlock {
    /// The text that displaying the block produces.
    pub fn to_string(&self) -> (res: String)
        requires
            block_printable(*self),
        ensures
            res@ == block_text(*self),
        decreases self,
    {
        if self.body.len() == 0 {
            return to_string("{}");
        }
        proof {
            lemma_stmts(self.body@);
        }
        let mut parts: Vec<String> = Vec::new();
        let mut i: usize = 0;
        while i < self.body.len()
            invariant
                i <= self.body.len(),
                parts@.len() == i,
                stmts_printable(self.body@),
                forall|j: int| 0 <= j < self.body@.len() ==> stmt_printable(#[trigger] self.body@[j]),
                forall|j: int| 0 <= j < i ==> #[trigger] parts@[j]@ == stmt_text(self.body@[j]),
            decreases self.body.len() - i,
        {
            proof {
                assert(decreases_to!(self => self.body));
                assert(decreases_to!(self.body => self.body@));
                assert(decreases_to!(self.body@ => self.body@[i as int]));
            }
            parts.push(self.body[i].to_string());
            i = i + 1;
        }
        assert(strings_view(parts@) =~= stmts_text(self.body@));
        let mut s = to_string("{\n");
        s.append(indent(join(&parts, "\n").as_str(), 4).as_str());
        s.append("\n}");
        s
    }
}

impl YulSwitchValue {
    /// The text that displaying the case produces.
    pub fn to_string(&self) -> (res: String)
        requires
            block_printable(self.body),
        ensures
            res@ == case_text(*self),
        decreases self,
    {
        let mut s = to_string("case ");
        s.append(self.literal.to_string().as_str());
        s.append(" ");
        s.append(indent(self.body.to_string().as_str(), 4).as_str());
        s
    }
}

impl YulSwitchDefault {
    /// The text that displaying the default case produces.
    pub fn to_string(&self) -> (res: String)
        requires
            block_printable(self.body),
        ensures
            res@ == default_text(*self),
        decreases self,
    {
        let mut s = to_string("default ");
        s.append(indent(self.body.to_string().as_str(), 4).as_str());
        s
    }
}

impl YulSwitchStmt {
    /// The text that displaying the switch produces.
    pub fn to_string(&self) -> (res: String)
        requires
            stmt_printable(YulStmt::Switch(*self)),
        ensures
            res@ == stmt_text(YulStmt::Switch(*self)),
        decreases self,
    {
        proof {
            lemma_cases(self.values@, 0);
        }
        let mut s = to_string("switch ");
        s.append(self.expr.to_string().as_str());
        s.append(" ");
        let mut i: usize = 0;
        let ghost start = s@;
        assert(self.values@.take(0) =~= Seq::<YulSwitchValue>::empty());
        while i < self.values.len()
            invariant
                i <= self.values.len(),
                cases_printable(self.values@),
                forall|j: int| 0 <= j < self.values@.len() ==> block_printable(#[trigger] self.values@[j].body),
                s@ == start + cases_text(self.values@.take(i as int)),
            decreases self.values.len() - i,
        {
            proof {
                assert(decreases_to!(self => self.values));
                assert(decreases_to!(self.values => self.values@));
                assert(decreases_to!(self.values@ => self.values@[i as int]));
                lemma_cases(self.values@, i as int);
            }
            let c = self.values[i].to_string();
            s.append("\n");
            s.append(c.as_str());
            i = i + 1;
            assert(s@ =~= start + cases_text(self.values@.take(i as int)));
        }
        assert(self.values@.take(i as int) =~= self.values@);
        if let Some(d) = &self.default {
            s.append("\n");
            s.append(d.to_string().as_str());
        }
        s
    }
}

impl YulFuncDef {
    /// The text that displaying the definition produces, starting with a
    /// line break.
    pub fn to_string(&self) -> (res: String)
        requires
            block_printable(self.body),
        ensures
            res@ == func_text(*self),
        decreases self,
    {
        let params = idents_to_strings(&self.params);
        let return_vars = idents_to_strings(&self.return_vars);
        let mut s = to_string("\nfunction ");
        s.append(self.name.as_str());
        s.append("(");
        s.append(join(&params, ", ").as_str());
        s.append(") ");
        if self.return_vars.len() > 0 {
            s.append("-> ");
            s.append(join(&return_vars, ", ").as_str());
        }
        s.append(self.body.to_string().as_str());
        s
    }
}

impl YulStmt {
    /// The text that displaying the statement produces. Every variable
    /// declaration and assignment in it must have a variable.
    pub fn to_string(&self) -> (res: String)
        requires
            stmt_printable(*self),
        ensures
            res@ == stmt_text(*self),
        decreases self,
    {
        match self {
            YulStmt::Block(b) => b.to_string(),
            YulStmt::FuncDef(fd) => fd.to_string(),
            YulStmt::VarDecl(v) => v.to_string(),
            YulStmt::Assign(a) => a.to_string(),
            YulStmt::Expr(e) => e.to_string(),
            YulStmt::If(i) => {
                let mut s = to_string("if ");
                s.append(i.cond.to_string().as_str());
                s.append(" ");
                s.append(i.body.to_string().as_str());
                s
            },
            YulStmt::Switch(sw) => sw.to_string(),
            YulStmt::For(f) => {
                let mut s = to_string("for ");
                s.append(f.pre_loop.to_string().as_str());
                s.append(" ");
                s.append(f.condition.to_string().as_str());
                s.append(" ");
                s.append(f.post_loop.to_string().as_str());
                s.append(" ");
                s.append(f.body.to_string().as_str());
                s
            },
            YulStmt::Break => to_string("break"),
            YulStmt::Continue => to_string("continue"),
            YulStmt::Leave => to_string("leave"),
        }
    }
}

//-------------------------------------------------------------------------
// Copies
//-------------------------------------------------------------------------

/// Whether two optional expressions are the same.
pub open spec fn yul_opt_expr_same(a: Option<YulExpr>, b: Option<YulExpr>) -> bool {
    match (a, b) {
        (Some(x), Some(y)) => yul_expr_same(x, y),
        (None, None) => true,
        _ => false,
    }
}

/// Whether two blocks are the same, statement by statement.
pub open spec fn yul_block_same(a: YulBlock, b: YulBlock) -> bool
    decreases a,
{
    a.body@.len() == b.body@.len() && forall|i: int|
        0 <= i < a.body@.len() ==> yul_stmt_same(a.body@[i], b.body@[i])
}

/// Whether two statements are the same.
pub open spec fn yul_stmt_same(a: YulStmt, b: YulStmt) -> bool
    decreases a,
{
    match (a, b) {
        (YulStmt::Assign(x), YulStmt::Assign(y)) => yul_idents_same(x.vars@, y.vars@)
            && yul_expr_same(x.value, y.value),
        (YulStmt::Block(x), YulStmt::Block(y)) => yul_block_same(x, y),
        (YulStmt::Break, YulStmt::Break) => true,
        (YulStmt::Continue, YulStmt::Continue) => true,
        (YulStmt::Expr(x), YulStmt::Expr(y)) => yul_expr_same(x, y),
        (YulStmt::For(x), YulStmt::For(y)) => yul_block_same(x.pre_loop, y.pre_loop) && yul_expr_same(
            x.condition,
            y.condition,
        ) && yul_block_same(x.post_loop, y.post_loop) && yul_block_same(x.body, y.body),
        (YulStmt::FuncDef(x), YulStmt::FuncDef(y)) => x.name@ == y.name@ && yul_idents_same(
            x.params@,
            y.params@,
        ) && yul_idents_same(x.return_vars@, y.return_vars@) && yul_block_same(x.body, y.body),
        (YulStmt::If(x), YulStmt::If(y)) => yul_expr_same(x.cond, y.cond) && yul_block_same(
            x.body,
            y.body,
        ),
        (YulStmt::Leave, YulStmt::Leave) => true,
        (YulStmt::Switch(x), YulStmt::Switch(y)) => yul_expr_same(x.expr, y.expr) && x.values@.len()
            == y.values@.len() && (forall|i: int|
            0 <= i < x.values@.len() ==> x.values@[i].literal == y.values@[i].literal
                && yul_block_same(x.values@[i].body, y.values@[i].body)) && match (
            x.default,
            y.default,
        ) {
            (Some(d1), Some(d2)) => yul_block_same(d1.body, d2.body),
            (None, None) => true,
            _ => false,
        },
        (YulStmt::VarDecl(x), YulStmt::VarDecl(y)) => yul_idents_same(x.vars@, y.vars@)
            && yul_opt_expr_same(x.value, y.value),
        _ => false,
    }
}

/// A copy of an optional expression.
fn copy_yul_opt_expr(e: &Option<YulExpr>) -> (res: Option<YulExpr>)
    ensures
        yul_opt_expr_same(*e, res),
{
    match e {
        Some(x) => Some(copy_yul_expr(x)),
        None => None,
    }
}

/// A copy of a block.
pub fn copy_yul_block(b: &YulBlock) -> (res: YulBlock)
    ensures
        yul_block_same(*b, res),
    decreases b,
{
    YulBlock { body: copy_yul_stmts(&b.body) }
}

/// Copies of statements, in order.
pub fn copy_yul_stmts(ss: &Vec<YulStmt>) -> (res: Vec<YulStmt>)
    ensures
        res@.len() == ss@.len(),
        forall|i: int| 0 <= i < ss@.len() ==> yul_stmt_same(ss@[i], res@[i]),
    decreases ss@,
{
    let mut res: Vec<YulStmt> = Vec::new();
    let mut i: usize = 0;
    while i < ss.len()
        invariant
            i <= ss.len(),
            res@.len() == i,
            forall|j: int| 0 <= j < i ==> yul_stmt_same(ss@[j], res@[j]),
        decreases ss.len() - i,
    {
        res.push(copy_yul_stmt(&ss[i]));
        i = i + 1;
    }
    res
}

/// Copies of the cases of a switch, in order.
fn copy_yul_cases(vs: &Vec<YulSwitchValue>) -> (res: Vec<YulSwitchValue>)
    ensures
        res@.len() == vs@.len(),
        forall|i: int|
            0 <= i < vs@.len() ==> vs@[i].literal == res@[i].literal && yul_block_same(
                vs@[i].body,
                res@[i].body,
            ),
    decreases vs@,
{
    let mut res: Vec<YulSwitchValue> = Vec::new();
    let mut i: usize = 0;
    while i < vs.len()
        invariant
            i <= vs.len(),
            res@.len() == i,
            forall|j: int|
                0 <= j < i ==> vs@[j].literal == res@[j].literal && yul_block_same(
                    vs@[j].body,
                    res@[j].body,
                ),
        decreases vs.len() - i,
    {
        res.push(YulSwitchValue { literal: vs[i].literal.clone(), body: copy_yul_block(&vs[i].body) });
        i = i + 1;
    }
    res
}

/// A copy of a statement.
pub fn copy_yul_stmt(s: &YulStmt) -> (res: YulStmt)
    ensures
        yul_stmt_same(*s, res),
    decreases s,
{
    match s {
        YulStmt::Assign(x) => YulStmt::Assign(
            YulAssignStmt { vars: copy_yul_idents(&x.vars), value: copy_yul_expr(&x.value) },
        ),
        YulStmt::Block(x) => YulStmt::Block(copy_yul_block(x)),
        YulStmt::Break => YulStmt::Break,
        YulStmt::Continue => YulStmt::Continue,
        YulStmt::Expr(x) => YulStmt::Expr(copy_yul_expr(x)),
        YulStmt::For(x) => YulStmt::For(
            YulForStmt {
                pre_loop: copy_yul_block(&x.pre_loop),
                condition: copy_yul_expr(&x.condition),
                post_loop: copy_yul_block(&x.post_loop),
                body: copy_yul_block(&x.body),
            },
        ),
        YulStmt::FuncDef(x) => YulStmt::FuncDef(
            YulFuncDef {
                name: x.name.clone(),
                params: copy_yul_idents(&x.params),
                return_vars: copy_yul_idents(&x.return_vars),
                body: copy_yul_block(&x.body),
            },
        ),
        YulStmt::If(x) => YulStmt::If(
            YulIfStmt { cond: copy_yul_expr(&x.cond), body: copy_yul_block(&x.body) },
        ),
        YulStmt::Leave => YulStmt::Leave,
        YulStmt::Switch(x) => YulStmt::Switch(
            YulSwitchStmt {
                expr: copy_yul_expr(&x.expr),
                values: copy_yul_cases(&x.values),
                default: match &x.default {
                    Some(d) => Some(YulSwitchDefault { body: copy_yul_block(&d.body) }),
                    None => None,
                },
            },
        ),
        YulStmt::VarDecl(x) => YulStmt::VarDecl(
            YulVarDecl { vars: copy_yul_idents(&x.vars), value: copy_yul_opt_expr(&x.value) },
        ),
    }
}

} // verus!
