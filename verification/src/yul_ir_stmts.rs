//! Statements, blocks and definitions of the Yul intermediate
//! representation, and the Yul text they print to.
use vstd::prelude::*;
use crate::name::name_text;
use crate::text::{seq_join, strings_view, join, indent, indent_text, to_string};
use crate::yul_ir_types::{YulIRType, ir_type_text};
use crate::yul_ir::{YulIRIdentifier, YulIRExpr, YulIRLit, expr_text, ident_text, lit_text};

verus! {

/// A block of statements.
#[derive(Debug, PartialEq, Eq)]
pub struct YulIRBlock {
    pub body: Vec<YulIRStmt>,
}

/// A Yul IR statement.
#[derive(Debug, PartialEq, Eq)]
pub enum YulIRStmt {
    Assign(YulIRAssignStmt),
    Block(YulIRBlock),
    Break,
    Continue,
    Expr(YulIRExpr),
    For(YulIRForStmt),
    FuncDef(YulIRFuncDef),
    If(YulIRIfStmt),
    Leave,
    Switch(YulIRSwitchStmt),
    VarDecl(YulIRVarDecl),
}

/// An assignment `vars := value`.
#[derive(Debug, PartialEq, Eq)]
pub struct YulIRAssignStmt {
    pub vars: Vec<YulIRIdentifier>,
    pub value: YulIRExpr,
}

/// A `for` loop.
#[derive(Debug, PartialEq, Eq)]
pub struct YulIRForStmt {
    pub pre_loop: YulIRBlock,
    pub condition: YulIRExpr,
    pub post_loop: YulIRBlock,
    pub body: YulIRBlock,
}

/// An `if` statement.
#[derive(Debug, PartialEq, Eq)]
pub struct YulIRIfStmt {
    pub cond: YulIRExpr,
    pub body: YulIRBlock,
}

/// A `switch` statement.
#[derive(Debug, PartialEq, Eq)]
pub struct YulIRSwitchStmt {
    pub expr: YulIRExpr,
    pub values: Vec<YulIRSwitchValue>,
    pub default: Option<YulIRSwitchDefault>,
}

/// A `case` of a switch.
#[derive(Debug, PartialEq, Eq)]
pub struct YulIRSwitchValue {
    pub literal: YulIRLit,
    pub body: YulIRBlock,
}

/// The `default` case of a switch.
#[derive(Debug, PartialEq, Eq)]
pub struct YulIRSwitchDefault {
    pub body: YulIRBlock,
}

/// A function definition.
#[derive(Debug, PartialEq, Eq)]
pub struct YulIRFuncDef {
    pub name: String,
    pub params: Vec<YulIRIdentifier>,
    pub return_vars: Vec<YulIRIdentifier>,
    pub body: YulIRBlock,
}

/// A variable declaration `let vars := value`.
#[derive(Debug, PartialEq, Eq)]
pub struct YulIRVarDecl {
    pub vars: Vec<YulIRIdentifier>,
    pub value: Option<YulIRExpr>,
}

//-------------------------------------------------------------------------
// Constructors
//-------------------------------------------------------------------------

impl YulIRBlock {
    pub fn new(stmts: Vec<YulIRStmt>) -> (res: Self)
        ensures
            res.body@ == stmts@,
    {
        YulIRBlock { body: stmts }
    }
}

impl YulIRAssignStmt {
    pub fn new(variables: Vec<YulIRIdentifier>, value: YulIRExpr) -> (res: Self)
        ensures
            res.vars@ == variables@,
            res.value == value,
    {
        YulIRAssignStmt { vars: variables, value }
    }
}

impl YulIRForStmt {
    pub fn new(
        pre_loop: YulIRBlock,
        condition: YulIRExpr,
        post_loop: YulIRBlock,
        body: YulIRBlock,
    ) -> (res: Self)
        ensures
            res == (YulIRForStmt { pre_loop, condition, post_loop, body }),
    {
        YulIRForStmt { pre_loop, condition, post_loop, body }
    }
}

impl YulIRIfStmt {
    pub fn new(condition: YulIRExpr, body: YulIRBlock) -> (res: Self)
        ensures
            res.cond == condition,
            res.body == body,
    {
        YulIRIfStmt { cond: condition, body }
    }
}

impl YulIRSwitchStmt {
    pub fn new(
        expression: YulIRExpr,
        values: Vec<YulIRSwitchValue>,
        default: Option<YulIRSwitchDefault>,
    ) -> (res: Self)
        ensures
            res.expr == expression,
            res.values@ == values@,
            res.default == default,
    {
        YulIRSwitchStmt { expr: expression, values, default }
    }
}

impl YulIRSwitchValue {
    pub fn new(literal: YulIRLit, body: YulIRBlock) -> (res: Self)
        ensures
            res.literal == literal,
            res.body == body,
    {
        YulIRSwitchValue { literal, body }
    }
}

impl YulIRSwitchDefault {
    pub fn new(body: YulIRBlock) -> (res: Self)
        ensures
            res.body == body,
    {
        YulIRSwitchDefault { body }
    }
}

impl YulIRFuncDef {
    pub fn new(
        name: &str,
        params: Vec<YulIRIdentifier>,
        return_vars: Vec<YulIRIdentifier>,
        body: YulIRBlock,
    ) -> (res: Self)
        ensures
            res.name@ == name@,
            res.params@ == params@,
            res.return_vars@ == return_vars@,
            res.body == body,
    {
        YulIRFuncDef { name: to_string(name), params, return_vars, body }
    }
}

impl YulIRVarDecl {
    pub fn new(variables: Vec<YulIRIdentifier>, value: Option<YulIRExpr>) -> (res: Self)
        ensures
            res.vars@ == variables@,
            res.value == value,
    {
        YulIRVarDecl { vars: variables, value }
    }
}

//-------------------------------------------------------------------------
// Text
//-------------------------------------------------------------------------

/// Texts of identifiers: their names.
pub open spec fn idents_text(ids: Seq<YulIRIdentifier>) -> Seq<Seq<char>> {
    ids.map_values(|i: YulIRIdentifier| ident_text(i))
}

/// Text of a declared variable: its name, followed by its type unless the
/// type is unresolved.
pub open spec fn var_text(i: YulIRIdentifier) -> Seq<char> {
    match i.typ {
        YulIRType::Unkn => name_text(i.name@),
        _ => name_text(i.name@) + ": "@ + ir_type_text(i.typ),
    }
}

/// Text of a variable declaration.
pub open spec fn var_decl_text(v: YulIRVarDecl) -> Seq<char> {
    "let "@ + seq_join(v.vars@.map_values(|i: YulIRIdentifier| var_text(i)), ", "@) + match v.value {
        Some(e) => " := "@ + expr_text(e),
        Option::None => Seq::empty(),
    }
}

/// Text of a block: `{}` when empty, else the statements on lines of
/// their own, indented by four spaces, between braces.
pub open spec fn block_text(b: YulIRBlock) -> Seq<char>
    decreases b,
{
    if b.body@.len() == 0 {
        "{}"@
    } else {
        "{\n"@ + indent_text(seq_join(stmts_text(b.body@), "\n"@), 4) + "\n}"@
    }
}

/// Texts of a sequence of statements.
pub open spec fn stmts_text(ss: Seq<YulIRStmt>) -> Seq<Seq<char>>
    decreases ss,
{
    if ss.len() == 0 {
        Seq::empty()
    } else {
        stmts_text(ss.subrange(0, ss.len() - 1)).push(stmt_text(ss[ss.len() - 1]))
    }
}

/// Text of a `case`.
pub open spec fn case_text(v: YulIRSwitchValue) -> Seq<char>
    decreases v,
{
    "case "@ + lit_text(v.literal) + " "@ + indent_text(block_text(v.body), 4)
}

/// Text of the `default` case.
pub open spec fn default_text(d: YulIRSwitchDefault) -> Seq<char>
    decreases d,
{
    "default "@ + indent_text(block_text(d.body), 4)
}

/// Text of the cases of a switch, each on a line of its own.
pub open spec fn cases_text(vs: Seq<YulIRSwitchValue>) -> Seq<char>
    decreases vs,
{
    if vs.len() == 0 {
        Seq::empty()
    } else {
        cases_text(vs.subrange(0, vs.len() - 1)) + "\n"@ + case_text(vs[vs.len() - 1])
    }
}

/// Text of a function definition, on a line of its own.
pub open spec fn func_text(fd: YulIRFuncDef) -> Seq<char>
    decreases fd,
{
    "\nfunction "@ + fd.name@ + "("@ + seq_join(idents_text(fd.params@), ", "@) + ") "@ + (if fd.return_vars@.len()
        > 0 {
        "-> "@ + seq_join(idents_text(fd.return_vars@), ", "@)
    } else {
        Seq::empty()
    }) + block_text(fd.body)
}

/// Text of a statement.
pub open spec fn stmt_text(s: YulIRStmt) -> Seq<char>
    decreases s,
{
    match s {
        YulIRStmt::Block(b) => block_text(b),
        YulIRStmt::FuncDef(fd) => func_text(fd),
        YulIRStmt::VarDecl(v) => var_decl_text(v),
        YulIRStmt::Assign(a) => seq_join(idents_text(a.vars@), ", "@) + " := "@ + expr_text(a.value),
        YulIRStmt::Expr(e) => expr_text(e),
        YulIRStmt::If(i) => "if "@ + expr_text(i.cond) + " "@ + block_text(i.body),
        YulIRStmt::Switch(sw) => "switch "@ + expr_text(sw.expr) + " "@ + cases_text(sw.values@)
            + match sw.default {
            Some(d) => "\n"@ + default_text(d),
            Option::None => Seq::empty(),
        },
        YulIRStmt::For(f) => "for "@ + block_text(f.pre_loop) + " "@ + expr_text(f.condition) + " "@
            + block_text(f.post_loop) + " "@ + block_text(f.body),
        YulIRStmt::Break => "break"@,
        YulIRStmt::Continue => "continue"@,
        YulIRStmt::Leave => "leave"@,
    }
}

/// Whether a statement can be printed: every variable declaration and
/// assignment in it has at least one variable.
pub open spec fn stmt_printable(s: YulIRStmt) -> bool
    decreases s,
{
    match s {
        YulIRStmt::Block(b) => block_printable(b),
        YulIRStmt::FuncDef(fd) => block_printable(fd.body),
        YulIRStmt::VarDecl(v) => v.vars@.len() > 0,
        YulIRStmt::Assign(a) => a.vars@.len() > 0,
        YulIRStmt::If(i) => block_printable(i.body),
        YulIRStmt::Switch(sw) => cases_printable(sw.values@) && match sw.default {
            Some(d) => block_printable(d.body),
            Option::None => true,
        },
        YulIRStmt::For(f) => block_printable(f.pre_loop) && block_printable(f.post_loop)
            && block_printable(f.body),
        _ => true,
    }
}

/// Whether every statement of a block can be printed.
pub open spec fn block_printable(b: YulIRBlock) -> bool
    decreases b,
{
    stmts_printable(b.body@)
}

/// Whether every statement of a sequence can be printed.
pub open spec fn stmts_printable(ss: Seq<YulIRStmt>) -> bool
    decreases ss,
{
    ss.len() == 0 || (stmts_printable(ss.subrange(0, ss.len() - 1)) && stmt_printable(
        ss[ss.len() - 1],
    ))
}

/// Whether every case of a switch can be printed.
pub open spec fn cases_printable(vs: Seq<YulIRSwitchValue>) -> bool
    decreases vs,
{
    vs.len() == 0 || (cases_printable(vs.subrange(0, vs.len() - 1)) && block_printable(
        vs[vs.len() - 1].body,
    ))
}

proof fn lemma_stmts(ss: Seq<YulIRStmt>)
    ensures
        stmts_text(ss).len() == ss.len(),
        forall|i: int| 0 <= i < ss.len() ==> #[trigger] stmts_text(ss)[i] == stmt_text(ss[i]),
        stmts_printable(ss) ==> forall|i: int| 0 <= i < ss.len() ==> stmt_printable(#[trigger] ss[i]),
    decreases ss.len(),
{
    if ss.len() > 0 {
        let init = ss.subrange(0, ss.len() - 1);
        lemma_stmts(init);
        assert forall|i: int| 0 <= i < ss.len() implies #[trigger] stmts_text(ss)[i] == stmt_text(
            ss[i],
        ) by {
            if i < ss.len() - 1 {
                assert(init[i] == ss[i]);
            }
        }
        if stmts_printable(ss) {
            assert forall|i: int| 0 <= i < ss.len() implies stmt_printable(#[trigger] ss[i]) by {
                if i < ss.len() - 1 {
                    assert(init[i] == ss[i]);
                }
            }
        }
    }
}

proof fn lemma_cases(vs: Seq<YulIRSwitchValue>, k: int)
    requires
        0 <= k <= vs.len(),
    ensures
        cases_text(vs.take(k + 1)) == cases_text(vs.take(k)) + "\n"@ + case_text(vs[k]) || k == vs.len(),
        cases_printable(vs) ==> forall|i: int| 0 <= i < vs.len() ==> block_printable(#[trigger] vs[i].body),
    decreases vs.len(),
{
    if k < vs.len() {
        assert(vs.take(k + 1).subrange(0, k) =~= vs.take(k));
    }
    if vs.len() > 0 {
        let init = vs.subrange(0, vs.len() - 1);
        lemma_cases(init, 0);
        if cases_printable(vs) {
            assert forall|i: int| 0 <= i < vs.len() implies block_printable(#[trigger] vs[i].body) by {
                if i < vs.len() - 1 {
                    assert(init[i] == vs[i]);
                }
            }
        }
    }
}

/// The names of identifiers, as texts.
fn idents_to_strings(ids: &Vec<YulIRIdentifier>) -> (res: Vec<String>)
    ensures
        strings_view(res@) == idents_text(ids@),
{
    let mut parts: Vec<String> = Vec::new();
    let mut i: usize = 0;
    while i < ids.len()
        invariant
            i <= ids.len(),
            parts@.len() == i,
            forall|j: int| 0 <= j < i ==> #[trigger] parts@[j]@ == ident_text(ids@[j]),
        decreases ids.len() - i,
    {
        parts.push(ids[i].to_string());
        i = i + 1;
    }
    assert(strings_view(parts@) =~= idents_text(ids@));
    parts
}

impl YulIRVarDecl {
    /// The text that displaying the declaration produces. There must be at
    /// least one variable.
    pub fn to_string(&self) -> (res: String)
        requires
            self.vars@.len() > 0,
        ensures
            res@ == var_decl_text(*self),
    {
        let mut parts: Vec<String> = Vec::new();
        let mut i: usize = 0;
        while i < self.vars.len()
            invariant
                i <= self.vars.len(),
                parts@.len() == i,
                forall|j: int| 0 <= j < i ==> #[trigger] parts@[j]@ == var_text(self.vars@[j]),
            decreases self.vars.len() - i,
        {
            let v = &self.vars[i];
            let t = match v.typ {
                YulIRType::Unkn => v.name.to_string(),
                _ => {
                    let mut t = v.name.to_string();
                    t.append(": ");
                    t.append(v.typ.to_string().as_str());
                    t
                },
            };
            parts.push(t);
            i = i + 1;
        }
        assert(strings_view(parts@) =~= self.vars@.map_values(|i: YulIRIdentifier| var_text(i)));
        let mut s = to_string("let ");
        s.append(join(&parts, ", ").as_str());
        if let Some(e) = &self.value {
            s.append(" := ");
            s.append(e.to_string().as_str());
        }
        s
    }
}

impl YulIRAssignStmt {
    /// The text that displaying the assignment produces. There must be at
    /// least one variable.
    pub fn to_string(&self) -> (res: String)
        requires
            self.vars@.len() > 0,
        ensures
            res@ == stmt_text(YulIRStmt::Assign(*self)),
    {
        let parts = idents_to_strings(&self.vars);
        let mut s = join(&parts, ", ");
        s.append(" := ");
        s.append(self.value.to_string().as_str());
        s
    }
}

impl YulIRBlock {
    /// The text that displaying the block produces.
    pub fn to_string(&self) -> (res: String)
        requires
            block_printable(*self),
        ensures
            res@ == block_text(*self),
        decreases self,
    {
        if self.body.len() == 0 {
            return to_string("{}");
        }
        proof {
            lemma_stmts(self.body@);
        }
        let mut parts: Vec<String> = Vec::new();
        let mut i: usize = 0;
        while i < self.body.len()
            invariant
                i <= self.body.len(),
                parts@.len() == i,
                stmts_printable(self.body@),
                forall|j: int| 0 <= j < self.body@.len() ==> stmt_printable(#[trigger] self.body@[j]),
                forall|j: int| 0 <= j < i ==> #[trigger] parts@[j]@ == stmt_text(self.body@[j]),
            decreases self.body.len() - i,
        {
            proof {
                assert(decreases_to!(self => self.body));
                assert(decreases_to!(self.body => self.body@));
                assert(decreases_to!(self.body@ => self.body@[i as int]));
            }
            parts.push(self.body[i].to_string());
            i = i + 1;
        }
        assert(strings_view(parts@) =~= stmts_text(self.body@));
        let mut s = to_string("{\n");
        s.append(indent(join(&parts, "\n").as_str(), 4).as_str());
        s.append("\n}");
        s
    }
}

impl YulIRSwitchValue {
    /// The text that displaying the case produces.
    pub fn to_string(&self) -> (res: String)
        requires
            block_printable(self.body),
        ensures
            res@ == case_text(*self),
        decreases self,
    {
        let mut s = to_string("case ");
        s.append(self.literal.to_string().as_str());
        s.append(" ");
        s.append(indent(self.body.to_string().as_str(), 4).as_str());
        s
    }
}

impl YulIRSwitchDefault {
    /// The text that displaying the default case produces.
    pub fn to_string(&self) -> (res: String)
        requires
            block_printable(self.body),
        ensures
            res@ == default_text(*self),
        decreases self,
    {
        let mut s = to_string("default ");
        s.append(indent(self.body.to_string().as_str(), 4).as_str());
        s
    }
}

impl YulIRSwitchStmt {
    /// The text that displaying the switch produces.
    pub fn to_string(&self) -> (res: String)
        requires
            stmt_printable(YulIRStmt::Switch(*self)),
        ensures
            res@ == stmt_text(YulIRStmt::Switch(*self)),
        decreases self,
    {
        proof {
            lemma_cases(self.values@, 0);
        }
        let mut s = to_string("switch ");
        s.append(self.expr.to_string().as_str());
        s.append(" ");
        let mut i: usize = 0;
        let ghost start = s@;
        assert(self.values@.take(0) =~= Seq::<YulIRSwitchValue>::empty());
        while i < self.values.len()
            invariant
                i <= self.values.len(),
                cases_printable(self.values@),
                forall|j: int| 0 <= j < self.values@.len() ==> block_printable(#[trigger] self.values@[j].body),
                s@ == start + cases_text(self.values@.take(i as int)),
            decreases self.values.len() - i,
        {
            proof {
                assert(decreases_to!(self => self.values));
                assert(decreases_to!(self.values => self.values@));
                assert(decreases_to!(self.values@ => self.values@[i as int]));
                lemma_cases(self.values@, i as int);
            }
            let c = self.values[i].to_string();
            s.append("\n");
            s.append(c.as_str());
            i = i + 1;
            assert(s@ =~= start + cases_text(self.values@.take(i as int)));
        }
        assert(self.values@.take(i as int) =~= self.values@);
        if let Some(d) = &self.default {
            s.append("\n");
            s.append(d.to_string().as_str());
        }
        s
    }
}

impl YulIRFuncDef {
    /// The text that displaying the definition produces, starting with a
    /// line break.
    pub fn to_string(&self) -> (res: String)
        requires
            block_printable(self.body),
        ensures
            res@ == func_text(*self),
        decreases self,
    {
        let params = idents_to_strings(&self.params);
        let return_vars = idents_to_strings(&self.return_vars);
        let mut s = to_string("\nfunction ");
        s.append(self.name.as_str());
        s.append("(");
        s.append(join(&params, ", ").as_str());
        s.append(") ");
        if self.return_vars.len() > 0 {
            s.append("-> ");
            s.append(join(&return_vars, ", ").as_str());
        }
        s.append(self.body.to_string().as_str());
        s
    }
}

impl YulIRStmt {
    /// The text that displaying the statement produces. Every variable
    /// declaration and assignment in it must have a variable.
    pub fn to_string(&self) -> (res: String)
        requires
            stmt_printable(*self),
        ensures
            res@ == stmt_text(*self),
        decreases self,
    {
        match self {
            YulIRStmt::Block(b) => b.to_string(),
            YulIRStmt::FuncDef(fd) => fd.to_string(),
            YulIRStmt::VarDecl(v) => v.to_string(),
            YulIRStmt::Assign(a) => a.to_string(),
            YulIRStmt::Expr(e) => e.to_string(),
            YulIRStmt::If(i) => {
                let mut s = to_string("if ");
                s.append(i.cond.to_string().as_str());
                s.append(" ");
                s.append(i.body.to_string().as_str());
                s
            },
            YulIRStmt::Switch(sw) => sw.to_string(),
            YulIRStmt::For(f) => {
                let mut s = to_string("for ");
                s.append(f.pre_loop.to_string().as_str());
                s.append(" ");
                s.append(f.condition.to_string().as_str());
                s.append(" ");
                s.append(f.post_loop.to_string().as_str());
                s.append(" ");
                s.append(f.body.to_string().as_str());
                s
            },
            YulIRStmt::Break => to_string("break"),
            YulIRStmt::Continue => to_string("continue"),
            YulIRStmt::Leave => to_string("leave"),
        }
    }
}

} // verus!
