//! Literals, identifiers and expressions of Yul code (inline assembly),
//! and the text they print to.
use vstd::prelude::*;
use crate::name::{Name, name_text};
use crate::loc::Loc;
use crate::text::{seq_join, strings_view, join, to_string};
use crate::yul_types::{YulType, copy_yul_type, yul_type_same};

verus! {

//-------------------------------------------------------------------------
// Literals
//-------------------------------------------------------------------------

/// A Yul IR literal.
#[derive(Debug, PartialEq, Eq, Hash)]
pub enum YulLit {
    Num(YulNumLit),
    Bool(YulBoolLit),
    Hex(YulHexLit),
    Str(YulStringLit),
}

/// A number literal: hexadecimal, by its text, or decimal, by its decimal
/// digits (with a leading `-` if negative).
#[derive(Debug, PartialEq, Eq, Hash)]
pub enum YulNumLit {
    Hex(String),
    Dec(String),
}

/// A boolean literal.
#[derive(Debug, PartialEq, Eq, Hash, Clone, Copy)]
pub struct YulBoolLit {
    pub value: bool,
}

/// A hex string literal.
#[derive(Debug, PartialEq, Eq, Hash)]
pub struct YulHexLit {
    pub value: String,
}

/// A string literal.
#[derive(Debug, PartialEq, Eq, Hash)]
pub struct YulStringLit {
    pub value: String,
}

/// Text of a literal.
pub open spec fn lit_text(l: YulLit) -> Seq<char> {
    match l {
        YulLit::Num(YulNumLit::Hex(s)) => s@,
        YulLit::Num(YulNumLit::Dec(s)) => s@,
        YulLit::Bool(b) => if b.value {
            "true"@
        } else {
            "false"@
        },
        YulLit::Hex(h) => "hex\""@ + h.value@ + "\""@,
        YulLit::Str(s) => "\""@ + s.value@ + "\""@,
    }
}

impl YulBoolLit {
    pub fn new(literal: bool) -> (res: Self)
        ensures
            res.value == literal,
    {
        YulBoolLit { value: literal }
    }
}

impl YulHexLit {
    pub fn new(literal: &str) -> (res: Self)
        ensures
            res.value@ == literal@,
    {
        YulHexLit { value: to_string(literal) }
    }
}

impl YulStringLit {
    pub fn new(value: &str) -> (res: Self)
        ensures
            res.value@ == value@,
    {
        YulStringLit { value: to_string(value) }
    }
}

impl YulNumLit {
    pub fn new_hex(hex: String) -> (res: Self)
        ensures
            res == YulNumLit::Hex(hex),
    {
        YulNumLit::Hex(hex)
    }

    pub fn new_decimal(num: String) -> (res: Self)
        ensures
            res == YulNumLit::Dec(num),
    {
        YulNumLit::Dec(num)
    }
}

impl YulLit {
    /// The text that displaying the literal produces.
    pub fn to_string(&self) -> (res: String)
        ensures
            res@ == lit_text(*self),
    {
        match self {
            YulLit::Num(YulNumLit::Hex(s)) => s.clone(),
            YulLit::Num(YulNumLit::Dec(s)) => s.clone(),
            YulLit::Bool(b) => if b.value {
                to_string("true")
            } else {
                to_string("false")
            },
            YulLit::Hex(h) => {
                let mut s = to_string("hex\"");
                s.append(h.value.as_str());
                s.append("\"");
                s
            },
            YulLit::Str(t) => {
                let mut s = to_string("\"");
                s.append(t.value.as_str());
                s.append("\"");
                s
            },
        }
    }
}

//-------------------------------------------------------------------------
// Identifiers and expressions
//-------------------------------------------------------------------------

/// An identifier with its type.
#[derive(Debug, PartialEq, Eq)]
pub struct YulIdentifier {
    pub name: Name,
    pub typ: YulType,
    pub loc: Option<Loc>,
}

/// A Yul IR expression.
#[derive(Debug, PartialEq, Eq)]
pub enum YulExpr {
    Lit(YulLit),
    Ident(YulIdentifier),
    Member(YulMemberExpr),
    Call(YulCallExpr),
}

/// A function call.
#[derive(Debug, PartialEq, Eq)]
pub struct YulCallExpr {
    pub callee: YulIdentifier,
    pub args: Vec<YulExpr>,
}

/// A member access `base.member`.
#[derive(Debug, PartialEq, Eq)]
pub struct YulMemberExpr {
    pub base: Name,
    pub member: Name,
    pub loc: Option<Loc>,
}

impl YulIdentifier {
    pub fn new(name: Name, typ: YulType, loc: Option<Loc>) -> (res: Self)
        ensures
            res.name == name,
            res.typ == typ,
            res.loc == loc,
    {
        YulIdentifier { name, typ, loc }
    }
}

impl YulCallExpr {
    pub fn new(function: YulIdentifier, arguments: Vec<YulExpr>) -> (res: Self)
        ensures
            res.callee == function,
            res.args@ == arguments@,
    {
        YulCallExpr { callee: function, args: arguments }
    }
}

impl YulMemberExpr {
    pub fn new(base: Name, member: Name, loc: Option<Loc>) -> (res: Self)
        ensures
            res.base == base,
            res.member == member,
            res.loc == loc,
    {
        YulMemberExpr { base, member, loc }
    }

    /// Sets the index of the member's name.
    pub fn set_naming_index(&mut self, index: Option<usize>)
        ensures
            final(self).member@ == (crate::name::NameView { index, ..old(self).member@ }),
            final(self).base == old(self).base,
            final(self).loc == old(self).loc,
    {
        self.member.index = index;
    }
}

/// Text of an identifier: its name.
pub open spec fn ident_text(i: YulIdentifier) -> Seq<char> {
    name_text(i.name@)
}

/// Text of an expression.
pub open spec fn expr_text(e: YulExpr) -> Seq<char>
    decreases e,
{
    match e {
        YulExpr::Lit(l) => lit_text(l),
        YulExpr::Ident(i) => ident_text(i),
        YulExpr::Member(m) => name_text(m.base@) + "."@ + name_text(m.member@),
        YulExpr::Call(c) => ident_text(c.callee) + "("@ + seq_join(exprs_text(c.args@), ", "@)
            + ")"@,
    }
}

/// Texts of a sequence of expressions.
pub open spec fn exprs_text(es: Seq<YulExpr>) -> Seq<Seq<char>>
    decreases es,
{
    if es.len() == 0 {
        Seq::empty()
    } else {
        exprs_text(es.subrange(0, es.len() - 1)).push(expr_text(es[es.len() - 1]))
    }
}

proof fn lemma_exprs_text(es: Seq<YulExpr>)
    ensures
        exprs_text(es).len() == es.len(),
        forall|i: int| 0 <= i < es.len() ==> #[trigger] exprs_text(es)[i] == expr_text(es[i]),
    decreases es.len(),
{
    if es.len() > 0 {
        let init = es.subrange(0, es.len() - 1);
        lemma_exprs_text(init);
        assert forall|i: int| 0 <= i < es.len() implies #[trigger] exprs_text(es)[i] == expr_text(
            es[i],
        ) by {
            if i < es.len() - 1 {
                assert(init[i] == es[i]);
            }
        }
    }
}

impl YulIdentifier {
    /// The text that displaying the identifier produces: its name.
    pub fn to_string(&self) -> (res: String)
        ensures
            res@ == ident_text(*self),
    {
        self.name.to_string()
    }
}

impl YulMemberExpr {
    /// The text that displaying the expression produces.
    pub fn to_string(&self) -> (res: String)
        ensures
            res@ == expr_text(YulExpr::Member(*self)),
    {
        let mut s = self.base.to_string();
        s.append(".");
        s.append(self.member.to_string().as_str());
        s
    }
}

impl YulCallExpr {
    /// The text that displaying the call produces: the callee, then the
    /// arguments separated by commas, in parentheses.
    pub fn to_string(&self) -> (res: String)
        ensures
            res@ == expr_text(YulExpr::Call(*self)),
        decreases self,
    {
        let mut parts: Vec<String> = Vec::new();
        let mut i: usize = 0;
        while i < self.args.len()
            invariant
                i <= self.args.len(),
                parts@.len() == i,
                forall|j: int| 0 <= j < i ==> #[trigger] parts@[j]@ == expr_text(self.args@[j]),
            decreases self.args.len() - i,
        {
            proof {
                assert(decreases_to!(self => self.args));
                assert(decreases_to!(self.args => self.args@));
                assert(decreases_to!(self.args@ => self.args@[i as int]));
            }
            parts.push(self.args[i].to_string());
            i = i + 1;
        }
        proof {
            lemma_exprs_text(self.args@);
            assert(strings_view(parts@) =~= exprs_text(self.args@));
        }
        let mut s = self.callee.to_string();
        s.append("(");
        s.append(join(&parts, ", ").as_str());
        s.append(")");
        s
    }
}

impl YulExpr {
    /// The text that displaying the expression produces.
    pub fn to_string(&self) -> (res: String)
        ensures
            res@ == expr_text(*self),
        decreases self,
    {
        match self {
            YulExpr::Lit(l) => l.to_string(),
            YulExpr::Ident(i) => i.to_string(),
            YulExpr::Member(m) => m.to_string(),
            YulExpr::Call(c) => c.to_string(),
        }
    }
}

//-------------------------------------------------------------------------
// Copies
//-------------------------------------------------------------------------

impl Clone for YulLit {
    fn clone(&self) -> (res: Self)
        ensures
            res == *self,
    {
        match self {
            YulLit::Num(YulNumLit::Hex(s)) => YulLit::Num(YulNumLit::Hex(s.clone())),
            YulLit::Num(YulNumLit::Dec(s)) => YulLit::Num(YulNumLit::Dec(s.clone())),
            YulLit::Bool(b) => YulLit::Bool(YulBoolLit { value: b.value }),
            YulLit::Hex(h) => YulLit::Hex(YulHexLit { value: h.value.clone() }),
            YulLit::Str(t) => YulLit::Str(YulStringLit { value: t.value.clone() }),
        }
    }
}

/// Whether two identifiers are the same.
pub open spec fn yul_ident_same(a: YulIdentifier, b: YulIdentifier) -> bool {
    a.name == b.name && yul_type_same(a.typ, b.typ) && a.loc == b.loc
}

/// Whether two sequences of identifiers are the same, element by element.
pub open spec fn yul_idents_same(a: Seq<YulIdentifier>, b: Seq<YulIdentifier>) -> bool {
    a.len() == b.len() && forall|i: int| 0 <= i < a.len() ==> yul_ident_same(a[i], b[i])
}

/// Whether two expressions are the same.
pub open spec fn yul_expr_same(a: YulExpr, b: YulExpr) -> bool
    decreases a,
{
    match (a, b) {
        (YulExpr::Lit(x), YulExpr::Lit(y)) => x == y,
        (YulExpr::Ident(x), YulExpr::Ident(y)) => yul_ident_same(x, y),
        (YulExpr::Member(x), YulExpr::Member(y)) => x == y,
        (YulExpr::Call(x), YulExpr::Call(y)) => yul_ident_same(x.callee, y.callee) && x.args@.len()
            == y.args@.len() && forall|i: int|
            0 <= i < x.args@.len() ==> yul_expr_same(x.args@[i], y.args@[i]),
        _ => false,
    }
}

/// A copy of an identifier.
pub fn copy_yul_ident(x: &YulIdentifier) -> (res: YulIdentifier)
    ensures
        yul_ident_same(*x, res),
{
    YulIdentifier { name: x.name.clone(), typ: copy_yul_type(&x.typ), loc: x.loc }
}

/// Copies of identifiers, in order.
pub fn copy_yul_idents(xs: &Vec<YulIdentifier>) -> (res: Vec<YulIdentifier>)
    ensures
        yul_idents_same(xs@, res@),
{
    let mut res: Vec<YulIdentifier> = Vec::new();
    let mut i: usize = 0;
    while i < xs.len()
        invariant
            i <= xs.len(),
            res@.len() == i,
            forall|j: int| 0 <= j < i ==> yul_ident_same(xs@[j], res@[j]),
        decreases xs.len() - i,
    {
        res.push(copy_yul_ident(&xs[i]));
        i = i + 1;
    }
    res
}

/// A copy of an expression.
pub fn copy_yul_expr(e: &YulExpr) -> (res: YulExpr)
    ensures
        yul_expr_same(*e, res),
    decreases e,
{
    match e {
        YulExpr::Lit(x) => YulExpr::Lit(x.clone()),
        YulExpr::Ident(x) => YulExpr::Ident(copy_yul_ident(x)),
        YulExpr::Member(x) => YulExpr::Member(
            YulMemberExpr { base: x.base.clone(), member: x.member.clone(), loc: x.loc },
        ),
        YulExpr::Call(x) => YulExpr::Call(
            YulCallExpr { callee: copy_yul_ident(&x.callee), args: copy_yul_exprs(&x.args) },
        ),
    }
}

/// Copies of expressions, in order.
fn copy_yul_exprs(es: &Vec<YulExpr>) -> (res: Vec<YulExpr>)
    ensures
        res@.len() == es@.len(),
        forall|i: int| 0 <= i < es@.len() ==> yul_expr_same(es@[i], res@[i]),
    decreases es@,
{
    let mut res: Vec<YulExpr> = Vec::new();
    let mut i: usize = 0;
    while i < es.len()
        invariant
            i <= es.len(),
            res@.len() == i,
            forall|j: int| 0 <= j < i ==> yul_expr_same(es@[j], res@[j]),
        decreases es.len() - i,
    {
        res.push(copy_yul_expr(&es[i]));
        i = i + 1;
    }
    res
}

} // verus!
