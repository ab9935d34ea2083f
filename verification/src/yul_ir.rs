//! Literals, expressions, statements, blocks and definitions of the Yul
//! intermediate representation, and the Yul text they print to.
use vstd::prelude::*;
use crate::name::{Name, name_text};
use crate::text::{seq_join, strings_view, join, to_string};
use crate::yul_ir_types::YulIRType;

verus! {

//-------------------------------------------------------------------------
// Literals
//-------------------------------------------------------------------------

/// A Yul IR literal.
#[derive(Debug, PartialEq, Eq, Hash)]
pub enum YulIRLit {
    Num(YulIRNumLit),
    Bool(YulIRBoolLit),
    Hex(YulIRHexLit),
    Str(YulIRStringLit),
}

/// A number literal: hexadecimal, by its text, or decimal, by its decimal
/// digits (with a leading `-` if negative).
#[derive(Debug, PartialEq, Eq, Hash)]
pub enum YulIRNumLit {
    Hex(String),
    Dec(String),
}

/// A boolean literal.
#[derive(Debug, PartialEq, Eq, Hash, Clone, Copy)]
pub struct YulIRBoolLit {
    pub value: bool,
}

/// A hex string literal.
#[derive(Debug, PartialEq, Eq, Hash)]
pub struct YulIRHexLit {
    pub value: String,
}

/// A string literal.
#[derive(Debug, PartialEq, Eq, Hash)]
pub struct YulIRStringLit {
    pub value: String,
}

/// Text of a literal.
pub open spec fn lit_text(l: YulIRLit) -> Seq<char> {
    match l {
        YulIRLit::Num(YulIRNumLit::Hex(s)) => s@,
        YulIRLit::Num(YulIRNumLit::Dec(s)) => s@,
        YulIRLit::Bool(b) => if b.value {
            "true"@
        } else {
            "false"@
        },
        YulIRLit::Hex(h) => "hex\""@ + h.value@ + "\""@,
        YulIRLit::Str(s) => "\""@ + s.value@ + "\""@,
    }
}

impl YulIRBoolLit {
    pub fn new(literal: bool) -> (res: Self)
        ensures
            res.value == literal,
    {
        YulIRBoolLit { value: literal }
    }
}

impl YulIRHexLit {
    pub fn new(literal: &str) -> (res: Self)
        ensures
            res.value@ == literal@,
    {
        YulIRHexLit { value: to_string(literal) }
    }
}

impl YulIRStringLit {
    pub fn new(value: &str) -> (res: Self)
        ensures
            res.value@ == value@,
    {
        YulIRStringLit { value: to_string(value) }
    }
}

impl YulIRNumLit {
    pub fn new_hex(hex: String) -> (res: Self)
        ensures
            res == YulIRNumLit::Hex(hex),
    {
        YulIRNumLit::Hex(hex)
    }

    pub fn new_decimal(num: String) -> (res: Self)
        ensures
            res == YulIRNumLit::Dec(num),
    {
        YulIRNumLit::Dec(num)
    }
}

impl YulIRLit {
    /// The text that displaying the literal produces.
    pub fn to_string(&self) -> (res: String)
        ensures
            res@ == lit_text(*self),
    {
        match self {
            YulIRLit::Num(YulIRNumLit::Hex(s)) => s.clone(),
            YulIRLit::Num(YulIRNumLit::Dec(s)) => s.clone(),
            YulIRLit::Bool(b) => if b.value {
                to_string("true")
            } else {
                to_string("false")
            },
            YulIRLit::Hex(h) => {
                let mut s = to_string("hex\"");
                s.append(h.value.as_str());
                s.append("\"");
                s
            },
            YulIRLit::Str(t) => {
                let mut s = to_string("\"");
                s.append(t.value.as_str());
                s.append("\"");
                s
            },
        }
    }
}

//-------------------------------------------------------------------------
// Identifiers and expressions
//-------------------------------------------------------------------------

/// An identifier with its type.
#[derive(Debug, PartialEq, Eq)]
pub struct YulIRIdentifier {
    pub name: Name,
    pub typ: YulIRType,
}

/// A Yul IR expression.
#[derive(Debug, PartialEq, Eq)]
pub enum YulIRExpr {
    Lit(YulIRLit),
    Ident(YulIRIdentifier),
    Member(YulIRMemberExpr),
    Call(YulIRCallExpr),
}

/// A function call.
#[derive(Debug, PartialEq, Eq)]
pub struct YulIRCallExpr {
    pub callee: YulIRIdentifier,
    pub args: Vec<YulIRExpr>,
}

/// A member access `base.member`.
#[derive(Debug, PartialEq, Eq)]
pub struct YulIRMemberExpr {
    pub base: Name,
    pub member: Name,
}

impl YulIRIdentifier {
    pub fn new(name: Name, typ: YulIRType) -> (res: Self)
        ensures
            res.name == name,
            res.typ == typ,
    {
        YulIRIdentifier { name, typ }
    }
}

impl YulIRCallExpr {
    pub fn new(function: YulIRIdentifier, arguments: Vec<YulIRExpr>) -> (res: Self)
        ensures
            res.callee == function,
            res.args@ == arguments@,
    {
        YulIRCallExpr { callee: function, args: arguments }
    }
}

impl YulIRMemberExpr {
    pub fn new(base: Name, member: Name) -> (res: Self)
        ensures
            res.base == base,
            res.member == member,
    {
        YulIRMemberExpr { base, member }
    }
}

/// Text of an identifier: its name.
pub open spec fn ident_text(i: YulIRIdentifier) -> Seq<char> {
    name_text(i.name@)
}

/// Text of an expression.
pub open spec fn expr_text(e: YulIRExpr) -> Seq<char>
    decreases e,
{
    match e {
        YulIRExpr::Lit(l) => lit_text(l),
        YulIRExpr::Ident(i) => ident_text(i),
        YulIRExpr::Member(m) => name_text(m.base@) + "."@ + name_text(m.member@),
        YulIRExpr::Call(c) => ident_text(c.callee) + "("@ + seq_join(exprs_text(c.args@), ", "@)
            + ")"@,
    }
}

/// Texts of a sequence of expressions.
pub open spec fn exprs_text(es: Seq<YulIRExpr>) -> Seq<Seq<char>>
    decreases es,
{
    if es.len() == 0 {
        Seq::empty()
    } else {
        exprs_text(es.subrange(0, es.len() - 1)).push(expr_text(es[es.len() - 1]))
    }
}

proof fn lemma_exprs_text(es: Seq<YulIRExpr>)
    ensures
        exprs_text(es).len() == es.len(),
        forall|i: int| 0 <= i < es.len() ==> #[trigger] exprs_text(es)[i] == expr_text(es[i]),
    decreases es.len(),
{
    if es.len() > 0 {
        let init = es.subrange(0, es.len() - 1);
        lemma_exprs_text(init);
        assert forall|i: int| 0 <= i < es.len() implies #[trigger] exprs_text(es)[i] == expr_text(
            es[i],
        ) by {
            if i < es.len() - 1 {
                assert(init[i] == es[i]);
            }
        }
    }
}

impl YulIRIdentifier {
    /// The text that displaying the identifier produces: its name.
    pub fn to_string(&self) -> (res: String)
        ensures
            res@ == ident_text(*self),
    {
        self.name.to_string()
    }
}

impl YulIRMemberExpr {
    /// The text that displaying the expression produces.
    pub fn to_string(&self) -> (res: String)
        ensures
            res@ == expr_text(YulIRExpr::Member(*self)),
    {
        let mut s = self.base.to_string();
        s.append(".");
        s.append(self.member.to_string().as_str());
        s
    }
}

impl YulIRCallExpr {
    /// The text that displaying the call produces: the callee, then the
    /// arguments separated by commas, in parentheses.
    pub fn to_string(&self) -> (res: String)
        ensures
            res@ == expr_text(YulIRExpr::Call(*self)),
        decreases self,
    {
        let mut parts: Vec<String> = Vec::new();
        let mut i: usize = 0;
        while i < self.args.len()
            invariant
                i <= self.args.len(),
                parts@.len() == i,
                forall|j: int| 0 <= j < i ==> #[trigger] parts@[j]@ == expr_text(self.args@[j]),
            decreases self.args.len() - i,
        {
            proof {
                assert(decreases_to!(self => self.args));
                assert(decreases_to!(self.args => self.args@));
                assert(decreases_to!(self.args@ => self.args@[i as int]));
            }
            parts.push(self.args[i].to_string());
            i = i + 1;
        }
        proof {
            lemma_exprs_text(self.args@);
            assert(strings_view(parts@) =~= exprs_text(self.args@));
        }
        let mut s = self.callee.to_string();
        s.append("(");
        s.append(join(&parts, ", ").as_str());
        s.append(")");
        s
    }
}

impl YulIRExpr {
    /// The text that displaying the expression produces.
    pub fn to_string(&self) -> (res: String)
        ensures
            res@ == expr_text(*self),
        decreases self,
    {
        match self {
            YulIRExpr::Lit(l) => l.to_string(),
            YulIRExpr::Ident(i) => i.to_string(),
            YulIRExpr::Member(m) => m.to_string(),
            YulIRExpr::Call(c) => c.to_string(),
        }
    }
}

} // verus!
