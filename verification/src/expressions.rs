//! Expressions of Solidity: identifiers, literals, operators, calls,
//! tuples, index and slice accesses, member accesses, conditionals, inline
//! arrays, `new` and type names, with the source text they print to.
use vstd::prelude::*;
use crate::exprs::{NewExpr, TypeNameExpr, new_expr_text, type_name_expr_text};
use crate::lits::{Lit, lit_loc, lit_text, lit_type, lit_with_type};
use crate::loc::Loc;
use crate::name::{Name, NameView, name_text};
use crate::operators::{
    AssignOp, BinOp, CallKind, UnaryOp, assign_op_text, bin_op_text, unary_op_text,
};
use crate::text::{seq_join, strings_view, join, to_string};
use crate::types::{Type, types_same};
use crate::named_args::{call_params, ordered_values};
use crate::directives::UsingDir;
use crate::source_unit::SourceUnitElem;
use crate::usings::{UsingTarget, using_target};
use crate::super_calls::{resolve_in, super_order};

verus! {

/// An expression.
#[derive(PartialEq, Eq, Debug)]
pub enum Expr {
    Ident(Identifier),
    Lit(Lit),
    Unary(UnaryExpr),
    Binary(BinaryExpr),
    Assign(AssignExpr),
    Call(CallExpr),
    CallOpts(CallOptsExpr),
    Tuple(TupleExpr),
    Index(IndexExpr),
    Slice(SliceExpr),
    Member(MemberExpr),
    Conditional(ConditionalExpr),
    InlineArray(InlineArrayExpr),
    New(NewExpr),
    TypeName(TypeNameExpr),
}

/// An identifier, with its type.
#[derive(PartialEq, Eq, Debug)]
pub struct Identifier {
    pub id: Option<isize>,
    pub name: Name,
    pub typ: Type,
    pub loc: Option<Loc>,
}

/// An assignment `left op right`.
#[derive(PartialEq, Eq, Debug)]
pub struct AssignExpr {
    pub id: Option<isize>,
    pub operator: AssignOp,
    pub left: Box<Expr>,
    pub right: Box<Expr>,
    pub typ: Type,
    pub loc: Option<Loc>,
}

/// A binary operation.
#[derive(PartialEq, Eq, Debug)]
pub struct BinaryExpr {
    pub id: Option<isize>,
    pub operator: BinOp,
    pub left: Box<Expr>,
    pub right: Box<Expr>,
    pub typ: Type,
    pub loc: Option<Loc>,
}

/// A unary operation.
#[derive(PartialEq, Eq, Debug)]
pub struct UnaryExpr {
    pub id: Option<isize>,
    pub op: UnaryOp,
    pub body: Box<Expr>,
    pub typ: Type,
    pub loc: Option<Loc>,
}

/// A call, with its call options and arguments.
#[derive(PartialEq, Eq, Debug)]
pub struct CallExpr {
    pub id: Option<isize>,
    pub callee: Box<Expr>,
    pub call_opts: Vec<CallOpt>,
    pub args: CallArgs,
    pub kind: CallKind,
    pub typ: Type,
    pub loc: Option<Loc>,
}

/// The arguments of a call: positional or named.
#[derive(PartialEq, Eq, Debug)]
pub enum CallArgs {
    Unnamed(Vec<Expr>),
    Named(Vec<NamedArg>),
}

/// A named argument `name: value`.
#[derive(PartialEq, Eq, Debug)]
pub struct NamedArg {
    pub name: String,
    pub value: Expr,
    pub loc: Option<Loc>,
}

/// A callee with call options, such as `f{value: 1}`.
#[derive(PartialEq, Eq, Debug)]
pub struct CallOptsExpr {
    pub id: Option<isize>,
    pub callee: Box<Expr>,
    pub call_opts: Vec<CallOpt>,
    pub typ: Type,
    pub loc: Option<Loc>,
}

/// A call option `name: value`.
#[derive(PartialEq, Eq, Debug)]
pub struct CallOpt {
    pub name: String,
    pub value: Expr,
    pub loc: Option<Loc>,
}

/// A conditional `cond ? true_br : false_br`.
#[derive(PartialEq, Eq, Debug)]
pub struct ConditionalExpr {
    pub id: Option<isize>,
    pub cond: Box<Expr>,
    pub true_br: Box<Expr>,
    pub false_br: Box<Expr>,
    pub typ: Type,
    pub loc: Option<Loc>,
}

/// An index access `base[index]`, or `base[]` for a type.
#[derive(PartialEq, Eq, Debug)]
pub struct IndexExpr {
    pub id: Option<isize>,
    pub base_expr: Box<Expr>,
    pub index: Option<Box<Expr>>,
    pub typ: Type,
    pub loc: Option<Loc>,
}

/// An inline array `[e1, e2]`.
#[derive(PartialEq, Eq, Debug)]
pub struct InlineArrayExpr {
    pub id: Option<isize>,
    pub elems: Vec<Expr>,
    pub typ: Type,
    pub loc: Option<Loc>,
}

/// A member access `base.member`.
#[derive(PartialEq, Eq, Debug)]
pub struct MemberExpr {
    pub id: Option<isize>,
    pub base: Box<Expr>,
    pub member: Name,
    pub typ: Type,
    pub loc: Option<Loc>,
}

/// A slice `base[start:end]`.
#[derive(PartialEq, Eq, Debug)]
pub struct SliceExpr {
    pub id: Option<isize>,
    pub base_expr: Box<Expr>,
    pub start_index: Option<Box<Expr>>,
    pub end_index: Option<Box<Expr>>,
    pub typ: Type,
    pub loc: Option<Loc>,
}

/// A tuple, whose components may be left out.
#[derive(PartialEq, Eq, Debug)]
pub struct TupleExpr {
    pub id: Option<isize>,
    pub elems: Vec<Option<Expr>>,
    pub typ: Type,
    pub loc: Option<Loc>,
}

//-------------------------------------------------------------------------
// Text
//-------------------------------------------------------------------------

/// Text of an expression.
pub open spec fn expr_text(e: Expr) -> Seq<char>
    decreases e,
{
    match e {
        Expr::Ident(i) => name_text(i.name@),
        Expr::Lit(l) => lit_text(l),
        Expr::Unary(u) => match u.op {
            UnaryOp::Delete => unary_op_text(u.op) + " "@ + expr_text(*u.body),
            UnaryOp::PostDecr => expr_text(*u.body) + unary_op_text(u.op),
            UnaryOp::PostIncr => expr_text(*u.body) + unary_op_text(u.op),
            _ => unary_op_text(u.op) + expr_text(*u.body),
        },
        Expr::Binary(b) => expr_text(*b.left) + " "@ + bin_op_text(b.operator) + " "@ + expr_text(
            *b.right,
        ),
        Expr::Assign(a) => expr_text(*a.left) + " "@ + assign_op_text(a.operator) + " "@
            + expr_text(*a.right),
        Expr::Tuple(t) => "("@ + seq_join(opt_exprs_text(t.elems@), ", "@) + ")"@,
        Expr::Index(i) => match i.index {
            Some(x) => expr_text(*i.base_expr) + "["@ + expr_text(*x) + "]"@,
            None => expr_text(*i.base_expr) + "[]"@,
        },
        Expr::Slice(s) => expr_text(*s.base_expr) + "["@ + match s.start_index {
            Some(x) => expr_text(*x),
            None => Seq::empty(),
        } + ":"@ + match s.end_index {
            Some(x) => expr_text(*x),
            None => Seq::empty(),
        } + "]"@,
        Expr::Member(m) => expr_text(*m.base) + "."@ + name_text(m.member@),
        Expr::Conditional(c) => expr_text(*c.cond) + " ? "@ + expr_text(*c.true_br) + " : "@
            + expr_text(*c.false_br),
        Expr::Call(c) => if c.call_opts@.len() == 0 {
            expr_text(*c.callee) + "("@ + args_text(c.args) + ")"@
        } else {
            expr_text(*c.callee) + "{"@ + seq_join(call_opts_text(c.call_opts@), ", "@) + "}("@
                + args_text(c.args) + ")"@
        },
        Expr::CallOpts(c) => expr_text(*c.callee) + "{"@ + seq_join(
            call_opts_text(c.call_opts@),
            ", "@,
        ) + "}"@,
        Expr::TypeName(t) => type_name_expr_text(t),
        Expr::InlineArray(a) => "["@ + seq_join(exprs_text(a.elems@), ", "@) + "]"@,
        Expr::New(n) => new_expr_text(n),
    }
}

/// Text of call arguments: positional ones separated by commas, named
/// ones separated by commas in braces.
pub open spec fn args_text(a: CallArgs) -> Seq<char>
    decreases a,
{
    match a {
        CallArgs::Unnamed(es) => seq_join(exprs_text(es@), ", "@),
        CallArgs::Named(ns) => "{"@ + seq_join(named_args_text(ns@), ", "@) + "}"@,
    }
}

/// Texts of a sequence of expressions.
pub open spec fn exprs_text(es: Seq<Expr>) -> Seq<Seq<char>>
    decreases es,
{
    if es.len() == 0 {
        Seq::empty()
    } else {
        exprs_text(es.subrange(0, es.len() - 1)).push(expr_text(es[es.len() - 1]))
    }
}

/// Texts of tuple components; nothing for a left-out one.
pub open spec fn opt_exprs_text(es: Seq<Option<Expr>>) -> Seq<Seq<char>>
    decreases es,
{
    if es.len() == 0 {
        Seq::empty()
    } else {
        opt_exprs_text(es.subrange(0, es.len() - 1)).push(
            match es[es.len() - 1] {
                Some(e) => expr_text(e),
                None => Seq::empty(),
            },
        )
    }
}

/// Texts of named arguments: `name: value`.
pub open spec fn named_args_text(ns: Seq<NamedArg>) -> Seq<Seq<char>>
    decreases ns,
{
    if ns.len() == 0 {
        Seq::empty()
    } else {
        named_args_text(ns.subrange(0, ns.len() - 1)).push(
            ns[ns.len() - 1].name@ + ": "@ + expr_text(ns[ns.len() - 1].value),
        )
    }
}

/// Texts of call options: `name: value`.
pub open spec fn call_opts_text(os: Seq<CallOpt>) -> Seq<Seq<char>>
    decreases os,
{
    if os.len() == 0 {
        Seq::empty()
    } else {
        call_opts_text(os.subrange(0, os.len() - 1)).push(
            os[os.len() - 1].name@ + ": "@ + expr_text(os[os.len() - 1].value),
        )
    }
}

/// The texts of the parts, one by one.
pub proof fn lemma_exprs_text(es: Seq<Expr>)
    ensures
        exprs_text(es).len() == es.len(),
        forall|i: int| 0 <= i < es.len() ==> #[trigger] exprs_text(es)[i] == expr_text(es[i]),
    decreases es.len(),
{
    if es.len() > 0 {
        let init = es.subrange(0, es.len() - 1);
        lemma_exprs_text(init);
        assert forall|i: int| 0 <= i < es.len() implies #[trigger] exprs_text(es)[i] == expr_text(
            es[i],
        ) by {
            if i < es.len() - 1 {
                assert(init[i] == es[i]);
            }
        }
    }
}

/// The texts of the parts, one by one.
pub proof fn lemma_opt_exprs_text(es: Seq<Option<Expr>>)
    ensures
        opt_exprs_text(es).len() == es.len(),
        forall|i: int|
            0 <= i < es.len() ==> #[trigger] opt_exprs_text(es)[i] == match es[i] {
                Some(e) => expr_text(e),
                None => Seq::empty(),
            },
    decreases es.len(),
{
    if es.len() > 0 {
        let init = es.subrange(0, es.len() - 1);
        lemma_opt_exprs_text(init);
        assert forall|i: int| 0 <= i < es.len() implies #[trigger] opt_exprs_text(es)[i]
            == match es[i] {
            Some(e) => expr_text(e),
            None => Seq::empty(),
        } by {
            if i < es.len() - 1 {
                assert(init[i] == es[i]);
            }
        }
    }
}

/// The texts of the parts, one by one.
pub proof fn lemma_named_args_text(ns: Seq<NamedArg>)
    ensures
        named_args_text(ns).len() == ns.len(),
        forall|i: int|
            0 <= i < ns.len() ==> #[trigger] named_args_text(ns)[i] == ns[i].name@ + ": "@
                + expr_text(ns[i].value),
    decreases ns.len(),
{
    if ns.len() > 0 {
        let init = ns.subrange(0, ns.len() - 1);
        lemma_named_args_text(init);
        assert forall|i: int| 0 <= i < ns.len() implies #[trigger] named_args_text(ns)[i]
            == ns[i].name@ + ": "@ + expr_text(ns[i].value) by {
            if i < ns.len() - 1 {
                assert(init[i] == ns[i]);
            }
        }
    }
}

/// The texts of the parts, one by one.
pub proof fn lemma_call_opts_text(os: Seq<CallOpt>)
    ensures
        call_opts_text(os).len() == os.len(),
        forall|i: int|
            0 <= i < os.len() ==> #[trigger] call_opts_text(os)[i] == os[i].name@ + ": "@
                + expr_text(os[i].value),
    decreases os.len(),
{
    if os.len() > 0 {
        let init = os.subrange(0, os.len() - 1);
        lemma_call_opts_text(init);
        assert forall|i: int| 0 <= i < os.len() implies #[trigger] call_opts_text(os)[i]
            == os[i].name@ + ": "@ + expr_text(os[i].value) by {
            if i < os.len() - 1 {
                assert(init[i] == os[i]);
            }
        }
    }
}

//-------------------------------------------------------------------------
// Queries
//-------------------------------------------------------------------------

/// The node id of an expression; literals have none.
pub open spec fn expr_id(e: Expr) -> Option<isize> {
    match e {
        Expr::Lit(_) => None,
        Expr::Ident(x) => x.id,
        Expr::Unary(x) => x.id,
        Expr::Binary(x) => x.id,
        Expr::Assign(x) => x.id,
        Expr::Call(x) => x.id,
        Expr::CallOpts(x) => x.id,
        Expr::Tuple(x) => x.id,
        Expr::Index(x) => x.id,
        Expr::Slice(x) => x.id,
        Expr::Member(x) => x.id,
        Expr::Conditional(x) => x.id,
        Expr::InlineArray(x) => x.id,
        Expr::New(x) => x.id,
        Expr::TypeName(x) => x.id,
    }
}

/// The location of an expression.
pub open spec fn expr_loc(e: Expr) -> Option<Loc> {
    match e {
        Expr::Lit(l) => lit_loc(l),
        Expr::Ident(x) => x.loc,
        Expr::Unary(x) => x.loc,
        Expr::Binary(x) => x.loc,
        Expr::Assign(x) => x.loc,
        Expr::Call(x) => x.loc,
        Expr::CallOpts(x) => x.loc,
        Expr::Tuple(x) => x.loc,
        Expr::Index(x) => x.loc,
        Expr::Slice(x) => x.loc,
        Expr::Member(x) => x.loc,
        Expr::Conditional(x) => x.loc,
        Expr::InlineArray(x) => x.loc,
        Expr::New(x) => x.loc,
        Expr::TypeName(x) => x.loc,
    }
}

/// The type of an expression.
pub open spec fn expr_type(e: Expr) -> Type {
    match e {
        Expr::Lit(l) => lit_type(l),
        Expr::Ident(x) => x.typ,
        Expr::Unary(x) => x.typ,
        Expr::Binary(x) => x.typ,
        Expr::Assign(x) => x.typ,
        Expr::Call(x) => x.typ,
        Expr::CallOpts(x) => x.typ,
        Expr::Tuple(x) => x.typ,
        Expr::Index(x) => x.typ,
        Expr::Slice(x) => x.typ,
        Expr::Member(x) => x.typ,
        Expr::Conditional(x) => x.typ,
        Expr::InlineArray(x) => x.typ,
        Expr::New(x) => x.typ,
        Expr::TypeName(x) => x.typ,
    }
}

/// The expression with its type replaced.
pub open spec fn expr_with_type(e: Expr, t: Type) -> Expr {
    match e {
        Expr::Lit(l) => Expr::Lit(lit_with_type(l, t)),
        Expr::Ident(x) => Expr::Ident(Identifier { typ: t, ..x }),
        Expr::Unary(x) => Expr::Unary(UnaryExpr { typ: t, ..x }),
        Expr::Binary(x) => Expr::Binary(BinaryExpr { typ: t, ..x }),
        Expr::Assign(x) => Expr::Assign(AssignExpr { typ: t, ..x }),
        Expr::Call(x) => Expr::Call(CallExpr { typ: t, ..x }),
        Expr::CallOpts(x) => Expr::CallOpts(CallOptsExpr { typ: t, ..x }),
        Expr::Tuple(x) => Expr::Tuple(TupleExpr { typ: t, ..x }),
        Expr::Index(x) => Expr::Index(IndexExpr { typ: t, ..x }),
        Expr::Slice(x) => Expr::Slice(SliceExpr { typ: t, ..x }),
        Expr::Member(x) => Expr::Member(MemberExpr { typ: t, ..x }),
        Expr::Conditional(x) => Expr::Conditional(ConditionalExpr { typ: t, ..x }),
        Expr::InlineArray(x) => Expr::InlineArray(InlineArrayExpr { typ: t, ..x }),
        Expr::New(x) => Expr::New(NewExpr { typ: t, ..x }),
        Expr::TypeName(x) => Expr::TypeName(TypeNameExpr { typ: t, ..x }),
    }
}

/// Whether an expression is built from literals only, with operators,
/// tuples and conditionals.
pub open spec fn literal_based(e: Expr) -> bool
    decreases e,
{
    match e {
        Expr::Lit(_) => true,
        Expr::Unary(u) => literal_based(*u.body),
        Expr::Binary(b) => literal_based(*b.left) && literal_based(*b.right),
        Expr::Tuple(t) => opt_literal_based(t.elems@),
        Expr::Conditional(c) => literal_based(*c.cond) && literal_based(*c.true_br) && literal_based(
            *c.false_br,
        ),
        _ => false,
    }
}

/// Whether all present tuple components are built from literals only.
pub open spec fn opt_literal_based(es: Seq<Option<Expr>>) -> bool
    decreases es,
{
    es.len() == 0 || (opt_literal_based(es.subrange(0, es.len() - 1)) && match es[es.len() - 1] {
        Some(e) => literal_based(e),
        None => true,
    })
}

proof fn lemma_opt_literal_based(es: Seq<Option<Expr>>, k: int)
    requires
        0 <= k <= es.len(),
    ensures
        k < es.len() ==> opt_literal_based(es.take(k + 1)) == (opt_literal_based(es.take(k))
            && match es[k] {
            Some(e) => literal_based(e),
            None => true,
        }),
{
    if k < es.len() {
        assert(es.take(k + 1).subrange(0, k) =~= es.take(k));
    }
}

proof fn lemma_opt_literal_based_prefix(es: Seq<Option<Expr>>, k: int)
    requires
        0 <= k <= es.len(),
        opt_literal_based(es),
    ensures
        opt_literal_based(es.take(k)),
    decreases es.len(),
{
    if k < es.len() {
        let init = es.subrange(0, es.len() - 1);
        lemma_opt_literal_based_prefix(init, k);
        assert(init.take(k) =~= es.take(k));
    } else {
        assert(es.take(k) =~= es);
    }
}

impl Expr {
    /// The node id of the expression.
    pub fn id(&self) -> (res: Option<isize>)
        ensures
            res == expr_id(*self),
    {
        match self {
            Expr::Lit(_) => None,
            Expr::Ident(x) => x.id,
            Expr::Unary(x) => x.id,
            Expr::Binary(x) => x.id,
            Expr::Assign(x) => x.id,
            Expr::Call(x) => x.id,
            Expr::CallOpts(x) => x.id,
            Expr::Tuple(x) => x.id,
            Expr::Index(x) => x.id,
            Expr::Slice(x) => x.id,
            Expr::Member(x) => x.id,
            Expr::Conditional(x) => x.id,
            Expr::InlineArray(x) => x.id,
            Expr::New(x) => x.id,
            Expr::TypeName(x) => x.id,
        }
    }

    /// The location of the expression.
    pub fn loc(&self) -> (res: Option<Loc>)
        ensures
            res == expr_loc(*self),
    {
        match self {
            Expr::Lit(l) => l.loc(),
            Expr::Ident(x) => x.loc,
            Expr::Unary(x) => x.loc,
            Expr::Binary(x) => x.loc,
            Expr::Assign(x) => x.loc,
            Expr::Call(x) => x.loc,
            Expr::CallOpts(x) => x.loc,
            Expr::Tuple(x) => x.loc,
            Expr::Index(x) => x.loc,
            Expr::Slice(x) => x.loc,
            Expr::Member(x) => x.loc,
            Expr::Conditional(x) => x.loc,
            Expr::InlineArray(x) => x.loc,
            Expr::New(x) => x.loc,
            Expr::TypeName(x) => x.loc,
        }
    }

    /// The type of the expression.
    pub fn typ(&self) -> (res: Type)
        ensures
            res == expr_type(*self),
    {
        match self {
            Expr::Lit(l) => l.typ(),
            Expr::Ident(x) => x.typ.clone(),
            Expr::Unary(x) => x.typ.clone(),
            Expr::Binary(x) => x.typ.clone(),
            Expr::Assign(x) => x.typ.clone(),
            Expr::Call(x) => x.typ.clone(),
            Expr::CallOpts(x) => x.typ.clone(),
            Expr::Tuple(x) => x.typ.clone(),
            Expr::Index(x) => x.typ.clone(),
            Expr::Slice(x) => x.typ.clone(),
            Expr::Member(x) => x.typ.clone(),
            Expr::Conditional(x) => x.typ.clone(),
            Expr::InlineArray(x) => x.typ.clone(),
            Expr::New(x) => x.typ.clone(),
            Expr::TypeName(x) => x.typ.clone(),
        }
    }

    /// Replaces the type of the expression.
    pub fn update_data_type(&mut self, new_type: Type)
        ensures
            *final(self) == expr_with_type(*old(self), new_type),
    {
        match self {
            Expr::Lit(l) => l.update_data_type(new_type),
            Expr::Ident(x) => x.typ = new_type,
            Expr::Unary(x) => x.typ = new_type,
            Expr::Binary(x) => x.typ = new_type,
            Expr::Assign(x) => x.typ = new_type,
            Expr::Call(x) => x.typ = new_type,
            Expr::CallOpts(x) => x.typ = new_type,
            Expr::Tuple(x) => x.typ = new_type,
            Expr::Index(x) => x.typ = new_type,
            Expr::Slice(x) => x.typ = new_type,
            Expr::Member(x) => x.typ = new_type,
            Expr::Conditional(x) => x.typ = new_type,
            Expr::InlineArray(x) => x.typ = new_type,
            Expr::New(x) => x.typ = new_type,
            Expr::TypeName(x) => x.typ = new_type,
        }
    }

    /// Whether the expression is an identifier, a literal, a `new` or a
    /// type name, or a call of `type`.
    pub fn is_atomic_expr(&self) -> (res: bool)
        ensures
            res == match *self {
                Expr::Ident(_) | Expr::Lit(_) | Expr::New(_) | Expr::TypeName(_) => true,
                Expr::Call(c) => expr_text(*c.callee) == "type"@,
                _ => false,
            },
    {
        match self {
            Expr::Ident(_) | Expr::Lit(_) | Expr::New(_) | Expr::TypeName(_) => true,
            Expr::Call(c) => crate::text::str_eq(c.callee.to_string().as_str(), "type"),
            _ => false,
        }
    }

    /// Whether the expression is built from literals only (see
    /// `literal_based`).
    pub fn is_literal_based_expr(&self) -> (res: bool)
        ensures
            res == literal_based(*self),
        decreases self,
    {
        match self {
            Expr::Lit(_) => true,
            Expr::Unary(u) => u.body.is_literal_based_expr(),
            Expr::Binary(b) => b.left.is_literal_based_expr() && b.right.is_literal_based_expr(),
            Expr::Tuple(t) => {
                let mut i: usize = 0;
                assert(t.elems@.take(0) =~= Seq::<Option<Expr>>::empty());
                while i < t.elems.len()
                    invariant
                        *self == Expr::Tuple(*t),
                        i <= t.elems.len(),
                        opt_literal_based(t.elems@.take(i as int)),
                    decreases t.elems.len() - i,
                {
                    proof {
                        lemma_opt_literal_based(t.elems@, i as int);
                    }
                    match &t.elems[i] {
                        Some(e) => {
                            proof {
                                assert(decreases_to!(*self => self->Tuple_0));
                                assert(decreases_to!(*t => t.elems));
                                assert(decreases_to!(t.elems => t.elems@));
                                assert(decreases_to!(t.elems@ => t.elems@[i as int]));
                                assert(decreases_to!(t.elems@[i as int] => *e));
                            }
                            if !e.is_literal_based_expr() {
                                proof {
                                    if opt_literal_based(t.elems@) {
                                        lemma_opt_literal_based_prefix(t.elems@, i + 1);
                                    }
                                }
                                return false;
                            }
                        },
                        None => {},
                    }
                    i = i + 1;
                }
                assert(t.elems@.take(i as int) =~= t.elems@);
                true
            },
            Expr::Conditional(c) => c.cond.is_literal_based_expr()
                && c.true_br.is_literal_based_expr() && c.false_br.is_literal_based_expr(),
            _ => false,
        }
    }

    /// The text that displaying the expression produces.
    pub fn to_string(&self) -> (res: String)
        ensures
            res@ == expr_text(*self),
        decreases self,
    {
        match self {
            Expr::Ident(i) => i.name.to_string(),
            Expr::Lit(l) => l.to_string(),
            Expr::Unary(u) => u.to_string(),
            Expr::Binary(b) => b.to_string(),
            Expr::Assign(a) => a.to_string(),
            Expr::Tuple(t) => t.to_string(),
            Expr::Index(x) => x.to_string(),
            Expr::Slice(x) => x.to_string(),
            Expr::Member(m) => m.to_string(),
            Expr::Conditional(c) => c.to_string(),
            Expr::Call(c) => c.to_string(),
            Expr::CallOpts(c) => c.to_string(),
            Expr::TypeName(t) => t.to_string(),
            Expr::InlineArray(a) => a.to_string(),
            Expr::New(n) => n.to_string(),
        }
    }
}

impl UnaryExpr {
    /// The text that displaying the expression produces.
    pub fn to_string(&self) -> (res: String)
        ensures
            res@ == expr_text(Expr::Unary(*self)),
        decreases self,
    {
        let body = self.body.to_string();
        let op = self.op.to_string();
        match self.op {
            UnaryOp::Delete => {
                let mut s = op;
                s.append(" ");
                s.append(body.as_str());
                s
            },
            UnaryOp::PostDecr | UnaryOp::PostIncr => {
                let mut s = body;
                s.append(op.as_str());
                s
            },
            _ => {
                let mut s = op;
                s.append(body.as_str());
                s
            },
        }
    }
}

impl BinaryExpr {
    /// The text that displaying the expression produces.
    pub fn to_string(&self) -> (res: String)
        ensures
            res@ == expr_text(Expr::Binary(*self)),
        decreases self,
    {
        let mut s = self.left.to_string();
        s.append(" ");
        s.append(self.operator.to_string().as_str());
        s.append(" ");
        s.append(self.right.to_string().as_str());
        s
    }
}

impl AssignExpr {
    /// The text that displaying the expression produces.
    pub fn to_string(&self) -> (res: String)
        ensures
            res@ == expr_text(Expr::Assign(*self)),
        decreases self,
    {
        let mut s = self.left.to_string();
        s.append(" ");
        s.append(self.operator.to_string().as_str());
        s.append(" ");
        s.append(self.right.to_string().as_str());
        s
    }
}

impl TupleExpr {
    /// The text that displaying the expression produces.
    pub fn to_string(&self) -> (res: String)
        ensures
            res@ == expr_text(Expr::Tuple(*self)),
        decreases self,
    {
        let mut parts: Vec<String> = Vec::new();
        let mut i: usize = 0;
        proof {
            lemma_opt_exprs_text(self.elems@);
        }
        while i < self.elems.len()
            invariant
                i <= self.elems.len(),
                parts@.len() == i,
                forall|j: int| 0 <= j < i ==> #[trigger] parts@[j]@ == opt_exprs_text(self.elems@)[j],
                opt_exprs_text(self.elems@).len() == self.elems@.len(),
                forall|j: int|
                    0 <= j < self.elems@.len() ==> #[trigger] opt_exprs_text(self.elems@)[j]
                        == match self.elems@[j] {
                        Some(e) => expr_text(e),
                        None => Seq::empty(),
                    },
            decreases self.elems.len() - i,
        {
            let p = match &self.elems[i] {
                Some(e) => {
                    proof {
                        assert(decreases_to!(*self => self.elems));
                        assert(decreases_to!(self.elems => self.elems@));
                        assert(decreases_to!(self.elems@ => self.elems@[i as int]));
                        assert(decreases_to!(self.elems@[i as int] => *e));
                    }
                    e.to_string()
                },
                None => String::new(),
            };
            parts.push(p);
            i = i + 1;
        }
        assert(strings_view(parts@) =~= opt_exprs_text(self.elems@));
        let mut s = to_string("(");
        s.append(join(&parts, ", ").as_str());
        s.append(")");
        s
    }
}

impl IndexExpr {
    /// The text that displaying the expression produces.
    pub fn to_string(&self) -> (res: String)
        ensures
            res@ == expr_text(Expr::Index(*self)),
        decreases self,
    {
        let mut s = self.base_expr.to_string();
        match &self.index {
            Some(i) => {
                s.append("[");
                s.append(i.to_string().as_str());
                s.append("]");
            },
            None => s.append("[]"),
        }
        s
    }
}

impl SliceExpr {
    /// The text that displaying the expression produces.
    pub fn to_string(&self) -> (res: String)
        ensures
            res@ == expr_text(Expr::Slice(*self)),
        decreases self,
    {
        let mut s = self.base_expr.to_string();
        s.append("[");
        if let Some(e) = &self.start_index {
            s.append(e.to_string().as_str());
        }
        s.append(":");
        if let Some(e) = &self.end_index {
            s.append(e.to_string().as_str());
        }
        s.append("]");
        s
    }
}

impl MemberExpr {
    /// The text that displaying the expression produces.
    pub fn to_string(&self) -> (res: String)
        ensures
            res@ == expr_text(Expr::Member(*self)),
        decreases self,
    {
        let mut s = self.base.to_string();
        s.append(".");
        s.append(self.member.to_string().as_str());
        s
    }
}

impl ConditionalExpr {
    /// The text that displaying the expression produces.
    pub fn to_string(&self) -> (res: String)
        ensures
            res@ == expr_text(Expr::Conditional(*self)),
        decreases self,
    {
        let mut s = self.cond.to_string();
        s.append(" ? ");
        s.append(self.true_br.to_string().as_str());
        s.append(" : ");
        s.append(self.false_br.to_string().as_str());
        s
    }
}

impl CallOptsExpr {
    /// The text that displaying the expression produces.
    pub fn to_string(&self) -> (res: String)
        ensures
            res@ == expr_text(Expr::CallOpts(*self)),
        decreases self,
    {
        let mut s = self.callee.to_string();
        s.append("{");
        s.append(call_opts_to_string(&self.call_opts).as_str());
        s.append("}");
        s
    }
}

impl InlineArrayExpr {
    /// The text that displaying the expression produces.
    pub fn to_string(&self) -> (res: String)
        ensures
            res@ == expr_text(Expr::InlineArray(*self)),
        decreases self,
    {
        let mut s = to_string("[");
        s.append(exprs_to_string(&self.elems).as_str());
        s.append("]");
        s
    }
}

/// The texts of expressions, separated by commas.
pub(crate) fn exprs_to_string(es: &Vec<Expr>) -> (res: String)
    ensures
        res@ == seq_join(exprs_text(es@), ", "@),
    decreases es,
{
    let mut parts: Vec<String> = Vec::new();
    let mut i: usize = 0;
    proof {
        lemma_exprs_text(es@);
    }
    while i < es.len()
        invariant
            i <= es.len(),
            parts@.len() == i,
            exprs_text(es@).len() == es@.len(),
            forall|j: int| 0 <= j < i ==> #[trigger] parts@[j]@ == expr_text(es@[j]),
            forall|j: int| 0 <= j < es@.len() ==> #[trigger] exprs_text(es@)[j] == expr_text(es@[j]),
        decreases es.len() - i,
    {
        proof {
            assert(decreases_to!(es => es@));
            assert(decreases_to!(es@ => es@[i as int]));
        }
        parts.push(es[i].to_string());
        i = i + 1;
    }
    assert(strings_view(parts@) =~= exprs_text(es@));
    join(&parts, ", ")
}

/// The texts of call options, separated by commas.
fn call_opts_to_string(os: &Vec<CallOpt>) -> (res: String)
    ensures
        res@ == seq_join(call_opts_text(os@), ", "@),
    decreases os,
{
    let mut parts: Vec<String> = Vec::new();
    let mut i: usize = 0;
    proof {
        lemma_call_opts_text(os@);
    }
    while i < os.len()
        invariant
            i <= os.len(),
            parts@.len() == i,
            call_opts_text(os@).len() == os@.len(),
            forall|j: int| 0 <= j < i ==> #[trigger] parts@[j]@ == call_opts_text(os@)[j],
            forall|j: int|
                0 <= j < os@.len() ==> #[trigger] call_opts_text(os@)[j] == os@[j].name@ + ": "@
                    + expr_text(os@[j].value),
        decreases os.len() - i,
    {
        proof {
            assert(decreases_to!(os => os@));
            assert(decreases_to!(os@ => os@[i as int]));
            assert(decreases_to!(os@[i as int] => os@[i as int].value));
        }
        let mut p = os[i].name.clone();
        p.append(": ");
        p.append(os[i].value.to_string().as_str());
        parts.push(p);
        i = i + 1;
    }
    assert(strings_view(parts@) =~= call_opts_text(os@));
    join(&parts, ", ")
}

impl CallArgs {
    pub fn new_unnamed_args(args: Vec<Expr>) -> (res: CallArgs)
        ensures
            res == CallArgs::Unnamed(args),
    {
        CallArgs::Unnamed(args)
    }

    pub fn new_named_args(args: Vec<NamedArg>) -> (res: CallArgs)
        ensures
            res == CallArgs::Named(args),
    {
        CallArgs::Named(args)
    }

    /// The text that displaying the arguments produces.
    pub fn to_string(&self) -> (res: String)
        ensures
            res@ == args_text(*self),
        decreases self,
    {
        match self {
            CallArgs::Unnamed(es) => exprs_to_string(es),
            CallArgs::Named(ns) => {
                let mut parts: Vec<String> = Vec::new();
                let mut i: usize = 0;
                proof {
                    lemma_named_args_text(ns@);
                }
                while i < ns.len()
                    invariant
                        *self == CallArgs::Named(*ns),
                        i <= ns.len(),
                        parts@.len() == i,
                        named_args_text(ns@).len() == ns@.len(),
                        forall|j: int| 0 <= j < i ==> #[trigger] parts@[j]@ == named_args_text(ns@)[j],
                        forall|j: int|
                            0 <= j < ns@.len() ==> #[trigger] named_args_text(ns@)[j] == ns@[j].name@
                                + ": "@ + expr_text(ns@[j].value),
                    decreases ns.len() - i,
                {
                    proof {
                        assert(decreases_to!(*self => self->Named_0));
                        assert(decreases_to!(*ns => ns@));
                        assert(decreases_to!(ns@ => ns@[i as int]));
                        assert(decreases_to!(ns@[i as int] => ns@[i as int].value));
                    }
                    let mut p = ns[i].name.clone();
                    p.append(": ");
                    p.append(ns[i].value.to_string().as_str());
                    parts.push(p);
                    i = i + 1;
                }
                assert(strings_view(parts@) =~= named_args_text(ns@));
                let mut s = to_string("{");
                s.append(join(&parts, ", ").as_str());
                s.append("}");
                s
            },
        }
    }
}

//-------------------------------------------------------------------------
// Constructors
//-------------------------------------------------------------------------

impl Identifier {
    pub fn new(id: Option<isize>, name: Name, typ: Type, loc: Option<Loc>) -> (res: Self)
        ensures
            res == (Identifier { id, name, typ, loc }),
    {
        Identifier { id, name, typ, loc }
    }
}

impl AssignExpr {
    pub fn new(id: Option<isize>, op: AssignOp, lhs: Expr, rhs: Expr, typ: Type, loc: Option<Loc>) -> (res:
        Self)
        ensures
            res == (AssignExpr { id, operator: op, left: Box::new(lhs), right: Box::new(rhs), typ, loc }),
    {
        AssignExpr { id, operator: op, left: Box::new(lhs), right: Box::new(rhs), typ, loc }
    }
}

impl BinaryExpr {
    pub fn new(id: Option<isize>, op: BinOp, lhs: Expr, rhs: Expr, typ: Type, loc: Option<Loc>) -> (res:
        Self)
        ensures
            res == (BinaryExpr { id, operator: op, left: Box::new(lhs), right: Box::new(rhs), typ, loc }),
    {
        BinaryExpr { id, operator: op, left: Box::new(lhs), right: Box::new(rhs), typ, loc }
    }
}

impl UnaryExpr {
    pub fn new(id: Option<isize>, op: UnaryOp, operand: Expr, typ: Type, loc: Option<Loc>) -> (res:
        Self)
        ensures
            res == (UnaryExpr { id, op, body: Box::new(operand), typ, loc }),
    {
        UnaryExpr { id, op, body: Box::new(operand), typ, loc }
    }
}

impl CallExpr {
    pub fn new_call_unnamed_args(
        id: Option<isize>,
        callee: Expr,
        call_opts: Vec<CallOpt>,
        args: Vec<Expr>,
        kind: CallKind,
        typ: Type,
        loc: Option<Loc>,
    ) -> (res: Self)
        ensures
            res == (CallExpr {
                id,
                callee: Box::new(callee),
                call_opts,
                args: CallArgs::Unnamed(args),
                kind,
                typ,
                loc,
            }),
    {
        let args = CallArgs::new_unnamed_args(args);
        CallExpr { id, callee: Box::new(callee), call_opts, args, kind, typ, loc }
    }

    pub fn new_call_named_args(
        id: Option<isize>,
        callee: Expr,
        call_opts: Vec<CallOpt>,
        args: Vec<NamedArg>,
        kind: CallKind,
        typ: Type,
        loc: Option<Loc>,
    ) -> (res: Self)
        ensures
            res == (CallExpr {
                id,
                callee: Box::new(callee),
                call_opts,
                args: CallArgs::Named(args),
                kind,
                typ,
                loc,
            }),
    {
        let args = CallArgs::new_named_args(args);
        CallExpr { id, callee: Box::new(callee), call_opts, args, kind, typ, loc }
    }

    /// The text that displaying the call produces.
    pub fn to_string(&self) -> (res: String)
        ensures
            res@ == expr_text(Expr::Call(*self)),
        decreases self,
    {
        let mut s = self.callee.to_string();
        if self.call_opts.len() == 0 {
            s.append("(");
        } else {
            s.append("{");
            s.append(call_opts_to_string(&self.call_opts).as_str());
            s.append("}(");
        }
        s.append(self.args.to_string().as_str());
        s.append(")");
        s
    }

    /// Whether the callee is a member of `abi`.
    pub fn is_abi_call(&self) -> (res: bool)
        ensures
            res == (match *self.callee {
                Expr::Member(m) => expr_text(*m.base) == "abi"@,
                _ => false,
            }),
    {
        match &*self.callee {
            Expr::Member(m) => crate::text::str_eq(m.base.to_string().as_str(), "abi"),
            _ => false,
        }
    }
}

impl NamedArg {
    pub fn new(name: String, value: Expr, loc: Option<Loc>) -> (res: Self)
        ensures
            res == (NamedArg { name, value, loc }),
    {
        NamedArg { name, value, loc }
    }

    /// The text that displaying the argument produces: `name: value`.
    pub fn to_string(&self) -> (res: String)
        ensures
            res@ == self.name@ + ": "@ + expr_text(self.value),
    {
        let mut s = self.name.clone();
        s.append(": ");
        s.append(self.value.to_string().as_str());
        s
    }
}

impl CallOptsExpr {
    pub fn new(id: Option<isize>, callee: Expr, call_opts: Vec<CallOpt>, typ: Type, loc: Option<Loc>) -> (res:
        Self)
        ensures
            res == (CallOptsExpr { id, callee: Box::new(callee), call_opts, typ, loc }),
    {
        CallOptsExpr { id, callee: Box::new(callee), call_opts, typ, loc }
    }
}

impl CallOpt {
    pub fn new(name: String, value: Expr, loc: Option<Loc>) -> (res: Self)
        ensures
            res == (CallOpt { name, value, loc }),
    {
        CallOpt { name, value, loc }
    }

    /// The text that displaying the option produces: `name: value`.
    pub fn to_string(&self) -> (res: String)
        ensures
            res@ == self.name@ + ": "@ + expr_text(self.value),
    {
        let mut s = self.name.clone();
        s.append(": ");
        s.append(self.value.to_string().as_str());
        s
    }
}

impl ConditionalExpr {
    pub fn new(
        id: Option<isize>,
        condition: Expr,
        true_br: Expr,
        false_br: Expr,
        typ: Type,
        loc: Option<Loc>,
    ) -> (res: Self)
        ensures
            res == (ConditionalExpr {
                id,
                cond: Box::new(condition),
                true_br: Box::new(true_br),
                false_br: Box::new(false_br),
                typ,
                loc,
            }),
    {
        ConditionalExpr {
            id,
            cond: Box::new(condition),
            true_br: Box::new(true_br),
            false_br: Box::new(false_br),
            typ,
            loc,
        }
    }
}

impl IndexExpr {
    pub fn new(id: Option<isize>, base_expr: Expr, index: Option<Expr>, typ: Type, loc: Option<Loc>) -> (res:
        Self)
        ensures
            res.id == id,
            *res.base_expr == base_expr,
            match index {
                Some(i) => res.index matches Some(b) && *b == i,
                None => res.index is None,
            },
            res.typ == typ,
            res.loc == loc,
    {
        let index = match index {
            Some(i) => Some(Box::new(i)),
            None => None,
        };
        IndexExpr { id, base_expr: Box::new(base_expr), index, typ, loc }
    }
}

impl InlineArrayExpr {
    pub fn new(id: Option<isize>, elems: Vec<Expr>, typ: Type, loc: Option<Loc>) -> (res: Self)
        ensures
            res == (InlineArrayExpr { id, elems, typ, loc }),
    {
        InlineArrayExpr { id, elems, typ, loc }
    }
}

impl MemberExpr {
    pub fn new(id: Option<isize>, base: Expr, member: Name, typ: Type, loc: Option<Loc>) -> (res: Self)
        ensures
            res == (MemberExpr { id, base: Box::new(base), member, typ, loc }),
    {
        MemberExpr { id, base: Box::new(base), member, typ, loc }
    }

    /// Sets the index of the member's name.
    pub fn set_naming_index(&mut self, index: Option<usize>)
        ensures
            final(self).member@ == (NameView { index, ..old(self).member@ }),
            final(self).base == old(self).base,
            final(self).typ == old(self).typ,
    {
        self.member.index = index;
    }
}

impl SliceExpr {
    pub fn new(
        id: Option<isize>,
        base_expr: Expr,
        start_index: Option<Expr>,
        end_index: Option<Expr>,
        typ: Type,
        loc: Option<Loc>,
    ) -> (res: Self)
        ensures
            res.id == id,
            *res.base_expr == base_expr,
            match start_index {
                Some(i) => res.start_index matches Some(b) && *b == i,
                None => res.start_index is None,
            },
            match end_index {
                Some(i) => res.end_index matches Some(b) && *b == i,
                None => res.end_index is None,
            },
            res.typ == typ,
            res.loc == loc,
    {
        let start_index = match start_index {
            Some(i) => Some(Box::new(i)),
            None => None,
        };
        let end_index = match end_index {
            Some(i) => Some(Box::new(i)),
            None => None,
        };
        SliceExpr { id, base_expr: Box::new(base_expr), start_index, end_index, typ, loc }
    }
}

impl TupleExpr {
    pub fn new(id: Option<isize>, elems: Vec<Option<Expr>>, typ: Type, loc: Option<Loc>) -> (res: Self)
        ensures
            res == (TupleExpr { id, elems, typ, loc }),
    {
        TupleExpr { id, elems, typ, loc }
    }
}

//-------------------------------------------------------------------------
// Copies
//-------------------------------------------------------------------------


/// Whether two identifiers are equal, names and types taken by their
/// views.
pub open spec fn idents_equal(a: Identifier, b: Identifier) -> bool {
    a.id == b.id && a.name@ == b.name@ && types_same(a.typ, b.typ) && a.loc == b.loc
}

/// The expression bound to an identifier by the last pair for it, if any.
pub open spec fn ident_lookup(p: Seq<(Identifier, Expr)>, x: Identifier) -> Option<Expr>
    decreases p.len(),
{
    if p.len() == 0 {
        None
    } else if idents_equal(p.last().0, x) {
        Some(p.last().1)
    } else {
        ident_lookup(p.drop_last(), x)
    }
}

/// Whether two expressions are the same: of the same kind, with equal
/// fields, and the same sub-expressions, lists compared element by
/// element.
pub open spec fn expr_same(a: Expr, b: Expr) -> bool {
    expr_subst(Seq::empty(), a, b)
}

/// Whether two calls are the same.
pub open spec fn call_same(x: CallExpr, y: CallExpr) -> bool {
    call_subst(Seq::empty(), x, y)
}

/// Whether two optional expressions are the same.
pub open spec fn opt_expr_same(a: Option<Expr>, b: Option<Expr>) -> bool {
    opt_expr_subst(Seq::empty(), a, b)
}

/// Whether two optional boxed expressions are the same.
pub open spec fn boxed_same(a: Option<Box<Expr>>, b: Option<Box<Expr>>) -> bool {
    boxed_subst(Seq::empty(), a, b)
}

/// Whether two sequences of expressions are the same.
pub open spec fn expr_seqs_same(a: Seq<Expr>, b: Seq<Expr>) -> bool {
    expr_seqs_subst(Seq::empty(), a, b)
}

/// Whether two sequences of optional expressions are the same.
pub open spec fn opt_expr_seqs_same(a: Seq<Option<Expr>>, b: Seq<Option<Expr>>) -> bool {
    opt_expr_seqs_subst(Seq::empty(), a, b)
}

/// Whether two sequences of call options are the same.
pub open spec fn call_opts_same(a: Seq<CallOpt>, b: Seq<CallOpt>) -> bool {
    call_opts_subst(Seq::empty(), a, b)
}

/// Whether two sequences of named arguments are the same.
pub open spec fn named_args_same(a: Seq<NamedArg>, b: Seq<NamedArg>) -> bool {
    named_args_subst(Seq::empty(), a, b)
}

/// Whether two argument lists are the same.
pub open spec fn args_same(a: CallArgs, b: CallArgs) -> bool {
    args_subst(Seq::empty(), a, b)
}

/// A rewriting of expressions: identifiers replaced by expressions; calls
/// with named arguments put in parameter order, by a table of parameter
/// names and the current contract; member accesses replaced by names, by
/// the text of the access; tuples of one component unwrapped; member
/// calls turned into calls of the functions that using
/// directives attach, by the directives in scope and the elements of the
/// source unit; or accesses `super.m` resolved to the base contract that
/// defines `m`.
pub enum Rewrite {
    Idents(Seq<(Identifier, Expr)>),
    NamedArgs(Seq<(Seq<char>, Seq<Seq<char>>)>, Option<Seq<char>>),
    Members(Seq<(Seq<char>, NameView)>),
    UnaryTuples,
    Usings(Seq<UsingDir>, Seq<SourceUnitElem>),
    Supers(SuperContext),
}

/// What a rewriting of `super` works from: the current contract, if any;
/// whether the current function overrides every base (`override` without a
/// list), and the contracts that it lists; the linearization of each
/// contract; and the names of the variables and functions of each contract.
pub struct SuperContext {
    pub current: Option<NameView>,
    pub overrides_all: bool,
    pub overridden: Seq<NameView>,
    pub linearization: Seq<(NameView, Seq<NameView>)>,
    pub contracts: Seq<(NameView, Seq<NameView>)>,
}

/// The contract and member that `super.m` denotes under `w`: inside a
/// contract, the first base contract that has a member with the base name
/// of `m`, in the order that `super_order` gives (see `resolve_in`).
pub open spec fn super_target(w: Rewrite, x: MemberExpr) -> Option<(NameView, NameView)> {
    match w {
        Rewrite::Supers(ctx) => match ctx.current {
            Some(cur) => if expr_text(*x.base) == "super"@ {
                match super_order(cur, ctx.overridden, ctx.linearization) {
                    Some(order) => resolve_in(order, ctx.contracts, cur, x.member@),
                    None => None,
                }
            } else {
                None
            },
            None => None,
        },
        _ => None,
    }
}

/// Whether rewriting by `w` can fail on some inputs, which its callers then
/// rule out: `NamedArgs` where arguments do not match parameters, `Supers`
/// where a function that overrides every base uses `super`.
pub open spec fn rw_checked(w: Rewrite) -> bool {
    w is NamedArgs || w is Supers
}

/// A measure of a rewriting that shrinks when a replacement is copied.
pub open spec fn rw_size(w: Rewrite) -> nat {
    match w {
        Rewrite::Idents(p) => p.len(),
        _ => 1,
    }
}

/// The name bound to a text by the last pair for it, if any.
pub open spec fn member_lookup(m: Seq<(Seq<char>, NameView)>, key: Seq<char>) -> Option<NameView>
    decreases m.len(),
{
    if m.len() == 0 {
        None
    } else if m.last().0 == key {
        Some(m.last().1)
    } else {
        member_lookup(m.drop_last(), key)
    }
}

/// The name that replaces member access `e` under `w`, if any.
pub open spec fn member_replacement(w: Rewrite, e: Expr) -> Option<NameView> {
    match w {
        Rewrite::Members(m) => member_lookup(m, expr_text(e)),
        _ => None,
    }
}

/// Whether `b` is `a` rewritten by `w`: of the same kind, with equal fields,
/// and rewritten sub-expressions, lists element by element; an identifier
/// bound by `Idents` is replaced by (a copy of) the last expression bound
/// to it, a member access whose text `Members` binds by the identifier of
/// the bound name, a call by `NamedArgs` as `call_rw` says, and, under
/// `UnaryTuples`, every tuple of one component `(e)` by `e` rewritten.
pub open spec fn expr_rw(w: Rewrite, a: Expr, b: Expr) -> bool
    decreases rw_size(w), a, 0int,
{
    match (a, b) {
        (Expr::Ident(x), _) => match w {
            Rewrite::Idents(p) => match ident_lookup(p, x) {
                Some(v) => expr_rw(Rewrite::Idents(Seq::empty()), v, b),
                None => b == Expr::Ident(x),
            },
            _ => b == Expr::Ident(x),
        },
        (Expr::Lit(x), Expr::Lit(y)) => x == y,
        (Expr::Unary(x), Expr::Unary(y)) => x.id == y.id && x.op == y.op && x.typ == y.typ && x.loc
            == y.loc && expr_rw(w, *x.body, *y.body),
        (Expr::Binary(x), Expr::Binary(y)) => x.id == y.id && x.operator == y.operator && x.typ
            == y.typ && x.loc == y.loc && expr_rw(w, *x.left, *y.left) && expr_rw(w, *x.right, *y.right),
        (Expr::Assign(x), Expr::Assign(y)) => x.id == y.id && x.operator == y.operator && x.typ
            == y.typ && x.loc == y.loc && expr_rw(w, *x.left, *y.left) && expr_rw(w, *x.right, *y.right),
        (Expr::Call(x), Expr::Call(y)) => call_rw(w, x, y),
        (Expr::CallOpts(x), Expr::CallOpts(y)) => x.id == y.id && x.typ == y.typ && x.loc == y.loc
            && expr_rw(w, *x.callee, *y.callee) && call_opts_rw(w, x.call_opts@, y.call_opts@),
        (Expr::Tuple(x), _) => if w == Rewrite::UnaryTuples && x.elems@.len() == 1
            && x.elems@[0] is Some {
            expr_rw(w, x.elems@[0]->0, b)
        } else {
            match b {
                Expr::Tuple(y) => x.id == y.id && x.typ == y.typ && x.loc == y.loc
                    && opt_expr_seqs_rw(w, x.elems@, y.elems@),
                _ => false,
            }
        },
        (Expr::Index(x), Expr::Index(y)) => x.id == y.id && x.typ == y.typ && x.loc == y.loc
            && expr_rw(w, *x.base_expr, *y.base_expr) && boxed_rw(w, x.index, y.index),
        (Expr::Slice(x), Expr::Slice(y)) => x.id == y.id && x.typ == y.typ && x.loc == y.loc
            && expr_rw(w, *x.base_expr, *y.base_expr) && boxed_rw(w, x.start_index, y.start_index)
            && boxed_rw(w, x.end_index, y.end_index),
        (Expr::Member(x), _) => match member_replacement(w, a) {
            Some(n) => b matches Expr::Ident(y) && y.id is None && y.name@ == n && y.typ == x.typ
                && y.loc == x.loc,
            None => match super_target(w, x) {
                Some((c, m)) => b matches Expr::Member(y) && y.id == x.id && y.member@ == m && y.typ
                    == x.typ && y.loc == x.loc && (*y.base matches Expr::Ident(i) && i.id is None
                    && i.name@ == c && i.typ == expr_type(*x.base) && i.loc == expr_loc(*x.base)),
                None => match b {
                    Expr::Member(y) => x.id == y.id && x.member == y.member && x.typ == y.typ && x.loc
                        == y.loc && expr_rw(w, *x.base, *y.base),
                    _ => false,
                },
            },
        },
        (Expr::Conditional(x), Expr::Conditional(y)) => x.id == y.id && x.typ == y.typ && x.loc
            == y.loc && expr_rw(w, *x.cond, *y.cond) && expr_rw(w, *x.true_br, *y.true_br) && expr_rw(w, 
            *x.false_br,
            *y.false_br,
        ),
        (Expr::InlineArray(x), Expr::InlineArray(y)) => x.id == y.id && x.typ == y.typ && x.loc
            == y.loc && expr_seqs_rw(w, x.elems@, y.elems@),
        (Expr::New(x), Expr::New(y)) => x == y,
        (Expr::TypeName(x), Expr::TypeName(y)) => x == y,
        _ => false,
    }
}

/// Whether call `y` is call `x` rewritten by `w`: under `NamedArgs`, a
/// call whose callee is known gets a copy of its named arguments' values in
/// the order of the callee's parameters and is otherwise copied, its
/// arguments not rewritten further.
pub open spec fn call_rw(w: Rewrite, x: CallExpr, y: CallExpr) -> bool
    decreases rw_size(w), x, 1int,
{
    match w {
        Rewrite::NamedArgs(t, scope) => match call_params(t, scope, x) {
            None => call_rw(Rewrite::Idents(Seq::empty()), x, y),
            Some(ps) => {
                &&& x.id == y.id
                &&& x.kind == y.kind
                &&& x.typ == y.typ
                &&& x.loc == y.loc
                &&& expr_rw(Rewrite::Idents(Seq::empty()), *x.callee, *y.callee)
                &&& call_opts_rw(Rewrite::Idents(Seq::empty()), x.call_opts@, y.call_opts@)
                &&& y.args matches CallArgs::Unnamed(v) && expr_seqs_rw(
                    Rewrite::Idents(Seq::empty()),
                    ordered_values(ps, x.args->Named_0@),
                    v@,
                )
            },
        },
        Rewrite::Usings(us, elems) => match (*x.callee, x.args) {
            (Expr::Member(mx), CallArgs::Unnamed(a)) => match using_target(
                us,
                elems,
                expr_type(*mx.base),
                mx.member@,
            ) {
                Some(tgt) => {
                    &&& x.id == y.id
                    &&& x.kind == y.kind
                    &&& x.typ == y.typ
                    &&& x.loc == y.loc
                    &&& *y.callee == using_callee(mx, tgt)
                    &&& call_opts_rw(w, x.call_opts@, y.call_opts@)
                    &&& y.args matches CallArgs::Unnamed(v) && v@.len() == a@.len() + 1
                        && expr_rw(w, *mx.base, v@[0]) && expr_seqs_rw(w, a@, v@.drop_first())
                },
                None => call_parts_rw(w, x, y),
            },
            _ => call_parts_rw(w, x, y),
        },
        _ => call_parts_rw(w, x, y),
    }
}

/// The callee that a member call `b.m(..)` gets from what a using
/// directive attaches: `L.m` for a function of library `L`, or the
/// attached function, with the type and location of the member access.
pub open spec fn using_callee(mx: MemberExpr, tgt: UsingTarget) -> Expr {
    match tgt {
        UsingTarget::Lib(l) => Expr::Member(
            MemberExpr {
                id: mx.id,
                base: Box::new(
                    Expr::Ident(
                        Identifier { id: None, name: l, typ: Type::Contract { name: l, is_lib: true }, loc: None },
                    ),
                ),
                member: mx.member,
                typ: mx.typ,
                loc: mx.loc,
            },
        ),
        UsingTarget::Func(f) => Expr::Ident(Identifier { id: None, name: f, typ: mx.typ, loc: mx.loc }),
    }
}

/// Whether call `y` is call `x` with its callee, options and arguments
/// rewritten by `w`, and nothing else changed.
pub open spec fn call_parts_rw(w: Rewrite, x: CallExpr, y: CallExpr) -> bool
    decreases rw_size(w), x, 0int,
{
    &&& x.id == y.id
    &&& x.kind == y.kind
    &&& x.typ == y.typ
    &&& x.loc == y.loc
    &&& expr_rw(w, *x.callee, *y.callee)
    &&& call_opts_rw(w, x.call_opts@, y.call_opts@)
    &&& args_rw(w, x.args, y.args)
}

/// Whether two optional boxed expressions are the same.
pub open spec fn boxed_rw(w: Rewrite, a: Option<Box<Expr>>, b: Option<Box<Expr>>) -> bool
    decreases rw_size(w), a, 0int,
{
    match (a, b) {
        (Some(x), Some(y)) => expr_rw(w, *x, *y),
        (None, None) => true,
        _ => false,
    }
}

/// Whether two optional expressions are the same.
pub open spec fn opt_expr_rw(w: Rewrite, a: Option<Expr>, b: Option<Expr>) -> bool
    decreases rw_size(w), a, 0int,
{
    match (a, b) {
        (Some(x), Some(y)) => expr_rw(w, x, y),
        (None, None) => true,
        _ => false,
    }
}

/// Whether two sequences of expressions are the same, element by element.
pub open spec fn expr_seqs_rw(w: Rewrite, a: Seq<Expr>, b: Seq<Expr>) -> bool
    decreases rw_size(w), a, 0int,
{
    a.len() == b.len() && forall|i: int| 0 <= i < a.len() ==> expr_rw(w, a[i], b[i])
}

/// Whether two sequences of optional expressions are the same.
pub open spec fn opt_expr_seqs_rw(w: Rewrite, a: Seq<Option<Expr>>, b: Seq<Option<Expr>>) -> bool
    decreases rw_size(w), a, 0int,
{
    a.len() == b.len() && forall|i: int| 0 <= i < a.len() ==> opt_expr_rw(w, a[i], b[i])
}

/// Whether two sequences of call options are the same.
pub open spec fn call_opts_rw(w: Rewrite, a: Seq<CallOpt>, b: Seq<CallOpt>) -> bool
    decreases rw_size(w), a, 0int,
{
    a.len() == b.len() && forall|i: int|
        0 <= i < a.len() ==> a[i].name@ == b[i].name@ && a[i].loc == b[i].loc && expr_rw(w, 
            a[i].value,
            b[i].value,
        )
}

/// Whether two sequences of named arguments are the same.
pub open spec fn named_args_rw(w: Rewrite, a: Seq<NamedArg>, b: Seq<NamedArg>) -> bool
    decreases rw_size(w), a, 0int,
{
    a.len() == b.len() && forall|i: int|
        0 <= i < a.len() ==> a[i].name@ == b[i].name@ && a[i].loc == b[i].loc && expr_rw(w, 
            a[i].value,
            b[i].value,
        )
}

/// Whether two argument lists are the same.
pub open spec fn args_rw(w: Rewrite, a: CallArgs, b: CallArgs) -> bool
    decreases rw_size(w), a, 0int,
{
    match (a, b) {
        (CallArgs::Unnamed(x), CallArgs::Unnamed(y)) => expr_seqs_rw(w, x@, y@),
        (CallArgs::Named(x), CallArgs::Named(y)) => named_args_rw(w, x@, y@),
        _ => false,
    }
}


/// Whether a call can be rewritten by `w`: under `NamedArgs`, a call whose
/// callee is known must have, for each of its arguments, a parameter of
/// that name, so that putting them in parameter order keeps them all;
/// under `Supers`, its parts must be rewritable. `NamedArgs` leaves the
/// parts of a call as they are.
pub open spec fn call_rw_ok(w: Rewrite, x: CallExpr) -> bool
    decreases x,
{
    match w {
        Rewrite::NamedArgs(t, scope) => match call_params(t, scope, x) {
            Some(ps) => ordered_values(ps, x.args->Named_0@).len() == x.args->Named_0@.len(),
            None => true,
        },
        Rewrite::Supers(_) => expr_rw_ok(w, *x.callee) && call_opts_rw_ok(w, x.call_opts@)
            && args_rw_ok(w, x.args),
        _ => true,
    }
}

/// Whether every expression that rewriting `a` by `w` reaches can be
/// rewritten (see `call_rw_ok`); under `Supers`, an access to `super`
/// inside a contract must not stand in a function that overrides every
/// base.
pub open spec fn expr_rw_ok(w: Rewrite, a: Expr) -> bool
    decreases a,
{
    match a {
        Expr::Unary(x) => expr_rw_ok(w, *x.body),
        Expr::Binary(x) => expr_rw_ok(w, *x.left) && expr_rw_ok(w, *x.right),
        Expr::Assign(x) => expr_rw_ok(w, *x.left) && expr_rw_ok(w, *x.right),
        Expr::Call(x) => call_rw_ok(w, x),
        Expr::CallOpts(x) => expr_rw_ok(w, *x.callee) && call_opts_rw_ok(w, x.call_opts@),
        Expr::Tuple(x) => opt_exprs_rw_ok(w, x.elems@),
        Expr::Index(x) => expr_rw_ok(w, *x.base_expr) && boxed_rw_ok(w, x.index),
        Expr::Slice(x) => expr_rw_ok(w, *x.base_expr) && boxed_rw_ok(w, x.start_index)
            && boxed_rw_ok(w, x.end_index),
        Expr::Member(x) => expr_rw_ok(w, *x.base) && !(w matches Rewrite::Supers(ctx)
            && ctx.current is Some && ctx.overrides_all && expr_text(*x.base) == "super"@),
        Expr::Conditional(x) => expr_rw_ok(w, *x.cond) && expr_rw_ok(w, *x.true_br) && expr_rw_ok(
            w,
            *x.false_br,
        ),
        Expr::InlineArray(x) => exprs_rw_ok(w, x.elems@),
        _ => true,
    }
}

/// Whether an optional boxed expression can be rewritten.
pub open spec fn boxed_rw_ok(w: Rewrite, a: Option<Box<Expr>>) -> bool
    decreases a,
{
    match a {
        Some(x) => expr_rw_ok(w, *x),
        None => true,
    }
}

/// Whether an optional expression can be rewritten.
pub open spec fn opt_expr_rw_ok(w: Rewrite, a: Option<Expr>) -> bool
    decreases a,
{
    match a {
        Some(x) => expr_rw_ok(w, x),
        None => true,
    }
}

/// Whether each expression can be rewritten.
pub open spec fn exprs_rw_ok(w: Rewrite, a: Seq<Expr>) -> bool
    decreases a,
{
    forall|i: int| 0 <= i < a.len() ==> expr_rw_ok(w, a[i])
}

/// Whether each optional expression can be rewritten.
pub open spec fn opt_exprs_rw_ok(w: Rewrite, a: Seq<Option<Expr>>) -> bool
    decreases a,
{
    forall|i: int| 0 <= i < a.len() ==> opt_expr_rw_ok(w, a[i])
}

/// Whether the value of each call option can be rewritten.
pub open spec fn call_opts_rw_ok(w: Rewrite, a: Seq<CallOpt>) -> bool
    decreases a,
{
    forall|i: int| 0 <= i < a.len() ==> expr_rw_ok(w, a[i].value)
}

/// Whether the value of each named argument can be rewritten.
pub open spec fn named_args_rw_ok(w: Rewrite, a: Seq<NamedArg>) -> bool
    decreases a,
{
    forall|i: int| 0 <= i < a.len() ==> expr_rw_ok(w, a[i].value)
}

/// Whether an argument list can be rewritten.
pub open spec fn args_rw_ok(w: Rewrite, a: CallArgs) -> bool
    decreases a,
{
    match a {
        CallArgs::Unnamed(v) => exprs_rw_ok(w, v@),
        CallArgs::Named(v) => named_args_rw_ok(w, v@),
    }
}

/// Whether `b` is `a` with each identifier bound in `p` replaced by (a copy
/// of) the last expression bound to it.
pub open spec fn expr_subst(p: Seq<(Identifier, Expr)>, a: Expr, b: Expr) -> bool {
    expr_rw(Rewrite::Idents(p), a, b)
}

/// Whether call `y` is call `x` with the identifiers bound in `p` replaced.
pub open spec fn call_subst(p: Seq<(Identifier, Expr)>, x: CallExpr, y: CallExpr) -> bool {
    call_rw(Rewrite::Idents(p), x, y)
}

/// Whether optional boxed expression `b` is `a` with the identifiers bound in
/// `p` replaced.
pub open spec fn boxed_subst(p: Seq<(Identifier, Expr)>, a: Option<Box<Expr>>, b: Option<Box<Expr>>) -> bool {
    boxed_rw(Rewrite::Idents(p), a, b)
}

/// Whether optional expression `b` is `a` with the identifiers bound in `p`
/// replaced.
pub open spec fn opt_expr_subst(p: Seq<(Identifier, Expr)>, a: Option<Expr>, b: Option<Expr>) -> bool {
    opt_expr_rw(Rewrite::Idents(p), a, b)
}

/// Whether expressions `b` are `a` with the identifiers bound in `p`
/// replaced.
pub open spec fn expr_seqs_subst(p: Seq<(Identifier, Expr)>, a: Seq<Expr>, b: Seq<Expr>) -> bool {
    expr_seqs_rw(Rewrite::Idents(p), a, b)
}

/// Whether optional expressions `b` are `a` with the identifiers bound in
/// `p` replaced.
pub open spec fn opt_expr_seqs_subst(p: Seq<(Identifier, Expr)>, a: Seq<Option<Expr>>, b: Seq<Option<Expr>>) -> bool {
    opt_expr_seqs_rw(Rewrite::Idents(p), a, b)
}

/// Whether call options `b` are `a` with the identifiers bound in `p`
/// replaced.
pub open spec fn call_opts_subst(p: Seq<(Identifier, Expr)>, a: Seq<CallOpt>, b: Seq<CallOpt>) -> bool {
    call_opts_rw(Rewrite::Idents(p), a, b)
}

/// Whether named arguments `b` are `a` with the identifiers bound in `p`
/// replaced.
pub open spec fn named_args_subst(p: Seq<(Identifier, Expr)>, a: Seq<NamedArg>, b: Seq<NamedArg>) -> bool {
    named_args_rw(Rewrite::Idents(p), a, b)
}

/// Whether argument list `b` is `a` with the identifiers bound in `p`
/// replaced.
pub open spec fn args_subst(p: Seq<(Identifier, Expr)>, a: CallArgs, b: CallArgs) -> bool {
    args_rw(Rewrite::Idents(p), a, b)
}

impl Clone for Identifier {
    fn clone(&self) -> (res: Self)
        ensures
            res == *self,
    {
        Identifier { id: self.id, name: self.name.clone(), typ: self.typ.clone(), loc: self.loc }
    }
}

/// A copy of an expression.
pub fn copy_expr(e: &Expr) -> (res: Expr)
    ensures
        expr_same(*e, res),
    decreases e,
{
    match e {
        Expr::Ident(x) => Expr::Ident(x.clone()),
        Expr::Lit(x) => Expr::Lit(x.clone()),
        Expr::Unary(x) => Expr::Unary(
            UnaryExpr {
                id: x.id,
                op: x.op,
                body: Box::new(copy_expr(&x.body)),
                typ: x.typ.clone(),
                loc: x.loc,
            },
        ),
        Expr::Binary(x) => Expr::Binary(
            BinaryExpr {
                id: x.id,
                operator: x.operator,
                left: Box::new(copy_expr(&x.left)),
                right: Box::new(copy_expr(&x.right)),
                typ: x.typ.clone(),
                loc: x.loc,
            },
        ),
        Expr::Assign(x) => Expr::Assign(
            AssignExpr {
                id: x.id,
                operator: x.operator,
                left: Box::new(copy_expr(&x.left)),
                right: Box::new(copy_expr(&x.right)),
                typ: x.typ.clone(),
                loc: x.loc,
            },
        ),
        Expr::Call(x) => Expr::Call(copy_call(x)),
        Expr::CallOpts(x) => Expr::CallOpts(
            CallOptsExpr {
                id: x.id,
                callee: Box::new(copy_expr(&x.callee)),
                call_opts: copy_call_opts(&x.call_opts),
                typ: x.typ.clone(),
                loc: x.loc,
            },
        ),
        Expr::Tuple(x) => Expr::Tuple(
            TupleExpr {
                id: x.id,
                elems: copy_opt_exprs(&x.elems),
                typ: x.typ.clone(),
                loc: x.loc,
            },
        ),
        Expr::Index(x) => Expr::Index(
            IndexExpr {
                id: x.id,
                base_expr: Box::new(copy_expr(&x.base_expr)),
                index: copy_boxed(&x.index),
                typ: x.typ.clone(),
                loc: x.loc,
            },
        ),
        Expr::Slice(x) => Expr::Slice(
            SliceExpr {
                id: x.id,
                base_expr: Box::new(copy_expr(&x.base_expr)),
                start_index: copy_boxed(&x.start_index),
                end_index: copy_boxed(&x.end_index),
                typ: x.typ.clone(),
                loc: x.loc,
            },
        ),
        Expr::Member(x) => Expr::Member(
            MemberExpr {
                id: x.id,
                base: Box::new(copy_expr(&x.base)),
                member: x.member.clone(),
                typ: x.typ.clone(),
                loc: x.loc,
            },
        ),
        Expr::Conditional(x) => Expr::Conditional(
            ConditionalExpr {
                id: x.id,
                cond: Box::new(copy_expr(&x.cond)),
                true_br: Box::new(copy_expr(&x.true_br)),
                false_br: Box::new(copy_expr(&x.false_br)),
                typ: x.typ.clone(),
                loc: x.loc,
            },
        ),
        Expr::InlineArray(x) => Expr::InlineArray(
            InlineArrayExpr { id: x.id, elems: copy_exprs(&x.elems), typ: x.typ.clone(), loc: x.loc },
        ),
        Expr::New(x) => Expr::New(x.clone()),
        Expr::TypeName(x) => Expr::TypeName(x.clone()),
    }
}

/// A copy of a call.
pub fn copy_call(c: &CallExpr) -> (res: CallExpr)
    ensures
        call_same(*c, res),
    decreases c,
{
    let res = CallExpr {
        id: c.id,
        callee: Box::new(copy_expr(&c.callee)),
        call_opts: copy_call_opts(&c.call_opts),
        args: copy_args(&c.args),
        kind: c.kind,
        typ: c.typ.clone(),
        loc: c.loc,
    };
    assert(call_parts_rw(Rewrite::Idents(Seq::empty()), *c, res));
    res
}

/// A copy of an optional boxed expression.
fn copy_boxed(e: &Option<Box<Expr>>) -> (res: Option<Box<Expr>>)
    ensures
        boxed_same(*e, res),
    decreases e,
{
    match e {
        Some(x) => Some(Box::new(copy_expr(x))),
        None => None,
    }
}

/// A copy of an optional expression.
pub fn copy_opt_expr(e: &Option<Expr>) -> (res: Option<Expr>)
    ensures
        opt_expr_same(*e, res),
    decreases e,
{
    match e {
        Some(x) => Some(copy_expr(x)),
        None => None,
    }
}

/// Copies of expressions, in order.
pub fn copy_exprs(es: &Vec<Expr>) -> (res: Vec<Expr>)
    ensures
        expr_seqs_same(es@, res@),
    decreases es@,
{
    let mut res: Vec<Expr> = Vec::new();
    let mut i: usize = 0;
    while i < es.len()
        invariant
            i <= es.len(),
            res@.len() == i,
            forall|j: int| 0 <= j < i ==> expr_same(es@[j], res@[j]),
        decreases es.len() - i,
    {
        res.push(copy_expr(&es[i]));
        i = i + 1;
    }
    res
}

/// Copies of optional expressions, in order.
fn copy_opt_exprs(es: &Vec<Option<Expr>>) -> (res: Vec<Option<Expr>>)
    ensures
        opt_expr_seqs_same(es@, res@),
    decreases es@,
{
    let mut res: Vec<Option<Expr>> = Vec::new();
    let mut i: usize = 0;
    while i < es.len()
        invariant
            i <= es.len(),
            res@.len() == i,
            forall|j: int| 0 <= j < i ==> opt_expr_same(es@[j], res@[j]),
        decreases es.len() - i,
    {
        res.push(copy_opt_expr(&es[i]));
        i = i + 1;
    }
    res
}

/// Copies of call options, in order.
pub(crate) fn copy_call_opts(os: &Vec<CallOpt>) -> (res: Vec<CallOpt>)
    ensures
        call_opts_same(os@, res@),
    decreases os@,
{
    let mut res: Vec<CallOpt> = Vec::new();
    let mut i: usize = 0;
    while i < os.len()
        invariant
            i <= os.len(),
            res@.len() == i,
            forall|j: int|
                0 <= j < i ==> os@[j].name@ == res@[j].name@ && os@[j].loc == res@[j].loc
                    && expr_same(os@[j].value, res@[j].value),
        decreases os.len() - i,
    {
        res.push(CallOpt { name: os[i].name.clone(), value: copy_expr(&os[i].value), loc: os[i].loc });
        i = i + 1;
    }
    res
}

/// Copies of named arguments, in order.
fn copy_named_args(ns: &Vec<NamedArg>) -> (res: Vec<NamedArg>)
    ensures
        named_args_same(ns@, res@),
    decreases ns@,
{
    let mut res: Vec<NamedArg> = Vec::new();
    let mut i: usize = 0;
    while i < ns.len()
        invariant
            i <= ns.len(),
            res@.len() == i,
            forall|j: int|
                0 <= j < i ==> ns@[j].name@ == res@[j].name@ && ns@[j].loc == res@[j].loc
                    && expr_same(ns@[j].value, res@[j].value),
        decreases ns.len() - i,
    {
        res.push(NamedArg { name: ns[i].name.clone(), value: copy_expr(&ns[i].value), loc: ns[i].loc });
        i = i + 1;
    }
    res
}

/// A copy of an argument list.
pub fn copy_args(a: &CallArgs) -> (res: CallArgs)
    ensures
        args_same(*a, res),
    decreases a,
{
    match a {
        CallArgs::Unnamed(x) => CallArgs::Unnamed(copy_exprs(x)),
        CallArgs::Named(x) => CallArgs::Named(copy_named_args(x)),
    }
}

impl Clone for Expr {
    fn clone(&self) -> (res: Self)
        ensures
            expr_same(*self, res),
    {
        copy_expr(self)
    }
}

/// The text of a conditional expression is the condition, ` ? `, the
/// true branch and ` : ` and the false branch, in that order: each part
/// stands at its own place in the text.
pub proof fn lemma_conditional_text(c: ConditionalExpr)
    ensures
        ({
            let t = expr_text(Expr::Conditional(c));
            let n = expr_text(*c.cond).len() as int;
            let m = expr_text(*c.true_br).len() as int;
            &&& t.len() == n + 3 + m + 3 + expr_text(*c.false_br).len()
            &&& t.subrange(0, n) == expr_text(*c.cond)
            &&& t.subrange(n, n + 3) == " ? "@
            &&& t.subrange(n + 3, n + 3 + m) == expr_text(*c.true_br)
            &&& t.subrange(n + 3 + m, n + 6 + m) == " : "@
            &&& t.subrange(n + 6 + m, t.len() as int) == expr_text(*c.false_br)
        }),
{
    reveal_strlit(" ? ");
    reveal_strlit(" : ");
    let t = expr_text(Expr::Conditional(c));
    let a = expr_text(*c.cond);
    let tb = expr_text(*c.true_br);
    let fb = expr_text(*c.false_br);
    let n = a.len() as int;
    let m = tb.len() as int;
    assert(t == a + " ? "@ + tb + " : "@ + fb);
    assert(t.subrange(0, n) =~= a);
    assert(t.subrange(n, n + 3) =~= " ? "@);
    assert(t.subrange(n + 3, n + 3 + m) =~= tb);
    assert(t.subrange(n + 3 + m, n + 6 + m) =~= " : "@);
    assert(t.subrange(n + 6 + m, t.len() as int) =~= fb);
}

/// The text of a binary expression is the left operand, the operator
/// between single spaces, and the right operand, in that order.
pub proof fn lemma_binary_text(b: BinaryExpr)
    ensures
        ({
            let t = expr_text(Expr::Binary(b));
            let l = expr_text(*b.left);
            let o = " "@ + bin_op_text(b.operator) + " "@;
            &&& t.len() == (l.len() + o.len()) as int + expr_text(*b.right).len()
            &&& t.subrange(0, l.len() as int) == l
            &&& t.subrange(l.len() as int, (l.len() + o.len()) as int) == o
            &&& t.subrange((l.len() + o.len()) as int, t.len() as int) == expr_text(*b.right)
        }),
{
    let t = expr_text(Expr::Binary(b));
    let l = expr_text(*b.left);
    let o = " "@ + bin_op_text(b.operator) + " "@;
    let r = expr_text(*b.right);
    assert(t =~= l + o + r);
    assert(t.subrange(0, l.len() as int) =~= l);
    assert(t.subrange(l.len() as int, (l.len() + o.len()) as int) =~= o);
    assert(t.subrange((l.len() + o.len()) as int, t.len() as int) =~= r);
}

/// The text of an assignment is the target, the operator between single
/// spaces, and the assigned value, in that order.
pub proof fn lemma_assign_text(a: AssignExpr)
    ensures
        ({
            let t = expr_text(Expr::Assign(a));
            let l = expr_text(*a.left);
            let o = " "@ + assign_op_text(a.operator) + " "@;
            &&& t.len() == (l.len() + o.len()) as int + expr_text(*a.right).len()
            &&& t.subrange(0, l.len() as int) == l
            &&& t.subrange(l.len() as int, (l.len() + o.len()) as int) == o
            &&& t.subrange((l.len() + o.len()) as int, t.len() as int) == expr_text(*a.right)
        }),
{
    let t = expr_text(Expr::Assign(a));
    let l = expr_text(*a.left);
    let o = " "@ + assign_op_text(a.operator) + " "@;
    let r = expr_text(*a.right);
    assert(t =~= l + o + r);
    assert(t.subrange(0, l.len() as int) =~= l);
    assert(t.subrange(l.len() as int, (l.len() + o.len()) as int) =~= o);
    assert(t.subrange((l.len() + o.len()) as int, t.len() as int) =~= r);
}

/// The text of an index access `b[i]` is the base, then the index in
/// brackets.
pub proof fn lemma_index_text(x: IndexExpr, i: Expr)
    requires
        x.index == Some(Box::new(i)),
    ensures
        ({
            let t = expr_text(Expr::Index(x));
            let b = expr_text(*x.base_expr);
            &&& t.len() == b.len() + expr_text(i).len() + 2
            &&& t.subrange(0, b.len() as int) == b
            &&& t[b.len() as int] == '['
            &&& t.subrange((b.len() + 1) as int, t.len() - 1) == expr_text(i)
            &&& t[t.len() - 1] == ']'
        }),
{
    reveal_strlit("[");
    reveal_strlit("]");
    let t = expr_text(Expr::Index(x));
    let b = expr_text(*x.base_expr);
    let m = expr_text(i);
    assert(t =~= b + "["@ + m + "]"@);
    assert(t.subrange(0, b.len() as int) =~= b);
    assert(t.subrange((b.len() + 1) as int, t.len() - 1) =~= m);
}

/// The text of a member access is the base, a dot, and the member's name.
pub proof fn lemma_member_text(m: MemberExpr)
    ensures
        ({
            let t = expr_text(Expr::Member(m));
            let b = expr_text(*m.base);
            &&& t.len() == (b.len() + 1) as int + name_text(m.member@).len()
            &&& t.subrange(0, b.len() as int) == b
            &&& t[b.len() as int] == '.'
            &&& t.subrange((b.len() + 1) as int, t.len() as int) == name_text(m.member@)
        }),
{
    reveal_strlit(".");
    let t = expr_text(Expr::Member(m));
    let b = expr_text(*m.base);
    assert(t =~= b + "."@ + name_text(m.member@));
    assert(t.subrange(0, b.len() as int) =~= b);
    assert(t.subrange((b.len() + 1) as int, t.len() as int) =~= name_text(m.member@));
}

/// The text of a slice `b[s:e]` with both bounds is the base, then the
/// start and the end bound around a colon, in brackets.
pub proof fn lemma_slice_text(x: SliceExpr, s: Expr, e: Expr)
    requires
        x.start_index == Some(Box::new(s)),
        x.end_index == Some(Box::new(e)),
    ensures
        ({
            let t = expr_text(Expr::Slice(x));
            let b = expr_text(*x.base_expr);
            let n = (b.len() + 1) as int;
            let k = n + expr_text(s).len() as int;
            &&& t.len() == k + 1 + expr_text(e).len() + 1
            &&& t.subrange(0, b.len() as int) == b
            &&& t[b.len() as int] == '['
            &&& t.subrange(n, k) == expr_text(s)
            &&& t[k] == ':'
            &&& t.subrange(k + 1, t.len() - 1) == expr_text(e)
            &&& t[t.len() - 1] == ']'
        }),
{
    reveal_strlit("[");
    reveal_strlit(":");
    reveal_strlit("]");
    let t = expr_text(Expr::Slice(x));
    let b = expr_text(*x.base_expr);
    let n = (b.len() + 1) as int;
    let k = n + expr_text(s).len() as int;
    assert(t =~= b + "["@ + expr_text(s) + ":"@ + expr_text(e) + "]"@);
    assert(t.subrange(0, b.len() as int) =~= b);
    assert(t.subrange(n, k) =~= expr_text(s));
    assert(t.subrange(k + 1, t.len() - 1) =~= expr_text(e));
}

/// The text of a call without options is the callee, then the arguments
/// in parentheses.
pub proof fn lemma_call_text(c: CallExpr)
    requires
        c.call_opts@.len() == 0,
    ensures
        ({
            let t = expr_text(Expr::Call(c));
            let f = expr_text(*c.callee);
            &&& t.len() == f.len() + args_text(c.args).len() + 2
            &&& t.subrange(0, f.len() as int) == f
            &&& t[f.len() as int] == '('
            &&& t.subrange((f.len() + 1) as int, t.len() - 1) == args_text(c.args)
            &&& t[t.len() - 1] == ')'
        }),
{
    reveal_strlit("(");
    reveal_strlit(")");
    let t = expr_text(Expr::Call(c));
    let f = expr_text(*c.callee);
    assert(t =~= f + "("@ + args_text(c.args) + ")"@);
    assert(t.subrange(0, f.len() as int) =~= f);
    assert(t.subrange((f.len() + 1) as int, t.len() - 1) =~= args_text(c.args));
}

} // verus!
