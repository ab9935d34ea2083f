//! Substitution of names, with scopes in which a declaration shadows a
//! renaming; and the rewriting of every expression of statements and
//! declarations by a `Rewriter`: identifiers replaced by expressions, named
//! arguments reordered, member accesses replaced, callees unwrapped, member
//! calls of attached functions made plain, and `super` resolved.
use vstd::prelude::*;
use crate::name::{Name, NameView, names_view};
use crate::definitions::{
    VarDecl, overridings_same, var_decl_rw, var_decl_rw_ok, var_decl_subst, var_decls_rw,
    var_decls_rw_ok, var_decls_subst,
};
use crate::expressions::{
    AssignExpr, BinaryExpr, CallArgs, CallExpr, CallOpt, CallOptsExpr, ConditionalExpr, Expr,
    Identifier, IndexExpr, InlineArrayExpr, MemberExpr, NamedArg, Rewrite, SliceExpr, TupleExpr,
    SuperContext, UnaryExpr, args_rw, args_rw_ok, boxed_rw, boxed_rw_ok, call_opts_rw, call_opts_rw_ok, call_rw,
    call_parts_rw, call_rw_ok, copy_expr, expr_text, rw_checked, expr_rw, expr_rw_ok, expr_seqs_rw, exprs_rw_ok, expr_subst, ident_lookup,
    idents_equal, member_lookup, named_args_rw, named_args_rw_ok, opt_expr_rw, opt_expr_rw_ok,
    opt_expr_seqs_rw, opt_exprs_rw_ok,
};
use crate::named_args::{opt_text, reorder_named_args, table_view};
use crate::text::str_eq;
use crate::directives::UsingDir;
use crate::source_unit::SourceUnitElem;
use crate::usings::{UsingTarget, deref_usings, find_using_target};
use crate::super_calls::{overridden_names, resolve_super_member};
use crate::inheritance::pairs_view;
use crate::specifiers::Overriding;
use crate::stmts::{
    AsmStmt, Block, CatchClause, DoWhileStmt, EmitStmt, ExprStmt, ForStmt, IfStmt, ReturnStmt,
    RevertStmt, Stmt, TryStmt, VarDeclStmt, WhileStmt, asm_same, block_rw, block_rw_ok,
    block_subst, catch_rw, catch_rw_ok, opt_stmt_rw, opt_stmt_rw_ok, opt_var_decl_rw,
    opt_var_decl_rw_ok, stmt_rw, stmt_rw_ok, stmt_subst, stmts_rw, stmts_rw_ok, stmts_subst,
};

use crate::types::Type;
use crate::yul_stmts::copy_yul_stmts;

verus! {

/// The map that a list of (old, new) pairs denotes: a later pair for the
/// same old name overrides an earlier one.
pub open spec fn pairs_map(s: Seq<(NameView, NameView)>) -> Map<NameView, NameView>
    decreases s.len(),
{
    if s.len() == 0 {
        Map::empty()
    } else {
        pairs_map(s.drop_last()).insert(s.last().0, s.last().1)
    }
}

/// The views of a list of name pairs.
pub open spec fn name_pairs_view(s: Seq<(Name, Name)>) -> Seq<(NameView, NameView)> {
    s.map_values(|p: (Name, Name)| (p.0@, p.1@))
}

/// The pairs of `olds` and `news` at the same positions.
pub open spec fn zip_names(olds: Seq<NameView>, news: Seq<NameView>) -> Seq<(NameView, NameView)> {
    Seq::new(olds.len(), |i: int| (olds[i], news[i]))
}

/// The pairs whose old name is not `k`.
pub open spec fn without_key(s: Seq<(NameView, NameView)>, k: NameView) -> Seq<
    (NameView, NameView),
>
    decreases s.len(),
{
    if s.len() == 0 {
        Seq::empty()
    } else {
        let rest = without_key(s.drop_last(), k);
        if s.last().0 == k {
            rest
        } else {
            rest.push(s.last())
        }
    }
}

proof fn lemma_last_binding(s: Seq<(NameView, NameView)>, k: NameView, j: int)
    requires
        0 <= j < s.len(),
        s[j].0 == k,
        forall|m: int| j < m < s.len() ==> (#[trigger] s[m]).0 != k,
    ensures
        pairs_map(s).contains_key(k),
        pairs_map(s)[k] == s[j].1,
    decreases s.len(),
{
    if j < s.len() - 1 {
        let init = s.drop_last();
        assert forall|m: int| j < m < init.len() implies (#[trigger] init[m]).0 != k by {
            assert(init[m] == s[m]);
        }
        lemma_last_binding(init, k, j);
        assert(s[s.len() - 1].0 != k);
    }
}

proof fn lemma_unbound(s: Seq<(NameView, NameView)>, k: NameView)
    requires
        forall|m: int| 0 <= m < s.len() ==> (#[trigger] s[m]).0 != k,
    ensures
        !pairs_map(s).contains_key(k),
    decreases s.len(),
{
    if s.len() > 0 {
        let init = s.drop_last();
        assert forall|m: int| 0 <= m < init.len() implies (#[trigger] init[m]).0 != k by {
            assert(init[m] == s[m]);
        }
        lemma_unbound(init, k);
        assert(s[s.len() - 1].0 != k);
    }
}

proof fn lemma_without_key(s: Seq<(NameView, NameView)>, k: NameView)
    ensures
        pairs_map(without_key(s, k)) == pairs_map(s).remove(k),
    decreases s.len(),
{
    if s.len() == 0 {
        assert(pairs_map(s).remove(k) =~= Map::empty());
    } else {
        let init = s.drop_last();
        lemma_without_key(init, k);
        let rest = without_key(init, k);
        if s.last().0 == k {
            assert(pairs_map(s).remove(k) =~= pairs_map(init).remove(k));
        } else {
            assert(rest.push(s.last()).drop_last() =~= rest);
            assert(pairs_map(rest.push(s.last())) =~= pairs_map(s).remove(k));
        }
    }
}

/// Substitution of names, as a map from old names to new names.
pub struct NameSubstitutor {
    substitution_map: Vec<(Name, Name)>,
}

impl View for NameSubstitutor {
    type V = Map<NameView, NameView>;

    closed spec fn view(&self) -> Map<NameView, NameView> {
        pairs_map(name_pairs_view(self.substitution_map@))
    }
}

impl Clone for NameSubstitutor {
    /// A copy, as saved on entering a scope.
    fn clone(&self) -> (res: Self)
        ensures
            res@ == self@,
    {
        let mut pairs: Vec<(Name, Name)> = Vec::new();
        let mut i: usize = 0;
        while i < self.substitution_map.len()
            invariant
                i <= self.substitution_map.len(),
                name_pairs_view(pairs@) == name_pairs_view(self.substitution_map@).take(i as int),
            decreases self.substitution_map.len() - i,
        {
            let p = (self.substitution_map[i].0.clone(), self.substitution_map[i].1.clone());
            let ghost prev = name_pairs_view(pairs@);
            pairs.push(p);
            assert(name_pairs_view(pairs@) =~= prev.push(
                name_pairs_view(self.substitution_map@)[i as int],
            ));
            i = i + 1;
            assert(name_pairs_view(self.substitution_map@).take(i as int) =~= prev.push(
                name_pairs_view(self.substitution_map@)[i - 1],
            ));
        }
        assert(name_pairs_view(self.substitution_map@).take(i as int) =~= name_pairs_view(
            self.substitution_map@,
        ));
        NameSubstitutor { substitution_map: pairs }
    }
}

impl NameSubstitutor {
    /// The substitution that maps each old name to the new name at the same
    /// position; where an old name occurs twice, the later pair wins. The
    /// two lists must have the same length.
    pub fn new(old_names: &[Name], new_names: &[Name]) -> (res: Self)
        requires
            old_names@.len() == new_names@.len(),
        ensures
            res@ == pairs_map(zip_names(names_view(old_names@), names_view(new_names@))),
    {
        let ghost z = zip_names(names_view(old_names@), names_view(new_names@));
        let mut pairs: Vec<(Name, Name)> = Vec::new();
        let mut i: usize = 0;
        while i < old_names.len()
            invariant
                old_names@.len() == new_names@.len(),
                z == zip_names(names_view(old_names@), names_view(new_names@)),
                i <= old_names@.len(),
                name_pairs_view(pairs@) == z.take(i as int),
            decreases old_names@.len() - i,
        {
            let p = (old_names[i].clone(), new_names[i].clone());
            let ghost prev = name_pairs_view(pairs@);
            pairs.push(p);
            assert(name_pairs_view(pairs@) =~= prev.push(z[i as int]));
            i = i + 1;
            assert(z.take(i as int) =~= prev.push(z[i - 1]));
        }
        assert(z.take(i as int) =~= z);
        NameSubstitutor { substitution_map: pairs }
    }

    /// The name that `name` is substituted by, or `name` itself if it is
    /// not substituted.
    pub fn map_name(&self, name: &Name) -> (res: Name)
        ensures
            res@ == (if self@.contains_key(name@) {
                self@[name@]
            } else {
                name@
            }),
    {
        let ghost s = name_pairs_view(self.substitution_map@);
        let mut j = self.substitution_map.len();
        while j > 0
            invariant
                s == name_pairs_view(self.substitution_map@),
                j <= self.substitution_map.len(),
                forall|m: int| j <= m < s.len() ==> (#[trigger] s[m]).0 != name@,
            decreases j,
        {
            j = j - 1;
            if self.substitution_map[j].0.same(name) {
                proof {
                    lemma_last_binding(s, name@, j as int);
                }
                return self.substitution_map[j].1.clone();
            }
        }
        proof {
            lemma_unbound(s, name@);
        }
        name.clone()
    }

    /// Whether `name` is substituted.
    pub fn contains(&self, name: &Name) -> (res: bool)
        ensures
            res == self@.contains_key(name@),
    {
        let ghost s = name_pairs_view(self.substitution_map@);
        let mut j = self.substitution_map.len();
        while j > 0
            invariant
                s == name_pairs_view(self.substitution_map@),
                j <= self.substitution_map.len(),
                forall|m: int| j <= m < s.len() ==> (#[trigger] s[m]).0 != name@,
            decreases j,
        {
            j = j - 1;
            if self.substitution_map[j].0.same(name) {
                proof {
                    lemma_last_binding(s, name@, j as int);
                }
                return true;
            }
        }
        proof {
            lemma_unbound(s, name@);
        }
        false
    }

    /// Stop substituting `name`: a declaration of that name shadows the
    /// substitution in its scope.
    pub fn remove(&mut self, name: &Name)
        ensures
            final(self)@ == old(self)@.remove(name@),
    {
        let ghost s = name_pairs_view(self.substitution_map@);
        let mut pairs: Vec<(Name, Name)> = Vec::new();
        let mut i: usize = 0;
        while i < self.substitution_map.len()
            invariant
                s == name_pairs_view(self.substitution_map@),
                i <= self.substitution_map.len(),
                name_pairs_view(pairs@) == without_key(s.take(i as int), name@),
            decreases self.substitution_map.len() - i,
        {
            assert(s.take(i + 1).drop_last() =~= s.take(i as int));
            if !self.substitution_map[i].0.same(name) {
                let p = (self.substitution_map[i].0.clone(), self.substitution_map[i].1.clone());
                let ghost prev = name_pairs_view(pairs@);
                pairs.push(p);
                assert(name_pairs_view(pairs@) =~= prev.push(s[i as int]));
            }
            i = i + 1;
        }
        assert(s.take(i as int) =~= s);
        proof {
            lemma_without_key(s, name@);
        }
        self.substitution_map = pairs;
    }
}

//-------------------------------------------------------------------------
// Substituting identifiers by expressions
//-------------------------------------------------------------------------

/// The pairs of identifiers and expressions that pairs of identifiers and
/// references to expressions denote.
pub open spec fn ref_pairs(s: Seq<(Identifier, &Expr)>) -> Seq<(Identifier, Expr)> {
    s.map_values(|q: (Identifier, &Expr)| (q.0, *q.1))
}

/// Whether two identifiers are equal (see `idents_equal`).
fn idents_equal_exec(a: &Identifier, b: &Identifier) -> (res: bool)
    ensures
        res == idents_equal(*a, *b),
{
    let same_loc = match (a.loc, b.loc) {
        (Some(x), Some(y)) => x == y,
        (None, None) => true,
        _ => false,
    };
    a.id == b.id && a.name.same(&b.name) && Type::same(&a.typ, &b.typ) && same_loc
}

/// The expression bound to an identifier by the last pair for it.
fn lookup_ident<'a>(p: &Vec<(Identifier, &'a Expr)>, x: &Identifier) -> (res: Option<&'a Expr>)
    ensures
        match res {
            Some(e) => ident_lookup(ref_pairs(p@), *x) == Some(*e),
            None => ident_lookup(ref_pairs(p@), *x) is None,
        },
{
    let mut i: usize = p.len();
    assert(ref_pairs(p@).take(i as int) =~= ref_pairs(p@));
    while i > 0
        invariant
            i <= p.len(),
            ident_lookup(ref_pairs(p@), *x) == ident_lookup(ref_pairs(p@).take(i as int), *x),
        decreases i,
    {
        assert(ref_pairs(p@).take(i as int).drop_last() =~= ref_pairs(p@).take(i - 1));
        if idents_equal_exec(&p[i - 1].0, x) {
            return Some(p[i - 1].1);
        }
        i = i - 1;
    }
    None
}

/// A rewriting of expressions (see `Rewrite`), with what it works from at
/// hand: the pairs of identifiers and expressions; the table of parameter
/// names of callables and the current contract; the pairs of member access
/// texts and names; the using directives in scope and the elements of the
/// source unit; or what resolving `super` works from.
pub enum Rewriter<'a> {
    Idents(&'a Vec<(Identifier, &'a Expr)>),
    NamedArgs(&'a Vec<(String, Vec<String>)>, &'a Option<String>),
    Members(&'a Vec<(String, Name)>),
    UnaryTuples,
    Usings(&'a Vec<&'a UsingDir>, &'a [SourceUnitElem]),
    Supers(SuperScope<'a>),
}

/// What resolving `super` works from (see `SuperContext`): the current
/// contract, the overriding specifier of the current function, the
/// linearization of each contract, and the names of the variables and
/// functions of each contract.
pub struct SuperScope<'a> {
    pub current: Option<&'a Name>,
    pub overriding: &'a Overriding,
    pub linearization: &'a Vec<(Name, Vec<Name>)>,
    pub contracts: &'a Vec<(Name, Vec<Name>)>,
}

/// The context that a scope of `super` denotes.
pub open spec fn super_context(sc: SuperScope) -> SuperContext {
    SuperContext {
        current: match sc.current {
            Some(n) => Some(n@),
            None => None,
        },
        overrides_all: sc.overriding is All,
        overridden: overridden_names(sc.overriding),
        linearization: pairs_view(sc.linearization@),
        contracts: pairs_view(sc.contracts@),
    }
}

/// Whether an expression displays as `super`.
fn is_super(e: &Expr) -> (res: bool)
    ensures
        res == (expr_text(*e) == "super"@),
{
    str_eq(e.to_string().as_str(), "super")
}

/// The rewriting that a rewriter performs.
pub open spec fn rewrite_of(w: Rewriter) -> Rewrite {
    match w {
        Rewriter::Idents(p) => Rewrite::Idents(ref_pairs(p@)),
        Rewriter::NamedArgs(t, scope) => Rewrite::NamedArgs(table_view(t@), opt_text(*scope)),
        Rewriter::Members(m) => Rewrite::Members(keyed(m@)),
        Rewriter::UnaryTuples => Rewrite::UnaryTuples,
        Rewriter::Usings(us, elems) => Rewrite::Usings(deref_usings(us@), elems@),
        Rewriter::Supers(sc) => Rewrite::Supers(super_context(sc)),
    }
}

/// The views of pairs of texts and names.
pub open spec fn keyed(m: Seq<(String, Name)>) -> Seq<(Seq<char>, NameView)> {
    m.map_values(|p: (String, Name)| (p.0@, p.1@))
}

/// The name bound to a text by the last pair for it.
fn lookup_member<'a>(m: &'a Vec<(String, Name)>, key: &str) -> (res: Option<&'a Name>)
    ensures
        match res {
            Some(n) => member_lookup(keyed(m@), key@) == Some(n@),
            None => member_lookup(keyed(m@), key@) is None,
        },
{
    let mut i: usize = m.len();
    assert(keyed(m@).take(i as int) =~= keyed(m@));
    while i > 0
        invariant
            i <= m.len(),
            member_lookup(keyed(m@), key@) == member_lookup(keyed(m@).take(i as int), key@),
        decreases i,
    {
        assert(keyed(m@).take(i as int).drop_last() =~= keyed(m@).take(i - 1));
        if str_eq(m[i - 1].0.as_str(), key) {
            return Some(&m[i - 1].1);
        }
        i = i - 1;
    }
    None
}

/// An expression rewritten by `w` (see `expr_rw`).
pub fn rewrite_expr(w: &Rewriter, e: &Expr) -> (res: Expr)
    requires
        rw_checked(rewrite_of(*w)) ==> expr_rw_ok(rewrite_of(*w), *e),
    ensures
        expr_rw(rewrite_of(*w), *e, res),
    decreases e, 0int,
{
    match e {
        Expr::Ident(x) => match w {
            Rewriter::Idents(p) => match lookup_ident(p, x) {
                Some(v) => copy_expr(v),
                None => Expr::Ident(x.clone()),
            },
            _ => Expr::Ident(x.clone()),
        },
        Expr::Lit(x) => Expr::Lit(x.clone()),
        Expr::Unary(x) => Expr::Unary(
            UnaryExpr {
                id: x.id,
                op: x.op,
                body: Box::new(rewrite_expr(w, &x.body)),
                typ: x.typ.clone(),
                loc: x.loc,
            },
        ),
        Expr::Binary(x) => Expr::Binary(
            BinaryExpr {
                id: x.id,
                operator: x.operator,
                left: Box::new(rewrite_expr(w, &x.left)),
                right: Box::new(rewrite_expr(w, &x.right)),
                typ: x.typ.clone(),
                loc: x.loc,
            },
        ),
        Expr::Assign(x) => Expr::Assign(
            AssignExpr {
                id: x.id,
                operator: x.operator,
                left: Box::new(rewrite_expr(w, &x.left)),
                right: Box::new(rewrite_expr(w, &x.right)),
                typ: x.typ.clone(),
                loc: x.loc,
            },
        ),
        Expr::Call(x) => Expr::Call(rewrite_call(w, x)),
        Expr::CallOpts(x) => Expr::CallOpts(
            CallOptsExpr {
                id: x.id,
                callee: Box::new(rewrite_expr(w, &x.callee)),
                call_opts: rewrite_call_opts(w, &x.call_opts),
                typ: x.typ.clone(),
                loc: x.loc,
            },
        ),
        Expr::Tuple(x) => {
            if let Rewriter::UnaryTuples = w {
                if x.elems.len() == 1 {
                    if let Some(inner) = &x.elems[0] {
                        proof {
                            assert(decreases_to!(*e => *inner)) by {
                                assert(decreases_to!(*e => x));
                                assert(decreases_to!(x => x.elems));
                                assert(decreases_to!(x.elems => x.elems@));
                                assert(decreases_to!(x.elems@ => x.elems@[0]));
                            }
                        }
                        return rewrite_expr(w, inner);
                    }
                }
            }
            Expr::Tuple(
                TupleExpr {
                    id: x.id,
                    elems: rewrite_opt_exprs(w, &x.elems),
                    typ: x.typ.clone(),
                    loc: x.loc,
                },
            )
        },
        Expr::Index(x) => Expr::Index(
            IndexExpr {
                id: x.id,
                base_expr: Box::new(rewrite_expr(w, &x.base_expr)),
                index: rewrite_boxed(w, &x.index),
                typ: x.typ.clone(),
                loc: x.loc,
            },
        ),
        Expr::Slice(x) => Expr::Slice(
            SliceExpr {
                id: x.id,
                base_expr: Box::new(rewrite_expr(w, &x.base_expr)),
                start_index: rewrite_boxed(w, &x.start_index),
                end_index: rewrite_boxed(w, &x.end_index),
                typ: x.typ.clone(),
                loc: x.loc,
            },
        ),
        Expr::Member(x) => {
            match w {
                Rewriter::Members(m) => {
                    let key = e.to_string();
                    match lookup_member(m, key.as_str()) {
                        Some(n) => {
                            return Expr::Ident(
                                Identifier { id: None, name: n.clone(), typ: x.typ.clone(), loc: x.loc },
                            );
                        },
                        None => {},
                    }
                },
                Rewriter::Supers(sc) => {
                    match sc.current {
                        Some(cur) => {
                            if is_super(&x.base) {
                                match resolve_super_member(
                                    cur,
                                    sc.overriding,
                                    sc.linearization,
                                    sc.contracts,
                                    &x.member,
                                ) {
                                    Some((c, m)) => {
                                        return Expr::Member(
                                            MemberExpr {
                                                id: x.id,
                                                base: Box::new(
                                                    Expr::Ident(
                                                        Identifier {
                                                            id: None,
                                                            name: c,
                                                            typ: x.base.typ(),
                                                            loc: x.base.loc(),
                                                        },
                                                    ),
                                                ),
                                                member: m,
                                                typ: x.typ.clone(),
                                                loc: x.loc,
                                            },
                                        );
                                    },
                                    None => {},
                                }
                            }
                        },
                        None => {},
                    }
                },
                _ => {},
            }
            Expr::Member(
            MemberExpr {
                id: x.id,
                base: Box::new(rewrite_expr(w, &x.base)),
                member: x.member.clone(),
                typ: x.typ.clone(),
                loc: x.loc,
            },
        )
        },
        Expr::Conditional(x) => Expr::Conditional(
            ConditionalExpr {
                id: x.id,
                cond: Box::new(rewrite_expr(w, &x.cond)),
                true_br: Box::new(rewrite_expr(w, &x.true_br)),
                false_br: Box::new(rewrite_expr(w, &x.false_br)),
                typ: x.typ.clone(),
                loc: x.loc,
            },
        ),
        Expr::InlineArray(x) => Expr::InlineArray(
            InlineArrayExpr { id: x.id, elems: rewrite_exprs(w, &x.elems), typ: x.typ.clone(), loc: x.loc },
        ),
        Expr::New(x) => Expr::New(x.clone()),
        Expr::TypeName(x) => Expr::TypeName(x.clone()),
    }
}

/// A call rewritten by `w`.
pub(crate) fn rewrite_call(w: &Rewriter, c: &CallExpr) -> (res: CallExpr)
    requires
        rw_checked(rewrite_of(*w)) ==> call_rw_ok(rewrite_of(*w), *c),
    ensures
        call_rw(rewrite_of(*w), *c, res),
    decreases c, 1int,
{
    match w {
        Rewriter::NamedArgs(t, scope) => reorder_named_args(t, scope, c),
        Rewriter::Usings(us, elems) => {
            match (&*c.callee, &c.args) {
                (Expr::Member(mx), CallArgs::Unnamed(a)) => {
                    match find_using_target(us, elems, &mx.base.typ(), &mx.member) {
                        Some(tgt) => {
                            let callee = match tgt {
                                UsingTarget::Lib(l) => Expr::Member(
                                    MemberExpr {
                                        id: mx.id,
                                        base: Box::new(
                                            Expr::Ident(
                                                Identifier {
                                                    id: None,
                                                    name: l.clone(),
                                                    typ: Type::Contract { name: l, is_lib: true },
                                                    loc: None,
                                                },
                                            ),
                                        ),
                                        member: mx.member.clone(),
                                        typ: mx.typ.clone(),
                                        loc: mx.loc,
                                    },
                                ),
                                UsingTarget::Func(f) => Expr::Ident(
                                    Identifier { id: None, name: f, typ: mx.typ.clone(), loc: mx.loc },
                                ),
                            };
                            proof {
                                assert(decreases_to!(*c => *mx.base)) by {
                                    assert(decreases_to!(*c => *c.callee));
                                    assert(decreases_to!(*c.callee => mx));
                                    assert(decreases_to!(mx => mx.base));
                                }
                                assert(decreases_to!(*c => *a)) by {
                                    assert(decreases_to!(*c => c.args));
                                }
                            }
                            let mut args: Vec<Expr> = Vec::new();
                            args.push(rewrite_expr(w, &mx.base));
                            let mut rest = rewrite_exprs(w, a);
                            let ghost r = rest@;
                            args.append(&mut rest);
                            assert(args@.drop_first() =~= r);
                            return CallExpr {
                                id: c.id,
                                callee: Box::new(callee),
                                call_opts: rewrite_call_opts(w, &c.call_opts),
                                args: CallArgs::Unnamed(args),
                                kind: c.kind,
                                typ: c.typ.clone(),
                                loc: c.loc,
                            };
                        },
                        None => {},
                    }
                },
                _ => {},
            }
            rewrite_call_parts(w, c)
        },
        _ => rewrite_call_parts(w, c),
    }
}

/// A call with its callee, options and arguments rewritten by `w`.
fn rewrite_call_parts(w: &Rewriter, c: &CallExpr) -> (res: CallExpr)
    requires
        !(rewrite_of(*w) is NamedArgs),
        rw_checked(rewrite_of(*w)) ==> call_rw_ok(rewrite_of(*w), *c),
    ensures
        call_parts_rw(rewrite_of(*w), *c, res),
    decreases c, 0int,
{
    let callee = rewrite_expr(w, &c.callee);
    CallExpr {
        id: c.id,
        callee: Box::new(callee),
        call_opts: rewrite_call_opts(w, &c.call_opts),
        args: rewrite_args(w, &c.args),
        kind: c.kind,
        typ: c.typ.clone(),
        loc: c.loc,
    }
}

/// An optional boxed expression rewritten by `w`.
fn rewrite_boxed(w: &Rewriter, e: &Option<Box<Expr>>) -> (res: Option<Box<Expr>>)
    requires
        rw_checked(rewrite_of(*w)) ==> boxed_rw_ok(rewrite_of(*w), *e),
    ensures
        boxed_rw(rewrite_of(*w), *e, res),
    decreases e, 0int,
{
    match e {
        Some(x) => Some(Box::new(rewrite_expr(w, x))),
        None => None,
    }
}

/// An optional expression rewritten by `w`.
fn rewrite_opt_expr(w: &Rewriter, e: &Option<Expr>) -> (res: Option<Expr>)
    requires
        rw_checked(rewrite_of(*w)) ==> opt_expr_rw_ok(rewrite_of(*w), *e),
    ensures
        opt_expr_rw(rewrite_of(*w), *e, res),
    decreases e, 0int,
{
    match e {
        Some(x) => Some(rewrite_expr(w, x)),
        None => None,
    }
}

/// Expressions rewritten by `w`, in order.
pub(crate) fn rewrite_exprs(w: &Rewriter, es: &Vec<Expr>) -> (res: Vec<Expr>)
    requires
        rw_checked(rewrite_of(*w)) ==> exprs_rw_ok(rewrite_of(*w), es@),
    ensures
        expr_seqs_rw(rewrite_of(*w), es@, res@),
    decreases es@, 0int,
{
    let mut res: Vec<Expr> = Vec::new();
    let mut i: usize = 0;
    while i < es.len()
        invariant
            rw_checked(rewrite_of(*w)) ==> exprs_rw_ok(rewrite_of(*w), es@),
            i <= es.len(),
            res@.len() == i,
            forall|j: int| 0 <= j < i ==> expr_rw(rewrite_of(*w), es@[j], res@[j]),
        decreases es.len() - i,
    {
        res.push(rewrite_expr(w, &es[i]));
        i = i + 1;
    }
    res
}

/// Optional expressions rewritten by `w`, in
/// order.
fn rewrite_opt_exprs(w: &Rewriter, es: &Vec<Option<Expr>>) -> (res: Vec<Option<Expr>>)
    requires
        rw_checked(rewrite_of(*w)) ==> opt_exprs_rw_ok(rewrite_of(*w), es@),
    ensures
        opt_expr_seqs_rw(rewrite_of(*w), es@, res@),
    decreases es@, 0int,
{
    let mut res: Vec<Option<Expr>> = Vec::new();
    let mut i: usize = 0;
    while i < es.len()
        invariant
            rw_checked(rewrite_of(*w)) ==> opt_exprs_rw_ok(rewrite_of(*w), es@),
            i <= es.len(),
            res@.len() == i,
            forall|j: int| 0 <= j < i ==> opt_expr_rw(rewrite_of(*w), es@[j], res@[j]),
        decreases es.len() - i,
    {
        res.push(rewrite_opt_expr(w, &es[i]));
        i = i + 1;
    }
    res
}

/// Call options rewritten by `w`, in order.
fn rewrite_call_opts(w: &Rewriter, os: &Vec<CallOpt>) -> (res: Vec<CallOpt>)
    requires
        rw_checked(rewrite_of(*w)) ==> call_opts_rw_ok(rewrite_of(*w), os@),
    ensures
        call_opts_rw(rewrite_of(*w), os@, res@),
    decreases os@, 0int,
{
    let mut res: Vec<CallOpt> = Vec::new();
    let mut i: usize = 0;
    while i < os.len()
        invariant
            rw_checked(rewrite_of(*w)) ==> call_opts_rw_ok(rewrite_of(*w), os@),
            i <= os.len(),
            res@.len() == i,
            forall|j: int|
                0 <= j < i ==> os@[j].name@ == res@[j].name@ && os@[j].loc == res@[j].loc
                    && expr_rw(rewrite_of(*w), os@[j].value, res@[j].value),
        decreases os.len() - i,
    {
        res.push(CallOpt { name: os[i].name.clone(), value: rewrite_expr(w, &os[i].value), loc: os[i].loc });
        i = i + 1;
    }
    res
}

/// Named arguments rewritten by `w`, in order.
fn rewrite_named_args(w: &Rewriter, ns: &Vec<NamedArg>) -> (res: Vec<NamedArg>)
    requires
        rw_checked(rewrite_of(*w)) ==> named_args_rw_ok(rewrite_of(*w), ns@),
    ensures
        named_args_rw(rewrite_of(*w), ns@, res@),
    decreases ns@, 0int,
{
    let mut res: Vec<NamedArg> = Vec::new();
    let mut i: usize = 0;
    while i < ns.len()
        invariant
            rw_checked(rewrite_of(*w)) ==> named_args_rw_ok(rewrite_of(*w), ns@),
            i <= ns.len(),
            res@.len() == i,
            forall|j: int|
                0 <= j < i ==> ns@[j].name@ == res@[j].name@ && ns@[j].loc == res@[j].loc
                    && expr_rw(rewrite_of(*w), ns@[j].value, res@[j].value),
        decreases ns.len() - i,
    {
        res.push(NamedArg { name: ns[i].name.clone(), value: rewrite_expr(w, &ns[i].value), loc: ns[i].loc });
        i = i + 1;
    }
    res
}

/// An argument list rewritten by `w`.
fn rewrite_args(w: &Rewriter, a: &CallArgs) -> (res: CallArgs)
    requires
        rw_checked(rewrite_of(*w)) ==> args_rw_ok(rewrite_of(*w), *a),
    ensures
        args_rw(rewrite_of(*w), *a, res),
    decreases a, 0int,
{
    match a {
        CallArgs::Unnamed(x) => CallArgs::Unnamed(rewrite_exprs(w, x)),
        CallArgs::Named(x) => CallArgs::Named(rewrite_named_args(w, x)),
    }
}

/// A copy of an `override` specifier.
pub(crate) fn copy_overriding(o: &Overriding) -> (res: Overriding)
    ensures
        overridings_same(*o, res),
{
    match o {
        Overriding::Unspecified => Overriding::Unspecified,
        Overriding::All => Overriding::All,
        Overriding::Listed(names) => {
            let mut v: Vec<Name> = Vec::new();
            let mut i: usize = 0;
            while i < names.len()
                invariant
                    i <= names.len(),
                    v@ == names@.take(i as int),
                decreases names.len() - i,
            {
                v.push(names[i].clone());
                i = i + 1;
                assert(v@ =~= names@.take(i as int));
            }
            assert(names@.take(i as int) =~= names@);
            Overriding::Listed(v)
        },
    }
}

/// A declaration rewritten by `w` in its
/// initial value.
pub fn rewrite_var_decl(w: &Rewriter, v: &VarDecl) -> (res: VarDecl)
    requires
        rw_checked(rewrite_of(*w)) ==> var_decl_rw_ok(rewrite_of(*w), *v),
    ensures
        var_decl_rw(rewrite_of(*w), *v, res),
{
    VarDecl {
        id: v.id,
        scope_id: v.scope_id,
        name: v.name.clone(),
        typ: v.typ.clone(),
        value: rewrite_opt_expr(w, &v.value),
        mutability: v.mutability,
        is_state_var: v.is_state_var,
        overriding: copy_overriding(&v.overriding),
        visibility: v.visibility,
        data_loc: v.data_loc,
        loc: v.loc,
    }
}

/// Declarations rewritten by `w`, in order.
pub(crate) fn rewrite_var_decls(w: &Rewriter, vs: &Vec<VarDecl>) -> (res: Vec<VarDecl>)
    requires
        rw_checked(rewrite_of(*w)) ==> var_decls_rw_ok(rewrite_of(*w), vs@),
    ensures
        var_decls_rw(rewrite_of(*w), vs@, res@),
{
    let mut res: Vec<VarDecl> = Vec::new();
    let mut i: usize = 0;
    while i < vs.len()
        invariant
            rw_checked(rewrite_of(*w)) ==> var_decls_rw_ok(rewrite_of(*w), vs@),
            i <= vs.len(),
            res@.len() == i,
            forall|j: int| 0 <= j < i ==> var_decl_rw(rewrite_of(*w), vs@[j], res@[j]),
        decreases vs.len() - i,
    {
        res.push(rewrite_var_decl(w, &vs[i]));
        i = i + 1;
    }
    res
}

/// A copy of an inline assembly statement.
fn copy_asm(a: &AsmStmt) -> (res: AsmStmt)
    ensures
        asm_same(*a, res),
{
    let mut flags: Vec<String> = Vec::new();
    let mut i: usize = 0;
    while i < a.asm_flags.len()
        invariant
            i <= a.asm_flags.len(),
            flags@ == a.asm_flags@.take(i as int),
        decreases a.asm_flags.len() - i,
    {
        flags.push(a.asm_flags[i].clone());
        i = i + 1;
        assert(flags@ =~= a.asm_flags@.take(i as int));
    }
    assert(a.asm_flags@.take(i as int) =~= a.asm_flags@);
    AsmStmt { id: a.id, is_evmasm: a.is_evmasm, asm_flags: flags, body: copy_yul_stmts(&a.body), loc: a.loc }
}

/// An optional statement rewritten by `w`.
fn rewrite_opt_stmt(w: &Rewriter, s: &Option<Box<Stmt>>) -> (res: Option<Box<Stmt>>)
    requires
        rw_checked(rewrite_of(*w)) ==> opt_stmt_rw_ok(rewrite_of(*w), *s),
    ensures
        opt_stmt_rw(rewrite_of(*w), *s, res),
    decreases s,
{
    match s {
        Some(x) => Some(Box::new(rewrite_stmt(w, x))),
        None => None,
    }
}

/// Statements rewritten by `w`, in order.
pub fn rewrite_stmts(w: &Rewriter, ss: &Vec<Stmt>) -> (res: Vec<Stmt>)
    requires
        rw_checked(rewrite_of(*w)) ==> stmts_rw_ok(rewrite_of(*w), ss@),
    ensures
        stmts_rw(rewrite_of(*w), ss@, res@),
    decreases ss@,
{
    let mut res: Vec<Stmt> = Vec::new();
    let mut i: usize = 0;
    while i < ss.len()
        invariant
            rw_checked(rewrite_of(*w)) ==> stmts_rw_ok(rewrite_of(*w), ss@),
            i <= ss.len(),
            res@.len() == i,
            forall|j: int| 0 <= j < i ==> stmt_rw(rewrite_of(*w), ss@[j], res@[j]),
        decreases ss.len() - i,
    {
        res.push(rewrite_stmt(w, &ss[i]));
        i = i + 1;
    }
    res
}

/// A block rewritten by `w`.
pub fn rewrite_block(w: &Rewriter, b: &Block) -> (res: Block)
    requires
        rw_checked(rewrite_of(*w)) ==> block_rw_ok(rewrite_of(*w), *b),
    ensures
        block_rw(rewrite_of(*w), *b, res),
    decreases b,
{
    Block { id: b.id, body: rewrite_stmts(w, &b.body), unchecked: b.unchecked, loc: b.loc }
}

/// Catch clauses rewritten by `w`, in order.
fn rewrite_catches(w: &Rewriter, cs: &Vec<CatchClause>) -> (res: Vec<CatchClause>)
    requires
        rw_checked(rewrite_of(*w)) ==> (forall|i: int| 0 <= i < cs@.len() ==> catch_rw_ok(rewrite_of(*w), cs@[i])),
    ensures
        res@.len() == cs@.len(),
        forall|i: int| 0 <= i < cs@.len() ==> catch_rw(rewrite_of(*w), cs@[i], res@[i]),
    decreases cs@,
{
    let mut res: Vec<CatchClause> = Vec::new();
    let mut i: usize = 0;
    while i < cs.len()
        invariant
            rw_checked(rewrite_of(*w)) ==> (forall|i: int| 0 <= i < cs@.len() ==> catch_rw_ok(rewrite_of(*w), cs@[i])),
            i <= cs.len(),
            res@.len() == i,
            forall|j: int| 0 <= j < i ==> catch_rw(rewrite_of(*w), cs@[j], res@[j]),
        decreases cs.len() - i,
    {
        let c = &cs[i];
        res.push(
            CatchClause {
                id: c.id,
                error: match &c.error {
                    Some(e) => Some(e.clone()),
                    None => None,
                },
                params: rewrite_var_decls(w, &c.params),
                body: rewrite_block(w, &c.body),
                loc: c.loc,
            },
        );
        i = i + 1;
    }
    res
}

/// Optional declarations rewritten by `w`, in
/// order.
fn rewrite_opt_var_decls(w: &Rewriter, vs: &Vec<Option<VarDecl>>) -> (res: Vec<
    Option<VarDecl>,
>)
    requires
        rw_checked(rewrite_of(*w)) ==> (forall|i: int| 0 <= i < vs@.len() ==> opt_var_decl_rw_ok(rewrite_of(*w), vs@[i])),
    ensures
        res@.len() == vs@.len(),
        forall|i: int| 0 <= i < vs@.len() ==> opt_var_decl_rw(rewrite_of(*w), vs@[i], res@[i]),
{
    let mut res: Vec<Option<VarDecl>> = Vec::new();
    let mut i: usize = 0;
    while i < vs.len()
        invariant
            rw_checked(rewrite_of(*w)) ==> (forall|i: int| 0 <= i < vs@.len() ==> opt_var_decl_rw_ok(rewrite_of(*w), vs@[i])),
            i <= vs.len(),
            res@.len() == i,
            forall|j: int| 0 <= j < i ==> opt_var_decl_rw(rewrite_of(*w), vs@[j], res@[j]),
        decreases vs.len() - i,
    {
        res.push(
            match &vs[i] {
                Some(v) => Some(rewrite_var_decl(w, v)),
                None => None,
            },
        );
        i = i + 1;
    }
    res
}

/// A statement with each of its expressions rewritten by `w` (see
/// `stmt_rw`).
pub fn rewrite_stmt(w: &Rewriter, s: &Stmt) -> (res: Stmt)
    requires
        rw_checked(rewrite_of(*w)) ==> stmt_rw_ok(rewrite_of(*w), *s),
    ensures
        stmt_rw(rewrite_of(*w), *s, res),
    decreases s,
{
    match s {
        Stmt::Asm(x) => Stmt::Asm(copy_asm(x)),
        Stmt::Block(x) => Stmt::Block(rewrite_block(w, x)),
        Stmt::Break(x) => Stmt::Break(*x),
        Stmt::Continue(x) => Stmt::Continue(*x),
        Stmt::DoWhile(x) => Stmt::DoWhile(
            DoWhileStmt {
                id: x.id,
                condition: rewrite_expr(w, &x.condition),
                body: Box::new(rewrite_stmt(w, &x.body)),
                loc: x.loc,
            },
        ),
        Stmt::Emit(x) => Stmt::Emit(
            EmitStmt { id: x.id, event: rewrite_expr(w, &x.event), args: rewrite_args(w, &x.args), loc: x.loc },
        ),
        Stmt::Expr(x) => Stmt::Expr(ExprStmt { id: x.id, expr: rewrite_expr(w, &x.expr), loc: x.loc }),
        Stmt::For(x) => Stmt::For(
            ForStmt {
                id: x.id,
                pre_loop: rewrite_opt_stmt(w, &x.pre_loop),
                condition: rewrite_opt_expr(w, &x.condition),
                post_loop: rewrite_opt_stmt(w, &x.post_loop),
                body: Box::new(rewrite_stmt(w, &x.body)),
                loc: x.loc,
            },
        ),
        Stmt::If(x) => Stmt::If(
            IfStmt {
                id: x.id,
                condition: rewrite_expr(w, &x.condition),
                true_branch: Box::new(rewrite_stmt(w, &x.true_branch)),
                false_branch: rewrite_opt_stmt(w, &x.false_branch),
                loc: x.loc,
            },
        ),
        Stmt::Placeholder(x) => Stmt::Placeholder(*x),
        Stmt::Return(x) => Stmt::Return(
            ReturnStmt { id: x.id, expr: rewrite_opt_expr(w, &x.expr), loc: x.loc },
        ),
        Stmt::Revert(x) => Stmt::Revert(
            RevertStmt {
                id: x.id,
                error: rewrite_opt_expr(w, &x.error),
                args: rewrite_args(w, &x.args),
                loc: x.loc,
            },
        ),
        Stmt::Throw(x) => Stmt::Throw(*x),
        Stmt::Try(x) => Stmt::Try(
            TryStmt {
                id: x.id,
                guarded_expr: rewrite_expr(w, &x.guarded_expr),
                return_vars: rewrite_var_decls(w, &x.return_vars),
                body: rewrite_block(w, &x.body),
                catch_clauses: rewrite_catches(w, &x.catch_clauses),
                loc: x.loc,
            },
        ),
        Stmt::VarDecl(x) => Stmt::VarDecl(
            VarDeclStmt {
                id: x.id,
                var_decls: rewrite_opt_var_decls(w, &x.var_decls),
                value: rewrite_opt_expr(w, &x.value),
                loc: x.loc,
            },
        ),
        Stmt::While(x) => Stmt::While(
            WhileStmt {
                id: x.id,
                condition: rewrite_expr(w, &x.condition),
                body: Box::new(rewrite_stmt(w, &x.body)),
                loc: x.loc,
            },
        ),
    }
}

/// An expression with each identifier bound in `p` replaced by (a copy of)
/// the expression bound to it.
pub fn subst_expr(p: &Vec<(Identifier, &Expr)>, e: &Expr) -> (res: Expr)
    ensures
        expr_subst(ref_pairs(p@), *e, res),
{
    rewrite_expr(&Rewriter::Idents(p), e)
}

/// A declaration with the identifiers bound in `p` replaced in its
/// initial value.
pub fn subst_var_decl(p: &Vec<(Identifier, &Expr)>, v: &VarDecl) -> (res: VarDecl)
    ensures
        var_decl_subst(ref_pairs(p@), *v, res),
{
    rewrite_var_decl(&Rewriter::Idents(p), v)
}

/// Declarations with the identifiers bound in `p` replaced, in order.
pub(crate) fn subst_var_decls(p: &Vec<(Identifier, &Expr)>, vs: &Vec<VarDecl>) -> (res: Vec<VarDecl>)
    ensures
        var_decls_subst(ref_pairs(p@), vs@, res@),
{
    rewrite_var_decls(&Rewriter::Idents(p), vs)
}

/// Statements with the identifiers bound in `p` replaced, in order.
pub fn subst_stmts(p: &Vec<(Identifier, &Expr)>, ss: &Vec<Stmt>) -> (res: Vec<Stmt>)
    ensures
        stmts_subst(ref_pairs(p@), ss@, res@),
{
    rewrite_stmts(&Rewriter::Idents(p), ss)
}

/// A block with the identifiers bound in `p` replaced.
pub fn subst_block(p: &Vec<(Identifier, &Expr)>, b: &Block) -> (res: Block)
    ensures
        block_subst(ref_pairs(p@), *b, res),
{
    rewrite_block(&Rewriter::Idents(p), b)
}

/// A statement with each identifier bound in `p` replaced by (a copy of)
/// the expression bound to it.
pub fn subst_stmt(p: &Vec<(Identifier, &Expr)>, s: &Stmt) -> (res: Stmt)
    ensures
        stmt_subst(ref_pairs(p@), *s, res),
{
    rewrite_stmt(&Rewriter::Idents(p), s)
}

/// The pairs of identifiers and expressions at the same positions.
pub open spec fn zip_subst(olds: Seq<Identifier>, news: Seq<Expr>) -> Seq<(Identifier, Expr)> {
    Seq::new(olds.len(), |i: int| (olds[i], news[i]))
}

/// Substitution of identifiers by expressions.
#[derive(Debug)]
pub struct IdentExprSubstitutor {
    /// The identifiers and the expressions that replace them; a later pair
    /// for an identifier overrides an earlier one.
    pub substitution_map: Vec<(Identifier, Expr)>,
}

impl IdentExprSubstitutor {
    /// A substitutor of each identifier by the expression at the same
    /// position; the lists must be as long.
    pub fn new(old_idents: Vec<Identifier>, new_exprs: Vec<Expr>) -> (res: Self)
        requires
            old_idents.len() == new_exprs.len(),
        ensures
            res.substitution_map@ == zip_subst(old_idents@, new_exprs@),
    {
        let ghost olds0 = old_idents@;
        let ghost news0 = new_exprs@;
        let mut olds = old_idents;
        let mut news = new_exprs;
        let mut map: Vec<(Identifier, Expr)> = Vec::new();
        let n = olds.len();
        let mut k: usize = 0;
        while k < n
            invariant
                n == olds0.len(),
                n == news0.len(),
                k <= n,
                olds@ == olds0.subrange(k as int, n as int),
                news@ == news0.subrange(k as int, n as int),
                map@ == zip_subst(olds0.take(k as int), news0.take(k as int)),
            decreases n - k,
        {
            let i = olds.remove(0);
            let e = news.remove(0);
            map.push((i, e));
            k = k + 1;
            assert(olds@ =~= olds0.subrange(k as int, n as int));
            assert(news@ =~= news0.subrange(k as int, n as int));
            assert(map@ =~= zip_subst(olds0.take(k as int), news0.take(k as int)));
        }
        assert(olds0.take(n as int) =~= olds0);
        assert(news0.take(n as int) =~= news0);
        IdentExprSubstitutor { substitution_map: map }
    }

    /// The map, with references to its expressions.
    fn refs(&self) -> (res: Vec<(Identifier, &Expr)>)
        ensures
            ref_pairs(res@) == self.substitution_map@,
    {
        let mut res: Vec<(Identifier, &Expr)> = Vec::new();
        let mut i: usize = 0;
        while i < self.substitution_map.len()
            invariant
                i <= self.substitution_map.len(),
                ref_pairs(res@) == self.substitution_map@.take(i as int),
            decreases self.substitution_map.len() - i,
        {
            let pair = &self.substitution_map[i];
            let id = pair.0.clone();
            assert(id == self.substitution_map@[i as int].0);
            let ghost before = res@;
            res.push((id, &pair.1));
            assert(ref_pairs(res@) =~= ref_pairs(before).push(self.substitution_map@[i as int]));
            i = i + 1;
            assert(ref_pairs(res@) =~= self.substitution_map@.take(i as int));
        }
        assert(self.substitution_map@.take(i as int) =~= self.substitution_map@);
        res
    }

    /// An expression with each identifier of the map replaced.
    pub fn map_expr(&self, expr: &Expr) -> (res: Expr)
        ensures
            expr_subst(self.substitution_map@, *expr, res),
    {
        subst_expr(&self.refs(), expr)
    }

    /// A statement with each identifier of the map replaced.
    pub fn map_stmt(&self, stmt: &Stmt) -> (res: Stmt)
        ensures
            stmt_subst(self.substitution_map@, *stmt, res),
    {
        subst_stmt(&self.refs(), stmt)
    }
}

/// A statement with each parameter replaced by the argument at the same
/// position; there must be as many arguments as parameters.
pub fn substitute_stmt(params: Vec<Identifier>, args: Vec<Expr>, stmt: &Stmt) -> (res: Stmt)
    requires
        params.len() == args.len(),
    ensures
        stmt_subst(zip_subst(params@, args@), *stmt, res),
{
    let substitutor = IdentExprSubstitutor::new(params, args);
    substitutor.map_stmt(stmt)
}

} // verus!
