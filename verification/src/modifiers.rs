//! Elimination of function modifiers: each modifier invocation of a
//! function is replaced by the body of the modifier, its parameters
//! replaced by the arguments of the invocation and its placeholder by the
//! body of the function.
use vstd::prelude::*;
use crate::contracts::{ContractDef, ContractElem, FuncDef};
use crate::source_unit::{SourceUnit, SourceUnitElem};
use crate::passes::ModifierDefFinder;
use crate::definitions::{FuncKind, VarDecl, overridings_same, var_decls_subst};
use crate::expressions::{CallArgs, CallExpr, Expr, Identifier, Rewrite, call_parts_rw, call_same, copy_call};
use crate::copies::{
    base_same, contract_elem_same, copy_bases, copy_contract_elem, copy_elem_but_contract,
    copy_func_def, elem_same_but_contract, func_same,
};
use crate::substitution::ref_pairs;
use crate::name::{Name, NameView};
use crate::operators::CallKind;
use crate::stmts::{Block, Stmt, stmt_subst, stmts_subst};
use crate::substitution::{
    copy_overriding, subst_stmt, subst_stmts, subst_var_decls, zip_subst,
};

verus! {

//-------------------------------------------------------------------------
// Specification
//-------------------------------------------------------------------------

/// The identifier that refers to a declared variable.
pub open spec fn ident_of(v: VarDecl) -> Identifier {
    Identifier { id: v.id, name: v.name, typ: v.typ, loc: v.loc }
}

/// The identifiers that refer to declared parameters, in order.
pub open spec fn param_idents(ps: Seq<VarDecl>) -> Seq<Identifier> {
    ps.map_values(|v: VarDecl| ident_of(v))
}

/// The statements of an optional body; none without a body.
pub open spec fn body_stmts(b: Option<Block>) -> Seq<Stmt> {
    match b {
        Some(blk) => blk.body@,
        None => Seq::empty(),
    }
}

/// The modifier recorded last under a name.
pub open spec fn modifier_lookup(env: Seq<(Name, FuncDef)>, n: NameView) -> Option<FuncDef>
    decreases env.len(),
{
    if env.len() == 0 {
        None
    } else if env.last().0@ == n {
        Some(env.last().1)
    } else {
        modifier_lookup(env.drop_last(), n)
    }
}

/// The invocations of base constructors among modifier invocations, in
/// order.
pub open spec fn base_invocs(s: Seq<CallExpr>) -> Seq<CallExpr>
    decreases s.len(),
{
    if s.len() == 0 {
        Seq::empty()
    } else if s.last().kind == CallKind::BaseConstructorCall {
        base_invocs(s.drop_last()).push(s.last())
    } else {
        base_invocs(s.drop_last())
    }
}

/// The invocations of modifiers proper among modifier invocations, in
/// order.
pub open spec fn other_invocs(s: Seq<CallExpr>) -> Seq<CallExpr>
    decreases s.len(),
{
    if s.len() == 0 {
        Seq::empty()
    } else if s.last().kind != CallKind::BaseConstructorCall {
        other_invocs(s.drop_last()).push(s.last())
    } else {
        other_invocs(s.drop_last())
    }
}

/// Whether `out` is the expansion of modifier body `mbody` around the
/// function statements `prev`: each placeholder statement of the modifier
/// body replaced by copies of `prev`, and each other statement by itself
/// with the substitution `p`.
pub open spec fn expansion(
    p: Seq<(Identifier, Expr)>,
    mbody: Seq<Stmt>,
    prev: Seq<Stmt>,
    out: Seq<Stmt>,
) -> bool
    decreases mbody.len(),
{
    if mbody.len() == 0 {
        out.len() == 0
    } else if mbody.last() is Placeholder {
        &&& out.len() >= prev.len()
        &&& expansion(p, mbody.drop_last(), prev, out.take(out.len() - prev.len()))
        &&& stmts_subst(Seq::empty(), prev, out.skip(out.len() - prev.len()))
    } else {
        &&& out.len() >= 1
        &&& expansion(p, mbody.drop_last(), prev, out.drop_last())
        &&& stmt_subst(p, mbody.last(), out.last())
    }
}

/// The modifier that an invocation names, if its callee is an identifier.
pub open spec fn invoked_modifier(env: Seq<(Name, FuncDef)>, inv: CallExpr) -> Option<FuncDef> {
    match *inv.callee {
        Expr::Ident(i) => modifier_lookup(env, i.name@),
        _ => None,
    }
}

/// The arguments of an invocation, when they are positional.
pub open spec fn invoc_args(inv: CallExpr) -> Seq<Expr> {
    match inv.args {
        CallArgs::Unnamed(a) => a@,
        CallArgs::Named(_) => Seq::empty(),
    }
}

/// Whether an invocation can be expanded with the modifier `m` that it
/// names: there is one, the arguments are positional, and there are as
/// many of them as parameters unless every statement of the modifier is a
/// placeholder.
pub open spec fn invoc_expandable_with(m: Option<FuncDef>, inv: CallExpr) -> bool {
    &&& m is Some
    &&& inv.args is Unnamed
    &&& (m->0.params@.len() == invoc_args(inv).len() || forall|i: int|
        0 <= i < body_stmts(m->0.body).len() ==> (#[trigger] body_stmts(m->0.body)[i]) is Placeholder)
}

/// Whether an invocation of a modifier can be expanded: its callee is an
/// identifier naming a known modifier (see `invoc_expandable_with`).
pub open spec fn invoc_expandable(env: Seq<(Name, FuncDef)>, inv: CallExpr) -> bool {
    invoc_expandable_with(invoked_modifier(env, inv), inv)
}

/// Whether every invocation of a modifier proper by a function can be
/// expanded.
pub open spec fn func_expandable(env: Seq<(Name, FuncDef)>, f: FuncDef) -> bool {
    forall|i: int|
        0 <= i < f.modifier_invocs@.len() && (#[trigger] f.modifier_invocs@[i]).kind
            != CallKind::BaseConstructorCall ==> invoc_expandable(env, f.modifier_invocs@[i])
}

/// Whether `next` is the expansion of the modifier of invocation `inv`
/// around `prev`.
pub open spec fn invoc_expansion(
    env: Seq<(Name, FuncDef)>,
    inv: CallExpr,
    prev: Seq<Stmt>,
    next: Seq<Stmt>,
) -> bool {
    let m = invoked_modifier(env, inv)->0;
    expansion(
        zip_subst(param_idents(m.params@), invoc_args(inv)),
        body_stmts(m.body),
        prev,
        next,
    )
}

/// Whether `bodies` are the successive function bodies of expanding the
/// invocations `invs` in order.
pub open spec fn expansion_chain(
    env: Seq<(Name, FuncDef)>,
    invs: Seq<CallExpr>,
    bodies: Seq<Seq<Stmt>>,
) -> bool {
    &&& bodies.len() == invs.len() + 1
    &&& forall|k: int|
        0 <= k < invs.len() ==> invoc_expansion(env, invs[k], #[trigger] bodies[k], bodies[k + 1])
}

/// The contract element itself if it is a modifier.
pub open spec fn elem_modifier(e: ContractElem) -> Seq<FuncDef> {
    match e {
        ContractElem::Func(f) => if f.kind == FuncKind::Modifier {
            seq![f]
        } else {
            Seq::empty()
        },
        _ => Seq::empty(),
    }
}

/// The modifiers among contract elements, in order.
pub open spec fn contract_modifiers(elems: Seq<ContractElem>) -> Seq<FuncDef>
    decreases elems.len(),
{
    if elems.len() == 0 {
        Seq::empty()
    } else {
        contract_modifiers(elems.drop_last()) + elem_modifier(elems.last())
    }
}

/// The modifiers defined in the contracts of a source unit, in order.
pub open spec fn unit_modifiers(elems: Seq<SourceUnitElem>) -> Seq<FuncDef>
    decreases elems.len(),
{
    if elems.len() == 0 {
        Seq::empty()
    } else {
        let rest = unit_modifiers(elems.drop_last());
        match elems.last() {
            SourceUnitElem::Contract(c) => rest + contract_modifiers(c.body@),
            _ => rest,
        }
    }
}

/// The modifiers that a source unit element defines: those of a contract,
/// none otherwise.
pub open spec fn unit_elem_modifiers(e: SourceUnitElem) -> Seq<FuncDef> {
    match e {
        SourceUnitElem::Contract(c) => contract_modifiers(c.body@),
        _ => Seq::empty(),
    }
}

/// Whether a table of modifiers holds copies of `fs`, each under its name,
/// in order.
pub open spec fn modifier_table(fs: Seq<FuncDef>, t: Seq<(Name, FuncDef)>) -> bool {
    &&& t.len() == fs.len()
    &&& forall|i: int| 0 <= i < fs.len() ==> t[i].0 == fs[i].name && func_same(fs[i], t[i].1)
}

/// Tables of two lists of modifiers, one after the other, make a table of
/// the two lists.
proof fn lemma_table_concat(
    f1: Seq<FuncDef>,
    f2: Seq<FuncDef>,
    t1: Seq<(Name, FuncDef)>,
    t2: Seq<(Name, FuncDef)>,
)
    requires
        modifier_table(f1, t1),
        modifier_table(f2, t2),
    ensures
        modifier_table(f1 + f2, t1 + t2),
{
    assert forall|i: int| 0 <= i < (f1 + f2).len() implies (t1 + t2)[i].0 == (f1 + f2)[i].name
        && func_same((f1 + f2)[i], (t1 + t2)[i].1) by {
        if i >= f1.len() {
            assert((f1 + f2)[i] == f2[i - f1.len()]);
            assert((t1 + t2)[i] == t2[i - t1.len()]);
        }
    }
}

/// Whether `g` is function `f` with its modifier invocations expanded in
/// order by the modifiers of `env`: the same fields, only the invocations of
/// base constructors kept, and, for a function with a body, a body made by
/// the chain of expansions (see `expansion_chain`).
pub open spec fn func_expanded(env: Seq<(Name, FuncDef)>, f: FuncDef, g: FuncDef) -> bool {
    &&& g.id == f.id
    &&& g.scope_id == f.scope_id
    &&& g.name == f.name
    &&& g.kind == f.kind
    &&& g.is_virtual == f.is_virtual
    &&& g.visibility == f.visibility
    &&& g.mutability == f.mutability
    &&& overridings_same(f.overriding, g.overriding)
    &&& var_decls_subst(Seq::empty(), f.params@, g.params@)
    &&& var_decls_subst(Seq::empty(), f.return_vars@, g.return_vars@)
    &&& g.loc == f.loc
    &&& g.sol_ver == f.sol_ver
    &&& g.modifier_invocs@.len() == base_invocs(f.modifier_invocs@).len()
    &&& forall|i: int|
        0 <= i < g.modifier_invocs@.len() ==> call_same(
            base_invocs(f.modifier_invocs@)[i],
            #[trigger] g.modifier_invocs@[i],
        )
    &&& match f.body {
        None => g.body is None,
        Some(b) => g.body matches Some(rb) && rb.id == b.id && rb.unchecked == b.unchecked
            && rb.loc == b.loc && exists|bodies: Seq<Seq<Stmt>>|
            expansion_chain(env, other_invocs(f.modifier_invocs@), bodies) && stmts_subst(
                Seq::empty(),
                b.body@,
                bodies[0],
            ) && bodies.last() == rb.body@,
    }
}


//-------------------------------------------------------------------------
// Contracts and source units
//-------------------------------------------------------------------------

/// Whether a contract element is a modifier.
pub open spec fn is_modifier_elem(e: ContractElem) -> bool {
    e matches ContractElem::Func(f) && f.kind == FuncKind::Modifier
}

/// The contract elements that are not modifiers, in order.
pub open spec fn non_modifiers(elems: Seq<ContractElem>) -> Seq<ContractElem>
    decreases elems.len(),
{
    if elems.len() == 0 {
        Seq::empty()
    } else if is_modifier_elem(elems.last()) {
        non_modifiers(elems.drop_last())
    } else {
        non_modifiers(elems.drop_last()).push(elems.last())
    }
}

/// Whether contract element `r` is `e` transformed: a function with its
/// modifier invocations expanded, anything else copied.
pub open spec fn elem_transformed(env: Seq<(Name, FuncDef)>, e: ContractElem, r: ContractElem) -> bool {
    match (e, r) {
        (ContractElem::Func(f), ContractElem::Func(g)) => func_expanded(env, f, g),
        _ => !(e is Func) && contract_elem_same(e, r),
    }
}

/// Whether contract `r` is contract `c` without its modifiers and with the
/// modifier invocations of its functions expanded.
pub open spec fn contract_transformed(env: Seq<(Name, FuncDef)>, c: ContractDef, r: ContractDef) -> bool {
    &&& r.id == c.id
    &&& r.scope_id == c.scope_id
    &&& r.name == c.name
    &&& r.kind == c.kind
    &&& r.is_abstract == c.is_abstract
    &&& r.loc == c.loc
    &&& r.base_contracts@.len() == c.base_contracts@.len()
    &&& forall|i: int|
        0 <= i < c.base_contracts@.len() ==> base_same(c.base_contracts@[i], r.base_contracts@[i])
    &&& r.body@.len() == non_modifiers(c.body@).len()
    &&& forall|i: int|
        0 <= i < r.body@.len() ==> elem_transformed(env, non_modifiers(c.body@)[i], #[trigger] r.body@[i])
}

/// Whether source unit element `r` is `e` transformed: contracts and
/// functions as above, anything else copied.
pub open spec fn unit_elem_transformed(env: Seq<(Name, FuncDef)>, e: SourceUnitElem, r: SourceUnitElem) -> bool {
    match (e, r) {
        (SourceUnitElem::Contract(c), SourceUnitElem::Contract(d)) => contract_transformed(env, c, d),
        (SourceUnitElem::Func(f), SourceUnitElem::Func(g)) => func_expanded(env, f, g),
        _ => !(e is Contract) && !(e is Func) && elem_same_but_contract(e, r),
    }
}

/// Whether source unit `r` is `u` with every element transformed.
pub open spec fn unit_transformed(env: Seq<(Name, FuncDef)>, u: SourceUnit, r: SourceUnit) -> bool {
    &&& r.id == u.id
    &&& r.path == u.path
    &&& r.elems@.len() == u.elems@.len()
    &&& forall|i: int|
        0 <= i < u.elems@.len() ==> unit_elem_transformed(env, u.elems@[i], #[trigger] r.elems@[i])
}

/// Whether every function of a contract that is not a modifier can be
/// expanded.
pub open spec fn contract_expandable(env: Seq<(Name, FuncDef)>, elems: Seq<ContractElem>) -> bool {
    forall|i: int|
        0 <= i < elems.len() ==> match #[trigger] elems[i] {
            ContractElem::Func(f) => f.kind != FuncKind::Modifier ==> func_expandable(env, f),
            _ => true,
        }
}

/// The last modifier of `fs` with the given name.
pub open spec fn modifier_in(fs: Seq<FuncDef>, n: NameView) -> Option<FuncDef>
    decreases fs.len(),
{
    if fs.len() == 0 {
        None
    } else if fs.last().name@ == n {
        Some(fs.last())
    } else {
        modifier_in(fs.drop_last(), n)
    }
}

/// Whether every invocation of a modifier proper by a function can be
/// expanded with the modifiers `fs`.
pub open spec fn func_expandable_in(fs: Seq<FuncDef>, f: FuncDef) -> bool {
    forall|i: int|
        0 <= i < f.modifier_invocs@.len() && (#[trigger] f.modifier_invocs@[i]).kind
            != CallKind::BaseConstructorCall ==> invoc_expandable_with(
            match *f.modifier_invocs@[i].callee {
                Expr::Ident(x) => modifier_in(fs, x.name@),
                _ => None,
            },
            f.modifier_invocs@[i],
        )
}

/// Whether every function of a source unit, free or in a contract and not
/// a modifier, can be expanded with the modifiers of its contracts.
pub open spec fn unit_expandable(elems: Seq<SourceUnitElem>) -> bool {
    forall|i: int|
        0 <= i < elems.len() ==> {
            &&& ((#[trigger] elems[i]) matches SourceUnitElem::Func(f) ==> func_expandable_in(
                unit_modifiers(elems),
                f,
            ))
            &&& (elems[i] matches SourceUnitElem::Contract(c) ==> forall|j: int|
                0 <= j < c.body@.len() ==> match #[trigger] c.body@[j] {
                    ContractElem::Func(g) => g.kind != FuncKind::Modifier ==> func_expandable_in(
                        unit_modifiers(elems),
                        g,
                    ),
                    _ => true,
                })
        }
}

/// A table of copies of modifiers finds, by name, a copy of the modifier
/// that the list finds.
proof fn lemma_table_lookup(fs: Seq<FuncDef>, t: Seq<(Name, FuncDef)>, n: NameView)
    requires
        modifier_table(fs, t),
    ensures
        match (modifier_in(fs, n), modifier_lookup(t, n)) {
            (Some(a), Some(b)) => func_same(a, b),
            (None, None) => true,
            _ => false,
        },
    decreases fs.len(),
{
    if fs.len() > 0 {
        let fs2 = fs.drop_last();
        let t2 = t.drop_last();
        assert forall|i: int| 0 <= i < fs2.len() implies t2[i].0 == fs2[i].name && func_same(
            fs2[i],
            t2[i].1,
        ) by {
            assert(fs2[i] == fs[i]);
            assert(t2[i] == t[i]);
        }
        assert(t.last() == t[t.len() - 1]);
        lemma_table_lookup(fs2, t2, n);
    }
}

/// Two copies of a modifier can expand the same invocations.
proof fn lemma_same_expandable(a: FuncDef, b: FuncDef, inv: CallExpr)
    requires
        func_same(a, b),
    ensures
        invoc_expandable_with(Some(a), inv) == invoc_expandable_with(Some(b), inv),
{
    let sa = body_stmts(a.body);
    let sb = body_stmts(b.body);
    assert(sa.len() == sb.len());
    assert forall|i: int| 0 <= i < sa.len() implies (sa[i] is Placeholder <==> sb[i] is Placeholder) by {
        assert(stmt_subst(Seq::empty(), sa[i], sb[i]));
    }
    if invoc_expandable_with(Some(a), inv) && a.params@.len() != invoc_args(inv).len() {
        assert forall|i: int| 0 <= i < sb.len() implies (#[trigger] sb[i]) is Placeholder by {
            assert(sa[i] is Placeholder);
        }
    }
    if invoc_expandable_with(Some(b), inv) && b.params@.len() != invoc_args(inv).len() {
        assert forall|i: int| 0 <= i < sa.len() implies (#[trigger] sa[i]) is Placeholder by {
            assert(sb[i] is Placeholder);
        }
    }
}

/// A function whose invocations the modifiers `fs` can expand can be
/// expanded by a table of copies of `fs`.
proof fn lemma_func_expandable(fs: Seq<FuncDef>, t: Seq<(Name, FuncDef)>, f: FuncDef)
    requires
        modifier_table(fs, t),
        func_expandable_in(fs, f),
    ensures
        func_expandable(t, f),
{
    assert forall|i: int|
        0 <= i < f.modifier_invocs@.len() && (#[trigger] f.modifier_invocs@[i]).kind
            != CallKind::BaseConstructorCall implies invoc_expandable(t, f.modifier_invocs@[i]) by {
        let inv = f.modifier_invocs@[i];
        match *inv.callee {
            Expr::Ident(x) => {
                lemma_table_lookup(fs, t, x.name@);
                lemma_same_expandable(modifier_in(fs, x.name@)->0, modifier_lookup(t, x.name@)->0, inv);
            },
            _ => {},
        }
    }
}

//-------------------------------------------------------------------------
// Finding modifier definitions
//-------------------------------------------------------------------------

impl ModifierDefFinder {
    /// Records a copy of a contract element that is a modifier, under its
    /// name.
    pub fn fold_contract_elem(&self, acc: &mut Vec<(Name, FuncDef)>, elem: &ContractElem)
        ensures
            final(acc)@.take(old(acc)@.len() as int) == old(acc)@,
            final(acc)@.len() == old(acc)@.len() + elem_modifier(*elem).len(),
            modifier_table(elem_modifier(*elem), final(acc)@.skip(old(acc)@.len() as int)),
    {
        let ghost before = acc@;
        match elem {
            ContractElem::Func(f) => {
                if f.kind == FuncKind::Modifier {
                    acc.push((f.name.clone(), copy_func_def(f)));
                }
            },
            _ => {},
        }
        assert(acc@.take(before.len() as int) =~= before);
        proof {
            if acc@.len() > before.len() {
                assert(acc@.skip(before.len() as int)[0] == acc@.last());
            }
        }
    }

    /// Records copies of the modifiers of a contract, each under its name,
    /// in order.
    pub fn fold_contract_def(&self, acc: &mut Vec<(Name, FuncDef)>, contract: &ContractDef)
        ensures
            final(acc)@.take(old(acc)@.len() as int) == old(acc)@,
            final(acc)@.len() == old(acc)@.len() + contract_modifiers(contract.body@).len(),
            modifier_table(
                contract_modifiers(contract.body@),
                final(acc)@.skip(old(acc)@.len() as int),
            ),
    {
        let ghost start = acc@;
        let mut i: usize = 0;
        while i < contract.body.len()
            invariant
                i <= contract.body.len(),
                acc@.take(start.len() as int) == start,
                acc@.len() >= start.len(),
                modifier_table(
                    contract_modifiers(contract.body@.take(i as int)),
                    acc@.skip(start.len() as int),
                ),
            decreases contract.body.len() - i,
        {
            assert(contract.body@.take(i + 1).drop_last() =~= contract.body@.take(i as int));
            let ghost before = acc@;
            self.fold_contract_elem(acc, &contract.body[i]);
            assert(acc@.take(start.len() as int) =~= start);
            assert(acc@.skip(start.len() as int) =~= before.skip(start.len() as int) + acc@.skip(
                before.len() as int,
            ));
            proof {
                lemma_table_concat(
                    contract_modifiers(contract.body@.take(i as int)),
                    elem_modifier(contract.body@[i as int]),
                    before.skip(start.len() as int),
                    acc@.skip(before.len() as int),
                );
            }
            i = i + 1;
        }
        assert(contract.body@.take(i as int) =~= contract.body@);
    }

    /// Appends to `acc` copies of the modifiers that a source unit element
    /// defines, each under its name (see `unit_elem_modifiers`).
    pub fn fold_source_unit_elem(&self, acc: &mut Vec<(Name, FuncDef)>, elem: &SourceUnitElem)
        ensures
            final(acc)@.take(old(acc)@.len() as int) == old(acc)@,
            final(acc)@.len() == old(acc)@.len() + unit_elem_modifiers(*elem).len(),
            modifier_table(unit_elem_modifiers(*elem), final(acc)@.skip(old(acc)@.len() as int)),
    {
        match elem {
            SourceUnitElem::Contract(contract) => self.fold_contract_def(acc, contract),
            _ => {
                assert(acc@.take(acc@.len() as int) =~= acc@);
                assert(acc@.skip(acc@.len() as int) =~= Seq::<(Name, FuncDef)>::empty());
            },
        }
    }

    /// Copies of the modifiers defined in the contracts of a source unit,
    /// each under its name, in order; a lookup by name takes the last.
    pub fn find_modifier_definitions(&self, source_unit: &SourceUnit) -> (res: Vec<(Name, FuncDef)>)
        ensures
            modifier_table(unit_modifiers(source_unit.elems@), res@),
    {
        let mut acc: Vec<(Name, FuncDef)> = Vec::new();
        let mut i: usize = 0;
        while i < source_unit.elems.len()
            invariant
                i <= source_unit.elems.len(),
                modifier_table(unit_modifiers(source_unit.elems@.take(i as int)), acc@),
            decreases source_unit.elems.len() - i,
        {
            let ghost elems = source_unit.elems@;
            assert(elems.take(i + 1).drop_last() =~= elems.take(i as int));
            assert(unit_modifiers(elems.take(i + 1)) =~= unit_modifiers(elems.take(i as int))
                + unit_elem_modifiers(elems[i as int]));
            let ghost before = acc@;
            self.fold_source_unit_elem(&mut acc, &source_unit.elems[i]);
            assert(acc@ =~= before + acc@.skip(before.len() as int));
            proof {
                lemma_table_concat(
                    unit_modifiers(elems.take(i as int)),
                    unit_elem_modifiers(elems[i as int]),
                    before,
                    acc@.skip(before.len() as int),
                );
            }
            i = i + 1;
        }
        assert(source_unit.elems@.take(i as int) =~= source_unit.elems@);
        acc
    }
}

/// Copies of the modifiers defined in the contracts of a source unit (see
/// `ModifierDefFinder::find_modifier_definitions`).
pub fn find_modifier_declarations(source_unit: &SourceUnit) -> (res: Vec<(Name, FuncDef)>)
    ensures
        modifier_table(unit_modifiers(source_unit.elems@), res@),
{
    let finder = ModifierDefFinder::new();
    finder.find_modifier_definitions(source_unit)
}

//-------------------------------------------------------------------------
// Expanding modifier invocations
//-------------------------------------------------------------------------

/// The identifier that refers to a declared variable.
pub fn create_ident_from_var_decl(var: &VarDecl) -> (res: Identifier)
    ensures
        res == ident_of(*var),
{
    Identifier { id: var.id, name: var.name.clone(), typ: var.typ.clone(), loc: var.loc }
}

/// The identifiers that refer to declared parameters, in order.
fn param_idents_exec(ps: &Vec<VarDecl>) -> (res: Vec<Identifier>)
    ensures
        res@ == param_idents(ps@),
{
    let mut res: Vec<Identifier> = Vec::new();
    let mut i: usize = 0;
    while i < ps.len()
        invariant
            i <= ps.len(),
            res@ == param_idents(ps@.take(i as int)),
        decreases ps.len() - i,
    {
        res.push(create_ident_from_var_decl(&ps[i]));
        i = i + 1;
        assert(res@ =~= param_idents(ps@.take(i as int)));
    }
    assert(ps@.take(i as int) =~= ps@);
    res
}

/// Replacement of modifier invocations by the bodies of the modifiers.
#[derive(Debug)]
pub struct ModifierTransformer {
    /// The modifiers, each under its name; a lookup takes the last.
    pub modifier_def_map: Vec<(Name, FuncDef)>,
}

impl ModifierTransformer {
    /// A transformer that knows no modifier yet.
    pub fn new() -> (res: Self)
        ensures
            res.modifier_def_map@.len() == 0,
    {
        ModifierTransformer { modifier_def_map: Vec::new() }
    }

    /// The modifier recorded last under a name.
    fn lookup_modifier(&self, name: &Name) -> (res: Option<&FuncDef>)
        ensures
            match res {
                Some(f) => modifier_lookup(self.modifier_def_map@, name@) == Some(*f),
                None => modifier_lookup(self.modifier_def_map@, name@) is None,
            },
    {
        let mut i: usize = self.modifier_def_map.len();
        assert(self.modifier_def_map@.take(i as int) =~= self.modifier_def_map@);
        while i > 0
            invariant
                i <= self.modifier_def_map.len(),
                modifier_lookup(self.modifier_def_map@, name@) == modifier_lookup(
                    self.modifier_def_map@.take(i as int),
                    name@,
                ),
            decreases i,
        {
            assert(self.modifier_def_map@.take(i as int).drop_last() =~= self.modifier_def_map@.take(
                i - 1,
            ));
            if self.modifier_def_map[i - 1].0.same(name) {
                return Some(&self.modifier_def_map[i - 1].1);
            }
            i = i - 1;
        }
        None
    }

    /// The statements that replace the body `prev` of a function for one
    /// invocation of a modifier (see `invoc_expansion`).
    fn expand_invocation(&self, inv: &CallExpr, prev: &Vec<Stmt>) -> (res: Vec<Stmt>)
        requires
            invoc_expandable(self.modifier_def_map@, *inv),
        ensures
            invoc_expansion(self.modifier_def_map@, *inv, prev@, res@),
    {
        let m = match &*inv.callee {
            Expr::Ident(i) => match self.lookup_modifier(&i.name) {
                Some(m) => m,
                None => {
                    return Vec::new();
                },
            },
            _ => {
                return Vec::new();
            },
        };
        let args = match &inv.args {
            CallArgs::Unnamed(a) => a,
            CallArgs::Named(_) => {
                return Vec::new();
            },
        };
        let params = param_idents_exec(&m.params);
        let ghost psubst = zip_subst(param_idents(m.params@), args@);
        let mut pairs: Vec<(Identifier, &Expr)> = Vec::new();
        if params.len() == args.len() {
            let mut k: usize = 0;
            while k < params.len()
                invariant
                    k <= params.len(),
                    params.len() == args.len(),
                    params@ == param_idents(m.params@),
                    psubst == zip_subst(param_idents(m.params@), args@),
                    ref_pairs(pairs@) == psubst.take(k as int),
                decreases params.len() - k,
            {
                let id = params[k].clone();
                assert(id == params@[k as int]);
                let ghost before = pairs@;
                pairs.push((id, &args[k]));
                assert(ref_pairs(pairs@) =~= ref_pairs(before).push((params@[k as int], args@[k as int])));
                assert(psubst[k as int] == (params@[k as int], args@[k as int]));
                k = k + 1;
                assert(psubst.take(k as int) =~= psubst.take(k - 1).push(psubst[k - 1]));
            }
            assert(psubst.take(k as int) =~= psubst);
        }
        let no_pairs: Vec<(Identifier, &Expr)> = Vec::new();
        assert(ref_pairs(no_pairs@) =~= Seq::empty());
        let empty_body: Vec<Stmt> = Vec::new();
        let mbody: &Vec<Stmt> = match &m.body {
            Some(b) => &b.body,
            None => &empty_body,
        };
        assert(mbody@ == body_stmts(m.body));
        let mut out: Vec<Stmt> = Vec::new();
        let mut j: usize = 0;
        while j < mbody.len()
            invariant
                j <= mbody.len(),
                mbody@ == body_stmts(m.body),
                ref_pairs(no_pairs@) == Seq::<(Identifier, Expr)>::empty(),
                params.len() == args.len() ==> ref_pairs(pairs@) == psubst,
                params@ == param_idents(m.params@),
                params.len() == args.len() || forall|i: int|
                    0 <= i < mbody@.len() ==> (#[trigger] mbody@[i]) is Placeholder,
                expansion(psubst, mbody@.take(j as int), prev@, out@),
            decreases mbody.len() - j,
        {
            let ghost before = out@;
            assert(mbody@.take(j + 1).drop_last() =~= mbody@.take(j as int));
            assert(mbody@.take(j + 1).last() == mbody@[j as int]);
            match &mbody[j] {
                Stmt::Placeholder(_) => {
                    let mut t: usize = 0;
                    while t < prev.len()
                        invariant
                            t <= prev.len(),
                            ref_pairs(no_pairs@) == Seq::<(Identifier, Expr)>::empty(),
                            out@.len() == before.len() + t,
                            out@.take(before.len() as int) == before,
                            forall|q: int|
                                0 <= q < t ==> stmt_subst(
                                    Seq::empty(),
                                    prev@[q],
                                    #[trigger] out@[before.len() + q],
                                ),
                        decreases prev.len() - t,
                    {
                        out.push(subst_stmt(&no_pairs, &prev[t]));
                        t = t + 1;
                        assert(out@.take(before.len() as int) =~= before);
                    }
                    assert(out@.take(out@.len() - prev@.len()) =~= before);
                    assert forall|q: int| 0 <= q < prev@.len() implies stmt_subst(
                        Seq::empty(),
                        prev@[q],
                        out@.skip(out@.len() - prev@.len())[q],
                    ) by {
                        assert(out@.skip(out@.len() - prev@.len())[q] == out@[before.len() + q]);
                    }
                },
                _ => {
                    let s = subst_stmt(&pairs, &mbody[j]);
                    out.push(s);
                    assert(out@.drop_last() =~= before);
                },
            }
            j = j + 1;
        }
        assert(mbody@.take(j as int) =~= mbody@);
        out
    }

    /// A function whose modifier invocations are expanded in order, each
    /// replacing the body by the body of the modifier, its parameters
    /// replaced by the arguments and its placeholders by the previous body;
    /// only the invocations of base constructors are kept. Each other
    /// invocation must be expandable.
    pub fn map_func_def(&self, func: &FuncDef) -> (res: FuncDef)
        requires
            func_expandable(self.modifier_def_map@, *func),
        ensures
            func_expanded(self.modifier_def_map@, *func, res),
    {
        let no_pairs: Vec<(Identifier, &Expr)> = Vec::new();
        assert(ref_pairs(no_pairs@) =~= Seq::empty());
        let empty_body: Vec<Stmt> = Vec::new();
        let mut cur: Vec<Stmt> = match &func.body {
            Some(b) => subst_stmts(&no_pairs, &b.body),
            None => empty_body,
        };
        let ghost b0 = body_stmts(func.body);
        let ghost invs = func.modifier_invocs@;
        let ghost mut bodies: Seq<Seq<Stmt>> = seq![cur@];
        let mut base: Vec<CallExpr> = Vec::new();
        let mut k: usize = 0;
        while k < func.modifier_invocs.len()
            invariant
                k <= func.modifier_invocs.len(),
                invs == func.modifier_invocs@,
                forall|i: int|
                    0 <= i < invs.len() && (#[trigger] invs[i]).kind != CallKind::BaseConstructorCall
                        ==> invoc_expandable(self.modifier_def_map@, invs[i]),
                base@.len() == base_invocs(invs.take(k as int)).len(),
                forall|i: int|
                    0 <= i < base@.len() ==> call_same(
                        base_invocs(invs.take(k as int))[i],
                        #[trigger] base@[i],
                    ),
                expansion_chain(self.modifier_def_map@, other_invocs(invs.take(k as int)), bodies),
                bodies.last() == cur@,
                func.body matches Some(b) ==> stmts_subst(Seq::empty(), b.body@, bodies[0]),
            decreases func.modifier_invocs.len() - k,
        {
            let inv = &func.modifier_invocs[k];
            assert(invs.take(k + 1).drop_last() =~= invs.take(k as int));
            assert(invs.take(k + 1).last() == invs[k as int]);
            if inv.kind == CallKind::BaseConstructorCall {
                let ghost before = base@;
                base.push(copy_call(inv));
                assert(base_invocs(invs.take(k + 1)) == base_invocs(invs.take(k as int)).push(*inv));
                assert(other_invocs(invs.take(k + 1)) == other_invocs(invs.take(k as int)));
            } else {
                let ghost others = other_invocs(invs.take(k as int));
                let next = self.expand_invocation(inv, &cur);
                proof {
                    let nb = bodies.push(next@);
                    assert(other_invocs(invs.take(k + 1)) == others.push(*inv));
                    assert forall|q: int| 0 <= q < others.len() + 1 implies invoc_expansion(
                        self.modifier_def_map@,
                        others.push(*inv)[q],
                        #[trigger] nb[q],
                        nb[q + 1],
                    ) by {
                        if q < others.len() {
                            assert(nb[q] == bodies[q]);
                            assert(nb[q + 1] == bodies[q + 1]);
                        }
                    }
                    bodies = nb;
                }
                cur = next;
            }
            k = k + 1;
        }
        assert(invs.take(k as int) =~= invs);
        let body = match &func.body {
            Some(b) => Some(Block { id: b.id, body: cur, unchecked: b.unchecked, loc: b.loc }),
            None => None,
        };
        FuncDef {
            id: func.id,
            scope_id: func.scope_id,
            name: func.name.clone(),
            kind: func.kind,
            is_virtual: func.is_virtual,
            visibility: func.visibility,
            mutability: func.mutability,
            modifier_invocs: base,
            overriding: copy_overriding(&func.overriding),
            params: subst_var_decls(&no_pairs, &func.params),
            return_vars: subst_var_decls(&no_pairs, &func.return_vars),
            body,
            loc: func.loc,
            sol_ver: match &func.sol_ver {
                Some(v) => Some(v.clone()),
                None => None,
            },
        }
    }
}

impl ModifierTransformer {
    /// A contract without its modifiers, each other function with its
    /// modifier invocations expanded and each other element copied.
    pub fn map_contract_def(&self, contract: &ContractDef) -> (res: ContractDef)
        requires
            contract_expandable(self.modifier_def_map@, contract.body@),
        ensures
            contract_transformed(self.modifier_def_map@, *contract, res),
    {
        let ghost env = self.modifier_def_map@;
        let ghost elems = contract.body@;
        let mut body: Vec<ContractElem> = Vec::new();
        let mut i: usize = 0;
        while i < contract.body.len()
            invariant
                i <= contract.body.len(),
                env == self.modifier_def_map@,
                elems == contract.body@,
                contract_expandable(env, elems),
                body@.len() == non_modifiers(elems.take(i as int)).len(),
                forall|j: int|
                    0 <= j < body@.len() ==> elem_transformed(
                        env,
                        non_modifiers(elems.take(i as int))[j],
                        #[trigger] body@[j],
                    ),
            decreases contract.body.len() - i,
        {
            assert(elems.take(i + 1).drop_last() =~= elems.take(i as int));
            assert(elems.take(i + 1).last() == elems[i as int]);
            let ghost before = body@;
            let ghost prev = non_modifiers(elems.take(i as int));
            match &contract.body[i] {
                ContractElem::Func(f) => {
                    if f.kind != FuncKind::Modifier {
                        assert(func_expandable(env, *f));
                        body.push(ContractElem::Func(self.map_func_def(f)));
                        assert(non_modifiers(elems.take(i + 1)) == prev.push(elems[i as int]));
                        assert forall|j: int| 0 <= j < body@.len() implies elem_transformed(
                            env,
                            non_modifiers(elems.take(i + 1))[j],
                            #[trigger] body@[j],
                        ) by {
                            if j < before.len() {
                                assert(body@[j] == before[j]);
                            }
                        }
                    }
                },
                e => {
                    body.push(copy_contract_elem(e));
                    assert(non_modifiers(elems.take(i + 1)) == prev.push(elems[i as int]));
                    assert forall|j: int| 0 <= j < body@.len() implies elem_transformed(
                        env,
                        non_modifiers(elems.take(i + 1))[j],
                        #[trigger] body@[j],
                    ) by {
                        if j < before.len() {
                            assert(body@[j] == before[j]);
                        }
                    }
                },
            }
            i = i + 1;
        }
        assert(elems.take(i as int) =~= elems);
        ContractDef {
            id: contract.id,
            scope_id: contract.scope_id,
            name: contract.name.clone(),
            kind: contract.kind,
            is_abstract: contract.is_abstract,
            base_contracts: copy_bases(&contract.base_contracts),
            body,
            loc: contract.loc,
        }
    }

    /// A source unit whose contracts lose their modifiers and whose
    /// functions have their modifier invocations expanded by the modifiers
    /// defined in its contracts, which the transformer then holds.
    pub fn remove_modifier_invocations(&mut self, source: &SourceUnit) -> (res: SourceUnit)
        requires
            unit_expandable(source.elems@),
        ensures
            modifier_table(unit_modifiers(source.elems@), final(self).modifier_def_map@),
            unit_transformed(final(self).modifier_def_map@, *source, res),
    {
        self.modifier_def_map = find_modifier_declarations(source);
        let ghost env = self.modifier_def_map@;
        let ghost elems = source.elems@;
        let ghost fs = unit_modifiers(elems);
        let mut out: Vec<SourceUnitElem> = Vec::new();
        let mut i: usize = 0;
        while i < source.elems.len()
            invariant
                i <= source.elems.len(),
                env == self.modifier_def_map@,
                elems == source.elems@,
                fs == unit_modifiers(elems),
                modifier_table(fs, env),
                unit_expandable(elems),
                out@.len() == i,
                forall|j: int| 0 <= j < i ==> unit_elem_transformed(env, elems[j], #[trigger] out@[j]),
            decreases source.elems.len() - i,
        {
            match &source.elems[i] {
                SourceUnitElem::Contract(c) => {
                    assert forall|j: int| 0 <= j < c.body@.len() implies match #[trigger] c.body@[j] {
                        ContractElem::Func(g) => g.kind != FuncKind::Modifier ==> func_expandable(env, g),
                        _ => true,
                    } by {
                        match c.body@[j] {
                            ContractElem::Func(g) => {
                                if g.kind != FuncKind::Modifier {
                                    lemma_func_expandable(fs, env, g);
                                }
                            },
                            _ => {},
                        }
                    }
                    out.push(SourceUnitElem::Contract(self.map_contract_def(c)));
                },
                SourceUnitElem::Func(f) => {
                    proof {
                        lemma_func_expandable(fs, env, *f);
                    }
                    out.push(SourceUnitElem::Func(self.map_func_def(f)));
                },
                e => {
                    out.push(copy_elem_but_contract(e));
                },
            }
            i = i + 1;
        }
        SourceUnit { id: source.id, path: source.path.clone(), elems: out }
    }
}

/// Whether source unit `r` is `u` transformed with a table of copies of the
/// modifiers of `u`.
pub open spec fn unit_eliminated(u: SourceUnit, r: SourceUnit) -> bool {
    exists|t: Seq<(Name, FuncDef)>| modifier_table(unit_modifiers(u.elems@), t) && unit_transformed(t, u, r)
}

/// Each source unit with the modifier invocations of its functions expanded
/// by the modifiers of its contracts, which are dropped (see
/// `ModifierTransformer::remove_modifier_invocations`).
pub fn eliminate_modifier_invocs(source_units: &Vec<SourceUnit>) -> (res: Vec<SourceUnit>)
    requires
        forall|i: int| 0 <= i < source_units@.len() ==> unit_expandable(#[trigger] source_units@[i].elems@),
    ensures
        res@.len() == source_units@.len(),
        forall|i: int| 0 <= i < source_units@.len() ==> unit_eliminated(source_units@[i], #[trigger] res@[i]),
{
    let mut nsource_units: Vec<SourceUnit> = Vec::new();
    let mut i: usize = 0;
    while i < source_units.len()
        invariant
            i <= source_units.len(),
            forall|k: int| 0 <= k < source_units@.len() ==> unit_expandable(#[trigger] source_units@[k].elems@),
            nsource_units@.len() == i,
            forall|k: int| 0 <= k < i ==> unit_eliminated(source_units@[k], #[trigger] nsource_units@[k]),
        decreases source_units.len() - i,
    {
        let mut transformer = ModifierTransformer::new();
        let u = transformer.remove_modifier_invocations(&source_units[i]);
        let ghost t = transformer.modifier_def_map@;
        nsource_units.push(u);
        assert(modifier_table(unit_modifiers(source_units@[i as int].elems@), t));
        assert(unit_eliminated(source_units@[i as int], nsource_units@[i as int]));
        i = i + 1;
    }
    nsource_units
}

//-------------------------------------------------------------------------
// Laws
//-------------------------------------------------------------------------

/// Whether every modifier invocation left in a function calls a base
/// constructor.
pub open spec fn only_base_invocs(f: FuncDef) -> bool {
    forall|k: int|
        0 <= k < f.modifier_invocs@.len() ==> (#[trigger] f.modifier_invocs@[k]).kind
            == CallKind::BaseConstructorCall
}

proof fn lemma_base_invocs_are_base(s: Seq<CallExpr>)
    ensures
        forall|k: int|
            0 <= k < base_invocs(s).len() ==> (#[trigger] base_invocs(s)[k]).kind
                == CallKind::BaseConstructorCall,
    decreases s.len(),
{
    if s.len() > 0 {
        lemma_base_invocs_are_base(s.drop_last());
    }
}

proof fn lemma_non_modifiers(elems: Seq<ContractElem>)
    ensures
        forall|j: int| 0 <= j < non_modifiers(elems).len() ==> !is_modifier_elem(
            #[trigger] non_modifiers(elems)[j],
        ),
    decreases elems.len(),
{
    if elems.len() > 0 {
        let rest = non_modifiers(elems.drop_last());
        lemma_non_modifiers(elems.drop_last());
        if !is_modifier_elem(elems.last()) {
            assert forall|j: int| 0 <= j < non_modifiers(elems).len() implies !is_modifier_elem(
                #[trigger] non_modifiers(elems)[j],
            ) by {
                if j < rest.len() {
                    assert(non_modifiers(elems)[j] == rest[j]);
                }
            }
        }
    }
}

proof fn lemma_expanded_only_base(env: Seq<(Name, FuncDef)>, f: FuncDef, g: FuncDef)
    requires
        func_expanded(env, f, g),
    ensures
        only_base_invocs(g),
        g.kind == f.kind,
{
    lemma_base_invocs_are_base(f.modifier_invocs@);
    assert forall|k: int| 0 <= k < g.modifier_invocs@.len() implies (
    #[trigger] g.modifier_invocs@[k]).kind == CallKind::BaseConstructorCall by {
        assert(call_same(base_invocs(f.modifier_invocs@)[k], g.modifier_invocs@[k]));
        assert(call_parts_rw(
            Rewrite::Idents(Seq::empty()),
            base_invocs(f.modifier_invocs@)[k],
            g.modifier_invocs@[k],
        ));
    }
}

/// After modifier invocations are eliminated from a source unit, no
/// contract holds a modifier, and every function, free or in a contract,
/// invokes base constructors only.
pub proof fn lemma_no_modifiers_remain(env: Seq<(Name, FuncDef)>, u: SourceUnit, r: SourceUnit)
    requires
        unit_transformed(env, u, r),
    ensures
        forall|i: int|
            0 <= i < r.elems@.len() ==> match #[trigger] r.elems@[i] {
                SourceUnitElem::Func(g) => only_base_invocs(g),
                SourceUnitElem::Contract(d) => forall|j: int|
                    0 <= j < d.body@.len() ==> !is_modifier_elem(#[trigger] d.body@[j]) && match d.body@[j] {
                        ContractElem::Func(g) => only_base_invocs(g),
                        _ => true,
                    },
                _ => true,
            },
{
    assert forall|i: int| 0 <= i < r.elems@.len() implies match #[trigger] r.elems@[i] {
        SourceUnitElem::Func(g) => only_base_invocs(g),
        SourceUnitElem::Contract(d) => forall|j: int|
            0 <= j < d.body@.len() ==> !is_modifier_elem(#[trigger] d.body@[j]) && match d.body@[j] {
                ContractElem::Func(g) => only_base_invocs(g),
                _ => true,
            },
        _ => true,
    } by {
        assert(unit_elem_transformed(env, u.elems@[i], r.elems@[i]));
        match (u.elems@[i], r.elems@[i]) {
            (SourceUnitElem::Func(f), SourceUnitElem::Func(g)) => {
                lemma_expanded_only_base(env, f, g);
            },
            (SourceUnitElem::Contract(c), SourceUnitElem::Contract(d)) => {
                let nm = non_modifiers(c.body@);
                lemma_non_modifiers(c.body@);
                assert forall|j: int| 0 <= j < d.body@.len() implies !is_modifier_elem(
                    #[trigger] d.body@[j],
                ) && match d.body@[j] {
                    ContractElem::Func(g) => only_base_invocs(g),
                    _ => true,
                } by {
                    assert(elem_transformed(env, nm[j], d.body@[j]));
                    assert(!is_modifier_elem(nm[j]));
                    match (nm[j], d.body@[j]) {
                        (ContractElem::Func(f), ContractElem::Func(g)) => {
                            lemma_expanded_only_base(env, f, g);
                        },
                        _ => {},
                    }
                }
            },
            _ => {},
        }
    }
}

} // verus!
