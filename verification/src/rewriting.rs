//! Rewriting every expression of functions, contracts and source units,
//! and the passes built on it: unrolling tuples of one component,
//! replacing member accesses through the alias of an imported
//! source unit, putting named arguments in parameter order, and turning
//! member calls of functions attached by `using` directives into plain
//! calls, the directives removed.
use vstd::prelude::*;
use crate::contracts::{BaseContract, ContractDef, ContractElem, FuncDef};
use crate::copies::{
    contract_elem_same, copy_contract_elem, copy_elem_but_contract, elem_same_but_contract,
};
use crate::definitions::{
    overridings_same, var_decl_rw, var_decl_rw_ok, var_decls_rw, var_decls_rw_ok,
};
use crate::expressions::{
    CallExpr, Expr, Rewrite, SuperContext, call_rw, rw_checked, call_rw_ok, expr_rw, expr_seqs_rw, exprs_rw_ok,
};
use crate::name::{Name, NameView, name_text};
use crate::named_args::{NamedArgsEliminator, opt_text, table_view, units_entries};
use crate::source_unit::{SourceUnit, SourceUnitElem};
use crate::directives::UsingDir;
use crate::usings::{contract_usings, deref_usings, unit_usings};
use crate::stmts::{Block, block_rw, block_rw_ok};
use crate::specifiers::Overriding;
use crate::super_calls::overridden_names;
use crate::substitution::{
    Rewriter, SuperScope, copy_overriding, rewrite_block, rewrite_call, rewrite_expr, rewrite_exprs,
    keyed, rewrite_of, rewrite_var_decl, rewrite_var_decls,
};

verus! {

//-------------------------------------------------------------------------
// Relations
//-------------------------------------------------------------------------

/// Rewriting `w` inside the contract named `c`: `NamedArgs` looks callees
/// up in the scope of that contract, and `Supers` resolves `super` in it,
/// outside any function; the others are unchanged.
pub open spec fn in_contract(w: Rewrite, c: NameView) -> Rewrite {
    match w {
        Rewrite::NamedArgs(t, _) => Rewrite::NamedArgs(t, Some(name_text(c))),
        Rewrite::Supers(ctx) => Rewrite::Supers(
            SuperContext {
                current: Some(c),
                overrides_all: false,
                overridden: Seq::empty(),
                linearization: ctx.linearization,
                contracts: ctx.contracts,
            },
        ),
        _ => w,
    }
}

/// Rewriting `w` inside function `f`: `Supers` follows the contracts that
/// `f` overrides; the others are unchanged.
pub open spec fn in_func(w: Rewrite, f: FuncDef) -> Rewrite {
    match w {
        Rewrite::Supers(ctx) => Rewrite::Supers(
            SuperContext {
                current: ctx.current,
                overrides_all: f.overriding is All,
                overridden: overridden_names(&f.overriding),
                linearization: ctx.linearization,
                contracts: ctx.contracts,
            },
        ),
        _ => w,
    }
}

/// Whether optional block `b` is `a` rewritten by `w`.
pub open spec fn opt_block_rw(w: Rewrite, a: Option<Block>, b: Option<Block>) -> bool {
    match (a, b) {
        (Some(x), Some(y)) => block_rw(w, x, y),
        (None, None) => true,
        _ => false,
    }
}

/// Whether function `b` is function `a` with its modifier invocations,
/// declarations and body rewritten by `w` inside that function, and nothing
/// else changed.
pub open spec fn func_rw(w: Rewrite, a: FuncDef, b: FuncDef) -> bool {
    func_parts_rw(in_func(w, a), a, b)
}

/// Whether function `b` is function `a` with its modifier invocations,
/// declarations and body rewritten by `w`, and nothing else changed.
pub open spec fn func_parts_rw(w: Rewrite, a: FuncDef, b: FuncDef) -> bool {
    &&& a.id == b.id
    &&& a.scope_id == b.scope_id
    &&& a.name == b.name
    &&& a.kind == b.kind
    &&& a.is_virtual == b.is_virtual
    &&& a.visibility == b.visibility
    &&& a.mutability == b.mutability
    &&& a.modifier_invocs@.len() == b.modifier_invocs@.len()
    &&& forall|i: int|
        0 <= i < a.modifier_invocs@.len() ==> call_rw(w, a.modifier_invocs@[i], b.modifier_invocs@[i])
    &&& overridings_same(a.overriding, b.overriding)
    &&& var_decls_rw(w, a.params@, b.params@)
    &&& var_decls_rw(w, a.return_vars@, b.return_vars@)
    &&& opt_block_rw(w, a.body, b.body)
    &&& a.loc == b.loc
    &&& a.sol_ver == b.sol_ver
}

/// Whether every expression of a function can be rewritten by `w` inside
/// that function.
pub open spec fn func_rw_ok(w: Rewrite, a: FuncDef) -> bool {
    func_parts_rw_ok(in_func(w, a), a)
}

/// Whether every expression of a function can be rewritten by `w`.
pub open spec fn func_parts_rw_ok(w: Rewrite, a: FuncDef) -> bool {
    &&& forall|i: int| 0 <= i < a.modifier_invocs@.len() ==> call_rw_ok(w, a.modifier_invocs@[i])
    &&& var_decls_rw_ok(w, a.params@)
    &&& var_decls_rw_ok(w, a.return_vars@)
    &&& match a.body {
        Some(x) => block_rw_ok(w, x),
        None => true,
    }
}

/// Whether base contract `b` is `a` with its arguments rewritten by `w`.
pub open spec fn base_rw(w: Rewrite, a: BaseContract, b: BaseContract) -> bool {
    a.name == b.name && expr_seqs_rw(w, a.args@, b.args@) && a.loc == b.loc
}

/// Whether contract element `b` is `a` rewritten by `w`: functions and
/// variables are rewritten, the other elements are the same.
pub open spec fn contract_elem_rw(w: Rewrite, a: ContractElem, b: ContractElem) -> bool {
    match (a, b) {
        (ContractElem::Func(x), ContractElem::Func(y)) => func_rw(w, x, y),
        (ContractElem::Var(x), ContractElem::Var(y)) => var_decl_rw(w, x, y),
        _ => contract_elem_same(a, b),
    }
}

/// Whether every expression of a contract element can be rewritten by `w`.
pub open spec fn contract_elem_rw_ok(w: Rewrite, a: ContractElem) -> bool {
    match a {
        ContractElem::Func(x) => func_rw_ok(w, x),
        ContractElem::Var(x) => var_decl_rw_ok(w, x),
        _ => true,
    }
}

/// Whether contract `b` is contract `a` with its base contracts and
/// elements rewritten by `w` inside that contract, and nothing else
/// changed.
pub open spec fn contract_rw(w: Rewrite, a: ContractDef, b: ContractDef) -> bool {
    let v = in_contract(w, a.name@);
    &&& a.id == b.id
    &&& a.scope_id == b.scope_id
    &&& a.name == b.name
    &&& a.kind == b.kind
    &&& a.is_abstract == b.is_abstract
    &&& a.loc == b.loc
    &&& a.base_contracts@.len() == b.base_contracts@.len()
    &&& forall|i: int|
        0 <= i < a.base_contracts@.len() ==> base_rw(v, a.base_contracts@[i], b.base_contracts@[i])
    &&& a.body@.len() == b.body@.len()
    &&& forall|i: int| 0 <= i < a.body@.len() ==> contract_elem_rw(v, a.body@[i], b.body@[i])
}

/// Whether every expression of a contract can be rewritten by `w` inside
/// that contract.
pub open spec fn contract_rw_ok(w: Rewrite, a: ContractDef) -> bool {
    let v = in_contract(w, a.name@);
    &&& forall|i: int| 0 <= i < a.base_contracts@.len() ==> exprs_rw_ok(v, a.base_contracts@[i].args@)
    &&& forall|i: int| 0 <= i < a.body@.len() ==> contract_elem_rw_ok(v, a.body@[i])
}

/// Whether source unit element `b` is `a` rewritten by `w`: functions,
/// variables and contracts are rewritten, the other elements are the same.
pub open spec fn unit_elem_rw(w: Rewrite, a: SourceUnitElem, b: SourceUnitElem) -> bool {
    match (a, b) {
        (SourceUnitElem::Func(x), SourceUnitElem::Func(y)) => func_rw(w, x, y),
        (SourceUnitElem::Var(x), SourceUnitElem::Var(y)) => var_decl_rw(w, x, y),
        (SourceUnitElem::Contract(x), SourceUnitElem::Contract(y)) => contract_rw(w, x, y),
        _ => elem_same_but_contract(a, b),
    }
}

/// Whether every expression of a source unit element can be rewritten by
/// `w`.
pub open spec fn unit_elem_rw_ok(w: Rewrite, a: SourceUnitElem) -> bool {
    match a {
        SourceUnitElem::Func(x) => func_rw_ok(w, x),
        SourceUnitElem::Var(x) => var_decl_rw_ok(w, x),
        SourceUnitElem::Contract(x) => contract_rw_ok(w, x),
        _ => true,
    }
}

/// Whether elements `b` are elements `a` rewritten by `w`, position by
/// position.
pub open spec fn unit_elems_rw(w: Rewrite, a: Seq<SourceUnitElem>, b: Seq<SourceUnitElem>) -> bool {
    a.len() == b.len() && forall|i: int| 0 <= i < a.len() ==> unit_elem_rw(w, a[i], b[i])
}

/// Whether every expression of the elements can be rewritten by `w`.
pub open spec fn unit_elems_rw_ok(w: Rewrite, a: Seq<SourceUnitElem>) -> bool {
    forall|i: int| 0 <= i < a.len() ==> unit_elem_rw_ok(w, a[i])
}

/// Whether source unit `b` is `a` with its elements rewritten by `w`.
pub open spec fn unit_rw(w: Rewrite, a: SourceUnit, b: SourceUnit) -> bool {
    a.id == b.id && a.path@ == b.path@ && unit_elems_rw(w, a.elems@, b.elems@)
}

/// Whether source units `b` are `a` rewritten by `w`, position by position.
pub open spec fn units_rw(w: Rewrite, a: Seq<SourceUnit>, b: Seq<SourceUnit>) -> bool {
    a.len() == b.len() && forall|i: int| 0 <= i < a.len() ==> unit_rw(w, a[i], b[i])
}

/// Whether every expression of the source units can be rewritten by `w`.
pub open spec fn units_rw_ok(w: Rewrite, a: Seq<SourceUnit>) -> bool {
    forall|i: int| 0 <= i < a.len() ==> unit_elems_rw_ok(w, a[i].elems@)
}

//-------------------------------------------------------------------------
// Rewriting
//-------------------------------------------------------------------------

/// A function rewritten by `w` inside that function.
fn rewrite_func(w: &Rewriter, f: &FuncDef) -> (res: FuncDef)
    requires
        rw_checked(rewrite_of(*w)) ==> func_rw_ok(rewrite_of(*w), *f),
    ensures
        func_rw(rewrite_of(*w), *f, res),
{
    match w {
        Rewriter::Supers(sc) => {
            let v = Rewriter::Supers(
                SuperScope {
                    current: sc.current,
                    overriding: &f.overriding,
                    linearization: sc.linearization,
                    contracts: sc.contracts,
                },
            );
            assert(rewrite_of(v) == in_func(rewrite_of(*w), *f));
            rewrite_func_parts(&v, f)
        },
        _ => rewrite_func_parts(w, f),
    }
}

/// The modifier invocations, declarations and body of a function rewritten
/// by `w`.
fn rewrite_func_parts(w: &Rewriter, f: &FuncDef) -> (res: FuncDef)
    requires
        rw_checked(rewrite_of(*w)) ==> func_parts_rw_ok(rewrite_of(*w), *f),
    ensures
        func_parts_rw(rewrite_of(*w), *f, res),
{
    let mut invocs: Vec<CallExpr> = Vec::new();
    let mut i: usize = 0;
    while i < f.modifier_invocs.len()
        invariant
            rw_checked(rewrite_of(*w)) ==> func_parts_rw_ok(rewrite_of(*w), *f),
            i <= f.modifier_invocs.len(),
            invocs@.len() == i,
            forall|j: int|
                0 <= j < i ==> call_rw(rewrite_of(*w), f.modifier_invocs@[j], invocs@[j]),
        decreases f.modifier_invocs.len() - i,
    {
        invocs.push(rewrite_call(w, &f.modifier_invocs[i]));
        i = i + 1;
    }
    FuncDef {
        id: f.id,
        scope_id: f.scope_id,
        name: f.name.clone(),
        kind: f.kind,
        is_virtual: f.is_virtual,
        visibility: f.visibility,
        mutability: f.mutability,
        modifier_invocs: invocs,
        overriding: copy_overriding(&f.overriding),
        params: rewrite_var_decls(w, &f.params),
        return_vars: rewrite_var_decls(w, &f.return_vars),
        body: match &f.body {
            Some(b) => Some(rewrite_block(w, b)),
            None => None,
        },
        loc: f.loc,
        sol_ver: match &f.sol_ver {
            Some(v) => Some(v.clone()),
            None => None,
        },
    }
}

/// A contract element rewritten by `w`.
fn rewrite_contract_elem(w: &Rewriter, e: &ContractElem) -> (res: ContractElem)
    requires
        rw_checked(rewrite_of(*w)) ==> contract_elem_rw_ok(rewrite_of(*w), *e),
    ensures
        contract_elem_rw(rewrite_of(*w), *e, res),
{
    match e {
        ContractElem::Func(x) => ContractElem::Func(rewrite_func(w, x)),
        ContractElem::Var(x) => ContractElem::Var(rewrite_var_decl(w, x)),
        _ => copy_contract_elem(e),
    }
}

/// Base contracts with their arguments rewritten by `w`, in order.
fn rewrite_bases(w: &Rewriter, bs: &Vec<BaseContract>) -> (res: Vec<BaseContract>)
    requires
        rw_checked(rewrite_of(*w)) ==> forall|i: int|
            0 <= i < bs@.len() ==> exprs_rw_ok(rewrite_of(*w), bs@[i].args@),
    ensures
        res@.len() == bs@.len(),
        forall|i: int| 0 <= i < bs@.len() ==> base_rw(rewrite_of(*w), bs@[i], res@[i]),
{
    let mut bases: Vec<BaseContract> = Vec::new();
    let mut i: usize = 0;
    while i < bs.len()
        invariant
            rw_checked(rewrite_of(*w)) ==> forall|k: int|
                0 <= k < bs@.len() ==> exprs_rw_ok(rewrite_of(*w), bs@[k].args@),
            i <= bs.len(),
            bases@.len() == i,
            forall|j: int| 0 <= j < i ==> base_rw(rewrite_of(*w), bs@[j], bases@[j]),
        decreases bs.len() - i,
    {
        let b = &bs[i];
        bases.push(BaseContract { name: b.name.clone(), args: rewrite_exprs(w, &b.args), loc: b.loc });
        i = i + 1;
    }
    bases
}

/// The base contracts and elements of a contract rewritten by `w`, which
/// is already the rewriting inside that contract.
fn rewrite_contract_parts(w: &Rewriter, c: &ContractDef) -> (res: ContractDef)
    requires
        rw_checked(rewrite_of(*w)) ==> {
            &&& forall|i: int|
                0 <= i < c.base_contracts@.len() ==> exprs_rw_ok(
                    rewrite_of(*w),
                    c.base_contracts@[i].args@,
                )
            &&& forall|i: int| 0 <= i < c.body@.len() ==> contract_elem_rw_ok(rewrite_of(*w), c.body@[i])
        },
    ensures
        res.id == c.id,
        res.scope_id == c.scope_id,
        res.name == c.name,
        res.kind == c.kind,
        res.is_abstract == c.is_abstract,
        res.loc == c.loc,
        res.base_contracts@.len() == c.base_contracts@.len(),
        forall|i: int|
            0 <= i < c.base_contracts@.len() ==> base_rw(
                rewrite_of(*w),
                c.base_contracts@[i],
                res.base_contracts@[i],
            ),
        res.body@.len() == c.body@.len(),
        forall|i: int| 0 <= i < c.body@.len() ==> contract_elem_rw(rewrite_of(*w), c.body@[i], res.body@[i]),
{
    let bases = rewrite_bases(w, &c.base_contracts);
    let mut body: Vec<ContractElem> = Vec::new();
    let mut k: usize = 0;
    while k < c.body.len()
        invariant
            rw_checked(rewrite_of(*w)) ==> forall|m: int|
                0 <= m < c.body@.len() ==> contract_elem_rw_ok(rewrite_of(*w), c.body@[m]),
            k <= c.body.len(),
            body@.len() == k,
            forall|j: int| 0 <= j < k ==> contract_elem_rw(rewrite_of(*w), c.body@[j], body@[j]),
        decreases c.body.len() - k,
    {
        body.push(rewrite_contract_elem(w, &c.body[k]));
        k = k + 1;
    }
    ContractDef {
        id: c.id,
        scope_id: c.scope_id,
        name: c.name.clone(),
        kind: c.kind,
        is_abstract: c.is_abstract,
        base_contracts: bases,
        body,
        loc: c.loc,
    }
}

/// A contract rewritten by `w` inside that contract.
pub(crate) fn rewrite_contract(w: &Rewriter, c: &ContractDef) -> (res: ContractDef)
    requires
        rw_checked(rewrite_of(*w)) ==> contract_rw_ok(rewrite_of(*w), *c),
    ensures
        contract_rw(rewrite_of(*w), *c, res),
{
    match w {
        Rewriter::NamedArgs(t, _) => {
            let scope = Some(c.name.to_string());
            let v = Rewriter::NamedArgs(t, &scope);
            assert(rewrite_of(v) == in_contract(rewrite_of(*w), c.name@));
            rewrite_contract_parts(&v, c)
        },
        Rewriter::Supers(sc) => {
            let none = Overriding::Unspecified;
            let v = Rewriter::Supers(
                SuperScope {
                    current: Some(&c.name),
                    overriding: &none,
                    linearization: sc.linearization,
                    contracts: sc.contracts,
                },
            );
            assert(rewrite_of(v) == in_contract(rewrite_of(*w), c.name@));
            rewrite_contract_parts(&v, c)
        },
        _ => rewrite_contract_parts(w, c),
    }
}

/// A source unit element rewritten by `w`.
pub(crate) fn rewrite_unit_elem(w: &Rewriter, e: &SourceUnitElem) -> (res: SourceUnitElem)
    requires
        rw_checked(rewrite_of(*w)) ==> unit_elem_rw_ok(rewrite_of(*w), *e),
    ensures
        unit_elem_rw(rewrite_of(*w), *e, res),
{
    match e {
        SourceUnitElem::Func(x) => SourceUnitElem::Func(rewrite_func(w, x)),
        SourceUnitElem::Var(x) => SourceUnitElem::Var(rewrite_var_decl(w, x)),
        SourceUnitElem::Contract(x) => SourceUnitElem::Contract(rewrite_contract(w, x)),
        _ => copy_elem_but_contract(e),
    }
}

/// Source unit elements rewritten by `w`, in order.
fn rewrite_unit_elems(w: &Rewriter, es: &[SourceUnitElem]) -> (res: Vec<SourceUnitElem>)
    requires
        rw_checked(rewrite_of(*w)) ==> unit_elems_rw_ok(rewrite_of(*w), es@),
    ensures
        unit_elems_rw(rewrite_of(*w), es@, res@),
{
    let mut res: Vec<SourceUnitElem> = Vec::new();
    let mut i: usize = 0;
    while i < es.len()
        invariant
            rw_checked(rewrite_of(*w)) ==> unit_elems_rw_ok(rewrite_of(*w), es@),
            i <= es.len(),
            res@.len() == i,
            forall|j: int| 0 <= j < i ==> unit_elem_rw(rewrite_of(*w), es@[j], res@[j]),
        decreases es.len() - i,
    {
        res.push(rewrite_unit_elem(w, &es[i]));
        i = i + 1;
    }
    res
}

/// A source unit rewritten by `w`.
fn rewrite_unit(w: &Rewriter, u: &SourceUnit) -> (res: SourceUnit)
    requires
        rw_checked(rewrite_of(*w)) ==> unit_elems_rw_ok(rewrite_of(*w), u.elems@),
    ensures
        unit_rw(rewrite_of(*w), *u, res),
{
    SourceUnit { id: u.id, path: u.path.clone(), elems: rewrite_unit_elems(w, u.elems.as_slice()) }
}

/// Source units rewritten by `w`, in order.
fn rewrite_units(w: &Rewriter, us: &[SourceUnit]) -> (res: Vec<SourceUnit>)
    requires
        rw_checked(rewrite_of(*w)) ==> units_rw_ok(rewrite_of(*w), us@),
    ensures
        units_rw(rewrite_of(*w), us@, res@),
{
    let mut res: Vec<SourceUnit> = Vec::new();
    let mut i: usize = 0;
    while i < us.len()
        invariant
            rw_checked(rewrite_of(*w)) ==> units_rw_ok(rewrite_of(*w), us@),
            i <= us.len(),
            res@.len() == i,
            forall|j: int| 0 <= j < i ==> unit_rw(rewrite_of(*w), us@[j], res@[j]),
        decreases us.len() - i,
    {
        res.push(rewrite_unit(w, &us[i]));
        i = i + 1;
    }
    res
}

//-------------------------------------------------------------------------
// Passes
//-------------------------------------------------------------------------

/// Unrolling of the tuples of one component, such as `(e)` to `e`.
pub struct TupleUnroller {}

impl TupleUnroller {
    /// A source unit with every tuple of one component `(e)` replaced by
    /// `e`, wherever it stands (see `expr_rw` under `UnaryTuples`).
    pub fn unrolle_single_tuple(&self, source_unit: &SourceUnit) -> (res: SourceUnit)
        ensures
            unit_rw(Rewrite::UnaryTuples, *source_unit, res),
    {
        rewrite_unit(&Rewriter::UnaryTuples, source_unit)
    }
}

/// Source units with every tuple of one component `(e)` replaced by `e`.
pub fn unroll_unary_tuple(source_units: &[SourceUnit]) -> (res: Vec<SourceUnit>)
    ensures
        units_rw(Rewrite::UnaryTuples, source_units@, res@),
{
    let mut res: Vec<SourceUnit> = Vec::new();
    let mut i: usize = 0;
    while i < source_units.len()
        invariant
            i <= source_units.len(),
            res@.len() == i,
            forall|j: int| 0 <= j < i ==> unit_rw(Rewrite::UnaryTuples, source_units@[j], res@[j]),
        decreases source_units.len() - i,
    {
        let unroller = TupleUnroller {};
        res.push(unroller.unrolle_single_tuple(&source_units[i]));
        i = i + 1;
    }
    res
}

/// Replacement of member accesses through the alias of an imported source
/// unit, such as `A.f` after `import "a.sol" as A`, by the names they
/// denote.
pub struct SubstituteImportedExpr {
    /// The text of each member access that is replaced, and the name that
    /// replaces it; a later pair for a text overrides an earlier one.
    pub symbol_name_map: Vec<(String, Name)>,
}

impl SubstituteImportedExpr {
    /// A replacement by the given pairs of texts and names.
    pub fn new(symbol_name_map: Vec<(String, Name)>) -> (res: Self)
        ensures
            res.symbol_name_map == symbol_name_map,
    {
        SubstituteImportedExpr { symbol_name_map }
    }

    /// An expression with each member access whose text is bound replaced
    /// by an identifier of the bound name, with the type and location of
    /// the access (see `expr_rw` under `Members`).
    pub fn map_expr(&self, expr: &Expr) -> (res: Expr)
        ensures
            expr_rw(Rewrite::Members(keyed(self.symbol_name_map@)), *expr, res),
    {
        rewrite_expr(&Rewriter::Members(&self.symbol_name_map), expr)
    }

    /// Source unit elements with the bound member accesses replaced
    /// everywhere, in order.
    pub fn substitue(&self, elems: &[SourceUnitElem]) -> (res: Vec<SourceUnitElem>)
        ensures
            unit_elems_rw(Rewrite::Members(keyed(self.symbol_name_map@)), elems@, res@),
    {
        rewrite_unit_elems(&Rewriter::Members(&self.symbol_name_map), elems)
    }
}

/// The rewriting that eliminating named arguments in source units
/// performs: by the parameter names of all their functions, errors and
/// events, starting outside any contract.
pub open spec fn named_args_elimination(units: Seq<SourceUnit>) -> Rewrite {
    Rewrite::NamedArgs(units_entries(None, units), None)
}

impl NamedArgsEliminator {
    /// A contract whose calls with named arguments are put in parameter
    /// order, callees looked up in the scope of that contract. Every
    /// argument of such a call whose callee is known must match a
    /// parameter.
    pub fn map_contract_def(&self, contract: &ContractDef) -> (res: ContractDef)
        requires
            contract_rw_ok(
                Rewrite::NamedArgs(
                    table_view(self.param_names_map@),
                    opt_text(self.current_contract_scope),
                ),
                *contract,
            ),
        ensures
            contract_rw(
                Rewrite::NamedArgs(
                    table_view(self.param_names_map@),
                    opt_text(self.current_contract_scope),
                ),
                *contract,
                res,
            ),
    {
        rewrite_contract(&Rewriter::NamedArgs(&self.param_names_map, &self.current_contract_scope), contract)
    }
}

/// Source units whose calls with named arguments are put in the order of
/// the parameters of their callees, looked up among the functions, errors
/// and events of all the units. Every argument of such a call whose callee
/// is known must match a parameter.
pub fn eliminate_named_args(source_units: &Vec<SourceUnit>) -> (res: Vec<SourceUnit>)
    requires
        units_rw_ok(named_args_elimination(source_units@), source_units@),
    ensures
        units_rw(named_args_elimination(source_units@), source_units@, res@),
{
    let eliminator = NamedArgsEliminator::new(source_units);
    rewrite_units(
        &Rewriter::NamedArgs(&eliminator.param_names_map, &eliminator.current_contract_scope),
        source_units.as_slice(),
    )
}


//-------------------------------------------------------------------------
// Eliminating using directives
//-------------------------------------------------------------------------

/// The source unit elements that are not using directives, in order.
pub open spec fn unit_non_usings(es: Seq<SourceUnitElem>) -> Seq<SourceUnitElem>
    decreases es.len(),
{
    if es.len() == 0 {
        Seq::empty()
    } else if es.last() is Using {
        unit_non_usings(es.drop_last())
    } else {
        unit_non_usings(es.drop_last()).push(es.last())
    }
}

/// The contract elements that are not using directives, in order.
pub open spec fn contract_non_usings(es: Seq<ContractElem>) -> Seq<ContractElem>
    decreases es.len(),
{
    if es.len() == 0 {
        Seq::empty()
    } else if es.last() is Using {
        contract_non_usings(es.drop_last())
    } else {
        contract_non_usings(es.drop_last()).push(es.last())
    }
}

/// Whether contract `b` is contract `a` without its using directives, its
/// base contracts and other elements rewritten by the directives `us` of
/// the source unit followed by those of the contract, over the elements
/// `elems` of the source unit (see `call_rw` under `Usings`).
pub open spec fn contract_usings_eliminated(
    us: Seq<UsingDir>,
    elems: Seq<SourceUnitElem>,
    a: ContractDef,
    b: ContractDef,
) -> bool {
    let w = Rewrite::Usings(us + contract_usings(a.body@), elems);
    let body = contract_non_usings(a.body@);
    &&& a.id == b.id
    &&& a.scope_id == b.scope_id
    &&& a.name == b.name
    &&& a.kind == b.kind
    &&& a.is_abstract == b.is_abstract
    &&& a.loc == b.loc
    &&& a.base_contracts@.len() == b.base_contracts@.len()
    &&& forall|i: int|
        0 <= i < a.base_contracts@.len() ==> base_rw(w, a.base_contracts@[i], b.base_contracts@[i])
    &&& b.body@.len() == body.len()
    &&& forall|i: int| 0 <= i < body.len() ==> contract_elem_rw(w, body[i], b.body@[i])
}

/// Whether element `b` is element `a`, not a using directive, with the
/// directives `us` of the source unit applied over its elements `elems`: a
/// contract as `contract_usings_eliminated` says, another element
/// rewritten by those directives.
pub open spec fn elem_usings_eliminated(
    us: Seq<UsingDir>,
    elems: Seq<SourceUnitElem>,
    a: SourceUnitElem,
    b: SourceUnitElem,
) -> bool {
    match (a, b) {
        (SourceUnitElem::Contract(x), SourceUnitElem::Contract(y)) => contract_usings_eliminated(
            us,
            elems,
            x,
            y,
        ),
        _ => !(a is Contract) && unit_elem_rw(Rewrite::Usings(us, elems), a, b),
    }
}

/// Whether source unit `b` is `a` without its using directives, anywhere,
/// and with each call `x.m(..)` of a function that a directive in scope
/// attaches to the type of `x` turned into a call of that function with
/// `x` as first argument.
pub open spec fn usings_eliminated(a: SourceUnit, b: SourceUnit) -> bool {
    let es = unit_non_usings(a.elems@);
    &&& a.id == b.id
    &&& a.path@ == b.path@
    &&& b.elems@.len() == es.len()
    &&& forall|i: int|
        0 <= i < es.len() ==> elem_usings_eliminated(unit_usings(a.elems@), a.elems@, es[i], b.elems@[i])
}

/// A contract without its using directives, its other elements rewritten
/// by the directives `us` of the source unit followed by its own.
fn eliminate_contract_usings<'a>(
    us: &Vec<&'a UsingDir>,
    elems: &'a [SourceUnitElem],
    c: &'a ContractDef,
) -> (res: ContractDef)
    ensures
        contract_usings_eliminated(deref_usings(us@), elems@, *c, res),
{
    let mut all: Vec<&UsingDir> = Vec::new();
    let mut i: usize = 0;
    while i < us.len()
        invariant
            i <= us.len(),
            deref_usings(all@) == deref_usings(us@).take(i as int),
        decreases us.len() - i,
    {
        let ghost before = all@;
        all.push(us[i]);
        assert(deref_usings(all@) =~= deref_usings(before).push(*us@[i as int]));
        assert(deref_usings(us@).take(i + 1) =~= deref_usings(us@).take(i as int).push(
            *us@[i as int],
        ));
        i = i + 1;
    }
    assert(deref_usings(us@).take(i as int) =~= deref_usings(us@));
    let mut k: usize = 0;
    while k < c.body.len()
        invariant
            k <= c.body.len(),
            deref_usings(all@) == deref_usings(us@) + contract_usings(c.body@.take(k as int)),
        decreases c.body.len() - k,
    {
        assert(c.body@.take(k + 1).drop_last() =~= c.body@.take(k as int));
        match &c.body[k] {
            ContractElem::Using(u) => {
                let ghost before = all@;
                all.push(u);
                assert(deref_usings(all@) =~= deref_usings(before).push(*u));
            },
            _ => {},
        }
        k = k + 1;
    }
    assert(c.body@.take(k as int) =~= c.body@);
    let w = Rewriter::Usings(&all, elems);
    let bases = rewrite_bases(&w, &c.base_contracts);
    let ghost body_in = contract_non_usings(c.body@);
    let mut body: Vec<ContractElem> = Vec::new();
    let mut m: usize = 0;
    while m < c.body.len()
        invariant
            m <= c.body.len(),
            rewrite_of(w) == Rewrite::Usings(deref_usings(us@) + contract_usings(c.body@), elems@),
            body@.len() == contract_non_usings(c.body@.take(m as int)).len(),
            forall|j: int|
                0 <= j < body@.len() ==> contract_elem_rw(
                    rewrite_of(w),
                    contract_non_usings(c.body@.take(m as int))[j],
                    body@[j],
                ),
        decreases c.body.len() - m,
    {
        assert(c.body@.take(m + 1).drop_last() =~= c.body@.take(m as int));
        assert(c.body@.take(m + 1).last() == c.body@[m as int]);
        match &c.body[m] {
            ContractElem::Using(_) => {},
            e => {
                body.push(rewrite_contract_elem(&w, e));
            },
        }
        m = m + 1;
    }
    assert(c.body@.take(m as int) =~= c.body@);
    ContractDef {
        id: c.id,
        scope_id: c.scope_id,
        name: c.name.clone(),
        kind: c.kind,
        is_abstract: c.is_abstract,
        base_contracts: bases,
        body,
        loc: c.loc,
    }
}

/// Removal of using directives: a call `x.m(..)` of a function that a
/// directive attaches to the type of `x` becomes a call `L.m(x, ..)` of the
/// function of library `L`, or `f(x, ..)` of the attached function `f`.
pub struct UsingEliminator {}

impl UsingEliminator {
    /// An eliminator; the libraries and functions that the directives
    /// attach are looked up in the source unit that it is applied to.
    pub fn new(_source_unit: &SourceUnit) -> (res: Self) {
        UsingEliminator {}
    }

    /// A source unit without its using directives, with the member calls
    /// of attached functions turned into plain calls (see
    /// `usings_eliminated`).
    pub fn eliminate_using(&self, source_unit: &SourceUnit) -> (res: SourceUnit)
        ensures
            usings_eliminated(*source_unit, res),
    {
        let elems = source_unit.elems.as_slice();
        let mut us: Vec<&UsingDir> = Vec::new();
        let mut i: usize = 0;
        while i < elems.len()
            invariant
                i <= elems.len(),
                elems@ == source_unit.elems@,
                deref_usings(us@) == unit_usings(elems@.take(i as int)),
            decreases elems.len() - i,
        {
            assert(elems@.take(i + 1).drop_last() =~= elems@.take(i as int));
            match &elems[i] {
                SourceUnitElem::Using(u) => {
                    let ghost before = us@;
                    us.push(u);
                    assert(deref_usings(us@) =~= deref_usings(before).push(*u));
                },
                _ => {},
            }
            i = i + 1;
        }
        assert(elems@.take(i as int) =~= elems@);
        let w = Rewriter::Usings(&us, elems);
        let mut out: Vec<SourceUnitElem> = Vec::new();
        let mut k: usize = 0;
        while k < elems.len()
            invariant
                k <= elems.len(),
                elems@ == source_unit.elems@,
                deref_usings(us@) == unit_usings(elems@),
                rewrite_of(w) == Rewrite::Usings(unit_usings(elems@), elems@),
                out@.len() == unit_non_usings(elems@.take(k as int)).len(),
                forall|j: int|
                    0 <= j < out@.len() ==> elem_usings_eliminated(
                        unit_usings(elems@),
                        elems@,
                        unit_non_usings(elems@.take(k as int))[j],
                        out@[j],
                    ),
            decreases elems.len() - k,
        {
            assert(elems@.take(k + 1).drop_last() =~= elems@.take(k as int));
            assert(elems@.take(k + 1).last() == elems@[k as int]);
            match &elems[k] {
                SourceUnitElem::Using(_) => {},
                SourceUnitElem::Contract(c) => {
                    out.push(SourceUnitElem::Contract(eliminate_contract_usings(&us, elems, c)));
                },
                e => {
                    out.push(rewrite_unit_elem(&w, e));
                },
            }
            k = k + 1;
        }
        assert(elems@.take(k as int) =~= elems@);
        SourceUnit { id: source_unit.id, path: source_unit.path.clone(), elems: out }
    }
}

/// Source units without their using directives, with the member calls of
/// attached functions turned into plain calls.
pub fn eliminate_using_directives(source_units: &[SourceUnit]) -> (res: Vec<SourceUnit>)
    ensures
        res@.len() == source_units@.len(),
        forall|i: int| 0 <= i < source_units@.len() ==> usings_eliminated(source_units@[i], res@[i]),
{
    let mut res: Vec<SourceUnit> = Vec::new();
    let mut i: usize = 0;
    while i < source_units.len()
        invariant
            i <= source_units.len(),
            res@.len() == i,
            forall|j: int| 0 <= j < i ==> usings_eliminated(source_units@[j], res@[j]),
        decreases source_units.len() - i,
    {
        let eliminator = UsingEliminator::new(&source_units[i]);
        res.push(eliminator.eliminate_using(&source_units[i]));
        i = i + 1;
    }
    res
}

} // verus!
