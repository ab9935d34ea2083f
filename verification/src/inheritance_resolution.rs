//! Resolution of inheritance in a source unit: each access `super.m` in a
//! contract is resolved to the base contract, in linearization order, that
//! defines `m`; virtual functions without a body are dropped, and the other
//! functions lose their `virtual` and `override` specifiers and their ids.
use vstd::prelude::*;
use crate::contracts::{BaseContract, ContractDef, ContractElem, FuncDef};
use crate::expressions::{Rewrite, SuperContext};
use crate::inheritance::{
    distinct_keys, linearize_inheritance, linearized_pairs, never_stuck, pairs_view,
};
use crate::name::{Name, NameView, names_view};
use crate::rewriting::{
    base_rw, contract_elem_rw, contract_rw_ok, func_rw, in_contract, rewrite_contract,
    rewrite_unit_elem, unit_elem_rw, unit_elem_rw_ok,
};
use crate::source_unit::{SourceUnit, SourceUnitElem};
use crate::specifiers::Overriding;
use crate::substitution::{Rewriter, SuperScope, rewrite_of};

verus! {

//-------------------------------------------------------------------------
// Inheritance and members of the contracts
//-------------------------------------------------------------------------

/// The position of the first pair for key `k`, if any.
pub open spec fn key_pos(ps: Seq<(NameView, Seq<NameView>)>, k: NameView) -> Option<int>
    decreases ps.len(),
{
    if ps.len() == 0 {
        None
    } else {
        match key_pos(ps.drop_last(), k) {
            Some(i) => Some(i),
            None => if ps.last().0 == k {
                Some(ps.len() - 1)
            } else {
                None
            },
        }
    }
}

/// The pairs with the value for `k` set to `v`: in place where `k` has a
/// pair, else at the end.
pub open spec fn pairs_insert(ps: Seq<(NameView, Seq<NameView>)>, k: NameView, v: Seq<NameView>) -> Seq<
    (NameView, Seq<NameView>),
> {
    match key_pos(ps, k) {
        Some(i) => ps.update(i, (k, v)),
        None => ps.push((k, v)),
    }
}

/// The names of the base contracts of a contract, in order.
pub open spec fn base_names(c: ContractDef) -> Seq<NameView> {
    c.base_contracts@.map_values(|b: BaseContract| b.name@)
}

/// Each contract among the elements with its base contracts, one pair per
/// name, the last contract of a name giving the bases.
pub open spec fn inheritance_pairs(elems: Seq<SourceUnitElem>) -> Seq<(NameView, Seq<NameView>)>
    decreases elems.len(),
{
    if elems.len() == 0 {
        Seq::empty()
    } else {
        let rest = inheritance_pairs(elems.drop_last());
        match elems.last() {
            SourceUnitElem::Contract(c) => pairs_insert(rest, c.name@, base_names(c)),
            _ => rest,
        }
    }
}

/// The names of the variables and functions of a contract body, in order.
pub open spec fn member_names(body: Seq<ContractElem>) -> Seq<NameView>
    decreases body.len(),
{
    if body.len() == 0 {
        Seq::empty()
    } else {
        let rest = member_names(body.drop_last());
        match body.last() {
            ContractElem::Var(v) => rest.push(v.name@),
            ContractElem::Func(f) => rest.push(f.name@),
            _ => rest,
        }
    }
}

/// Each contract among the elements with the names of its variables and
/// functions, in order.
pub open spec fn member_pairs(elems: Seq<SourceUnitElem>) -> Seq<(NameView, Seq<NameView>)>
    decreases elems.len(),
{
    if elems.len() == 0 {
        Seq::empty()
    } else {
        let rest = member_pairs(elems.drop_last());
        match elems.last() {
            SourceUnitElem::Contract(c) => rest.push((c.name@, member_names(c.body@))),
            _ => rest,
        }
    }
}

/// Where no pair before `i` has key `k` and pair `i` has it, the first pair
/// with key `k` is `i`.
proof fn lemma_key_pos_prefix(ps: Seq<(NameView, Seq<NameView>)>, k: NameView, i: int)
    requires
        0 <= i < ps.len(),
        key_pos(ps.take(i), k) is None,
        ps[i].0 == k,
    ensures
        key_pos(ps, k) == Some(i),
    decreases ps.len(),
{
    if i < ps.len() - 1 {
        assert(ps.drop_last().take(i) =~= ps.take(i));
        lemma_key_pos_prefix(ps.drop_last(), k, i);
    } else {
        assert(ps.drop_last() =~= ps.take(i));
    }
}

/// A position found for a key holds that key; no position means that no
/// pair has it.
proof fn lemma_key_pos(ps: Seq<(NameView, Seq<NameView>)>, k: NameView)
    ensures
        match key_pos(ps, k) {
            Some(i) => 0 <= i < ps.len() && ps[i].0 == k,
            None => forall|j: int| 0 <= j < ps.len() ==> ps[j].0 != k,
        },
    decreases ps.len(),
{
    if ps.len() > 0 {
        lemma_key_pos(ps.drop_last(), k);
        assert forall|j: int| 0 <= j < ps.len() - 1 implies ps.drop_last()[j] == ps[j] by {}
    }
}

/// Setting a value keeps the keys distinct.
proof fn lemma_insert_distinct(ps: Seq<(NameView, Seq<NameView>)>, k: NameView, v: Seq<NameView>)
    requires
        distinct_keys(ps),
    ensures
        distinct_keys(pairs_insert(ps, k, v)),
{
    lemma_key_pos(ps, k);
}

/// The inheritance pairs have distinct keys.
proof fn lemma_inheritance_distinct(elems: Seq<SourceUnitElem>)
    ensures
        distinct_keys(inheritance_pairs(elems)),
    decreases elems.len(),
{
    if elems.len() > 0 {
        lemma_inheritance_distinct(elems.drop_last());
        match elems.last() {
            SourceUnitElem::Contract(c) => {
                lemma_insert_distinct(inheritance_pairs(elems.drop_last()), c.name@, base_names(c));
            },
            _ => {},
        }
    }
}

/// Finding of the inheritance of the contracts of a source unit.
pub struct InheritanceLinearizer {
    /// Each contract with the names of its base contracts, one pair per
    /// name.
    pub inheritance_map: Vec<(Name, Vec<Name>)>,
}

impl InheritanceLinearizer {
    /// A finder with nothing found yet.
    pub fn new() -> (res: Self)
        ensures
            res.inheritance_map@.len() == 0,
    {
        InheritanceLinearizer { inheritance_map: Vec::new() }
    }

    /// Records a contract with the names of its base contracts, in place of
    /// any contract of the same name recorded before.
    pub fn visit_contract_def(&mut self, contract: &ContractDef)
        ensures
            pairs_view(final(self).inheritance_map@) == pairs_insert(
                pairs_view(old(self).inheritance_map@),
                contract.name@,
                base_names(*contract),
            ),
    {
        let ghost ps = pairs_view(self.inheritance_map@);
        let mut bases: Vec<Name> = Vec::new();
        let mut j: usize = 0;
        while j < contract.base_contracts.len()
            invariant
                j <= contract.base_contracts.len(),
                names_view(bases@) == base_names(*contract).take(j as int),
            decreases contract.base_contracts.len() - j,
        {
            let ghost before = names_view(bases@);
            bases.push(contract.base_contracts[j].name.clone());
            assert(names_view(bases@) =~= before.push(contract.base_contracts@[j as int].name@));
            j = j + 1;
            assert(base_names(*contract).take(j as int) =~= before.push(
                contract.base_contracts@[j - 1].name@,
            ));
        }
        assert(base_names(*contract).take(j as int) =~= base_names(*contract));
        let mut i: usize = 0;
        while i < self.inheritance_map.len()
            invariant
                i <= self.inheritance_map.len(),
                ps == pairs_view(self.inheritance_map@),
                ps == pairs_view(old(self).inheritance_map@),
                names_view(bases@) == base_names(*contract),
                key_pos(ps.take(i as int), contract.name@) is None,
            decreases self.inheritance_map.len() - i,
        {
            assert(ps.take(i + 1).drop_last() =~= ps.take(i as int));
            if self.inheritance_map[i].0.same(&contract.name) {
                proof {
                    lemma_key_pos_prefix(ps, contract.name@, i as int);
                }
                self.inheritance_map.set(i, (contract.name.clone(), bases));
                assert(pairs_view(self.inheritance_map@) =~= ps.update(
                    i as int,
                    (contract.name@, base_names(*contract)),
                ));
                return;
            }
            i = i + 1;
        }
        assert(ps.take(i as int) =~= ps);
        self.inheritance_map.push((contract.name.clone(), bases));
        assert(pairs_view(self.inheritance_map@) =~= ps.push((contract.name@, base_names(*contract))));
    }

    /// The contracts of a source unit, each with the names of its base
    /// contracts, recorded after those found before; one pair per name.
    pub fn find_inheritance(&mut self, source_unit: &SourceUnit) -> (res: Vec<(Name, Vec<Name>)>)
        requires
            old(self).inheritance_map@.len() == 0,
        ensures
            pairs_view(res@) == inheritance_pairs(source_unit.elems@),
    {
        let mut i: usize = 0;
        while i < source_unit.elems.len()
            invariant
                i <= source_unit.elems.len(),
                pairs_view(self.inheritance_map@) == inheritance_pairs(source_unit.elems@.take(i as int)),
            decreases source_unit.elems.len() - i,
        {
            assert(source_unit.elems@.take(i + 1).drop_last() =~= source_unit.elems@.take(i as int));
            match &source_unit.elems[i] {
                SourceUnitElem::Contract(c) => self.visit_contract_def(c),
                _ => {},
            }
            i = i + 1;
        }
        assert(source_unit.elems@.take(i as int) =~= source_unit.elems@);
        let mut res: Vec<(Name, Vec<Name>)> = Vec::new();
        let mut k: usize = 0;
        while k < self.inheritance_map.len()
            invariant
                k <= self.inheritance_map.len(),
                pairs_view(res@) == pairs_view(self.inheritance_map@).take(k as int),
            decreases self.inheritance_map.len() - k,
        {
            let p = (self.inheritance_map[k].0.clone(), clone_names(&self.inheritance_map[k].1));
            let ghost before = pairs_view(res@);
            res.push(p);
            assert(pairs_view(res@) =~= before.push(pairs_view(self.inheritance_map@)[k as int]));
            k = k + 1;
            assert(pairs_view(self.inheritance_map@).take(k as int) =~= before.push(
                pairs_view(self.inheritance_map@)[k - 1],
            ));
        }
        assert(pairs_view(self.inheritance_map@).take(k as int) =~= pairs_view(self.inheritance_map@));
        res
    }
}

/// A copy of a list of names.
fn clone_names(v: &Vec<Name>) -> (res: Vec<Name>)
    ensures
        names_view(res@) == names_view(v@),
{
    let mut res: Vec<Name> = Vec::new();
    let mut i: usize = 0;
    while i < v.len()
        invariant
            i <= v.len(),
            names_view(res@) == names_view(v@).take(i as int),
        decreases v.len() - i,
    {
        let ghost before = names_view(res@);
        res.push(v[i].clone());
        assert(names_view(res@) =~= before.push(v@[i as int]@));
        i = i + 1;
        assert(names_view(v@).take(i as int) =~= before.push(v@[i - 1]@));
    }
    assert(names_view(v@).take(i as int) =~= names_view(v@));
    res
}

/// Each contract among the elements with the names of its variables and
/// functions, in order.
fn find_member_names(elems: &[SourceUnitElem]) -> (res: Vec<(Name, Vec<Name>)>)
    ensures
        pairs_view(res@) == member_pairs(elems@),
{
    let mut res: Vec<(Name, Vec<Name>)> = Vec::new();
    let mut i: usize = 0;
    while i < elems.len()
        invariant
            i <= elems.len(),
            pairs_view(res@) == member_pairs(elems@.take(i as int)),
        decreases elems.len() - i,
    {
        assert(elems@.take(i + 1).drop_last() =~= elems@.take(i as int));
        match &elems[i] {
            SourceUnitElem::Contract(c) => {
                let mut names: Vec<Name> = Vec::new();
                let mut k: usize = 0;
                while k < c.body.len()
                    invariant
                        k <= c.body.len(),
                        names_view(names@) == member_names(c.body@.take(k as int)),
                    decreases c.body.len() - k,
                {
                    assert(c.body@.take(k + 1).drop_last() =~= c.body@.take(k as int));
                    let ghost before = names_view(names@);
                    match &c.body[k] {
                        ContractElem::Var(v) => {
                            names.push(v.name.clone());
                            assert(names_view(names@) =~= before.push(v.name@));
                        },
                        ContractElem::Func(f) => {
                            names.push(f.name.clone());
                            assert(names_view(names@) =~= before.push(f.name@));
                        },
                        _ => {},
                    }
                    k = k + 1;
                }
                assert(c.body@.take(k as int) =~= c.body@);
                let ghost before = pairs_view(res@);
                res.push((c.name.clone(), names));
                assert(pairs_view(res@) =~= before.push((c.name@, member_names(c.body@))));
            },
            _ => {},
        }
        i = i + 1;
    }
    assert(elems@.take(i as int) =~= elems@);
    res
}

//-------------------------------------------------------------------------
// Resolution
//-------------------------------------------------------------------------

/// The rewriting that resolves `super` outside any contract, by the given
/// linearization and members of the contracts.
pub open spec fn supers(
    linearization: Seq<(NameView, Seq<NameView>)>,
    contracts: Seq<(NameView, Seq<NameView>)>,
) -> Rewrite {
    Rewrite::Supers(
        SuperContext {
            current: None,
            overrides_all: false,
            overridden: Seq::empty(),
            linearization,
            contracts,
        },
    )
}

/// Whether a contract element is kept: all but virtual functions without a
/// body.
pub open spec fn kept(e: ContractElem) -> bool {
    !(e matches ContractElem::Func(f) && f.is_virtual && f.body is None)
}

/// The contract elements that are kept, in order.
pub open spec fn kept_elems(es: Seq<ContractElem>) -> Seq<ContractElem>
    decreases es.len(),
{
    if es.len() == 0 {
        Seq::empty()
    } else if kept(es.last()) {
        kept_elems(es.drop_last()).push(es.last())
    } else {
        kept_elems(es.drop_last())
    }
}

/// Whether element `b` is element `a` rewritten by `w`, a function with no
/// id, not virtual, and without `override`.
pub open spec fn elem_resolved(w: Rewrite, a: ContractElem, b: ContractElem) -> bool {
    match (a, b) {
        (ContractElem::Func(f), ContractElem::Func(g)) => {
            &&& g.id is None
            &&& !g.is_virtual
            &&& g.overriding is Unspecified
            &&& func_rw(w, f, FuncDef { id: f.id, is_virtual: f.is_virtual, overriding: f.overriding, ..g })
        },
        _ => !(a is Func) && contract_elem_rw(w, a, b),
    }
}

/// Whether contract `b` is contract `a` with `super` resolved in it by `w`
/// (see `supers`), the elements that are kept resolved (see
/// `elem_resolved`), the others dropped.
pub open spec fn contract_resolved(w: Rewrite, a: ContractDef, b: ContractDef) -> bool {
    let v = in_contract(w, a.name@);
    let body = kept_elems(a.body@);
    &&& a.id == b.id
    &&& a.scope_id == b.scope_id
    &&& a.name == b.name
    &&& a.kind == b.kind
    &&& a.is_abstract == b.is_abstract
    &&& a.loc == b.loc
    &&& a.base_contracts@.len() == b.base_contracts@.len()
    &&& forall|i: int|
        0 <= i < a.base_contracts@.len() ==> base_rw(
            v,
            a.base_contracts@[i],
            b.base_contracts@[i],
        )
    &&& b.body@.len() == body.len()
    &&& forall|i: int| 0 <= i < body.len() ==> elem_resolved(v, body[i], b.body@[i])
}

/// Resolution of `super` in the contracts of a source unit.
pub struct InheritanceResolver<'a> {
    source_unit: &'a SourceUnit,
    /// Each contract with the names of its variables and functions.
    contract_map: Vec<(Name, Vec<Name>)>,
    /// Each contract with its linearization.
    linearization_map: &'a Vec<(Name, Vec<Name>)>,
}

impl<'a> InheritanceResolver<'a> {
    /// A resolver in a source unit by the linearization of its contracts.
    pub fn new(
        source_unit: &'a SourceUnit,
        linearization_map: &'a Vec<(Name, Vec<Name>)>,
    ) -> (res: Self)
        ensures
            res.unit() == *source_unit,
            res.rewriting() == supers(pairs_view(linearization_map@), member_pairs(source_unit.elems@)),
    {
        InheritanceResolver {
            source_unit,
            contract_map: find_member_names(source_unit.elems.as_slice()),
            linearization_map,
        }
    }

    /// The source unit that the resolver works in.
    pub closed spec fn unit(&self) -> SourceUnit {
        *self.source_unit
    }

    /// The rewriting that the resolver performs.
    pub closed spec fn rewriting(&self) -> Rewrite {
        supers(pairs_view(self.linearization_map@), pairs_view(self.contract_map@))
    }

    /// A contract with `super` resolved in it, its virtual functions
    /// without a body dropped, and its other functions without id,
    /// `virtual` and `override`. No function of the contract that
    /// overrides every base (`override` without a list) may use `super`.
    pub fn map_contract_def(&self, contract: &ContractDef) -> (res: ContractDef)
        requires
            contract_rw_ok(self.rewriting(), *contract),
        ensures
            contract_resolved(self.rewriting(), *contract, res),
    {
        let none = Overriding::Unspecified;
        let w = Rewriter::Supers(
            SuperScope {
                current: None,
                overriding: &none,
                linearization: self.linearization_map,
                contracts: &self.contract_map,
            },
        );
        assert(rewrite_of(w) == self.rewriting());
        let n = rewrite_contract(&w, contract);
        let ghost v = in_contract(self.rewriting(), contract.name@);
        let ContractDef { id, scope_id, name, kind, is_abstract, base_contracts, body: nbody, loc } = n;
        let ghost nb = nbody@;
        let mut rest = nbody;
        let mut body: Vec<ContractElem> = Vec::new();
        let total = rest.len();
        let mut k: usize = 0;
        while k < total
            invariant
                total == nb.len(),
                nb.len() == contract.body@.len(),
                k <= total,
                rest@ == nb.subrange(k as int, total as int),
                forall|j: int| 0 <= j < nb.len() ==> contract_elem_rw(v, contract.body@[j], nb[j]),
                body@.len() == kept_elems(contract.body@.take(k as int)).len(),
                forall|j: int|
                    0 <= j < body@.len() ==> elem_resolved(
                        v,
                        kept_elems(contract.body@.take(k as int))[j],
                        body@[j],
                    ),
            decreases total - k,
        {
            assert(contract.body@.take(k + 1).drop_last() =~= contract.body@.take(k as int));
            assert(contract.body@.take(k + 1).last() == contract.body@[k as int]);
            let e = rest.remove(0);
            assert(e == nb[k as int]);
            assert(contract_elem_rw(v, contract.body@[k as int], e));
            match e {
                ContractElem::Func(f) => {
                    if f.is_virtual && f.body.is_none() {
                    } else {
                        let g = FuncDef { id: None, is_virtual: false, overriding: Overriding::Unspecified, ..f };
                        body.push(ContractElem::Func(g));
                    }
                },
                other => {
                    body.push(other);
                },
            }
            k = k + 1;
            assert(rest@ =~= nb.subrange(k as int, total as int));
        }
        assert(contract.body@.take(k as int) =~= contract.body@);
        ContractDef { id, scope_id, name, kind, is_abstract, base_contracts, body, loc }
    }

    /// The source unit with `super` resolved in each of its contracts (see
    /// `map_contract_def`), its other elements the same but for their
    /// rewriting outside any contract.
    pub fn elminate_contract_calls(&self) -> (res: SourceUnit)
        requires
            forall|i: int|
                0 <= i < self.unit().elems@.len() ==> unit_elem_rw_ok(
                    self.rewriting(),
                    #[trigger] self.unit().elems@[i],
                ),
        ensures
            inheritance_resolved(self.rewriting(), self.unit(), res),
    {
        let none = Overriding::Unspecified;
        let w = Rewriter::Supers(
            SuperScope {
                current: None,
                overriding: &none,
                linearization: self.linearization_map,
                contracts: &self.contract_map,
            },
        );
        assert(rewrite_of(w) == self.rewriting());
        let elems = &self.source_unit.elems;
        let mut out: Vec<SourceUnitElem> = Vec::new();
        let mut i: usize = 0;
        while i < elems.len()
            invariant
                i <= elems.len(),
                *elems == self.unit().elems,
                rewrite_of(w) == self.rewriting(),
                forall|j: int|
                    0 <= j < elems@.len() ==> unit_elem_rw_ok(self.rewriting(), #[trigger] elems@[j]),
                out@.len() == i,
                forall|j: int| 0 <= j < i ==> elem_unit_resolved(self.rewriting(), elems@[j], out@[j]),
            decreases elems.len() - i,
        {
            match &elems[i] {
                SourceUnitElem::Contract(c) => {
                    assert(unit_elem_rw_ok(self.rewriting(), elems@[i as int]));
                    out.push(SourceUnitElem::Contract(self.map_contract_def(c)));
                },
                e => {
                    out.push(rewrite_unit_elem(&w, e));
                },
            }
            i = i + 1;
        }
        SourceUnit { id: self.source_unit.id, path: self.source_unit.path.clone(), elems: out }
    }
}

/// Whether element `b` is element `a` with inheritance resolved by `w`: a
/// contract as `contract_resolved` says, another element rewritten by `w`.
pub open spec fn elem_unit_resolved(w: Rewrite, a: SourceUnitElem, b: SourceUnitElem) -> bool {
    match (a, b) {
        (SourceUnitElem::Contract(x), SourceUnitElem::Contract(y)) => contract_resolved(w, x, y),
        _ => !(a is Contract) && unit_elem_rw(w, a, b),
    }
}

/// Whether source unit `b` is `a` with inheritance resolved by `w`,
/// element by element.
pub open spec fn inheritance_resolved(w: Rewrite, a: SourceUnit, b: SourceUnit) -> bool {
    &&& a.id == b.id
    &&& a.path@ == b.path@
    &&& a.elems@.len() == b.elems@.len()
    &&& forall|i: int| 0 <= i < a.elems@.len() ==> elem_unit_resolved(w, a.elems@[i], b.elems@[i])
}

/// The rewriting that resolving inheritance in a source unit performs: by
/// the linearization of its contracts and their members.
pub open spec fn unit_supers(u: SourceUnit) -> Rewrite {
    supers(linearized_pairs(inheritance_pairs(u.elems@)), member_pairs(u.elems@))
}

/// Whether inheritance can be resolved in a source unit: the C3 merge of
/// every contract whose bases are linearized succeeds, and no function that
/// overrides every base uses `super` in a contract.
pub open spec fn resolvable(u: SourceUnit) -> bool {
    &&& never_stuck(inheritance_pairs(u.elems@))
    &&& forall|i: int| 0 <= i < u.elems@.len() ==> unit_elem_rw_ok(unit_supers(u), #[trigger] u.elems@[i])
}

/// Resolution of inheritance in a source unit, with the inheritance of its
/// contracts and their linearization.
pub struct InheritanceFlattener<'a> {
    /// The source unit.
    pub source_unit: &'a SourceUnit,
    /// Each contract with the names of its base contracts.
    pub inheritance_map: Vec<(Name, Vec<Name>)>,
    /// Each linearized contract with its linearization.
    pub linearization_map: Vec<(Name, Vec<Name>)>,
}

impl<'a> InheritanceFlattener<'a> {
    /// The inheritance of the contracts of a source unit and its
    /// linearization. Every C3 merge must succeed.
    pub fn new(source_unit: &'a SourceUnit) -> (res: Self)
        requires
            never_stuck(inheritance_pairs(source_unit.elems@)),
        ensures
            res.unit() == *source_unit,
            pairs_view(res.inheritance_map@) == inheritance_pairs(source_unit.elems@),
            pairs_view(res.linearization_map@) == linearized_pairs(
                inheritance_pairs(source_unit.elems@),
            ),
    {
        let mut finder = InheritanceLinearizer::new();
        let inheritance_map = finder.find_inheritance(source_unit);
        proof {
            lemma_inheritance_distinct(source_unit.elems@);
        }
        let linearization_map = linearize_inheritance(&inheritance_map);
        InheritanceFlattener { source_unit, inheritance_map, linearization_map }
    }

    /// The source unit that the flattener works in.
    pub open spec fn unit(&self) -> SourceUnit {
        *self.source_unit
    }

    /// The source unit with inheritance resolved (see
    /// `InheritanceResolver::elminate_contract_calls`).
    pub fn flatten_inheritance(&self) -> (res: SourceUnit)
        requires
            pairs_view(self.linearization_map@) == linearized_pairs(
                inheritance_pairs(self.unit().elems@),
            ),
            resolvable(self.unit()),
        ensures
            inheritance_resolved(unit_supers(self.unit()), self.unit(), res),
    {
        let resolver = InheritanceResolver::new(self.source_unit, &self.linearization_map);
        resolver.elminate_contract_calls()
    }
}

/// Source units with inheritance resolved in each: `super` resolved to base
/// contracts, virtual functions without a body dropped, and the other
/// functions of contracts without id, `virtual` and `override`.
pub fn resolve_inheritance(source_units: &[SourceUnit]) -> (res: Vec<SourceUnit>)
    requires
        forall|i: int| 0 <= i < source_units@.len() ==> resolvable(#[trigger] source_units@[i]),
    ensures
        res@.len() == source_units@.len(),
        forall|i: int|
            0 <= i < source_units@.len() ==> inheritance_resolved(
                unit_supers(source_units@[i]),
                source_units@[i],
                #[trigger] res@[i],
            ),
{
    let mut res: Vec<SourceUnit> = Vec::new();
    let mut i: usize = 0;
    while i < source_units.len()
        invariant
            i <= source_units.len(),
            forall|k: int| 0 <= k < source_units@.len() ==> resolvable(#[trigger] source_units@[k]),
            res@.len() == i,
            forall|j: int|
                0 <= j < i ==> inheritance_resolved(
                    unit_supers(source_units@[j]),
                    source_units@[j],
                    #[trigger] res@[j],
                ),
        decreases source_units.len() - i,
    {
        assert(resolvable(source_units@[i as int]));
        let flattener = InheritanceFlattener::new(&source_units[i]);
        res.push(flattener.flatten_inheritance());
        i = i + 1;
    }
    res
}


/// Whether no function of a contract of the source unit is virtual, has an
/// `override` specifier or has an id.
pub open spec fn plain_functions(u: SourceUnit) -> bool {
    forall|i: int|
        0 <= i < u.elems@.len() ==> match #[trigger] u.elems@[i] {
            SourceUnitElem::Contract(d) => forall|j: int|
                0 <= j < d.body@.len() ==> match #[trigger] d.body@[j] {
                    ContractElem::Func(g) => !g.is_virtual && g.overriding is Unspecified && g.id is None,
                    _ => true,
                },
            _ => true,
        }
}

/// After inheritance is resolved in a source unit, no function of a
/// contract is virtual, has an `override` specifier or keeps its id.
pub proof fn lemma_no_virtual_functions_remain(w: Rewrite, a: SourceUnit, b: SourceUnit)
    requires
        inheritance_resolved(w, a, b),
    ensures
        plain_functions(b),
{
    assert forall|i: int| 0 <= i < b.elems@.len() implies match #[trigger] b.elems@[i] {
        SourceUnitElem::Contract(d) => forall|j: int|
            0 <= j < d.body@.len() ==> match #[trigger] d.body@[j] {
                ContractElem::Func(g) => !g.is_virtual && g.overriding is Unspecified && g.id is None,
                _ => true,
            },
        _ => true,
    } by {
        assert(elem_unit_resolved(w, a.elems@[i], b.elems@[i]));
        match b.elems@[i] {
            SourceUnitElem::Contract(d) => {
                let c = a.elems@[i]->Contract_0;
                let v = in_contract(w, c.name@);
                assert forall|j: int| 0 <= j < d.body@.len() implies match #[trigger] d.body@[j] {
                    ContractElem::Func(g) => !g.is_virtual && g.overriding is Unspecified && g.id is None,
                    _ => true,
                } by {
                    assert(elem_resolved(v, kept_elems(c.body@)[j], d.body@[j]));
                }
            },
            _ => {},
        }
    }
}

} // verus!
