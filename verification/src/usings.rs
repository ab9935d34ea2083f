//! What `using` directives attach to a type: for a member call `b.m(..)`,
//! the first directive in scope that attaches a function named `m` to the
//! type of `b`, either a function of a library defined in the source unit
//! or a function that the directive lists.
use vstd::prelude::*;
use crate::contracts::{ContractDef, ContractElem};
use crate::directives::{UsingDir, UsingFunc, UsingKind, UsingLib};
use crate::name::{Name, NameView};
use crate::passes::UsedFunc;
use crate::source_unit::{SourceUnit, SourceUnitElem};
use crate::types::{Type, types_same};

verus! {

/// What a using directive attaches under a member name: the function of
/// that name of a library, or a function.
#[derive(PartialEq, Eq, Debug)]
pub enum UsingTarget {
    Lib(Name),
    Func(Name),
}

/// Whether a using directive applies to type `t`: it is for every type
/// (`*`) or for that type.
pub open spec fn type_applies(u: UsingDir, t: Type) -> bool {
    match u.target_type {
        Some(tt) => types_same(tt, t),
        None => true,
    }
}

/// Whether a contract element is a function named `m`.
pub open spec fn is_func_named(e: ContractElem, m: NameView) -> bool {
    e matches ContractElem::Func(f) && f.name@ == m
}

/// Whether a source unit element is a contract named `l` that defines a
/// function named `m`.
pub open spec fn elem_lib_defines(e: SourceUnitElem, l: NameView, m: NameView) -> bool {
    e matches SourceUnitElem::Contract(c) && c.name@ == l && exists|j: int|
        0 <= j < c.body@.len() && is_func_named(#[trigger] c.body@[j], m)
}

/// Whether the source unit elements define a contract named `l` with a
/// function named `m`.
pub open spec fn lib_defines(elems: Seq<SourceUnitElem>, l: NameView, m: NameView) -> bool {
    exists|i: int| 0 <= i < elems.len() && elem_lib_defines(#[trigger] elems[i], l, m)
}

/// The position of the first function named `m` that a directive lists.
pub open spec fn first_func_named(fs: Seq<UsingFunc>, m: NameView) -> Option<int>
    decreases fs.len(),
{
    if fs.len() == 0 {
        None
    } else {
        match first_func_named(fs.drop_last(), m) {
            Some(k) => Some(k),
            None => if fs.last().func_name@ == m {
                Some(fs.len() - 1)
            } else {
                None
            },
        }
    }
}

/// What directive `u` attaches to type `t` under the name `m`, if anything.
pub open spec fn using_here(u: UsingDir, elems: Seq<SourceUnitElem>, t: Type, m: NameView) -> Option<
    UsingTarget,
> {
    if !type_applies(u, t) {
        None
    } else {
        match u.kind {
            UsingKind::UsingLib(l) => if lib_defines(elems, l.lib_name@, m) {
                Some(UsingTarget::Lib(l.lib_name))
            } else {
                None
            },
            UsingKind::UsingFunc(fs) => match first_func_named(fs@, m) {
                Some(k) => Some(UsingTarget::Func(fs@[k].func_name)),
                None => None,
            },
        }
    }
}

/// What the first of the directives `us` that attaches something to type
/// `t` under the name `m` attaches, if any.
pub open spec fn using_target(us: Seq<UsingDir>, elems: Seq<SourceUnitElem>, t: Type, m: NameView) -> Option<
    UsingTarget,
>
    decreases us.len(),
{
    if us.len() == 0 {
        None
    } else {
        match using_here(us[0], elems, t, m) {
            Some(x) => Some(x),
            None => using_target(us.drop_first(), elems, t, m),
        }
    }
}

/// The directives that references denote.
pub open spec fn deref_usings(us: Seq<&UsingDir>) -> Seq<UsingDir> {
    us.map_values(|u: &UsingDir| *u)
}

/// The directives among source unit elements, in order.
pub open spec fn unit_usings(elems: Seq<SourceUnitElem>) -> Seq<UsingDir>
    decreases elems.len(),
{
    if elems.len() == 0 {
        Seq::empty()
    } else {
        match elems.last() {
            SourceUnitElem::Using(u) => unit_usings(elems.drop_last()).push(u),
            _ => unit_usings(elems.drop_last()),
        }
    }
}

/// The directives among contract elements, in order.
pub open spec fn contract_usings(elems: Seq<ContractElem>) -> Seq<UsingDir>
    decreases elems.len(),
{
    if elems.len() == 0 {
        Seq::empty()
    } else {
        match elems.last() {
            ContractElem::Using(u) => contract_usings(elems.drop_last()).push(u),
            _ => contract_usings(elems.drop_last()),
        }
    }
}

/// Whether a contract defines a function named `m`.
fn defines_func(body: &Vec<ContractElem>, m: &Name) -> (res: bool)
    ensures
        res == exists|j: int| 0 <= j < body@.len() && is_func_named(#[trigger] body@[j], m@),
{
    let mut j: usize = 0;
    while j < body.len()
        invariant
            j <= body.len(),
            forall|k: int| 0 <= k < j ==> !is_func_named(#[trigger] body@[k], m@),
        decreases body.len() - j,
    {
        match &body[j] {
            ContractElem::Func(f) => {
                if f.name.same(m) {
                    assert(is_func_named(body@[j as int], m@));
                    return true;
                }
            },
            _ => {},
        }
        j = j + 1;
    }
    false
}

/// Whether the elements define a contract named `l` with a function named
/// `m`.
fn find_lib_func(elems: &[SourceUnitElem], l: &Name, m: &Name) -> (res: bool)
    ensures
        res == lib_defines(elems@, l@, m@),
{
    let mut i: usize = 0;
    while i < elems.len()
        invariant
            i <= elems.len(),
            forall|k: int| 0 <= k < i ==> !elem_lib_defines(#[trigger] elems@[k], l@, m@),
        decreases elems.len() - i,
    {
        match &elems[i] {
            SourceUnitElem::Contract(c) => {
                if c.name.same(l) && defines_func(&c.body, m) {
                    assert(elem_lib_defines(elems@[i as int], l@, m@));
                    return true;
                }
            },
            _ => {},
        }
        i = i + 1;
    }
    false
}

/// The position of the first function named `m` that a directive lists.
fn find_func_named(fs: &Vec<UsingFunc>, m: &Name) -> (res: Option<usize>)
    ensures
        match res {
            Some(k) => first_func_named(fs@, m@) == Some(k as int) && k < fs@.len(),
            None => first_func_named(fs@, m@) is None,
        },
{
    let mut k: usize = 0;
    while k < fs.len()
        invariant
            k <= fs.len(),
            first_func_named(fs@.take(k as int), m@) is None,
        decreases fs.len() - k,
    {
        assert(fs@.take(k + 1).drop_last() =~= fs@.take(k as int));
        if fs[k].func_name.same(m) {
            proof {
                lemma_first_func_prefix(fs@, m@, k as int);
            }
            return Some(k);
        }
        k = k + 1;
    }
    assert(fs@.take(k as int) =~= fs@);
    None
}

/// Where no function before `k` has the name and function `k` has it, the
/// first function with the name is `k`.
proof fn lemma_first_func_prefix(fs: Seq<UsingFunc>, m: NameView, k: int)
    requires
        0 <= k < fs.len(),
        first_func_named(fs.take(k), m) is None,
        fs[k].func_name@ == m,
    ensures
        first_func_named(fs, m) == Some(k),
    decreases fs.len(),
{
    if k < fs.len() - 1 {
        assert(fs.drop_last().take(k) =~= fs.take(k));
        lemma_first_func_prefix(fs.drop_last(), m, k);
    } else {
        assert(fs.drop_last() =~= fs.take(k));
    }
}

/// What directive `u` attaches to type `t` under the name `m`.
fn find_using_here(u: &UsingDir, elems: &[SourceUnitElem], t: &Type, m: &Name) -> (res: Option<
    UsingTarget,
>)
    ensures
        res == using_here(*u, elems@, *t, m@),
{
    let applies = match &u.target_type {
        Some(tt) => Type::same(tt, t),
        None => true,
    };
    if !applies {
        return None;
    }
    match &u.kind {
        UsingKind::UsingLib(l) => {
            if find_lib_func(elems, &l.lib_name, m) {
                Some(UsingTarget::Lib(l.lib_name.clone()))
            } else {
                None
            }
        },
        UsingKind::UsingFunc(fs) => match find_func_named(fs, m) {
            Some(k) => Some(UsingTarget::Func(fs[k].func_name.clone())),
            None => None,
        },
    }
}

/// What the first of the directives `us` that attaches something to type
/// `t` under the name `m` attaches.
pub(crate) fn find_using_target(us: &Vec<&UsingDir>, elems: &[SourceUnitElem], t: &Type, m: &Name) -> (res: Option<
    UsingTarget,
>)
    ensures
        res == using_target(deref_usings(us@), elems@, *t, m@),
{
    let ghost all = deref_usings(us@);
    assert(all.skip(0) =~= all);
    let mut i: usize = 0;
    while i < us.len()
        invariant
            i <= us.len(),
            all == deref_usings(us@),
            using_target(all, elems@, *t, m@) == using_target(all.skip(i as int), elems@, *t, m@),
        decreases us.len() - i,
    {
        let ghost rest = all.skip(i as int);
        assert(rest[0] == *us@[i as int]);
        assert(rest.drop_first() =~= all.skip(i + 1));
        match find_using_here(us[i], elems, t, m) {
            Some(x) => {
                return Some(x);
            },
            None => {},
        }
        i = i + 1;
    }
    assert(all.skip(i as int) =~= Seq::<UsingDir>::empty());
    None
}


//-------------------------------------------------------------------------
// Functions used through using directives
//-------------------------------------------------------------------------

/// The position of the first free function named `n` among the elements.
pub open spec fn first_free_func(elems: Seq<SourceUnitElem>, n: NameView) -> Option<int>
    decreases elems.len(),
{
    if elems.len() == 0 {
        None
    } else {
        match first_free_func(elems.drop_last(), n) {
            Some(i) => Some(i),
            None => if elems.last() matches SourceUnitElem::Func(f) && f.name@ == n {
                Some(elems.len() - 1)
            } else {
                None
            },
        }
    }
}

/// The function that a using directive lists, used for type `t`: the first
/// free function of the source unit with its name, if any.
pub open spec fn used_by_func(elems: Seq<SourceUnitElem>, u: UsingFunc, t: Type) -> Seq<UsedFunc> {
    match first_free_func(elems, u.func_name@) {
        Some(i) => seq![UsedFunc { func_name: elems[i]->Func_0.name, target_typ: Some(t) }],
        None => Seq::empty(),
    }
}

/// The functions that the listed functions of a using directive give for
/// type `t`, in order.
pub open spec fn used_by_funcs(elems: Seq<SourceUnitElem>, fs: Seq<UsingFunc>, t: Type) -> Seq<UsedFunc>
    decreases fs.len(),
{
    if fs.len() == 0 {
        Seq::empty()
    } else {
        used_by_funcs(elems, fs.drop_last(), t) + used_by_func(elems, fs.last(), t)
    }
}

/// The functions that a using directive for type `t` gives: none for a
/// library, whose functions are not looked up; the listed functions
/// otherwise.
pub open spec fn used_by(elems: Seq<SourceUnitElem>, u: UsingDir, t: Type) -> Seq<UsedFunc> {
    match u.kind {
        UsingKind::UsingLib(_) => Seq::empty(),
        UsingKind::UsingFunc(fs) => used_by_funcs(elems, fs@, t),
    }
}

/// The functions that the using directives among `es` give, in order;
/// each directive must name its type.
pub open spec fn used_by_elems(elems: Seq<SourceUnitElem>, es: Seq<SourceUnitElem>) -> Seq<UsedFunc>
    decreases es.len(),
{
    if es.len() == 0 {
        Seq::empty()
    } else {
        let rest = used_by_elems(elems, es.drop_last());
        match es.last() {
            SourceUnitElem::Using(u) => rest + used_by(elems, u, u.target_type->0),
            _ => rest,
        }
    }
}

/// What folding a contract body keeps: the functions of its last using
/// directive, if it has one, else `acc`.
pub open spec fn fold_body(elems: Seq<SourceUnitElem>, acc: Seq<UsedFunc>, body: Seq<ContractElem>) -> Seq<
    UsedFunc,
>
    decreases body.len(),
{
    if body.len() == 0 {
        acc
    } else {
        match body.last() {
            ContractElem::Using(u) => used_by(elems, u, u.target_type->0),
            _ => fold_body(elems, acc, body.drop_last()),
        }
    }
}

/// Whether every using directive of a contract body names its type.
pub open spec fn body_usings_typed(body: Seq<ContractElem>) -> bool {
    forall|j: int| 0 <= j < body.len() ==> (#[trigger] body[j] matches ContractElem::Using(u) ==> u.target_type is Some)
}

/// Finder of the functions that using directives attach, in a source unit.
pub struct UsedFuncFinder<'a> {
    /// The contract being visited, if any.
    pub current_contract: Option<&'a ContractDef>,
    /// The source unit.
    pub source_unit: &'a SourceUnit,
}

impl<'a> UsedFuncFinder<'a> {
    /// A finder in a source unit, outside any contract.
    pub fn new(source_unit: &'a SourceUnit) -> (res: Self)
        ensures
            res.current_contract is None,
            res.source_unit == source_unit,
    {
        UsedFuncFinder { current_contract: None, source_unit }
    }

    /// The functions of a library that a using directive attaches to a
    /// type: none, libraries are not looked into.
    pub fn find_used_funcs_in_using_library_directive(&self, _uldir: &UsingLib, _target_typ: &Type) -> (res: Vec<
        UsedFunc,
    >)
        ensures
            res@ == Seq::<UsedFunc>::empty(),
    {
        Vec::new()
    }

    /// The function that a using directive lists, used for a type: the first
    /// free function of the source unit with its name, if any.
    pub fn find_used_funcs_in_using_function_directive(&self, ufdir: &UsingFunc, target_typ: &Type) -> (res: Vec<
        UsedFunc,
    >)
        ensures
            res@ == used_by_func(self.source_unit.elems@, *ufdir, *target_typ),
    {
        let elems = &self.source_unit.elems;
        let mut i: usize = 0;
        while i < elems.len()
            invariant
                i <= elems.len(),
                *elems == self.source_unit.elems,
                first_free_func(elems@.take(i as int), ufdir.func_name@) is None,
            decreases elems.len() - i,
        {
            assert(elems@.take(i + 1).drop_last() =~= elems@.take(i as int));
            match &elems[i] {
                SourceUnitElem::Func(func) => {
                    if func.name.same(&ufdir.func_name) {
                        proof {
                            lemma_first_free_func_prefix(elems@, ufdir.func_name@, i as int);
                        }
                        let mut res: Vec<UsedFunc> = Vec::new();
                        res.push(UsedFunc::new(func.name.clone(), Some(target_typ.clone())));
                        assert(res@ =~= used_by_func(self.source_unit.elems@, *ufdir, *target_typ));
                        return res;
                    }
                },
                _ => {},
            }
            i = i + 1;
        }
        assert(elems@.take(i as int) =~= elems@);
        Vec::new()
    }

    /// The functions that a using directive attaches, which must name its
    /// type.
    pub fn find_used_funcs_in_using(&self, udir: &UsingDir) -> (res: Vec<UsedFunc>)
        requires
            udir.target_type is Some,
        ensures
            res@ == used_by(self.source_unit.elems@, *udir, udir.target_type->0),
    {
        let target_typ = match &udir.target_type {
            Some(typ) => typ.clone(),
            None => vstd::pervasive::unreached(),
        };
        match &udir.kind {
            UsingKind::UsingLib(ulib) => self.find_used_funcs_in_using_library_directive(ulib, &target_typ),
            UsingKind::UsingFunc(ufuncs) => {
                let mut res: Vec<UsedFunc> = Vec::new();
                let mut k: usize = 0;
                while k < ufuncs.len()
                    invariant
                        k <= ufuncs.len(),
                        target_typ == udir.target_type->0,
                        res@ == used_by_funcs(self.source_unit.elems@, ufuncs@.take(k as int), target_typ),
                    decreases ufuncs.len() - k,
                {
                    assert(ufuncs@.take(k + 1).drop_last() =~= ufuncs@.take(k as int));
                    let mut found = self.find_used_funcs_in_using_function_directive(&ufuncs[k], &target_typ);
                    res.append(&mut found);
                    k = k + 1;
                }
                assert(ufuncs@.take(k as int) =~= ufuncs@);
                res
            },
        }
    }

    /// The functions that the using directives of the source unit attach,
    /// in order; each must name its type.
    pub fn _find_used_funcs(&self) -> (res: Vec<UsedFunc>)
        requires
            unit_usings_typed(self.source_unit.elems@),
        ensures
            res@ == used_by_elems(self.source_unit.elems@, self.source_unit.elems@),
    {
        let elems = &self.source_unit.elems;
        let mut res: Vec<UsedFunc> = Vec::new();
        let mut i: usize = 0;
        while i < elems.len()
            invariant
                i <= elems.len(),
                *elems == self.source_unit.elems,
                unit_usings_typed(elems@),
                res@ == used_by_elems(elems@, elems@.take(i as int)),
            decreases elems.len() - i,
        {
            assert(elems@.take(i + 1).drop_last() =~= elems@.take(i as int));
            match &elems[i] {
                SourceUnitElem::Using(u) => {
                    assert(elems@[i as int] matches SourceUnitElem::Using(v) && v.target_type is Some);
                    let mut found = self.find_used_funcs_in_using(u);
                    res.append(&mut found);
                },
                _ => {},
            }
            i = i + 1;
        }
        assert(elems@.take(i as int) =~= elems@);
        res
    }

    /// Folds a contract element: a using directive gives its functions in
    /// place of `acc`; other elements keep `acc`.
    pub fn fold_contract_elem(&self, acc: Vec<UsedFunc>, elem: &ContractElem) -> (res: Vec<UsedFunc>)
        requires
            elem matches ContractElem::Using(u) ==> u.target_type is Some,
        ensures
            res@ == (match *elem {
                ContractElem::Using(u) => used_by(self.source_unit.elems@, u, u.target_type->0),
                _ => acc@,
            }),
    {
        match elem {
            ContractElem::Using(udir) => self.find_used_funcs_in_using(udir),
            _ => acc,
        }
    }

    /// Folds a contract, visited as the current contract: its elements in
    /// order (see `fold_contract_elem`).
    pub fn fold_contract_def(&mut self, acc: Vec<UsedFunc>, contract: &'a ContractDef) -> (res: Vec<UsedFunc>)
        requires
            body_usings_typed(contract.body@),
        ensures
            res@ == fold_body(old(self).source_unit.elems@, acc@, contract.body@),
            final(self).current_contract == old(self).current_contract,
            final(self).source_unit == old(self).source_unit,
    {
        let saved_contract_scope = self.current_contract;
        self.current_contract = Some(contract);
        let mut acc = acc;
        let ghost acc0 = acc@;
        let mut k: usize = 0;
        while k < contract.body.len()
            invariant
                k <= contract.body.len(),
                self.source_unit == old(self).source_unit,
                body_usings_typed(contract.body@),
                acc@ == fold_body(self.source_unit.elems@, acc0, contract.body@.take(k as int)),
            decreases contract.body.len() - k,
        {
            assert(contract.body@.take(k + 1).drop_last() =~= contract.body@.take(k as int));
            assert(contract.body@.take(k + 1).last() == contract.body@[k as int]);
            acc = self.fold_contract_elem(acc, &contract.body[k]);
            k = k + 1;
        }
        assert(contract.body@.take(k as int) =~= contract.body@);
        self.current_contract = saved_contract_scope;
        acc
    }

    /// Folds a source unit element: a using directive gives its functions
    /// in place of `acc`, a contract is folded (see `fold_contract_def`),
    /// other elements keep `acc`.
    pub fn fold_source_unit_elem(&mut self, acc: Vec<UsedFunc>, elem: &'a SourceUnitElem) -> (res: Vec<UsedFunc>)
        requires
            elem matches SourceUnitElem::Using(u) ==> u.target_type is Some,
            elem matches SourceUnitElem::Contract(c) ==> body_usings_typed(c.body@),
        ensures
            res@ == (match *elem {
                SourceUnitElem::Using(u) => used_by(old(self).source_unit.elems@, u, u.target_type->0),
                SourceUnitElem::Contract(c) => fold_body(old(self).source_unit.elems@, acc@, c.body@),
                _ => acc@,
            }),
            final(self).current_contract == old(self).current_contract,
            final(self).source_unit == old(self).source_unit,
    {
        match elem {
            SourceUnitElem::Using(udir) => self.find_used_funcs_in_using(udir),
            SourceUnitElem::Contract(contract) => self.fold_contract_def(acc, contract),
            _ => acc,
        }
    }
}

/// Whether every using directive among the elements names its type.
pub open spec fn unit_usings_typed(elems: Seq<SourceUnitElem>) -> bool {
    forall|i: int| 0 <= i < elems.len() ==> (#[trigger] elems[i] matches SourceUnitElem::Using(u) ==> u.target_type is Some)
}

/// Where no element before `i` is a free function named `n` and element
/// `i` is one, the first is `i`.
proof fn lemma_first_free_func_prefix(elems: Seq<SourceUnitElem>, n: NameView, i: int)
    requires
        0 <= i < elems.len(),
        first_free_func(elems.take(i), n) is None,
        elems[i] matches SourceUnitElem::Func(f) && f.name@ == n,
    ensures
        first_free_func(elems, n) == Some(i),
    decreases elems.len(),
{
    if i < elems.len() - 1 {
        assert(elems.drop_last().take(i) =~= elems.take(i));
        lemma_first_free_func_prefix(elems.drop_last(), n, i);
    } else {
        assert(elems.drop_last() =~= elems.take(i));
    }
}

} // verus!
