//! Source units: the elements of one Solidity file, and the merging of
//! their `pragma` directives.
use vstd::prelude::*;
use itertools::Itertools;
use crate::contracts::{
    ContractDef, ErrorDef, FuncDef, contract_def_text, contract_elem_printable, error_def_text,
    func_def_text, func_printable,
};
use crate::definitions::{
    EnumDef, StructDef, TypeDef, VarDecl, enum_def_text, struct_def_text, type_def_text,
    var_decl_text,
};
use crate::directives::{
    ImportDir, PragmaDir, PragmaKind, UsingDir, import_dir_text, pragma_dir_text, using_dir_text,
};
use crate::loc::Loc;
use crate::name::{Name, NameView};
use crate::text::{seq_join, strings_view, join, to_string};
use crate::text_order::{
    text_lt, text_order, lemma_text_lt_irreflexive, lemma_text_lt_total, lemma_text_lt_transitive,
};

verus! {

/// A source unit: a file and its elements.
#[derive(PartialEq, Eq, Debug)]
pub struct SourceUnit {
    pub id: Option<isize>,
    pub path: String,
    pub elems: Vec<SourceUnitElem>,
}

/// An element of a source unit.
#[derive(PartialEq, Eq, Debug)]
pub enum SourceUnitElem {
    Pragma(PragmaDir),
    Import(ImportDir),
    Using(UsingDir),
    Error(ErrorDef),
    Func(FuncDef),
    Var(VarDecl),
    Struct(StructDef),
    Enum(EnumDef),
    UserType(TypeDef),
    Contract(ContractDef),
}

/// The three kinds of pragma directives.
#[derive(PartialEq, Eq, Debug, Clone, Copy, Structural)]
pub enum PragmaClass {
    Version,
    AbiCoder,
    Experimental,
}

/// The kind of a pragma.
pub open spec fn pragma_class(k: PragmaKind) -> PragmaClass {
    match k {
        PragmaKind::Version(_) => PragmaClass::Version,
        PragmaKind::AbiCoder(_) => PragmaClass::AbiCoder,
        PragmaKind::Experimental(_) => PragmaClass::Experimental,
    }
}

/// The text of a pragma's argument: the version constraint, the abicoder
/// version or the experimental feature.
pub open spec fn pragma_value(k: PragmaKind) -> Seq<char> {
    match k {
        PragmaKind::Version(v) => v@,
        PragmaKind::AbiCoder(v) => v@,
        PragmaKind::Experimental(v) => v@,
    }
}

/// The pragma of an element, if it is a pragma of kind `c`.
pub open spec fn pragma_in_class(e: SourceUnitElem, c: PragmaClass) -> Option<PragmaDir> {
    match e {
        SourceUnitElem::Pragma(p) => if pragma_class(p.kind) == c {
            Some(p)
        } else {
            None
        },
        _ => None,
    }
}

/// The pragmas of kind `c` among the elements, in order.
pub open spec fn pragmas_in(es: Seq<SourceUnitElem>, c: PragmaClass) -> Seq<PragmaDir> {
    es.filter_map(|e: SourceUnitElem| pragma_in_class(e, c))
}

/// The elements that are not pragmas, in order.
pub open spec fn non_pragmas(es: Seq<SourceUnitElem>) -> Seq<SourceUnitElem> {
    es.filter(|e: SourceUnitElem| !(e is Pragma))
}

/// The arguments of pragmas.
pub open spec fn pragma_values(ps: Seq<PragmaDir>) -> Seq<Seq<char>> {
    ps.map_values(|p: PragmaDir| pragma_value(p.kind))
}

/// The first position whose text no other text comes after: the first of
/// the newest versions.
pub open spec fn newest_index(vs: Seq<Seq<char>>) -> int
    decreases vs.len(),
{
    if vs.len() <= 1 {
        0
    } else {
        let k = newest_index(vs.drop_last());
        if text_lt(vs[k], vs.last()) {
            vs.len() - 1
        } else {
            k
        }
    }
}

/// The first newest version comes after every earlier one and before none.
pub proof fn lemma_newest_index(vs: Seq<Seq<char>>)
    requires
        vs.len() > 0,
    ensures
        0 <= newest_index(vs) < vs.len(),
        forall|j: int| 0 <= j < vs.len() ==> !text_lt(vs[newest_index(vs)], #[trigger] vs[j]),
        forall|j: int| 0 <= j < newest_index(vs) ==> text_lt(#[trigger] vs[j], vs[newest_index(vs)]),
    decreases vs.len(),
{
    if vs.len() == 1 {
        lemma_text_lt_irreflexive(vs[0]);
    } else {
        let init = vs.drop_last();
        lemma_newest_index(init);
        let k = newest_index(init);
        let l = vs.last();
        lemma_text_lt_irreflexive(l);
        if text_lt(vs[k], l) {
            assert forall|j: int| 0 <= j < vs.len() - 1 implies text_lt(#[trigger] vs[j], l) by {
                assert(init[j] == vs[j]);
                lemma_text_lt_total(vs[j], vs[k]);
                if vs[j] != vs[k] {
                    lemma_text_lt_transitive(vs[j], vs[k], l);
                }
            }
            assert forall|j: int| 0 <= j < vs.len() implies !text_lt(l, #[trigger] vs[j]) by {
                if j < vs.len() - 1 {
                    lemma_text_lt_total(vs[j], l);
                }
            }
        } else {
            assert forall|j: int| 0 <= j < vs.len() implies !text_lt(vs[k], #[trigger] vs[j]) by {
                if j < vs.len() - 1 {
                    assert(init[j] == vs[j]);
                }
            }
            assert forall|j: int| 0 <= j < k implies text_lt(#[trigger] vs[j], vs[k]) by {
                assert(init[j] == vs[j]);
            }
        }
    }
}

/// A position whose text no other comes after, and that is the first with
/// its text, is the first newest one.
proof fn lemma_newest_unique(vs: Seq<Seq<char>>, i: int)
    requires
        0 <= i < vs.len(),
        forall|j: int| 0 <= j < vs.len() ==> !text_lt(vs[i], #[trigger] vs[j]),
        forall|j: int| 0 <= j < i ==> #[trigger] vs[j] != vs[i],
    ensures
        i == newest_index(vs),
{
    lemma_newest_index(vs);
    let m = newest_index(vs);
    lemma_text_lt_total(vs[i], vs[m]);
    assert(vs[i] == vs[m]);
    lemma_text_lt_irreflexive(vs[m]);
    if i < m {
        assert(text_lt(vs[i], vs[m]));
    }
}

/// The versions, newest first (`Itertools::sorted_by`, a stable sort, with
/// the comparison of texts reversed). The result is a permutation of the
/// versions in which no version comes before a later one.
#[verifier::external_body]
fn sort_newest_first(versions: &Vec<String>) -> (res: Vec<String>)
    ensures
        res@.len() == versions@.len(),
        forall|i: int| 0 <= i < versions@.len() ==> exists|j: int|
            0 <= j < res@.len() && #[trigger] res@[j]@ == #[trigger] versions@[i]@,
        forall|j: int| 0 <= j < res@.len() ==> exists|i: int|
            0 <= i < versions@.len() && #[trigger] res@[j]@ == #[trigger] versions@[i]@,
        forall|i: int, j: int|
            0 <= i < j < res@.len() ==> !text_lt(#[trigger] res@[i]@, #[trigger] res@[j]@),
{
    versions.iter().sorted_by(|a, b| text_order(b, a)).cloned().collect()
}

/// The position of the first of the newest versions.
fn newest_version_index(versions: &Vec<String>) -> (res: usize)
    requires
        versions@.len() > 0,
    ensures
        res as int == newest_index(strings_view(versions@)),
{
    let ghost vs = strings_view(versions@);
    let sorted = sort_newest_first(versions);
    let top = &sorted[0];
    assert forall|j: int| 0 <= j < vs.len() implies !text_lt(top@, #[trigger] vs[j]) by {
        assert(versions@[j]@ == vs[j]);
        let k = choose|k: int| 0 <= k < sorted@.len() && #[trigger] sorted@[k]@ == #[trigger] versions@[j]@;
        if k > 0 {
            assert(!text_lt(sorted@[0]@, sorted@[k]@));
        } else {
            lemma_text_lt_irreflexive(top@);
        }
    }
    let ghost i0 = choose|i: int| 0 <= i < versions@.len() && #[trigger] sorted@[0]@ == #[trigger] versions@[i]@;
    let mut i: usize = 0;
    while i < versions.len()
        invariant
            vs == strings_view(versions@),
            i <= versions.len(),
            0 <= i0 < versions@.len(),
            vs[i0] == top@,
            forall|j: int| 0 <= j < vs.len() ==> !text_lt(top@, #[trigger] vs[j]),
            forall|j: int| 0 <= j < i ==> #[trigger] vs[j] != top@,
        decreases versions.len() - i,
    {
        if versions[i] == *top {
            assert(vs[i as int] == top@);
            proof {
                lemma_newest_unique(vs, i as int);
            }
            return i;
        }
        i = i + 1;
    }
    assert(vs[i0] != top@);
    0
}

impl Clone for PragmaKind {
    fn clone(&self) -> (res: Self)
        ensures
            res == *self,
    {
        match self {
            PragmaKind::Version(v) => PragmaKind::Version(v.clone()),
            PragmaKind::AbiCoder(v) => PragmaKind::AbiCoder(v.clone()),
            PragmaKind::Experimental(v) => PragmaKind::Experimental(v.clone()),
        }
    }
}

impl Clone for PragmaDir {
    fn clone(&self) -> (res: Self)
        ensures
            res == *self,
    {
        PragmaDir { id: self.id, kind: self.kind.clone(), loc: self.loc }
    }
}

/// `res` is `es` with its pragmas merged: first one `solidity` pragma
/// joining all version constraints (with the location of the only one if
/// there is just one), then the newest `abicoder` pragma (the first of the
/// newest if several are equally new), then all `experimental` pragmas, then
/// the other elements, each group in its original order.
pub open spec fn pragmas_merged(res: Seq<SourceUnitElem>, es: Seq<SourceUnitElem>) -> bool {
    let sol = pragmas_in(es, PragmaClass::Version);
    let abi = pragmas_in(es, PragmaClass::AbiCoder);
    let exp = pragmas_in(es, PragmaClass::Experimental);
    let head = (if sol.len() > 0 { 1int } else { 0int }) + (if abi.len() > 0 { 1int } else { 0int });
    &&& res.len() == head + exp.len() + non_pragmas(es).len()
    &&& sol.len() > 0 ==> (res[0] matches SourceUnitElem::Pragma(p) && p.id is None
        && (p.kind matches PragmaKind::Version(v) && v@ == seq_join(pragma_values(sol), ", "@))
        && p.loc == (if sol.len() == 1 { sol[0].loc } else { None }))
    &&& abi.len() > 0 ==> res[head - 1] == SourceUnitElem::Pragma(
        abi[newest_index(pragma_values(abi))],
    )
    &&& res.subrange(head, head + exp.len()) == exp.map_values(
        |p: PragmaDir| SourceUnitElem::Pragma(p),
    )
    &&& res.subrange(head + exp.len(), res.len() as int) == non_pragmas(es)
}

/// Merge the pragma directives among the elements of a source unit.
pub fn merge_pragma_elems(source_unit_elems: Vec<SourceUnitElem>) -> (res: Vec<SourceUnitElem>)
    ensures
        pragmas_merged(res@, source_unit_elems@),

{
    let ghost es = source_unit_elems@;
    let mut rest = source_unit_elems;
    let mut sol: Vec<PragmaDir> = Vec::new();
    let mut abi: Vec<PragmaDir> = Vec::new();
    let mut exp: Vec<PragmaDir> = Vec::new();
    let mut others: Vec<SourceUnitElem> = Vec::new();
    let ghost mut k: int = 0;
    // Extract pragma directives and other source unit elements.
    while rest.len() > 0
        invariant
            0 <= k <= es.len(),
            rest@ == es.subrange(k, es.len() as int),
            sol@ == pragmas_in(es.take(k), PragmaClass::Version),
            abi@ == pragmas_in(es.take(k), PragmaClass::AbiCoder),
            exp@ == pragmas_in(es.take(k), PragmaClass::Experimental),
            others@ == non_pragmas(es.take(k)),
        decreases rest.len(),
    {
        let e = rest.remove(0);
        assert(e == es[k]);
        assert(es.take(k + 1).drop_last() =~= es.take(k));
        assert(es.take(k + 1).last() == es[k]);
        proof {
            reveal(Seq::filter);
            if e is Pragma {
                assert(non_pragmas(es.take(k + 1)) =~= non_pragmas(es.take(k)));
            } else {
                assert(non_pragmas(es.take(k + 1)) =~= non_pragmas(es.take(k)).push(es[k]));
            }
        }
        match e {
            SourceUnitElem::Pragma(p) => match p.kind {
                PragmaKind::Version(_) => sol.push(p),
                PragmaKind::AbiCoder(_) => abi.push(p),
                PragmaKind::Experimental(_) => exp.push(p),
            },
            other => others.push(other),
        }
        proof {
            k = k + 1;
        }
        assert(rest@ =~= es.subrange(k, es.len() as int));
    }
    assert(es.take(k) =~= es);
    let mut nelems: Vec<SourceUnitElem> = Vec::new();
    // Merge all solidity constraints into a pragma string.
    if sol.len() > 0 {
        let mut versions: Vec<String> = Vec::new();
        let mut i: usize = 0;
        while i < sol.len()
            invariant
                i <= sol.len(),
                sol@ == pragmas_in(es, PragmaClass::Version),
                strings_view(versions@) == pragma_values(sol@).take(i as int),
            decreases sol.len() - i,
        {
            let v = match &sol[i].kind {
                PragmaKind::Version(v) => v.clone(),
                PragmaKind::AbiCoder(v) => v.clone(),
                PragmaKind::Experimental(v) => v.clone(),
            };
            let ghost prev = strings_view(versions@);
            versions.push(v);
            assert(strings_view(versions@) =~= prev.push(pragma_values(sol@)[i as int]));
            i = i + 1;
            assert(pragma_values(sol@).take(i as int) =~= prev.push(pragma_values(sol@)[i - 1]));
        }
        assert(pragma_values(sol@).take(i as int) =~= pragma_values(sol@));
        let loc: Option<Loc> = if sol.len() == 1 {
            sol[0].loc
        } else {
            None
        };
        let npragma = PragmaDir::new(None, PragmaKind::Version(join(&versions, ", ")), loc);
        nelems.push(SourceUnitElem::Pragma(npragma));
    }
    // Take the newest abicoder pragma: v2 has a higher priority than v1.
    if abi.len() > 0 {
        let mut versions: Vec<String> = Vec::new();
        let mut i: usize = 0;
        while i < abi.len()
            invariant
                i <= abi.len(),
                strings_view(versions@) == pragma_values(abi@).take(i as int),
            decreases abi.len() - i,
        {
            let v = match &abi[i].kind {
                PragmaKind::Version(v) => v.clone(),
                PragmaKind::AbiCoder(v) => v.clone(),
                PragmaKind::Experimental(v) => v.clone(),
            };
            let ghost prev = strings_view(versions@);
            versions.push(v);
            assert(strings_view(versions@) =~= prev.push(pragma_values(abi@)[i as int]));
            i = i + 1;
            assert(pragma_values(abi@).take(i as int) =~= prev.push(pragma_values(abi@)[i - 1]));
        }
        assert(pragma_values(abi@).take(i as int) =~= pragma_values(abi@));
        let n = newest_version_index(&versions);
        proof {
            lemma_newest_index(pragma_values(abi@));
        }
        nelems.push(SourceUnitElem::Pragma(abi[n].clone()));
    }
    let ghost pre = nelems@;
    // Migrate all experimental pragma directives.
    let mut i: usize = 0;
    while i < exp.len()
        invariant
            i <= exp.len(),
            nelems@ == pre + exp@.take(i as int).map_values(|p: PragmaDir| SourceUnitElem::Pragma(p)),
        decreases exp.len() - i,
    {
        nelems.push(SourceUnitElem::Pragma(exp[i].clone()));
        i = i + 1;
        assert(exp@.take(i as int).map_values(|p: PragmaDir| SourceUnitElem::Pragma(p))
            =~= exp@.take(i - 1).map_values(|p: PragmaDir| SourceUnitElem::Pragma(p)).push(
            SourceUnitElem::Pragma(exp@[i - 1]),
        ));
    }
    assert(exp@.take(i as int) =~= exp@);
    let ghost mid = nelems@;
    nelems.append(&mut others);
    proof {
        let sol_s = pragmas_in(es, PragmaClass::Version);
        let abi_s = pragmas_in(es, PragmaClass::AbiCoder);
        let exp_m = exp@.map_values(|p: PragmaDir| SourceUnitElem::Pragma(p));
        let head = pre.len() as int;
        assert(nelems@ =~= pre + exp_m + non_pragmas(es));
        assert(nelems@.subrange(head, head + exp@.len()) =~= exp_m);
        assert(nelems@.subrange(head + exp@.len(), nelems@.len() as int) =~= non_pragmas(es));
        if abi_s.len() > 0 {
            assert(nelems@[head - 1] == pre[head - 1]);
        }
        if sol_s.len() > 0 {
            assert(nelems@[0] == pre[0]);
        }
    }
    nelems
}

//-------------------------------------------------------------------------
// Laws of merging pragmas
//-------------------------------------------------------------------------

/// Pragmas as elements.
pub open spec fn wrap_pragmas(ps: Seq<PragmaDir>) -> Seq<SourceUnitElem> {
    ps.map_values(|p: PragmaDir| SourceUnitElem::Pragma(p))
}

/// Two elements alike but for the string object of a version pragma: equal,
/// or both `solidity` pragmas with the same id, location and constraint.
pub open spec fn elems_alike(a: SourceUnitElem, b: SourceUnitElem) -> bool {
    ||| a == b
    ||| (a matches SourceUnitElem::Pragma(p) && b matches SourceUnitElem::Pragma(q) && p.id == q.id
        && p.loc == q.loc && p.kind is Version && q.kind is Version && pragma_value(p.kind)
        == pragma_value(q.kind))
}

proof fn lemma_pragmas_in_add(a: Seq<SourceUnitElem>, b: Seq<SourceUnitElem>, c: PragmaClass)
    ensures
        pragmas_in(a + b, c) == pragmas_in(a, c) + pragmas_in(b, c),
    decreases b.len(),
{
    if b.len() == 0 {
        assert(a + b =~= a);
        assert(pragmas_in(a, c) + pragmas_in(b, c) =~= pragmas_in(a, c));
    } else {
        assert((a + b).drop_last() =~= a + b.drop_last());
        assert((a + b).last() == b.last());
        lemma_pragmas_in_add(a, b.drop_last(), c);
        match pragma_in_class(b.last(), c) {
            Some(s) => {
                assert(pragmas_in(a, c) + pragmas_in(b, c) =~= (pragmas_in(a, c) + pragmas_in(
                    b.drop_last(),
                    c,
                )) + seq![s]);
            },
            None => {},
        }
    }
}

/// Elements without pragmas hold no pragma of any kind.
proof fn lemma_pragmas_in_none(s: Seq<SourceUnitElem>, c: PragmaClass)
    requires
        forall|i: int| 0 <= i < s.len() ==> !(#[trigger] s[i] is Pragma),
    ensures
        pragmas_in(s, c) == Seq::<PragmaDir>::empty(),
    decreases s.len(),
{
    if s.len() > 0 {
        lemma_pragmas_in_none(s.drop_last(), c);
        assert(!(s[s.len() - 1] is Pragma));
    }
}

/// Elements without pragmas are their own non-pragmas.
proof fn lemma_non_pragmas_none(s: Seq<SourceUnitElem>)
    requires
        forall|i: int| 0 <= i < s.len() ==> !(#[trigger] s[i] is Pragma),
    ensures
        non_pragmas(s) == s,
    decreases s.len(),
{
    reveal(Seq::filter);
    if s.len() > 0 {
        lemma_non_pragmas_none(s.drop_last());
        assert(!(s[s.len() - 1] is Pragma));
        assert(s.drop_last().push(s.last()) =~= s);
    } else {
        assert(non_pragmas(s) =~= s);
    }
}

/// The non-pragmas hold no pragma.
proof fn lemma_non_pragmas_are_not_pragmas(s: Seq<SourceUnitElem>)
    ensures
        forall|i: int| 0 <= i < non_pragmas(s).len() ==> !(#[trigger] non_pragmas(s)[i] is Pragma),
{
    assert forall|i: int| 0 <= i < non_pragmas(s).len() implies !(#[trigger] non_pragmas(s)[i] is Pragma) by {
        s.lemma_filter_pred(|e: SourceUnitElem| !(e is Pragma), i);
    }
}

/// Wrapped pragmas of kind `c` give back those pragmas.
proof fn lemma_wrapped_same(ps: Seq<PragmaDir>, c: PragmaClass)
    requires
        forall|i: int| 0 <= i < ps.len() ==> pragma_class(#[trigger] ps[i].kind) == c,
    ensures
        pragmas_in(wrap_pragmas(ps), c) == ps,
        non_pragmas(wrap_pragmas(ps)) == Seq::<SourceUnitElem>::empty(),
    decreases ps.len(),
{
    reveal(Seq::filter);
    if ps.len() > 0 {
        assert(wrap_pragmas(ps).drop_last() =~= wrap_pragmas(ps.drop_last()));
        lemma_wrapped_same(ps.drop_last(), c);
        assert(pragma_class(ps[ps.len() - 1].kind) == c);
        assert(ps.drop_last().push(ps.last()) =~= ps);
    } else {
        assert(non_pragmas(wrap_pragmas(ps)) =~= Seq::<SourceUnitElem>::empty());
    }
}

/// Wrapped pragmas of another kind than `c` give none of kind `c`.
proof fn lemma_wrapped_other(ps: Seq<PragmaDir>, c: PragmaClass)
    requires
        forall|i: int| 0 <= i < ps.len() ==> pragma_class(#[trigger] ps[i].kind) != c,
    ensures
        pragmas_in(wrap_pragmas(ps), c) == Seq::<PragmaDir>::empty(),
    decreases ps.len(),
{
    if ps.len() > 0 {
        assert(wrap_pragmas(ps).drop_last() =~= wrap_pragmas(ps.drop_last()));
        lemma_wrapped_other(ps.drop_last(), c);
        assert(pragma_class(ps[ps.len() - 1].kind) != c);
    }
}

/// The pragmas of kind `c` among elements are of kind `c`.
proof fn lemma_pragmas_in_class(es: Seq<SourceUnitElem>, c: PragmaClass)
    ensures
        forall|i: int|
            0 <= i < pragmas_in(es, c).len() ==> pragma_class(#[trigger] pragmas_in(es, c)[i].kind) == c,
    decreases es.len(),
{
    if es.len() > 0 {
        lemma_pragmas_in_class(es.drop_last(), c);
    }
}

/// In merged elements, the pragmas come first and the other elements
/// follow, in their original order.
pub proof fn lemma_merged_pragmas_first(es: Seq<SourceUnitElem>, res: Seq<SourceUnitElem>)
    requires
        pragmas_merged(res, es),
    ensures
        ({
            let k = res.len() - non_pragmas(es).len();
            &&& 0 <= k <= res.len()
            &&& forall|i: int| 0 <= i < k ==> #[trigger] res[i] is Pragma
            &&& res.subrange(k, res.len() as int) == non_pragmas(es)
        }),
{
    let sol = pragmas_in(es, PragmaClass::Version);
    let abi = pragmas_in(es, PragmaClass::AbiCoder);
    let exp = pragmas_in(es, PragmaClass::Experimental);
    let head = (if sol.len() > 0 { 1int } else { 0int }) + (if abi.len() > 0 { 1int } else { 0int });
    assert forall|i: int| 0 <= i < res.len() - non_pragmas(es).len() implies #[trigger] res[i] is Pragma by {
        if i >= head {
            assert(res.subrange(head, head + exp.len())[i - head] == res[i]);
        }
    }
}

/// The head of merged elements: at most one `solidity` and one `abicoder`
/// pragma.
proof fn lemma_merged_head(es: Seq<SourceUnitElem>, r1: Seq<SourceUnitElem>)
    requires
        pragmas_merged(r1, es),
    ensures
        ({
            let sol = pragmas_in(es, PragmaClass::Version);
            let abi = pragmas_in(es, PragmaClass::AbiCoder);
            let hs: int = if sol.len() > 0 { 1int } else { 0int };
            let ha: int = if abi.len() > 0 { 1int } else { 0int };
            let h = r1.subrange(0, hs + ha);
            &&& pragmas_in(h, PragmaClass::Version) == (if hs == 1 {
                seq![r1[0]->Pragma_0]
            } else {
                Seq::<PragmaDir>::empty()
            })
            &&& pragmas_in(h, PragmaClass::AbiCoder) == (if ha == 1 {
                seq![abi[newest_index(pragma_values(abi))]]
            } else {
                Seq::<PragmaDir>::empty()
            })
            &&& pragmas_in(h, PragmaClass::Experimental) == Seq::<PragmaDir>::empty()
            &&& non_pragmas(h) == Seq::<SourceUnitElem>::empty()
        }),
{
    let sol = pragmas_in(es, PragmaClass::Version);
    let abi = pragmas_in(es, PragmaClass::AbiCoder);
    let hs: int = if sol.len() > 0 { 1int } else { 0int };
    let ha: int = if abi.len() > 0 { 1int } else { 0int };
    let h = r1.subrange(0, hs + ha);
    lemma_pragmas_in_class(es, PragmaClass::AbiCoder);
    if ha == 1 {
        lemma_newest_index(pragma_values(abi));
    }
    reveal_with_fuel(Seq::filter_map, 3);
    reveal_with_fuel(Seq::filter, 3);
    if hs == 1 && ha == 1 {
        assert(h =~= seq![r1[0], r1[1]]);
        assert(h.drop_last() =~= seq![r1[0]]);
        assert(h.drop_last().drop_last() =~= Seq::<SourceUnitElem>::empty());
        assert(non_pragmas(h) =~= Seq::<SourceUnitElem>::empty());
    } else if hs == 1 {
        assert(h =~= seq![r1[0]]);
        assert(h.drop_last() =~= Seq::<SourceUnitElem>::empty());
        assert(non_pragmas(h) =~= Seq::<SourceUnitElem>::empty());
    } else if ha == 1 {
        assert(h =~= seq![r1[0]]);
        assert(h.drop_last() =~= Seq::<SourceUnitElem>::empty());
        assert(non_pragmas(h) =~= Seq::<SourceUnitElem>::empty());
    } else {
        assert(h =~= Seq::<SourceUnitElem>::empty());
        assert(non_pragmas(h) =~= Seq::<SourceUnitElem>::empty());
    }
}

/// The pragmas and other elements of merged elements, by kind.
proof fn lemma_merged_parts(es: Seq<SourceUnitElem>, r1: Seq<SourceUnitElem>)
    requires
        pragmas_merged(r1, es),
    ensures
        ({
            let sol = pragmas_in(es, PragmaClass::Version);
            let abi = pragmas_in(es, PragmaClass::AbiCoder);
            &&& pragmas_in(r1, PragmaClass::Version) == (if sol.len() > 0 {
                seq![r1[0]->Pragma_0]
            } else {
                Seq::<PragmaDir>::empty()
            })
            &&& pragmas_in(r1, PragmaClass::AbiCoder) == (if abi.len() > 0 {
                seq![abi[newest_index(pragma_values(abi))]]
            } else {
                Seq::<PragmaDir>::empty()
            })
            &&& pragmas_in(r1, PragmaClass::Experimental) == pragmas_in(es, PragmaClass::Experimental)
            &&& non_pragmas(r1) == non_pragmas(es)
        }),
{
    let sol = pragmas_in(es, PragmaClass::Version);
    let abi = pragmas_in(es, PragmaClass::AbiCoder);
    let exp = pragmas_in(es, PragmaClass::Experimental);
    let non = non_pragmas(es);
    let head = (if sol.len() > 0 { 1int } else { 0int }) + (if abi.len() > 0 { 1int } else { 0int });
    let h = r1.subrange(0, head);
    let w = r1.subrange(head, head + exp.len());
    let n = r1.subrange(head + exp.len(), r1.len() as int);
    assert(r1 =~= h + w + n);
    lemma_merged_head(es, r1);
    lemma_pragmas_in_class(es, PragmaClass::Experimental);
    lemma_wrapped_same(exp, PragmaClass::Experimental);
    lemma_wrapped_other(exp, PragmaClass::Version);
    lemma_wrapped_other(exp, PragmaClass::AbiCoder);
    lemma_non_pragmas_are_not_pragmas(es);
    lemma_pragmas_in_none(non, PragmaClass::Version);
    lemma_pragmas_in_none(non, PragmaClass::AbiCoder);
    lemma_pragmas_in_none(non, PragmaClass::Experimental);
    lemma_non_pragmas_none(non);
    lemma_pragmas_in_add(h + w, n, PragmaClass::Version);
    lemma_pragmas_in_add(h, w, PragmaClass::Version);
    lemma_pragmas_in_add(h + w, n, PragmaClass::AbiCoder);
    lemma_pragmas_in_add(h, w, PragmaClass::AbiCoder);
    lemma_pragmas_in_add(h + w, n, PragmaClass::Experimental);
    lemma_pragmas_in_add(h, w, PragmaClass::Experimental);
    Seq::filter_distributes_over_add(h + w, n, |e: SourceUnitElem| !(e is Pragma));
    Seq::filter_distributes_over_add(h, w, |e: SourceUnitElem| !(e is Pragma));
    assert(pragmas_in(r1, PragmaClass::Experimental) =~= exp);
    assert(non_pragmas(r1) =~= non);
    assert(pragmas_in(r1, PragmaClass::Version) =~= pragmas_in(h, PragmaClass::Version));
    assert(pragmas_in(r1, PragmaClass::AbiCoder) =~= pragmas_in(h, PragmaClass::AbiCoder));
}

/// Merging the pragmas of merged elements changes nothing: the same
/// elements come back, but for the string object of the `solidity` pragma,
/// which holds the same constraint.
pub proof fn lemma_merge_pragmas_idempotent(
    es: Seq<SourceUnitElem>,
    r1: Seq<SourceUnitElem>,
    r2: Seq<SourceUnitElem>,
)
    requires
        pragmas_merged(r1, es),
        pragmas_merged(r2, r1),
    ensures
        r2.len() == r1.len(),
        forall|i: int| 0 <= i < r1.len() ==> elems_alike(#[trigger] r2[i], r1[i]),
{
    let sol = pragmas_in(es, PragmaClass::Version);
    let abi = pragmas_in(es, PragmaClass::AbiCoder);
    let exp = pragmas_in(es, PragmaClass::Experimental);
    let head = (if sol.len() > 0 { 1int } else { 0int }) + (if abi.len() > 0 { 1int } else { 0int });
    lemma_merged_parts(es, r1);
    let sol2 = pragmas_in(r1, PragmaClass::Version);
    let abi2 = pragmas_in(r1, PragmaClass::AbiCoder);
    if abi.len() > 0 {
        assert(pragma_values(abi2) =~= seq![pragma_value(abi2[0].kind)]);
        assert(newest_index(pragma_values(abi2)) == 0);
    }
    if sol.len() > 0 {
        assert(pragma_values(sol2) =~= seq![pragma_value(sol2[0].kind)]);
    }
    assert forall|i: int| 0 <= i < r1.len() implies elems_alike(#[trigger] r2[i], r1[i]) by {
        if i >= head && i < head + exp.len() {
            assert(r2.subrange(head, head + exp.len())[i - head] == r2[i]);
            assert(r1.subrange(head, head + exp.len())[i - head] == r1[i]);
        } else if i >= head + exp.len() {
            assert(r2.subrange(head + exp.len(), r2.len() as int)[i - head - exp.len()] == r2[i]);
            assert(r1.subrange(head + exp.len(), r1.len() as int)[i - head - exp.len()] == r1[i]);
        }
    }
}

/// Text of a source unit element.
pub open spec fn elem_text(e: SourceUnitElem) -> Seq<char> {
    match e {
        SourceUnitElem::Pragma(p) => pragma_dir_text(p),
        SourceUnitElem::Import(i) => import_dir_text(i),
        SourceUnitElem::Using(u) => using_dir_text(u),
        SourceUnitElem::Error(d) => error_def_text(d),
        SourceUnitElem::Func(d) => func_def_text(d),
        SourceUnitElem::Var(d) => var_decl_text(d) + ";"@,
        SourceUnitElem::Struct(d) => struct_def_text(d),
        SourceUnitElem::Enum(d) => enum_def_text(d),
        SourceUnitElem::UserType(d) => type_def_text(d),
        SourceUnitElem::Contract(d) => contract_def_text(d),
    }
}

/// Whether an element can be printed: the inline assembly in the
/// functions it holds can.
pub open spec fn elem_printable(e: SourceUnitElem) -> bool {
    match e {
        SourceUnitElem::Func(f) => func_printable(f),
        SourceUnitElem::Contract(c) => forall|i: int|
            0 <= i < c.body@.len() ==> contract_elem_printable(#[trigger] c.body@[i]),
        _ => true,
    }
}

/// Text of a source unit: a comment naming the file, then the elements
/// separated by blank lines.
pub open spec fn source_unit_text(u: SourceUnit) -> Seq<char> {
    "// File: "@ + u.path@ + "\n"@ + if u.elems@.len() == 0 {
        "<Empty source unit>"@
    } else {
        seq_join(u.elems@.map_values(|e: SourceUnitElem| elem_text(e)), "\n\n"@)
    }
}

/// The name that an element defines, if any.
pub open spec fn elem_name(e: SourceUnitElem) -> Option<NameView> {
    match e {
        SourceUnitElem::Error(d) => Some(d.name@),
        SourceUnitElem::Func(d) => Some(d.name@),
        SourceUnitElem::Var(d) => Some(d.name@),
        SourceUnitElem::Contract(d) => Some(d.name@),
        SourceUnitElem::Struct(d) => Some(d.name@),
        SourceUnitElem::Enum(d) => Some(d.name@),
        SourceUnitElem::UserType(d) => Some(d.name@),
        _ => None,
    }
}

/// Element `i` defines a struct named `n`.
pub open spec fn is_struct_named(es: Seq<SourceUnitElem>, i: int, n: NameView) -> bool {
    es[i] matches SourceUnitElem::Struct(d) && d.name@ == n
}

/// Element `i` defines a contract named `n`.
pub open spec fn is_contract_named(es: Seq<SourceUnitElem>, i: int, n: NameView) -> bool {
    es[i] matches SourceUnitElem::Contract(d) && d.name@ == n
}

/// Element `i` defines a contract whose name has the base `b`.
pub open spec fn is_contract_based(es: Seq<SourceUnitElem>, i: int, b: Seq<char>) -> bool {
    es[i] matches SourceUnitElem::Contract(d) && d.name.base@ == b
}

/// The contracts among elements, each with its name, in order.
pub open spec fn contracts_of(es: Seq<SourceUnitElem>) -> Seq<(NameView, ContractDef)>
    decreases es.len(),
{
    if es.len() == 0 {
        Seq::empty()
    } else {
        let rest = contracts_of(es.drop_last());
        match es.last() {
            SourceUnitElem::Contract(c) => rest.push((c.name@, c)),
            _ => rest,
        }
    }
}

impl SourceUnitElem {
    /// The name that the element defines, if any.
    pub fn get_name(&self) -> (res: Option<Name>)
        ensures
            match res {
                Some(n) => elem_name(*self) == Some(n@),
                None => elem_name(*self) is None,
            },
    {
        match self {
            SourceUnitElem::Pragma(_) => None,
            SourceUnitElem::Import(_) => None,
            SourceUnitElem::Using(_) => None,
            SourceUnitElem::Error(d) => Some(d.name.clone()),
            SourceUnitElem::Func(d) => Some(d.name.clone()),
            SourceUnitElem::Var(d) => Some(d.name.clone()),
            SourceUnitElem::UserType(d) => Some(d.name.clone()),
            SourceUnitElem::Struct(d) => Some(d.name.clone()),
            SourceUnitElem::Enum(d) => Some(d.name.clone()),
            SourceUnitElem::Contract(d) => Some(d.name.clone()),
        }
    }

    /// The text that displaying the element produces; the inline assembly
    /// that it holds must be printable.
    pub fn to_string(&self) -> (res: String)
        requires
            elem_printable(*self),
        ensures
            res@ == elem_text(*self),
    {
        match self {
            SourceUnitElem::Pragma(p) => p.to_string(),
            SourceUnitElem::Import(i) => i.to_string(),
            SourceUnitElem::Using(u) => u.to_string(),
            SourceUnitElem::Error(d) => d.to_string(),
            SourceUnitElem::Func(d) => d.to_string(),
            SourceUnitElem::Var(d) => {
                let mut s = d.to_string();
                s.append(";");
                s
            },
            SourceUnitElem::Contract(d) => d.to_string(),
            SourceUnitElem::Struct(d) => d.to_string(),
            SourceUnitElem::Enum(d) => d.to_string(),
            SourceUnitElem::UserType(d) => d.to_string(),
        }
    }
}

impl SourceUnit {
    pub fn new(id: Option<isize>, path: String, elems: Vec<SourceUnitElem>) -> (res: Self)
        ensures
            res == (SourceUnit { id, path, elems }),
    {
        SourceUnit { id, path, elems }
    }

    /// The version constraints of the `solidity` pragmas, in order.
    pub fn get_solidity_pragma_versions(&self) -> (res: Vec<String>)
        ensures
            strings_view(res@) == pragma_values(pragmas_in(self.elems@, PragmaClass::Version)),
    {
        let ghost es = self.elems@;
        let mut versions: Vec<String> = Vec::new();
        let mut i: usize = 0;
        while i < self.elems.len()
            invariant
                es == self.elems@,
                i <= self.elems.len(),
                strings_view(versions@) == pragma_values(pragmas_in(es.take(i as int), PragmaClass::Version)),
            decreases self.elems.len() - i,
        {
            assert(es.take(i + 1).drop_last() =~= es.take(i as int));
            assert(es.take(i + 1).last() == es[i as int]);
            let ghost prev = strings_view(versions@);
            if let SourceUnitElem::Pragma(p) = &self.elems[i] {
                if let PragmaKind::Version(v) = &p.kind {
                    versions.push(v.clone());
                    assert(strings_view(versions@) =~= prev.push(v@));
                    assert(pragma_values(pragmas_in(es.take(i + 1), PragmaClass::Version)) =~= prev.push(v@));
                }
            }
            i = i + 1;
        }
        assert(es.take(i as int) =~= es);
        versions
    }

    /// The first struct defined with the given name.
    pub fn find_struct_def(&self, name: &Name) -> (res: Option<&StructDef>)
        ensures
            match res {
                Some(d) => exists|i: int|
                    0 <= i < self.elems@.len() && is_struct_named(self.elems@, i, name@)
                        && self.elems@[i] == SourceUnitElem::Struct(*d) && forall|j: int|
                        0 <= j < i ==> !is_struct_named(self.elems@, j, name@),
                None => forall|i: int|
                    0 <= i < self.elems@.len() ==> !is_struct_named(self.elems@, i, name@),
            },
    {
        let mut i: usize = 0;
        while i < self.elems.len()
            invariant
                i <= self.elems.len(),
                forall|j: int| 0 <= j < i ==> !is_struct_named(self.elems@, j, name@),
            decreases self.elems.len() - i,
        {
            if let SourceUnitElem::Struct(d) = &self.elems[i] {
                if d.name.same(name) {
                    assert(is_struct_named(self.elems@, i as int, name@));
                    return Some(d);
                }
            }
            i = i + 1;
        }
        None
    }

    /// The first contract defined with the given name.
    pub fn find_contract_def(&self, name: &Name) -> (res: Option<&ContractDef>)
        ensures
            match res {
                Some(d) => exists|i: int|
                    0 <= i < self.elems@.len() && is_contract_named(self.elems@, i, name@)
                        && self.elems@[i] == SourceUnitElem::Contract(*d) && forall|j: int|
                        0 <= j < i ==> !is_contract_named(self.elems@, j, name@),
                None => forall|i: int|
                    0 <= i < self.elems@.len() ==> !is_contract_named(self.elems@, i, name@),
            },
    {
        let mut i: usize = 0;
        while i < self.elems.len()
            invariant
                i <= self.elems.len(),
                forall|j: int| 0 <= j < i ==> !is_contract_named(self.elems@, j, name@),
            decreases self.elems.len() - i,
        {
            if let SourceUnitElem::Contract(d) = &self.elems[i] {
                if d.name.same(name) {
                    assert(is_contract_named(self.elems@, i as int, name@));
                    return Some(d);
                }
            }
            i = i + 1;
        }
        None
    }

    /// The first contract whose name has the base of the given name, the
    /// index left aside.
    pub fn find_contract_def_by_base_name(&self, name: &Name) -> (res: Option<&ContractDef>)
        ensures
            match res {
                Some(d) => exists|i: int|
                    0 <= i < self.elems@.len() && is_contract_based(self.elems@, i, name.base@)
                        && self.elems@[i] == SourceUnitElem::Contract(*d) && forall|j: int|
                        0 <= j < i ==> !is_contract_based(self.elems@, j, name.base@),
                None => forall|i: int|
                    0 <= i < self.elems@.len() ==> !is_contract_based(self.elems@, i, name.base@),
            },
    {
        let mut i: usize = 0;
        while i < self.elems.len()
            invariant
                i <= self.elems.len(),
                forall|j: int| 0 <= j < i ==> !is_contract_based(self.elems@, j, name.base@),
            decreases self.elems.len() - i,
        {
            if let SourceUnitElem::Contract(d) = &self.elems[i] {
                if d.name.base == name.base {
                    assert(is_contract_based(self.elems@, i as int, name.base@));
                    return Some(d);
                }
            }
            i = i + 1;
        }
        None
    }

    /// The first contract whose name has the base of the given name (the
    /// same lookup as `find_contract_def_by_base_name`).
    pub fn find_imported_source_unit(&self, name: &Name) -> (res: Option<&ContractDef>)
        ensures
            match res {
                Some(d) => exists|i: int|
                    0 <= i < self.elems@.len() && is_contract_based(self.elems@, i, name.base@)
                        && self.elems@[i] == SourceUnitElem::Contract(*d) && forall|j: int|
                        0 <= j < i ==> !is_contract_based(self.elems@, j, name.base@),
                None => forall|i: int|
                    0 <= i < self.elems@.len() ==> !is_contract_based(self.elems@, i, name.base@),
            },
    {
        self.find_contract_def_by_base_name(name)
    }

    /// The contracts of the source unit, each with its name, in order; a
    /// lookup by name takes the last pair with that name.
    pub fn construct_contract_map(&self) -> (res: Vec<(Name, &ContractDef)>)
        ensures
            res@.map_values(|p: (Name, &ContractDef)| (p.0@, *p.1)) == contracts_of(self.elems@),
    {
        let mut res: Vec<(Name, &ContractDef)> = Vec::new();
        let mut i: usize = 0;
        while i < self.elems.len()
            invariant
                i <= self.elems.len(),
                res@.map_values(|p: (Name, &ContractDef)| (p.0@, *p.1)) == contracts_of(
                    self.elems@.take(i as int),
                ),
            decreases self.elems.len() - i,
        {
            assert(self.elems@.take(i + 1).drop_last() =~= self.elems@.take(i as int));
            let ghost before = res@;
            if let SourceUnitElem::Contract(c) = &self.elems[i] {
                res.push((c.name.clone(), c));
                assert(res@.map_values(|p: (Name, &ContractDef)| (p.0@, *p.1)) =~= before.map_values(
                    |p: (Name, &ContractDef)| (p.0@, *p.1),
                ).push((c.name@, *c)));
            }
            i = i + 1;
        }
        assert(self.elems@.take(i as int) =~= self.elems@);
        res
    }

    /// The text that displaying the source unit produces; the inline
    /// assembly that it holds must be printable.
    pub fn to_string(&self) -> (res: String)
        requires
            forall|i: int| 0 <= i < self.elems@.len() ==> elem_printable(#[trigger] self.elems@[i]),
        ensures
            res@ == source_unit_text(*self),
    {
        let mut s = to_string("// File: ");
        s.append(self.path.as_str());
        s.append("\n");
        if self.elems.len() == 0 {
            s.append("<Empty source unit>");
            return s;
        }
        let mut parts: Vec<String> = Vec::new();
        let mut i: usize = 0;
        while i < self.elems.len()
            invariant
                i <= self.elems.len(),
                parts@.len() == i,
                forall|j: int| 0 <= j < self.elems@.len() ==> elem_printable(#[trigger] self.elems@[j]),
                forall|j: int| 0 <= j < i ==> #[trigger] parts@[j]@ == elem_text(self.elems@[j]),
            decreases self.elems.len() - i,
        {
            parts.push(self.elems[i].to_string());
            i = i + 1;
        }
        assert(strings_view(parts@) =~= self.elems@.map_values(|e: SourceUnitElem| elem_text(e)));
        s.append(join(&parts, "\n\n").as_str());
        s
    }
}

/// Merge the `pragma` directives of each source unit (see
/// `merge_pragma_elems`).
pub fn merge_pragmas(source_units: Vec<SourceUnit>) -> (res: Vec<SourceUnit>)
    ensures
        res@.len() == source_units@.len(),
        forall|i: int|
            0 <= i < res@.len() ==> (#[trigger] res@[i]).id == source_units@[i].id
                && res@[i].path == source_units@[i].path && pragmas_merged(
                res@[i].elems@,
                source_units@[i].elems@,
            ),
{
    let ghost orig = source_units@;
    let mut rest = source_units;
    let mut res: Vec<SourceUnit> = Vec::new();
    let ghost mut k: int = 0;
    while rest.len() > 0
        invariant
            0 <= k <= orig.len(),
            rest@ == orig.subrange(k, orig.len() as int),
            res@.len() == k,
            forall|i: int|
                0 <= i < k ==> (#[trigger] res@[i]).id == orig[i].id && res@[i].path == orig[i].path
                    && pragmas_merged(res@[i].elems@, orig[i].elems@),
        decreases rest.len(),
    {
        let u = rest.remove(0);
        assert(u == orig[k]);
        let SourceUnit { id, path, elems } = u;
        res.push(SourceUnit { id, path, elems: merge_pragma_elems(elems) });
        proof {
            k = k + 1;
        }
        assert(rest@ =~= orig.subrange(k, orig.len() as int));
    }
    res
}

} // verus!
