//! Elimination of import directives: the first import directive of a
//! source unit, with the elements around it, and the source units by path.
use vstd::prelude::*;
use crate::copies::{copy_import, copy_unit_elem, import_same, unit_elem_same};
use crate::directives::ImportDir;
use crate::expressions::Rewrite;
use crate::name::{Name, NameView, name_text};
use crate::rewriting::{SubstituteImportedExpr, unit_elems_rw};
use crate::source_unit::{SourceUnit, SourceUnitElem, elem_name};
use crate::substitution::keyed;
use crate::text::{str_eq, strings_view, to_string};

verus! {

/// The position of the first import directive among elements, if any.
pub open spec fn first_import(elems: Seq<SourceUnitElem>) -> Option<int>
    decreases elems.len(),
{
    if elems.len() == 0 {
        None
    } else {
        match first_import(elems.drop_last()) {
            Some(i) => Some(i),
            None => if elems.last() is Import {
                Some(elems.len() - 1)
            } else {
                None
            },
        }
    }
}

/// Where no element before `i` is an import directive and element `i` is
/// one, the first import directive is at `i`.
proof fn lemma_first_import_at(elems: Seq<SourceUnitElem>, i: int)
    requires
        0 <= i < elems.len(),
        first_import(elems.take(i)) is None,
        elems[i] is Import,
    ensures
        first_import(elems) == Some(i),
    decreases elems.len(),
{
    if i < elems.len() - 1 {
        assert(elems.drop_last().take(i) =~= elems.take(i));
        lemma_first_import_at(elems.drop_last(), i);
    } else {
        assert(elems.drop_last() =~= elems.take(i));
    }
}

/// The first import directive among elements, if any, with copies of the
/// other elements, in order.
pub fn extract_import(elems: &Vec<SourceUnitElem>) -> (res: Option<(ImportDir, Vec<SourceUnitElem>)>)
    ensures
        match first_import(elems@) {
            None => res is None,
            Some(i) => res matches Some((d, others)) && (elems@[i] matches SourceUnitElem::Import(d0)
                && import_same(d0, d)) && others@.len() == elems@.len() - 1 && (forall|j: int|
                0 <= j < i ==> unit_elem_same(elems@[j], others@[j])) && (forall|j: int|
                i < j < elems@.len() ==> unit_elem_same(elems@[j], others@[j - 1])),
        },
{
    let mut other_elems: Vec<SourceUnitElem> = Vec::new();
    let mut i: usize = 0;
    while i < elems.len()
        invariant
            i <= elems.len(),
            first_import(elems@.take(i as int)) is None,
            other_elems@.len() == i,
            forall|j: int| 0 <= j < i ==> unit_elem_same(elems@[j], other_elems@[j]),
        decreases elems.len() - i,
    {
        assert(elems@.take(i + 1).drop_last() =~= elems@.take(i as int));
        if let SourceUnitElem::Import(import) = &elems[i] {
            proof {
                lemma_first_import_at(elems@, i as int);
            }
            let k = i;
            let mut j: usize = i + 1;
            while j < elems.len()
                invariant
                    k < j <= elems.len(),
                    other_elems@.len() == j - 1,
                    forall|q: int| 0 <= q < k ==> unit_elem_same(elems@[q], other_elems@[q]),
                    forall|q: int| k < q < j ==> unit_elem_same(elems@[q], other_elems@[q - 1]),
                decreases elems.len() - j,
            {
                other_elems.push(copy_unit_elem(&elems[j]));
                j = j + 1;
            }
            return Some((copy_import(import), other_elems));
        }
        other_elems.push(copy_unit_elem(&elems[i]));
        i = i + 1;
    }
    assert(elems@.take(i as int) =~= elems@);
    None
}

/// The source units, each under its path, in order; a lookup by path takes
/// the last.
pub fn construct_source_unit_map(source_units: &Vec<SourceUnit>) -> (res: Vec<(String, &SourceUnit)>)
    ensures
        res@.len() == source_units@.len(),
        forall|i: int|
            0 <= i < source_units@.len() ==> res@[i].0@ == source_units@[i].path@ && *res@[i].1
                == source_units@[i],
{
    let mut res: Vec<(String, &SourceUnit)> = Vec::new();
    let mut i: usize = 0;
    while i < source_units.len()
        invariant
            i <= source_units.len(),
            res@.len() == i,
            forall|j: int|
                0 <= j < i ==> res@[j].0@ == source_units@[j].path@ && *res@[j].1 == source_units@[j],
        decreases source_units.len() - i,
    {
        res.push((source_units[i].path.clone(), &source_units[i]));
        i = i + 1;
    }
    res
}


//-------------------------------------------------------------------------
// Importing a source unit under an alias
//-------------------------------------------------------------------------

/// The texts under which the named elements of an imported source unit are
/// reached through its alias, `alias.base`, with their names, in order.
pub open spec fn alias_symbols(alias: Seq<char>, elems: Seq<SourceUnitElem>) -> Seq<
    (Seq<char>, NameView),
>
    decreases elems.len(),
{
    if elems.len() == 0 {
        Seq::empty()
    } else {
        let rest = alias_symbols(alias, elems.drop_last());
        match elem_name(elems.last()) {
            Some(n) => rest.push((alias + "."@ + n.base, n)),
            None => rest,
        }
    }
}

/// The key under which an imported element is recorded: the path of its
/// source unit, a colon and its name.
pub open spec fn imported_key(path: Seq<char>, n: NameView) -> Seq<char> {
    path + ":"@ + name_text(n)
}

/// The keys recorded and the elements imported after going through the
/// named elements of `elems`, of the source unit at `path`, with the keys
/// `seen` recorded before: an element whose key is not yet recorded is
/// imported, and its key recorded.
pub open spec fn fresh_imports(seen: Seq<Seq<char>>, path: Seq<char>, elems: Seq<SourceUnitElem>) -> (
    Seq<Seq<char>>,
    Seq<SourceUnitElem>,
)
    decreases elems.len(),
{
    if elems.len() == 0 {
        (seen, Seq::empty())
    } else {
        let (keys, out) = fresh_imports(seen, path, elems.drop_last());
        match elem_name(elems.last()) {
            Some(n) => if keys.contains(imported_key(path, n)) {
                (keys, out)
            } else {
                (keys.push(imported_key(path, n)), out.push(elems.last()))
            },
            None => (keys, out),
        }
    }
}

/// Whether a text is among the texts.
fn contains_text(v: &Vec<String>, s: &String) -> (res: bool)
    ensures
        res == strings_view(v@).contains(s@),
{
    let mut i: usize = 0;
    while i < v.len()
        invariant
            i <= v.len(),
            forall|j: int| 0 <= j < i ==> strings_view(v@)[j] != s@,
        decreases v.len() - i,
    {
        if str_eq(v[i].as_str(), s.as_str()) {
            assert(strings_view(v@)[i as int] == s@);
            return true;
        }
        i = i + 1;
    }
    false
}

/// The elements of a source unit imported under an alias, and the elements
/// that import it, with each access through the alias to a named element,
/// `alias.base`, replaced by the element's name. An element is imported
/// only if its key (see `imported_key`) is not yet among the recorded keys,
/// which then record it.
pub fn unfold_imported_source_unit(
    imported_elem_names: &mut Vec<String>,
    imported_source_unit: &SourceUnit,
    source_unit_alias: &str,
    target_elems: &[SourceUnitElem],
) -> (res: (Vec<SourceUnitElem>, Vec<SourceUnitElem>))
    ensures
        ({
            let (keys, out) = fresh_imports(
                strings_view(old(imported_elem_names)@),
                imported_source_unit.path@,
                imported_source_unit.elems@,
            );
            &&& strings_view(final(imported_elem_names)@) == keys
            &&& res.0@.len() == out.len()
            &&& forall|i: int| 0 <= i < out.len() ==> unit_elem_same(out[i], res.0@[i])
        }),
        unit_elems_rw(
            Rewrite::Members(alias_symbols(source_unit_alias@, imported_source_unit.elems@)),
            target_elems@,
            res.1@,
        ),
{
    let ghost seen = strings_view(imported_elem_names@);
    let ghost path = imported_source_unit.path@;
    let ghost elems = imported_source_unit.elems@;
    let mut imported_elems: Vec<SourceUnitElem> = Vec::new();
    let mut symbol_aliases: Vec<(String, Name)> = Vec::new();
    let mut i: usize = 0;
    while i < imported_source_unit.elems.len()
        invariant
            i <= imported_source_unit.elems.len(),
            elems == imported_source_unit.elems@,
            path == imported_source_unit.path@,
            keyed(symbol_aliases@) == alias_symbols(source_unit_alias@, elems.take(i as int)),
            strings_view(imported_elem_names@) == fresh_imports(seen, path, elems.take(i as int)).0,
            imported_elems@.len() == fresh_imports(seen, path, elems.take(i as int)).1.len(),
            forall|j: int|
                0 <= j < imported_elems@.len() ==> unit_elem_same(
                    fresh_imports(seen, path, elems.take(i as int)).1[j],
                    imported_elems@[j],
                ),
        decreases imported_source_unit.elems.len() - i,
    {
        let elem = &imported_source_unit.elems[i];
        assert(elems.take(i + 1).drop_last() =~= elems.take(i as int));
        assert(elems.take(i + 1).last() == *elem);
        match elem.get_name() {
            Some(elem_name) => {
                let mut key = to_string(source_unit_alias);
                key.append(".");
                key.append(elem_name.base.as_str());
                let mut imported_key = imported_source_unit.path.clone();
                imported_key.append(":");
                imported_key.append(elem_name.to_string().as_str());
                let ghost before = symbol_aliases@;
                symbol_aliases.push((key, elem_name));
                assert(keyed(symbol_aliases@) =~= keyed(before).push(keyed(symbol_aliases@).last()));
                if !contains_text(imported_elem_names, &imported_key) {
                    let ghost names_before = imported_elem_names@;
                    imported_elem_names.push(imported_key);
                    assert(strings_view(imported_elem_names@) =~= strings_view(names_before).push(
                        strings_view(imported_elem_names@).last(),
                    ));
                    imported_elems.push(copy_unit_elem(elem));
                }
            },
            None => {},
        }
        i = i + 1;
    }
    assert(elems.take(i as int) =~= elems);
    let substitutor = SubstituteImportedExpr::new(symbol_aliases);
    let substituted = substitutor.substitue(target_elems);
    (imported_elems, substituted)
}


/// The key of every named element is recorded after.
proof fn lemma_fresh_covers(seen: Seq<Seq<char>>, path: Seq<char>, elems: Seq<SourceUnitElem>, i: int)
    requires
        0 <= i < elems.len(),
        elem_name(elems[i]) is Some,
    ensures
        fresh_imports(seen, path, elems).0.contains(imported_key(path, elem_name(elems[i])->0)),
    decreases elems.len(),
{
    let keys = fresh_imports(seen, path, elems.drop_last()).0;
    let k = imported_key(path, elem_name(elems[i])->0);
    if i == elems.len() - 1 {
        if !keys.contains(k) {
            assert(keys.push(k)[keys.len() as int] == k);
        }
    } else {
        assert(elems.drop_last()[i] == elems[i]);
        lemma_fresh_covers(seen, path, elems.drop_last(), i);
        let j = choose|j: int| 0 <= j < keys.len() && keys[j] == k;
        match elem_name(elems.last()) {
            Some(n) => {
                assert(keys.push(imported_key(path, n))[j] == k);
            },
            None => {},
        }
    }
}

/// Where the key of every named element is recorded, nothing is imported
/// and no key recorded.
proof fn lemma_fresh_none(keys: Seq<Seq<char>>, path: Seq<char>, elems: Seq<SourceUnitElem>)
    requires
        forall|i: int|
            0 <= i < elems.len() && elem_name(elems[i]) is Some ==> keys.contains(
                imported_key(path, elem_name(elems[i])->0),
            ),
    ensures
        fresh_imports(keys, path, elems) == (keys, Seq::<SourceUnitElem>::empty()),
    decreases elems.len(),
{
    if elems.len() > 0 {
        let init = elems.drop_last();
        assert forall|i: int|
            0 <= i < init.len() && elem_name(init[i]) is Some implies keys.contains(
                imported_key(path, elem_name(init[i])->0),
            ) by {
            assert(init[i] == elems[i]);
        }
        lemma_fresh_none(keys, path, init);
        assert(elems.last() == elems[elems.len() - 1]);
    }
}

/// Unfolding a source unit imported under an alias a second time, with the
/// keys that the first unfolding recorded, imports no element and records
/// no new key.
pub proof fn lemma_unfold_again(seen: Seq<Seq<char>>, path: Seq<char>, elems: Seq<SourceUnitElem>)
    ensures
        ({
            let keys = fresh_imports(seen, path, elems).0;
            fresh_imports(keys, path, elems) == (keys, Seq::<SourceUnitElem>::empty())
        }),
{
    let keys = fresh_imports(seen, path, elems).0;
    assert forall|i: int|
        0 <= i < elems.len() && elem_name(elems[i]) is Some implies keys.contains(
            imported_key(path, elem_name(elems[i])->0),
        ) by {
        lemma_fresh_covers(seen, path, elems, i);
    }
    lemma_fresh_none(keys, path, elems);
}

} // verus!
