//! Linearization of contract inheritance (C3 linearization, the method
//! resolution order that Solidity uses).
use vstd::prelude::*;
use crate::name::{Name, NameView, names_view};

verus! {

/// The views of nested name vectors.
pub open spec fn lists_view(v: Seq<Vec<Name>>) -> Seq<Seq<NameView>> {
    v.map_values(|l: Vec<Name>| names_view(l@))
}

/// The total number of names in all lists.
pub open spec fn total_len(lists: Seq<Seq<NameView>>) -> nat
    decreases lists.len(),
{
    if lists.len() == 0 {
        0
    } else {
        total_len(lists.drop_last()) + lists.last().len()
    }
}

/// `h` can be taken next: no list holds it anywhere but at its head.
pub open spec fn can_merge(lists: Seq<Seq<NameView>>, h: NameView) -> bool {
    forall|i: int|
        0 <= i < lists.len() ==> (#[trigger] lists[i]).len() == 0 || lists[i][0] == h
            || !lists[i].contains(h)
}

/// The head of the first list, from list `k` on, that can be taken next.
pub open spec fn first_candidate(lists: Seq<Seq<NameView>>, k: int) -> Option<NameView>
    decreases lists.len() - k,
{
    if k < 0 || k >= lists.len() {
        Option::None
    } else if lists[k].len() > 0 && can_merge(lists, lists[k][0]) {
        Some(lists[k][0])
    } else {
        first_candidate(lists, k + 1)
    }
}

/// The lists after taking `h`: lists headed by `h` lose their head (and
/// are dropped when that empties them); the others stay.
pub open spec fn take_head(lists: Seq<Seq<NameView>>, h: NameView) -> Seq<Seq<NameView>>
    decreases lists.len(),
{
    if lists.len() == 0 {
        Seq::empty()
    } else {
        let rest = take_head(lists.drop_last(), h);
        let l = lists.last();
        if l.len() > 0 && l[0] == h {
            if l.len() > 1 {
                rest.push(l.drop_first())
            } else {
                rest
            }
        } else {
            rest.push(l)
        }
    }
}

/// A candidate is the head of one of the lists.
pub proof fn lemma_first_candidate_is_head(lists: Seq<Seq<NameView>>, k: int)
    requires
        0 <= k,
    ensures
        first_candidate(lists, k) matches Some(h) ==> exists|i: int|
            k <= i < lists.len() && #[trigger] lists[i].len() > 0 && lists[i][0] == h
                && can_merge(lists, h),
    decreases lists.len() - k,
{
    if k < lists.len() && !(lists[k].len() > 0 && can_merge(lists, lists[k][0])) {
        lemma_first_candidate_is_head(lists, k + 1);
    }
}

/// Taking a head that some list starts with removes at least one name.
pub proof fn lemma_take_head_shrinks(lists: Seq<Seq<NameView>>, h: NameView)
    ensures
        total_len(take_head(lists, h)) <= total_len(lists),
        (exists|i: int| 0 <= i < lists.len() && #[trigger] lists[i].len() > 0 && lists[i][0] == h)
            ==> total_len(take_head(lists, h)) < total_len(lists),
    decreases lists.len(),
{
    if lists.len() > 0 {
        let init = lists.drop_last();
        lemma_take_head_shrinks(init, h);
        let rest = take_head(init, h);
        let l = lists.last();
        if l.len() > 0 && l[0] == h {
            if l.len() > 1 {
                assert(rest.push(l.drop_first()).drop_last() =~= rest);
            }
        } else {
            assert(rest.push(l).drop_last() =~= rest);
            if exists|i: int| 0 <= i < lists.len() && #[trigger] lists[i].len() > 0 && lists[i][0]
                == h {
                let i = choose|i: int|
                    0 <= i < lists.len() && #[trigger] lists[i].len() > 0 && lists[i][0] == h;
                assert(i < lists.len() - 1);
                assert(init[i] == lists[i]);
            }
        }
    }
}

/// The C3 merge of `lists`, continuing a merged prefix `merged`: `None`
/// when no list head can be taken while lists remain.
pub open spec fn c3_merge(lists: Seq<Seq<NameView>>, merged: Seq<NameView>) -> Option<
    Seq<NameView>,
>
    decreases total_len(lists),
{
    if lists.len() == 0 {
        Some(merged)
    } else {
        match first_candidate(lists, 0) {
            Option::None => Option::None,
            Some(h) => {
                proof {
                    lemma_first_candidate_is_head(lists, 0);
                    lemma_take_head_shrinks(lists, h);
                }
                c3_merge(
                    take_head(lists, h),
                    if merged.contains(h) {
                        merged
                    } else {
                        merged.push(h)
                    },
                )
            },
        }
    }
}

/// Whether `h` is at most at the head of `l`.
fn head_or_absent(l: &Vec<Name>, h: &Name) -> (res: bool)
    ensures
        res == (names_view(l@).len() == 0 || names_view(l@)[0] == h@ || !names_view(
            l@,
        ).contains(h@)),
{
    let ghost lv = names_view(l@);
    if l.len() == 0 {
        return true;
    }
    if l[0].same(h) {
        return true;
    }
    let mut j: usize = 1;
    while j < l.len()
        invariant
            lv == names_view(l@),
            1 <= j <= l.len(),
            lv[0] != h@,
            forall|m: int| 0 <= m < j ==> lv[m] != h@,
        decreases l.len() - j,
    {
        if l[j].same(h) {
            assert(lv[j as int] == h@);
            return false;
        }
        j = j + 1;
    }
    true
}

/// Whether `h` can be taken next from `lists`.
fn can_merge_exec(lists: &Vec<Vec<Name>>, h: &Name) -> (res: bool)
    ensures
        res == can_merge(lists_view(lists@), h@),
{
    let ghost lv = lists_view(lists@);
    let mut i: usize = 0;
    while i < lists.len()
        invariant
            lv == lists_view(lists@),
            i <= lists.len(),
            forall|m: int|
                0 <= m < i ==> (#[trigger] lv[m]).len() == 0 || lv[m][0] == h@ || !lv[m].contains(
                    h@,
                ),
        decreases lists.len() - i,
    {
        if !head_or_absent(&lists[i], h) {
            assert(lv[i as int] == names_view(lists@[i as int]@));
            return false;
        }
        i = i + 1;
    }
    true
}

/// A copy of a list of names.
fn copy_names(l: &Vec<Name>, from: usize) -> (res: Vec<Name>)
    requires
        from <= l.len(),
    ensures
        names_view(res@) == names_view(l@).subrange(from as int, l@.len() as int),
{
    let mut res: Vec<Name> = Vec::new();
    let mut j = from;
    while j < l.len()
        invariant
            from <= j <= l.len(),
            names_view(res@) == names_view(l@).subrange(from as int, j as int),
        decreases l.len() - j,
    {
        let c = l[j].clone();
        assert(c@ == names_view(l@)[j as int]);
        let ghost prev = names_view(res@);
        res.push(c);
        assert(names_view(res@) =~= prev.push(c@));
        j = j + 1;
        assert(prev.push(c@) =~= names_view(l@).subrange(from as int, j as int));
    }
    res
}

/// Whether a name occurs in a list.
fn contains_name(l: &Vec<Name>, h: &Name) -> (res: bool)
    ensures
        res == names_view(l@).contains(h@),
{
    let ghost lv = names_view(l@);
    let mut j: usize = 0;
    while j < l.len()
        invariant
            lv == names_view(l@),
            j <= l.len(),
            forall|m: int| 0 <= m < j ==> lv[m] != h@,
        decreases l.len() - j,
    {
        if l[j].same(h) {
            assert(lv[j as int] == h@);
            return true;
        }
        j = j + 1;
    }
    false
}

/// The head of the first list that can be taken next.
fn find_candidate(working: &Vec<Vec<Name>>) -> (res: Option<Name>)
    ensures
        first_candidate(lists_view(working@), 0) matches Some(h) ==> (res matches Some(r) && r@
            == h),
        first_candidate(lists_view(working@), 0) is None ==> res is None,
{
    let ghost lv = lists_view(working@);
    let mut k: usize = 0;
    while k < working.len()
        invariant
            lv == lists_view(working@),
            k <= working.len(),
            first_candidate(lv, 0) == first_candidate(lv, k as int),
        decreases working.len() - k,
    {
        assert(lv[k as int] == names_view(working@[k as int]@));
        if working[k].len() > 0 && can_merge_exec(working, &working[k][0]) {
            return Some(working[k][0].clone());
        }
        k = k + 1;
    }
    None
}

/// Merge base contract lists based on the C3 linearization algorithm.
///
/// The merge must not get stuck: while lists remain, some list head must
/// not occur in the tail of any list.
pub fn merge(contracts_lists: &Vec<Vec<Name>>) -> (res: Vec<Name>)
    requires
        c3_merge(lists_view(contracts_lists@), Seq::empty()) is Some,
    ensures
        names_view(res@) == c3_merge(lists_view(contracts_lists@), Seq::empty())->0,
{
    let mut working: Vec<Vec<Name>> = Vec::new();
    let mut i: usize = 0;
    while i < contracts_lists.len()
        invariant
            i <= contracts_lists.len(),
            lists_view(working@) == lists_view(contracts_lists@).take(i as int),
        decreases contracts_lists.len() - i,
    {
        let c = copy_names(&contracts_lists[i], 0);
        assert(names_view(contracts_lists@[i as int]@).subrange(
            0,
            contracts_lists@[i as int]@.len() as int,
        ) =~= names_view(contracts_lists@[i as int]@));
        let ghost prev = lists_view(working@);
        working.push(c);
        assert(lists_view(working@) =~= prev.push(names_view(contracts_lists@[i as int]@)));
        i = i + 1;
        assert(lists_view(working@) =~= lists_view(contracts_lists@).take(i as int));
    }
    assert(lists_view(contracts_lists@).take(i as int) =~= lists_view(contracts_lists@));
    let mut merged: Vec<Name> = Vec::new();
    assert(names_view(merged@) =~= Seq::<NameView>::empty());
    while working.len() > 0
        invariant
            c3_merge(lists_view(working@), names_view(merged@)) == c3_merge(
                lists_view(contracts_lists@),
                Seq::empty(),
            ),
            c3_merge(lists_view(contracts_lists@), Seq::empty()) is Some,
        decreases total_len(lists_view(working@)),
    {
        let ghost lv = lists_view(working@);
        // Find the contract name to be merged.
        let h = match find_candidate(&working) {
            Some(h) => h,
            None => {
                assert(false);
                return merged;
            },
        };
        assert(first_candidate(lv, 0) == Some(h@));
        // Take it from the lists.
        let mut next: Vec<Vec<Name>> = Vec::new();
        let mut j: usize = 0;
        while j < working.len()
            invariant
                lv == lists_view(working@),
                j <= working.len(),
                lists_view(next@) == take_head(lv.take(j as int), h@),
            decreases working.len() - j,
        {
            assert(lv.take(j + 1).drop_last() =~= lv.take(j as int));
            let l = &working[j];
            if l.len() > 0 && l[0].same(&h) {
                if l.len() > 1 {
                    next.push(copy_names(l, 1));
                    assert(names_view(l@).subrange(1, l@.len() as int) =~= names_view(
                        l@,
                    ).drop_first());
                }
            } else {
                next.push(copy_names(l, 0));
                assert(names_view(l@).subrange(0, l@.len() as int) =~= names_view(l@));
            }
            j = j + 1;
            assert(lists_view(next@) =~= take_head(lv.take(j as int), h@));
        }
        assert(lv.take(working.len() as int) =~= lv);
        let ghost old_merged = names_view(merged@);
        if !contains_name(&merged, &h) {
            merged.push(h);
            assert(names_view(merged@) =~= old_merged.push(h@));
        }
        proof {
            lemma_first_candidate_is_head(lv, 0);
            lemma_take_head_shrinks(lv, h@);
        }
        working = next;
    }
    assert(c3_merge(lists_view(working@), names_view(merged@)) == Some(names_view(merged@)));
    merged
}


/// The names that occur in some list.
pub open spec fn all_names(lists: Seq<Seq<NameView>>) -> Set<NameView> {
    Set::new(|x: NameView| exists|i: int| 0 <= i < lists.len() && #[trigger] lists[i].contains(x))
}

proof fn lemma_take_head_names(lists: Seq<Seq<NameView>>, h: NameView)
    ensures
        all_names(take_head(lists, h)).subset_of(all_names(lists)),
        all_names(lists).subset_of(all_names(take_head(lists, h)).insert(h)),
    decreases lists.len(),
{
    if lists.len() > 0 {
        let init = lists.drop_last();
        let l = lists.last();
        let rest = take_head(init, h);
        lemma_take_head_names(init, h);
        let t = take_head(lists, h);
        assert forall|x: NameView| all_names(t).contains(x) implies all_names(lists).contains(x) by {
            let i = choose|i: int| 0 <= i < t.len() && #[trigger] t[i].contains(x);
            if i < rest.len() {
                assert(all_names(rest).contains(x));
                let i2 = choose|i2: int| 0 <= i2 < init.len() && #[trigger] init[i2].contains(x);
                assert(lists[i2] == init[i2]);
            } else {
                let k = choose|k: int| 0 <= k < t[i].len() && t[i][k] == x;
                if l.len() > 0 && l[0] == h {
                    assert(t[i] == l.drop_first());
                    assert(l[k + 1] == x);
                    assert(lists[lists.len() - 1].contains(x));
                } else {
                    assert(t[i] == l);
                    assert(lists[lists.len() - 1].contains(x));
                }
            }
        }
        assert forall|x: NameView| all_names(lists).contains(x) implies all_names(t).insert(
            h,
        ).contains(x) by {
            let i = choose|i: int| 0 <= i < lists.len() && #[trigger] lists[i].contains(x);
            if x != h {
                if i < init.len() {
                    assert(init[i] == lists[i]);
                    assert(all_names(init).contains(x));
                    assert(all_names(rest).contains(x));
                    let i2 = choose|i2: int| 0 <= i2 < rest.len() && #[trigger] rest[i2].contains(x);
                    assert(t[i2] == rest[i2]);
                } else {
                    let k = choose|k: int| 0 <= k < l.len() && l[k] == x;
                    if l.len() > 0 && l[0] == h {
                        assert(k > 0);
                        assert(l.drop_first()[k - 1] == x);
                        assert(t[t.len() - 1] == l.drop_first());
                        assert(t[t.len() - 1].contains(x));
                    } else {
                        assert(t[t.len() - 1] == l);
                        assert(t[t.len() - 1].contains(x));
                    }
                }
            }
        }
    }
}

/// Whether a sequence of names holds no name twice.
pub open spec fn no_duplicates(s: Seq<NameView>) -> bool {
    forall|i: int, j: int| 0 <= i < j < s.len() ==> s[i] != s[j]
}

/// Laws of the C3 merge: continuing a merged prefix without duplicates,
/// a successful merge gives a list without duplicates that holds exactly
/// the names of the prefix and of the lists.
pub proof fn lemma_c3_merge_laws(lists: Seq<Seq<NameView>>, merged: Seq<NameView>)
    requires
        no_duplicates(merged),
        c3_merge(lists, merged) is Some,
    ensures
        no_duplicates(c3_merge(lists, merged)->0),
        (c3_merge(lists, merged)->0).to_set() == merged.to_set().union(all_names(lists)),
    decreases total_len(lists),
{
    if lists.len() == 0 {
        assert(all_names(lists) =~= Set::<NameView>::empty());
        assert(merged.to_set().union(all_names(lists)) =~= merged.to_set());
    } else {
        let h = first_candidate(lists, 0)->0;
        lemma_first_candidate_is_head(lists, 0);
        lemma_take_head_shrinks(lists, h);
        lemma_take_head_names(lists, h);
        let m2 = if merged.contains(h) {
            merged
        } else {
            merged.push(h)
        };
        assert(no_duplicates(m2));
        lemma_c3_merge_laws(take_head(lists, h), m2);
        let i = choose|i: int|
            0 <= i < lists.len() && #[trigger] lists[i].len() > 0 && lists[i][0] == h
                && can_merge(lists, h);
        assert(lists[i].contains(h));
        assert(all_names(lists).contains(h));
        assert forall|x: NameView| m2.to_set().contains(x) <==> merged.to_set().insert(
            h,
        ).contains(x) by {
            if !merged.contains(h) {
                if m2.contains(x) {
                    let k = choose|k: int| 0 <= k < m2.len() && m2[k] == x;
                    if k < merged.len() {
                        assert(merged[k] == x);
                    }
                }
                if merged.contains(x) {
                    let k = choose|k: int| 0 <= k < merged.len() && merged[k] == x;
                    assert(m2[k] == x);
                }
                assert(m2[m2.len() - 1] == h);
            }
        }
        assert(m2.to_set() =~= merged.to_set().insert(h));
        assert(m2.to_set().union(all_names(take_head(lists, h))) =~= merged.to_set().union(
            all_names(lists),
        ));
    }
}

/// The C3 merge of lists, started from an empty prefix, holds every name of
/// the lists exactly once and nothing else.
pub proof fn lemma_merge_holds_each_name_once(lists: Seq<Seq<NameView>>)
    requires
        c3_merge(lists, Seq::empty()) is Some,
    ensures
        no_duplicates(c3_merge(lists, Seq::empty())->0),
        (c3_merge(lists, Seq::empty())->0).to_set() == all_names(lists),
{
    lemma_c3_merge_laws(lists, Seq::empty());
    assert(Seq::<NameView>::empty().to_set().union(all_names(lists)) =~= all_names(lists));
}


/// The inheritance map as (contract, base contracts) pairs of views.
pub open spec fn pairs_view(m: Seq<(Name, Vec<Name>)>) -> Seq<(NameView, Seq<NameView>)> {
    m.map_values(|p: (Name, Vec<Name>)| (p.0@, names_view(p.1@)))
}

/// The view of a linearization that may be known or not.
pub open spec fn opt_names_view(o: Option<Vec<Name>>) -> Option<Seq<NameView>> {
    match o {
        Some(v) => Some(names_view(v@)),
        Option::None => Option::None,
    }
}

/// The views of the linearizations known so far, one per contract.
pub open spec fn lin_view(lin: Seq<Option<Vec<Name>>>) -> Seq<Option<Seq<NameView>>> {
    lin.map_values(|o: Option<Vec<Name>>| opt_names_view(o))
}

/// No contract occurs twice as a key of the inheritance map.
pub open spec fn distinct_keys(ps: Seq<(NameView, Seq<NameView>)>) -> bool {
    forall|i: int, j: int| 0 <= i < j < ps.len() ==> ps[i].0 != ps[j].0
}

/// Contract `i` is named `c` and its linearization is known in `lin`.
pub open spec fn known_at(
    ps: Seq<(NameView, Seq<NameView>)>,
    lin: Seq<Option<Seq<NameView>>>,
    c: NameView,
    i: int,
) -> bool {
    0 <= i < ps.len() && ps[i].0 == c && lin[i] is Some
}

/// The linearization of the contract named `c` is known in `lin`.
pub open spec fn is_known(
    ps: Seq<(NameView, Seq<NameView>)>,
    lin: Seq<Option<Seq<NameView>>>,
    c: NameView,
) -> bool {
    exists|i: int| #[trigger] known_at(ps, lin, c, i)
}

/// The known linearization of the contract named `c`.
pub open spec fn known_lin(
    ps: Seq<(NameView, Seq<NameView>)>,
    lin: Seq<Option<Seq<NameView>>>,
    c: NameView,
) -> Seq<NameView> {
    lin[choose|i: int| #[trigger] known_at(ps, lin, c, i)]->0
}

/// All base contracts of contract `i` have a known linearization.
pub open spec fn bases_known(
    ps: Seq<(NameView, Seq<NameView>)>,
    lin: Seq<Option<Seq<NameView>>>,
    i: int,
) -> bool {
    forall|k: int| 0 <= k < ps[i].1.len() ==> is_known(ps, lin, #[trigger] ps[i].1[k])
}

/// The lists that the C3 merge takes for contract `i`: the contract alone,
/// then the linearizations of its bases, the last base first.
pub open spec fn merge_input(
    ps: Seq<(NameView, Seq<NameView>)>,
    lin: Seq<Option<Seq<NameView>>>,
    i: int,
) -> Seq<Seq<NameView>> {
    let bases = ps[i].1;
    seq![seq![ps[i].0]] + Seq::new(
        bases.len(),
        |k: int| known_lin(ps, lin, bases[bases.len() - 1 - k]),
    )
}

/// One contract in one round: a known linearization stays; a contract whose
/// bases are all known gets the C3 merge; the others stay unknown.
pub open spec fn lin_step(
    ps: Seq<(NameView, Seq<NameView>)>,
    lin: Seq<Option<Seq<NameView>>>,
    i: int,
) -> Option<Seq<NameView>> {
    if lin[i] is Some {
        lin[i]
    } else if bases_known(ps, lin, i) {
        c3_merge(merge_input(ps, lin, i), Seq::empty())
    } else {
        Option::None
    }
}

/// One round over all contracts.
pub open spec fn lin_round(
    ps: Seq<(NameView, Seq<NameView>)>,
    lin: Seq<Option<Seq<NameView>>>,
) -> Seq<Option<Seq<NameView>>> {
    Seq::new(ps.len(), |i: int| lin_step(ps, lin, i))
}

/// The linearizations known after `k` rounds, starting from none.
pub open spec fn lin_rounds(ps: Seq<(NameView, Seq<NameView>)>, k: nat) -> Seq<
    Option<Seq<NameView>>,
>
    decreases k,
{
    if k == 0 {
        Seq::new(ps.len(), |i: int| Option::<Seq<NameView>>::None)
    } else {
        lin_round(ps, lin_rounds(ps, (k - 1) as nat))
    }
}

/// The linearization of every contract, `None` for a contract that some
/// missing or cyclic base keeps from being linearized.
pub open spec fn linearization(ps: Seq<(NameView, Seq<NameView>)>) -> Seq<Option<Seq<NameView>>> {
    lin_rounds(ps, ps.len())
}

/// No round meets a contract whose bases are all linearized and whose C3
/// merge gets stuck.
pub open spec fn never_stuck(ps: Seq<(NameView, Seq<NameView>)>) -> bool {
    forall|k: nat, i: int|
        0 <= i < ps.len() && (#[trigger] lin_rounds(ps, k)[i]) is None && bases_known(
            ps,
            lin_rounds(ps, k),
            i,
        ) ==> c3_merge(merge_input(ps, lin_rounds(ps, k), i), Seq::empty()) is Some
}

/// The (contract, linearization) pairs of the first `n` contracts whose
/// linearization is known, in map order.
pub open spec fn collect_known(
    ps: Seq<(NameView, Seq<NameView>)>,
    lin: Seq<Option<Seq<NameView>>>,
    n: nat,
) -> Seq<(NameView, Seq<NameView>)>
    decreases n,
{
    if n == 0 {
        Seq::empty()
    } else {
        let rest = collect_known(ps, lin, (n - 1) as nat);
        match lin[n - 1] {
            Some(l) => rest.push((ps[n - 1].0, l)),
            Option::None => rest,
        }
    }
}

/// The linearized contracts with their linearizations.
pub open spec fn linearized_pairs(ps: Seq<(NameView, Seq<NameView>)>) -> Seq<
    (NameView, Seq<NameView>),
> {
    collect_known(ps, linearization(ps), ps.len())
}

/// The number of known linearizations.
pub open spec fn count_known(s: Seq<Option<Seq<NameView>>>) -> nat
    decreases s.len(),
{
    if s.len() == 0 {
        0
    } else {
        count_known(s.drop_last()) + if s.last() is Some {
            1nat
        } else {
            0nat
        }
    }
}

proof fn lemma_count_bounded(s: Seq<Option<Seq<NameView>>>)
    ensures
        count_known(s) <= s.len(),
    decreases s.len(),
{
    if s.len() > 0 {
        lemma_count_bounded(s.drop_last());
    }
}

proof fn lemma_count_grows(a: Seq<Option<Seq<NameView>>>, b: Seq<Option<Seq<NameView>>>)
    requires
        a.len() == b.len(),
        forall|i: int| 0 <= i < a.len() && a[i] is Some ==> #[trigger] b[i] is Some,
    ensures
        count_known(a) <= count_known(b),
        (exists|i: int| 0 <= i < a.len() && a[i] is None && #[trigger] b[i] is Some) ==> count_known(a)
            < count_known(b),
    decreases a.len(),
{
    if a.len() > 0 {
        let a2 = a.drop_last();
        let b2 = b.drop_last();
        assert forall|i: int| 0 <= i < a2.len() && a2[i] is Some implies #[trigger] b2[i] is Some by {
            assert(a[i] is Some);
        }
        lemma_count_grows(a2, b2);
        if exists|i: int| 0 <= i < a.len() && a[i] is None && #[trigger] b[i] is Some {
            let i = choose|i: int| 0 <= i < a.len() && a[i] is None && #[trigger] b[i] is Some;
            if i < a.len() - 1 {
                assert(a2[i] is None && b2[i] is Some);
            }
        }
        if a.last() is Some {
            assert(b[b.len() - 1] is Some);
        }
    }
}

proof fn lemma_rounds_len(ps: Seq<(NameView, Seq<NameView>)>, k: nat)
    ensures
        lin_rounds(ps, k).len() == ps.len(),
    decreases k,
{
    if k > 0 {
        lemma_rounds_len(ps, (k - 1) as nat);
    }
}

/// A round keeps what is known and grows the count; a round that changes
/// something makes a linearization known.
proof fn lemma_round_count(ps: Seq<(NameView, Seq<NameView>)>, lin: Seq<Option<Seq<NameView>>>)
    requires
        lin.len() == ps.len(),
    ensures
        count_known(lin) <= count_known(lin_round(ps, lin)),
        lin_round(ps, lin) != lin ==> count_known(lin) < count_known(lin_round(ps, lin)),
{
    let r = lin_round(ps, lin);
    assert forall|i: int| 0 <= i < lin.len() && lin[i] is Some implies #[trigger] r[i] is Some by {}
    if r != lin {
        if forall|i: int| 0 <= i < lin.len() ==> r[i] == lin[i] {
            assert(r =~= lin);
        }
        let i = choose|i: int| 0 <= i < lin.len() && r[i] != lin[i];
        assert(lin[i] is None && r[i] is Some);
    }
    lemma_count_grows(lin, r);
}

proof fn lemma_fixed_stays(ps: Seq<(NameView, Seq<NameView>)>, k: nat, m: nat)
    requires
        k <= m,
        lin_round(ps, lin_rounds(ps, k)) == lin_rounds(ps, k),
    ensures
        lin_rounds(ps, m) == lin_rounds(ps, k),
    decreases m,
{
    if m > k {
        lemma_fixed_stays(ps, k, (m - 1) as nat);
    }
}

proof fn lemma_unsettled_count(ps: Seq<(NameView, Seq<NameView>)>, k: nat)
    requires
        lin_round(ps, lin_rounds(ps, k)) != lin_rounds(ps, k),
    ensures
        count_known(lin_rounds(ps, k)) >= k,
    decreases k,
{
    if k > 0 {
        let p = lin_rounds(ps, (k - 1) as nat);
        lemma_rounds_len(ps, (k - 1) as nat);
        lemma_unsettled_count(ps, (k - 1) as nat);
        lemma_round_count(ps, p);
    }
}

/// After as many rounds as there are contracts, no round changes anything:
/// the linearization is settled.
pub proof fn lemma_linearization_settled(ps: Seq<(NameView, Seq<NameView>)>)
    ensures
        lin_round(ps, linearization(ps)) == linearization(ps),
        linearization(ps).len() == ps.len(),
{
    let n = ps.len();
    lemma_rounds_len(ps, n);
    if lin_round(ps, linearization(ps)) != linearization(ps) {
        lemma_unsettled_count(ps, n);
        lemma_round_count(ps, linearization(ps));
        lemma_rounds_len(ps, n + 1);
        lemma_count_bounded(lin_round(ps, linearization(ps)));
    }
}

proof fn lemma_known_lin_at(
    ps: Seq<(NameView, Seq<NameView>)>,
    lin: Seq<Option<Seq<NameView>>>,
    c: NameView,
    j: int,
)
    requires
        distinct_keys(ps),
        known_at(ps, lin, c, j),
    ensures
        is_known(ps, lin, c),
        known_lin(ps, lin, c) == lin[j]->0,
{
    let j2 = choose|i: int| #[trigger] known_at(ps, lin, c, i);
    assert(known_at(ps, lin, c, j2));
    if j2 < j {
        assert(ps[j2].0 != ps[j].0);
    } else if j < j2 {
        assert(ps[j].0 != ps[j2].0);
    }
}

/// The index of the contract named `b` if its linearization is known.
fn find_known(im: &Vec<(Name, Vec<Name>)>, lin: &Vec<Option<Vec<Name>>>, b: &Name) -> (res: Option<
    usize,
>)
    requires
        lin.len() == im.len(),
    ensures
        match res {
            Some(j) => known_at(pairs_view(im@), lin_view(lin@), b@, j as int),
            Option::None => !is_known(pairs_view(im@), lin_view(lin@), b@),
        },
{
    let ghost ps = pairs_view(im@);
    let ghost lv = lin_view(lin@);
    let mut j: usize = 0;
    while j < im.len()
        invariant
            ps == pairs_view(im@),
            lv == lin_view(lin@),
            lin.len() == im.len(),
            j <= im.len(),
            forall|m: int| 0 <= m < j ==> !#[trigger] known_at(ps, lv, b@, m),
        decreases im.len() - j,
    {
        assert(ps[j as int].0 == im@[j as int].0@);
        assert(lv[j as int] == opt_names_view(lin@[j as int]));
        if im[j].0.same(b) && lin[j].is_some() {
            return Some(j);
        }
        j = j + 1;
    }
    proof {
        if is_known(ps, lv, b@) {
            let m = choose|m: int| #[trigger] known_at(ps, lv, b@, m);
            assert(known_at(ps, lv, b@, m));
        }
    }
    Option::None
}

/// One contract in one round (see `lin_step`).
fn lin_step_exec(im: &Vec<(Name, Vec<Name>)>, lin: &Vec<Option<Vec<Name>>>, i: usize) -> (res:
    Option<Vec<Name>>)
    requires
        lin.len() == im.len(),
        i < im.len(),
        distinct_keys(pairs_view(im@)),
        lin_view(lin@)[i as int] is None && bases_known(pairs_view(im@), lin_view(lin@), i as int)
            ==> c3_merge(merge_input(pairs_view(im@), lin_view(lin@), i as int), Seq::empty()) is Some,
    ensures
        opt_names_view(res) == lin_step(pairs_view(im@), lin_view(lin@), i as int),
{
    let ghost ps = pairs_view(im@);
    let ghost lv = lin_view(lin@);
    assert(lv[i as int] == opt_names_view(lin@[i as int]));
    if let Some(l) = &lin[i] {
        let c = copy_names(l, 0);
        assert(names_view(l@).subrange(0, l@.len() as int) =~= names_view(l@));
        return Some(c);
    }
    let bases = &im[i].1;
    let ghost bv = ps[i as int].1;
    assert(bv == names_view(bases@));
    assert(lv[i as int] is None);
    let mut first: Vec<Name> = Vec::new();
    let key = im[i].0.clone();
    assert(key@ == ps[i as int].0);
    first.push(key);
    assert(names_view(first@) =~= seq![ps[i as int].0]);
    let mut lists: Vec<Vec<Name>> = Vec::new();
    lists.push(first);
    let nb = bases.len();
    assert(lists_view(lists@) =~= seq![seq![ps[i as int].0]]);
    assert(merge_input(ps, lv, i as int).take(1) =~= seq![seq![ps[i as int].0]]);
    let mut k: usize = 0;
    while k < nb
        invariant
            ps == pairs_view(im@),
            lv == lin_view(lin@),
            lin.len() == im.len(),
            i < im.len(),
            distinct_keys(ps),
            bv == ps[i as int].1,
            bv == names_view(bases@),
            nb == bases.len(),
            k <= nb,
            lv[i as int] is None,
            lists_view(lists@) == merge_input(ps, lv, i as int).take(k + 1),
            forall|m: int| nb - k <= m < nb ==> is_known(ps, lv, #[trigger] bv[m]),
        decreases nb - k,
    {
        let b = &bases[nb - 1 - k];
        assert(b@ == bv[nb - 1 - k]);
        match find_known(im, lin, b) {
            Option::None => {
                assert(!is_known(ps, lv, ps[i as int].1[nb - 1 - k]));
                assert(!bases_known(ps, lv, i as int));
                assert(lin_step(ps, lv, i as int) is None);
                return Option::None;
            },
            Some(j) => {
                proof {
                    lemma_known_lin_at(ps, lv, b@, j as int);
                }
                assert(lv[j as int] == opt_names_view(lin@[j as int]));
                if let Some(l) = &lin[j] {
                    let c = copy_names(l, 0);
                    assert(names_view(l@).subrange(0, l@.len() as int) =~= names_view(l@));
                    let ghost prev = lists_view(lists@);
                    lists.push(c);
                    assert(lists_view(lists@) =~= prev.push(names_view(l@)));
                    assert(merge_input(ps, lv, i as int).take(k + 2) =~= merge_input(
                        ps,
                        lv,
                        i as int,
                    ).take(k + 1).push(known_lin(ps, lv, bv[nb - 1 - k])));
                }
            },
        }
        k = k + 1;
    }
    assert forall|m: int| 0 <= m < bv.len() implies is_known(ps, lv, #[trigger] bv[m]) by {}
    assert(bases_known(ps, lv, i as int));
    assert(merge_input(ps, lv, i as int).take(nb + 1) =~= merge_input(ps, lv, i as int));
    let merged = merge(&lists);
    Some(merged)
}

/// One round over all contracts; also says whether it made some
/// linearization known.
fn lin_round_exec(im: &Vec<(Name, Vec<Name>)>, lin: &Vec<Option<Vec<Name>>>, Ghost(r): Ghost<nat>) -> (res: (
    Vec<Option<Vec<Name>>>,
    bool,
))
    requires
        lin.len() == im.len(),
        distinct_keys(pairs_view(im@)),
        never_stuck(pairs_view(im@)),
        lin_view(lin@) == lin_rounds(pairs_view(im@), r),
    ensures
        res.0.len() == im.len(),
        lin_view(res.0@) == lin_round(pairs_view(im@), lin_view(lin@)),
        res.1 <==> lin_round(pairs_view(im@), lin_view(lin@)) != lin_view(lin@),
{
    let ghost ps = pairs_view(im@);
    let ghost lv = lin_view(lin@);
    let n = im.len();
    let mut next: Vec<Option<Vec<Name>>> = Vec::new();
    let mut changed = false;
    let mut i: usize = 0;
    while i < n
        invariant
            ps == pairs_view(im@),
            n == im.len(),
            lin.len() == n,
            distinct_keys(ps),
            never_stuck(ps),
            lv == lin_view(lin@),
            lv == lin_rounds(ps, r),
            i <= n,
            next.len() == i,
            lin_view(next@) == lin_round(ps, lv).take(i as int),
            changed ==> lin_round(ps, lv) != lv,
            !changed ==> forall|m: int| 0 <= m < i ==> #[trigger] lin_round(ps, lv)[m] == lv[m],
        decreases n - i,
    {
        let entry = lin_step_exec(im, lin, i);
        assert(lv[i as int] == opt_names_view(lin@[i as int]));
        if lin[i].is_none() && entry.is_some() {
            changed = true;
            assert(lin_round(ps, lv)[i as int] != lv[i as int]);
        }
        let ghost prev = lin_view(next@);
        next.push(entry);
        assert(lin_view(next@) =~= prev.push(opt_names_view(entry)));
        i = i + 1;
        assert(lin_round(ps, lv).take(i as int) =~= lin_round(ps, lv).take(i - 1).push(
            lin_step(ps, lv, i - 1),
        ));
    }
    assert(lin_round(ps, lv).take(n as int) =~= lin_round(ps, lv));
    if !changed {
        assert(lin_round(ps, lv) =~= lv);
    }
    (next, changed)
}

/// The (contract, linearization) pairs of the contracts whose linearization
/// is known.
fn collect_known_exec(im: &Vec<(Name, Vec<Name>)>, lin: &Vec<Option<Vec<Name>>>) -> (res: Vec<
    (Name, Vec<Name>),
>)
    requires
        lin.len() == im.len(),
    ensures
        pairs_view(res@) == collect_known(pairs_view(im@), lin_view(lin@), im.len() as nat),
{
    let ghost ps = pairs_view(im@);
    let ghost lv = lin_view(lin@);
    let n = im.len();
    let mut res: Vec<(Name, Vec<Name>)> = Vec::new();
    let mut i: usize = 0;
    while i < n
        invariant
            ps == pairs_view(im@),
            n == im.len(),
            lin.len() == n,
            lv == lin_view(lin@),
            i <= n,
            pairs_view(res@) == collect_known(ps, lv, i as nat),
        decreases n - i,
    {
        assert(lv[i as int] == opt_names_view(lin@[i as int]));
        if let Some(l) = &lin[i] {
            let c = copy_names(l, 0);
            assert(names_view(l@).subrange(0, l@.len() as int) =~= names_view(l@));
            let key = im[i].0.clone();
            let ghost prev = pairs_view(res@);
            res.push((key, c));
            assert(pairs_view(res@) =~= prev.push((ps[i as int].0, names_view(l@))));
        }
        i = i + 1;
    }
    res
}

/// Linearize an inheritance map: each contract, with the list of its base
/// contracts as written, gets its C3 linearization (method resolution
/// order, as in Python). A contract is linearized once all its bases are;
/// one whose bases never all get linearized (a base that is not in the map,
/// or a cycle) is left out.
pub fn linearize_inheritance(inheritance_map: &Vec<(Name, Vec<Name>)>) -> (res: Vec<
    (Name, Vec<Name>),
>)
    requires
        distinct_keys(pairs_view(inheritance_map@)),
        never_stuck(pairs_view(inheritance_map@)),
    ensures
        pairs_view(res@) == linearized_pairs(pairs_view(inheritance_map@)),
{
    let ghost ps = pairs_view(inheritance_map@);
    let n = inheritance_map.len();
    let mut lin: Vec<Option<Vec<Name>>> = Vec::new();
    let mut i: usize = 0;
    while i < n
        invariant
            i <= n,
            lin.len() == i,
            lin_view(lin@) == Seq::new(i as nat, |k: int| Option::<Seq<NameView>>::None),
        decreases n - i,
    {
        let ghost prev = lin_view(lin@);
        lin.push(Option::None);
        assert(lin_view(lin@) =~= prev.push(Option::None));
        i = i + 1;
        assert(prev.push(Option::None) =~= Seq::new(i as nat, |k: int| Option::<Seq<NameView>>::None));
    }
    assert(lin_view(lin@) =~= lin_rounds(ps, 0));
    let ghost mut r: nat = 0;
    proof {
        lemma_count_bounded(lin_view(lin@));
    }
    loop
        invariant
            ps == pairs_view(inheritance_map@),
            n == inheritance_map.len(),
            lin.len() == n,
            distinct_keys(ps),
            never_stuck(ps),
            lin_view(lin@) == lin_rounds(ps, r),
            count_known(lin_view(lin@)) <= n,
        ensures
            lin.len() == n,
            lin_view(lin@) == lin_rounds(ps, r),
            lin_round(ps, lin_rounds(ps, r)) == lin_rounds(ps, r),
        decreases n - count_known(lin_view(lin@)),
    {
        let ghost lv = lin_view(lin@);
        let (next, changed) = lin_round_exec(inheritance_map, &lin, Ghost(r));
        if !changed {
            break;
        }
        proof {
            lemma_rounds_len(ps, r);
            lemma_round_count(ps, lv);
            lemma_count_bounded(lin_view(next@));
        }
        lin = next;
        proof {
            r = r + 1;
        }
    }
    proof {
        lemma_linearization_settled(ps);
        if r <= n {
            lemma_fixed_stays(ps, r, n as nat);
        } else {
            lemma_fixed_stays(ps, n as nat, r);
        }
    }
    collect_known_exec(inheritance_map, &lin)
}

/// What a round knows stays known, with the same linearization.
proof fn lemma_rounds_monotone(ps: Seq<(NameView, Seq<NameView>)>, k: nat, m: nat, j: int)
    requires
        k <= m,
        0 <= j < ps.len(),
        lin_rounds(ps, k)[j] is Some,
    ensures
        lin_rounds(ps, m)[j] == lin_rounds(ps, k)[j],
    decreases m,
{
    if m > k {
        lemma_rounds_monotone(ps, k, (m - 1) as nat, j);
        lemma_rounds_len(ps, (m - 1) as nat);
    }
}

/// A known linearization became known in some round.
proof fn lemma_first_round(ps: Seq<(NameView, Seq<NameView>)>, i: int, m: nat) -> (r: nat)
    requires
        0 <= i < ps.len(),
        lin_rounds(ps, m)[i] is Some,
    ensures
        1 <= r <= m,
        lin_rounds(ps, (r - 1) as nat)[i] is None,
        lin_rounds(ps, r)[i] is Some,
    decreases m,
{
    if m == 0 {
        assert(false);
        0
    } else if lin_rounds(ps, (m - 1) as nat)[i] is None {
        m
    } else {
        lemma_first_round(ps, i, (m - 1) as nat)
    }
}

/// The inheritance law: a contract is linearized exactly when all its
/// bases are linearized and the C3 merge succeeds, and its linearization is
/// the C3 merge of the contract itself followed by the linearizations of
/// its base contracts, the last base first.
pub proof fn lemma_linearization_is_c3_merge(ps: Seq<(NameView, Seq<NameView>)>, i: int)
    requires
        distinct_keys(ps),
        0 <= i < ps.len(),
    ensures
        linearization(ps)[i] == (if bases_known(ps, linearization(ps), i) {
            c3_merge(merge_input(ps, linearization(ps), i), Seq::empty())
        } else {
            Option::None
        }),
{
    let l = linearization(ps);
    let n = ps.len();
    lemma_linearization_settled(ps);
    assert(lin_round(ps, l)[i] == lin_step(ps, l, i));
    if l[i] is Some {
        let r = lemma_first_round(ps, i, n);
        let p = lin_rounds(ps, (r - 1) as nat);
        lemma_rounds_len(ps, (r - 1) as nat);
        lemma_rounds_monotone(ps, r, n, i);
        assert(lin_rounds(ps, r)[i] == lin_step(ps, p, i));
        assert(bases_known(ps, p, i));
        let bases = ps[i].1;
        assert forall|k: int| 0 <= k < bases.len() implies is_known(ps, l, #[trigger] bases[k])
            && known_lin(ps, l, bases[k]) == known_lin(ps, p, bases[k]) by {
            assert(is_known(ps, p, bases[k]));
            let j = choose|j: int| #[trigger] known_at(ps, p, bases[k], j);
            lemma_rounds_monotone(ps, (r - 1) as nat, n, j);
            assert(known_at(ps, l, bases[k], j));
            lemma_known_lin_at(ps, p, bases[k], j);
            lemma_known_lin_at(ps, l, bases[k], j);
        }
        assert(bases_known(ps, l, i));
        assert(merge_input(ps, l, i) =~= merge_input(ps, p, i));
    }
}

/// A merge continues the prefix it was given.
proof fn lemma_c3_merge_prefix(lists: Seq<Seq<NameView>>, merged: Seq<NameView>)
    requires
        c3_merge(lists, merged) is Some,
    ensures
        (c3_merge(lists, merged)->0).len() >= merged.len(),
        (c3_merge(lists, merged)->0).take(merged.len() as int) == merged,
    decreases total_len(lists),
{
    if lists.len() > 0 {
        let h = first_candidate(lists, 0)->0;
        lemma_first_candidate_is_head(lists, 0);
        lemma_take_head_shrinks(lists, h);
        let m2 = if merged.contains(h) {
            merged
        } else {
            merged.push(h)
        };
        lemma_c3_merge_prefix(take_head(lists, h), m2);
        let r = c3_merge(lists, merged)->0;
        assert(r.take(m2.len() as int).take(merged.len() as int) =~= r.take(merged.len() as int));
        assert(m2.take(merged.len() as int) =~= merged);
    } else {
        assert(merged.take(merged.len() as int) =~= merged);
    }
}

/// Every contract that occurs in a known linearization is itself
/// linearized.
proof fn lemma_known_names(ps: Seq<(NameView, Seq<NameView>)>, k: nat, j: int, x: NameView)
    requires
        distinct_keys(ps),
        0 <= j < ps.len(),
        lin_rounds(ps, k)[j] matches Some(l) && l.contains(x),
    ensures
        is_known(ps, lin_rounds(ps, k), x),
    decreases k,
{
    lemma_rounds_len(ps, k);
    if k == 0 {
        assert(false);
    } else {
        let p = lin_rounds(ps, (k - 1) as nat);
        lemma_rounds_len(ps, (k - 1) as nat);
        let cur = lin_rounds(ps, k);
        if p[j] is Some {
            lemma_known_names(ps, (k - 1) as nat, j, x);
            let m = choose|m: int| #[trigger] known_at(ps, p, x, m);
            lemma_rounds_monotone(ps, (k - 1) as nat, k, m);
            assert(known_at(ps, cur, x, m));
        } else {
            assert(cur[j] == lin_step(ps, p, j));
            let lists = merge_input(ps, p, j);
            lemma_merge_holds_each_name_once(lists);
            assert((c3_merge(lists, Seq::empty())->0).to_set().contains(x));
            assert(all_names(lists).contains(x));
            let li = choose|li: int| 0 <= li < lists.len() && #[trigger] lists[li].contains(x);
            if li == 0 {
                assert(lists[0] == seq![ps[j].0]);
                assert(x == ps[j].0);
                assert(known_at(ps, cur, x, j));
            } else {
                let bases = ps[j].1;
                let b = bases[bases.len() - 1 - (li - 1)];
                assert(is_known(ps, p, b));
                let jb = choose|jb: int| #[trigger] known_at(ps, p, b, jb);
                lemma_known_lin_at(ps, p, b, jb);
                lemma_known_names(ps, (k - 1) as nat, jb, x);
                let m = choose|m: int| #[trigger] known_at(ps, p, x, m);
                lemma_rounds_monotone(ps, (k - 1) as nat, k, m);
                assert(known_at(ps, cur, x, m));
            }
        }
    }
}

/// Law of the linearization: the linearization of a contract starts with
/// the contract itself and holds no contract twice.
pub proof fn lemma_linearization_starts_with_contract(ps: Seq<(NameView, Seq<NameView>)>, i: int)
    requires
        distinct_keys(ps),
        0 <= i < ps.len(),
        linearization(ps)[i] is Some,
    ensures
        (linearization(ps)[i]->0).len() > 0,
        (linearization(ps)[i]->0)[0] == ps[i].0,
        no_duplicates(linearization(ps)[i]->0),
{
    let n = ps.len();
    let r = lemma_first_round(ps, i, n);
    let p = lin_rounds(ps, (r - 1) as nat);
    lemma_rounds_len(ps, (r - 1) as nat);
    lemma_rounds_monotone(ps, r, n, i);
    assert(lin_rounds(ps, r)[i] == lin_step(ps, p, i));
    let lists = merge_input(ps, p, i);
    let c = ps[i].0;
    // The contract occurs in no linearization of its bases.
    assert forall|li: int| 1 <= li < lists.len() implies !(#[trigger] lists[li]).contains(c) by {
        let bases = ps[i].1;
        let b = bases[bases.len() - 1 - (li - 1)];
        assert(is_known(ps, p, b));
        let jb = choose|jb: int| #[trigger] known_at(ps, p, b, jb);
        lemma_known_lin_at(ps, p, b, jb);
        if lists[li].contains(c) {
            lemma_known_names(ps, (r - 1) as nat, jb, c);
            let m = choose|m: int| #[trigger] known_at(ps, p, c, m);
            if m != i {
                if m < i {
                    assert(ps[m].0 != ps[i].0);
                } else {
                    assert(ps[i].0 != ps[m].0);
                }
            }
        }
    }
    assert(lists[0] == seq![c]);
    assert(can_merge(lists, c));
    assert(first_candidate(lists, 0) == Some(c));
    lemma_first_candidate_is_head(lists, 0);
    lemma_take_head_shrinks(lists, c);
    lemma_c3_merge_prefix(take_head(lists, c), seq![c]);
    assert(Seq::<NameView>::empty().push(c) =~= seq![c]);
    lemma_merge_holds_each_name_once(lists);
}

} // verus!
