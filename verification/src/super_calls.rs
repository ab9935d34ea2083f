//! Resolution of `super.member` in a contract: the member is looked up in
//! the base contracts, in linearization order (or in the reverse order of
//! the contracts that the function's `override` lists).
use vstd::prelude::*;
use crate::name::{Name, NameView, names_view};
use crate::inheritance::pairs_view;
use crate::specifiers::Overriding;

verus! {

/// The value bound to `k` by the last pair with key `k`, if any.
pub open spec fn lookup_last(m: Seq<(NameView, Seq<NameView>)>, k: NameView) -> Option<Seq<NameView>>
    decreases m.len(),
{
    if m.len() == 0 {
        None
    } else if m.last().0 == k {
        Some(m.last().1)
    } else {
        lookup_last(m.drop_last(), k)
    }
}

/// The first member whose base name is `base`.
pub open spec fn first_member(members: Seq<NameView>, base: Seq<char>) -> Option<NameView>
    decreases members.len(),
{
    if members.len() == 0 {
        None
    } else if members[0].base == base {
        Some(members[0])
    } else {
        first_member(members.drop_first(), base)
    }
}

/// The contracts in which `super` looks, in order: the contracts that the
/// function overrides, last first, if it lists any; else the linearization
/// of the current contract, if known.
pub open spec fn super_order(
    current: NameView,
    overridden: Seq<NameView>,
    linearization: Seq<(NameView, Seq<NameView>)>,
) -> Option<Seq<NameView>> {
    if overridden.len() > 0 {
        Some(overridden.reverse())
    } else {
        lookup_last(linearization, current)
    }
}

/// The first contract of `order`, other than the current one and defined in
/// `contracts`, that has a member with the base name of `member`, with that
/// member.
pub open spec fn resolve_in(
    order: Seq<NameView>,
    contracts: Seq<(NameView, Seq<NameView>)>,
    current: NameView,
    member: NameView,
) -> Option<(NameView, NameView)>
    decreases order.len(),
{
    if order.len() == 0 {
        None
    } else {
        let b = order[0];
        let rest = resolve_in(order.drop_first(), contracts, current, member);
        match lookup_last(contracts, b) {
            Some(members) => if b == current {
                rest
            } else {
                match first_member(members, member.base) {
                    Some(m) => Some((b, m)),
                    None => rest,
                }
            },
            None => rest,
        }
    }
}

/// The names that an overriding specifier lists.
pub open spec fn overridden_names(o: &Overriding) -> Seq<NameView> {
    match o {
        Overriding::Listed(names) => names_view(names@),
        _ => Seq::empty(),
    }
}

/// The value bound to `k` by the last pair with key `k`.
fn lookup_last_exec<'a>(m: &'a Vec<(Name, Vec<Name>)>, k: &Name) -> (res: Option<&'a Vec<Name>>)
    ensures
        match res {
            Some(v) => lookup_last(pairs_view(m@), k@) == Some(names_view(v@)),
            None => lookup_last(pairs_view(m@), k@) is None,
        },
{
    let ghost ps = pairs_view(m@);
    let mut j = m.len();
    assert(ps.take(j as int) =~= ps);
    while j > 0
        invariant
            ps == pairs_view(m@),
            j <= m.len(),
            lookup_last(ps, k@) == lookup_last(ps.take(j as int), k@),
        decreases j,
    {
        assert(ps.take(j as int).drop_last() =~= ps.take(j - 1));
        assert(ps.take(j as int).last() == ps[j - 1]);
        if m[j - 1].0.same(k) {
            return Some(&m[j - 1].1);
        }
        j = j - 1;
    }
    None
}

/// The first member whose base name is that of `member`.
fn first_member_exec<'a>(members: &'a Vec<Name>, member: &Name) -> (res: Option<&'a Name>)
    ensures
        match res {
            Some(n) => first_member(names_view(members@), member@.base) == Some(n@),
            None => first_member(names_view(members@), member@.base) is None,
        },
{
    let ghost mv = names_view(members@);
    let mut i: usize = 0;
    assert(mv.skip(0) =~= mv);
    while i < members.len()
        invariant
            mv == names_view(members@),
            i <= members.len(),
            first_member(mv, member@.base) == first_member(mv.skip(i as int), member@.base),
        decreases members.len() - i,
    {
        assert(mv.skip(i as int)[0] == members@[i as int]@);
        assert(mv.skip(i as int).drop_first() =~= mv.skip(i + 1));
        if members[i].base == member.base {
            return Some(&members[i]);
        }
        i = i + 1;
    }
    None
}

/// Resolve `super.member` in the contract `current`, from a function with
/// the overriding specifier `overriding`: the contract in which the member
/// is found and the member found, or `None` when no base contract has it.
/// `contracts` maps each contract to the names of its variables and
/// functions, in the order of its body; `linearization` maps each contract
/// to its linearization. The function may not override every base
/// (`override` without a list).
pub fn resolve_super_member(
    current: &Name,
    overriding: &Overriding,
    linearization: &Vec<(Name, Vec<Name>)>,
    contracts: &Vec<(Name, Vec<Name>)>,
    member: &Name,
) -> (res: Option<(Name, Name)>)
    requires
        !(overriding is All),
    ensures
        ({
            let r = match super_order(current@, overridden_names(overriding), pairs_view(linearization@)) {
                Some(order) => resolve_in(order, pairs_view(contracts@), current@, member@),
                None => None,
            };
            match res {
                Some((c, m)) => r == Some((c@, m@)),
                None => r is None,
            }
        }),
{
    let mut reversed: Vec<Name> = Vec::new();
    if let Overriding::Listed(names) = overriding {
        let mut i = names.len();
        while i > 0
            invariant
                i <= names.len(),
                names_view(reversed@) == names_view(names@).reverse().take(names.len() - i),
            decreases i,
        {
            i = i - 1;
            let ghost prev = names_view(reversed@);
            reversed.push(names[i].clone());
            assert(names_view(reversed@) =~= prev.push(names@[i as int]@));
            assert(names_view(names@).reverse().take(names.len() - i) =~= prev.push(
                names@[i as int]@,
            ));
        }
        assert(names_view(names@).reverse().take(names.len() as int) =~= names_view(names@).reverse());
    }
    let order: &Vec<Name> = if reversed.len() > 0 {
        &reversed
    } else {
        match lookup_last_exec(linearization, current) {
            Some(l) => l,
            None => {
                return None;
            },
        }
    };
    let ghost ov = names_view(order@);
    assert(super_order(current@, overridden_names(overriding), pairs_view(linearization@))
        == Some(ov));
    let mut i: usize = 0;
    assert(ov.skip(0) =~= ov);
    while i < order.len()
        invariant
            ov == names_view(order@),
            super_order(current@, overridden_names(overriding), pairs_view(linearization@)) == Some(
                ov,
            ),
            i <= order.len(),
            resolve_in(ov, pairs_view(contracts@), current@, member@) == resolve_in(
                ov.skip(i as int),
                pairs_view(contracts@),
                current@,
                member@,
            ),
        decreases order.len() - i,
    {
        let b = &order[i];
        assert(ov.skip(i as int)[0] == b@);
        assert(ov.skip(i as int).drop_first() =~= ov.skip(i + 1));
        if let Some(members) = lookup_last_exec(contracts, b) {
            if !b.same(current) {
                if let Some(m) = first_member_exec(members, member) {
                    assert(resolve_in(ov.skip(i as int), pairs_view(contracts@), current@, member@)
                        == Some((b@, m@)));
                    let rb = b.clone();
                    let rm = m.clone();
                    return Some((rb, rm));
                }
            }
        }
        i = i + 1;
    }
    None
}

} // verus!
