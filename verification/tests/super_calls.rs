use solidity::name::Name;
use solidity::specifiers::Overriding;
use solidity::super_calls::resolve_super_member;

fn n(s: &str) -> Name {
    Name::from_str(s)
}

#[test]
fn super_member_follows_linearization() {
    let lin = vec![(n("D"), vec![n("D"), n("C"), n("B"), n("A")])];
    let contracts = vec![
        (n("A"), vec![n("f"), n("x")]),
        (n("B"), vec![Name::new("f".to_string(), Some(2))]),
        (n("C"), vec![n("g")]),
        (n("D"), vec![n("f")]),
    ];
    let r = resolve_super_member(&n("D"), &Overriding::Unspecified, &lin, &contracts, &n("f"));
    assert_eq!(r, Some((n("B"), Name::new("f".to_string(), Some(2)))));
    let r = resolve_super_member(&n("D"), &Overriding::Unspecified, &lin, &contracts, &n("x"));
    assert_eq!(r, Some((n("A"), n("x"))));
    let r = resolve_super_member(&n("D"), &Overriding::Unspecified, &lin, &contracts, &n("h"));
    assert_eq!(r, None);
    let r = resolve_super_member(&n("E"), &Overriding::Unspecified, &lin, &contracts, &n("f"));
    assert_eq!(r, None);
}

#[test]
fn super_member_follows_overridden_list_reversed() {
    let lin = vec![(n("D"), vec![n("D"), n("C"), n("B"), n("A")])];
    let contracts = vec![(n("A"), vec![n("f")]), (n("B"), vec![n("f")])];
    let listed = Overriding::Listed(vec![n("B"), n("A")]);
    let r = resolve_super_member(&n("D"), &listed, &lin, &contracts, &n("f"));
    assert_eq!(r, Some((n("A"), n("f"))));
}
