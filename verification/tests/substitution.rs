use solidity::name::Name;
use solidity::substitution::NameSubstitutor;

#[test]
fn name_substitutor_maps_and_forgets() {
    let olds = vec![Name::from_str("a"), Name::from_str("b"), Name::from_str("a")];
    let news = vec![Name::from_str("x"), Name::from_str("y"), Name::from_str("z")];
    let mut s = NameSubstitutor::new(&olds, &news);
    // the later pair for `a` wins
    assert_eq!(s.map_name(&Name::from_str("a")), Name::from_str("z"));
    assert_eq!(s.map_name(&Name::from_str("b")), Name::from_str("y"));
    assert_eq!(s.map_name(&Name::from_str("c")), Name::from_str("c"));
    assert!(s.contains(&Name::from_str("b")));
    let saved = s.clone();
    s.remove(&Name::from_str("a"));
    assert!(!s.contains(&Name::from_str("a")));
    assert_eq!(s.map_name(&Name::from_str("a")), Name::from_str("a"));
    assert_eq!(saved.map_name(&Name::from_str("a")), Name::from_str("z"));
}

#[test]
fn name_substitutor_keeps_indices_apart() {
    let olds = vec![Name::new("v".to_string(), Some(1))];
    let news = vec![Name::from_str("w")];
    let s = NameSubstitutor::new(&olds, &news);
    assert_eq!(s.map_name(&Name::from_str("v")), Name::from_str("v"));
    assert_eq!(s.map_name(&Name::new("v".to_string(), Some(1))), Name::from_str("w"));
}
