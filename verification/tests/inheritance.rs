use solidity::inheritance::{linearize_inheritance, merge};
use solidity::name::Name;

fn n(s: &str) -> Name {
    Name::from_str(s)
}

fn names(v: &[&str]) -> Vec<Name> {
    v.iter().map(|s| n(s)).collect()
}

#[test]
fn test_merge() {
    let result = merge(&vec![
        names(&["C", "O"]),
        names(&["B", "O"]),
        names(&["A", "O"]),
        names(&["C", "A", "B"]),
    ]);
    assert_eq!(result, names(&["C", "A", "B", "O"]));
}

#[test]
fn merge_of_single_list_is_that_list() {
    assert_eq!(merge(&vec![names(&["X", "Y", "Z"])]), names(&["X", "Y", "Z"]));
    assert_eq!(merge(&vec![]), Vec::<Name>::new());
}

#[test]
fn merge_holds_each_name_once() {
    let result = merge(&vec![names(&["D", "B", "A"]), names(&["C", "A"]), names(&["B", "C"])]);
    assert_eq!(result, names(&["D", "B", "C", "A"]));
}

#[test]
fn linearize_diamond() {
    // contract A; contract B is A; contract C is A; contract D is B, C
    let map = vec![
        (n("A"), vec![]),
        (n("B"), names(&["A"])),
        (n("C"), names(&["A"])),
        (n("D"), names(&["B", "C"])),
    ];
    let lin = linearize_inheritance(&map);
    assert_eq!(lin.len(), 4);
    assert_eq!(lin[0], (n("A"), names(&["A"])));
    assert_eq!(lin[1], (n("B"), names(&["B", "A"])));
    assert_eq!(lin[2], (n("C"), names(&["C", "A"])));
    assert_eq!(lin[3], (n("D"), names(&["D", "C", "B", "A"])));
}

#[test]
fn linearize_leaves_out_unknown_bases_and_cycles() {
    let map = vec![
        (n("A"), names(&["Missing"])),
        (n("B"), names(&["A"])),
        (n("C"), names(&["D"])),
        (n("D"), names(&["C"])),
        (n("E"), vec![]),
    ];
    let lin = linearize_inheritance(&map);
    assert_eq!(lin, vec![(n("E"), names(&["E"]))]);
}
