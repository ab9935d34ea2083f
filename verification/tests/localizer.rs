use solidity::json_value::parse_loc;
use solidity::loc::Loc;
use solidity::localizer::Localizer;

#[test]
fn test_get_line_pos() {
    let content = "123\n45678\n9abcdef";
    let line_pos = Localizer::from_content("test.sol".to_string(), content.as_bytes()).unwrap();

    assert_eq!(line_pos.get_line_of_pos(1).unwrap(), 0);
    assert_eq!(line_pos.get_line_of_pos(3).unwrap(), 0);
    assert_eq!(line_pos.get_line_of_pos(4).unwrap(), 1);
    assert_eq!(line_pos.get_line_of_pos(5).unwrap(), 1);
    assert_eq!(line_pos.get_line_of_pos(12).unwrap(), 2);
    assert_eq!(line_pos.get_pos_of_line(1).unwrap(), 4);
}

#[test]
fn localizer_columns_and_bounds() {
    let content = "123\n45678\n9abcdef";
    let l = Localizer::from_content("a.sol".to_string(), content.as_bytes()).unwrap();
    assert_eq!(l.get_pos_of_line(0), Some(0));
    assert_eq!(l.get_pos_of_line(2), Some(10));
    assert_eq!(l.get_pos_of_line(3), Some(17));
    assert_eq!(l.get_pos_of_line(4), None);
    assert_eq!(l.get_column_of_pos(5), Some(1));
    assert_eq!(l.get_line_column(12), Some((2, 2)));
    assert_eq!(l.get_line_of_pos(17), Some(2));
    assert_eq!(l.get_line_of_pos(18), None);
    assert_eq!(l.file_path, "a.sol");
}

#[test]
fn localizer_empty_content() {
    assert!(Localizer::from_content("e.sol".to_string(), b"").is_none());
}

#[test]
fn parse_loc_of_json_location() {
    let content = "123\n45678\n9abcdef";
    let l = Localizer::from_content("a.sol".to_string(), content.as_bytes()).unwrap();
    // positions 4 .. 4+3-1 = 6: line 1 (shown as 2), columns 0 to 2
    let loc = parse_loc(&l, "4:3:0").unwrap();
    assert_eq!(loc, Loc::new(2, 0, 2, 2));
    assert_eq!(parse_loc(&l, "not a location"), None);
    assert_eq!(loc.to_string(), "2:0-2:2");
}
