use tro::find::{get_object_by_name, FindError};
use tro::trello::{Board, Card, List};

#[test]
fn test_find_test_empty() {
    let boards: Vec<Board> = vec![];
    let result = get_object_by_name(&boards, "foobar", false);

    assert_eq!(
        result,
        Err(FindError::NotFound(
            "Board not found. Specify a more precise filter than 'foobar'".to_string()
        ))
    );
}

#[test]
fn test_find_test_not_found() {
    let boards = vec![Card::new("red", "", "1", None, "")];
    let result = get_object_by_name(&boards, "foobar", false);

    assert_eq!(
        result,
        Err(FindError::NotFound(
            "Card not found. Specify a more precise filter than 'foobar'".to_string()
        ))
    );
}

#[test]
fn test_find_test_more_than_one() {
    let boards = vec![
        Board::new("1", "red", None, ""),
        Board::new("2", "reddish", None, ""),
    ];
    let result = get_object_by_name(&boards, "red", false);

    assert_eq!(
        result,
        Err(FindError::Multiple(
            "More than one Board found. Specify a more precise filter than 'red' (Found 'red', 'reddish')".to_string()
        ))
    );
}

#[test]
fn test_find_test_found() {
    let boards = vec![
        Board::new("33", "green", None, ""),
        Board::new("R35", "red", None, ""),
    ];
    let result = get_object_by_name(&boards, "red", false).unwrap();

    let expected = &boards[1];
    assert_eq!(result, expected);
}

#[test]
fn test_find_test_case_insensitive() {
    let boards = vec![List::new("R35", "red", None)];
    let result = get_object_by_name(&boards, "RED", true).unwrap();

    let expected = &boards[0];
    assert_eq!(result, expected);
}

#[test]
fn test_find_test_regex() {
    let boards = vec![Board::new("R35", "Red Green Blue 🖌️", None, "")];
    let result = get_object_by_name(&boards, "Red .*", false).unwrap();

    let expected = &boards[0];
    assert_eq!(result, expected);
}

#[test]
fn case_sensitive_upper_pattern_misses_lower_name() {
    let lists = vec![List::new("R35", "red", None)];
    let insensitive = get_object_by_name(&lists, "RED", true);
    assert!(insensitive.is_ok());
    assert_eq!(insensitive.unwrap(), &lists[0]);

    let sensitive = get_object_by_name(&lists, "RED", false);
    assert_eq!(
        sensitive,
        Err(FindError::NotFound(
            "List not found. Specify a more precise filter than 'RED'".to_string()
        ))
    );
}

#[test]
fn boards_resolved_by_prefix_pattern_respect_case_flag() {
    let boards = vec![
        Board::new("1", "TODO", None, ""),
        Board::new("2", "Doing", None, ""),
    ];

    let sensitive = get_object_by_name(&boards, "tod", false);
    assert_eq!(
        sensitive,
        Err(FindError::NotFound(
            "Board not found. Specify a more precise filter than 'tod'".to_string()
        ))
    );

    let insensitive = get_object_by_name(&boards, "tod", true).unwrap();
    assert_eq!(insensitive.id, "1");
}

#[test]
fn overlapping_names_are_both_reported() {
    let boards = vec![
        Board::new("a", "red", None, ""),
        Board::new("b", "reddish", None, ""),
    ];
    let result = get_object_by_name(&boards, "red", false);
    match result {
        Err(FindError::Multiple(msg)) => {
            assert!(msg.contains("'red'"));
            assert!(msg.contains("'reddish'"));
        }
        other => panic!("expected a multiple-match failure, got {:?}", other),
    }
}

#[test]
fn invalid_pattern_is_a_regex_error() {
    let boards = vec![Board::new("1", "red", None, "")];
    let result = get_object_by_name(&boards, "[", false);
    assert!(matches!(result, Err(FindError::Regex(_))));
}

#[test]
fn identical_names_are_still_multiple() {
    let cards = vec![
        Card::new("1", "same", "", None, ""),
        Card::new("2", "same", "", None, ""),
    ];
    let result = get_object_by_name(&cards, "same", false);
    assert_eq!(
        result,
        Err(FindError::Multiple(
            "More than one Card found. Specify a more precise filter than 'same' (Found 'same', 'same')".to_string()
        ))
    );
}
