use tro::find::{locate_in_board, locate_start, FindError, TrelloParams, TrelloResult};
use tro::trello::{Board, Card, List};

fn params(
    board_name: Option<&str>,
    list_name: Option<&str>,
    card_name: Option<&str>,
    ignore_case: bool,
) -> TrelloParams {
    TrelloParams {
        board_name: board_name.map(String::from),
        list_name: list_name.map(String::from),
        card_name: card_name.map(String::from),
        ignore_case,
    }
}

fn sample_board() -> Board {
    let todo = List::new(
        "l1",
        "TODO",
        Some(vec![
            Card::new("c1", "Orange", "squeeze", None, ""),
            Card::new("c2", "Green", "", None, ""),
        ]),
    );
    let doing = List::new(
        "l2",
        "Doing",
        Some(vec![Card::new("c3", "Blue", "", None, "")]),
    );
    Board::new("b1", "Work", Some(vec![todo, doing]), "https://example.test/b1")
}

#[test]
fn locate_start_with_no_patterns_is_all_unset() {
    let p = params(None, None, None, false);
    let result = locate_start(&p);
    let expected = TrelloResult {
        board: None,
        list: None,
        card: None,
    };
    assert_eq!(result, Some(expected));
}

#[test]
fn a_board_pattern_means_fetching_is_needed() {
    let p = params(Some("TODO"), None, None, true);
    assert_eq!(locate_start(&p), None);
}

#[test]
fn board_only_when_no_list_pattern() {
    let board = sample_board();
    let p = params(Some("Work"), None, None, false);
    let result = locate_in_board(&board, &p).unwrap();
    assert_eq!(result.board, Some(board));
    assert_eq!(result.list, None);
    assert_eq!(result.card, None);
}

#[test]
fn list_and_board_when_only_a_list_matches() {
    let board = sample_board();
    let p = params(Some("Work"), Some("TOD"), None, false);
    let result = locate_in_board(&board, &p).unwrap();
    assert!(result.board.is_some());
    assert_eq!(result.list.as_ref().unwrap().id, "l1");
    assert_eq!(result.card, None);
}

#[test]
fn card_within_the_resolved_list() {
    let board = sample_board();
    let p = params(Some("Work"), Some("TODO"), Some("Ora"), false);
    let result = locate_in_board(&board, &p).unwrap();
    assert_eq!(result.list.as_ref().unwrap().name, "TODO");
    let card = result.card.unwrap();
    assert_eq!(card.id, "c1");
    assert_eq!(card.desc, "squeeze");
}

#[test]
fn wildcard_list_searches_every_list() {
    let board = sample_board();
    let p = params(Some("Work"), Some("-"), Some("Blue"), false);
    let result = locate_in_board(&board, &p).unwrap();
    assert!(result.board.is_some());
    assert_eq!(result.list, None);
    assert_eq!(result.card.unwrap().id, "c3");
}

#[test]
fn wildcard_list_without_a_card_pattern_fails() {
    let board = sample_board();
    let p = params(Some("Work"), Some("-"), None, false);
    let result = locate_in_board(&board, &p);
    assert_eq!(
        result,
        Err(FindError::WildCard(
            "Card name must be specified with list '-' wildcard".to_string()
        ))
    );
}

#[test]
fn wildcard_with_an_ambiguous_card_pattern_lists_all_matches() {
    let board = sample_board();
    let p = params(Some("Work"), Some("-"), Some("e"), false);
    let result = locate_in_board(&board, &p);
    match result {
        Err(FindError::Multiple(msg)) => {
            assert!(msg.contains("'Orange'"));
            assert!(msg.contains("'Green'"));
            assert!(msg.contains("'Blue'"));
        }
        other => panic!("expected a multiple-match failure, got {:?}", other),
    }
}

#[test]
fn an_unknown_list_pattern_is_not_found() {
    let board = sample_board();
    let p = params(Some("Work"), Some("zzz"), None, false);
    let result = locate_in_board(&board, &p);
    assert_eq!(
        result,
        Err(FindError::NotFound(
            "List not found. Specify a more precise filter than 'zzz'".to_string()
        ))
    );
}
