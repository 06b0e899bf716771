use tro::trello::action;
use tro::trello::trello_object::{Renderable, TrelloObject};
use tro::trello::{Attachment, Board, Card, Label, List, Member};

#[test]
fn test_lib_test_new() {
    let card = Card::new("A", "B", "C", None, "https://trello.com/my/card");
    let expected = Card {
        id: String::from("A"),
        name: String::from("B"),
        desc: String::from("C"),
        labels: None,
        closed: false,
        url: String::from("https://trello.com/my/card"),
    };
    assert_eq!(card, expected);
}

#[test]
fn test_lib_test_render() {
    let card = Card::new("aaaaa", "My Fav Card", "this is a nice card", None, "");

    let expected = "My Fav Card\n===========\nthis is a nice card";
    assert_eq!(card.render(), expected);
}

#[test]
fn test_list_test_new() {
    let list = List::new("123", "my list", Some(vec![]));
    let expected = List {
        id: String::from("123"),
        name: String::from("my list"),
        cards: Some(vec![]),
        closed: false,
    };
    assert_eq!(list, expected);
}

#[test]
fn test_lib_test_filter_none_cards() {
    let list = List::new("some-id", "some-name", None);

    assert_eq!(
        list.filter("my-label"),
        List::new("some-id", "some-name", None)
    );
}

#[test]
fn test_list_test_filter_none_cards() {
    let list = List::new("some-id", "some-name", None);

    assert_eq!(
        list.filter("my-label"),
        List::new("some-id", "some-name", None)
    );
}

#[test]
fn test_board_test_new() {
    let board = Board::new("888", "some board", Some(vec![]), "https://trello.com/09");
    let expected = Board {
        id: String::from("888"),
        name: String::from("some board"),
        lists: Some(vec![]),
        closed: false,
        url: String::from("https://trello.com/09"),
    };
    assert_eq!(board, expected);
}

#[test]
fn filtering_keeps_only_cards_with_a_matching_label() {
    let list = List::new(
        "123",
        "TODO",
        Some(vec![
            Card::new(
                "1",
                "Orange",
                "",
                Some(vec![Label::new("", "fruit", "")]),
                "",
            ),
            Card::new("2", "Green", "", None, ""),
        ]),
    );

    assert_eq!(
        list.filter("idontexist"),
        List::new("123", "TODO", Some(vec![])),
    );

    assert_eq!(
        list.filter("fruit"),
        List::new(
            "123",
            "TODO",
            Some(vec![Card::new(
                "1",
                "Orange",
                "",
                Some(vec![Label::new("", "fruit", "")]),
                "",
            )]),
        ),
    );
}

#[test]
fn board_filtering_reaches_into_every_list() {
    let board = Board::new(
        "b",
        "Work",
        Some(vec![
            List::new(
                "l1",
                "TODO",
                Some(vec![Card::new(
                    "1",
                    "Orange",
                    "",
                    Some(vec![Label::new("", "fruit", "")]),
                    "",
                )]),
            ),
            List::new(
                "l2",
                "Doing",
                Some(vec![Card::new("2", "Green", "", None, "")]),
            ),
        ]),
        "",
    );

    let filtered = board.filter("FRUIT");
    let lists = filtered.lists.unwrap();
    assert_eq!(lists[0].cards.as_ref().unwrap().len(), 1);
    assert_eq!(lists[1].cards.as_ref().unwrap().len(), 0);
}

#[test]
fn try_filter_rejects_an_invalid_pattern() {
    let list = List::new("1", "x", None);
    assert!(list.try_filter("[").is_none());
    assert!(list.try_filter("ok").is_some());

    let board = Board::new("1", "x", None, "");
    assert!(board.try_filter("[").is_none());
    assert!(board.try_filter("ok").is_some());
}

#[test]
fn type_labels_and_names_feed_the_resolver() {
    assert_eq!(Board::get_type(), "Board");
    assert_eq!(List::get_type(), "List");
    assert_eq!(Card::get_type(), "Card");
    assert_eq!(Label::get_type(), "Label");
    assert_eq!(Attachment::get_type(), "Attachment");

    let card = Card::new("1", "a name", "", None, "");
    assert_eq!(card.get_name(), "a name");
    assert_eq!(Card::get_fields(), vec![
        "id", "name", "desc", "labels", "closed", "due", "url"
    ]);
}

#[test]
fn attachments_render_as_a_header_and_the_url() {
    let att = Attachment {
        id: String::from("1"),
        name: String::from("notes.txt"),
        url: String::from("https://example.test/notes.txt"),
    };
    assert_eq!(
        att.render(),
        "notes.txt\n---------\nhttps://example.test/notes.txt"
    );
    assert_eq!(att.simple_render(), "notes.txt");
}

#[test]
fn cards_simple_render_lists_their_markers() {
    let plain = Card::new("1", "Fire Monkey", "", None, "");
    assert_eq!(plain.simple_render(), "Fire Monkey");

    let with_desc = Card::new("1", "Ice Snail", "details", None, "");
    assert_eq!(with_desc.simple_render(), "Ice Snail [...]");

    let mut closed = Card::new("1", "Earth Seagull", "", None, "");
    closed.closed = true;
    assert_eq!(closed.simple_render(), "[Closed] Earth Seagull");

    let with_label = Card::new(
        "1",
        "Lightning Goat",
        "",
        Some(vec![Label::new("", "Animals", "green")]),
        "",
    );
    assert_eq!(with_label.simple_render(), "Lightning Goat  Animals");
}

#[test]
fn actions_render_type_date_and_author() {
    let action = action::Action {
        id: String::from("a1"),
        action_type: String::from("commentCard"),
        date: String::from("2020-07-14"),
        member_creator: action::Member {
            id: String::from("m1"),
            full_name: String::from("Ada Lovelace"),
        },
    };
    assert_eq!(action.render(), "commentCard on 2020-07-14 by Ada Lovelace");
    assert_eq!(action.member_creator.render(), "Ada Lovelace");
}

#[test]
fn members_keep_their_fields() {
    let member = Member::new("m1", "Ada Lovelace", "ada");
    assert_eq!(member.id, "m1");
    assert_eq!(member.full_name, "Ada Lovelace");
    assert_eq!(member.username, "ada");
}
