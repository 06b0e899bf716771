use tro::text::trim_trailing_blank;
use tro::trello::card::CardContents;
use tro::trello::trello_object::Renderable;
use tro::trello::{Card, TrelloError};

#[test]
fn test_card_test_new() {
    let card = Card::new("A", "B", "C", None, "https://trello.com/my/card");
    let expected = Card {
        id: String::from("A"),
        name: String::from("B"),
        desc: String::from("C"),
        labels: None,
        closed: false,
        url: String::from("https://trello.com/my/card"),
    };
    assert_eq!(card, expected);
}

#[test]
fn test_card_test_render() {
    let card = Card::new("aaaaa", "My Fav Card", "this is a nice card", None, "");

    let expected = "My Fav Card\n===========\nthis is a nice card";
    assert_eq!(card.render(), expected);
}

#[test]
fn decode_splits_on_the_first_delimiter_line() {
    let buffer = "Hello World\n===\nThis is my card";
    let contents = CardContents::from_buffer(buffer).unwrap();
    assert_eq!(
        contents,
        CardContents {
            name: String::from("Hello World"),
            desc: String::from("This is my card"),
        },
    );
}

#[test]
fn decode_without_a_delimiter_fails() {
    let result = CardContents::from_buffer("just one line");
    assert_eq!(
        result,
        Err(TrelloError::CardParse(
            "Unable to find name delimiter '===='".to_string()
        ))
    );
}

#[test]
fn decode_keeps_multi_line_names_and_descriptions() {
    let buffer = "first\nsecond\n========\ndesc line one\n\ndesc line two";
    let contents = CardContents::from_buffer(buffer).unwrap();
    assert_eq!(contents.name, "first\nsecond");
    assert_eq!(contents.desc, "desc line one\n\ndesc line two");
}

#[test]
fn round_trip_of_a_rendered_card() {
    let card = Card::new("id", "Hello World", "This is my card", None, "");
    let rendered = card.render();
    let trimmed = trim_trailing_blank(&rendered);
    let contents = CardContents::from_buffer(&trimmed).unwrap();
    assert_eq!(contents.name, "Hello World");
    assert_eq!(contents.desc, "This is my card");
}

#[test]
fn round_trip_survives_trailing_editor_newlines() {
    let card = Card::new("id", "Name", "body text", None, "");
    let mut rendered = card.render();
    rendered.push_str("\n\n\n");
    let trimmed = trim_trailing_blank(&rendered);
    let contents = CardContents::from_buffer(&trimmed).unwrap();
    assert_eq!(contents.name, "Name");
    assert_eq!(contents.desc, "body text");
}

#[test]
fn round_trip_with_an_empty_description() {
    let card = Card::new("id", "Just A Name", "", None, "");
    let rendered = card.render();
    let trimmed = trim_trailing_blank(&rendered);
    let contents = CardContents::from_buffer(&trimmed).unwrap();
    assert_eq!(contents.name, "Just A Name");
    assert_eq!(contents.desc, "");
}

#[test]
fn round_trip_with_a_wide_name() {
    let card = Card::new("id", "foo 🔴", "wide delimiter", None, "");
    let rendered = card.render();
    assert_eq!(rendered, "foo 🔴\n======\nwide delimiter");
    let trimmed = trim_trailing_blank(&rendered);
    let contents = CardContents::from_buffer(&trimmed).unwrap();
    assert_eq!(contents.name, "foo 🔴");
    assert_eq!(contents.desc, "wide delimiter");
}

#[test]
fn trim_removes_only_trailing_blanks() {
    assert_eq!(trim_trailing_blank("a b \n\t\r\n"), "a b");
    assert_eq!(trim_trailing_blank("  leading stays"), "  leading stays");
    assert_eq!(trim_trailing_blank(""), "");
    assert_eq!(trim_trailing_blank(" \n "), "");
}
