use tro::formatting as plain;
use tro::trello::formatting as wide;

#[test]
fn test_lib_test_empty() {
    let result = plain::header("", "-");
    assert_eq!(result, String::from("\n"));
}

#[test]
fn test_lib_test_correct() {
    let result = plain::header("foobar", "=");
    assert_eq!(result, String::from("foobar\n======"));
}

#[test]
fn test_lib_test_emoticons() {
    let result = plain::header("foo 🔴", "-");
    assert_eq!(result, String::from("foo 🔴\n-----"));
}

#[test]
fn test_formatting_test_empty() {
    let result = wide::header("", "-");
    assert_eq!(result, String::from("\n"));
}

#[test]
fn test_formatting_test_correct() {
    let result = wide::header("foobar", "=");
    assert_eq!(result, String::from("foobar\n======"));
}

#[test]
fn test_formatting_test_emoticons() {
    let result = wide::header("foo 🔴", "-");
    assert_eq!(result, String::from("foo 🔴\n------"));
}

#[test]
fn plain_title_draws_a_box_sized_by_character_count() {
    let result = plain::title("hi");
    assert_eq!(result, "╔════╗\n║ hi ║\n╚════╝");
}

#[test]
fn wide_title_draws_a_border_sized_by_display_width() {
    let result = wide::title("hi");
    assert_eq!(result, " hi \n====");

    let wide_text = wide::title("🔴");
    assert_eq!(wide_text, " 🔴 \n====");
}
