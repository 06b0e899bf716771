use tro::trello::search::replace_negative_prefix;
use tro::trello::{ClientConfig, SearchOptions, TrelloError};

#[test]
fn test_get_trello_url() {
    let config = ClientConfig::new("https://api.trello.com", "some-secret-token", "some-key");
    let result = config.get_trello_url("/foo/bar/", &vec![]).unwrap();
    assert_eq!(
        result,
        "https://api.trello.com/foo/bar/?key=some-key&token=some-secret-token"
    );
}

#[test]
fn extra_parameters_follow_the_credentials() {
    let config = ClientConfig::new("https://api.trello.com", "some-token", "some-key");
    let params = vec![("lists".to_string(), "open".to_string())];
    let result = config.get_trello_url("/1/boards/some-id/", &params).unwrap();
    assert_eq!(
        result,
        "https://api.trello.com/1/boards/some-id/?key=some-key&token=some-token&lists=open"
    );
}

#[test]
fn an_unparsable_host_is_a_url_error() {
    let config = ClientConfig::new("not a url", "t", "k");
    let result = config.get_trello_url("/x", &vec![]);
    assert!(matches!(result, Err(TrelloError::UrlParse(_))));
}

#[test]
fn default_host_is_the_public_endpoint() {
    assert_eq!(ClientConfig::default_host(), "https://api.trello.com");
}

#[test]
fn search_options_default_to_no_limits() {
    let options = SearchOptions::default();
    assert_eq!(options.partial, false);
    assert_eq!(options.cards_limit, None);
    assert_eq!(options.boards_limit, None);
}

#[test]
fn tilde_prefix_becomes_a_dash() {
    assert_eq!(replace_negative_prefix("~label:done"), "-label:done");
    assert_eq!(replace_negative_prefix("label:done"), "label:done");
    assert_eq!(replace_negative_prefix("a~b"), "a~b");
    assert_eq!(replace_negative_prefix(""), "");
}
