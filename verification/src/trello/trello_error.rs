//! The errors the library itself can produce.

use vstd::prelude::*;

verus! {

/// An error from the library's own logic: a URL that would not parse, or a
/// card buffer without a delimiter line.
#[derive(Debug, PartialEq, Eq)]
pub enum TrelloError {
    UrlParse(String),
    CardParse(String),
}

impl TrelloError {
    /// The error's text, for display by a caller.
    pub fn text(&self) -> (r: &str)
        ensures
            r@ == match *self {
                TrelloError::UrlParse(ref m) => m@,
                TrelloError::CardParse(ref m) => m@,
            },
    {
        match self {
            TrelloError::UrlParse(m) => m.as_str(),
            TrelloError::CardParse(m) => m.as_str(),
        }
    }
}

} // verus!
