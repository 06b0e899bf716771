//! Trello's remote objects — boards, lists, cards, labels — modelled as plain
//! data, together with the pattern resolver's view of them.

pub mod action;
pub mod attachment;
pub mod board;
pub mod card;
pub mod client;
pub mod formatting;
pub mod label;
pub mod list;
pub mod member;
pub mod search;
pub mod trello_error;
pub mod trello_object;

pub use action::Action;
pub use attachment::Attachment;
pub use board::Board;
pub use card::{Card, CardContents};
pub use client::ClientConfig;
pub use list::List;
pub use member::Member;
pub use search::SearchOptions;
pub use label::Label;
pub use trello_error::TrelloError;
pub use trello_object::{Renderable, TrelloObject};
