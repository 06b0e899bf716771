//! Locate Trello boards, lists and cards by fuzzy name patterns, and edit a
//! card's text through an external editor.
//!
//! The crate's logic is verified: the name resolver ([`find`]) pins down
//! exactly which object a pattern picks and what every failure reports, the
//! card codec ([`trello::card`]) round-trips a card through its editable
//! text form, and the edit session ([`edit`]) is a pure state machine whose
//! caller only performs the file reads, uploads, process polls and prompts
//! it asks for.

pub mod edit;
pub mod find;
pub mod formatting;
pub mod pattern;
pub mod text;
pub mod trello;
