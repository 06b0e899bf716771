//! File attachments on a card: an id, a name and a URL.

use vstd::prelude::*;
use crate::trello::formatting::{header, header_spec};
use crate::trello::trello_object::{Renderable, TrelloObject};

verus! {

#[derive(Debug, PartialEq, Eq)]
pub struct Attachment {
    pub id: String,
    pub name: String,
    pub url: String,
}

impl Clone for Attachment {
    fn clone(&self) -> (r: Self)
        ensures
            r.id@ == self.id@,
            r.name@ == self.name@,
            r.url@ == self.url@,
    {
        Attachment { id: self.id.clone(), name: self.name.clone(), url: self.url.clone() }
    }
}

impl TrelloObject for Attachment {
    open spec fn name_spec(&self) -> Seq<char> {
        self.name@
    }

    open spec fn type_spec() -> Seq<char> {
        "Attachment"@
    }

    open spec fn fields_spec() -> Seq<Seq<char>> {
        seq!["id"@, "name"@, "url"@]
    }

    fn get_type() -> (r: String) {
        String::from_str("Attachment")
    }

    fn get_name(&self) -> (r: &str) {
        self.name.as_str()
    }

    fn get_fields() -> (r: Vec<&'static str>) {
        let r: Vec<&'static str> = vec!["id", "name", "url"];
        proof {
            assert(r@.map_values(|s: &'static str| s@) =~= Self::fields_spec());
        }
        r
    }
}

impl Renderable for Attachment {
    /// The name underlined with dashes, then the URL.
    open spec fn render_spec(&self) -> Seq<char> {
        header_spec(self.name@, "-"@) + "\n"@ + self.url@
    }

    open spec fn simple_render_spec(&self) -> Seq<char> {
        self.name@
    }

    fn render(&self) -> (r: String) {
        let mut r = header(self.name.as_str(), "-");
        r.append("\n");
        let url = self.url.as_str();
        r.append(url);
        r
    }

    fn simple_render(&self) -> (r: String) {
        self.name.clone()
    }
}

} // verus!
