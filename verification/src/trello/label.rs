//! A card label: an id, a name and a colour name.

use vstd::prelude::*;
use crate::trello::trello_object::TrelloObject;

verus! {

/// The mathematical value of a [`Label`].
pub struct LabelView {
    pub id: Seq<char>,
    pub name: Seq<char>,
    pub color: Seq<char>,
}

#[derive(Debug, PartialEq, Eq)]
pub struct Label {
    pub id: String,
    pub name: String,
    pub color: String,
}

impl DeepView for Label {
    type V = LabelView;

    open spec fn deep_view(&self) -> LabelView {
        LabelView { id: self.id@, name: self.name@, color: self.color@ }
    }
}

impl Clone for Label {
    fn clone(&self) -> (r: Self)
        ensures
            r.deep_view() == self.deep_view(),
    {
        Label { id: self.id.clone(), name: self.name.clone(), color: self.color.clone() }
    }
}

impl TrelloObject for Label {
    open spec fn name_spec(&self) -> Seq<char> {
        self.name@
    }

    open spec fn type_spec() -> Seq<char> {
        "Label"@
    }

    open spec fn fields_spec() -> Seq<Seq<char>> {
        seq!["id"@, "name"@, "color"@]
    }

    fn get_type() -> (r: String) {
        String::from_str("Label")
    }

    fn get_name(&self) -> (r: &str) {
        self.name.as_str()
    }

    fn get_fields() -> (r: Vec<&'static str>) {
        let r: Vec<&'static str> = vec!["id", "name", "color"];
        proof {
            assert(r@.map_values(|s: &'static str| s@) =~= Self::fields_spec());
        }
        r
    }
}

impl Label {
    pub fn new(id: &str, name: &str, color: &str) -> (r: Label)
        ensures
            r.id@ == id@,
            r.name@ == name@,
            r.color@ == color@,
    {
        Label { id: id.to_owned(), name: name.to_owned(), color: color.to_owned() }
    }
}

} // verus!
