//! Actions from a board's activity feed, and the member who caused them.

use vstd::prelude::*;

verus! {

#[derive(Debug, PartialEq, Eq)]
pub struct Member {
    pub id: String,
    pub full_name: String,
}

impl Member {
    /// Renders the member as their full name.
    pub fn render(&self) -> (r: String)
        ensures
            r@ == self.full_name@,
    {
        self.full_name.clone()
    }
}

#[derive(Debug, PartialEq, Eq)]
pub struct Action {
    pub id: String,
    pub action_type: String,
    pub date: String,
    pub member_creator: Member,
}

impl Action {
    /// What [`Action::render`] returns: the action's type, date and author
    /// on one line.
    pub open spec fn render_spec(&self) -> Seq<char> {
        self.action_type@ + " on "@ + self.date@ + " by "@ + self.member_creator.full_name@
    }

    pub fn render(&self) -> (r: String)
        ensures
            r@ == self.render_spec(),
    {
        let mut r = self.action_type.clone();
        r.append(" on ");
        let date = self.date.as_str();
        r.append(date);
        r.append(" by ");
        let who = self.member_creator.full_name.as_str();
        r.append(who);
        r
    }
}

} // verus!
