//! The logged-in member, as the remote service reports it.

use vstd::prelude::*;

verus! {

#[derive(Debug, PartialEq, Eq)]
pub struct Member {
    pub id: String,
    pub full_name: String,
    pub username: String,
}

impl Member {
    pub fn new(id: &str, full_name: &str, username: &str) -> (r: Member)
        ensures
            r.id@ == id@,
            r.full_name@ == full_name@,
            r.username@ == username@,
    {
        Member {
            id: id.to_owned(),
            full_name: full_name.to_owned(),
            username: username.to_owned(),
        }
    }
}

} // verus!
