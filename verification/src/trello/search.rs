//! Options for the remote search, and the query rewriting the CLI needs.

use vstd::prelude::*;

verus! {

/// How the remote search behaves: partial matching, and caps on how many
/// cards and boards come back.
#[derive(Debug, PartialEq, Eq)]
pub struct SearchOptions {
    pub partial: bool,
    pub cards_limit: Option<i32>,
    pub boards_limit: Option<i32>,
}

impl Default for SearchOptions {
    /// No partial matching and no limits.
    fn default() -> (r: Self)
        ensures
            !r.partial,
            r.cards_limit is None,
            r.boards_limit is None,
    {
        SearchOptions { partial: false, cards_limit: None, boards_limit: None }
    }
}

/// Flag parsing eats a leading `-`, so a leading `~` stands in for it:
/// rewrites the first character of the query, and only that, accordingly.
pub fn replace_negative_prefix(query: &str) -> (r: String)
    ensures
        query@.len() > 0 && query@[0] == '~' ==> r@ == seq!['-'] + query@.drop_first(),
        !(query@.len() > 0 && query@[0] == '~') ==> r@ == query@,
{
    let n = query.unicode_len();
    if n > 0 && query.get_char(0) == '~' {
        let mut r = String::from_str("-");
        let rest = query.substring_char(1, n);
        r.append(rest);
        proof {
            reveal_strlit("-");
            assert("-"@ =~= seq!['-']);
            assert(query@.subrange(1, n as int) =~= query@.drop_first());
            assert(r@ =~= seq!['-'] + query@.drop_first());
        }
        r
    } else {
        query.to_owned()
    }
}

} // verus!
