//! Boards: a name, a closed flag, a URL, and optionally their lists.

use vstd::prelude::*;
use crate::pattern::{regex_ok, Matcher};
use crate::trello::list::{filter_cards, List, ListView};
use crate::trello::trello_object::TrelloObject;

verus! {

/// The mathematical value of a [`Board`].
pub struct BoardView {
    pub id: Seq<char>,
    pub name: Seq<char>,
    pub closed: bool,
    pub url: Seq<char>,
    pub lists: Option<Seq<ListView>>,
}

#[derive(Debug, PartialEq, Eq)]
pub struct Board {
    pub id: String,
    pub name: String,
    pub closed: bool,
    pub url: String,
    pub lists: Option<Vec<List>>,
}

impl DeepView for Board {
    type V = BoardView;

    open spec fn deep_view(&self) -> BoardView {
        BoardView {
            id: self.id@,
            name: self.name@,
            closed: self.closed,
            url: self.url@,
            lists: match self.lists {
                Option::Some(ls) => Option::Some(ls.deep_view()),
                Option::None => Option::None,
            },
        }
    }
}

impl Clone for Board {
    fn clone(&self) -> (r: Self)
        ensures
            r.deep_view() == self.deep_view(),
    {
        let lists = match &self.lists {
            Option::Some(ls) => {
                let c = ls.clone();
                proof {
                    assert(c.deep_view() =~= ls.deep_view());
                }
                Option::Some(c)
            },
            Option::None => Option::None,
        };
        Board {
            id: self.id.clone(),
            name: self.name.clone(),
            closed: self.closed,
            url: self.url.clone(),
            lists,
        }
    }
}

impl TrelloObject for Board {
    open spec fn name_spec(&self) -> Seq<char> {
        self.name@
    }

    open spec fn type_spec() -> Seq<char> {
        "Board"@
    }

    open spec fn fields_spec() -> Seq<Seq<char>> {
        seq!["id"@, "name"@, "closed"@, "url"@]
    }

    fn get_type() -> (r: String) {
        String::from_str("Board")
    }

    fn get_name(&self) -> (r: &str) {
        self.name.as_str()
    }

    fn get_fields() -> (r: Vec<&'static str>) {
        let r: Vec<&'static str> = vec!["id", "name", "closed", "url"];
        proof {
            assert(r@.map_values(|s: &'static str| s@) =~= Self::fields_spec());
        }
        r
    }
}

/// A list with only the cards whose labels the pattern matches.
pub open spec fn filter_list_view(l: ListView, pattern: Seq<char>) -> ListView {
    ListView {
        id: l.id,
        name: l.name,
        closed: l.closed,
        cards: match l.cards {
            Option::Some(cs) => Option::Some(filter_cards(cs, pattern)),
            Option::None => Option::None,
        },
    }
}

impl Board {
    /// A fresh, open board holding the given lists.
    pub fn new(id: &str, name: &str, lists: Option<Vec<List>>, url: &str) -> (r: Board)
        ensures
            r.id@ == id@,
            r.name@ == name@,
            r.url@ == url@,
            r.lists == lists,
            !r.closed,
    {
        Board {
            id: id.to_owned(),
            name: name.to_owned(),
            url: url.to_owned(),
            lists,
            closed: false,
        }
    }

    fn filter_with(&self, m: &Matcher) -> (r: Board)
        requires
            m.ignore_case_spec(),
        ensures
            r.id@ == self.id@,
            r.name@ == self.name@,
            r.closed == self.closed,
            r.url@ == self.url@,
            match self.lists {
                Option::Some(ls) => r.lists matches Option::Some(rs) && rs.deep_view()
                    == ls.deep_view().map_values(
                    |lv: ListView| filter_list_view(lv, m.pattern_spec()),
                ),
                Option::None => r.lists is None,
            },
    {
        let lists = match &self.lists {
            Option::Some(ls) => {
                let ghost f = |lv: ListView| filter_list_view(lv, m.pattern_spec());
                let mut out: Vec<List> = Vec::new();
                let mut k: usize = 0;
                proof {
                    assert(out.deep_view() =~= ls.deep_view().subrange(0, 0).map_values(f));
                }
                while k < ls.len()
                    invariant
                        k <= ls.len(),
                        m.ignore_case_spec(),
                        f == (|lv: ListView| filter_list_view(lv, m.pattern_spec())),
                        out.deep_view() == ls.deep_view().subrange(0, k as int).map_values(f),
                    decreases ls.len() - k,
                {
                    let fl = ls[k].filter_with(m);
                    let ghost old_out = out.deep_view();
                    out.push(fl);
                    proof {
                        assert(ls.deep_view()[k as int] == ls@[k as int].deep_view());
                        assert(fl.deep_view() == filter_list_view(
                            ls.deep_view()[k as int],
                            m.pattern_spec(),
                        ));
                        assert(out.deep_view() =~= old_out.push(fl.deep_view()));
                        let dv = ls.deep_view();
                        assert(dv.subrange(0, k + 1) =~= dv.subrange(0, k as int).push(
                            dv[k as int],
                        ));
                        assert(dv.subrange(0, k + 1).map_values(f) =~= dv.subrange(
                            0,
                            k as int,
                        ).map_values(f).push(f(dv[k as int])));
                    }
                    k = k + 1;
                }
                proof {
                    assert(ls.deep_view().subrange(0, ls.len() as int) =~= ls.deep_view());
                }
                Option::Some(out)
            },
            Option::None => Option::None,
        };
        Board {
            id: self.id.clone(),
            name: self.name.clone(),
            closed: self.closed,
            url: self.url.clone(),
            lists,
        }
    }

    /// A copy of the board where every list keeps only the cards with a
    /// label the pattern matches, case-insensitively.  The pattern must be a
    /// valid regular expression; [`Board::try_filter`] checks that first.
    pub fn filter(&self, filter_name: &str) -> (r: Board)
        requires
            regex_ok(filter_name@, true),
        ensures
            r.id@ == self.id@,
            r.name@ == self.name@,
            r.closed == self.closed,
            r.url@ == self.url@,
            match self.lists {
                Option::Some(ls) => r.lists matches Option::Some(rs) && rs.deep_view()
                    == ls.deep_view().map_values(
                    |lv: ListView| filter_list_view(lv, filter_name@),
                ),
                Option::None => r.lists is None,
            },
    {
        match Matcher::compile(filter_name, true) {
            Ok(m) => self.filter_with(&m),
            Err(_) => {
                proof {
                    assert(false);
                }
                Board {
                    id: String::new(),
                    name: String::new(),
                    closed: false,
                    url: String::new(),
                    lists: None,
                }
            },
        }
    }

    /// Like [`Board::filter`], but rejects an invalid pattern instead of
    /// requiring a valid one.
    pub fn try_filter(&self, filter_name: &str) -> (r: Option<Board>)
        ensures
            r is Some <==> regex_ok(filter_name@, true),
            r matches Some(f) ==> {
                &&& f.id@ == self.id@
                &&& f.name@ == self.name@
                &&& f.closed == self.closed
                &&& f.url@ == self.url@
                &&& match self.lists {
                    Option::Some(ls) => f.lists matches Option::Some(rs) && rs.deep_view()
                        == ls.deep_view().map_values(
                        |lv: ListView| filter_list_view(lv, filter_name@),
                    ),
                    Option::None => f.lists is None,
                }
            },
    {
        match Matcher::compile(filter_name, true) {
            Ok(_) => Some(self.filter(filter_name)),
            Err(_) => None,
        }
    }
}

} // verus!
