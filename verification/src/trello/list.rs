//! Lists: a name, a closed flag, and optionally the cards they hold.

use vstd::prelude::*;
use crate::pattern::{regex_match, regex_ok, Matcher};
use crate::trello::card::{Card, CardView};
use crate::trello::trello_object::TrelloObject;

verus! {

/// The mathematical value of a [`List`].
pub struct ListView {
    pub id: Seq<char>,
    pub name: Seq<char>,
    pub closed: bool,
    pub cards: Option<Seq<CardView>>,
}

#[derive(Debug, PartialEq, Eq)]
pub struct List {
    pub id: String,
    pub name: String,
    pub closed: bool,
    pub cards: Option<Vec<Card>>,
}

impl DeepView for List {
    type V = ListView;

    open spec fn deep_view(&self) -> ListView {
        ListView {
            id: self.id@,
            name: self.name@,
            closed: self.closed,
            cards: match self.cards {
                Option::Some(cs) => Option::Some(cs.deep_view()),
                Option::None => Option::None,
            },
        }
    }
}

pub(crate) fn clone_cards(cards: &Option<Vec<Card>>) -> (r: Option<Vec<Card>>)
    ensures
        match *cards {
            Option::Some(cs) => r matches Option::Some(rs) && rs.deep_view() == cs.deep_view(),
            Option::None => r is None,
        },
{
    match cards {
        Option::Some(cs) => {
            let c = cs.clone();
            proof {
                assert(c.deep_view() =~= cs.deep_view());
            }
            Option::Some(c)
        },
        Option::None => Option::None,
    }
}

impl Clone for List {
    fn clone(&self) -> (r: Self)
        ensures
            r.deep_view() == self.deep_view(),
    {
        List {
            id: self.id.clone(),
            name: self.name.clone(),
            closed: self.closed,
            cards: clone_cards(&self.cards),
        }
    }
}

impl TrelloObject for List {
    open spec fn name_spec(&self) -> Seq<char> {
        self.name@
    }

    open spec fn type_spec() -> Seq<char> {
        "List"@
    }

    open spec fn fields_spec() -> Seq<Seq<char>> {
        seq!["id"@, "name"@, "closed"@]
    }

    fn get_type() -> (r: String) {
        String::from_str("List")
    }

    fn get_name(&self) -> (r: &str) {
        self.name.as_str()
    }

    fn get_fields() -> (r: Vec<&'static str>) {
        let r: Vec<&'static str> = vec!["id", "name", "closed"];
        proof {
            assert(r@.map_values(|s: &'static str| s@) =~= Self::fields_spec());
        }
        r
    }
}

/// Whether some label of the card has a name the pattern matches
/// (case-insensitively).
pub open spec fn label_matches(c: CardView, pattern: Seq<char>) -> bool {
    match c.labels {
        Option::Some(ls) => exists|i: int|
            0 <= i < ls.len() && regex_match(pattern, true, ls[i].name),
        Option::None => false,
    }
}

/// The cards whose labels the pattern matches, in their original order.
pub open spec fn filter_cards(cs: Seq<CardView>, pattern: Seq<char>) -> Seq<CardView>
    decreases cs.len(),
{
    if cs.len() == 0 {
        Seq::empty()
    } else {
        filter_cards(cs.drop_last(), pattern) + if label_matches(cs.last(), pattern) {
            seq![cs.last()]
        } else {
            Seq::empty()
        }
    }
}

impl List {
    /// A fresh, open list holding the given cards.
    pub fn new(id: &str, name: &str, cards: Option<Vec<Card>>) -> (r: List)
        ensures
            r.id@ == id@,
            r.name@ == name@,
            r.cards == cards,
            !r.closed,
    {
        List { id: id.to_owned(), name: name.to_owned(), cards, closed: false }
    }

    pub(crate) fn filter_with(&self, m: &Matcher) -> (r: List)
        requires
            m.ignore_case_spec(),
        ensures
            r.id@ == self.id@,
            r.name@ == self.name@,
            r.closed == self.closed,
            match self.cards {
                Option::Some(cs) => r.cards matches Option::Some(rs) && rs.deep_view()
                    == filter_cards(cs.deep_view(), m.pattern_spec()),
                Option::None => r.cards is None,
            },
    {
        let cards = match &self.cards {
            Option::Some(cs) => {
                let mut out: Vec<Card> = Vec::new();
                let mut k: usize = 0;
                proof {
                    assert(out.deep_view() =~= filter_cards(
                        cs.deep_view().subrange(0, 0),
                        m.pattern_spec(),
                    ));
                }
                while k < cs.len()
                    invariant
                        k <= cs.len(),
                        m.ignore_case_spec(),
                        out.deep_view() == filter_cards(
                            cs.deep_view().subrange(0, k as int),
                            m.pattern_spec(),
                        ),
                    decreases cs.len() - k,
                {
                    let card = &cs[k];
                    proof {
                        assert(cs.deep_view()[k as int] == cs@[k as int].deep_view());
                    }
                    let mut any = false;
                    match &card.labels {
                        Option::Some(ls) => {
                            let mut i: usize = 0;
                            while i < ls.len()
                                invariant
                                    i <= ls.len(),
                                    m.ignore_case_spec(),
                                    any <==> exists|t: int|
                                        0 <= t < i && #[trigger] regex_match(
                                            m.pattern_spec(),
                                            true,
                                            ls.deep_view()[t].name,
                                        ),
                                decreases ls.len() - i,
                            {
                                let nm = ls[i].name.as_str();
                                let hit = m.is_match(nm);
                                proof {
                                    assert(ls.deep_view()[i as int] == ls@[i as int].deep_view());
                                    assert(ls.deep_view()[i as int].name == nm@);
                                }
                                if hit {
                                    any = true;
                                    proof {
                                        assert(regex_match(
                                            m.pattern_spec(),
                                            true,
                                            ls.deep_view()[i as int].name,
                                        ));
                                    }
                                }
                                i = i + 1;
                            }
                            proof {
                                assert(card.deep_view().labels == Option::Some(ls.deep_view()));
                                assert(ls.deep_view().len() == ls@.len());
                                if any {
                                    let t = choose|t: int|
                                        0 <= t < ls@.len() && #[trigger] regex_match(
                                            m.pattern_spec(),
                                            true,
                                            ls.deep_view()[t].name,
                                        );
                                    assert(regex_match(
                                        m.pattern_spec(),
                                        true,
                                        ls.deep_view()[t].name,
                                    ));
                                    assert(cs.deep_view()[k as int].labels->Some_0
                                        == ls.deep_view());
                                    assert(cs.deep_view()[k as int].labels->Some_0[t]
                                        == ls.deep_view()[t]);
                                    assert(label_matches(
                                        cs.deep_view()[k as int],
                                        m.pattern_spec(),
                                    ));
                                } else {
                                    assert(forall|t: int|
                                        0 <= t < ls@.len() ==> !#[trigger] regex_match(
                                            m.pattern_spec(),
                                            true,
                                            ls.deep_view()[t].name,
                                        ));
                                    assert(!label_matches(
                                        cs.deep_view()[k as int],
                                        m.pattern_spec(),
                                    ));
                                }
                                assert(any == label_matches(
                                    cs.deep_view()[k as int],
                                    m.pattern_spec(),
                                ));
                            }
                        },
                        Option::None => {
                            proof {
                                assert(card.deep_view().labels is None);
                                assert(!label_matches(cs.deep_view()[k as int], m.pattern_spec()));
                            }
                        },
                    }
                    let ghost old_out = out.deep_view();
                    if any {
                        let c = card.clone();
                        out.push(c);
                        proof {
                            assert(out.deep_view() =~= old_out.push(cs.deep_view()[k as int]));
                        }
                    }
                    proof {
                        let dv = cs.deep_view();
                        assert(dv.subrange(0, k + 1).drop_last() =~= dv.subrange(0, k as int));
                        assert(dv.subrange(0, k + 1).last() == dv[k as int]);
                        if any {
                            assert(out.deep_view() =~= filter_cards(
                                dv.subrange(0, k + 1),
                                m.pattern_spec(),
                            ));
                        } else {
                            assert(out.deep_view() =~= filter_cards(
                                dv.subrange(0, k + 1),
                                m.pattern_spec(),
                            ));
                        }
                    }
                    k = k + 1;
                }
                proof {
                    assert(cs.deep_view().subrange(0, cs.len() as int) =~= cs.deep_view());
                }
                Option::Some(out)
            },
            Option::None => Option::None,
        };
        List { id: self.id.clone(), name: self.name.clone(), closed: self.closed, cards }
    }

    /// A copy of the list keeping only the cards with a label the pattern
    /// matches, case-insensitively.  The pattern must be a valid regular
    /// expression; [`List::try_filter`] checks that first.
    pub fn filter(&self, label_filter: &str) -> (r: List)
        requires
            regex_ok(label_filter@, true),
        ensures
            r.id@ == self.id@,
            r.name@ == self.name@,
            r.closed == self.closed,
            match self.cards {
                Option::Some(cs) => r.cards matches Option::Some(rs) && rs.deep_view()
                    == filter_cards(cs.deep_view(), label_filter@),
                Option::None => r.cards is None,
            },
    {
        match Matcher::compile(label_filter, true) {
            Ok(m) => self.filter_with(&m),
            Err(_) => {
                proof {
                    assert(false);
                }
                List { id: String::new(), name: String::new(), closed: false, cards: None }
            },
        }
    }

    /// Like [`List::filter`], but rejects an invalid pattern instead of
    /// requiring a valid one.
    pub fn try_filter(&self, label_filter: &str) -> (r: Option<List>)
        ensures
            r is Some <==> regex_ok(label_filter@, true),
            r matches Some(f) ==> {
                &&& f.id@ == self.id@
                &&& f.name@ == self.name@
                &&& f.closed == self.closed
                &&& match self.cards {
                    Option::Some(cs) => f.cards matches Option::Some(rs) && rs.deep_view()
                        == filter_cards(cs.deep_view(), label_filter@),
                    Option::None => f.cards is None,
                }
            },
    {
        match Matcher::compile(label_filter, true) {
            Ok(_) => Some(self.filter(label_filter)),
            Err(_) => None,
        }
    }
}

} // verus!
