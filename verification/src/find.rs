//! Resolving exactly one object from a collection by a name pattern, and
//! locating a board, list and card along the board → list → card hierarchy.

use vstd::prelude::*;
use crate::pattern::{regex_match, regex_ok, Matcher};
use crate::trello::board::Board;
use crate::trello::card::{Card, CardView};
use crate::trello::list::{List, ListView};
use crate::trello::trello_object::TrelloObject;

verus! {

/// Whether the pattern matches somewhere inside the object's name.
pub open spec fn matches_name<T: TrelloObject>(o: T, pattern: Seq<char>, ignore_case: bool) -> bool {
    regex_match(pattern, ignore_case, o.name_spec())
}

/// The objects whose names the pattern matches, in their original order.
pub open spec fn matched<T: TrelloObject>(
    objects: Seq<T>,
    pattern: Seq<char>,
    ignore_case: bool,
) -> Seq<T>
    decreases objects.len(),
{
    if objects.len() == 0 {
        Seq::empty()
    } else {
        matched(objects.drop_last(), pattern, ignore_case) + if matches_name(
            objects.last(),
            pattern,
            ignore_case,
        ) {
            seq![objects.last()]
        } else {
            Seq::empty()
        }
    }
}

/// The names of the matched objects, in order.
pub open spec fn matched_names<T: TrelloObject>(
    objects: Seq<T>,
    pattern: Seq<char>,
    ignore_case: bool,
) -> Seq<Seq<char>> {
    matched(objects, pattern, ignore_case).map_values(|o: T| o.name_spec())
}

/// Every matched object is one of the objects searched.
pub proof fn lemma_matched_in<T: TrelloObject>(objects: Seq<T>, pattern: Seq<char>, ic: bool)
    ensures
        forall|t: int|
            0 <= t < matched(objects, pattern, ic).len() ==> exists|j: int|
                0 <= j < objects.len() && #[trigger] matched(objects, pattern, ic)[t] == objects[j],
    decreases objects.len(),
{
    if objects.len() > 0 {
        lemma_matched_in(objects.drop_last(), pattern, ic);
        let ms = matched(objects, pattern, ic);
        let prev = matched(objects.drop_last(), pattern, ic);
        assert forall|t: int| 0 <= t < ms.len() implies exists|j: int|
            0 <= j < objects.len() && #[trigger] ms[t] == objects[j] by {
            if t < prev.len() {
                let j = choose|j: int| 0 <= j < objects.drop_last().len() && prev[t] == objects.drop_last()[j];
                assert(ms[t] == objects[j]);
            } else {
                assert(ms[t] == objects.last());
                assert(ms[t] == objects[objects.len() - 1]);
            }
        }
    }
}

/// Each matched name, quoted, with `, ` between them.
pub open spec fn quoted_names(names: Seq<Seq<char>>) -> Seq<char>
    decreases names.len(),
{
    if names.len() == 0 {
        Seq::empty()
    } else if names.len() == 1 {
        "'"@ + names[0] + "'"@
    } else {
        quoted_names(names.drop_last()) + ", "@ + "'"@ + names.last() + "'"@
    }
}

/// The message when nothing matched: it names the type and repeats the
/// pattern.
pub open spec fn not_found_msg(type_label: Seq<char>, pattern: Seq<char>) -> Seq<char> {
    type_label + " not found. Specify a more precise filter than '"@ + pattern + "'"@
}

/// The message when several objects matched: it names the type, repeats the
/// pattern, and lists every matched name.
pub open spec fn multiple_msg(
    type_label: Seq<char>,
    pattern: Seq<char>,
    names: Seq<Seq<char>>,
) -> Seq<char> {
    "More than one "@ + type_label + " found. Specify a more precise filter than '"@ + pattern
        + "' (Found "@ + quoted_names(names) + ")"@
}

/// Whether `sub` occurs contiguously inside `s`.
pub open spec fn contains_seq(s: Seq<char>, sub: Seq<char>) -> bool {
    exists|i: int| 0 <= i && i + sub.len() <= s.len() && #[trigger] s.subrange(i, i + sub.len())
        == sub
}

proof fn lemma_contains_self(x: Seq<char>)
    ensures
        contains_seq(x, x),
{
    assert(x.subrange(0, 0 + x.len() as int) =~= x);
}

proof fn lemma_contains_append_right(a: Seq<char>, b: Seq<char>, x: Seq<char>)
    requires
        contains_seq(a, x),
    ensures
        contains_seq(a + b, x),
{
    let i = choose|i: int|
        0 <= i && i + x.len() <= a.len() && #[trigger] a.subrange(i, i + x.len()) == x;
    assert((a + b).subrange(i, i + x.len()) =~= a.subrange(i, i + x.len()));
}

proof fn lemma_contains_append_left(a: Seq<char>, b: Seq<char>, x: Seq<char>)
    requires
        contains_seq(b, x),
    ensures
        contains_seq(a + b, x),
{
    let i = choose|i: int|
        0 <= i && i + x.len() <= b.len() && #[trigger] b.subrange(i, i + x.len()) == x;
    assert((a + b).subrange(a.len() + i, a.len() + i + x.len()) =~= b.subrange(i, i + x.len()));
}

/// The quoted list contains each of the names.
proof fn lemma_quoted_names_contains(names: Seq<Seq<char>>, t: int)
    requires
        0 <= t < names.len(),
    ensures
        contains_seq(quoted_names(names), names[t]),
    decreases names.len(),
{
    if names.len() == 1 {
        lemma_contains_self(names[0]);
        lemma_contains_append_right(names[0], "'"@, names[0]);
        lemma_contains_append_left("'"@, names[0] + "'"@, names[0]);
        assert("'"@ + (names[0] + "'"@) =~= "'"@ + names[0] + "'"@);
        assert(quoted_names(names) == "'"@ + names[0] + "'"@);
    } else {
        let qd = quoted_names(names.drop_last());
        assert(quoted_names(names) == qd + ", "@ + "'"@ + names.last() + "'"@);
        if t < names.len() - 1 {
            lemma_quoted_names_contains(names.drop_last(), t);
            assert(names.drop_last()[t] == names[t]);
            lemma_contains_append_right(qd, ", "@, names[t]);
            lemma_contains_append_right(qd + ", "@, "'"@, names[t]);
            lemma_contains_append_right(qd + ", "@ + "'"@, names.last(), names[t]);
            lemma_contains_append_right(qd + ", "@ + "'"@ + names.last(), "'"@, names[t]);
        } else {
            lemma_contains_self(names.last());
            lemma_contains_append_left(qd + ", "@ + "'"@, names.last(), names.last());
            lemma_contains_append_right(qd + ", "@ + "'"@ + names.last(), "'"@, names.last());
            assert(names[t] == names.last());
        }
    }
}

/// The "not found" error text contains the offending pattern.
pub proof fn lemma_not_found_msg_contains_pattern(type_label: Seq<char>, pattern: Seq<char>)
    ensures
        contains_seq(not_found_msg(type_label, pattern), pattern),
{
    let pre = type_label + " not found. Specify a more precise filter than '"@;
    lemma_contains_self(pattern);
    lemma_contains_append_left(pre, pattern, pattern);
    lemma_contains_append_right(pre + pattern, "'"@, pattern);
    assert(not_found_msg(type_label, pattern) == pre + pattern + "'"@);
}

/// The "multiple found" error text contains the offending pattern and every
/// matched name.
pub proof fn lemma_multiple_msg_contains_names(
    type_label: Seq<char>,
    pattern: Seq<char>,
    names: Seq<Seq<char>>,
)
    ensures
        contains_seq(multiple_msg(type_label, pattern, names), pattern),
        forall|t: int|
            0 <= t < names.len() ==> contains_seq(
                multiple_msg(type_label, pattern, names),
                #[trigger] names[t],
            ),
{
    let msg = multiple_msg(type_label, pattern, names);
    let pre = "More than one "@ + type_label + " found. Specify a more precise filter than '"@;
    lemma_contains_self(pattern);
    lemma_contains_append_left(pre, pattern, pattern);
    lemma_contains_append_right(pre + pattern, "' (Found "@, pattern);
    lemma_contains_append_right(pre + pattern + "' (Found "@, quoted_names(names), pattern);
    lemma_contains_append_right(
        pre + pattern + "' (Found "@ + quoted_names(names),
        ")"@,
        pattern,
    );
    assert(msg == pre + pattern + "' (Found "@ + quoted_names(names) + ")"@);
    assert forall|t: int| 0 <= t < names.len() implies contains_seq(msg, #[trigger] names[t]) by {
        lemma_quoted_names_contains(names, t);
        lemma_contains_append_left(pre + pattern + "' (Found "@, quoted_names(names), names[t]);
        lemma_contains_append_right(
            pre + pattern + "' (Found "@ + quoted_names(names),
            ")"@,
            names[t],
        );
    }
}

/// Why a pattern failed to resolve to exactly one object.
#[derive(Debug, PartialEq, Eq)]
pub enum FindError {
    Regex(String),
    Multiple(String),
    NotFound(String),
    WildCard(String),
}

/// Searches a collection and matches one and only one object against the
/// name pattern.  Zero matches and two or more matches are errors, and the
/// error text repeats the pattern — and, for several matches, every matched
/// name — so the caller can refine the pattern.
pub fn get_object_by_name<'a, T: TrelloObject>(
    objects: &'a Vec<T>,
    name: &str,
    ignore_case: bool,
) -> (r: Result<&'a T, FindError>)
    ensures
        (r matches Err(e) && e matches FindError::Regex(_)) <==> !regex_ok(name@, ignore_case),
        regex_ok(name@, ignore_case) ==> match r {
            Ok(o) => matched(objects@, name@, ignore_case).len() == 1 && *o == matched(
                objects@,
                name@,
                ignore_case,
            )[0],
            Err(e) => match e {
                FindError::NotFound(m) => matched(objects@, name@, ignore_case).len() == 0 && m@
                    == not_found_msg(T::type_spec(), name@),
                FindError::Multiple(m) => matched(objects@, name@, ignore_case).len() >= 2 && m@
                    == multiple_msg(
                    T::type_spec(),
                    name@,
                    matched_names(objects@, name@, ignore_case),
                ),
                _ => false,
            },
        },
{
    let m = match Matcher::compile(name, ignore_case) {
        Ok(m) => m,
        Err(e) => {
            return Err(FindError::Regex(e));
        },
    };
    let ghost fidx = |j: usize| objects@[j as int];
    let n = objects.len();
    let mut found: Vec<usize> = Vec::new();
    let mut i: usize = 0;
    proof {
        assert(found@.map_values(fidx) =~= matched(
            objects@.subrange(0, 0),
            name@,
            ignore_case,
        ));
    }
    while i < n
        invariant
            i <= n,
            n == objects.len(),
            m.pattern_spec() == name@,
            m.ignore_case_spec() == ignore_case,
            fidx == (|j: usize| objects@[j as int]),
            forall|t: int| 0 <= t < found.len() ==> #[trigger] found@[t] < i,
            found@.map_values(fidx) == matched(
                objects@.subrange(0, i as int),
                name@,
                ignore_case,
            ),
        decreases n - i,
    {
        let nm = objects[i].get_name();
        let hit = m.is_match(nm);
        let ghost old_found = found@;
        if hit {
            found.push(i);
        }
        proof {
            let dv = objects@;
            assert(dv.subrange(0, i + 1).drop_last() =~= dv.subrange(0, i as int));
            assert(dv.subrange(0, i + 1).last() == dv[i as int]);
            assert(nm@ == dv[i as int].name_spec());
            if hit {
                assert(found@ =~= old_found.push(i));
                assert(found@.map_values(fidx) =~= old_found.map_values(fidx).push(
                    dv[i as int],
                ));
                assert(found@.map_values(fidx) =~= matched(
                    dv.subrange(0, i + 1),
                    name@,
                    ignore_case,
                ));
            } else {
                assert(found@.map_values(fidx) =~= matched(
                    dv.subrange(0, i + 1),
                    name@,
                    ignore_case,
                ));
            }
        }
        i = i + 1;
    }
    proof {
        assert(objects@.subrange(0, n as int) =~= objects@);
    }
    let ghost ms = matched(objects@, name@, ignore_case);
    if found.len() == 1 {
        let idx = found[0];
        let o = &objects[idx];
        proof {
            assert(ms[0] == found@.map_values(fidx)[0]);
        }
        Ok(o)
    } else if found.len() == 0 {
        let mut msg = T::get_type();
        msg.append(" not found. Specify a more precise filter than '");
        msg.append(name);
        msg.append("'");
        Err(FindError::NotFound(msg))
    } else {
        let mut msg = String::from_str("More than one ");
        let ty = T::get_type();
        msg.append(ty.as_str());
        msg.append(" found. Specify a more precise filter than '");
        msg.append(name);
        msg.append("' (Found ");
        let ghost names = matched_names(objects@, name@, ignore_case);
        let mut q = String::new();
        let mut t: usize = 0;
        proof {
            assert(names.subrange(0, 0) =~= Seq::<Seq<char>>::empty());
            assert(q@ =~= quoted_names(names.subrange(0, 0)));
        }
        while t < found.len()
            invariant
                t <= found.len(),
                found.len() == ms.len(),
                names == matched_names(objects@, name@, ignore_case),
                ms == matched(objects@, name@, ignore_case),
                names == ms.map_values(|o: T| o.name_spec()),
                found@.map_values(fidx) == ms,
                fidx == (|j: usize| objects@[j as int]),
                forall|u: int| 0 <= u < found.len() ==> #[trigger] found@[u] < objects.len(),
                q@ == quoted_names(names.subrange(0, t as int)),
            decreases found.len() - t,
        {
            if t > 0 {
                q.append(", ");
            }
            q.append("'");
            let idx = found[t];
            let nm = objects[idx].get_name();
            q.append(nm);
            q.append("'");
            proof {
                assert(ms[t as int] == found@.map_values(fidx)[t as int]);
                assert(names[t as int] == ms[t as int].name_spec());
                assert(nm@ == names[t as int]);
                assert(names.subrange(0, t + 1).drop_last() =~= names.subrange(0, t as int));
                assert(names.subrange(0, t + 1).last() == names[t as int]);
                if t > 0 {
                    assert(q@ =~= quoted_names(names.subrange(0, t as int)) + ", "@ + "'"@
                        + names[t as int] + "'"@);
                    assert(q@ =~= quoted_names(names.subrange(0, t + 1)));
                } else {
                    assert(names.subrange(0, 1).len() == 1);
                    assert(q@ =~= "'"@ + names[0] + "'"@);
                    assert(q@ =~= quoted_names(names.subrange(0, 1)));
                }
            }
            t = t + 1;
        }
        proof {
            assert(names.subrange(0, found.len() as int) =~= names);
        }
        msg.append(q.as_str());
        msg.append(")");
        Err(FindError::Multiple(msg))
    }
}

/// The name patterns of one search: board, list and card are each optional,
/// and matching can fold case.
#[derive(Debug, PartialEq, Eq)]
pub struct TrelloParams {
    pub board_name: Option<String>,
    pub list_name: Option<String>,
    pub card_name: Option<String>,
    pub ignore_case: bool,
}

/// What a search located along the hierarchy.
#[derive(Debug, PartialEq, Eq)]
pub struct TrelloResult {
    pub board: Option<Board>,
    pub list: Option<List>,
    pub card: Option<Card>,
}

/// The populated fields of a result form a hierarchy-consistent prefix: a
/// list or a card is never located without its board.  A card without a list
/// is the wildcard path.
pub open spec fn trello_result_wf(r: TrelloResult) -> bool {
    &&& r.list is Some ==> r.board is Some
    &&& r.card is Some ==> r.board is Some
}

/// The locator's first decision: with no board pattern there is nothing to
/// fetch and the result is all-unset, not an error.
pub fn locate_start(params: &TrelloParams) -> (r: Option<TrelloResult>)
    ensures
        r is None <==> params.board_name is Some,
        r matches Some(res) ==> res.board is None && res.list is None && res.card is None,
{
    match &params.board_name {
        Option::Some(_) => None,
        Option::None => Some(TrelloResult { board: None, list: None, card: None }),
    }
}

/// A board whose full tree was fetched: its lists are present and each list
/// carries its cards.
pub open spec fn tree_full(b: Board) -> bool {
    match b.lists {
        Option::Some(ls) => forall|i: int| 0 <= i < ls@.len() ==> (#[trigger] ls@[i]).cards is Some,
        Option::None => false,
    }
}

/// All the board's cards, across all its lists, in list order.
pub open spec fn flat_card_views(lists: Seq<ListView>) -> Seq<CardView>
    decreases lists.len(),
{
    if lists.len() == 0 {
        Seq::empty()
    } else {
        flat_card_views(lists.drop_last()) + lists.last().cards->Some_0
    }
}

/// The card values whose names the pattern matches, in order.
pub open spec fn matched_card_views(
    cards: Seq<CardView>,
    pattern: Seq<char>,
    ignore_case: bool,
) -> Seq<CardView>
    decreases cards.len(),
{
    if cards.len() == 0 {
        Seq::empty()
    } else {
        matched_card_views(cards.drop_last(), pattern, ignore_case) + if regex_match(
            pattern,
            ignore_case,
            cards.last().name,
        ) {
            seq![cards.last()]
        } else {
            Seq::empty()
        }
    }
}

/// The names of the card values, in order.
pub open spec fn card_view_names(cards: Seq<CardView>) -> Seq<Seq<char>> {
    cards.map_values(|c: CardView| c.name)
}

/// Matching cards by value and matching their views agree.
pub proof fn lemma_matched_card_views(cs: Seq<Card>, pattern: Seq<char>, ic: bool)
    ensures
        matched(cs, pattern, ic).map_values(|c: Card| c.deep_view()) == matched_card_views(
            cs.map_values(|c: Card| c.deep_view()),
            pattern,
            ic,
        ),
        matched_names(cs, pattern, ic) == card_view_names(
            matched_card_views(cs.map_values(|c: Card| c.deep_view()), pattern, ic),
        ),
    decreases cs.len(),
{
    let dvf = |c: Card| c.deep_view();
    let nmf = |c: Card| c.name_spec();
    let vnf = |c: CardView| c.name;
    if cs.len() == 0 {
        assert(matched(cs, pattern, ic).map_values(dvf) =~= matched_card_views(
            cs.map_values(dvf),
            pattern,
            ic,
        ));
        assert(matched(cs, pattern, ic).map_values(nmf) =~= card_view_names(
            matched_card_views(cs.map_values(dvf), pattern, ic),
        ));
    } else {
        lemma_matched_card_views(cs.drop_last(), pattern, ic);
        let vs = cs.map_values(dvf);
        assert(vs.drop_last() =~= cs.drop_last().map_values(dvf));
        assert(vs.last() == cs.last().deep_view());
        assert(cs.last().name_spec() == vs.last().name);
        assert(matched(cs, pattern, ic).map_values(dvf) =~= matched_card_views(
            vs,
            pattern,
            ic,
        ));
        assert(matched(cs, pattern, ic).map_values(nmf) =~= card_view_names(
            matched_card_views(vs, pattern, ic),
        ));
    }
}

/// Locates list and card inside a board whose full tree is present, as the
/// search patterns ask.  The list pattern `"-"` is the wildcard: the card is
/// then sought across all the board's lists at once and the result carries
/// no list.  Every resolution failure is returned unchanged.
pub fn locate_in_board(board: &Board, params: &TrelloParams) -> (r: Result<
    TrelloResult,
    FindError,
>)
    requires
        tree_full(*board),
    ensures
        r matches Ok(res) ==> ({
            &&& trello_result_wf(res)
            &&& res.board matches Some(b) && b.deep_view() == board.deep_view()
        }),
        params.list_name matches Some(ln) ==> (if ln@ == "-"@ {
            match params.card_name {
                Option::Some(cn) => {
                    let flat = flat_card_views(board.lists->Some_0.deep_view());
                    let ic = params.ignore_case;
                    if !regex_ok(cn@, ic) {
                        r matches Err(e) && e matches FindError::Regex(_)
                    } else {
                        let ms = matched_card_views(flat, cn@, ic);
                        if ms.len() == 1 {
                            &&& r matches Ok(res)
                            &&& res.list is None
                            &&& res.card matches Some(c) && c.deep_view() == ms[0]
                        } else if ms.len() == 0 {
                            r matches Err(FindError::NotFound(m)) && m@ == not_found_msg(
                                "Card"@,
                                cn@,
                            )
                        } else {
                            r matches Err(FindError::Multiple(m)) && m@ == multiple_msg(
                                "Card"@,
                                cn@,
                                card_view_names(ms),
                            )
                        }
                    }
                },
                Option::None => r matches Err(FindError::WildCard(m)) && m@
                    == "Card name must be specified with list '-' wildcard"@,
            }
        } else {
            let ic = params.ignore_case;
            if !regex_ok(ln@, ic) {
                r matches Err(e) && e matches FindError::Regex(_)
            } else {
                let lms = matched(board.lists->Some_0@, ln@, ic);
                if lms.len() == 0 {
                    r matches Err(FindError::NotFound(m)) && m@ == not_found_msg("List"@, ln@)
                } else if lms.len() >= 2 {
                    r matches Err(FindError::Multiple(m)) && m@ == multiple_msg(
                        "List"@,
                        ln@,
                        matched_names(board.lists->Some_0@, ln@, ic),
                    )
                } else {
                    match params.card_name {
                        Option::Some(cn) => if !regex_ok(cn@, ic) {
                            r matches Err(e) && e matches FindError::Regex(_)
                        } else {
                            let cms = matched(lms[0].cards->Some_0@, cn@, ic);
                            if cms.len() == 1 {
                                &&& r matches Ok(res)
                                &&& res.list matches Some(l) && l.deep_view()
                                    == lms[0].deep_view()
                                &&& res.card matches Some(c) && c.deep_view()
                                    == cms[0].deep_view()
                            } else if cms.len() == 0 {
                                r matches Err(FindError::NotFound(m)) && m@ == not_found_msg(
                                    "Card"@,
                                    cn@,
                                )
                            } else {
                                r matches Err(FindError::Multiple(m)) && m@ == multiple_msg(
                                    "Card"@,
                                    cn@,
                                    matched_names(lms[0].cards->Some_0@, cn@, ic),
                                )
                            }
                        },
                        Option::None => {
                            &&& r matches Ok(res)
                            &&& res.list matches Some(l) && l.deep_view() == lms[0].deep_view()
                            &&& res.card is None
                        },
                    }
                }
            }
        }),
        params.list_name is None ==> (r matches Ok(res) && res.list is None && res.card is None),
{
    let is_wildcard = match &params.list_name {
        Option::Some(ln) => crate::text::str_eq(ln.as_str(), "-"),
        Option::None => false,
    };
    if is_wildcard {
        match &params.card_name {
            Option::Some(cn) => {
                let lists = match &board.lists {
                    Option::Some(ls) => ls,
                    Option::None => {
                        proof {
                            assert(false);
                        }
                        return Err(FindError::WildCard(String::new()));
                    },
                };
                let mut flat: Vec<Card> = Vec::new();
                let mut k: usize = 0;
                proof {
                    assert(flat.deep_view() =~= flat_card_views(
                        lists.deep_view().subrange(0, 0),
                    ));
                }
                while k < lists.len()
                    invariant
                        k <= lists.len(),
                        tree_full(*board),
                        board.lists matches Some(ls2) && ls2 == *lists,
                        flat.deep_view() == flat_card_views(
                            lists.deep_view().subrange(0, k as int),
                        ),
                    decreases lists.len() - k,
                {
                    let cards = match &lists[k].cards {
                        Option::Some(cs) => cs,
                        Option::None => {
                            proof {
                                assert(false);
                            }
                            return Err(FindError::WildCard(String::new()));
                        },
                    };
                    let mut j: usize = 0;
                    proof {
                        assert(lists.deep_view()[k as int] == lists@[k as int].deep_view());
                        assert(lists.deep_view()[k as int].cards == Some(cards.deep_view()));
                        assert(cards.deep_view().subrange(0, 0) =~= Seq::<CardView>::empty());
                        assert(flat.deep_view() =~= flat_card_views(
                            lists.deep_view().subrange(0, k as int),
                        ) + cards.deep_view().subrange(0, 0));
                    }
                    while j < cards.len()
                        invariant
                            j <= cards.len(),
                            k < lists.len(),
                            flat.deep_view() == flat_card_views(
                                lists.deep_view().subrange(0, k as int),
                            ) + cards.deep_view().subrange(0, j as int),
                        decreases cards.len() - j,
                    {
                        let c = cards[j].clone();
                        let ghost old_flat = flat.deep_view();
                        flat.push(c);
                        proof {
                            assert(cards.deep_view()[j as int] == cards@[j as int].deep_view());
                            assert(flat.deep_view() =~= old_flat.push(
                                cards.deep_view()[j as int],
                            ));
                            assert(cards.deep_view().subrange(0, j + 1) =~= cards.deep_view()
                                .subrange(0, j as int).push(cards.deep_view()[j as int]));
                            assert(flat.deep_view() =~= flat_card_views(
                                lists.deep_view().subrange(0, k as int),
                            ) + cards.deep_view().subrange(0, j + 1));
                        }
                        j = j + 1;
                    }
                    proof {
                        let ldv = lists.deep_view();
                        assert(cards.deep_view().subrange(0, cards.len() as int) =~= cards
                            .deep_view());
                        assert(ldv.subrange(0, k + 1).drop_last() =~= ldv.subrange(0, k as int));
                        assert(ldv.subrange(0, k + 1).last() == ldv[k as int]);
                        assert(flat.deep_view() =~= flat_card_views(ldv.subrange(0, k + 1)));
                    }
                    k = k + 1;
                }
                proof {
                    assert(lists.deep_view().subrange(0, lists.len() as int) =~= lists
                        .deep_view());
                    lemma_matched_card_views(flat@, cn@, params.ignore_case);
                    assert(flat@.map_values(|c: Card| c.deep_view()) =~= flat.deep_view());
                }
                match get_object_by_name(&flat, cn.as_str(), params.ignore_case) {
                    Ok(card) => {
                        let board_out = board.clone();
                        let card_out = card.clone();
                        Ok(TrelloResult { board: Some(board_out), list: None, card: Some(card_out) })
                    },
                    Err(e) => Err(e),
                }
            },
            Option::None => Err(
                FindError::WildCard(
                    String::from_str("Card name must be specified with list '-' wildcard"),
                ),
            ),
        }
    } else if let Option::Some(ln) = &params.list_name {
        let lists = match &board.lists {
            Option::Some(ls) => ls,
            Option::None => {
                proof {
                    assert(false);
                }
                return Err(FindError::WildCard(String::new()));
            },
        };
        let list = match get_object_by_name(lists, ln.as_str(), params.ignore_case) {
            Ok(l) => l,
            Err(e) => {
                return Err(e);
            },
        };
        proof {
            lemma_matched_in(lists@, ln@, params.ignore_case);
        }
        match &params.card_name {
            Option::Some(cn) => {
                let cards = match &list.cards {
                    Option::Some(cs) => cs,
                    Option::None => {
                        proof {
                            let lms = matched(lists@, ln@, params.ignore_case);
                            let j = choose|j: int|
                                0 <= j < lists@.len() && #[trigger] lms[0] == lists@[j];
                            assert(lists@[j].cards is Some);
                            assert(false);
                        }
                        return Err(FindError::WildCard(String::new()));
                    },
                };
                let card = match get_object_by_name(cards, cn.as_str(), params.ignore_case) {
                    Ok(c) => c,
                    Err(e) => {
                        return Err(e);
                    },
                };
                let board_out = board.clone();
                let list_out = list.clone();
                let card_out = card.clone();
                Ok(
                    TrelloResult {
                        board: Some(board_out),
                        list: Some(list_out),
                        card: Some(card_out),
                    },
                )
            },
            Option::None => {
                let board_out = board.clone();
                let list_out = list.clone();
                Ok(TrelloResult { board: Some(board_out), list: Some(list_out), card: None })
            },
        }
    } else {
        let board_out = board.clone();
        Ok(TrelloResult { board: Some(board_out), list: None, card: None })
    }
}

} // verus!
