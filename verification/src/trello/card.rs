//! Cards, and the codec between a card's name and description and the
//! delimited plain-text buffer an editor works on.

use vstd::prelude::*;
use crate::text::{
    delim_line, find_delim, is_delim_line, join_lines, join_sep, join_slice, lemma_find_delim_skip,
    lemma_join_sep_snoc, lemma_split_lines_len, split_into_lines, split_lines, trim_spec,
    trim_trailing_blank,
};
use crate::trello::formatting::{display_width, header, header_spec};
use crate::trello::label::{Label, LabelView};
use crate::trello::trello_error::TrelloError;
use crate::trello::trello_object::{Renderable, TrelloObject};

verus! {

/// The mathematical value of a [`Card`]; the due timestamp is opaque to the
/// library's logic and has no place here.
pub struct CardView {
    pub id: Seq<char>,
    pub name: Seq<char>,
    pub desc: Seq<char>,
    pub closed: bool,
    pub url: Seq<char>,
    pub labels: Option<Seq<LabelView>>,
}

#[derive(Debug, PartialEq, Eq)]
pub struct Card {
    pub id: String,
    pub name: String,
    pub desc: String,
    pub closed: bool,
    pub url: String,
    pub labels: Option<Vec<Label>>,
}

impl DeepView for Card {
    type V = CardView;

    open spec fn deep_view(&self) -> CardView {
        CardView {
            id: self.id@,
            name: self.name@,
            desc: self.desc@,
            closed: self.closed,
            url: self.url@,
            labels: match self.labels {
                Option::Some(ls) => Option::Some(ls.deep_view()),
                Option::None => Option::None,
            },
        }
    }
}

fn clone_labels(labels: &Option<Vec<Label>>) -> (r: Option<Vec<Label>>)
    ensures
        match *labels {
            Option::Some(ls) => r matches Option::Some(rs) && rs.deep_view() == ls.deep_view(),
            Option::None => r is None,
        },
{
    match labels {
        Option::Some(ls) => {
            let c = ls.clone();
            proof {
                assert(c.deep_view() =~= ls.deep_view());
            }
            Option::Some(c)
        },
        Option::None => Option::None,
    }
}

impl Clone for Card {
    fn clone(&self) -> (r: Self)
        ensures
            r.deep_view() == self.deep_view(),
    {
        Card {
            id: self.id.clone(),
            name: self.name.clone(),
            desc: self.desc.clone(),
            closed: self.closed,
            url: self.url.clone(),
            labels: clone_labels(&self.labels),
        }
    }
}

impl TrelloObject for Card {
    open spec fn name_spec(&self) -> Seq<char> {
        self.name@
    }

    open spec fn type_spec() -> Seq<char> {
        "Card"@
    }

    open spec fn fields_spec() -> Seq<Seq<char>> {
        seq!["id"@, "name"@, "desc"@, "labels"@, "closed"@, "due"@, "url"@]
    }

    fn get_type() -> (r: String) {
        String::from_str("Card")
    }

    fn get_name(&self) -> (r: &str) {
        self.name.as_str()
    }

    fn get_fields() -> (r: Vec<&'static str>) {
        let r: Vec<&'static str> = vec!["id", "name", "desc", "labels", "closed", "due", "url"];
        proof {
            assert(r@.map_values(|s: &'static str| s@) =~= Self::fields_spec());
        }
        r
    }
}

impl Card {
    /// A fresh, open card with the given fields.
    pub fn new(
        id: &str,
        name: &str,
        desc: &str,
        labels: Option<Vec<Label>>,
        url: &str,
    ) -> (r: Card)
        ensures
            r.id@ == id@,
            r.name@ == name@,
            r.desc@ == desc@,
            r.url@ == url@,
            r.labels == labels,
            !r.closed,
    {
        Card {
            id: id.to_owned(),
            name: name.to_owned(),
            desc: desc.to_owned(),
            url: url.to_owned(),
            labels,
            closed: false,
        }
    }
}

/// A card's editable text: its name and its description, without an id.
#[derive(Debug, PartialEq, Eq)]
pub struct CardContents {
    pub name: String,
    pub desc: String,
}

/// What a card buffer encodes to: the name, a full line of `'='` sized to the
/// name's display width, then the description.
pub open spec fn encode_spec(name: Seq<char>, desc: Seq<char>, width: nat) -> Seq<char> {
    name + seq!['\n'] + crate::formatting::repeat_seq(seq!['='], width) + seq!['\n'] + desc
}

/// What decoding a buffer yields: the lines above the first delimiter line
/// form the name, the lines below it the description; with no delimiter line
/// after the first line, nothing.
pub open spec fn decode_spec(s: Seq<char>) -> Option<(Seq<char>, Seq<char>)> {
    let lines = split_lines(s);
    let d = find_delim(lines, 1);
    if d == -1 {
        Option::None
    } else {
        Option::Some(
            (
                join_lines(lines.subrange(0, d)),
                join_lines(lines.subrange(d + 1, lines.len() as int)),
            ),
        )
    }
}

impl CardContents {
    /// Parses an editor buffer back into a card's name and description.
    /// The first line is always part of the name; the name ends at the first
    /// line consisting of `'='` alone.  The caller is responsible for
    /// trimming trailing blank lines first.
    pub fn from_buffer(value: &str) -> (r: Result<CardContents, TrelloError>)
        ensures
            r matches Ok(c) ==> decode_spec(value@) == Option::Some((c.name@, c.desc@)),
            r is Ok <==> decode_spec(value@) is Some,
            r matches Err(e) ==> e matches TrelloError::CardParse(m) && m@
                == "Unable to find name delimiter '===='"@,
    {
        let lines = split_into_lines(value);
        let n = lines.len();
        proof {
            lemma_split_lines_len(value@);
        }
        let mut j: usize = 1;
        let mut d: Option<usize> = Option::None;
        while j < n
            invariant
                1 <= j <= n,
                n == lines.len(),
                lines.deep_view() == split_lines(value@),
                match d {
                    Option::Some(k) => 1 <= k < j && delim_line(lines.deep_view()[k as int])
                        && forall|m: int|
                            1 <= m < k ==> !delim_line(#[trigger] lines.deep_view()[m]),
                    Option::None => forall|m: int|
                        1 <= m < j ==> !delim_line(#[trigger] lines.deep_view()[m]),
                },
            decreases n - j,
        {
            if d.is_none() {
                let line = lines[j].as_str();
                if is_delim_line(line) {
                    d = Option::Some(j);
                }
            }
            j = j + 1;
        }
        match d {
            Option::Some(k) => {
                proof {
                    lemma_find_delim_skip(lines.deep_view(), 1, k as int);
                    assert(find_delim(lines.deep_view(), 1) == k);
                }
                let name = join_slice(&lines, 0, k);
                let desc = join_slice(&lines, k + 1, n);
                Ok(CardContents { name, desc })
            },
            Option::None => {
                proof {
                    lemma_find_delim_skip(lines.deep_view(), 1, n as int);
                    assert(find_delim(lines.deep_view(), 1) == -1);
                }
                Err(
                    TrelloError::CardParse(
                        String::from_str("Unable to find name delimiter '===='"),
                    ),
                )
            },
        }
    }
}

impl Renderable for Card {
    /// The full rendering is exactly the editor buffer for the card.
    open spec fn render_spec(&self) -> Seq<char> {
        encode_spec(self.name@, self.desc@, display_width(self.name@))
    }

    open spec fn simple_render_spec(&self) -> Seq<char> {
        trim_spec(join_sep(self.simple_parts(), ' '))
    }

    fn render(&self) -> (r: String) {
        let mut r = header(self.name.as_str(), "=");
        r.append("\n");
        let desc = self.desc.as_str();
        r.append(desc);
        proof {
            reveal_strlit("\n");
            reveal_strlit("=");
            assert("\n"@ =~= seq!['\n']);
            assert("="@ =~= seq!['=']);
            assert(header_spec(self.name@, "="@) == self.name@ + "\n"@ + crate::formatting::repeat_seq(
                "="@,
                display_width(self.name@),
            ));
            assert(r@ =~= encode_spec(self.name@, self.desc@, display_width(self.name@)));
        }
        r
    }

    fn simple_render(&self) -> (r: String) {
        let mut parts: Vec<String> = Vec::new();
        if self.closed {
            parts.push(String::from_str("[Closed]"));
        }
        parts.push(self.name.clone());
        if self.desc.unicode_len() > 0 {
            parts.push(String::from_str("[...]"));
        }
        let ghost base = parts.deep_view();
        match &self.labels {
            Option::Some(ls) => {
                let mut k: usize = 0;
                while k < ls.len()
                    invariant
                        k <= ls.len(),
                        parts.deep_view() == base + ls.deep_view().subrange(0, k as int)
                            .map_values(|lv: LabelView| (" "@ + lv.name + " "@)),
                    decreases ls.len() - k,
                {
                    let mut piece = String::from_str(" ");
                    let nm = ls[k].name.as_str();
                    piece.append(nm);
                    piece.append(" ");
                    let ghost old_parts = parts.deep_view();
                    parts.push(piece);
                    proof {
                        let f = |lv: LabelView| (" "@ + lv.name + " "@);
                        assert(parts.deep_view() =~= old_parts.push(
                            " "@ + ls.deep_view()[k as int].name + " "@,
                        ));
                        assert(ls.deep_view().subrange(0, k + 1) =~= ls.deep_view().subrange(
                            0,
                            k as int,
                        ).push(ls.deep_view()[k as int]));
                        assert(ls.deep_view().subrange(0, k + 1).map_values(f) =~= ls.deep_view()
                            .subrange(0, k as int).map_values(f).push(f(ls.deep_view()[k as int])));
                        assert(parts.deep_view() =~= base + ls.deep_view().subrange(0, k + 1)
                            .map_values(f));
                    }
                    k = k + 1;
                }
                proof {
                    assert(ls.deep_view().subrange(0, ls.len() as int) =~= ls.deep_view());
                }
            },
            Option::None => {
                proof {
                    assert(parts.deep_view() =~= base + Seq::<Seq<char>>::empty());
                }
            },
        }
        proof {
            assert(parts.deep_view() == self.simple_parts());
        }
        let joined = join_space(&parts);
        trim_trailing_blank(joined.as_str())
    }
}

impl Card {
    /// The pieces of the one-line rendering, in order: a closed marker, the
    /// name, a marker for a non-empty description, then each label's name
    /// between spaces.
    pub open spec fn simple_parts(&self) -> Seq<Seq<char>> {
        let a: Seq<Seq<char>> = if self.closed {
            seq!["[Closed]"@]
        } else {
            Seq::empty()
        };
        let b = a + seq![self.name@];
        let c: Seq<Seq<char>> = if self.desc@.len() > 0 {
            b + seq!["[...]"@]
        } else {
            b
        };
        c + (match self.labels {
            Option::Some(ls) => ls.deep_view().map_values(|lv: LabelView| (" "@ + lv.name + " "@)),
            Option::None => Seq::empty(),
        })
    }
}

/// Joins the parts with single spaces.
fn join_space(parts: &Vec<String>) -> (r: String)
    ensures
        r@ == join_sep(parts.deep_view(), ' '),
{
    if parts.len() == 0 {
        return String::new();
    }
    let mut acc = parts[0].clone();
    let mut j: usize = 1;
    proof {
        assert(parts.deep_view().subrange(0, 1) =~= seq![parts@[0]@]);
        assert(acc@ == join_sep(parts.deep_view().subrange(0, 1), ' '));
    }
    while j < parts.len()
        invariant
            1 <= j <= parts.len(),
            acc@ == join_sep(parts.deep_view().subrange(0, j as int), ' '),
        decreases parts.len() - j,
    {
        acc.append(" ");
        let next = parts[j].as_str();
        acc.append(next);
        proof {
            reveal_strlit(" ");
            let dv = parts.deep_view();
            assert(dv.subrange(0, j + 1) =~= dv.subrange(0, j as int).push(dv[j as int]));
            lemma_join_sep_snoc(dv.subrange(0, j as int), dv[j as int], ' ');
            assert(" "@ =~= seq![' ']);
        }
        j = j + 1;
    }
    proof {
        assert(parts.deep_view().subrange(0, parts.len() as int) =~= parts.deep_view());
    }
    acc
}

/// Round trip: an encoded card buffer, trimmed of trailing blanks the way
/// the edit session trims it, decodes back to exactly the name and
/// description it was encoded from.  Excluded are a name with a
/// delimiter-only (or empty) line after its first line, where decoding
/// would end the name early; a description ending in a blank character,
/// which trimming would eat; and an empty description under a zero-width
/// delimiter, where the delimiter line itself would be trimmed away.
pub proof fn lemma_encode_decode_round_trip(name: Seq<char>, desc: Seq<char>, width: nat)
    requires
        forall|i: int|
            1 <= i < split_lines(name).len() ==> !delim_line(#[trigger] split_lines(name)[i]),
        desc.len() > 0 ==> !crate::text::is_blank(desc.last()),
        desc.len() == 0 ==> width > 0,
    ensures
        decode_spec(trim_spec(encode_spec(name, desc, width))) == Option::Some((name, desc)),
{
    let eqline = crate::formatting::repeat_seq(seq!['='], width);
    crate::formatting::lemma_repeat_single('=', width);
    assert(delim_line(eqline));
    assert(forall|i: int| 0 <= i < eqline.len() ==> #[trigger] eqline[i] != '\n');
    let enc = encode_spec(name, desc, width);
    let sn = split_lines(name);
    lemma_split_lines_len(name);
    let d = sn.len() as int;
    if desc.len() > 0 {
        assert(enc[enc.len() - 1] == desc[desc.len() - 1]);
        assert(!crate::text::is_blank(enc.last()));
        assert(trim_spec(enc) == enc);
        let tail = eqline + seq!['\n'] + desc;
        assert(enc =~= name + seq!['\n'] + tail);
        crate::text::lemma_split_concat(name, tail);
        crate::text::lemma_split_concat(eqline, desc);
        crate::text::lemma_split_single(eqline);
        let sd = split_lines(desc);
        let lines = split_lines(enc);
        assert(split_lines(tail) == seq![eqline] + sd);
        assert(lines == sn + (seq![eqline] + sd));
        assert forall|k: int| 1 <= k < d implies !delim_line(#[trigger] lines[k]) by {
            assert(lines[k] == sn[k]);
        }
        lemma_find_delim_skip(lines, 1, d);
        assert(lines[d] == eqline);
        assert(find_delim(lines, d) == d);
        assert(find_delim(lines, 1) == d);
        assert(lines.subrange(0, d) =~= sn);
        crate::text::lemma_join_split(name);
        assert(lines.subrange(d + 1, lines.len() as int) =~= sd);
        crate::text::lemma_join_split(desc);
        assert(decode_spec(trim_spec(enc)) == Option::Some((name, desc)));
    } else {
        let x = name + seq!['\n'] + eqline;
        assert(enc =~= x + seq!['\n']);
        assert(enc.last() == '\n');
        assert(crate::text::is_blank('\n'));
        assert(enc.drop_last() =~= x);
        assert(trim_spec(enc) == trim_spec(x));
        assert(width > 0);
        assert(x.last() == eqline[width - 1]);
        assert(x.last() == '=');
        assert(!crate::text::is_blank('='));
        assert(trim_spec(x) == x);
        crate::text::lemma_split_concat(name, eqline);
        crate::text::lemma_split_single(eqline);
        let lines = split_lines(x);
        assert(lines == sn + seq![eqline]);
        assert forall|k: int| 1 <= k < d implies !delim_line(#[trigger] lines[k]) by {
            assert(lines[k] == sn[k]);
        }
        lemma_find_delim_skip(lines, 1, d);
        assert(lines[d] == eqline);
        assert(find_delim(lines, d) == d);
        assert(find_delim(lines, 1) == d);
        assert(lines.subrange(0, d) =~= sn);
        crate::text::lemma_join_split(name);
        assert(lines.subrange(d + 1, lines.len() as int) =~= Seq::<Seq<char>>::empty());
        assert(join_lines(Seq::<Seq<char>>::empty()) == Seq::<char>::empty());
        assert(desc =~= Seq::<char>::empty());
        assert(decode_spec(trim_spec(enc)) == Option::Some((name, desc)));
    }
}

} // verus!
