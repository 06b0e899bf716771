//! Plain-text banners sized by character count.

use vstd::prelude::*;

verus! {

/// The sequence `part` repeated `n` times.
pub open spec fn repeat_seq(part: Seq<char>, n: nat) -> Seq<char>
    decreases n,
{
    if n == 0 {
        Seq::empty()
    } else {
        repeat_seq(part, (n - 1) as nat) + part
    }
}

/// A single character repeated `n` times has length `n` and holds that
/// character alone.
pub proof fn lemma_repeat_single(c: char, n: nat)
    ensures
        repeat_seq(seq![c], n).len() == n,
        forall|i: int| 0 <= i < n ==> repeat_seq(seq![c], n)[i] == c,
    decreases n,
{
    if n > 0 {
        lemma_repeat_single(c, (n - 1) as nat);
    }
}

/// `text`, a line break, then `header_char` repeated once per character of `text`.
pub open spec fn header_spec(text: Seq<char>, header_char: Seq<char>) -> Seq<char> {
    text + "\n"@ + repeat_seq(header_char, text.len())
}

/// A three-line box around `text`, drawn with box-drawing characters and sized
/// by the character count of `text`.
pub open spec fn title_spec(text: Seq<char>) -> Seq<char> {
    "╔═"@ + repeat_seq("═"@, text.len()) + "═╗"@ + "\n"@ + "║ "@ + text + " ║"@ + "\n"@
        + "╚═"@ + repeat_seq("═"@, text.len()) + "═╝"@
}

pub(crate) fn repeat_str(part: &str, n: usize) -> (r: String)
    ensures
        r@ == repeat_seq(part@, n as nat),
{
    let mut r = String::new();
    let mut i: usize = 0;
    while i < n
        invariant
            i <= n,
            r@ == repeat_seq(part@, i as nat),
        decreases n - i,
    {
        r.append(part);
        i = i + 1;
    }
    r
}

/// Renders `text` underlined by one `header_char` per character of `text`.
pub fn header(text: &str, header_char: &str) -> (r: String)
    ensures
        r@ == header_spec(text@, header_char@),
{
    let n = text.unicode_len();
    let mut r = text.to_owned();
    r.append("\n");
    let line = repeat_str(header_char, n);
    r.append(line.as_str());
    r
}

/// Renders `text` inside a three-line box sized to its character count.
pub fn title(text: &str) -> (r: String)
    ensures
        r@ == title_spec(text@),
{
    let n = text.unicode_len();
    let border = repeat_str("═", n);
    let mut r = String::new();
    r.append("╔═");
    r.append(border.as_str());
    r.append("═╗");
    r.append("\n");
    r.append("║ ");
    r.append(text);
    r.append(" ║");
    r.append("\n");
    r.append("╚═");
    r.append(border.as_str());
    r.append("═╝");
    r
}

} // verus!
