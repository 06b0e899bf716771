//! Banners sized by terminal display width, so that wide characters line up.

use vstd::prelude::*;
use crate::formatting::{repeat_seq, repeat_str};
use unicode_width::UnicodeWidthStr;

verus! {

/// The terminal display width of a string, in columns.
pub uninterp spec fn display_width(s: Seq<char>) -> nat;

/// Relies on `unicode_width::UnicodeWidthStr::width`: the width is a table
/// lookup that depends on the characters alone.
#[verifier::external_body]
pub(crate) fn str_width(s: &str) -> (w: usize)
    ensures
        w as nat == display_width(s@),
{
    UnicodeWidthStr::width(s)
}

/// `text`, a line break, then `header_char` repeated once per display column
/// of `text`.
pub open spec fn header_spec(text: Seq<char>, header_char: Seq<char>) -> Seq<char> {
    text + "\n"@ + repeat_seq(header_char, display_width(text))
}

/// A one-space-padded `text` line over an `=` border sized to its display
/// width.
pub open spec fn title_spec(text: Seq<char>) -> Seq<char> {
    " "@ + text + " "@ + "\n"@ + "="@ + repeat_seq("="@, display_width(text)) + "="@
}

/// Renders `text` underlined by one `header_char` per display column.
pub fn header(text: &str, header_char: &str) -> (r: String)
    ensures
        r@ == header_spec(text@, header_char@),
{
    let w = str_width(text);
    let mut r = text.to_owned();
    r.append("\n");
    let line = repeat_str(header_char, w);
    r.append(line.as_str());
    r
}

/// Renders `text` between spaces over a full-width `=` border.
pub fn title(text: &str) -> (r: String)
    ensures
        r@ == title_spec(text@),
{
    let w = str_width(text);
    let border = repeat_str("=", w);
    let mut r = String::new();
    r.append(" ");
    r.append(text);
    r.append(" ");
    r.append("\n");
    r.append("=");
    r.append(border.as_str());
    r.append("=");
    r
}

} // verus!
