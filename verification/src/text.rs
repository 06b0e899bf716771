//! Line-oriented text handling: splitting a buffer into lines, joining lines
//! back, recognising delimiter lines, and trimming trailing blanks.

use vstd::prelude::*;

verus! {

/// Whether `c` has Unicode's White_Space property, as `str::trim_end` sees it.
pub open spec fn is_blank(c: char) -> bool {
    c == ' ' || c == '\t' || c == '\n' || c == '\u{B}' || c == '\u{C}' || c == '\r'
        || c == '\u{85}' || c == '\u{A0}' || c == '\u{1680}'
        || ('\u{2000}' <= c && c <= '\u{200A}') || c == '\u{2028}' || c == '\u{2029}'
        || c == '\u{202F}' || c == '\u{205F}' || c == '\u{3000}'
}

/// `s` without its trailing blank characters.
pub open spec fn trim_spec(s: Seq<char>) -> Seq<char>
    decreases s.len(),
{
    if s.len() == 0 {
        s
    } else if is_blank(s.last()) {
        trim_spec(s.drop_last())
    } else {
        s
    }
}

/// The lines of `s`, split on `'\n'`; an empty input is one empty line.
pub open spec fn split_lines(s: Seq<char>) -> Seq<Seq<char>>
    decreases s.len(),
{
    if s.len() == 0 {
        seq![Seq::<char>::empty()]
    } else if s[0] == '\n' {
        seq![Seq::<char>::empty()] + split_lines(s.drop_first())
    } else {
        let rest = split_lines(s.drop_first());
        seq![seq![s[0]] + rest[0]] + rest.drop_first()
    }
}

/// The parts joined with the separator `sep` between them.
pub open spec fn join_sep(parts: Seq<Seq<char>>, sep: char) -> Seq<char>
    decreases parts.len(),
{
    if parts.len() == 0 {
        Seq::empty()
    } else if parts.len() == 1 {
        parts[0]
    } else {
        parts[0] + seq![sep] + join_sep(parts.drop_first(), sep)
    }
}

/// Lines joined back with `'\n'`.
pub open spec fn join_lines(parts: Seq<Seq<char>>) -> Seq<char> {
    join_sep(parts, '\n')
}

/// Whether `l` consists of `'='` alone; an empty line qualifies.
pub open spec fn delim_line(l: Seq<char>) -> bool {
    forall|i: int| 0 <= i < l.len() ==> l[i] == '='
}

/// The index of the first delimiter line at or after `start`, or `-1`.
pub open spec fn find_delim(lines: Seq<Seq<char>>, start: int) -> int
    decreases lines.len() - start,
{
    if start < 0 || start >= lines.len() {
        -1
    } else if delim_line(lines[start]) {
        start
    } else {
        find_delim(lines, start + 1)
    }
}

pub proof fn lemma_split_lines_len(s: Seq<char>)
    ensures
        split_lines(s).len() >= 1,
    decreases s.len(),
{
    if s.len() != 0 {
        lemma_split_lines_len(s.drop_first());
    }
}

/// Skipping over non-delimiter lines does not change where the first
/// delimiter is found.
pub proof fn lemma_find_delim_skip(lines: Seq<Seq<char>>, start: int, upto: int)
    requires
        0 <= start <= upto <= lines.len(),
        forall|k: int| start <= k < upto ==> !delim_line(#[trigger] lines[k]),
    ensures
        find_delim(lines, start) == find_delim(lines, upto),
    decreases upto - start,
{
    if start < upto {
        lemma_find_delim_skip(lines, start + 1, upto);
    }
}

/// Joining after appending one more part appends a separator and the part.
pub proof fn lemma_join_sep_snoc(parts: Seq<Seq<char>>, x: Seq<char>, sep: char)
    requires
        parts.len() >= 1,
    ensures
        join_sep(parts.push(x), sep) == join_sep(parts, sep) + seq![sep] + x,
    decreases parts.len(),
{
    let whole = parts.push(x);
    assert(whole.len() >= 2);
    assert(join_sep(whole, sep) == whole[0] + seq![sep] + join_sep(whole.drop_first(), sep));
    if parts.len() == 1 {
        assert(whole.drop_first() =~= seq![x]);
        assert(join_sep(seq![x], sep) == x);
        assert(join_sep(whole, sep) =~= parts[0] + seq![sep] + x);
    } else {
        assert(whole.drop_first() =~= parts.drop_first().push(x));
        lemma_join_sep_snoc(parts.drop_first(), x, sep);
        assert(join_sep(parts, sep) == parts[0] + seq![sep] + join_sep(parts.drop_first(), sep));
        assert(join_sep(whole, sep) =~= join_sep(parts, sep) + seq![sep] + x);
    }
}

/// Trimming ignores everything past the last non-blank character.
pub proof fn lemma_trim_range(s: Seq<char>, k: int)
    requires
        0 <= k <= s.len(),
        forall|j: int| k <= j < s.len() ==> is_blank(#[trigger] s[j]),
        k > 0 ==> !is_blank(s[k - 1]),
    ensures
        trim_spec(s) == s.subrange(0, k),
    decreases s.len(),
{
    if k == s.len() {
        if s.len() == 0 {
            assert(trim_spec(s) =~= s.subrange(0, k));
        } else {
            assert(!is_blank(s.last()));
            assert(trim_spec(s) =~= s.subrange(0, k));
        }
    } else {
        assert(is_blank(s.last()));
        lemma_trim_range(s.drop_last(), k);
        assert(s.drop_last().subrange(0, k) =~= s.subrange(0, k));
    }
}

/// Splitting distributes over a line break between two buffers.
pub proof fn lemma_split_concat(a: Seq<char>, b: Seq<char>)
    ensures
        split_lines(a + seq!['\n'] + b) == split_lines(a) + split_lines(b),
    decreases a.len(),
{
    let s = a + seq!['\n'] + b;
    if a.len() == 0 {
        assert(s[0] == '\n');
        assert(s.drop_first() =~= b);
        assert(split_lines(s) == seq![Seq::<char>::empty()] + split_lines(s.drop_first()));
        assert(split_lines(a) =~= seq![Seq::<char>::empty()]);
        assert(split_lines(a + seq!['\n'] + b) =~= split_lines(a) + split_lines(b));
    } else {
        lemma_split_concat(a.drop_first(), b);
        assert(s[0] == a[0]);
        assert(s.drop_first() =~= a.drop_first() + seq!['\n'] + b);
        if a[0] == '\n' {
            assert(split_lines(s) == seq![Seq::<char>::empty()] + split_lines(s.drop_first()));
            assert(split_lines(a) == seq![Seq::<char>::empty()] + split_lines(a.drop_first()));
            assert(split_lines(a + seq!['\n'] + b) =~= split_lines(a) + split_lines(b));
        } else {
            let rest_s = split_lines(s.drop_first());
            let rest_a = split_lines(a.drop_first());
            lemma_split_lines_len(a.drop_first());
            lemma_split_lines_len(b);
            assert(rest_s == rest_a + split_lines(b));
            assert(rest_s[0] == rest_a[0]);
            assert(rest_s.drop_first() =~= rest_a.drop_first() + split_lines(b));
            assert(split_lines(s) == seq![seq![s[0]] + rest_s[0]] + rest_s.drop_first());
            assert(split_lines(a) == seq![seq![a[0]] + rest_a[0]] + rest_a.drop_first());
            assert(split_lines(a + seq!['\n'] + b) =~= split_lines(a) + split_lines(b));
        }
    }
}

/// A buffer without a line break is one line.
pub proof fn lemma_split_single(l: Seq<char>)
    requires
        forall|i: int| 0 <= i < l.len() ==> l[i] != '\n',
    ensures
        split_lines(l) == seq![l],
    decreases l.len(),
{
    if l.len() == 0 {
        assert(l =~= Seq::<char>::empty());
        assert(split_lines(l) =~= seq![l]);
    } else {
        assert(forall|i: int|
            0 <= i < l.drop_first().len() ==> #[trigger] l.drop_first()[i] != '\n');
        lemma_split_single(l.drop_first());
        let rest = split_lines(l.drop_first());
        assert(rest == seq![l.drop_first()]);
        assert(rest.drop_first() =~= Seq::<Seq<char>>::empty());
        assert(split_lines(l) == seq![seq![l[0]] + rest[0]] + rest.drop_first());
        assert(seq![l[0]] + l.drop_first() =~= l);
        assert(split_lines(l) =~= seq![l]);
    }
}

/// Joining the lines of a buffer gives the buffer back.
pub proof fn lemma_join_split(s: Seq<char>)
    ensures
        join_lines(split_lines(s)) == s,
    decreases s.len(),
{
    if s.len() == 0 {
        assert(join_lines(split_lines(s)) =~= s);
    } else {
        lemma_join_split(s.drop_first());
        lemma_split_lines_len(s.drop_first());
        let rest = split_lines(s.drop_first());
        let sl = split_lines(s);
        if s[0] == '\n' {
            assert(sl == seq![Seq::<char>::empty()] + rest);
            assert(sl.len() >= 2);
            assert(sl[0] =~= Seq::<char>::empty());
            assert(sl.drop_first() =~= rest);
            assert(join_lines(sl) == sl[0] + seq!['\n'] + join_sep(sl.drop_first(), '\n'));
            assert(join_lines(sl) =~= s);
        } else {
            assert(sl == seq![seq![s[0]] + rest[0]] + rest.drop_first());
            if rest.len() == 1 {
                assert(sl.len() == 1);
                assert(join_lines(sl) == sl[0]);
                assert(join_lines(rest) == rest[0]);
                assert(rest[0] == s.drop_first());
                assert(sl[0] =~= seq![s[0]] + s.drop_first());
                assert(seq![s[0]] + s.drop_first() =~= s);
                assert(join_lines(sl) =~= s);
            } else {
                assert(sl.len() >= 2);
                assert(sl[0] == seq![s[0]] + rest[0]);
                assert(sl.drop_first() =~= rest.drop_first());
                assert(join_sep(sl.drop_first(), '\n') == join_sep(rest.drop_first(), '\n'));
                assert(join_lines(sl) == sl[0] + seq!['\n'] + join_sep(sl.drop_first(), '\n'));
                assert(join_lines(rest) == rest[0] + seq!['\n'] + join_sep(
                    rest.drop_first(),
                    '\n',
                ));
                assert(s.drop_first() == rest[0] + seq!['\n'] + join_sep(rest.drop_first(), '\n'));
                assert(join_lines(sl) =~= seq![s[0]] + (rest[0] + seq!['\n'] + join_sep(
                    rest.drop_first(),
                    '\n',
                )));
                assert(seq![s[0]] + s.drop_first() =~= s);
                assert(join_lines(sl) == s);
            }
        }
    }
}

/// Whether `c` has the White_Space property.
pub fn is_blank_char(c: char) -> (r: bool)
    ensures
        r == is_blank(c),
{
    c == ' ' || c == '\t' || c == '\n' || c == '\u{B}' || c == '\u{C}' || c == '\r'
        || c == '\u{85}' || c == '\u{A0}' || c == '\u{1680}'
        || ('\u{2000}' <= c && c <= '\u{200A}') || c == '\u{2028}' || c == '\u{2029}'
        || c == '\u{202F}' || c == '\u{205F}' || c == '\u{3000}'
}

/// Removes the trailing blank characters that editors tend to append.
pub fn trim_trailing_blank(s: &str) -> (r: String)
    ensures
        r@ == trim_spec(s@),
{
    let n = s.unicode_len();
    let mut k: usize = n;
    while k > 0 && is_blank_char(s.get_char(k - 1))
        invariant
            k <= n,
            n == s@.len(),
            forall|j: int| k <= j < s@.len() ==> is_blank(#[trigger] s@[j]),
        decreases k,
    {
        k = k - 1;
    }
    proof {
        lemma_trim_range(s@, k as int);
    }
    s.substring_char(0, k).to_owned()
}

/// Whether the two strings hold the same characters.
pub fn str_eq(a: &str, b: &str) -> (r: bool)
    ensures
        r == (a@ == b@),
{
    let na = a.unicode_len();
    let nb = b.unicode_len();
    if na != nb {
        return false;
    }
    let mut i: usize = 0;
    while i < na
        invariant
            i <= na,
            na == a@.len(),
            na == b@.len(),
            forall|j: int| 0 <= j < i ==> a@[j] == b@[j],
        decreases na - i,
    {
        if a.get_char(i) != b.get_char(i) {
            return false;
        }
        i = i + 1;
    }
    proof {
        assert(a@ =~= b@);
    }
    true
}

/// Splits a buffer into its lines.
pub fn split_into_lines(s: &str) -> (r: Vec<String>)
    ensures
        r.deep_view() == split_lines(s@),
{
    let n = s.unicode_len();
    let mut lines: Vec<String> = Vec::new();
    let mut end: usize = n;
    let mut i: usize = n;
    proof {
        assert(lines.deep_view() =~= Seq::<Seq<char>>::empty());
        assert(s@.subrange(n as int, n as int) =~= Seq::<char>::empty());
        assert(split_lines(s@.subrange(n as int, n as int)) =~= seq![
            s@.subrange(n as int, n as int),
        ] + lines.deep_view());
    }
    while i > 0
        invariant
            i <= end <= n,
            n == s@.len(),
            forall|j: int| i <= j < end ==> s@[j] != '\n',
            split_lines(s@.subrange(i as int, n as int)) == seq![
                s@.subrange(i as int, end as int),
            ] + lines.deep_view(),
        decreases i,
    {
        let c = s.get_char(i - 1);
        if c == '\n' {
            let ghost old_dv = lines.deep_view();
            let line = s.substring_char(i, end).to_owned();
            lines.insert(0, line);
            proof {
                assert(lines.deep_view() =~= seq![s@.subrange(i as int, end as int)] + old_dv);
                let pre = s@.subrange(i - 1, n as int);
                assert(pre[0] == '\n');
                assert(pre.drop_first() =~= s@.subrange(i as int, n as int));
                assert(split_lines(pre) == seq![Seq::<char>::empty()] + split_lines(
                    pre.drop_first(),
                ));
                assert(s@.subrange(i - 1, i - 1) =~= Seq::<char>::empty());
                assert(split_lines(pre) =~= seq![s@.subrange(i - 1, i - 1)]
                    + lines.deep_view());
            }
            end = i - 1;
        } else {
            proof {
                let pre = s@.subrange(i - 1, n as int);
                assert(pre.drop_first() =~= s@.subrange(i as int, n as int));
                let rest = split_lines(pre.drop_first());
                assert(rest[0] == s@.subrange(i as int, end as int));
                assert(seq![pre[0]] + rest[0] =~= s@.subrange(i - 1, end as int));
                assert(rest.drop_first() =~= lines.deep_view());
                assert(split_lines(pre) =~= seq![s@.subrange(i - 1, end as int)]
                    + lines.deep_view());
            }
        }
        i = i - 1;
    }
    let first = s.substring_char(0, end).to_owned();
    lines.insert(0, first);
    proof {
        assert(s@.subrange(0, n as int) =~= s@);
        assert(split_lines(s@) =~= lines.deep_view());
    }
    lines
}

/// Whether the line consists of `'='` alone.
pub fn is_delim_line(l: &str) -> (r: bool)
    ensures
        r == delim_line(l@),
{
    let n = l.unicode_len();
    let mut i: usize = 0;
    while i < n
        invariant
            i <= n,
            n == l@.len(),
            forall|j: int| 0 <= j < i ==> l@[j] == '=',
        decreases n - i,
    {
        if l.get_char(i) != '=' {
            return false;
        }
        i = i + 1;
    }
    true
}

/// Joins `parts[from..to]` with the line separator.
pub fn join_slice(parts: &Vec<String>, from: usize, to: usize) -> (r: String)
    requires
        from <= to <= parts.len(),
    ensures
        r@ == join_lines(parts.deep_view().subrange(from as int, to as int)),
{
    if from == to {
        proof {
            assert(parts.deep_view().subrange(from as int, to as int) =~= Seq::<
                Seq<char>,
            >::empty());
        }
        return String::new();
    }
    let mut acc = parts[from].clone();
    let mut j: usize = from + 1;
    proof {
        assert(parts.deep_view().subrange(from as int, from + 1) =~= seq![parts@[from as int]@]);
    }
    while j < to
        invariant
            from < j <= to,
            to <= parts.len(),
            acc@ == join_lines(parts.deep_view().subrange(from as int, j as int)),
        decreases to - j,
    {
        acc.append("\n");
        let next = parts[j].as_str();
        acc.append(next);
        proof {
            reveal_strlit("\n");
            let dv = parts.deep_view();
            assert(dv.subrange(from as int, j + 1) =~= dv.subrange(from as int, j as int).push(
                dv[j as int],
            ));
            lemma_join_sep_snoc(dv.subrange(from as int, j as int), dv[j as int], '\n');
            assert("\n"@ =~= seq!['\n']);
        }
        j = j + 1;
    }
    acc
}

} // verus!
