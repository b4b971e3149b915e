//! Text building blocks shared by the record formats: joining, decimal
//! numbers, blank detection and quoting.

use vstd::prelude::*;
use vstd::string::*;

verus! {

/// The texts of `parts` written one after another with `sep` between
/// neighbours. An empty list gives the empty text.
pub open spec fn join_seq(parts: Seq<Seq<char>>, sep: Seq<char>) -> Seq<char>
    decreases parts.len(),
{
    if parts.len() == 0 {
        Seq::empty()
    } else if parts.len() == 1 {
        parts[0]
    } else {
        join_seq(parts.drop_last(), sep) + sep + parts.last()
    }
}

/// The character that writes the digit `d`, for `d` from 0 to 9.
pub open spec fn digit_char(d: int) -> char {
    (d + 48) as u8 as char
}

/// The decimal digits of `n`, most significant first, without leading zeros;
/// zero is written `0`.
pub open spec fn decimal_nat(n: nat) -> Seq<char>
    decreases n,
{
    if n < 10 {
        seq![digit_char(n as int)]
    } else {
        decimal_nat(n / 10).push(digit_char((n % 10) as int))
    }
}

/// The decimal form of `n`: a minus sign for a negative number, then the
/// digits of its magnitude.
pub open spec fn decimal(n: int) -> Seq<char> {
    if n < 0 {
        seq!['-'] + decimal_nat((-n) as nat)
    } else {
        decimal_nat(n as nat)
    }
}

/// What the `Debug` form of a string slice reads: the text between
/// quotation marks, with the characters that the standard library escapes
/// written as escapes.
pub uninterp spec fn debug_quoted(s: Seq<char>) -> Seq<char>;

/// Each text of `texts` quoted as [`debug_quoted`] says.
pub open spec fn quoted_texts(texts: Seq<Seq<char>>) -> Seq<Seq<char>> {
    texts.map_values(|t: Seq<char>| debug_quoted(t))
}

/// Whether the standard library counts `c` as white space.
pub uninterp spec fn white_space(c: char) -> bool;

/// A text is blank when it holds nothing but white space; the empty text is
/// blank.
pub open spec fn is_blank(s: Seq<char>) -> bool {
    forall|i: int| 0 <= i < s.len() ==> white_space(#[trigger] s[i])
}

/// `String::push`: puts `c` at the end of `s`.
#[verifier::external_body]
pub(crate) fn push_char(s: &mut String, c: char)
    ensures
        final(s)@ == old(s)@.push(c),
{
    s.push(c);
}

/// The `Debug` formatting of `str`. The result is named, not spelled out:
/// which characters are escaped follows the standard library's tables.
#[verifier::external_body]
pub(crate) fn debug_quote(s: &str) -> (r: String)
    ensures
        r@ == debug_quoted(s@),
{
    format!("{:?}", s)
}

/// `char::is_whitespace`.
#[verifier::external_body]
pub(crate) fn char_is_whitespace(c: char) -> (r: bool)
    ensures
        r == white_space(c),
{
    c.is_whitespace()
}

/// Joins `parts` with `sep` between neighbours.
pub fn join(parts: &Vec<String>, sep: &str) -> (r: String)
    ensures
        r@ == join_seq(parts.deep_view(), sep@),
{
    let mut out = String::new();
    let mut i: usize = 0;
    while i < parts.len()
        invariant
            i <= parts.len(),
            out@ == join_seq(parts.deep_view().take(i as int), sep@),
        decreases parts.len() - i,
    {
        assert(parts.deep_view().take(i + 1).drop_last() == parts.deep_view().take(i as int));
        if i > 0 {
            out.append(sep);
        }
        out.append(parts[i].as_str());
        i = i + 1;
    }
    assert(parts.deep_view().take(i as int) == parts.deep_view());
    out
}

/// Whether the two lists hold the same texts in the same order.
pub fn same_texts(a: &Vec<String>, b: &Vec<String>) -> (r: bool)
    ensures
        r == (a.deep_view() == b.deep_view()),
{
    if a.len() != b.len() {
        assert(a.deep_view().len() != b.deep_view().len());
        return false;
    }
    let mut i: usize = 0;
    while i < a.len()
        invariant
            i <= a.len(),
            a.len() == b.len(),
            forall|j: int| 0 <= j < i ==> a@[j]@ == b@[j]@,
        decreases a.len() - i,
    {
        if a[i] != b[i] {
            assert(a.deep_view()[i as int] != b.deep_view()[i as int]);
            return false;
        }
        i = i + 1;
    }
    assert(a.deep_view() =~= b.deep_view());
    true
}

/// A list of its own with the texts of `v`.
pub fn copy_texts(v: &Vec<String>) -> (r: Vec<String>)
    ensures
        r.deep_view() == v.deep_view(),
{
    let mut out: Vec<String> = Vec::new();
    let mut i: usize = 0;
    while i < v.len()
        invariant
            i <= v.len(),
            out.len() == i,
            forall|j: int| 0 <= j < i ==> out@[j]@ == v@[j]@,
        decreases v.len() - i,
    {
        out.push(v[i].clone());
        i = i + 1;
    }
    out
}

/// Each text of `v` between quotation marks.
pub fn quote_all(v: &Vec<String>) -> (r: Vec<String>)
    ensures
        r.deep_view() == quoted_texts(v.deep_view()),
{
    let mut out: Vec<String> = Vec::new();
    let mut i: usize = 0;
    while i < v.len()
        invariant
            i <= v.len(),
            out.len() == i,
            forall|j: int| 0 <= j < i ==> out@[j]@ == debug_quoted(v@[j]@),
        decreases v.len() - i,
    {
        out.push(debug_quote(v[i].as_str()));
        i = i + 1;
    }
    out
}

/// Writes `n` in decimal.
pub fn decimal_string(n: i32) -> (r: String)
    ensures
        r@ == decimal(n as int),
{
    let mut out = String::new();
    let wide: i64 = n as i64;
    let magnitude: u32 = if n < 0 {
        push_char(&mut out, '-');
        (-wide) as u32
    } else {
        wide as u32
    };
    push_decimal_nat(&mut out, magnitude);
    out
}

/// Puts the digits of `n` at the end of `out`.
pub(crate) fn push_decimal_nat(out: &mut String, n: u32)
    ensures
        final(out)@ == old(out)@ + decimal_nat(n as nat),
    decreases n,
{
    if n >= 10 {
        push_decimal_nat(out, n / 10);
    }
    let d: u8 = (n % 10) as u8;
    push_char(out, (48u8 + d) as char);
}

/// Whether `s` holds nothing but white space.
pub fn blank(s: &str) -> (r: bool)
    ensures
        r == is_blank(s@),
{
    for c in it: s.chars()
        invariant
            it.seq() == s@,
            forall|j: int| 0 <= j < it.index() ==> white_space(#[trigger] s@[j]),
    {
        if !char_is_whitespace(c) {
            return false;
        }
    }
    true
}

/// The pieces into which the separator `c` cuts `text`: one more than there
/// are separators in it. A text without separator is one piece, the text
/// itself.
pub open spec fn pieces(text: Seq<char>, c: char) -> Seq<Seq<char>>
    decreases text.len(),
{
    if text.len() == 0 {
        seq![Seq::empty()]
    } else if text.last() == c {
        pieces(text.drop_last(), c).push(Seq::empty())
    } else {
        let before = pieces(text.drop_last(), c);
        before.drop_last().push(before.last().push(text.last()))
    }
}

/// Text without a separator after a text lengthens that text's last piece.
pub proof fn lemma_pieces_extend(text: Seq<char>, tail: Seq<char>, c: char)
    requires
        !tail.contains(c),
    ensures
        pieces(text, c).len() > 0,
        pieces(text + tail, c) == pieces(text, c).drop_last().push(pieces(text, c).last() + tail),
    decreases tail.len(),
{
    lemma_pieces_nonempty(text, c);
    if tail.len() > 0 {
        let shorter = tail.drop_last();
        lemma_pieces_extend(text, shorter, c);
        assert((text + tail).drop_last() =~= text + shorter);
        assert(pieces(text + shorter, c).last().push(tail.last()) =~= pieces(text, c).last()
            + tail);
    }
}

/// Every text has at least one piece.
pub proof fn lemma_pieces_nonempty(text: Seq<char>, c: char)
    ensures
        pieces(text, c).len() > 0,
    decreases text.len(),
{
    if text.len() > 0 {
        lemma_pieces_nonempty(text.drop_last(), c);
    }
}

/// Cutting undoes joining: a list of one text or more, none of which holds
/// the separator, comes back from its joined form piece by piece.
pub proof fn lemma_pieces_of_join(parts: Seq<Seq<char>>, c: char)
    requires
        parts.len() > 0,
        forall|i: int| 0 <= i < parts.len() ==> !(#[trigger] parts[i]).contains(c),
    ensures
        pieces(join_seq(parts, seq![c]), c) == parts,
    decreases parts.len(),
{
    if parts.len() == 1 {
        lemma_pieces_extend(Seq::empty(), parts[0], c);
    } else {
        let front = parts.drop_last();
        lemma_pieces_of_join(front, c);
        let cut = join_seq(front, seq![c]) + seq![c];
        assert(cut.drop_last() =~= join_seq(front, seq![c]));
        lemma_pieces_extend(cut, parts.last(), c);
    }
}

} // verus!
