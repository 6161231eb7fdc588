//! Text: decimal numerals, and what std does to strings.

use vstd::prelude::*;
use vstd::string::StringExecFns;

verus! {

/// The character that stands for the digit `d`.
pub open spec fn digit(d: nat) -> char {
    if d == 0 {
        '0'
    } else if d == 1 {
        '1'
    } else if d == 2 {
        '2'
    } else if d == 3 {
        '3'
    } else if d == 4 {
        '4'
    } else if d == 5 {
        '5'
    } else if d == 6 {
        '6'
    } else if d == 7 {
        '7'
    } else if d == 8 {
        '8'
    } else {
        '9'
    }
}

/// The decimal numeral of `n`: no sign, no leading zero, `"0"` for zero.
pub open spec fn decimal(n: nat) -> Seq<char>
    decreases n,
{
    if n < 10 {
        seq![digit(n)]
    } else {
        decimal(n / 10).push(digit(n % 10))
    }
}

fn digit_str(d: u8) -> (s: &'static str)
    requires
        d < 10,
    ensures
        s@ == seq![digit(d as nat)],
{
    proof {
        reveal_strlit("0");
        reveal_strlit("1");
        reveal_strlit("2");
        reveal_strlit("3");
        reveal_strlit("4");
        reveal_strlit("5");
        reveal_strlit("6");
        reveal_strlit("7");
        reveal_strlit("8");
        reveal_strlit("9");
    }
    let s: &'static str = match d {
        0 => "0",
        1 => "1",
        2 => "2",
        3 => "3",
        4 => "4",
        5 => "5",
        6 => "6",
        7 => "7",
        8 => "8",
        _ => "9",
    };
    assert(s@ =~= seq![digit(d as nat)]);
    s
}

/// Appends the decimal numeral of `n` to `out`.
pub fn push_decimal(out: &mut String, n: u64)
    ensures
        final(out)@ == old(out)@ + decimal(n as nat),
    decreases n,
{
    if n >= 10 {
        push_decimal(out, n / 10);
    }
    let last: u8 = (n % 10) as u8;
    out.append(digit_str(last));
    assert(final(out)@ =~= old(out)@ + decimal(n as nat));
}

/// The decimal numeral of `n` as a string.
pub fn decimal_string(n: u64) -> (s: String)
    ensures
        s@ == decimal(n as nat),
{
    let mut s = String::new();
    push_decimal(&mut s, n);
    assert(s@ =~= decimal(n as nat));
    s
}

/// Whether two texts are the same, character for character.
pub fn same(a: &str, b: &str) -> (r: bool)
    ensures
        r == (a@ == b@),
{
    String::from_str(a) == String::from_str(b)
}

/// `text` in lower case, as `str::to_lowercase` gives it.
pub uninterp spec fn lowercase(text: Seq<char>) -> Seq<char>;

/// Lowers the case with `str::to_lowercase`: the result is a function of the
/// text alone, and goes by the name [`lowercase`].
#[verifier::external_body]
pub(crate) fn to_lowercase(text: &str) -> (lowered: String)
    ensures
        lowered@ == lowercase(text@),
{
    text.to_lowercase()
}

/// `text` without the white space that it begins and ends with, as
/// `str::trim` gives it.
pub uninterp spec fn trimmed(text: Seq<char>) -> Seq<char>;

/// Takes the white space off both ends with `str::trim`: the result is a
/// function of the text alone, and goes by the name [`trimmed`].
#[verifier::external_body]
pub(crate) fn trim(text: &str) -> (inner: &str)
    ensures
        inner@ == trimmed(text@),
{
    text.trim()
}

/// Whether `query` stands somewhere in `text`, character for character. The
/// empty query stands in every text.
pub open spec fn occurs_in(query: Seq<char>, text: Seq<char>) -> bool {
    exists|at: int|
        0 <= at && at + query.len() <= text.len() && #[trigger] text.subrange(
            at,
            at + query.len(),
        ) == query
}

/// Looks for `query` in `text` with `str::contains`, which says whether the
/// pattern matches a sub-slice of the text.
#[verifier::external_body]
pub(crate) fn contains(text: &str, query: &str) -> (found: bool)
    ensures
        found == occurs_in(query@, text@),
{
    text.contains(query)
}

/// `line` without the carriage return that it ends with, if it ends with one.
pub open spec fn without_cr(line: Seq<char>) -> Seq<char> {
    if line.len() > 0 && line.last() == '\r' {
        line.drop_last()
    } else {
        line
    }
}

/// The lines of what is left of a text, `line` being what was read of the
/// line at hand.
pub open spec fn split_lines(rest: Seq<char>, line: Seq<char>) -> Seq<Seq<char>>
    decreases rest.len(),
{
    if rest.len() == 0 {
        if line.len() == 0 {
            Seq::empty()
        } else {
            seq![line]
        }
    } else if rest[0] == '\n' {
        seq![without_cr(line)] + split_lines(rest.drop_first(), Seq::empty())
    } else {
        split_lines(rest.drop_first(), line.push(rest[0]))
    }
}

/// The lines of a text. A line ends with a line feed, or with a carriage
/// return and a line feed; neither is part of the line. The last line needs
/// no ending, and keeps a carriage return that no line feed follows.
pub open spec fn lines_of(contents: Seq<char>) -> Seq<Seq<char>> {
    split_lines(contents, Seq::empty())
}

/// What each of `lines` holds.
pub open spec fn texts(lines: Seq<&str>) -> Seq<Seq<char>> {
    Seq::new(lines.len(), |i: int| lines[i]@)
}

/// Splits a text into its lines with `str::lines`: lines end with `\n` or
/// `\r\n`, the ending is not part of the line, and the last ending is
/// optional.
#[verifier::external_body]
pub(crate) fn lines<'a>(contents: &'a str) -> (found: Vec<&'a str>)
    ensures
        texts(found@) == lines_of(contents@),
{
    contents.lines().collect()
}

} // verus!
