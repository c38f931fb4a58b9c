//! String helpers used by the controller logic.
use vstd::prelude::*;

verus! {

/// Whether two strings hold the same characters.
pub fn str_eq(a: &str, b: &str) -> (r: bool)
    ensures
        r == (a@ == b@),
{
    let x = a.to_owned();
    let y = b.to_owned();
    x == y
}


/// The decimal digit `d` as a one-character string.
pub open spec fn digit_chars(d: nat) -> Seq<char> {
    if d == 0 {
        "0"@
    } else if d == 1 {
        "1"@
    } else if d == 2 {
        "2"@
    } else if d == 3 {
        "3"@
    } else if d == 4 {
        "4"@
    } else if d == 5 {
        "5"@
    } else if d == 6 {
        "6"@
    } else if d == 7 {
        "7"@
    } else if d == 8 {
        "8"@
    } else {
        "9"@
    }
}

/// The decimal representation of `n`, without leading zeros.
pub open spec fn decimal(n: nat) -> Seq<char>
    decreases n,
{
    if n < 10 {
        digit_chars(n)
    } else {
        decimal(n / 10) + digit_chars(n % 10)
    }
}

fn digit_str(d: u64) -> (r: &'static str)
    requires
        d < 10,
    ensures
        r@ == digit_chars(d as nat),
{
    if d == 0 {
        "0"
    } else if d == 1 {
        "1"
    } else if d == 2 {
        "2"
    } else if d == 3 {
        "3"
    } else if d == 4 {
        "4"
    } else if d == 5 {
        "5"
    } else if d == 6 {
        "6"
    } else if d == 7 {
        "7"
    } else if d == 8 {
        "8"
    } else {
        "9"
    }
}

/// Format `n` in decimal.
pub fn format_decimal(n: u64) -> (r: String)
    ensures
        r@ == decimal(n as nat),
    decreases n,
{
    if n < 10 {
        digit_str(n).to_owned()
    } else {
        let mut r = format_decimal(n / 10);
        r.append(digit_str(n % 10));
        r
    }
}


/// `s` without the slashes that end it.
pub open spec fn trim_trailing_slashes(s: Seq<char>) -> Seq<char>
    decreases s.len(),
{
    if s.len() > 0 && s.last() == '/' {
        trim_trailing_slashes(s.drop_last())
    } else {
        s
    }
}

/// Copy `s` without the slashes that end it.
pub fn trim_trailing_slashes_of(s: &str) -> (r: String)
    ensures
        r@ == trim_trailing_slashes(s@),
{
    let mut n = s.unicode_len();
    assert(s@.subrange(0, n as int) =~= s@);
    while n > 0 && s.get_char(n - 1) == '/'
        invariant
            n <= s@.len(),
            trim_trailing_slashes(s@) == trim_trailing_slashes(s@.subrange(0, n as int)),
        decreases n,
    {
        assert(s@.subrange(0, n as int).drop_last() =~= s@.subrange(0, n - 1));
        n = n - 1;
    }
    assert(trim_trailing_slashes(s@.subrange(0, n as int)) == s@.subrange(0, n as int));
    s.substring_char(0, n).to_owned()
}

/// Whether `c` has the Unicode `White_Space` property, as `char::is_whitespace`
/// decides.
pub open spec fn is_white_space(c: char) -> bool {
    ||| '\t' <= c <= '\r'
    ||| c == ' '
    ||| c == '\u{85}'
    ||| c == '\u{a0}'
    ||| c == '\u{1680}'
    ||| '\u{2000}' <= c <= '\u{200a}'
    ||| c == '\u{2028}'
    ||| c == '\u{2029}'
    ||| c == '\u{202f}'
    ||| c == '\u{205f}'
    ||| c == '\u{3000}'
}

/// Whether `c` is white space.
pub fn is_white_space_char(c: char) -> (r: bool)
    ensures
        r == is_white_space(c),
{
    ('\t' <= c && c <= '\r') || c == ' ' || c == '\u{85}' || c == '\u{a0}' || c == '\u{1680}' || ('\u{2000}' <= c
        && c <= '\u{200a}') || c == '\u{2028}' || c == '\u{2029}' || c == '\u{202f}' || c == '\u{205f}' || c
        == '\u{3000}'
}

/// The first index at or after `i` that is the end of `s` or holds a
/// character other than white space.
pub open spec fn skip_white(s: Seq<char>, i: int) -> int
    decreases s.len() - i,
{
    if i >= s.len() || i < 0 || !is_white_space(s[i]) {
        i
    } else {
        skip_white(s, i + 1)
    }
}

/// The first index at or after `i` that is the end of `s` or holds white
/// space.
pub open spec fn skip_word(s: Seq<char>, i: int) -> int
    decreases s.len() - i,
{
    if i >= s.len() || i < 0 || is_white_space(s[i]) {
        i
    } else {
        skip_word(s, i + 1)
    }
}

/// The first index at or after `i` that is the end of `s` or holds a line
/// feed.
pub open spec fn line_end(s: Seq<char>, i: int) -> int
    decreases s.len() - i,
{
    if i >= s.len() || i < 0 || s[i] == '\n' {
        i
    } else {
        line_end(s, i + 1)
    }
}

/// The first line of `s`, without its line feed.
pub open spec fn first_line(s: Seq<char>) -> Seq<char> {
    s.take(line_end(s, 0))
}

/// The second word of `s`, words being separated by white space; empty
/// when `s` has fewer than two words.
pub open spec fn second_word(s: Seq<char>) -> Seq<char> {
    let start = skip_white(s, skip_word(s, skip_white(s, 0)));
    s.subrange(start, skip_word(s, start))
}

/// A scan step stays within `s`.
proof fn lemma_scan_bounds(s: Seq<char>, i: int)
    requires
        0 <= i <= s.len(),
    ensures
        i <= skip_white(s, i) <= s.len(),
        i <= skip_word(s, i) <= s.len(),
        i <= line_end(s, i) <= s.len(),
    decreases s.len() - i,
{
    if i < s.len() {
        lemma_scan_bounds(s, i + 1);
    }
}

/// Skip the white space of `s` from `i`.
fn skip_white_from(s: &str, i: usize) -> (r: usize)
    requires
        i <= s@.len(),
    ensures
        r == skip_white(s@, i as int),
{
    let n = s.unicode_len();
    let mut j = i;
    while j < n && is_white_space_char(s.get_char(j))
        invariant
            i <= j <= n,
            n == s@.len(),
            skip_white(s@, i as int) == skip_white(s@, j as int),
        decreases n - j,
    {
        j = j + 1;
    }
    j
}

/// Skip the word of `s` that starts at `i`.
fn skip_word_from(s: &str, i: usize) -> (r: usize)
    requires
        i <= s@.len(),
    ensures
        r == skip_word(s@, i as int),
{
    let n = s.unicode_len();
    let mut j = i;
    while j < n && !is_white_space_char(s.get_char(j))
        invariant
            i <= j <= n,
            n == s@.len(),
            skip_word(s@, i as int) == skip_word(s@, j as int),
        decreases n - j,
    {
        j = j + 1;
    }
    j
}

/// The second word of the first line of `s`, or the empty string.
pub fn second_word_of_first_line(s: &str) -> (r: String)
    ensures
        r@ == second_word(first_line(s@)),
{
    let n = s.unicode_len();
    let mut e: usize = 0;
    while e < n && s.get_char(e) != '\n'
        invariant
            e <= n,
            n == s@.len(),
            line_end(s@, 0) == line_end(s@, e as int),
        decreases n - e,
    {
        e = e + 1;
    }
    let line = s.substring_char(0, e);
    assert(line@ =~= first_line(s@));
    proof {
        lemma_scan_bounds(line@, 0);
    }
    let a1 = skip_white_from(line, 0);
    proof {
        lemma_scan_bounds(line@, a1 as int);
    }
    let b1 = skip_word_from(line, a1);
    proof {
        lemma_scan_bounds(line@, b1 as int);
    }
    let a2 = skip_white_from(line, b1);
    proof {
        lemma_scan_bounds(line@, a2 as int);
    }
    let b2 = skip_word_from(line, a2);
    line.substring_char(a2, b2).to_owned()
}

} // verus!
