//! Small string tools: trimming, comparing without regard to ASCII case, and decimal
//! numbers. Each works on the characters of a string, never on its bytes.

use vstd::prelude::*;
use vstd::string::*;

verus! {

/// Whether `c` has the Unicode property White_Space, as `char::is_whitespace` tells it.
pub uninterp spec fn white_space(c: char) -> bool;

/// `s` without the run of `unwanted` at its end.
pub open spec fn without_trailing(s: Seq<char>, unwanted: char) -> Seq<char>
    decreases s.len(),
{
    if s.len() > 0 && s.last() == unwanted {
        without_trailing(s.drop_last(), unwanted)
    } else {
        s
    }
}

/// `s` without the run of `unwanted` at its start.
pub open spec fn without_leading(s: Seq<char>, unwanted: char) -> Seq<char>
    decreases s.len(),
{
    if s.len() > 0 && s[0] == unwanted {
        without_leading(s.drop_first(), unwanted)
    } else {
        s
    }
}

/// `s` without the white space at its end.
pub open spec fn without_trailing_space(s: Seq<char>) -> Seq<char>
    decreases s.len(),
{
    if s.len() > 0 && white_space(s.last()) {
        without_trailing_space(s.drop_last())
    } else {
        s
    }
}

/// `s` without the white space at its start.
pub open spec fn without_leading_space(s: Seq<char>) -> Seq<char>
    decreases s.len(),
{
    if s.len() > 0 && white_space(s[0]) {
        without_leading_space(s.drop_first())
    } else {
        s
    }
}

/// `s` without the white space at either end.
pub open spec fn trimmed(s: Seq<char>) -> Seq<char> {
    without_trailing_space(without_leading_space(s))
}

/// The lower-case form of an ASCII capital; any other character unchanged.
pub open spec fn ascii_lower(c: char) -> char {
    if 'A' <= c && c <= 'Z' {
        ((c as u8) + 32) as char
    } else {
        c
    }
}

/// `s` with each ASCII capital in lower case.
pub open spec fn ascii_lowered(s: Seq<char>) -> Seq<char> {
    Seq::new(s.len(), |i: int| ascii_lower(s[i]))
}

/// The character that writes the digit `d`.
pub open spec fn digit(d: int) -> char {
    if d == 0 {
        '0'
    } else if d == 1 {
        '1'
    } else if d == 2 {
        '2'
    } else if d == 3 {
        '3'
    } else if d == 4 {
        '4'
    } else if d == 5 {
        '5'
    } else if d == 6 {
        '6'
    } else if d == 7 {
        '7'
    } else if d == 8 {
        '8'
    } else {
        '9'
    }
}

/// `n` written in base ten, without sign or leading zeros.
pub open spec fn decimal(n: nat) -> Seq<char>
    decreases n,
{
    if n < 10 {
        seq![digit(n as int)]
    } else {
        decimal(n / 10).push(digit((n % 10) as int))
    }
}

/// An optional string over sequences of characters.
pub open spec fn optional_text(text: Option<String>) -> Option<Seq<char>> {
    match text {
        Some(t) => Some(t@),
        None => None,
    }
}

/// An optional string slice over sequences of characters.
pub open spec fn optional_str(text: Option<&str>) -> Option<Seq<char>> {
    match text {
        Some(t) => Some(t@),
        None => None,
    }
}

/// `char::is_whitespace`.
///
/// Trusted: the answer depends on the character alone. Which characters count is left
/// to the standard library's Unicode tables.
#[verifier::external_body]
fn is_whitespace(c: char) -> (space: bool)
    ensures
        space == white_space(c),
{
    c.is_whitespace()
}

/// Whether two strings hold the same characters.
pub fn same_text(a: &str, b: &str) -> (same: bool)
    ensures
        same == (a@ == b@),
{
    let left = String::from_str(a);
    let right = String::from_str(b);
    left == right
}

/// `s` without the run of `unwanted` at its end.
pub fn strip_trailing<'a>(s: &'a str, unwanted: char) -> (kept: &'a str)
    ensures
        kept@ == without_trailing(s@, unwanted),
{
    let n = s.unicode_len();
    let mut end = n;
    assert(s@.subrange(0, n as int) == s@);
    while end > 0 && s.get_char(end - 1) == unwanted
        invariant
            end <= n,
            n == s@.len(),
            without_trailing(s@, unwanted) == without_trailing(
                s@.subrange(0, end as int),
                unwanted,
            ),
        decreases end,
    {
        assert(s@.subrange(0, end as int).drop_last() == s@.subrange(0, end as int - 1));
        end -= 1;
    }
    s.substring_char(0, end)
}

/// `s` without the run of `unwanted` at its start.
pub fn strip_leading<'a>(s: &'a str, unwanted: char) -> (kept: &'a str)
    ensures
        kept@ == without_leading(s@, unwanted),
{
    let n = s.unicode_len();
    let mut start: usize = 0;
    assert(s@.subrange(0, n as int) == s@);
    while start < n && s.get_char(start) == unwanted
        invariant
            start <= n,
            n == s@.len(),
            without_leading(s@, unwanted) == without_leading(
                s@.subrange(start as int, n as int),
                unwanted,
            ),
        decreases n - start,
    {
        assert(s@.subrange(start as int, n as int).drop_first() == s@.subrange(
            start as int + 1,
            n as int,
        ));
        start += 1;
    }
    s.substring_char(start, n)
}

/// `s` without the white space at either end.
pub fn trim<'a>(s: &'a str) -> (kept: &'a str)
    ensures
        kept@ == trimmed(s@),
{
    let n = s.unicode_len();
    let mut start: usize = 0;
    assert(s@.subrange(0, n as int) == s@);
    while start < n && is_whitespace(s.get_char(start))
        invariant
            start <= n,
            n == s@.len(),
            without_leading_space(s@) == without_leading_space(
                s@.subrange(start as int, n as int),
            ),
        decreases n - start,
    {
        assert(s@.subrange(start as int, n as int).drop_first() == s@.subrange(
            start as int + 1,
            n as int,
        ));
        start += 1;
    }
    let mut end = n;
    while end > start && is_whitespace(s.get_char(end - 1))
        invariant
            start <= end <= n,
            n == s@.len(),
            trimmed(s@) == without_trailing_space(s@.subrange(start as int, end as int)),
        decreases end,
    {
        assert(s@.subrange(start as int, end as int).drop_last() == s@.subrange(
            start as int,
            end as int - 1,
        ));
        end -= 1;
    }
    s.substring_char(start, end)
}

/// The lower-case form of an ASCII capital; any other character unchanged.
pub fn lower_char(c: char) -> (lower: char)
    ensures
        lower == ascii_lower(c),
{
    if 'A' <= c && c <= 'Z' {
        ((c as u8) + 32) as char
    } else {
        c
    }
}

/// Whether two strings are equal once their ASCII capitals are in lower case.
pub fn eq_ignore_ascii_case(a: &str, b: &str) -> (same: bool)
    ensures
        same == (ascii_lowered(a@) == ascii_lowered(b@)),
{
    let n = a.unicode_len();
    if n != b.unicode_len() {
        assert(ascii_lowered(a@).len() != ascii_lowered(b@).len());
        return false;
    }
    let mut i: usize = 0;
    while i < n
        invariant
            i <= n,
            n == a@.len(),
            n == b@.len(),
            forall|j: int| 0 <= j < i ==> ascii_lower(a@[j]) == ascii_lower(b@[j]),
        decreases n - i,
    {
        if lower_char(a.get_char(i)) != lower_char(b.get_char(i)) {
            assert(ascii_lowered(a@)[i as int] != ascii_lowered(b@)[i as int]);
            return false;
        }
        i += 1;
    }
    assert(ascii_lowered(a@) =~= ascii_lowered(b@));
    true
}

/// The one-character string of the digit `d`.
fn digit_text(d: u64) -> (text: &'static str)
    requires
        d < 10,
    ensures
        text@ == seq![digit(d as int)],
{
    proof {
        reveal_strlit("0");
        reveal_strlit("1");
        reveal_strlit("2");
        reveal_strlit("3");
        reveal_strlit("4");
        reveal_strlit("5");
        reveal_strlit("6");
        reveal_strlit("7");
        reveal_strlit("8");
        reveal_strlit("9");
    }
    if d == 0 {
        "0"
    } else if d == 1 {
        "1"
    } else if d == 2 {
        "2"
    } else if d == 3 {
        "3"
    } else if d == 4 {
        "4"
    } else if d == 5 {
        "5"
    } else if d == 6 {
        "6"
    } else if d == 7 {
        "7"
    } else if d == 8 {
        "8"
    } else {
        "9"
    }
}

/// Appends `n` in base ten to `out`.
pub fn push_decimal(out: &mut String, n: u64)
    ensures
        final(out)@ == old(out)@ + decimal(n as nat),
    decreases n,
{
    if n >= 10 {
        push_decimal(out, n / 10);
    }
    out.append(digit_text(n % 10));
}

} // verus!
