//! Small text utilities shared by the rest of the crate: decimal numbers,
//! whitespace and trimming, and cutting text at byte offsets.

use vstd::prelude::*;
use vstd::string::*;
use vstd::utf8::*;

verus! {

/// The character that stands for the decimal digit `d`.
pub open spec fn digit_char(d: int) -> char {
    if d == 0 {
        '0'
    } else if d == 1 {
        '1'
    } else if d == 2 {
        '2'
    } else if d == 3 {
        '3'
    } else if d == 4 {
        '4'
    } else if d == 5 {
        '5'
    } else if d == 6 {
        '6'
    } else if d == 7 {
        '7'
    } else if d == 8 {
        '8'
    } else {
        '9'
    }
}

/// The decimal representation of `n`, most significant digit first, without
/// leading zeros (zero itself is `"0"`).
pub open spec fn decimal_digits(n: nat) -> Seq<char>
    decreases n,
{
    if n < 10 {
        seq![digit_char(n as int)]
    } else {
        decimal_digits(n / 10).push(digit_char((n % 10) as int))
    }
}

fn digit_str(d: u128) -> (s: &'static str)
    requires
        d < 10,
    ensures
        s@ == seq![digit_char(d as int)],
{
    proof {
        reveal_strlit("0");
        reveal_strlit("1");
        reveal_strlit("2");
        reveal_strlit("3");
        reveal_strlit("4");
        reveal_strlit("5");
        reveal_strlit("6");
        reveal_strlit("7");
        reveal_strlit("8");
        reveal_strlit("9");
    }
    let s = if d == 0 {
        "0"
    } else if d == 1 {
        "1"
    } else if d == 2 {
        "2"
    } else if d == 3 {
        "3"
    } else if d == 4 {
        "4"
    } else if d == 5 {
        "5"
    } else if d == 6 {
        "6"
    } else if d == 7 {
        "7"
    } else if d == 8 {
        "8"
    } else {
        "9"
    };
    assert(s@ =~= seq![digit_char(d as int)]);
    s
}

/// Writes `n` in decimal.
pub fn decimal(n: u128) -> (s: String)
    ensures
        s@ == decimal_digits(n as nat),
    decreases n,
{
    if n < 10 {
        String::from_str(digit_str(n))
    } else {
        let mut s = decimal(n / 10);
        s.append(digit_str(n % 10));
        assert(s@ =~= decimal_digits(n as nat));
        s
    }
}

/// Whether `c` is whitespace: whether it has the Unicode property
/// `White_Space`. These are the characters that std's `char::is_whitespace`
/// accepts.
pub open spec fn is_whitespace(c: char) -> bool {
    let n = c as u32;
    ||| 0x09 <= n <= 0x0d
    ||| n == 0x20
    ||| n == 0x85
    ||| n == 0xa0
    ||| n == 0x1680
    ||| 0x2000 <= n <= 0x200a
    ||| n == 0x2028
    ||| n == 0x2029
    ||| n == 0x202f
    ||| n == 0x205f
    ||| n == 0x3000
}

/// Tells whether `c` is whitespace.
pub fn char_is_whitespace(c: char) -> (b: bool)
    ensures
        b == is_whitespace(c),
{
    let n = c as u32;
    (0x09 <= n && n <= 0x0d) || n == 0x20 || n == 0x85 || n == 0xa0 || n == 0x1680 || (0x2000 <= n
        && n <= 0x200a) || n == 0x2028 || n == 0x2029 || n == 0x202f || n == 0x205f || n
        == 0x3000
}

/// The number of whitespace characters at the start of `s`.
pub open spec fn leading_whitespace(s: Seq<char>) -> nat
    decreases s.len(),
{
    if s.len() == 0 || !is_whitespace(s[0]) {
        0
    } else {
        1 + leading_whitespace(s.drop_first())
    }
}

/// The number of whitespace characters at the end of `s`.
pub open spec fn trailing_whitespace(s: Seq<char>) -> nat
    decreases s.len(),
{
    if s.len() == 0 || !is_whitespace(s.last()) {
        0
    } else {
        1 + trailing_whitespace(s.drop_last())
    }
}

/// `s` without the whitespace at its start and at its end.
pub open spec fn trimmed(s: Seq<char>) -> Seq<char> {
    let rest = s.skip(leading_whitespace(s) as int);
    rest.take(rest.len() - trailing_whitespace(rest))
}

/// `n` spaces.
pub open spec fn spaces(n: nat) -> Seq<char> {
    Seq::new(n, |i: int| ' ')
}

/// The whitespace at the start of a text is no longer than the text.
pub proof fn lemma_leading_whitespace_bound(s: Seq<char>)
    ensures
        leading_whitespace(s) <= s.len(),
    decreases s.len(),
{
    if s.len() > 0 && is_whitespace(s[0]) {
        lemma_leading_whitespace_bound(s.drop_first());
    }
}

/// The whitespace at the end of a text is no longer than the text.
pub proof fn lemma_trailing_whitespace_bound(s: Seq<char>)
    ensures
        trailing_whitespace(s) <= s.len(),
    decreases s.len(),
{
    if s.len() > 0 && is_whitespace(s.last()) {
        lemma_trailing_whitespace_bound(s.drop_last());
    }
}

/// Counts the whitespace characters at the start of `s`.
pub fn count_leading_whitespace(s: &str) -> (n: usize)
    ensures
        n == leading_whitespace(s@),
{
    let len = s.unicode_len();
    let mut i: usize = 0;
    assert(s@.skip(0) =~= s@);
    while i < len
        invariant
            i <= len,
            len == s@.len(),
            leading_whitespace(s@) == i + leading_whitespace(s@.skip(i as int)),
        decreases len - i,
    {
        let c = s.get_char(i);
        assert(s@.skip(i as int)[0] == s@[i as int]);
        if !char_is_whitespace(c) {
            return i;
        }
        assert(s@.skip(i as int).drop_first() =~= s@.skip(i + 1));
        i += 1;
    }
    i
}

/// Counts the whitespace characters at the end of `s`.
pub fn count_trailing_whitespace(s: &str) -> (n: usize)
    ensures
        n == trailing_whitespace(s@),
{
    let len = s.unicode_len();
    let mut j: usize = len;
    assert(s@.take(len as int) =~= s@);
    while j > 0
        invariant
            j <= len,
            len == s@.len(),
            trailing_whitespace(s@) == (len - j) + trailing_whitespace(s@.take(j as int)),
        decreases j,
    {
        let c = s.get_char(j - 1);
        assert(s@.take(j as int).last() == s@[j - 1]);
        if !char_is_whitespace(c) {
            return len - j;
        }
        assert(s@.take(j as int).drop_last() =~= s@.take(j - 1));
        j -= 1;
    }
    len - j
}

/// Removes the whitespace at the start and at the end of `s`.
pub fn trim(s: &str) -> (t: &str)
    ensures
        t@ == trimmed(s@),
{
    let len = s.unicode_len();
    let start = count_leading_whitespace(s);
    proof {
        lemma_leading_whitespace_bound(s@);
    }
    let rest = s.substring_char(start, len);
    assert(rest@ =~= s@.skip(start as int));
    let rest_len = rest.unicode_len();
    let end = count_trailing_whitespace(rest);
    proof {
        lemma_trailing_whitespace_bound(rest@);
    }
    let t = rest.substring_char(0, rest_len - end);
    assert(t@ =~= rest@.take(rest@.len() - trailing_whitespace(rest@)));
    t
}

/// A string of `n` spaces.
pub fn blank(n: usize) -> (s: String)
    ensures
        s@ == spaces(n as nat),
{
    let mut s = String::new();
    let mut i: usize = 0;
    proof {
        reveal_strlit(" ");
    }
    assert(s@ =~= spaces(0));
    while i < n
        invariant
            i <= n,
            s@ == spaces(i as nat),
            " "@ == seq![' '],
        decreases n - i,
    {
        s.append(" ");
        i += 1;
        assert(s@ =~= spaces(i as nat));
    }
    s
}

/// The part of `text` between the byte offsets `start` and `end` of its UTF-8
/// encoding, where both lie on character boundaries and `start <= end`.
pub open spec fn text_between(text: Seq<char>, start: int, end: int) -> Option<Seq<char>> {
    let bytes = encode_utf8(text);
    if 0 <= start <= end && is_char_boundary(bytes, end) && is_char_boundary(
        bytes.subrange(0, end),
        start,
    ) {
        Some(decode_utf8(bytes.subrange(start, end)))
    } else {
        None
    }
}

/// Cuts the bytes `start..end` out of `text`, or returns `None` where that
/// range is not made of whole characters of `text`.
pub fn slice(text: &str, start: usize, end: usize) -> (part: Option<&str>)
    ensures
        match text_between(text@, start as int, end as int) {
            Some(chars) => part matches Some(p) && p@ == chars,
            None => part is None,
        },
{
    if start <= end && text.is_char_boundary(end) {
        let (head, _) = text.split_at(end);
        if head.is_char_boundary(start) {
            let (_, part) = head.split_at(start);
            proof {
                let bytes = text.spec_bytes();
                encode_utf8_valid_utf8(text@);
                assert(end <= bytes.len());
                assert(head.spec_bytes().subrange(start as int, head.spec_bytes().len() as int)
                    =~= bytes.subrange(start as int, end as int));
                encode_utf8_decode_utf8(part@);
            }
            Some(part)
        } else {
            None
        }
    } else {
        None
    }
}

/// The texts of a sequence of strings.
pub open spec fn texts(strings: Seq<String>) -> Seq<Seq<char>> {
    strings.map_values(|s: String| s@)
}

/// The byte order mark.
pub open spec fn byte_order_mark() -> char {
    '\u{feff}'
}

/// The number of byte order marks at the start of `s`.
pub open spec fn leading_marks(s: Seq<char>) -> nat
    decreases s.len(),
{
    if s.len() == 0 || s[0] != byte_order_mark() {
        0
    } else {
        1 + leading_marks(s.drop_first())
    }
}

/// `s` without the byte order marks at its start.
pub open spec fn without_marks(s: Seq<char>) -> Seq<char> {
    s.skip(leading_marks(s) as int)
}

/// Removes every byte order mark at the start of `s`.
pub fn strip_marks(s: &str) -> (t: &str)
    ensures
        t@ == without_marks(s@),
{
    let len = s.unicode_len();
    let mut i: usize = 0;
    assert(s@.skip(0) =~= s@);
    while i < len
        invariant
            i <= len,
            len == s@.len(),
            leading_marks(s@) == i + leading_marks(s@.skip(i as int)),
        ensures
            i <= len,
            leading_marks(s@) == i,
        decreases len - i,
    {
        let c = s.get_char(i);
        assert(s@.skip(i as int)[0] == s@[i as int]);
        if c != '\u{feff}' {
            break;
        }
        assert(s@.skip(i as int).drop_first() =~= s@.skip(i + 1));
        i += 1;
    }
    let t = s.substring_char(i, len);
    assert(t@ =~= s@.skip(i as int));
    t
}

} // verus!
