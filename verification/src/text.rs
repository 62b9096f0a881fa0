//! Character-level text utilities with exact specifications.

use vstd::prelude::*;
use vstd::string::*;
use vstd::std_specs::iter::IteratorSpec;
use vstd::utf8::{encode_utf8, is_char_boundary};
use crate::tally::string_views;

verus! {

/// The decimal digit character for `d` (which must be below 10).
pub open spec fn digit_char(d: nat) -> char {
    if d == 0 { '0' }
    else if d == 1 { '1' }
    else if d == 2 { '2' }
    else if d == 3 { '3' }
    else if d == 4 { '4' }
    else if d == 5 { '5' }
    else if d == 6 { '6' }
    else if d == 7 { '7' }
    else if d == 8 { '8' }
    else { '9' }
}

/// Decimal representation of a natural number, without leading zeros.
pub open spec fn decimal(n: nat) -> Seq<char>
    decreases n,
{
    if n < 10 {
        seq![digit_char(n)]
    } else {
        decimal(n / 10).push(digit_char(n % 10))
    }
}

/// Decimal representation of an integer, with a leading `-` when negative.
pub open spec fn signed_decimal(i: int) -> Seq<char> {
    if i < 0 {
        seq!['-'] + decimal((-i) as nat)
    } else {
        decimal(i as nat)
    }
}

/// Appends one character to a string (`String::push`).
#[verifier::external_body]
pub(crate) fn push_char(s: &mut String, c: char)
    ensures
        final(s)@ == old(s)@.push(c),
{
    s.push(c);
}

fn digit_of(d: u64) -> (c: char)
    requires
        d < 10,
    ensures
        c == digit_char(d as nat),
{
    if d == 0 { '0' }
    else if d == 1 { '1' }
    else if d == 2 { '2' }
    else if d == 3 { '3' }
    else if d == 4 { '4' }
    else if d == 5 { '5' }
    else if d == 6 { '6' }
    else if d == 7 { '7' }
    else if d == 8 { '8' }
    else { '9' }
}

/// Appends the decimal representation of `n` to `s`.
pub fn append_decimal(s: &mut String, n: u64)
    ensures
        final(s)@ == old(s)@ + decimal(n as nat),
    decreases n,
{
    if n >= 10 {
        append_decimal(s, n / 10);
    }
    push_char(s, digit_of(n % 10));
    assert(s@ == old(s)@ + decimal(n as nat)) by {
        if n < 10 {
            assert(decimal(n as nat) == seq![digit_char(n as nat)]);
        }
    }
}


/// Appends the decimal representation of a signed integer to `s`.
pub fn append_signed(s: &mut String, i: i64)
    ensures
        final(s)@ == old(s)@ + signed_decimal(i as int),
{
    if i < 0 {
        push_char(s, '-');
        let m: u64 = if i == i64::MIN { 9223372036854775808u64 } else { (-i) as u64 };
        append_decimal(s, m);
    } else {
        append_decimal(s, i as u64);
    }
}

/// The decimal representation of `n` as a new string.
pub fn usize_text(n: usize) -> (r: String)
    ensures
        r@ == decimal(n as nat),
{
    let mut s = String::new();
    append_decimal(&mut s, n as u64);
    s
}

/// The characters of a string slice, in order.
pub fn chars_of(s: &str) -> (v: Vec<char>)
    ensures
        v@ == s@,
{
    let mut v: Vec<char> = Vec::new();
    for c in it: s.chars()
        invariant
            v@.len() == it.index(),
            forall|i: int| 0 <= i < v@.len() ==> v@[i] == it.seq()[i],
    {
        v.push(c);
    }
    assert(v@ =~= s@);
    v
}

/// `needle` occurs in `hay` starting at position `i`.
pub open spec fn occurs_at(hay: Seq<char>, needle: Seq<char>, i: int) -> bool {
    0 <= i && i + needle.len() <= hay.len() && hay.subrange(i, i + needle.len()) == needle
}

/// `needle` occurs somewhere in `hay` (the empty needle occurs everywhere).
pub open spec fn contains_text(hay: Seq<char>, needle: Seq<char>) -> bool {
    exists|i: int| occurs_at(hay, needle, i)
}

fn occurs_at_exec(hay: &Vec<char>, needle: &Vec<char>, i: usize) -> (b: bool)
    requires
        i + needle@.len() <= hay@.len(),
    ensures
        b == occurs_at(hay@, needle@, i as int),
{
    let mut j: usize = 0;
    while j < needle.len()
        invariant
            i + needle@.len() <= hay@.len(),
            hay@.len() == hay.len(),
            j <= needle@.len(),
            forall|k: int| 0 <= k < j ==> hay@[i + k] == needle@[k],
        decreases needle@.len() - j,
    {
        if hay[i + j] != needle[j] {
            assert(hay@.subrange(i as int, i + needle@.len())[j as int] != needle@[j as int]);
            return false;
        }
        j = j + 1;
    }
    assert(hay@.subrange(i as int, i + needle@.len()) =~= needle@);
    true
}

/// Whether the character sequence `hay` contains the characters of `needle`.
pub fn contains_chars(hay: &Vec<char>, needle: &Vec<char>) -> (b: bool)
    ensures
        b == contains_text(hay@, needle@),
{
    if needle.len() > hay.len() {
        assert forall|i: int| !occurs_at(hay@, needle@, i) by {}
        return false;
    }
    let last = hay.len() - needle.len();
    let mut i: usize = 0;
    loop
        invariant
            last + needle@.len() == hay@.len(),
            i <= last,
            forall|k: int| 0 <= k < i ==> !occurs_at(hay@, needle@, k),
        ensures
            forall|k: int| 0 <= k <= last ==> !occurs_at(hay@, needle@, k),
        decreases last - i,
    {
        if occurs_at_exec(hay, needle, i) {
            return true;
        }
        if i == last {
            break;
        }
        i = i + 1;
    }
    assert forall|k: int| !occurs_at(hay@, needle@, k) by {
        if 0 <= k && k <= last {
        }
    }
    false
}

/// Whether the string `hay` contains the string `needle`.
pub fn str_contains(hay: &str, needle: &str) -> (b: bool)
    ensures
        b == contains_text(hay@, needle@),
{
    let h = chars_of(hay);
    let n = chars_of(needle);
    contains_chars(&h, &n)
}


/// What `str::to_uppercase` returns for a string: its Unicode upper-case mapping.
pub uninterp spec fn upper_case(s: Seq<char>) -> Seq<char>;

/// What `str::to_lowercase` returns for a string: its Unicode lower-case mapping.
pub uninterp spec fn lower_case(s: Seq<char>) -> Seq<char>;

/// Every character of a text is an ASCII upper-case letter.
pub open spec fn ascii_upper(s: Seq<char>) -> bool {
    forall|i: int| 0 <= i < s.len() ==> 'A' <= #[trigger] s[i] <= 'Z'
}

/// Calls `str::to_uppercase`; the result is named by `upper_case` of the
/// input. A text of ASCII upper-case letters comes back unchanged: these
/// letters have no upper-case mapping of their own, and `char::to_uppercase`
/// yields such a character as it is.
#[verifier::external_body]
pub(crate) fn to_upper(s: &str) -> (r: String)
    ensures
        r@ == upper_case(s@),
        ascii_upper(s@) ==> r@ == s@,
{
    s.to_uppercase()
}

/// Calls `str::to_lowercase`; the result is named by `lower_case` of the input.
#[verifier::external_body]
pub(crate) fn to_lower(s: &str) -> (r: String)
    ensures
        r@ == lower_case(s@),
{
    s.to_lowercase()
}


/// Position of the first `c` in `s` at or after `from`, or `-1`.
pub open spec fn char_position(s: Seq<char>, c: char, from: int) -> int
    decreases s.len() - from,
{
    if from < 0 || from >= s.len() {
        -1
    } else if s[from] == c {
        from
    } else {
        char_position(s, c, from + 1)
    }
}

/// Characterizes `char_position`.
pub proof fn lemma_char_position(s: Seq<char>, c: char, from: int)
    requires
        0 <= from,
    ensures
        ({
            let i = char_position(s, c, from);
            (i == -1 && forall|j: int| from <= j < s.len() ==> s[j] != c)
            || (from <= i < s.len() && s[i] == c && forall|j: int| from <= j < i ==> s[j] != c)
        }),
    decreases s.len() - from,
{
    if from < s.len() && s[from] != c {
        lemma_char_position(s, c, from + 1);
    }
}

/// The first line of a text as `str::lines` yields it: the text up to the
/// first `\n` (without a `\r` just before it), or the whole text when it has
/// no `\n`; an empty text has no line.
pub open spec fn first_line(s: Seq<char>) -> Option<Seq<char>> {
    if s.len() == 0 {
        None
    } else {
        let nl = char_position(s, '\n', 0);
        if nl < 0 {
            Some(s)
        } else if nl > 0 && s[nl - 1] == '\r' {
            Some(s.take(nl - 1))
        } else {
            Some(s.take(nl))
        }
    }
}

/// The string made of the given characters.
pub fn string_of_chars(v: &Vec<char>, n: usize) -> (r: String)
    requires
        n <= v@.len(),
    ensures
        r@ == v@.take(n as int),
{
    let mut r = String::new();
    for i in 0..n
        invariant
            n <= v@.len(),
            r@ == v@.take(i as int),
    {
        push_char(&mut r, v[i]);
        assert(r@ =~= v@.take(i + 1));
    }
    r
}

/// The first `n` characters of a text (all of it when it is shorter).
pub open spec fn char_prefix(s: Seq<char>, n: nat) -> Seq<char> {
    if s.len() > n {
        s.take(n as int)
    } else {
        s
    }
}

/// The first `n` characters of a string, as a new string (all of it when
/// it is shorter).
pub fn char_prefix_of(s: &str, n: usize) -> (r: String)
    ensures
        r@ == char_prefix(s@, n as nat),
{
    let chars = chars_of(s);
    if chars.len() > n {
        string_of_chars(&chars, n)
    } else {
        let r = string_of_chars(&chars, chars.len());
        proof {
            assert(chars@.take(chars@.len() as int) =~= chars@);
        }
        r
    }
}

/// The first line of a text, as `str::lines().next()` gives it.
pub fn first_line_of(s: &str) -> (r: Option<String>)
    ensures
        match r {
            Some(l) => first_line(s@) == Some(l@),
            None => first_line(s@) is None,
        },
{
    let chars = chars_of(s);
    if chars.len() == 0 {
        return None;
    }
    proof { lemma_char_position(s@, '\n', 0); }
    let mut i: usize = 0;
    while i < chars.len()
        invariant
            chars@ == s@,
            i <= chars@.len(),
            forall|j: int| 0 <= j < i ==> chars@[j] != '\n',
        decreases chars@.len() - i,
    {
        if chars[i] == '\n' {
            proof {
                lemma_char_position(s@, '\n', 0);
                let p = char_position(s@, '\n', 0);
                if p != i as int {
                    if p < i as int {
                        assert(chars@[p] != '\n');
                    } else {
                        assert(s@[i as int] != '\n');
                    }
                }
            }
            if i > 0 && chars[i - 1] == '\r' {
                return Some(string_of_chars(&chars, i - 1));
            }
            return Some(string_of_chars(&chars, i));
        }
        i = i + 1;
    }
    proof {
        lemma_char_position(s@, '\n', 0);
        assert(chars@.take(chars@.len() as int) =~= chars@);
    }
    Some(string_of_chars(&chars, chars.len()))
}


/// `s` can be cut after `n` bytes: it is no longer, or byte `n` starts a character.
pub open spec fn cuttable_at(s: Seq<char>, n: nat) -> bool {
    encode_utf8(s).len() <= n || is_char_boundary(encode_utf8(s), n as int)
}

/// The lines of a text as `str::lines` yields them: the text is split
/// after each `\n`; a line loses its `\n` and a `\r` just before it; a
/// final `\n` does not start another line.
pub open spec fn lines(s: Seq<char>) -> Seq<Seq<char>>
    decreases s.len(),
{
    if s.len() == 0 {
        Seq::empty()
    } else {
        let nl = char_position(s, '\n', 0);
        if nl < 0 {
            seq![s]
        } else {
            proof {
                lemma_char_position(s, '\n', 0);
            }
            seq![first_line(s).unwrap()] + lines(s.skip(nl + 1))
        }
    }
}

/// A line as `str::lines` yields it from the text of a line and its `\n`:
/// without a `\r` at its end.
pub open spec fn strip_cr(l: Seq<char>) -> Seq<char> {
    if l.len() > 0 && l.last() == '\r' {
        l.drop_last()
    } else {
        l
    }
}

proof fn lemma_lines_step(s: Seq<char>, start: int, i: int)
    requires
        0 <= start <= i < s.len(),
        s[i] == '\n',
        forall|j: int| start <= j < i ==> s[j] != '\n',
    ensures
        lines(s.skip(start)) == seq![strip_cr(s.subrange(start, i))] + lines(s.skip(i + 1)),
{
    let t = s.skip(start);
    lemma_char_position(t, '\n', 0);
    let p = char_position(t, '\n', 0);
    assert(t[i - start] == '\n');
    if p != i - start {
        if p >= 0 && p < i - start {
            assert(t[p] == s[start + p]);
        }
    }
    assert(p == i - start);
    assert(t.skip(p + 1) =~= s.skip(i + 1));
    assert(t.take(p) =~= s.subrange(start, i));
    if p > 0 && t[p - 1] == '\r' {
        assert(t.take(p - 1) =~= s.subrange(start, i).drop_last());
    }
}

/// The lines of a text, as `str::lines` yields them.
pub fn lines_of(s: &str) -> (r: Vec<String>)
    ensures
        string_views(r@) == lines(s@),
{
    let chars = chars_of(s);
    let mut out: Vec<String> = Vec::new();
    let mut cur: Vec<char> = Vec::new();
    let mut start: usize = 0;
    let mut i: usize = 0;
    proof {
        assert(s@.skip(0) =~= s@);
        assert(string_views(out@) + lines(s@.skip(0)) =~= lines(s@));
    }
    while i < chars.len()
        invariant
            chars@ == s@,
            start <= i <= chars@.len(),
            cur@ == s@.subrange(start as int, i as int),
            forall|j: int| start <= j < i ==> s@[j] != '\n',
            lines(s@) == string_views(out@) + lines(s@.skip(start as int)),
        decreases chars@.len() - i,
    {
        if chars[i] == '\n' {
            proof {
                lemma_lines_step(s@, start as int, i as int);
            }
            let mut n = cur.len();
            if n > 0 && cur[n - 1] == '\r' {
                n = n - 1;
            }
            let line = string_of_chars(&cur, n);
            proof {
                if cur@.len() > 0 && cur@.last() == '\r' {
                    assert(cur@.take(n as int) =~= cur@.drop_last());
                } else {
                    assert(cur@.take(n as int) =~= cur@);
                }
            }
            let ghost before = out@;
            out.push(line);
            proof {
                assert(string_views(out@) =~= string_views(before).push(strip_cr(s@.subrange(start as int, i as int))));
                assert(string_views(out@) + lines(s@.skip(i + 1)) =~= string_views(before)
                    + (seq![strip_cr(s@.subrange(start as int, i as int))] + lines(s@.skip(i + 1))));
            }
            cur = Vec::new();
            start = i + 1;
        } else {
            cur.push(chars[i]);
        }
        i = i + 1;
        proof {
            assert(cur@ =~= s@.subrange(start as int, i as int));
        }
    }
    let ghost rest = s@.skip(start as int);
    if cur.len() > 0 {
        proof {
            lemma_char_position(rest, '\n', 0);
            assert(rest =~= cur@);
            assert(lines(rest) == seq![rest]);
        }
        let ghost before = out@;
        let n = cur.len();
        let line = string_of_chars(&cur, n);
        out.push(line);
        proof {
            assert(cur@.take(n as int) =~= cur@);
            assert(string_views(out@) =~= string_views(before) + lines(rest));
        }
    } else {
        proof {
            assert(rest.len() == 0);
            assert(string_views(out@) =~= string_views(out@) + lines(rest));
        }
    }
    out
}

/// Whether a character has the Unicode `White_Space` property (what
/// `char::is_whitespace` tests).
pub open spec fn white_space(c: char) -> bool {
    let u = c as u32;
    (0x9 <= u <= 0xd) || u == 0x20 || u == 0x85 || u == 0xa0 || u == 0x1680 || (0x2000 <= u <= 0x200a)
        || u == 0x2028 || u == 0x2029 || u == 0x202f || u == 0x205f || u == 0x3000
}

/// Whether a character has the Unicode `White_Space` property.
pub fn is_white_space(c: char) -> (b: bool)
    ensures
        b == white_space(c),
{
    let u = c as u32;
    (0x9 <= u && u <= 0xd) || u == 0x20 || u == 0x85 || u == 0xa0 || u == 0x1680 || (0x2000 <= u && u <= 0x200a)
        || u == 0x2028 || u == 0x2029 || u == 0x202f || u == 0x205f || u == 0x3000
}

/// A text made of white space only (empty once trimmed).
pub open spec fn blank(s: Seq<char>) -> bool {
    forall|i: int| 0 <= i < s.len() ==> white_space(#[trigger] s[i])
}

/// Whether a text is white space only (`str::trim` leaves it empty).
pub fn is_blank(s: &str) -> (b: bool)
    ensures
        b == blank(s@),
{
    let chars = chars_of(s);
    let mut i: usize = 0;
    while i < chars.len()
        invariant
            chars@ == s@,
            i <= chars@.len(),
            forall|j: int| 0 <= j < i ==> white_space(#[trigger] s@[j]),
        decreases chars@.len() - i,
    {
        if !is_white_space(chars[i]) {
            return false;
        }
        i = i + 1;
    }
    true
}

/// Whether `s` can be cut after `n` bytes.
pub fn can_cut_at(s: &str, n: usize) -> (b: bool)
    ensures
        b == cuttable_at(s@, n as nat),
{
    let total = s.as_bytes().len();
    total <= n || s.is_char_boundary(n)
}


/// What `{:?}` writes for a string: the string in double quotes with its
/// special characters escaped.
pub uninterp spec fn debug_text(s: Seq<char>) -> Seq<char>;

/// Formats a string with `{:?}`; the result is named by `debug_text` of the input.
#[verifier::external_body]
pub(crate) fn debug_quoted(s: &str) -> (r: String)
    ensures
        r@ == debug_text(s@),
{
    format!("{:?}", s)
}

} // verus!
