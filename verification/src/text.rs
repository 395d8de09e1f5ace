//! Small verified helpers on strings and byte sequences.

use vstd::prelude::*;

verus! {

/// Compares two byte slices element by element.
pub fn bytes_eq(a: &[u8], b: &[u8]) -> (same: bool)
    ensures
        same == (a@ == b@),
{
    if a.len() != b.len() {
        return false;
    }
    let mut i: usize = 0;
    while i < a.len()
        invariant
            a.len() == b.len(),
            i <= a.len(),
            forall|k: int| 0 <= k < i ==> a@[k] == b@[k],
        decreases a.len() - i,
    {
        if a[i] != b[i] {
            return false;
        }
        i += 1;
    }
    assert(a@ =~= b@);
    true
}

/// Tells whether two strings hold the same characters.
pub fn str_eq(a: &str, b: &str) -> (same: bool)
    ensures
        same == (a@ == b@),
{
    let same = bytes_eq(a.as_bytes(), b.as_bytes());
    proof {
        vstd::utf8::encode_utf8_decode_utf8(a@);
        vstd::utf8::encode_utf8_decode_utf8(b@);
    }
    same
}

/// The text that a byte sequence encodes in UTF-8, if it is well formed.
pub open spec fn decoded(bytes: Seq<u8>) -> Option<Seq<char>> {
    if vstd::utf8::valid_utf8(bytes) {
        Some(vstd::utf8::decode_utf8(bytes))
    } else {
        None
    }
}

/// `String::from_utf8` of std: the text that `bytes` encode, or `None` where
/// they are not UTF-8. The claim, taken on trust, is that std accepts exactly
/// the well-formed UTF-8 sequences and decodes them character by character.
#[verifier::external_body]
pub(crate) fn decode_text(bytes: Vec<u8>) -> (text: Option<String>)
    ensures
        text.deep_view() == decoded(bytes@),
{
    match String::from_utf8(bytes) {
        Ok(text) => Some(text),
        Err(_) => None,
    }
}

/// `String::push` of std appends one character.
pub assume_specification[ String::push ](s: &mut String, c: char)
    ensures
        final(s)@ == old(s)@.push(c),
;

/// What `replace_chars` computes.
pub open spec fn replaced(s: Seq<char>, a: char, b: char, with: char) -> Seq<char> {
    Seq::new(s.len(), |i: int| if s[i] == a || s[i] == b { with } else { s[i] })
}

/// Replaces every occurrence of `a` or `b` in `s` by `with`.
pub fn replace_chars(s: &str, a: char, b: char, with: char) -> (out: String)
    ensures
        out@ == replaced(s@, a, b, with),
{
    let mut out = String::new();
    for c in it: s.chars()
        invariant
            it.seq() == s@,
            out@ == replaced(s@.subrange(0, it.index() as int), a, b, with),
    {
        if c == a || c == b {
            out.push(with);
        } else {
            out.push(c);
        }
    }
    out
}

/// The parts of `parts` written one after another with `sep` between each two.
pub open spec fn joined(parts: Seq<Seq<char>>, sep: Seq<char>) -> Seq<char>
    decreases parts.len(),
{
    if parts.len() == 0 {
        Seq::empty()
    } else if parts.len() == 1 {
        parts[0]
    } else {
        joined(parts.drop_last(), sep) + sep + parts.last()
    }
}

/// Joins the strings of `parts` from index `from` on, with `sep` between them.
pub fn join_from(parts: &Vec<String>, from: usize, sep: &str) -> (out: String)
    requires
        from <= parts.len(),
    ensures
        out@ == joined(parts.deep_view().subrange(from as int, parts.len() as int), sep@),
{
    let ghost all = parts.deep_view();
    let mut out = String::new();
    let mut i: usize = from;
    while i < parts.len()
        invariant
            from <= i <= parts.len(),
            all == parts.deep_view(),
            out@ == joined(all.subrange(from as int, i as int), sep@),
        decreases parts.len() - i,
    {
        if i > from {
            out.append(sep);
        }
        out.append(parts[i].as_str());
        proof {
            let before = all.subrange(from as int, i as int);
            let after = all.subrange(from as int, i + 1);
            assert(after.drop_last() =~= before);
        }
        i += 1;
    }
    out
}

/// `a` followed by `b`.
pub fn concat2(a: &str, b: &str) -> (out: String)
    ensures
        out@ == a@ + b@,
{
    let mut out = a.to_owned();
    out.append(b);
    out
}

/// `a`, `b` and `c` in a row.
pub fn concat3(a: &str, b: &str, c: &str) -> (out: String)
    ensures
        out@ == a@ + b@ + c@,
{
    let mut out = concat2(a, b);
    out.append(c);
    out
}

/// `a`, `b`, `c` and `d` in a row.
pub fn concat4(a: &str, b: &str, c: &str, d: &str) -> (out: String)
    ensures
        out@ == a@ + b@ + c@ + d@,
{
    let mut out = concat3(a, b, c);
    out.append(d);
    out
}

/// Whether a character is white space, as `char::is_whitespace` of std tells.
pub uninterp spec fn is_white_space(c: char) -> bool;

/// `char::is_whitespace` of std. Nothing is claimed but that the outcome
/// depends on the character alone.
pub assume_specification[ char::is_whitespace ](c: char) -> (white: bool)
    ensures
        white == is_white_space(c),
;

/// A text without the white space at its start.
pub open spec fn trim_start(s: Seq<char>) -> Seq<char>
    decreases s.len(),
{
    if s.len() > 0 && is_white_space(s.first()) {
        trim_start(s.drop_first())
    } else {
        s
    }
}

/// A text without the white space at its end.
pub open spec fn trim_end(s: Seq<char>) -> Seq<char>
    decreases s.len(),
{
    if s.len() > 0 && is_white_space(s.last()) {
        trim_end(s.drop_last())
    } else {
        s
    }
}

/// A text without the white space at its start and at its end.
pub open spec fn trimmed(s: Seq<char>) -> Seq<char> {
    trim_end(trim_start(s))
}

/// Trimming at the start cuts at the first character that is not white.
pub proof fn lemma_trim_start(s: Seq<char>, n: int)
    requires
        0 <= n <= s.len(),
        forall|k: int| 0 <= k < n ==> is_white_space(s[k]),
        n == s.len() || !is_white_space(s[n]),
    ensures
        trim_start(s) == s.subrange(n, s.len() as int),
    decreases n,
{
    if n > 0 {
        lemma_trim_start(s.drop_first(), n - 1);
    }
}

/// Trimming at the end cuts behind the last character that is not white.
pub proof fn lemma_trim_end(s: Seq<char>, m: int)
    requires
        0 <= m <= s.len(),
        forall|k: int| m <= k < s.len() ==> is_white_space(s[k]),
        m == 0 || !is_white_space(s[m - 1]),
    ensures
        trim_end(s) == s.subrange(0, m),
    decreases s.len() - m,
{
    if m < s.len() {
        lemma_trim_end(s.drop_last(), m);
    }
}

/// The part of `text` between its leading and its trailing white space.
pub fn trim(text: &str) -> (inner: &str)
    ensures
        inner@ == trimmed(text@),
{
    let len = text.unicode_len();
    let mut start: usize = 0;
    let mut end: usize = 0;
    let mut i: usize = 0;
    for c in it: text.chars()
        invariant
            it.seq() == text@,
            len == text@.len(),
            i == it.index(),
            start <= end <= i <= len,
            forall|k: int| 0 <= k < start ==> is_white_space(text@[k]),
            forall|k: int| end <= k < i ==> is_white_space(text@[k]),
            start == end ==> end == i,
            start < end ==> !is_white_space(text@[start as int]) && !is_white_space(
                text@[end - 1],
            ),
    {
        if !c.is_whitespace() {
            if start == end {
                start = i;
            }
            end = i + 1;
        } else if start == end {
            start = i + 1;
            end = i + 1;
        }
        i += 1;
    }
    proof {
        let s = text@;
        lemma_trim_start(s, start as int);
        let rest = s.subrange(start as int, s.len() as int);
        lemma_trim_end(rest, end - start);
    }
    text.substring_char(start, end)
}

/// What Rust's `Debug` formatting makes of a string: the text in double
/// quotes, with the characters that need it escaped.
pub uninterp spec fn debug_quoted(text: Seq<char>) -> Seq<char>;

/// `<str as Debug>::fmt` of std, reached through `format!`. Nothing is
/// claimed but that the outcome depends on `text` alone.
#[verifier::external_body]
pub(crate) fn debug_text(text: &str) -> (quoted: String)
    ensures
        quoted@ == debug_quoted(text@),
{
    format!("{:?}", text)
}

} // verus!
