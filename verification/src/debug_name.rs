//! Recovers the short type name of an error from its debug text.
//!
//! The debug text of a named struct or enum starts with the type's name,
//! followed by its fields or by nothing. The name is the text before the
//! first delimiter, with whitespace removed at both ends.

use vstd::prelude::*;
use vstd::std_specs::iter::IteratorSpec;

verus! {

/// The characters that end the leading token of a debug text.
pub open spec fn is_delimiter(c: char) -> bool {
    c == ' ' || c == '(' || c == '{' || c == '\r' || c == '\n'
}

/// Whitespace: the characters with the Unicode property White_Space. Among
/// them are the tab, the line breaks and the space, and beyond ASCII the
/// no-break space and the spaces of fixed width.
pub open spec fn is_whitespace(c: char) -> bool {
    let u = c as u32;
    ||| 0x09 <= u <= 0x0d
    ||| u == 0x20
    ||| u == 0x85
    ||| u == 0xa0
    ||| u == 0x1680
    ||| 0x2000 <= u <= 0x200a
    ||| u == 0x2028
    ||| u == 0x2029
    ||| u == 0x202f
    ||| u == 0x205f
    ||| u == 0x3000
}

/// Number of characters of `s` before its first delimiter; all of them where
/// `s` holds no delimiter.
pub open spec fn token_len(s: Seq<char>) -> nat
    decreases s.len(),
{
    if s.len() == 0 || is_delimiter(s[0]) {
        0
    } else {
        1 + token_len(s.drop_first())
    }
}

/// The text of `s` before its first delimiter.
pub open spec fn first_token(s: Seq<char>) -> Seq<char> {
    s.take(token_len(s) as int)
}

/// `s` without its leading whitespace.
pub open spec fn trimmed_start(s: Seq<char>) -> Seq<char>
    decreases s.len(),
{
    if s.len() > 0 && is_whitespace(s.first()) {
        trimmed_start(s.drop_first())
    } else {
        s
    }
}

/// `s` without its trailing whitespace.
pub open spec fn trimmed_end(s: Seq<char>) -> Seq<char>
    decreases s.len(),
{
    if s.len() > 0 && is_whitespace(s.last()) {
        trimmed_end(s.drop_last())
    } else {
        s
    }
}

/// `s` without the whitespace at both ends.
pub open spec fn trimmed(s: Seq<char>) -> Seq<char> {
    trimmed_end(trimmed_start(s))
}

/// The type name that a debug text stands for: its first token, trimmed.
pub open spec fn debug_type_name(debug: Seq<char>) -> Seq<char> {
    trimmed(first_token(debug))
}

/// What is taken for granted of `str::trim` of std: it returns the text
/// without its leading and its trailing whitespace, where whitespace is the
/// set of characters with the Unicode property White_Space, the set that
/// `is_whitespace` lists.
pub assume_specification[ str::trim ](s: &str) -> (r: &str)
    ensures
        r@ == trimmed(s@),
;

/// The first position of `s` that holds a delimiter, or its length where none
/// does, is the length of its first token.
pub proof fn lemma_token_len_is(s: Seq<char>, n: int)
    requires
        0 <= n <= s.len(),
        forall|j: int| 0 <= j < n ==> !is_delimiter(#[trigger] s[j]),
        n == s.len() || is_delimiter(s[n]),
    ensures
        token_len(s) == n,
    decreases n,
{
    if n > 0 {
        let rest = s.drop_first();
        assert forall|j: int| 0 <= j < n - 1 implies !is_delimiter(#[trigger] rest[j]) by {
            assert(rest[j] == s[j + 1]);
        }
        lemma_token_len_is(rest, n - 1);
    }
}

/// No character of the first token is a delimiter, and the token ends at a
/// delimiter or at the end of the text.
pub proof fn lemma_token_len(s: Seq<char>)
    ensures
        token_len(s) <= s.len(),
        forall|j: int| 0 <= j < token_len(s) ==> !is_delimiter(#[trigger] s[j]),
        token_len(s) == s.len() || is_delimiter(s[token_len(s) as int]),
    decreases s.len(),
{
    if s.len() > 0 && !is_delimiter(s[0]) {
        let rest = s.drop_first();
        lemma_token_len(rest);
        assert forall|j: int| 0 <= j < token_len(s) implies !is_delimiter(#[trigger] s[j]) by {
            if j > 0 {
                assert(s[j] == rest[j - 1]);
            }
        }
        if token_len(s) < s.len() {
            assert(s[token_len(s) as int] == rest[token_len(rest) as int]);
        }
    }
}

/// What `trimmed_start` removes is whitespace, what it leaves is the rest of
/// the text, and that rest does not begin with whitespace.
pub proof fn lemma_trimmed_start(s: Seq<char>)
    ensures
        trimmed_start(s).len() <= s.len(),
        trimmed_start(s) == s.skip(s.len() - trimmed_start(s).len()),
        forall|j: int|
            0 <= j < s.len() - trimmed_start(s).len() ==> is_whitespace(#[trigger] s[j]),
        trimmed_start(s).len() > 0 ==> !is_whitespace(trimmed_start(s).first()),
    decreases s.len(),
{
    if s.len() > 0 && is_whitespace(s.first()) {
        let rest = s.drop_first();
        lemma_trimmed_start(rest);
        let k = rest.len() - trimmed_start(rest).len();
        assert(rest.skip(k) =~= s.skip(k + 1));
        assert forall|j: int| 0 <= j < k + 1 implies is_whitespace(#[trigger] s[j]) by {
            if j > 0 {
                assert(s[j] == rest[j - 1]);
            }
        }
    } else {
        assert(s.skip(0) =~= s);
    }
}

/// What `trimmed_end` removes is whitespace, what it leaves is the start of
/// the text, and that start does not end with whitespace.
pub proof fn lemma_trimmed_end(s: Seq<char>)
    ensures
        trimmed_end(s).len() <= s.len(),
        trimmed_end(s) == s.take(trimmed_end(s).len() as int),
        forall|j: int| trimmed_end(s).len() <= j < s.len() ==> is_whitespace(#[trigger] s[j]),
        trimmed_end(s).len() > 0 ==> !is_whitespace(trimmed_end(s).last()),
    decreases s.len(),
{
    if s.len() > 0 && is_whitespace(s.last()) {
        let rest = s.drop_last();
        lemma_trimmed_end(rest);
        let m = trimmed_end(rest).len() as int;
        assert(rest.take(m) =~= s.take(m));
        assert forall|j: int| m <= j < s.len() implies is_whitespace(#[trigger] s[j]) by {
            if j < s.len() - 1 {
                assert(s[j] == rest[j]);
            }
        }
    } else {
        assert(s.take(s.len() as int) =~= s);
    }
}

/// A text has at most as many characters as its UTF-8 encoding has bytes.
proof fn lemma_chars_within_bytes(s: Seq<char>)
    ensures
        s.len() <= vstd::utf8::encode_utf8(s).len(),
    decreases s.len(),
{
    if s.len() > 0 {
        lemma_chars_within_bytes(s.drop_first());
    }
}

/// Whether `c` ends the leading token of a debug text.
fn is_delimiter_char(c: char) -> (r: bool)
    ensures
        r == is_delimiter(c),
{
    c == ' ' || c == '(' || c == '{' || c == '\r' || c == '\n'
}

/// Parses the type's name out of debug output.
///
/// The text is cut at its first delimiter (a space, `(`, `{`, a carriage
/// return or a newline), and what stands before the cut is trimmed. The
/// trimming comes after the cut: a text that begins with a delimiter gives
/// the empty name.
pub fn parse_type_from_debug(d: &str) -> (name: &str)
    ensures
        name@ == debug_type_name(d@),
{
    let limit: usize = d.as_bytes().len();
    proof {
        lemma_chars_within_bytes(d@);
    }
    let mut chars = d.chars();
    let mut n: usize = 0;
    loop
        invariant_except_break
            chars.remaining() == d@.skip(n as int),
            chars.obeys_prophetic_iter_laws(),
        invariant
            d@.len() <= limit,
            n <= d@.len(),
            forall|j: int| 0 <= j < n ==> !is_delimiter(#[trigger] d@[j]),
        ensures
            n <= d@.len(),
            forall|j: int| 0 <= j < n ==> !is_delimiter(#[trigger] d@[j]),
            n == d@.len() || is_delimiter(d@[n as int]),
        decreases d@.len() - n,
    {
        match chars.next() {
            Some(c) => {
                if is_delimiter_char(c) {
                    break;
                }
                n += 1;
            },
            None => {
                break;
            },
        }
    }
    proof {
        lemma_token_len_is(d@, n as int);
    }
    d.substring_char(0, n).trim()
}

} // verus!
