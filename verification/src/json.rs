//! Texts as JSON strings.
use vstd::prelude::*;

use crate::hex_utils::{hex_char, hex_value};
use crate::text::Chars;

verus! {

/// How a character is written inside a JSON string: a quotation mark, a backslash
/// and the control characters are escaped, anything else stands for itself.
pub open spec fn json_char(c: char) -> Chars {
    let n = c as int;
    if c == '"' || c == '\\' {
        seq!['\\', c]
    } else if n == 8 {
        seq!['\\', 'b']
    } else if n == 9 {
        seq!['\\', 't']
    } else if n == 10 {
        seq!['\\', 'n']
    } else if n == 12 {
        seq!['\\', 'f']
    } else if n == 13 {
        seq!['\\', 'r']
    } else if n < 32 {
        seq!['\\', 'u', '0', '0', hex_char(n / 16), hex_char(n % 16)]
    } else {
        seq![c]
    }
}

/// How a text is written inside a JSON string.
pub open spec fn json_body(text: Chars) -> Chars
    decreases text.len(),
{
    if text.len() == 0 {
        seq![]
    } else {
        json_char(text[0]) + json_body(text.skip(1))
    }
}

/// How a text is written as a JSON string, quotation marks included.
pub open spec fn json_string(text: Chars) -> Chars {
    seq!['"'] + json_body(text) + seq!['"']
}

/// The character that a backslash and a letter stand for.
pub open spec fn short_escape(c: char) -> Option<char> {
    if c == '"' || c == '\\' || c == '/' {
        Some(c)
    } else if c == 'b' {
        Some(8 as char)
    } else if c == 't' {
        Some(9 as char)
    } else if c == 'n' {
        Some(10 as char)
    } else if c == 'f' {
        Some(12 as char)
    } else if c == 'r' {
        Some(13 as char)
    } else {
        None
    }
}

/// The character that four hexadecimal digits stand for. Halves of surrogate pairs
/// stand for none.
pub open spec fn long_escape(a: char, b: char, c: char, d: char) -> Option<char> {
    match (hex_value(a), hex_value(b), hex_value(c), hex_value(d)) {
        (Some(a), Some(b), Some(c), Some(d)) => {
            let n = ((a * 16 + b) * 16 + c) * 16 + d;
            if 0xd800 <= n < 0xe000 {
                None
            } else {
                Some(n as char)
            }
        },
        _ => None,
    }
}

/// The first character that the inside of a JSON string denotes, and how many
/// characters it takes up.
pub open spec fn first_char(s: Chars) -> Option<(char, int)> {
    if s.len() == 0 || s[0] == '"' || (s[0] as int) < 32 {
        None
    } else if s[0] != '\\' {
        Some((s[0], 1))
    } else if s.len() < 2 {
        None
    } else if s[1] != 'u' {
        match short_escape(s[1]) {
            Some(c) => Some((c, 2)),
            None => None,
        }
    } else if s.len() < 6 {
        None
    } else {
        match long_escape(s[2], s[3], s[4], s[5]) {
            Some(c) => Some((c, 6)),
            None => None,
        }
    }
}

/// The text that the inside of a JSON string denotes, if it denotes one. Surrogate
/// pairs are left out: nothing is written with them here.
pub open spec fn read_body(s: Chars) -> Option<Chars>
    decreases s.len(),
{
    if s.len() == 0 {
        Some(seq![])
    } else {
        match first_char(s) {
            Some((c, n)) => match read_body(s.skip(n)) {
                Some(rest) => Some(seq![c] + rest),
                None => None,
            },
            None => None,
        }
    }
}

/// The text that a JSON string denotes, if it is one.
pub open spec fn read_json_string(s: Chars) -> Option<Chars> {
    if s.len() >= 2 && s[0] == '"' && s.last() == '"' {
        read_body(s.subrange(1, s.len() - 1))
    } else {
        None
    }
}

/// An escaped character is read back, whatever follows it.
proof fn lemma_first_char(c: char, rest: Chars)
    ensures
        first_char(json_char(c) + rest) == Some((c, json_char(c).len() as int)),
        (json_char(c) + rest).skip(json_char(c).len() as int) == rest,
        json_char(c).len() > 0,
{
    let n = c as int;
    let e = json_char(c);
    let s = e + rest;
    assert(s[0] == e[0]);
    assert(s.skip(e.len() as int) == rest);
    if e.len() >= 2 {
        assert(s[1] == e[1]);
    }
    if e.len() == 6 {
        assert(s[2] == e[2] && s[3] == e[3] && s[4] == e[4] && s[5] == e[5]);
        assert(hex_value('0') == Some(0int));
        assert(hex_value(hex_char(n / 16)) == Some(n / 16));
        assert(hex_value(hex_char(n % 16)) == Some(n % 16));
        assert((n / 16) * 16 + n % 16 == n);
    }
}

proof fn lemma_body_reads_back(text: Chars)
    ensures
        read_body(json_body(text)) == Some(text),
    decreases text.len(),
{
    if text.len() > 0 {
        let rest = json_body(text.skip(1));
        lemma_body_reads_back(text.skip(1));
        lemma_first_char(text[0], rest);
        assert(seq![text[0]] + text.skip(1) == text);
    }
}

/// A text that is written as a JSON string is read back.
pub proof fn law_json_reads_back(text: Chars)
    ensures
        read_json_string(json_string(text)) == Some(text),
{
    let s = json_string(text);
    assert(s.subrange(1, s.len() - 1) == json_body(text));
    lemma_body_reads_back(text);
}

/// A text without quotation marks, backslashes and control characters is written
/// as it is.
pub proof fn law_plain_text_stands_for_itself(text: Chars)
    requires
        forall|i: int|
            0 <= i < text.len() ==> (#[trigger] text[i]) != '"' && text[i] != '\\' && text[i] as int
                >= 32,
    ensures
        json_string(text) == seq!['"'] + text + seq!['"'],
    decreases text.len(),
{
    if text.len() > 0 {
        let rest = text.skip(1);
        assert forall|i: int| 0 <= i < rest.len() implies (#[trigger] rest[i]) != '"' && rest[i]
            != '\\' && rest[i] as int >= 32 by {
            assert(rest[i] == text[i + 1]);
        }
        law_plain_text_stands_for_itself(rest);
        let s = json_string(rest);
        assert(json_body(rest) == s.subrange(1, s.len() - 1));
        assert(rest == s.subrange(1, s.len() - 1));
        assert(seq![text[0]] + rest == text);
    }
}

} // verus!
