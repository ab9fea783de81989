//! Hexadecimal notation of bytes.
use vstd::prelude::*;

use crate::text::{chars_of, Chars};
use crate::trusted::{parse_public_key, public_key, public_key_of_text};

verus! {

/// The lower-case character of a hexadecimal digit.
pub open spec fn hex_char(d: int) -> char {
    if d < 10 {
        ('0' as int + d) as char
    } else {
        ('a' as int + (d - 10)) as char
    }
}

/// The value of a hexadecimal digit, in either case.
pub open spec fn hex_value(c: char) -> Option<int> {
    if '0' <= c <= '9' {
        Some(c as int - '0' as int)
    } else if 'a' <= c <= 'f' {
        Some(c as int - 'a' as int + 10)
    } else if 'A' <= c <= 'F' {
        Some(c as int - 'A' as int + 10)
    } else {
        None
    }
}

/// Two lower-case digits for each byte.
pub open spec fn hex(bytes: Seq<u8>) -> Chars {
    Seq::new(
        bytes.len() * 2,
        |i: int|
            hex_char(
                if i % 2 == 0 {
                    bytes[i / 2] as int / 16
                } else {
                    bytes[i / 2] as int % 16
                },
            ),
    )
}

pub open spec fn all_hex(s: Chars) -> bool {
    forall|i: int| 0 <= i < s.len() ==> hex_value(#[trigger] s[i]) is Some
}

/// One byte for each pair of digits; a last digit without a partner counts for
/// nothing.
pub open spec fn unhex(s: Chars) -> Seq<u8> {
    Seq::new(
        s.len() / 2,
        |i: int| (hex_value(s[2 * i])->0 * 16 + hex_value(s[2 * i + 1])->0) as u8,
    )
}

/// What `to_vec` reads: any run of digits.
pub open spec fn loose_unhex(s: Chars) -> Option<Seq<u8>> {
    if all_hex(s) {
        Some(unhex(s))
    } else {
        None
    }
}

/// What strict reading takes: digits in pairs.
pub open spec fn strict_unhex(s: Chars) -> Option<Seq<u8>> {
    if all_hex(s) && s.len() % 2 == 0 {
        Some(unhex(s))
    } else {
        None
    }
}

fn digit(c: char) -> (r: Option<u8>)
    ensures
        match r {
            Some(d) => hex_value(c) == Some(d as int) && d < 16,
            None => hex_value(c) is None,
        },
{
    let n: u32 = c as u32;
    if '0' <= c && c <= '9' {
        Some((n - 48) as u8)
    } else if 'a' <= c && c <= 'f' {
        Some((n - 97 + 10) as u8)
    } else if 'A' <= c && c <= 'F' {
        Some((n - 65 + 10) as u8)
    } else {
        None
    }
}

fn digit_text(d: u8) -> (r: char)
    requires
        d < 16,
    ensures
        r == hex_char(d as int),
{
    if d < 10 {
        (48 + d) as char
    } else {
        (97 + (d - 10)) as char
    }
}

/// The bytes that a text of hexadecimal digits stands for, or nothing where
/// some character is no digit. A last digit without a partner is dropped.
pub fn to_vec(text: &str) -> (r: Option<Vec<u8>>)
    ensures
        match r {
            Some(v) => loose_unhex(text@) == Some(v@),
            None => loose_unhex(text@) is None,
        },
{
    let chars = chars_of(text);
    let mut out: Vec<u8> = Vec::new();
    let mut b: u8 = 0;
    let mut i: usize = 0;
    while i < chars.len()
        invariant
            i <= chars.len(),
            chars@ == text@,
            out.len() == i / 2,
            forall|j: int| 0 <= j < i ==> hex_value(#[trigger] text@[j]) is Some,
            forall|j: int| 0 <= j < i / 2 ==> out@[j] == #[trigger] unhex(text@)[j],
            i % 2 == 1 ==> hex_value(text@[i - 1]) == Some(b as int) && b < 16,
        decreases chars.len() - i,
    {
        match digit(chars[i]) {
            Some(d) => {
                if i % 2 == 1 {
                    let byte: u8 = b * 16 + d;
                    assert(unhex(text@)[i as int / 2] == byte) by {
                        let h = (i / 2) as int;
                        assert(2 * h + 1 == i);
                    }
                    out.push(byte);
                } else {
                    b = d;
                }
            },
            None => {
                return None;
            },
        }
        i += 1;
    }
    assert(out@ == unhex(text@));
    Some(out)
}

/// The lower-case hexadecimal notation of some bytes.
pub fn hex_str(value: &[u8]) -> (r: String)
    ensures
        r@ == hex(value@),
{
    let mut text: String = String::new();
    let mut i: usize = 0;
    while i < value.len()
        invariant
            i <= value.len(),
            text@ == hex(value@.take(i as int)),
        decreases value.len() - i,
    {
        let b: u8 = value[i];
        let ghost before = text@;
        text.push(digit_text(b / 16));
        text.push(digit_text(b % 16));
        proof {
            let longer = value@.take(i + 1);
            assert(hex(longer).len() == 2 * i + 2);
            assert forall|j: int| 0 <= j < 2 * i + 2 implies text@[j] == hex(longer)[j] by {
                if j < 2 * i {
                    assert(text@[j] == before[j]);
                    assert(longer[j / 2] == value@.take(i as int)[j / 2]);
                }
            }
            assert(text@ == hex(longer));
        }
        i += 1;
    }
    assert(value@.take(value@.len() as int) == value@);
    text
}

/// Bytes that are written in hexadecimal and read back are the same bytes.
pub proof fn law_hex_reads_back(bytes: Seq<u8>)
    ensures
        strict_unhex(hex(bytes)) == Some(bytes),
        loose_unhex(hex(bytes)) == Some(bytes),
{
    let s = hex(bytes);
    assert forall|i: int| 0 <= i < s.len() implies hex_value(#[trigger] s[i]) is Some by {}
    assert forall|i: int| 0 <= i < bytes.len() implies #[trigger] unhex(s)[i] == bytes[i] by {
        let b = bytes[i] as int;
        assert((2 * i) / 2 == i && (2 * i) % 2 == 0);
        assert((2 * i + 1) / 2 == i && (2 * i + 1) % 2 == 1);
        assert(s[2 * i] == hex_char(b / 16));
        assert(s[2 * i + 1] == hex_char(b % 16));
        assert(hex_value(hex_char(b / 16)) == Some(b / 16));
        assert(hex_value(hex_char(b % 16)) == Some(b % 16));
        assert(b / 16 * 16 + b % 16 == b);
    }
    assert(unhex(s) == bytes);
}

/// The public key that a text denotes in compressed form: digits for exactly as
/// many bytes as the form has.
pub open spec fn compressed_pubkey(s: Chars) -> Option<Seq<u8>> {
    if s.len() == 66 && all_hex(s) {
        public_key(unhex(s))
    } else {
        None
    }
}

/// The public key that some digits denote; a last digit without a partner counts
/// for nothing.
pub open spec fn loose_pubkey(s: Chars) -> Option<Seq<u8>> {
    match loose_unhex(s) {
        Some(bytes) => public_key(bytes),
        None => None,
    }
}

/// Reads a public key in compressed form.
pub fn to_compressed_pubkey(text: &str) -> (r: Option<[u8; 33]>)
    ensures
        match r {
            Some(key) => compressed_pubkey(text@) == Some(key@) && public_key(key@) == Some(key@),
            None => compressed_pubkey(text@) is None,
        },
{
    if chars_of(text).len() != 66 {
        return None;
    }
    match to_vec(text) {
        Some(bytes) => parse_public_key(bytes.as_slice()),
        None => None,
    }
}

/// Reads a public key in compressed or uncompressed form.
pub fn to_pubkey(text: &str) -> (r: Option<[u8; 33]>)
    ensures
        match r {
            Some(key) => loose_pubkey(text@) == Some(key@) && public_key(key@) == Some(key@),
            None => loose_pubkey(text@) is None,
        },
{
    match to_vec(text) {
        Some(bytes) => parse_public_key(bytes.as_slice()),
        None => None,
    }
}

/// A key in compressed form is read as itself from the way in which it is shown,
/// wherever a key is read.
pub proof fn law_shown_key_is_taken(key: Seq<u8>)
    requires
        key.len() == 33,
        public_key(key) == Some(key),
    ensures
        compressed_pubkey(hex(key)) == Some(key),
        loose_pubkey(hex(key)) == Some(key),
        public_key_of_text(hex(key)) == Some(key),
{
    law_hex_reads_back(key);
}

/// A last digit without a partner counts for nothing where reading is loose, and is
/// refused where it is strict.
pub proof fn law_a_last_digit_has_a_partner(bytes: Seq<u8>, digit: char)
    requires
        '0' <= digit <= '9' || 'a' <= digit <= 'f' || 'A' <= digit <= 'F',
    ensures
        loose_unhex(hex(bytes).push(digit)) == Some(bytes),
        strict_unhex(hex(bytes).push(digit)) is None,
{
    let s = hex(bytes);
    let t = s.push(digit);
    law_hex_reads_back(bytes);
    assert forall|i: int| 0 <= i < t.len() implies hex_value(#[trigger] t[i]) is Some by {
        if i < s.len() {
            assert(t[i] == s[i]);
        }
    }
    assert(unhex(t) == unhex(s));
}

/// Large digits are read as small ones.
pub proof fn law_the_case_of_digits_does_not_matter(s: Chars, t: Chars)
    requires
        s.len() == t.len(),
        forall|i: int|
            0 <= i < s.len() ==> (#[trigger] s[i]) == t[i] || ('a' <= s[i] <= 'f' && t[i] as int
                == s[i] as int - 32),
    ensures
        loose_unhex(s) == loose_unhex(t),
        strict_unhex(s) == strict_unhex(t),
{
    assert forall|i: int| 0 <= i < s.len() implies hex_value(#[trigger] s[i]) == hex_value(
        t[i],
    ) by {}
    assert(all_hex(s) == all_hex(t)) by {
        if all_hex(s) {
            assert forall|i: int| 0 <= i < t.len() implies hex_value(#[trigger] t[i]) is Some by {
                assert(hex_value(s[i]) is Some);
            }
        }
        if all_hex(t) {
            assert forall|i: int| 0 <= i < s.len() implies hex_value(#[trigger] s[i]) is Some by {
                assert(hex_value(t[i]) is Some);
            }
        }
    }
    assert(unhex(s) == unhex(t)) by {
        assert forall|i: int| 0 <= i < s.len() / 2 implies #[trigger] unhex(s)[i] == unhex(t)[i] by {
            assert(hex_value(s[2 * i]) == hex_value(t[2 * i]));
            assert(hex_value(s[2 * i + 1]) == hex_value(t[2 * i + 1]));
        }
    }
}

/// Something else than a digit is refused, wherever it stands.
pub proof fn law_only_digits_are_read(s: Chars, i: int)
    requires
        0 <= i < s.len(),
        !('0' <= s[i] <= '9'),
        !('a' <= s[i] <= 'f'),
        !('A' <= s[i] <= 'F'),
    ensures
        loose_unhex(s) is None,
        strict_unhex(s) is None,
{
    assert(hex_value(s[i]) is None);
}

} // verus!
