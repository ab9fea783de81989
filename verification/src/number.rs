//! Unsigned decimal numbers: writing them, and reading them from a word.
use vstd::prelude::*;

use crate::text::{chars_of, lemma_run, lemma_run_is, run, is_digit, Chars};

verus! {

/// Why a word is not a number of the wanted width.
#[derive(Clone, Copy, Debug, PartialEq, Eq, Structural)]
pub enum NumberFault {
    /// There is nothing to read.
    Empty,
    /// Something else than a digit stands where a digit is wanted.
    InvalidDigit,
    /// The number does not fit.
    TooLarge,
}

/// The character of a digit.
pub open spec fn digit_char(d: nat) -> char {
    ('0' as int + d) as char
}

/// The value of a digit character.
pub open spec fn digit_value(c: char) -> nat {
    (c as int - '0' as int) as nat
}

/// The decimal notation of `n`, without leading zeros.
pub open spec fn decimal(n: nat) -> Chars
    decreases n,
{
    if n < 10 {
        seq![digit_char(n)]
    } else {
        decimal(n / 10).push(digit_char(n % 10))
    }
}

/// The number that a run of digits denotes.
pub open spec fn value(s: Chars) -> nat
    decreases s.len(),
{
    if s.len() == 0 {
        0
    } else {
        value(s.drop_last()) * 10 + digit_value(s.last())
    }
}

pub open spec fn not_digit() -> spec_fn(char) -> bool {
    |c: char| !is_digit(c)
}

/// A word without the one `+` that may stand before the digits.
pub open spec fn unsigned_part(s: Chars) -> Chars {
    if s.len() > 0 && s[0] == '+' {
        s.skip(1)
    } else {
        s
    }
}

/// Reads `s` as a number of at most `max`: an optional `+`, then one digit or
/// more and nothing else. Reading goes from left to right and stops at the
/// first thing that is wrong, so digits that are already too many come before
/// a bad character behind them.
pub open spec fn number(s: Chars, max: nat) -> Result<nat, NumberFault> {
    let d = unsigned_part(s);
    let n = run(d, not_digit()) as int;
    if s.len() == 0 {
        Err(NumberFault::Empty)
    } else if d.len() == 0 {
        Err(NumberFault::InvalidDigit)
    } else if value(d.take(n)) > max {
        Err(NumberFault::TooLarge)
    } else if n < d.len() {
        Err(NumberFault::InvalidDigit)
    } else {
        Ok(value(d))
    }
}

/// How a fault is worded.
pub open spec fn fault_text(fault: NumberFault) -> Chars {
    match fault {
        NumberFault::Empty => "cannot parse integer from empty string"@,
        NumberFault::InvalidDigit => "invalid digit found in string"@,
        NumberFault::TooLarge => "number too large to fit in target type"@,
    }
}

impl NumberFault {
    /// The wording of this fault.
    pub fn text(self) -> (r: String)
        ensures
            r@ == fault_text(self),
    {
        match self {
            NumberFault::Empty => "cannot parse integer from empty string".to_string(),
            NumberFault::InvalidDigit => "invalid digit found in string".to_string(),
            NumberFault::TooLarge => "number too large to fit in target type".to_string(),
        }
    }
}

/// More digits never denote less.
proof fn lemma_value_grows(s: Chars, i: int, j: int)
    requires
        0 <= i <= j <= s.len(),
    ensures
        value(s.take(i)) <= value(s.take(j)),
    decreases j - i,
{
    if i < j {
        lemma_value_grows(s, i, j - 1);
        assert(s.take(j).drop_last() == s.take(j - 1));
    }
}

/// Reads a word as a number of at most `max`.
pub fn parse_number(word: &str, max: u64) -> (r: Result<u64, NumberFault>)
    ensures
        match (r, number(word@, max as nat)) {
            (Ok(v), Ok(n)) => v == n,
            (Err(f), Err(g)) => f == g,
            _ => false,
        },
        r matches Ok(v) ==> v <= max,
{
    let chars = chars_of(word);
    if chars.len() == 0 {
        return Err(NumberFault::Empty);
    }
    let start: usize = if chars[0] == '+' {
        1
    } else {
        0
    };
    let ghost d = unsigned_part(word@);
    assert(d == chars@.skip(start as int));
    if start == chars.len() {
        return Err(NumberFault::InvalidDigit);
    }
    let mut acc: u64 = 0;
    let mut i: usize = start;
    assert(d.take(0).len() == 0);
    while i < chars.len()
        invariant
            start <= i <= chars.len(),
            start < chars.len(),
            start <= 1,
            chars@ == word@,
            d == chars@.skip(start as int),
            d == unsigned_part(word@),
            acc <= max,
            acc == value(d.take(i - start)),
            forall|j: int| 0 <= j < i - start ==> is_digit(#[trigger] d[j]),
        decreases chars.len() - i,
    {
        let c: char = chars[i];
        let ghost k = i - start;
        assert(d[k] == c);
        if c < '0' || c > '9' {
            proof {
                lemma_run_is(d, not_digit(), k as nat);
            }
            return Err(NumberFault::InvalidDigit);
        }
        let next: u128 = (acc as u128) * 10 + ((c as u32) - 48) as u128;
        assert(d.take(k + 1).drop_last() == d.take(k));
        assert(next == value(d.take(k + 1)));
        if next > max as u128 {
            proof {
                lemma_run(d, not_digit());
                let n = run(d, not_digit()) as int;
                assert(n >= k + 1) by {
                    if n < k + 1 {
                        assert(is_digit(d[n]));
                    }
                }
                lemma_value_grows(d, k + 1, n);
            }
            return Err(NumberFault::TooLarge);
        }
        acc = next as u64;
        i += 1;
    }
    proof {
        lemma_run_is(d, not_digit(), d.len());
        assert(d.take(d.len() as int) == d);
    }
    Ok(acc)
}

/// Appends the decimal notation of a number.
fn push_decimal(text: &mut String, n: u64)
    ensures
        final(text)@ == old(text)@ + decimal(n as nat),
    decreases n,
{
    let ghost before = text@;
    if n >= 10 {
        push_decimal(text, n / 10);
    }
    let d: u8 = (n % 10) as u8;
    let c: char = (48 + d) as char;
    assert(c == digit_char((n % 10) as nat));
    text.push(c);
    assert(text@ == before + decimal(n as nat));
}

/// The decimal notation of a number.
pub fn decimal_text(n: u64) -> (r: String)
    ensures
        r@ == decimal(n as nat),
{
    let mut text: String = String::new();
    push_decimal(&mut text, n);
    assert(Seq::<char>::empty() + decimal(n as nat) == decimal(n as nat));
    text
}

/// A number that is written and read back is the same number.
pub proof fn law_decimal_reads_back(n: nat, max: nat)
    requires
        n <= max,
    ensures
        number(decimal(n), max) == Ok::<nat, NumberFault>(n),
{
    lemma_decimal(n);
    let s = decimal(n);
    assert(s[0] != '+');
    lemma_run_is(s, not_digit(), s.len());
    assert(s.take(s.len() as int) == s);
}

proof fn lemma_decimal(n: nat)
    ensures
        decimal(n).len() > 0,
        forall|i: int| 0 <= i < decimal(n).len() ==> is_digit(#[trigger] decimal(n)[i]),
        value(decimal(n)) == n,
    decreases n,
{
    let s = decimal(n);
    if n >= 10 {
        lemma_decimal(n / 10);
        assert(s.drop_last() == decimal(n / 10));
        assert(digit_value(s.last()) == n % 10);
    } else {
        assert(s.drop_last().len() == 0);
        assert(value(s.drop_last()) == 0);
        assert(digit_value(s.last()) == n);
    }
}

/// A digit behind a number counts ten times the number and the digit, as long as that
/// fits.
pub proof fn law_digits_count_tens(s: Chars, digit: char, max: nat)
    requires
        number(s, max) is Ok,
        '0' <= digit <= '9',
    ensures
        ({
            let n = number(s, max)->Ok_0 * 10 + (digit as int - 48);
            number(s.push(digit), max) == if n <= max {
                Ok::<nat, NumberFault>(n as nat)
            } else {
                Err(NumberFault::TooLarge)
            }
        }),
{
    let d = unsigned_part(s);
    let t = s.push(digit);
    let e = unsigned_part(t);
    assert(t[0] == s[0]);
    assert(e == d.push(digit));
    lemma_run(d, not_digit());
    assert forall|i: int| 0 <= i < e.len() implies is_digit(#[trigger] e[i]) by {
        if i < d.len() {
            assert(e[i] == d[i]);
        }
    }
    lemma_run_is(e, not_digit(), e.len());
    assert(e.take(e.len() as int) == e);
    assert(e.drop_last() == d);
}

/// One digit is a number, with or without a plus sign before it.
pub proof fn law_a_digit_is_a_number(digit: char, max: nat)
    requires
        '0' <= digit <= '9',
        digit as int - 48 <= max,
    ensures
        number(seq![digit], max) == Ok::<nat, NumberFault>((digit as int - 48) as nat),
        number(seq!['+', digit], max) == Ok::<nat, NumberFault>((digit as int - 48) as nat),
{
    let s = seq![digit];
    lemma_run_is(s, not_digit(), 1);
    assert(s.take(1) == s);
    assert(s.drop_last().len() == 0);
    assert(value(s.drop_last()) == 0);
    assert(seq!['+', digit].skip(1) == s);
}

/// A number is made of digits, with at most a plus sign before them, and fits.
pub proof fn law_numbers_are_digits(s: Chars, max: nat, i: int)
    requires
        number(s, max) is Ok,
        0 <= i < s.len(),
    ensures
        number(s, max)->Ok_0 <= max,
        '0' <= s[i] <= '9' || (s[i] == '+' && i == 0 && s.len() > 1),
{
    let d = unsigned_part(s);
    lemma_run(d, not_digit());
    let n = run(d, not_digit()) as int;
    assert(d.take(n) == d);
    if s[0] == '+' {
        if i > 0 {
            assert(!not_digit()(d[i - 1]));
        }
    } else {
        assert(!not_digit()(d[i]));
    }
}

/// A number is written with digits only, and with no zero before the others.
pub proof fn law_decimal_is_plain(n: nat, i: int)
    requires
        0 <= i < decimal(n).len(),
    ensures
        '0' <= decimal(n)[i] <= '9',
        n > 0 ==> decimal(n)[0] != '0',
    decreases n,
{
    lemma_decimal(n);
    if n >= 10 {
        law_decimal_is_plain(n / 10, 0);
        assert(decimal(n)[0] == decimal(n / 10)[0]);
    }
}

/// A number that does not fit is refused as too large.
pub proof fn law_too_large_is_refused(n: nat, max: nat)
    requires
        n > max,
    ensures
        number(decimal(n), max) == Err::<nat, NumberFault>(NumberFault::TooLarge),
{
    lemma_decimal(n);
    let s = decimal(n);
    assert(s[0] != '+');
    lemma_run_is(s, not_digit(), s.len());
    assert(s.take(s.len() as int) == s);
}

} // verus!
