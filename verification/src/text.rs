//! Plain text: splitting a line into words, and splitting, joining and comparing
//! texts.
use vstd::prelude::*;

verus! {

/// Text as contracts see it: a sequence of characters.
pub type Chars = Seq<char>;

/// Appends one character.
///
/// Trusted: `String::push` of the standard library appends the character at
/// the end and changes nothing else.
pub assume_specification[ String::push ](text: &mut String, c: char)
    ensures
        final(text)@ == old(text)@.push(c),
;

/// The characters of a text, if there is one.
pub open spec fn maybe_chars(text: Option<String>) -> Option<Chars> {
    match text {
        Some(t) => Some(t@),
        None => None,
    }
}

/// An outcome with the characters of its fault.
pub open spec fn with_chars<T>(outcome: Result<T, String>) -> Result<T, Chars> {
    match outcome {
        Ok(t) => Ok(t),
        Err(e) => Err(e@),
    }
}

/// What a text or a fault reads.
pub open spec fn result_chars(text: Result<String, String>) -> Result<Chars, Chars> {
    match text {
        Ok(t) => Ok(t@),
        Err(e) => Err(e@),
    }
}

/// The characters with the Unicode property White_Space.
pub open spec fn is_white(c: char) -> bool {
    let n = c as int;
    ||| 9 <= n <= 13
    ||| n == 32
    ||| n == 0x85
    ||| n == 0xa0
    ||| n == 0x1680
    ||| 0x2000 <= n <= 0x200a
    ||| n == 0x2028
    ||| n == 0x2029
    ||| n == 0x202f
    ||| n == 0x205f
    ||| n == 0x3000
}

pub open spec fn is_digit(c: char) -> bool {
    '0' <= c <= '9'
}

/// The length of the longest prefix of `s` in which no character satisfies
/// `stop`.
pub open spec fn run(s: Chars, stop: spec_fn(char) -> bool) -> nat
    decreases s.len(),
{
    if s.len() == 0 || stop(s[0]) {
        0
    } else {
        1 + run(s.skip(1), stop)
    }
}

/// The words of `s`: its maximal runs of characters that are not white space,
/// from left to right.
pub open spec fn words(s: Chars) -> Seq<Chars>
    decreases s.len(),
    via words_decreases
{
    if s.len() == 0 {
        seq![]
    } else if is_white(s[0]) {
        words(s.skip(1))
    } else {
        let n = run(s, |c: char| is_white(c)) as int;
        seq![s.take(n)] + words(s.skip(n))
    }
}

#[via_fn]
proof fn words_decreases(s: Chars) {
    lemma_run(s, |c: char| is_white(c));
}

/// The test for one given character.
pub open spec fn is_char(sep: char) -> spec_fn(char) -> bool {
    |c: char| c == sep
}

/// The pieces of `s` between occurrences of `sep`; one piece more than there
/// are occurrences.
pub open spec fn split_on(s: Chars, sep: char) -> Seq<Chars>
    decreases s.len(),
    via split_on_decreases
{
    let n = run(s, is_char(sep)) as int;
    if n >= s.len() {
        seq![s]
    } else {
        seq![s.take(n)] + split_on(s.skip(n + 1), sep)
    }
}

#[via_fn]
proof fn split_on_decreases(s: Chars, sep: char) {
    lemma_run(s, is_char(sep));
}

/// What `run` counts: no character before it stops, and the one at it, if
/// there is one, does.
pub proof fn lemma_run(s: Chars, stop: spec_fn(char) -> bool)
    ensures
        run(s, stop) <= s.len(),
        forall|i: int| 0 <= i < run(s, stop) ==> !stop(#[trigger] s[i]),
        run(s, stop) < s.len() ==> stop(s[run(s, stop) as int]),
        s.len() > 0 && !stop(s[0]) ==> run(s, stop) > 0,
    decreases s.len(),
{
    if s.len() > 0 && !stop(s[0]) {
        lemma_run(s.skip(1), stop);
        assert forall|i: int| 0 <= i < run(s, stop) implies !stop(#[trigger] s[i]) by {
            if i > 0 {
                assert(s[i] == s.skip(1)[i - 1]);
            }
        }
        if run(s, stop) < s.len() {
            assert(s[run(s, stop) as int] == s.skip(1)[run(s, stop) - 1]);
        }
    }
}

/// The run is the only such length.
pub proof fn lemma_run_is(s: Chars, stop: spec_fn(char) -> bool, n: nat)
    requires
        n <= s.len(),
        forall|i: int| 0 <= i < n ==> !stop(#[trigger] s[i]),
        n < s.len() ==> stop(s[n as int]),
    ensures
        run(s, stop) == n,
{
    lemma_run(s, stop);
    let m = run(s, stop);
    if m < n {
        assert(!stop(s[m as int]));
    }
    if n < m {
        assert(!stop(s[n as int]));
    }
}

/// White space behind a line does not change its words.
pub proof fn law_trailing_white_space(s: Chars, white: Chars)
    requires
        forall|i: int| 0 <= i < white.len() ==> is_white(#[trigger] white[i]),
    ensures
        words(s + white) == words(s),
    decreases s.len() + white.len(),
{
    let t = s + white;
    let stop = |c: char| is_white(c);
    if s.len() == 0 {
        assert(t == white);
        if white.len() > 0 {
            assert(is_white(white[0]));
            assert(white.skip(1) == s + white.skip(1));
            law_trailing_white_space(s, white.skip(1));
        }
    } else if is_white(s[0]) {
        assert(t.skip(1) == s.skip(1) + white);
        law_trailing_white_space(s.skip(1), white);
    } else {
        lemma_run(s, stop);
        let n = run(s, stop);
        assert forall|i: int| 0 <= i < n implies !stop(#[trigger] t[i]) by {
            assert(t[i] == s[i]);
        }
        if n < t.len() {
            assert(stop(t[n as int])) by {
                if n < s.len() {
                    assert(t[n as int] == s[n as int]);
                } else {
                    assert(t[n as int] == white[n - s.len()]);
                }
            }
        }
        lemma_run_is(t, stop, n);
        assert(t.take(n as int) == s.take(n as int));
        assert(t.skip(n as int) == s.skip(n as int) + white);
        law_trailing_white_space(s.skip(n as int), white);
    }
}

/// White space before a line does not change its words.
pub proof fn law_leading_white_space(white: Chars, s: Chars)
    requires
        forall|i: int| 0 <= i < white.len() ==> is_white(#[trigger] white[i]),
    ensures
        words(white + s) == words(s),
    decreases white.len(),
{
    let t = white + s;
    if white.len() == 0 {
        assert(t == s);
    } else {
        assert(t[0] == white[0]);
        assert(t.skip(1) == white.skip(1) + s);
        law_leading_white_space(white.skip(1), s);
    }
}

/// A word is not empty and holds no white space.
pub proof fn law_words_hold_no_white_space(s: Chars, k: int, i: int)
    requires
        0 <= k < words(s).len(),
    ensures
        words(s)[k].len() > 0,
        0 <= i < words(s)[k].len() ==> !is_white(words(s)[k][i]),
    decreases s.len(),
{
    let stop = |c: char| is_white(c);
    if s.len() > 0 {
        if is_white(s[0]) {
            law_words_hold_no_white_space(s.skip(1), k, i);
        } else {
            lemma_run(s, stop);
            let n = run(s, stop) as int;
            if k == 0 {
                if 0 <= i < n {
                    assert(!stop(s[i]));
                    assert(words(s)[0][i] == s[i]);
                }
            } else {
                law_words_hold_no_white_space(s.skip(n), k - 1, i);
                assert(words(s)[k] == words(s.skip(n))[k - 1]);
            }
        }
    }
}

/// The characters of a text.
pub fn chars_of(text: &str) -> (r: Vec<char>)
    ensures
        r@ == text@,
{
    let mut v: Vec<char> = Vec::new();
    for c in it: text.chars()
        invariant
            it.seq() == text@,
            v@ == text@.take(it.index()),
    {
        v.push(c);
        assert(text@.take(it.index()).push(c) == text@.take(it.index() + 1));
    }
    assert(text@.take(text@.len() as int) == text@);
    v
}

/// The text made of the characters from `from` up to `to`.
pub fn text_of(chars: &Vec<char>, from: usize, to: usize) -> (r: String)
    requires
        from <= to <= chars.len(),
    ensures
        r@ == chars@.subrange(from as int, to as int),
{
    let mut s: String = String::new();
    let mut i: usize = from;
    while i < to
        invariant
            from <= i <= to <= chars.len(),
            s@ == chars@.subrange(from as int, i as int),
        decreases to - i,
    {
        s.push(chars[i]);
        assert(chars@.subrange(from as int, i as int).push(chars@[i as int])
            == chars@.subrange(from as int, i + 1));
        i += 1;
    }
    s
}

/// Whether two texts have the same characters.
pub fn same_text(a: &str, b: &str) -> (r: bool)
    ensures
        r == (a@ == b@),
{
    a.to_owned() == b.to_owned()
}

/// Whether a character is white space.
pub fn white(c: char) -> (r: bool)
    ensures
        r == is_white(c),
{
    let n: u32 = c as u32;
    (9 <= n && n <= 13) || n == 32 || n == 0x85 || n == 0xa0 || n == 0x1680 || (0x2000 <= n && n
        <= 0x200a) || n == 0x2028 || n == 0x2029 || n == 0x202f || n == 0x205f || n == 0x3000
}

/// Splits a line into its words.
pub fn split_whitespace(line: &str) -> (r: Vec<String>)
    ensures
        r.deep_view() == words(line@),
{
    let chars = chars_of(line);
    let mut out: Vec<String> = Vec::new();
    let mut i: usize = 0;
    assert(chars@.skip(0) == chars@);
    assert(out.deep_view() + words(chars@) == words(chars@));
    while i < chars.len()
        invariant
            i <= chars.len(),
            chars@ == line@,
            out.deep_view() + words(chars@.skip(i as int)) == words(line@),
        decreases chars.len() - i,
    {
        let ghost rest = chars@.skip(i as int);
        let ghost stop = |c: char| is_white(c);
        if white(chars[i]) {
            assert(rest[0] == chars@[i as int]);
            assert(rest.skip(1) == chars@.skip(i + 1));
            i += 1;
        } else {
            let start: usize = i;
            assert(rest[0] == chars@[i as int]);
            while i < chars.len() && !white(chars[i])
                invariant
                    start <= i <= chars.len(),
                    forall|j: int| start <= j < i ==> !is_white(#[trigger] chars@[j]),
                decreases chars.len() - i,
            {
                i += 1;
            }
            let word = text_of(&chars, start, i);
            proof {
                let n = (i - start) as nat;
                assert forall|j: int| 0 <= j < n implies !stop(#[trigger] rest[j]) by {
                    assert(rest[j] == chars@[start + j]);
                }
                if n < rest.len() {
                    assert(rest[n as int] == chars@[i as int]);
                }
                lemma_run_is(rest, stop, n);
                assert(n > 0) by {
                    lemma_run(rest, stop);
                }
                assert(rest.take(n as int) == word@);
                assert(rest.skip(n as int) == chars@.skip(i as int));
                assert(words(rest) == seq![word@] + words(chars@.skip(i as int)));
            }
            let ghost before = out.deep_view();
            out.push(word);
            assert(out.deep_view() == before.push(word@));
            assert(before + (seq![word@] + words(chars@.skip(i as int))) == before.push(word@)
                + words(chars@.skip(i as int)));
        }
    }
    assert(words(chars@.skip(i as int)).len() == 0);
    assert(out.deep_view() + words(chars@.skip(i as int)) == out.deep_view());
    out
}

/// Splits a text at every occurrence of a character.
pub fn split_at_char(text: &str, sep: char) -> (r: Vec<String>)
    ensures
        r.deep_view() == split_on(text@, sep),
        r.len() >= 1,
{
    let chars = chars_of(text);
    let mut out: Vec<String> = Vec::new();
    let mut start: usize = 0;
    let mut i: usize = 0;
    let ghost stop = is_char(sep);
    assert(chars@.skip(0) == chars@);
    assert(out.deep_view() + split_on(chars@, sep) == split_on(chars@, sep));
    while i < chars.len()
        invariant
            start <= i <= chars.len(),
            chars@ == text@,
            stop == is_char(sep),
            forall|j: int| start <= j < i ==> #[trigger] chars@[j] != sep,
            out.deep_view() + split_on(chars@.skip(start as int), sep) == split_on(text@, sep),
        decreases chars.len() - i,
    {
        if chars[i] == sep {
            let piece = text_of(&chars, start, i);
            let ghost rest = chars@.skip(start as int);
            let ghost before = out.deep_view();
            proof {
                let n = (i - start) as nat;
                assert forall|j: int| 0 <= j < n implies !stop(#[trigger] rest[j]) by {
                    assert(rest[j] == chars@[start + j]);
                }
                assert(rest[n as int] == chars@[i as int]);
                lemma_run_is(rest, stop, n);
                assert(rest.take(n as int) == piece@);
                assert(rest.skip(n as int + 1) == chars@.skip(i + 1));
            }
            out.push(piece);
            assert(out.deep_view() == before.push(piece@));
            assert(before + (seq![piece@] + split_on(chars@.skip(i + 1), sep)) == before.push(piece@)
                + split_on(chars@.skip(i + 1), sep));
            start = i + 1;
        }
        i += 1;
    }
    let piece = text_of(&chars, start, i);
    let ghost before = out.deep_view();
    proof {
        let rest = chars@.skip(start as int);
        let n = (i - start) as nat;
        assert forall|j: int| 0 <= j < n implies !stop(#[trigger] rest[j]) by {
            assert(rest[j] == chars@[start + j]);
        }
        lemma_run_is(rest, stop, n);
        assert(rest == piece@);
    }
    out.push(piece);
    assert(out.deep_view() == before.push(piece@));
    assert(before + seq![piece@] == before.push(piece@));
    out
}

/// Two texts, one behind the other.
pub fn join2(a: &str, b: &str) -> (r: String)
    ensures
        r@ == a@ + b@,
{
    let mut s = a.to_owned();
    s.append(b);
    s
}

/// How a truth value is written.
pub open spec fn bool_chars(b: bool) -> Chars {
    if b {
        "true"@
    } else {
        "false"@
    }
}

/// How a truth value is written.
pub fn bool_text(b: bool) -> (r: &'static str)
    ensures
        r@ == bool_chars(b),
{
    if b {
        "true"
    } else {
        "false"
    }
}

/// Three texts, one behind the other.
pub fn join3(a: &str, b: &str, c: &str) -> (r: String)
    ensures
        r@ == a@ + b@ + c@,
{
    let mut s = join2(a, b);
    s.append(c);
    s
}

/// Four texts, one behind the other.
pub fn join4(a: &str, b: &str, c: &str, d: &str) -> (r: String)
    ensures
        r@ == a@ + b@ + c@ + d@,
{
    let mut s = join3(a, b, c);
    s.append(d);
    s
}

/// The words of two texts with white space between them are the words of the first and
/// behind them those of the second.
pub proof fn law_words_around_white_space(a: Chars, white: char, b: Chars)
    requires
        is_white(white),
    ensures
        words(a + seq![white] + b) == words(a) + words(b),
    decreases a.len(),
{
    let t = a + seq![white] + b;
    let stop = |c: char| is_white(c);
    if a.len() == 0 {
        assert(t[0] == white);
        assert(t.skip(1) == b);
        assert(words(a) + words(b) == words(b));
    } else if is_white(a[0]) {
        assert(t[0] == a[0]);
        assert(t.skip(1) == a.skip(1) + seq![white] + b);
        law_words_around_white_space(a.skip(1), white, b);
    } else {
        lemma_run(a, stop);
        let n = run(a, stop);
        assert forall|i: int| 0 <= i < n implies !stop(#[trigger] t[i]) by {
            assert(t[i] == a[i]);
        }
        assert(stop(t[n as int])) by {
            if n < a.len() {
                assert(t[n as int] == a[n as int]);
            } else {
                assert(t[n as int] == white);
            }
        }
        lemma_run_is(t, stop, n);
        assert(t[0] == a[0]);
        assert(t.take(n as int) == a.take(n as int));
        let rest = a.skip(n as int);
        assert(t.skip(n as int) == rest + seq![white] + b);
        law_words_around_white_space(rest, white, b);
        assert(seq![a.take(n as int)] + (words(rest) + words(b)) == (seq![a.take(n as int)] + words(
            rest,
        )) + words(b));
    }
}

/// A text that holds no white space is one word, unless there is nothing in it.
pub proof fn law_a_word_is_itself(word: Chars)
    requires
        forall|i: int| 0 <= i < word.len() ==> !is_white(#[trigger] word[i]),
    ensures
        words(word) == if word.len() == 0 {
            Seq::<Chars>::empty()
        } else {
            seq![word]
        },
{
    if word.len() > 0 {
        let stop = |c: char| is_white(c);
        assert(!is_white(word[0]));
        lemma_run_is(word, stop, word.len());
        assert(word.take(word.len() as int) == word);
        assert(words(word.skip(word.len() as int)) == Seq::<Chars>::empty());
        assert(words(word) == seq![word] + Seq::<Chars>::empty());
    }
}

/// The pieces of two texts with the separator between them are the pieces of the first
/// and behind them those of the second.
pub proof fn law_pieces_around_a_separator(a: Chars, sep: char, b: Chars)
    ensures
        split_on(a + seq![sep] + b, sep) == split_on(a, sep) + split_on(b, sep),
    decreases a.len(),
{
    let t = a + seq![sep] + b;
    let stop = is_char(sep);
    lemma_run(a, stop);
    let n = run(a, stop);
    assert forall|i: int| 0 <= i < n implies !stop(#[trigger] t[i]) by {
        assert(t[i] == a[i]);
    }
    assert(stop(t[n as int])) by {
        if n < a.len() {
            assert(t[n as int] == a[n as int]);
        } else {
            assert(t[n as int] == sep);
        }
    }
    lemma_run_is(t, stop, n);
    assert(t.take(n as int) == a.take(n as int));
    if n < a.len() {
        let rest = a.skip(n as int + 1);
        assert(t.skip(n as int + 1) == rest + seq![sep] + b);
        law_pieces_around_a_separator(rest, sep, b);
        assert(seq![a.take(n as int)] + (split_on(rest, sep) + split_on(b, sep)) == (seq![
            a.take(n as int),
        ] + split_on(rest, sep)) + split_on(b, sep));
    } else {
        assert(a.take(n as int) == a);
        assert(t.skip(n as int + 1) == b);
    }
}

/// A text without the separator is one piece.
pub proof fn law_a_piece_is_itself(piece: Chars, sep: char)
    requires
        forall|i: int| 0 <= i < piece.len() ==> #[trigger] piece[i] != sep,
    ensures
        split_on(piece, sep) == seq![piece],
{
    lemma_run_is(piece, is_char(sep), piece.len());
}

/// Whether a text stands in another as it is.
pub open spec fn stands_in(piece: Chars, text: Chars) -> bool {
    exists|before: Chars, behind: Chars| text == #[trigger] (before + piece + behind)
}

/// What stands in a text stands in every text that this one stands in.
pub proof fn lemma_stands_within(inner: Chars, middle: Chars, outer: Chars)
    requires
        stands_in(inner, middle),
        stands_in(middle, outer),
    ensures
        stands_in(inner, outer),
{
    let (a, b) = choose|a: Chars, b: Chars| middle == #[trigger] (a + inner + b);
    let (c, d) = choose|c: Chars, d: Chars| outer == #[trigger] (c + middle + d);
    assert(outer == (c + a) + inner + (b + d));
}

/// Texts one behind the other.
pub open spec fn joined(pieces: Seq<Chars>) -> Chars
    decreases pieces.len(),
{
    if pieces.len() == 0 {
        seq![]
    } else {
        joined(pieces.drop_last()) + pieces.last()
    }
}

/// Each of some texts stands in what they make one behind the other.
pub proof fn lemma_joined_holds(pieces: Seq<Chars>, i: int)
    requires
        0 <= i < pieces.len(),
    ensures
        stands_in(pieces[i], joined(pieces)),
    decreases pieces.len(),
{
    let text = joined(pieces);
    let before = joined(pieces.drop_last());
    if i == pieces.len() - 1 {
        assert(text == before + pieces[i] + Seq::<char>::empty());
    } else {
        lemma_joined_holds(pieces.drop_last(), i);
        let piece = pieces[i];
        let (a, b) = choose|a: Chars, b: Chars| before == #[trigger] (a + piece + b);
        assert(text == a + piece + (b + pieces.last()));
    }
}

} // verus!
