//! Lexical primitives: keywords, whitespace, identifiers and string
//! literals.

use vstd::prelude::*;
use crate::error::{parsed, ParseError, ParseErrorView, Rule};
use crate::text::{
    head_text, is_identifier, lemma_run_length, run_length, scan_run, tail, CharClass,
};

verus! {

/// `char::from_u32` gives the character with the given scalar value, and
/// `None` for a surrogate or a number above `0x10FFFF`.
pub assume_specification[ char::from_u32 ](i: u32) -> (r: Option<char>)
    ensures
        r == (if i <= 0xD7FF || (0xE000 <= i && i <= 0x10FFFF) {
            Some(i as char)
        } else {
            None::<char>
        }),
;

/// The outcome of a parser that yields no value: the unconsumed input, or
/// the failure.
pub open spec fn unconsumed(r: Result<&[char], ParseError>) -> Result<Seq<char>, ParseErrorView> {
    match r {
        Ok(rest) => Ok(rest@),
        Err(e) => Err(e@),
    }
}

/// The number of `c` with an ASCII capital letter replaced by its small
/// letter.
pub open spec fn ascii_fold(c: char) -> u32 {
    if 'A' <= c && c <= 'Z' {
        (c as u32 + 32) as u32
    } else {
        c as u32
    }
}

/// Whether `s` starts with `word`.
pub open spec fn has_prefix(s: Seq<char>, word: Seq<char>) -> bool {
    word.len() <= s.len() && forall|i: int| 0 <= i < word.len() ==> s[i] == word[i]
}

/// Whether `s` starts with `word`, ASCII letters compared without regard to
/// case.
pub open spec fn has_prefix_no_case(s: Seq<char>, word: Seq<char>) -> bool {
    word.len() <= s.len() && forall|i: int|
        0 <= i < word.len() ==> ascii_fold(s[i]) == ascii_fold(word[i])
}

/// A keyword in any case: the input after it, or a mismatch of `rule` at the
/// input.
pub open spec fn spec_keyword(s: Seq<char>, word: Seq<char>, rule: Rule) -> Result<
    Seq<char>,
    ParseErrorView,
> {
    if has_prefix_no_case(s, word) {
        Ok(s.skip(word.len() as int))
    } else {
        Err(ParseErrorView::GrammarMismatch(rule, s))
    }
}

/// One or more whitespace characters: the input after them, or a mismatch
/// at the input.
pub open spec fn spec_whitespace1(s: Seq<char>) -> Result<Seq<char>, ParseErrorView> {
    if run_length(s, CharClass::Whitespace) == 0 {
        Err(ParseErrorView::GrammarMismatch(Rule::Whitespace, s))
    } else {
        Ok(s.skip(run_length(s, CharClass::Whitespace) as int))
    }
}

/// An identifier: the longest leading run of identifier characters, which
/// must not be empty.
pub open spec fn spec_scan_identifier(s: Seq<char>) -> Result<
    (Seq<char>, Seq<char>),
    ParseErrorView,
> {
    let n = run_length(s, CharClass::Identifier) as int;
    if n == 0 {
        Err(ParseErrorView::EmptyIdentifier)
    } else {
        Ok((s.skip(n), s.take(n)))
    }
}

/// The value of a hexadecimal digit.
pub open spec fn hex_value(c: char) -> Option<int> {
    if '0' <= c && c <= '9' {
        Some(c as int - '0' as int)
    } else if 'a' <= c && c <= 'f' {
        Some(c as int - 'a' as int + 10)
    } else if 'A' <= c && c <= 'F' {
        Some(c as int - 'A' as int + 10)
    } else {
        None
    }
}

/// The number that the first four characters of `s` write in hexadecimal.
pub open spec fn code_unit(s: Seq<char>) -> Option<int> {
    if s.len() >= 4 && hex_value(s[0]) is Some && hex_value(s[1]) is Some && hex_value(
        s[2],
    ) is Some && hex_value(s[3]) is Some {
        Some(
            ((hex_value(s[0])->0 * 16 + hex_value(s[1])->0) * 16 + hex_value(s[2])->0) * 16
                + hex_value(s[3])->0,
        )
    } else {
        None
    }
}

/// The character that one UTF-16 code unit stands for when it is decoded
/// alone: the replacement character for a surrogate.
pub open spec fn decode_code_unit(unit: int) -> char {
    if 0xD800 <= unit && unit <= 0xDFFF {
        '\u{FFFD}'
    } else {
        unit as char
    }
}

/// The character that a one-letter escape stands for.
pub open spec fn simple_escape(c: char) -> Option<char> {
    if c == '\\' || c == '"' || c == '\'' {
        Some(c)
    } else if c == 'r' {
        Some('\r')
    } else if c == 'n' {
        Some('\n')
    } else if c == 't' {
        Some('\t')
    } else {
        None
    }
}

/// The first character of a literal's body: how many input characters write
/// it, and the character they stand for.
pub open spec fn spec_scan_literal_char(s: Seq<char>) -> Result<(int, char), ParseErrorView>
    recommends
        s.len() > 0,
{
    if s[0] != '\\' {
        Ok((1, s[0]))
    } else if s.len() < 2 {
        Err(ParseErrorView::UnterminatedString)
    } else if s[1] == 'u' {
        match code_unit(s.skip(2)) {
            Some(unit) => Ok((6, decode_code_unit(unit))),
            None => Err(ParseErrorView::InvalidUnicodeEscape),
        }
    } else {
        match simple_escape(s[1]) {
            Some(c) => Ok((2, c)),
            None => Err(ParseErrorView::InvalidEscape),
        }
    }
}

/// `outcome` with `c` put before the decoded text.
pub open spec fn with_first(c: char, outcome: Result<(Seq<char>, Seq<char>), ParseErrorView>)
    -> Result<(Seq<char>, Seq<char>), ParseErrorView> {
    match outcome {
        Ok((rest, text)) => Ok((rest, seq![c] + text)),
        Err(e) => Err(e),
    }
}

/// The body of a string literal, after the opening quote: the input after
/// the closing quote and the decoded text.
pub open spec fn spec_scan_literal_body(s: Seq<char>) -> Result<
    (Seq<char>, Seq<char>),
    ParseErrorView,
>
    decreases s.len(),
{
    if s.len() == 0 {
        Err(ParseErrorView::UnterminatedString)
    } else if s[0] == '"' {
        Ok((s.skip(1), Seq::empty()))
    } else {
        match spec_scan_literal_char(s) {
            Ok((k, c)) => with_first(c, spec_scan_literal_body(s.skip(k))),
            Err(e) => Err(e),
        }
    }
}

/// A string literal: an opening quote and a body.
pub open spec fn spec_scan_string_literal(s: Seq<char>) -> Result<
    (Seq<char>, Seq<char>),
    ParseErrorView,
> {
    if s.len() > 0 && s[0] == '"' {
        spec_scan_literal_body(s.skip(1))
    } else {
        Err(ParseErrorView::GrammarMismatch(Rule::OpeningQuote, s))
    }
}

/// The failure of `rule` at `input`.
pub fn mismatch(rule: Rule, input: &[char]) -> (e: ParseError)
    ensures
        e@ == ParseErrorView::GrammarMismatch(rule, input@),
{
    let text = head_text(input, input.len());
    assert(input@.take(input@.len() as int) =~= input@);
    ParseError::GrammarMismatch(rule, text)
}

/// The number of `c`, of its small letter where `c` is an ASCII capital.
fn fold(c: char) -> (r: u32)
    ensures
        r == ascii_fold(c),
{
    if c >= 'A' && c <= 'Z' {
        c as u32 + 32
    } else {
        c as u32
    }
}

/// Whether `input` starts with `word`; with `any_case`, ASCII letters match
/// in either case.
pub fn starts_with(input: &[char], word: &str, any_case: bool) -> (r: bool)
    ensures
        r == if any_case {
            has_prefix_no_case(input@, word@)
        } else {
            has_prefix(input@, word@)
        },
{
    let n = word.unicode_len();
    if n > input.len() {
        return false;
    }
    let mut i: usize = 0;
    while i < n
        invariant
            i <= n,
            n == word@.len(),
            n <= input@.len(),
            forall|j: int|
                0 <= j < i ==> if any_case {
                    ascii_fold(input@[j]) == ascii_fold(word@[j])
                } else {
                    input@[j] == word@[j]
                },
        decreases n - i,
    {
        let a = input[i];
        let b = word.get_char(i);
        let same = if any_case {
            fold(a) == fold(b)
        } else {
            a == b
        };
        if !same {
            return false;
        }
        i += 1;
    }
    true
}

/// `input` after `word`, where it starts with `word`; with `any_case`, ASCII
/// letters match in either case.
pub fn strip_prefix<'a>(input: &'a [char], word: &str, any_case: bool) -> (r: Option<&'a [char]>)
    ensures
        r is Some <==> if any_case {
            has_prefix_no_case(input@, word@)
        } else {
            has_prefix(input@, word@)
        },
        r matches Some(rest) ==> rest@ == input@.skip(word@.len() as int),
{
    if starts_with(input, word, any_case) {
        Some(tail(input, word.unicode_len()))
    } else {
        None
    }
}

/// Reads the keyword `word`, in any case.
pub fn keyword<'a>(input: &'a [char], word: &str, rule: Rule) -> (r: Result<&'a [char], ParseError>)
    ensures
        unconsumed(r) == spec_keyword(input@, word@, rule),
{
    match strip_prefix(input, word, true) {
        Some(rest) => Ok(rest),
        None => Err(mismatch(rule, input)),
    }
}

/// Reads one or more whitespace characters.
pub fn whitespace1<'a>(input: &'a [char]) -> (r: Result<&'a [char], ParseError>)
    ensures
        unconsumed(r) == spec_whitespace1(input@),
{
    let n = scan_run(input, CharClass::Whitespace);
    if n == 0 {
        Err(mismatch(Rule::Whitespace, input))
    } else {
        Ok(tail(input, n))
    }
}

/// Reads an identifier: the longest leading run of ASCII letters, ASCII
/// digits and underscores. Fails with `EmptyIdentifier` where `input` starts
/// with none of them.
pub fn scan_identifier<'a>(input: &'a [char]) -> (r: Result<(&'a [char], String), ParseError>)
    ensures
        parsed(r) == spec_scan_identifier(input@),
        r matches Ok((_, name)) ==> is_identifier(name@),
{
    proof {
        lemma_run_length(input@, CharClass::Identifier);
    }
    let n = scan_run(input, CharClass::Identifier);
    if n == 0 {
        Err(ParseError::EmptyIdentifier)
    } else {
        Ok((tail(input, n), head_text(input, n)))
    }
}

/// The value of `c` as a hexadecimal digit.
fn hex_digit(c: char) -> (r: Option<u32>)
    ensures
        match r {
            Some(v) => hex_value(c) == Some(v as int) && v < 16,
            None => hex_value(c) is None,
        },
{
    if c >= '0' && c <= '9' {
        Some(c as u32 - '0' as u32)
    } else if c >= 'a' && c <= 'f' {
        Some(c as u32 - 'a' as u32 + 10)
    } else if c >= 'A' && c <= 'F' {
        Some(c as u32 - 'A' as u32 + 10)
    } else {
        None
    }
}

/// The number that the first four characters of `input` write in
/// hexadecimal.
fn hex_quad(input: &[char]) -> (r: Option<u32>)
    ensures
        match r {
            Some(v) => code_unit(input@) == Some(v as int) && v < 0x10000,
            None => code_unit(input@) is None,
        },
{
    if input.len() < 4 {
        return None;
    }
    match (hex_digit(input[0]), hex_digit(input[1]), hex_digit(input[2]), hex_digit(input[3])) {
        (Some(a), Some(b), Some(c), Some(d)) => Some(((a * 16 + b) * 16 + c) * 16 + d),
        _ => None,
    }
}

/// Reads the first character of a literal's body, which is not the closing
/// quote: a plain character or an escape.
pub fn scan_literal_char(input: &[char]) -> (r: Result<(usize, char), ParseError>)
    requires
        input@.len() > 0,
    ensures
        match r {
            Ok((k, c)) => spec_scan_literal_char(input@) == Ok::<_, ParseErrorView>((k as int, c))
                && 1 <= k <= input@.len(),
            Err(e) => spec_scan_literal_char(input@) == Err::<(int, char), _>(e@),
        },
{
    let first = input[0];
    if first != '\\' {
        return Ok((1, first));
    }
    if input.len() < 2 {
        return Err(ParseError::UnterminatedString);
    }
    let letter = input[1];
    if letter == 'u' {
        match hex_quad(tail(input, 2)) {
            Some(unit) => {
                let c = match char::from_u32(unit) {
                    Some(c) => c,
                    None => '\u{FFFD}',
                };
                Ok((6, c))
            },
            None => Err(ParseError::InvalidUnicodeEscape),
        }
    } else if letter == '\\' || letter == '"' || letter == '\'' {
        Ok((2, letter))
    } else if letter == 'r' {
        Ok((2, '\r'))
    } else if letter == 'n' {
        Ok((2, '\n'))
    } else if letter == 't' {
        Ok((2, '\t'))
    } else {
        Err(ParseError::InvalidEscape)
    }
}

/// `outcome` with `prefix` put before the decoded text.
pub open spec fn with_prefix(
    prefix: Seq<char>,
    outcome: Result<(Seq<char>, Seq<char>), ParseErrorView>,
) -> Result<(Seq<char>, Seq<char>), ParseErrorView> {
    match outcome {
        Ok((rest, text)) => Ok((rest, prefix + text)),
        Err(e) => Err(e),
    }
}

/// Putting a character before the text and then `prefix` before that is
/// putting `prefix` with the character at its end before the text.
proof fn lemma_with_prefix_push(
    prefix: Seq<char>,
    c: char,
    outcome: Result<(Seq<char>, Seq<char>), ParseErrorView>,
)
    ensures
        with_prefix(prefix, with_first(c, outcome)) == with_prefix(prefix.push(c), outcome),
{
    match outcome {
        Ok((rest, text)) => {
            assert(prefix + (seq![c] + text) =~= prefix.push(c) + text);
        },
        Err(e) => {},
    }
}

/// Reads a string literal: a `"`, then characters up to the next `"` that no
/// backslash escapes. The text has the escapes `\\`, `\"`, `\'`, `\r`, `\n`,
/// `\t` and `\u` with four hexadecimal digits decoded; each `\u` escape is
/// one UTF-16 code unit decoded alone, so a surrogate gives U+FFFD.
pub fn scan_string_literal<'a>(input: &'a [char]) -> (r: Result<(&'a [char], String), ParseError>)
    ensures
        parsed(r) == spec_scan_string_literal(input@),
{
    if input.len() == 0 || input[0] != '"' {
        return Err(mismatch(Rule::OpeningQuote, input));
    }
    let body = tail(input, 1);
    let mut rest = body;
    let mut text = String::new();
    proof {
        match spec_scan_literal_body(body@) {
            Ok((r, t)) => {
                assert(Seq::<char>::empty() + t =~= t);
            },
            Err(e) => {},
        }
    }
    loop
        invariant
            spec_scan_literal_body(body@) == with_prefix(text@, spec_scan_literal_body(rest@)),
            spec_scan_string_literal(input@) == spec_scan_literal_body(body@),
        decreases rest@.len(),
    {
        if rest.len() == 0 {
            return Err(ParseError::UnterminatedString);
        }
        if rest[0] == '"' {
            assert(text@ + Seq::<char>::empty() =~= text@);
            return Ok((tail(rest, 1), text));
        }
        match scan_literal_char(rest) {
            Ok((k, c)) => {
                proof {
                    lemma_with_prefix_push(text@, c, spec_scan_literal_body(rest@.skip(k as int)));
                }
                text.push(c);
                rest = tail(rest, k);
            },
            Err(e) => {
                return Err(e);
            },
        }
    }
}

} // verus!
