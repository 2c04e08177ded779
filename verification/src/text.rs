//! Characters and runs of characters.

use vstd::prelude::*;
use vstd::slice::slice_subrange;

verus! {

/// `String::push` appends one character.
pub assume_specification[ String::push ](s: &mut String, c: char)
    ensures
        final(s)@ == old(s)@.push(c),
;

/// A class of characters that the grammar scans in runs.
#[derive(Clone, Copy, Debug, PartialEq, Eq, Structural)]
pub enum CharClass {
    /// ASCII letters, ASCII digits and the underscore.
    Identifier,
    /// Space, tab, carriage return and line feed.
    Whitespace,
}

/// Whether `c` belongs to `class`.
pub open spec fn in_class(c: char, class: CharClass) -> bool {
    match class {
        CharClass::Identifier => {
            ('a' <= c && c <= 'z') || ('A' <= c && c <= 'Z') || ('0' <= c && c <= '9') || c == '_'
        },
        CharClass::Whitespace => c == ' ' || c == '\t' || c == '\r' || c == '\n',
    }
}

/// The length of the longest prefix of `s` whose characters all belong to
/// `class`.
pub open spec fn run_length(s: Seq<char>, class: CharClass) -> nat
    decreases s.len(),
{
    if s.len() > 0 && in_class(s[0], class) {
        1 + run_length(s.skip(1), class)
    } else {
        0
    }
}

/// Whether `s` is an identifier: one or more identifier characters.
pub open spec fn is_identifier(s: Seq<char>) -> bool {
    s.len() > 0 && forall|i: int|
        0 <= i < s.len() ==> in_class(#[trigger] s[i], CharClass::Identifier)
}

/// Whether `s` is empty or starts with a character outside `class`.
pub open spec fn starts_outside(s: Seq<char>, class: CharClass) -> bool {
    s.len() == 0 || !in_class(s[0], class)
}

/// `s` without its leading whitespace.
pub open spec fn skip_whitespace(s: Seq<char>) -> Seq<char> {
    s.skip(run_length(s, CharClass::Whitespace) as int)
}

/// A run is no longer than the text, consists of characters of the class,
/// and ends at the end of the text or before a character outside the class.
pub proof fn lemma_run_length(s: Seq<char>, class: CharClass)
    ensures
        run_length(s, class) <= s.len(),
        forall|i: int| 0 <= i < run_length(s, class) ==> in_class(#[trigger] s[i], class),
        run_length(s, class) < s.len() ==> !in_class(s[run_length(s, class) as int], class),
    decreases s.len(),
{
    if s.len() > 0 && in_class(s[0], class) {
        let t = s.skip(1);
        lemma_run_length(t, class);
        assert forall|i: int| 0 <= i < run_length(s, class) implies in_class(
            #[trigger] s[i],
            class,
        ) by {
            if i > 0 {
                assert(s[i] == t[i - 1]);
            }
        }
        if run_length(s, class) < s.len() {
            assert(s[run_length(s, class) as int] == t[run_length(t, class) as int]);
        }
    }
}

/// A prefix of characters of the class that ends at the end of the text or
/// before a character outside the class is the run.
pub proof fn lemma_run_length_is(s: Seq<char>, class: CharClass, n: int)
    requires
        0 <= n <= s.len(),
        forall|i: int| 0 <= i < n ==> in_class(#[trigger] s[i], class),
        n < s.len() ==> !in_class(s[n], class),
    ensures
        run_length(s, class) == n,
    decreases n,
{
    if n > 0 {
        let t = s.skip(1);
        assert forall|i: int| 0 <= i < n - 1 implies in_class(#[trigger] t[i], class) by {
            assert(t[i] == s[i + 1]);
        }
        if n - 1 < t.len() {
            assert(t[n - 1] == s[n]);
        }
        lemma_run_length_is(t, class, n - 1);
    }
}

/// A text of characters of the class, followed by a text that starts
/// outside the class, has the first text as its run.
pub proof fn lemma_run_of_concat(run: Seq<char>, rest: Seq<char>, class: CharClass)
    requires
        forall|i: int| 0 <= i < run.len() ==> in_class(#[trigger] run[i], class),
        starts_outside(rest, class),
    ensures
        run_length(run + rest, class) == run.len(),
        (run + rest).skip(run.len() as int) == rest,
        (run + rest).take(run.len() as int) == run,
{
    let s = run + rest;
    assert forall|i: int| 0 <= i < run.len() implies in_class(#[trigger] s[i], class) by {
        assert(s[i] == run[i]);
    }
    if run.len() < s.len() {
        assert(s[run.len() as int] == rest[0]);
    }
    lemma_run_length_is(s, class, run.len() as int);
    assert(s.skip(run.len() as int) =~= rest);
    assert(s.take(run.len() as int) =~= run);
}

/// Whether `c` belongs to `class`.
pub fn char_in_class(c: char, class: CharClass) -> (r: bool)
    ensures
        r == in_class(c, class),
{
    match class {
        CharClass::Identifier => {
            (c >= 'a' && c <= 'z') || (c >= 'A' && c <= 'Z') || (c >= '0' && c <= '9') || c == '_'
        },
        CharClass::Whitespace => c == ' ' || c == '\t' || c == '\r' || c == '\n',
    }
}

/// The length of the run of `class` at the start of `input`.
pub fn scan_run(input: &[char], class: CharClass) -> (n: usize)
    ensures
        n == run_length(input@, class),
        n <= input@.len(),
{
    let mut n: usize = 0;
    while n < input.len() && char_in_class(input[n], class)
        invariant
            n <= input@.len(),
            forall|i: int| 0 <= i < n ==> in_class(#[trigger] input@[i], class),
        decreases input@.len() - n,
    {
        n += 1;
    }
    proof {
        lemma_run_length_is(input@, class, n as int);
    }
    n
}

/// `input` without its first `n` characters.
pub fn tail<'a>(input: &'a [char], n: usize) -> (r: &'a [char])
    requires
        n <= input@.len(),
    ensures
        r@ == input@.skip(n as int),
{
    slice_subrange(input, n, input.len())
}

/// The first `n` characters of `input`, as a string.
pub fn head_text(input: &[char], n: usize) -> (r: String)
    requires
        n <= input@.len(),
    ensures
        r@ == input@.take(n as int),
{
    let mut text = String::new();
    let mut i: usize = 0;
    while i < n
        invariant
            i <= n <= input@.len(),
            text@ == input@.take(i as int),
        decreases n - i,
    {
        text.push(input[i]);
        assert(input@.take(i as int).push(input@[i as int]) =~= input@.take(i + 1));
        i += 1;
    }
    text
}

/// The characters of `s`.
pub fn chars_of(s: &str) -> (r: Vec<char>)
    ensures
        r@ == s@,
{
    let mut chars: Vec<char> = Vec::new();
    for c in it: s.chars()
        invariant
            chars@ == it.seq().take(it.index() as int),
            it.seq() == s@,
    {
        chars.push(c);
    }
    chars
}

/// `input` without its leading whitespace.
pub fn trim_whitespace<'a>(input: &'a [char]) -> (r: &'a [char])
    ensures
        r@ == skip_whitespace(input@),
{
    let n = scan_run(input, CharClass::Whitespace);
    tail(input, n)
}

} // verus!
