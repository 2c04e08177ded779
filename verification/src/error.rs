//! Parse failures.

use vstd::prelude::*;
use vstd::string::StringExecFns;

verus! {

/// The required piece of grammar that did not match.
#[derive(Clone, Copy, Debug, PartialEq, Eq, Structural)]
pub enum Rule {
    /// The `"` that opens a string literal.
    OpeningQuote,
    /// One of the operators `=` and `!=`.
    ComparisonOperator,
    /// The keyword `SELECT`.
    SelectKeyword,
    /// The keyword `FROM`.
    FromKeyword,
    /// At least one whitespace character.
    Whitespace,
}

impl Rule {
    /// What the rule asks for, in words.
    pub open spec fn spec_expected(self) -> Seq<char> {
        match self {
            Rule::OpeningQuote => "an opening quote"@,
            Rule::ComparisonOperator => "a comparison operator"@,
            Rule::SelectKeyword => "SELECT"@,
            Rule::FromKeyword => "FROM"@,
            Rule::Whitespace => "whitespace"@,
        }
    }

    /// What the rule asks for, in words.
    pub fn expected(self) -> (r: &'static str)
        ensures
            r@ == self.spec_expected(),
    {
        match self {
            Rule::OpeningQuote => "an opening quote",
            Rule::ComparisonOperator => "a comparison operator",
            Rule::SelectKeyword => "SELECT",
            Rule::FromKeyword => "FROM",
            Rule::Whitespace => "whitespace",
        }
    }
}

/// Why a piece of text was not accepted.
#[derive(Debug, PartialEq, Eq)]
pub enum ParseError {
    /// An identifier was expected and no identifier character was found.
    EmptyIdentifier,
    /// A string literal was opened and never closed.
    UnterminatedString,
    /// A backslash was followed by a character that introduces no escape.
    InvalidEscape,
    /// `\u` was not followed by four hexadecimal digits.
    InvalidUnicodeEscape,
    /// A required literal or sequence did not match; the text is the input
    /// from the point of the mismatch on.
    GrammarMismatch(Rule, String),
}

/// The mathematical value of a [`ParseError`].
pub enum ParseErrorView {
    EmptyIdentifier,
    UnterminatedString,
    InvalidEscape,
    InvalidUnicodeEscape,
    GrammarMismatch(Rule, Seq<char>),
}

impl ParseErrorView {
    /// The failure in words. A mismatch names what was expected and quotes
    /// the input from there on.
    pub open spec fn message(self) -> Seq<char> {
        match self {
            ParseErrorView::EmptyIdentifier => "expected an identifier"@,
            ParseErrorView::UnterminatedString => "unterminated string literal"@,
            ParseErrorView::InvalidEscape => "invalid escape sequence"@,
            ParseErrorView::InvalidUnicodeEscape => "invalid unicode escape"@,
            ParseErrorView::GrammarMismatch(rule, rest) => "expected "@ + rule.spec_expected()
                + " at: "@ + rest,
        }
    }
}

impl ParseError {
    /// The failure in words.
    pub fn message(&self) -> (r: String)
        ensures
            r@ == self@.message(),
    {
        match self {
            ParseError::EmptyIdentifier => String::from_str("expected an identifier"),
            ParseError::UnterminatedString => String::from_str("unterminated string literal"),
            ParseError::InvalidEscape => String::from_str("invalid escape sequence"),
            ParseError::InvalidUnicodeEscape => String::from_str("invalid unicode escape"),
            ParseError::GrammarMismatch(rule, rest) => {
                let mut text = String::from_str("expected ");
                text.append(rule.expected());
                text.append(" at: ");
                text.append(rest.as_str());
                text
            },
        }
    }
}

impl Clone for ParseError {
    fn clone(&self) -> (r: ParseError)
        ensures
            r@ == self@,
    {
        match self {
            ParseError::EmptyIdentifier => ParseError::EmptyIdentifier,
            ParseError::UnterminatedString => ParseError::UnterminatedString,
            ParseError::InvalidEscape => ParseError::InvalidEscape,
            ParseError::InvalidUnicodeEscape => ParseError::InvalidUnicodeEscape,
            ParseError::GrammarMismatch(rule, rest) => ParseError::GrammarMismatch(
                *rule,
                rest.clone(),
            ),
        }
    }
}

impl View for ParseError {
    type V = ParseErrorView;

    open spec fn view(&self) -> ParseErrorView {
        match self {
            ParseError::EmptyIdentifier => ParseErrorView::EmptyIdentifier,
            ParseError::UnterminatedString => ParseErrorView::UnterminatedString,
            ParseError::InvalidEscape => ParseErrorView::InvalidEscape,
            ParseError::InvalidUnicodeEscape => ParseErrorView::InvalidUnicodeEscape,
            ParseError::GrammarMismatch(rule, rest) => ParseErrorView::GrammarMismatch(
                *rule,
                rest@,
            ),
        }
    }
}

/// The outcome of a parser as a mathematical value: the unconsumed input and
/// the parsed value, or the failure.
pub open spec fn parsed<T: View>(r: Result<(&[char], T), ParseError>) -> Result<
    (Seq<char>, T::V),
    ParseErrorView,
> {
    match r {
        Ok((rest, value)) => Ok((rest@, value@)),
        Err(e) => Err(e@),
    }
}

/// The outcome of an alternative as a mathematical value: the unconsumed
/// input and the parsed value, where the alternative matched.
pub open spec fn matched<T: View>(r: Option<(&[char], T)>) -> Option<(Seq<char>, T::V)> {
    match r {
        Some((rest, value)) => Some((rest@, value@)),
        None => None,
    }
}

} // verus!
