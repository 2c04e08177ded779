//! Operands, comparison operators and the condition of a `WHERE` clause.

use vstd::prelude::*;
use crate::ast::{
    Column, ColumnView, ComparisonOperator, SearchCondition, SearchConditionView, Val, ValView,
};
use crate::error::{matched, parsed, ParseError, ParseErrorView, Rule};
use crate::lexer::{
    has_prefix, mismatch, scan_identifier, scan_string_literal, spec_scan_identifier,
    spec_scan_string_literal, spec_whitespace1, strip_prefix, whitespace1,
};
use crate::text::{skip_whitespace, trim_whitespace};

verus! {

/// An operand: a string literal where the input opens one with `"`, else an
/// identifier taken as a column. The two cannot both match, and a literal
/// that opens and then fails is the failure of the operand.
pub open spec fn spec_parse_value(s: Seq<char>) -> Result<(Seq<char>, ValView), ParseErrorView> {
    if s.len() > 0 && s[0] == '"' {
        match spec_scan_string_literal(s) {
            Ok((rest, text)) => Ok((rest, ValView::StringVal(text))),
            Err(e) => Err(e),
        }
    } else {
        match spec_scan_identifier(s) {
            Ok((rest, name)) => Ok((rest, ValView::Column(ColumnView::ColumnName(name)))),
            Err(e) => Err(e),
        }
    }
}

/// A comparison operator with any whitespace around it. A mismatch is
/// reported at the input after the leading whitespace.
pub open spec fn spec_parse_comparison_operator(s: Seq<char>) -> Result<
    (Seq<char>, ComparisonOperator),
    ParseErrorView,
> {
    let a = skip_whitespace(s);
    if has_prefix(a, "="@) {
        Ok((skip_whitespace(a.skip("="@.len() as int)), ComparisonOperator::Equal))
    } else if has_prefix(a, "!="@) {
        Ok((skip_whitespace(a.skip("!="@.len() as int)), ComparisonOperator::NotEqual))
    } else {
        Err(ParseErrorView::GrammarMismatch(Rule::ComparisonOperator, a))
    }
}

/// The alternative `value operator value`.
pub open spec fn spec_comparison(s: Seq<char>) -> Option<(Seq<char>, SearchConditionView)> {
    match spec_parse_value(s) {
        Ok((s1, left)) => match spec_parse_comparison_operator(s1) {
            Ok((s2, op)) => match spec_parse_value(s2) {
                Ok((s3, right)) => Some(
                    (s3, SearchConditionView::ColumnComparison(left, op, right)),
                ),
                Err(_) => None,
            },
            Err(_) => None,
        },
        Err(_) => None,
    }
}

/// An operand of a connective: whitespace, then a value.
pub open spec fn spec_operand(s: Seq<char>) -> Option<(Seq<char>, ValView)> {
    match spec_whitespace1(s) {
        Ok(s1) => match spec_parse_value(s1) {
            Ok(r) => Some(r),
            Err(_) => None,
        },
        Err(_) => None,
    }
}

/// The connective `word` before one operand.
pub open spec fn spec_unary(s: Seq<char>, word: Seq<char>) -> Option<(Seq<char>, ValView)> {
    if has_prefix(s, word) {
        spec_operand(s.skip(word.len() as int))
    } else {
        None
    }
}

/// The connective `word` before two operands.
pub open spec fn spec_binary(s: Seq<char>, word: Seq<char>) -> Option<
    (Seq<char>, (ValView, ValView)),
> {
    match spec_unary(s, word) {
        Some((s1, left)) => match spec_operand(s1) {
            Some((s2, right)) => Some((s2, (left, right))),
            None => None,
        },
        None => None,
    }
}

/// A condition: the first that matches of a comparison, `AND` with two
/// operands, `OR` with two operands, `NOT` with one operand, and the empty
/// condition, which consumes nothing and always matches.
pub open spec fn spec_parse_condition(s: Seq<char>) -> (Seq<char>, SearchConditionView) {
    if let Some(r) = spec_comparison(s) {
        r
    } else if let Some((rest, (left, right))) = spec_binary(s, "AND"@) {
        (rest, SearchConditionView::And(left, right))
    } else if let Some((rest, (left, right))) = spec_binary(s, "OR"@) {
        (rest, SearchConditionView::Or(left, right))
    } else if let Some((rest, operand)) = spec_unary(s, "NOT"@) {
        (rest, SearchConditionView::Not(operand))
    } else {
        (s, SearchConditionView::Empty)
    }
}

/// Reads an operand: a string literal where the input opens one, else an
/// identifier, which is taken as a column.
pub fn parse_value<'a>(input: &'a [char]) -> (r: Result<(&'a [char], Val), ParseError>)
    ensures
        parsed(r) == spec_parse_value(input@),
{
    if input.len() > 0 && input[0] == '"' {
        match scan_string_literal(input) {
            Ok((rest, text)) => Ok((rest, Val::StringVal(text))),
            Err(e) => Err(e),
        }
    } else {
        match scan_identifier(input) {
            Ok((rest, name)) => Ok((rest, Val::Column(Column::ColumnName(name)))),
            Err(e) => Err(e),
        }
    }
}

/// Reads `=` or `!=` with any whitespace before and after it.
pub fn parse_comparison_operator<'a>(input: &'a [char]) -> (r: Result<
    (&'a [char], ComparisonOperator),
    ParseError,
>)
    ensures
        parsed(r) == spec_parse_comparison_operator(input@),
{
    let a = trim_whitespace(input);
    match strip_prefix(a, "=", false) {
        Some(rest) => Ok((trim_whitespace(rest), ComparisonOperator::Equal)),
        None => match strip_prefix(a, "!=", false) {
            Some(rest) => Ok((trim_whitespace(rest), ComparisonOperator::NotEqual)),
            None => Err(mismatch(Rule::ComparisonOperator, a)),
        },
    }
}

/// Reads the alternative `value operator value`.
fn comparison<'a>(input: &'a [char]) -> (r: Option<(&'a [char], SearchCondition)>)
    ensures
        matched(r) == spec_comparison(input@),
{
    match parse_value(input) {
        Ok((s1, left)) => match parse_comparison_operator(s1) {
            Ok((s2, op)) => match parse_value(s2) {
                Ok((s3, right)) => Some((s3, SearchCondition::ColumnComparison(left, op, right))),
                Err(_) => None,
            },
            Err(_) => None,
        },
        Err(_) => None,
    }
}

/// Reads whitespace and a value.
fn operand<'a>(input: &'a [char]) -> (r: Option<(&'a [char], Val)>)
    ensures
        matched(r) == spec_operand(input@),
{
    match whitespace1(input) {
        Ok(s1) => match parse_value(s1) {
            Ok(r) => Some(r),
            Err(_) => None,
        },
        Err(_) => None,
    }
}

/// Reads the connective `word` and one operand.
fn unary<'a>(input: &'a [char], word: &str) -> (r: Option<(&'a [char], Val)>)
    ensures
        matched(r) == spec_unary(input@, word@),
{
    match strip_prefix(input, word, false) {
        Some(rest) => operand(rest),
        None => None,
    }
}

/// Reads the connective `word` and two operands.
fn binary<'a>(input: &'a [char], word: &str) -> (r: Option<(&'a [char], (Val, Val))>)
    ensures
        match r {
            Some((rest, (left, right))) => spec_binary(input@, word@) == Some(
                (rest@, (left@, right@)),
            ),
            None => spec_binary(input@, word@) is None,
        },
{
    match unary(input, word) {
        Some((s1, left)) => match operand(s1) {
            Some((s2, right)) => Some((s2, (left, right))),
            None => None,
        },
        None => None,
    }
}

/// Reads a condition. The alternatives are tried in order and the first
/// that matches wins: `value operator value`; `AND`, whitespace, a value,
/// whitespace, a value; `OR` in the same form; `NOT`, whitespace, a value.
/// Where none matches the condition is `Empty` and nothing is consumed, so
/// this parser does not fail. The connectives are written in capitals.
pub fn parse_condition<'a>(input: &'a [char]) -> (r: (&'a [char], SearchCondition))
    ensures
        (r.0@, r.1@) == spec_parse_condition(input@),
{
    if let Some(r) = comparison(input) {
        r
    } else if let Some((rest, (left, right))) = binary(input, "AND") {
        (rest, SearchCondition::And(left, right))
    } else if let Some((rest, (left, right))) = binary(input, "OR") {
        (rest, SearchCondition::Or(left, right))
    } else if let Some((rest, operand)) = unary(input, "NOT") {
        (rest, SearchCondition::Not(operand))
    } else {
        (input, SearchCondition::Empty)
    }
}

} // verus!
