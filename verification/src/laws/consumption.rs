//! The parsers read from the front of their input: what they leave unread,
//! and what a mismatch reports, is the input from some point on.

use vstd::prelude::*;
use crate::condition::{
    spec_binary, spec_operand, spec_parse_comparison_operator, spec_parse_condition,
    spec_parse_value, spec_unary,
};
use crate::error::{ParseErrorView, Rule};
use crate::lexer::{
    has_prefix, has_prefix_no_case, spec_keyword, spec_scan_identifier, spec_scan_literal_body,
    spec_scan_literal_char, spec_scan_string_literal, spec_whitespace1,
};
use crate::statement::{
    lemma_column_consumes, spec_from_clause, spec_more_columns, spec_parse, spec_parse_columns,
    spec_parse_select, spec_where_clause,
};
use crate::text::{lemma_run_length, skip_whitespace, CharClass};

verus! {

/// Whether a failure, where it is a mismatch, reports the input `s` from
/// some point on.
pub open spec fn reports_within(e: ParseErrorView, s: Seq<char>) -> bool {
    e matches ParseErrorView::GrammarMismatch(_, rest) ==> rest.is_suffix_of(s)
}

/// A text without its first characters is a suffix of the text.
proof fn lemma_skip_is_suffix(s: Seq<char>, n: int)
    requires
        0 <= n <= s.len(),
    ensures
        s.skip(n).is_suffix_of(s),
{
}

/// A suffix of a suffix is a suffix.
proof fn lemma_suffix_of_suffix(a: Seq<char>, b: Seq<char>, c: Seq<char>)
    requires
        a.is_suffix_of(b),
        b.is_suffix_of(c),
    ensures
        a.is_suffix_of(c),
{
    assert(a =~= c.subrange(c.len() - a.len(), c.len() as int));
}

/// Whitespace, keywords and identifiers are read from the front.
proof fn lemma_words_stay_within(s: Seq<char>, word: Seq<char>, rule: Rule)
    ensures
        skip_whitespace(s).is_suffix_of(s),
        has_prefix(s, word) ==> s.skip(word.len() as int).is_suffix_of(s),
        has_prefix_no_case(s, word) ==> s.skip(word.len() as int).is_suffix_of(s),
        match spec_keyword(s, word, rule) {
            Ok(rest) => rest.is_suffix_of(s),
            Err(e) => reports_within(e, s),
        },
        match spec_whitespace1(s) {
            Ok(rest) => rest.is_suffix_of(s),
            Err(e) => reports_within(e, s),
        },
        match spec_scan_identifier(s) {
            Ok((rest, _)) => rest.is_suffix_of(s),
            Err(e) => reports_within(e, s),
        },
{
    lemma_run_length(s, CharClass::Whitespace);
    lemma_run_length(s, CharClass::Identifier);
    lemma_skip_is_suffix(s, 0);
    assert(s.skip(0) =~= s);
}

/// The body of a literal is read from the front, and its failures are no
/// mismatches.
proof fn lemma_literal_body_stays_within(s: Seq<char>)
    ensures
        match spec_scan_literal_body(s) {
            Ok((rest, _)) => rest.is_suffix_of(s),
            Err(e) => !(e is GrammarMismatch),
        },
    decreases s.len(),
{
    if s.len() > 0 && s[0] != '"' {
        if let Ok((k, c)) = spec_scan_literal_char(s) {
            let t = s.skip(k);
            if s[0] == '\\' && s[1] == 'u' {
                assert(s.skip(2).len() >= 4);
            }
            lemma_literal_body_stays_within(t);
            if let Ok((rest, _)) = spec_scan_literal_body(t) {
                lemma_suffix_of_suffix(rest, t, s);
            }
        }
    }
}

/// Values, literals and operands are read from the front.
proof fn lemma_value_stays_within(s: Seq<char>)
    ensures
        match spec_parse_value(s) {
            Ok((rest, _)) => rest.is_suffix_of(s),
            Err(e) => reports_within(e, s),
        },
        match spec_scan_string_literal(s) {
            Ok((rest, _)) => rest.is_suffix_of(s),
            Err(e) => reports_within(e, s),
        },
        match spec_operand(s) {
            Some((rest, _)) => rest.is_suffix_of(s),
            None => true,
        },
{
    lemma_words_stay_within(s, Seq::empty(), Rule::Whitespace);
    if s.len() > 0 && s[0] == '"' {
        lemma_literal_body_stays_within(s.skip(1));
        if let Ok((rest, _)) = spec_scan_literal_body(s.skip(1)) {
            lemma_suffix_of_suffix(rest, s.skip(1), s);
        }
    }
    if let Ok(s1) = spec_whitespace1(s) {
        lemma_words_stay_within(s1, Seq::empty(), Rule::Whitespace);
        if s1.len() > 0 && s1[0] == '"' {
            lemma_literal_body_stays_within(s1.skip(1));
            if let Ok((rest, _)) = spec_scan_literal_body(s1.skip(1)) {
                lemma_suffix_of_suffix(rest, s1.skip(1), s1);
            }
        }
        if let Ok((rest, _)) = spec_parse_value(s1) {
            lemma_suffix_of_suffix(rest, s1, s);
        }
    }
}

/// A comparison operator is read from the front.
proof fn lemma_operator_stays_within(s: Seq<char>)
    ensures
        match spec_parse_comparison_operator(s) {
            Ok((rest, _)) => rest.is_suffix_of(s),
            Err(e) => reports_within(e, s),
        },
{
    let a = skip_whitespace(s);
    lemma_words_stay_within(s, Seq::empty(), Rule::Whitespace);
    lemma_words_stay_within(a, "="@, Rule::Whitespace);
    lemma_words_stay_within(a, "!="@, Rule::Whitespace);
    if let Ok((rest, _)) = spec_parse_comparison_operator(s) {
        let after = if has_prefix(a, "="@) {
            a.skip("="@.len() as int)
        } else {
            a.skip("!="@.len() as int)
        };
        lemma_words_stay_within(after, Seq::empty(), Rule::Whitespace);
        lemma_suffix_of_suffix(rest, after, a);
        lemma_suffix_of_suffix(rest, a, s);
    }
}

/// A connective and its operands are read from the front.
proof fn lemma_connective_stays_within(s: Seq<char>, word: Seq<char>)
    ensures
        match spec_unary(s, word) {
            Some((rest, _)) => rest.is_suffix_of(s),
            None => true,
        },
        match spec_binary(s, word) {
            Some((rest, _)) => rest.is_suffix_of(s),
            None => true,
        },
{
    lemma_words_stay_within(s, word, Rule::Whitespace);
    if let Some((s1, _)) = spec_unary(s, word) {
        let after = s.skip(word.len() as int);
        lemma_value_stays_within(after);
        lemma_suffix_of_suffix(s1, after, s);
        lemma_value_stays_within(s1);
        if let Some((s2, _)) = spec_operand(s1) {
            lemma_suffix_of_suffix(s2, s1, s);
        }
    }
}

/// What a condition leaves unread is the input from some point on.
pub proof fn lemma_condition_stays_within(s: Seq<char>)
    ensures
        spec_parse_condition(s).0.is_suffix_of(s),
{
    lemma_words_stay_within(s, Seq::empty(), Rule::Whitespace);
    lemma_connective_stays_within(s, "AND"@);
    lemma_connective_stays_within(s, "OR"@);
    lemma_connective_stays_within(s, "NOT"@);
    lemma_value_stays_within(s);
    if let Ok((s1, _)) = spec_parse_value(s) {
        lemma_operator_stays_within(s1);
        if let Ok((s2, _)) = spec_parse_comparison_operator(s1) {
            lemma_value_stays_within(s2);
            if let Ok((s3, _)) = spec_parse_value(s2) {
                lemma_suffix_of_suffix(s3, s2, s1);
                lemma_suffix_of_suffix(s3, s1, s);
            }
        }
    }
}

/// The columns after the first are read from the front.
proof fn lemma_more_columns_stay_within(s: Seq<char>)
    ensures
        spec_more_columns(s).0.is_suffix_of(s),
    decreases s.len(),
{
    lemma_words_stay_within(s, Seq::empty(), Rule::Whitespace);
    let a = skip_whitespace(s);
    if a.len() > 0 && a[0] == ',' {
        let b = skip_whitespace(a.skip(1));
        lemma_words_stay_within(a.skip(1), Seq::empty(), Rule::Whitespace);
        lemma_words_stay_within(b, Seq::empty(), Rule::Whitespace);
        if let Ok((rest, name)) = spec_scan_identifier(b) {
            lemma_column_consumes(s);
            lemma_more_columns_stay_within(rest);
            lemma_skip_is_suffix(a, 1);
            lemma_suffix_of_suffix(rest, b, a.skip(1));
            lemma_suffix_of_suffix(rest, a.skip(1), a);
            lemma_suffix_of_suffix(rest, a, s);
            lemma_suffix_of_suffix(spec_more_columns(rest).0, rest, s);
        }
    }
}

/// A statement is read from the front of its text: what is left unread,
/// and what a mismatch reports, is the text from some point on.
pub proof fn lemma_statement_stays_within(s: Seq<char>)
    ensures
        match spec_parse_select(s) {
            Ok((rest, _)) => rest.is_suffix_of(s),
            Err(e) => reports_within(e, s),
        },
        spec_parse(s) matches Err(e) ==> reports_within(e, s),
{
    lemma_words_stay_within(s, "SELECT"@, Rule::SelectKeyword);
    if let Ok(s1) = spec_keyword(s, "SELECT"@, Rule::SelectKeyword) {
        lemma_words_stay_within(s1, Seq::empty(), Rule::Whitespace);
        if let Ok(s2) = spec_whitespace1(s1) {
            lemma_suffix_of_suffix(s2, s1, s);
            lemma_words_stay_within(s2, Seq::empty(), Rule::Whitespace);
            let s3 = spec_parse_columns(s2).0;
            if let Ok((after, _)) = spec_scan_identifier(s2) {
                lemma_more_columns_stay_within(after);
                lemma_suffix_of_suffix(s3, after, s2);
            }
            lemma_suffix_of_suffix(s3, s2, s);
            lemma_from_stays_within(s3);
            match spec_from_clause(s3) {
                Ok((s4, _)) => {
                    lemma_suffix_of_suffix(s4, s3, s);
                    lemma_where_stays_within(s4);
                    lemma_suffix_of_suffix(spec_where_clause(s4).0, s4, s);
                },
                Err(ParseErrorView::GrammarMismatch(_, rest)) => {
                    lemma_suffix_of_suffix(rest, s3, s);
                },
                Err(_) => {},
            }
        } else {
            let rest = spec_whitespace1(s1)->Err_0->GrammarMismatch_1;
            lemma_suffix_of_suffix(rest, s1, s);
        }
    }
}

/// The `FROM` clause is read from the front.
proof fn lemma_from_stays_within(s: Seq<char>)
    ensures
        match spec_from_clause(s) {
            Ok((rest, _)) => rest.is_suffix_of(s),
            Err(e) => reports_within(e, s),
        },
{
    lemma_words_stay_within(s, Seq::empty(), Rule::Whitespace);
    if let Ok(s1) = spec_whitespace1(s) {
        lemma_words_stay_within(s1, "FROM"@, Rule::FromKeyword);
        match spec_keyword(s1, "FROM"@, Rule::FromKeyword) {
            Ok(s2) => {
                lemma_suffix_of_suffix(s2, s1, s);
                lemma_words_stay_within(s2, Seq::empty(), Rule::Whitespace);
                match spec_whitespace1(s2) {
                    Ok(s3) => {
                        lemma_suffix_of_suffix(s3, s2, s);
                        lemma_words_stay_within(s3, Seq::empty(), Rule::Whitespace);
                        if let Ok((rest, _)) = spec_scan_identifier(s3) {
                            lemma_suffix_of_suffix(rest, s3, s);
                        }
                    },
                    Err(ParseErrorView::GrammarMismatch(_, rest)) => {
                        lemma_suffix_of_suffix(rest, s2, s);
                    },
                    Err(_) => {},
                }
            },
            Err(ParseErrorView::GrammarMismatch(_, rest)) => {
                lemma_suffix_of_suffix(rest, s1, s);
            },
            Err(_) => {},
        }
    }
}

/// The `WHERE` clause is read from the front.
proof fn lemma_where_stays_within(s: Seq<char>)
    ensures
        spec_where_clause(s).0.is_suffix_of(s),
{
    lemma_words_stay_within(s, Seq::empty(), Rule::Whitespace);
    let a = skip_whitespace(s);
    lemma_words_stay_within(a, "WHERE"@, Rule::Whitespace);
    if has_prefix_no_case(a, "WHERE"@) {
        let b = a.skip("WHERE"@.len() as int);
        lemma_words_stay_within(b, Seq::empty(), Rule::Whitespace);
        if let Ok(s1) = spec_whitespace1(b) {
            lemma_condition_stays_within(s1);
            let rest = spec_parse_condition(s1).0;
            lemma_suffix_of_suffix(rest, s1, b);
            lemma_suffix_of_suffix(rest, b, a);
            lemma_suffix_of_suffix(rest, a, s);
        }
    }
}

} // verus!
