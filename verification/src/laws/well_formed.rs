//! Every name that the parser gives is an identifier.

use vstd::prelude::*;
use crate::ast::ColumnView;
use crate::condition::{
    spec_binary, spec_operand, spec_parse_comparison_operator, spec_parse_condition,
    spec_parse_value, spec_unary,
};
use crate::error::Rule;
use crate::lexer::{has_prefix_no_case, spec_keyword, spec_scan_identifier, spec_whitespace1};
use crate::statement::{
    lemma_column_consumes, spec_from_clause, spec_more_columns, spec_parse, spec_parse_select,
    spec_select_list,
};
use crate::text::{is_identifier, lemma_run_length, run_length, skip_whitespace, CharClass};

verus! {

/// An identifier that was read is an identifier: it is never empty.
pub proof fn lemma_identifier_read_is_identifier(s: Seq<char>)
    ensures
        spec_scan_identifier(s) matches Ok((_, name)) ==> is_identifier(name),
        spec_parse_value(s) matches Ok((_, value)) ==> value.well_formed(),
{
    lemma_run_length(s, CharClass::Identifier);
}

/// A condition that was read is well formed.
pub proof fn lemma_condition_read_is_well_formed(s: Seq<char>)
    ensures
        spec_parse_condition(s).1.well_formed(),
{
    lemma_identifier_read_is_identifier(s);
    if let Ok((s1, _)) = spec_parse_value(s) {
        if let Ok((s2, _)) = spec_parse_comparison_operator(s1) {
            lemma_identifier_read_is_identifier(s2);
        }
    }
    lemma_unary_read_is_well_formed(s, "AND"@);
    lemma_unary_read_is_well_formed(s, "OR"@);
    lemma_unary_read_is_well_formed(s, "NOT"@);
}

/// An operand that was read is well formed.
proof fn lemma_operand_read_is_well_formed(s: Seq<char>)
    ensures
        spec_operand(s) matches Some((_, value)) ==> value.well_formed(),
{
    if let Ok(s1) = spec_whitespace1(s) {
        lemma_identifier_read_is_identifier(s1);
    }
}

/// The operands of a connective that were read are well formed.
proof fn lemma_unary_read_is_well_formed(s: Seq<char>, word: Seq<char>)
    ensures
        spec_unary(s, word) matches Some((_, value)) ==> value.well_formed(),
        spec_binary(s, word) matches Some((_, (left, right))) ==> left.well_formed()
            && right.well_formed(),
{
    lemma_operand_read_is_well_formed(s.skip(word.len() as int));
    if let Some((s1, _)) = spec_unary(s, word) {
        lemma_operand_read_is_well_formed(s1);
    }
}

/// The columns after the first that were read are well formed.
proof fn lemma_more_columns_read_are_well_formed(s: Seq<char>)
    ensures
        forall|i: int|
            0 <= i < spec_more_columns(s).1.len() ==> (#[trigger] spec_more_columns(
                s,
            ).1[i]).well_formed(),
    decreases s.len(),
{
    let a = skip_whitespace(s);
    if a.len() > 0 && a[0] == ',' {
        let b = skip_whitespace(a.skip(1));
        if let Ok((rest, name)) = spec_scan_identifier(b) {
            lemma_column_consumes(s);
            lemma_identifier_read_is_identifier(b);
            lemma_more_columns_read_are_well_formed(rest);
            let more = spec_more_columns(rest).1;
            let all = spec_more_columns(s).1;
            assert(all == seq![ColumnView::ColumnName(name)] + more);
            assert forall|i: int| 0 <= i < all.len() implies (#[trigger] all[i]).well_formed() by {
                if i > 0 {
                    assert(all[i] == more[i - 1]);
                }
            }
        }
    }
}

/// A statement that was read is well formed: the parser gives no empty
/// name.
pub proof fn lemma_statement_read_is_well_formed(s: Seq<char>)
    ensures
        spec_parse_select(s) matches Ok((_, statement)) ==> statement.well_formed(),
        spec_parse(s) matches Ok(statement) ==> statement.well_formed(),
{
    if let Ok((s1, columns)) = spec_select_list(s) {
        let s2 = spec_whitespace1(spec_keyword(s, "SELECT"@, Rule::SelectKeyword)->Ok_0)->Ok_0;
        lemma_identifier_read_is_identifier(s2);
        if let Ok((rest, name)) = spec_scan_identifier(s2) {
            lemma_more_columns_read_are_well_formed(rest);
            let more = spec_more_columns(rest).1;
            assert(columns == seq![ColumnView::ColumnName(name)] + more);
            assert forall|i: int| 0 <= i < columns.len() implies (
            #[trigger] columns[i]).well_formed() by {
                if i > 0 {
                    assert(columns[i] == more[i - 1]);
                }
            }
        }
        if let Ok((s3, table)) = spec_from_clause(s1) {
            let named = spec_whitespace1(
                spec_keyword(spec_whitespace1(s1)->Ok_0, "FROM"@, Rule::FromKeyword)->Ok_0,
            )->Ok_0;
            lemma_identifier_read_is_identifier(named);
            let a = skip_whitespace(s3);
            if has_prefix_no_case(a, "WHERE"@) {
                if let Ok(s4) = spec_whitespace1(a.skip("WHERE"@.len() as int)) {
                    lemma_condition_read_is_well_formed(s4);
                }
            }
        }
    }
}

/// A statement that was read has at least one column: after `SELECT` all
/// whitespace is skipped, so an empty list leaves none before `FROM`.
pub proof fn lemma_statement_read_has_a_column(s: Seq<char>)
    ensures
        spec_parse_select(s) matches Ok((_, statement)) ==> statement.columns.len() > 0,
        spec_parse(s) matches Ok(statement) ==> statement.columns.len() > 0,
{
    if let Ok(s1) = spec_keyword(s, "SELECT"@, Rule::SelectKeyword) {
        if let Ok(s2) = spec_whitespace1(s1) {
            lemma_run_length(s1, CharClass::Whitespace);
            if spec_scan_identifier(s2) is Err {
                assert(s2.len() > 0 ==> s2[0] == s1[run_length(s1, CharClass::Whitespace) as int]);
                assert(spec_whitespace1(s2) is Err);
            }
        }
    }
}

} // verus!
