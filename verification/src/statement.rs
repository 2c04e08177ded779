//! The statement grammar: `SELECT` list, `FROM` table, optional `WHERE`
//! condition.

use vstd::prelude::*;
use crate::ast::{
    columns_view, Column, ColumnView, SearchCondition, SearchConditionView, SelectStatement,
    SelectStatementView,
};
use crate::condition::{parse_condition, spec_parse_condition};
use crate::error::{parsed, ParseError, ParseErrorView, Rule};
use crate::laws::well_formed::lemma_statement_read_is_well_formed;
use crate::lexer::{
    has_prefix_no_case, keyword, scan_identifier, spec_keyword, spec_scan_identifier,
    spec_whitespace1, strip_prefix, whitespace1,
};
use crate::text::{
    chars_of, lemma_run_length, skip_whitespace, tail, trim_whitespace, CharClass,
};

verus! {

/// The columns that follow the first one, each after a comma with any
/// whitespace around it. A comma that no identifier follows is not consumed.
pub open spec fn spec_more_columns(s: Seq<char>) -> (Seq<char>, Seq<ColumnView>)
    decreases s.len(),
{
    let a = skip_whitespace(s);
    if a.len() > 0 && a[0] == ',' {
        match spec_scan_identifier(skip_whitespace(a.skip(1))) {
            Ok((rest, name)) => {
                proof {
                    lemma_column_consumes(s);
                }
                (
                    spec_more_columns(rest).0,
                    seq![ColumnView::ColumnName(name)] + spec_more_columns(rest).1,
                )
            },
            Err(_) => (s, Seq::empty()),
        }
    } else {
        (s, Seq::empty())
    }
}

/// A comma and an identifier consume at least two characters.
pub proof fn lemma_column_consumes(s: Seq<char>)
    ensures
        ({
            let a = skip_whitespace(s);
            a.len() > 0 ==> (#[trigger] spec_scan_identifier(
                skip_whitespace(a.skip(1)),
            ) matches Ok((rest, _)) ==> rest.len() + 2 <= s.len())
        }),
{
    let a = skip_whitespace(s);
    lemma_run_length(s, CharClass::Whitespace);
    if a.len() > 0 {
        let b = skip_whitespace(a.skip(1));
        lemma_run_length(a.skip(1), CharClass::Whitespace);
        lemma_run_length(b, CharClass::Identifier);
    }
}

/// A list of columns separated by commas. The list may be empty.
pub open spec fn spec_parse_columns(s: Seq<char>) -> (Seq<char>, Seq<ColumnView>) {
    match spec_scan_identifier(s) {
        Ok((rest, name)) => (
            spec_more_columns(rest).0,
            seq![ColumnView::ColumnName(name)] + spec_more_columns(rest).1,
        ),
        Err(_) => (s, Seq::empty()),
    }
}

/// `SELECT` in any case, whitespace, and the list of columns.
pub open spec fn spec_select_list(s: Seq<char>) -> Result<
    (Seq<char>, Seq<ColumnView>),
    ParseErrorView,
> {
    match spec_keyword(s, "SELECT"@, Rule::SelectKeyword) {
        Ok(s1) => match spec_whitespace1(s1) {
            Ok(s2) => Ok(spec_parse_columns(s2)),
            Err(e) => Err(e),
        },
        Err(e) => Err(e),
    }
}

/// Whitespace, `FROM` in any case, whitespace, and the table's identifier.
pub open spec fn spec_from_clause(s: Seq<char>) -> Result<(Seq<char>, Seq<char>), ParseErrorView> {
    match spec_whitespace1(s) {
        Ok(s1) => match spec_keyword(s1, "FROM"@, Rule::FromKeyword) {
            Ok(s2) => match spec_whitespace1(s2) {
                Ok(s3) => spec_scan_identifier(s3),
                Err(e) => Err(e),
            },
            Err(e) => Err(e),
        },
        Err(e) => Err(e),
    }
}

/// The optional clause: any whitespace, `WHERE` in any case, whitespace and
/// a condition. Where the clause is absent nothing is consumed and the
/// condition is `Empty`.
pub open spec fn spec_where_clause(s: Seq<char>) -> (Seq<char>, SearchConditionView) {
    let a = skip_whitespace(s);
    if has_prefix_no_case(a, "WHERE"@) {
        match spec_whitespace1(a.skip("WHERE"@.len() as int)) {
            Ok(s1) => spec_parse_condition(s1),
            Err(_) => (s, SearchConditionView::Empty),
        }
    } else {
        (s, SearchConditionView::Empty)
    }
}

/// A statement: the select list, the table and the optional condition.
pub open spec fn spec_parse_select(s: Seq<char>) -> Result<
    (Seq<char>, SelectStatementView),
    ParseErrorView,
> {
    match spec_select_list(s) {
        Ok((s1, columns)) => match spec_from_clause(s1) {
            Ok((s2, table)) => Ok(
                (
                    spec_where_clause(s2).0,
                    SelectStatementView {
                        columns,
                        table,
                        where_clause: Some(spec_where_clause(s2).1),
                    },
                ),
            ),
            Err(e) => Err(e),
        },
        Err(e) => Err(e),
    }
}

/// The statement that a text starts with.
pub open spec fn spec_parse(s: Seq<char>) -> Result<SelectStatementView, ParseErrorView> {
    match spec_parse_select(s) {
        Ok((_, statement)) => Ok(statement),
        Err(e) => Err(e),
    }
}

/// `outcome` with `first` put before its columns.
pub open spec fn after_columns(first: Seq<ColumnView>, outcome: (Seq<char>, Seq<ColumnView>)) -> (
    Seq<char>,
    Seq<ColumnView>,
) {
    (outcome.0, first + outcome.1)
}

/// Reads a list of columns separated by commas, with any whitespace around
/// each comma. The list may be empty, and a comma that no identifier
/// follows is left unread, so this parser does not fail.
pub fn parse_columns<'a>(input: &'a [char]) -> (r: (&'a [char], Vec<Column>))
    ensures
        (r.0@, columns_view(r.1@)) == spec_parse_columns(input@),
{
    let mut columns: Vec<Column> = Vec::new();
    let mut rest = input;
    match scan_identifier(input) {
        Ok((after, name)) => {
            columns.push(Column::ColumnName(name));
            rest = after;
            assert(columns_view(columns@) =~= seq![ColumnView::ColumnName(name@)]);
        },
        Err(_) => {
            assert(columns_view(columns@) =~= Seq::<ColumnView>::empty());
            return (input, columns);
        },
    }
    loop
        invariant
            spec_parse_columns(input@) == after_columns(
                columns_view(columns@),
                spec_more_columns(rest@),
            ),
        decreases rest@.len(),
    {
        let ghost before = columns_view(columns@);
        let a = trim_whitespace(rest);
        if a.len() == 0 || a[0] != ',' {
            assert(before + Seq::<ColumnView>::empty() =~= before);
            return (rest, columns);
        }
        match scan_identifier(trim_whitespace(tail(a, 1))) {
            Ok((after, name)) => {
                proof {
                    lemma_column_consumes(rest@);
                    assert(before + (seq![ColumnView::ColumnName(name@)] + spec_more_columns(
                        after@,
                    ).1) =~= before.push(ColumnView::ColumnName(name@)) + spec_more_columns(
                        after@,
                    ).1);
                }
                columns.push(Column::ColumnName(name));
                rest = after;
                assert(columns_view(columns@) =~= before.push(ColumnView::ColumnName(name@)));
            },
            Err(_) => {
                assert(before + Seq::<ColumnView>::empty() =~= before);
                return (rest, columns);
            },
        }
    }
}

/// Reads `SELECT`, whitespace and the list of columns.
fn select_list<'a>(input: &'a [char]) -> (r: Result<(&'a [char], Vec<Column>), ParseError>)
    ensures
        match r {
            Ok((rest, columns)) => spec_select_list(input@) == Ok::<_, ParseErrorView>(
                (rest@, columns_view(columns@)),
            ),
            Err(e) => spec_select_list(input@) == Err::<(Seq<char>, Seq<ColumnView>), _>(e@),
        },
{
    match keyword(input, "SELECT", Rule::SelectKeyword) {
        Ok(s1) => match whitespace1(s1) {
            Ok(s2) => Ok(parse_columns(s2)),
            Err(e) => Err(e),
        },
        Err(e) => Err(e),
    }
}

/// Reads whitespace, `FROM`, whitespace and the table.
fn from_clause<'a>(input: &'a [char]) -> (r: Result<(&'a [char], String), ParseError>)
    ensures
        parsed(r) == spec_from_clause(input@),
{
    match whitespace1(input) {
        Ok(s1) => match keyword(s1, "FROM", Rule::FromKeyword) {
            Ok(s2) => match whitespace1(s2) {
                Ok(s3) => scan_identifier(s3),
                Err(e) => Err(e),
            },
            Err(e) => Err(e),
        },
        Err(e) => Err(e),
    }
}

/// Reads the optional `WHERE` clause.
fn where_clause<'a>(input: &'a [char]) -> (r: (&'a [char], SearchCondition))
    ensures
        (r.0@, r.1@) == spec_where_clause(input@),
{
    match strip_prefix(trim_whitespace(input), "WHERE", true) {
        Some(s1) => match whitespace1(s1) {
            Ok(s2) => parse_condition(s2),
            Err(_) => (input, SearchCondition::Empty),
        },
        None => (input, SearchCondition::Empty),
    }
}

/// Reads a statement from the start of `input`:
/// `SELECT`, whitespace, a list of columns, whitespace, `FROM`, whitespace,
/// the table, and optionally whitespace, `WHERE`, whitespace and a
/// condition. The keywords match in any case. A statement without a
/// `WHERE` clause has the condition `Some(Empty)`. The first step that does
/// not match is the failure of the whole.
pub fn parse_select<'a>(input: &'a [char]) -> (r: Result<(&'a [char], SelectStatement), ParseError>)
    ensures
        parsed(r) == spec_parse_select(input@),
        r matches Ok((_, statement)) ==> statement@.well_formed(),
{
    proof {
        lemma_statement_read_is_well_formed(input@);
    }
    match select_list(input) {
        Ok((s1, columns)) => match from_clause(s1) {
            Ok((s2, table)) => {
                let (rest, condition) = where_clause(s2);
                Ok((rest, SelectStatement { columns, table, where_clause: Some(condition) }))
            },
            Err(e) => Err(e),
        },
        Err(e) => Err(e),
    }
}

/// Parses the statement that `sql_text` starts with. Text after the
/// statement is not read.
pub fn parse(sql_text: &str) -> (r: Result<SelectStatement, ParseError>)
    ensures
        match r {
            Ok(statement) => spec_parse(sql_text@) == Ok::<_, ParseErrorView>(statement@),
            Err(e) => spec_parse(sql_text@) == Err::<SelectStatementView, _>(e@),
        },
        r matches Ok(statement) ==> statement@.well_formed(),
{
    let chars = chars_of(sql_text);
    match parse_select(chars.as_slice()) {
        Ok((_, statement)) => Ok(statement),
        Err(e) => Err(e),
    }
}

} // verus!
