//! Parsing gives back a statement from its rendered text.

use vstd::prelude::*;
use crate::ast::{
    is_hex_digest, ColumnView, ComparisonOperator, HashedColumnView, HashedSelectStatementView,
    SearchConditionView, SelectStatementView, ValView,
};
use crate::condition::{
    spec_binary, spec_comparison, spec_operand, spec_parse_comparison_operator,
    spec_parse_condition, spec_parse_value,
};
use crate::error::{ParseErrorView, Rule};
use crate::laws::well_formed::{
    lemma_statement_read_has_a_column, lemma_statement_read_is_well_formed,
};
use crate::lexer::{
    has_prefix, has_prefix_no_case, spec_keyword, spec_scan_identifier, spec_whitespace1,
};
use crate::render::{
    digests, names, spec_more_names, spec_render, spec_render_original, spec_render_where,
};
use crate::statement::{
    spec_from_clause, spec_more_columns, spec_parse, spec_parse_columns, spec_select_list,
    spec_where_clause,
};
use crate::text::{
    in_class, is_identifier, lemma_run_of_concat, skip_whitespace, starts_outside, CharClass,
};

verus! {

/// A reference to the column `name`.
pub open spec fn column_ref(name: Seq<char>) -> ValView {
    ValView::Column(ColumnView::ColumnName(name))
}

/// The conditions that parsing gives back from their rendered text: no
/// condition written as `Empty`; a comparison of two columns; `NOT` of a
/// column; and `AND` or `OR` of two columns of which the first bears the
/// connective's own name.
pub open spec fn condition_reads_back(condition: SearchConditionView) -> bool {
    match condition {
        SearchConditionView::Empty => true,
        SearchConditionView::ColumnComparison(
            ValView::Column(left),
            _,
            ValView::Column(right),
        ) => is_identifier(left.name()) && is_identifier(right.name()),
        SearchConditionView::Not(ValView::Column(operand)) => is_identifier(operand.name()),
        SearchConditionView::And(ValView::Column(left), ValView::Column(right)) => left.name()
            == "AND"@ && is_identifier(right.name()),
        SearchConditionView::Or(ValView::Column(left), ValView::Column(right)) => left.name()
            == "OR"@ && is_identifier(right.name()),
        _ => false,
    }
}

/// The statements that parsing gives back from their rendered text: at
/// least one column, identifiers for every name, and a condition that reads
/// back.
pub open spec fn statement_reads_back(statement: SelectStatementView) -> bool {
    &&& names_read_back(statement)
    &&& statement.where_clause matches Some(condition) && condition_reads_back(condition)
}

/// A text that starts with a word has it as a prefix, in any case, and
/// the rest follows it.
proof fn lemma_keyword_accepts(word: Seq<char>, rest: Seq<char>, rule: Rule)
    ensures
        has_prefix(word + rest, word),
        has_prefix_no_case(word + rest, word),
        (word + rest).skip(word.len() as int) == rest,
        spec_keyword(word + rest, word, rule) == Ok::<_, ParseErrorView>(rest),
{
    let s = word + rest;
    assert forall|i: int| 0 <= i < word.len() implies s[i] == word[i] by {}
    assert(s.skip(word.len() as int) =~= rest);
}

/// One space before a text that starts with no whitespace is all the
/// whitespace there is.
proof fn lemma_space_accepts(rest: Seq<char>)
    requires
        starts_outside(rest, CharClass::Whitespace),
    ensures
        spec_whitespace1(seq![' '] + rest) == Ok::<_, ParseErrorView>(rest),
        skip_whitespace(seq![' '] + rest) == rest,
        skip_whitespace(rest) == rest,
{
    lemma_run_of_concat(seq![' '], rest, CharClass::Whitespace);
    lemma_run_of_concat(Seq::empty(), rest, CharClass::Whitespace);
    assert(Seq::<char>::empty() + rest =~= rest);
    assert(rest.skip(0) =~= rest);
}

/// An identifier before a text that starts with no identifier character
/// is read as it stands.
proof fn lemma_identifier_accepts(name: Seq<char>, rest: Seq<char>)
    requires
        is_identifier(name),
        starts_outside(rest, CharClass::Identifier),
    ensures
        spec_scan_identifier(name + rest) == Ok::<_, ParseErrorView>((rest, name)),
        spec_parse_value(name + rest) == Ok::<_, ParseErrorView>((rest, column_ref(name))),
{
    lemma_run_of_concat(name, rest, CharClass::Identifier);
    assert((name + rest)[0] == name[0]);
}

/// A space and an identifier are read as an operand.
proof fn lemma_operand_accepts(name: Seq<char>, rest: Seq<char>)
    requires
        is_identifier(name),
        starts_outside(rest, CharClass::Identifier),
    ensures
        spec_operand(seq![' '] + (name + rest)) == Some((rest, column_ref(name))),
{
    assert((name + rest)[0] == name[0]);
    lemma_space_accepts(name + rest);
    lemma_identifier_accepts(name, rest);
}

/// No operator stands where, after a space, something else than `=` and
/// `!` follows.
proof fn lemma_operator_rejects(rest: Seq<char>)
    requires
        rest.len() > 0,
        in_class(rest[0], CharClass::Identifier),
    ensures
        spec_parse_comparison_operator(seq![' '] + rest) is Err,
{
    reveal_strlit("=");
    reveal_strlit("!=");
    lemma_space_accepts(rest);
}

/// Two identifiers with an operator between them are read as their
/// comparison.
proof fn lemma_comparison_reads_back(left: Seq<char>, op: ComparisonOperator, right: Seq<char>)
    requires
        is_identifier(left),
        is_identifier(right),
    ensures
        spec_parse_condition(left + op.spec_text() + right) == (
            Seq::<char>::empty(),
            SearchConditionView::ColumnComparison(column_ref(left), op, column_ref(right)),
        ),
{
    reveal_strlit("=");
    reveal_strlit("!=");
    let sign = op.spec_text();
    let s = left + sign + right;
    assert(s =~= left + (sign + right));
    assert((sign + right)[0] == sign[0]);
    lemma_identifier_accepts(left, sign + right);
    lemma_space_accepts(sign + right);
    lemma_keyword_accepts(sign, right, Rule::ComparisonOperator);
    assert(in_class(right[0], CharClass::Identifier));
    lemma_space_accepts(right);
    assert(right + Seq::<char>::empty() =~= right);
    lemma_identifier_accepts(right, Seq::empty());
    if op == ComparisonOperator::NotEqual {
        assert(!has_prefix(sign + right, "="@)) by {
            assert((sign + right)[0] != "="@[0]);
        }
    }
    assert(spec_parse_comparison_operator(sign + right) == Ok::<_, ParseErrorView>((right, op)));
}

/// A connective word, a space and a column name: no comparison starts
/// there.
proof fn lemma_word_is_no_comparison(word: Seq<char>, rest: Seq<char>)
    requires
        is_identifier(word),
        rest.len() > 0,
        in_class(rest[0], CharClass::Identifier),
    ensures
        spec_comparison(word + (seq![' '] + rest)) is None,
{
    lemma_identifier_accepts(word, seq![' '] + rest);
    lemma_operator_rejects(rest);
}

/// `NOT`, a space and an identifier are read as the negation.
proof fn lemma_not_reads_back(operand: Seq<char>)
    requires
        is_identifier(operand),
    ensures
        spec_parse_condition("NOT "@ + operand) == (
            Seq::<char>::empty(),
            SearchConditionView::Not(column_ref(operand)),
        ),
{
    reveal_strlit("NOT ");
    reveal_strlit("NOT");
    reveal_strlit("AND");
    reveal_strlit("OR");
    let s = "NOT "@ + operand;
    assert(s =~= "NOT"@ + (seq![' '] + operand));
    assert(in_class(operand[0], CharClass::Identifier));
    lemma_word_is_no_comparison("NOT"@, operand);
    assert(!has_prefix(s, "AND"@)) by {
        assert(s[0] != "AND"@[0]);
    }
    assert(!has_prefix(s, "OR"@)) by {
        assert(s[0] != "OR"@[0]);
    }
    lemma_keyword_accepts("NOT"@, seq![' '] + operand, Rule::Whitespace);
    assert(operand + Seq::<char>::empty() =~= operand);
    lemma_operand_accepts(operand, Seq::empty());
}

/// `AND AND` and an identifier are read as `AND` of the column `AND` and
/// the identifier.
proof fn lemma_and_reads_back(right: Seq<char>)
    requires
        is_identifier(right),
    ensures
        spec_parse_condition("AND"@ + " AND "@ + right) == (
            Seq::<char>::empty(),
            SearchConditionView::And(column_ref("AND"@), column_ref(right)),
        ),
{
    reveal_strlit("AND");
    reveal_strlit(" AND ");
    let s = "AND"@ + " AND "@ + right;
    let second = seq![' '] + right;
    let first = seq![' '] + ("AND"@ + second);
    assert(s =~= "AND"@ + first);
    assert(in_class(right[0], CharClass::Identifier));
    assert(("AND"@ + second)[0] == 'A');
    lemma_word_is_no_comparison("AND"@, "AND"@ + second);
    lemma_keyword_accepts("AND"@, first, Rule::Whitespace);
    lemma_operand_accepts("AND"@, second);
    assert(second =~= seq![' '] + (right + Seq::<char>::empty()));
    lemma_operand_accepts(right, Seq::empty());
}

/// `OR OR` and an identifier are read as `OR` of the column `OR` and the
/// identifier.
proof fn lemma_or_reads_back(right: Seq<char>)
    requires
        is_identifier(right),
    ensures
        spec_parse_condition("OR"@ + " OR "@ + right) == (
            Seq::<char>::empty(),
            SearchConditionView::Or(column_ref("OR"@), column_ref(right)),
        ),
{
    reveal_strlit("AND");
    reveal_strlit("OR");
    reveal_strlit(" OR ");
    let s = "OR"@ + " OR "@ + right;
    let second = seq![' '] + right;
    let first = seq![' '] + ("OR"@ + second);
    assert(s =~= "OR"@ + first);
    assert(in_class(right[0], CharClass::Identifier));
    assert(("OR"@ + second)[0] == 'O');
    lemma_word_is_no_comparison("OR"@, "OR"@ + second);
    assert(!has_prefix(s, "AND"@)) by {
        assert(s[0] != "AND"@[0]);
    }
    lemma_keyword_accepts("OR"@, first, Rule::Whitespace);
    lemma_operand_accepts("OR"@, second);
    assert(second =~= seq![' '] + (right + Seq::<char>::empty()));
    lemma_operand_accepts(right, Seq::empty());
}

/// The text that follows ` WHERE ` in a rendered clause.
pub open spec fn condition_text(condition: SearchConditionView) -> Seq<char> {
    match condition {
        SearchConditionView::ColumnComparison(left, op, right) => left.text() + op.spec_text()
            + right.text(),
        SearchConditionView::And(left, right) => left.text() + " AND "@ + right.text(),
        SearchConditionView::Or(left, right) => left.text() + " OR "@ + right.text(),
        SearchConditionView::Not(operand) => "NOT "@ + operand.text(),
        SearchConditionView::Empty => Seq::empty(),
    }
}

/// A condition that reads back is read from the text after ` WHERE `.
proof fn lemma_condition_reads_back(condition: SearchConditionView)
    requires
        condition_reads_back(condition),
        condition != SearchConditionView::Empty,
    ensures
        spec_parse_condition(condition_text(condition)) == (Seq::<char>::empty(), condition),
        condition_text(condition).len() > 0,
        in_class(condition_text(condition)[0], CharClass::Identifier),
        spec_render_where(Some(condition)) == " WHERE "@ + condition_text(condition),
{
    reveal_strlit(" WHERE ");
    reveal_strlit(" WHERE NOT ");
    reveal_strlit("NOT ");
    match condition {
        SearchConditionView::ColumnComparison(
            ValView::Column(left),
            op,
            ValView::Column(right),
        ) => {
            lemma_comparison_reads_back(left.name(), op, right.name());
            assert(condition_text(condition)[0] == left.name()[0]);
            assert(spec_render_where(Some(condition)) =~= " WHERE "@ + condition_text(condition));
        },
        SearchConditionView::Not(ValView::Column(operand)) => {
            lemma_not_reads_back(operand.name());
            assert(spec_render_where(Some(condition)) =~= " WHERE "@ + condition_text(condition));
        },
        SearchConditionView::And(ValView::Column(left), ValView::Column(right)) => {
            reveal_strlit("AND");
            lemma_and_reads_back(right.name());
            assert(condition_text(condition)[0] == 'A');
            assert(spec_render_where(Some(condition)) =~= " WHERE "@ + condition_text(condition));
        },
        SearchConditionView::Or(ValView::Column(left), ValView::Column(right)) => {
            reveal_strlit("OR");
            lemma_or_reads_back(right.name());
            assert(condition_text(condition)[0] == 'O');
            assert(spec_render_where(Some(condition)) =~= " WHERE "@ + condition_text(condition));
        },
        _ => {},
    }
}

/// A condition that reads back is read from its rendered clause.
proof fn lemma_where_reads_back(condition: SearchConditionView)
    requires
        condition_reads_back(condition),
    ensures
        spec_where_clause(spec_render_where(Some(condition))).1 == condition,
        starts_outside(spec_render_where(Some(condition)), CharClass::Identifier),
{
    reveal_strlit("WHERE");
    reveal_strlit(" WHERE ");
    let w = spec_render_where(Some(condition));
    if condition == SearchConditionView::Empty {
        lemma_space_accepts(w);
    } else {
        lemma_condition_reads_back(condition);
        let text = condition_text(condition);
        assert(w =~= seq![' '] + ("WHERE"@ + (seq![' '] + text)));
        assert(("WHERE"@ + (seq![' '] + text))[0] == 'W');
        lemma_space_accepts("WHERE"@ + (seq![' '] + text));
        lemma_keyword_accepts("WHERE"@, seq![' '] + text, Rule::Whitespace);
        lemma_space_accepts(text);
    }
}

/// ` FROM `, an identifier and a text that starts with no identifier
/// character are read as the table; no further column starts there.
proof fn lemma_from_reads_back(table: Seq<char>, rest: Seq<char>)
    requires
        is_identifier(table),
        starts_outside(rest, CharClass::Identifier),
    ensures
        spec_from_clause(" FROM "@ + table + rest) == Ok::<_, ParseErrorView>((rest, table)),
        spec_more_columns(" FROM "@ + table + rest) == (
            " FROM "@ + table + rest,
            Seq::<ColumnView>::empty(),
        ),
        starts_outside(" FROM "@ + table + rest, CharClass::Identifier),
{
    reveal_strlit("FROM");
    reveal_strlit(" FROM ");
    let s = " FROM "@ + table + rest;
    let named = table + rest;
    assert(s =~= seq![' '] + ("FROM"@ + (seq![' '] + named)));
    assert(("FROM"@ + (seq![' '] + named))[0] == 'F');
    lemma_space_accepts("FROM"@ + (seq![' '] + named));
    lemma_keyword_accepts("FROM"@, seq![' '] + named, Rule::FromKeyword);
    assert(named[0] == table[0]);
    lemma_space_accepts(named);
    lemma_identifier_accepts(table, rest);
}

/// Names written after commas are read as the columns of those names.
proof fn lemma_more_columns_read_back(columns: Seq<ColumnView>, rest: Seq<char>)
    requires
        forall|i: int| 0 <= i < columns.len() ==> is_identifier(#[trigger] columns[i].name()),
        starts_outside(rest, CharClass::Identifier),
        rest.len() == 0 || rest[0] != ',',
        spec_more_columns(rest) == (rest, Seq::<ColumnView>::empty()),
    ensures
        spec_more_columns(spec_more_names(names(columns)) + rest) == (rest, columns),
        starts_outside(spec_more_names(names(columns)) + rest, CharClass::Identifier),
    decreases columns.len(),
{
    reveal_strlit(",");
    let list = names(columns);
    let s = spec_more_names(list) + rest;
    if columns.len() == 0 {
        assert(s =~= rest);
    } else {
        let name = columns[0].name();
        let others = columns.skip(1);
        assert(list[0] == name);
        assert(list.skip(1) =~= names(others));
        assert forall|i: int| 0 <= i < others.len() implies is_identifier(
            #[trigger] others[i].name(),
        ) by {
            assert(others[i] == columns[i + 1]);
        }
        lemma_more_columns_read_back(others, rest);
        let after = spec_more_names(names(others)) + rest;
        assert(s =~= seq![','] + (name + after));
        assert((name + after)[0] == name[0]);
        lemma_space_accepts(s);
        assert(s.skip(1) =~= name + after);
        lemma_space_accepts(name + after);
        lemma_identifier_accepts(name, after);
        assert(columns[0] == ColumnView::ColumnName(name));
        assert(seq![columns[0]] + others =~= columns);
    }
}

/// Whether the statement has at least one column and identifiers for the
/// names of its columns and of its table.
pub open spec fn names_read_back(statement: SelectStatementView) -> bool {
    &&& statement.columns.len() > 0
    &&& forall|i: int|
        0 <= i < statement.columns.len() ==> is_identifier(#[trigger] statement.columns[i].name())
    &&& is_identifier(statement.table)
}

/// Whether every operand of the condition is a column.
pub open spec fn compares_columns(condition: SearchConditionView) -> bool {
    match condition {
        SearchConditionView::ColumnComparison(left, _, right) => left is Column && right is Column,
        SearchConditionView::And(left, right) => left is Column && right is Column,
        SearchConditionView::Or(left, right) => left is Column && right is Column,
        SearchConditionView::Not(operand) => operand is Column,
        SearchConditionView::Empty => true,
    }
}

/// The text of a statement with identifiers for its names is parsed as far
/// as the table into the same columns and table, and its clause as the
/// clause alone is.
pub proof fn lemma_parse_of_rendered(statement: SelectStatementView)
    requires
        names_read_back(statement),
    ensures
        spec_parse(spec_render_original(statement)) == Ok::<_, ParseErrorView>(
            SelectStatementView {
                columns: statement.columns,
                table: statement.table,
                where_clause: Some(
                    spec_where_clause(spec_render_where(statement.where_clause)).1,
                ),
            },
        ),
{
    reveal_strlit("SELECT");
    reveal_strlit("SELECT ");
    reveal_strlit(" WHERE ");
    reveal_strlit(" WHERE NOT ");
    let columns = statement.columns;
    let list = names(columns);
    let clause = spec_render_where(statement.where_clause);
    let from = " FROM "@ + statement.table + clause;
    let text = spec_render_original(statement);
    assert(clause.len() > 0 ==> clause[0] == ' ');
    lemma_from_reads_back(statement.table, clause);
    reveal_strlit(" FROM ");
    assert(from[0] == ' ');
    let name = columns[0].name();
    let others = columns.skip(1);
    assert(list[0] == name);
    assert(list.skip(1) =~= names(others));
    assert forall|i: int| 0 <= i < others.len() implies is_identifier(
        #[trigger] others[i].name(),
    ) by {
        assert(others[i] == columns[i + 1]);
    }
    lemma_more_columns_read_back(others, from);
    let after = spec_more_names(names(others)) + from;
    let listed = name + after;
    assert(text =~= "SELECT"@ + (seq![' '] + listed));
    lemma_keyword_accepts("SELECT"@, seq![' '] + listed, Rule::SelectKeyword);
    assert(listed[0] == name[0]);
    lemma_space_accepts(listed);
    lemma_identifier_accepts(name, after);
    assert(columns[0] == ColumnView::ColumnName(name));
    assert(seq![columns[0]] + others =~= columns);
    assert(spec_parse_columns(listed) == (from, columns));
    assert(spec_select_list(text) == Ok::<_, ParseErrorView>((from, columns)));
}

/// Parsing gives back every statement from its text with column names,
/// where the statement has at least one column, identifiers for all its
/// names, and a condition that is `Empty`, a comparison of two columns,
/// `NOT` of a column, or a connective of two columns whose first bears the
/// connective's name.
pub proof fn lemma_parse_reads_back_rendered(statement: SelectStatementView)
    requires
        statement_reads_back(statement),
    ensures
        spec_parse(spec_render_original(statement)) == Ok::<_, ParseErrorView>(statement),
{
    lemma_parse_of_rendered(statement);
    lemma_where_reads_back(statement.where_clause->0);
}

/// The statement that the text of a pseudonymized statement writes: the
/// digests stand where the names of the columns stood.
pub open spec fn pseudonyms(hashed: HashedSelectStatementView) -> SelectStatementView {
    SelectStatementView {
        columns: hashed.columns.map_values(|c: HashedColumnView| ColumnView::ColumnName(c.digest)),
        table: hashed.table,
        where_clause: hashed.where_clause,
    }
}

/// The text of a pseudonymized statement is again a statement of the
/// grammar, and parsing gives it back with the digests for column names,
/// where it has at least one column, digests of 32 hexadecimal digits, an
/// identifier for its table and a condition that reads back.
pub proof fn lemma_parse_reads_back_pseudonyms(hashed: HashedSelectStatementView)
    requires
        hashed.columns.len() > 0,
        hashed.digests_are_hex(),
        is_identifier(hashed.table),
        hashed.where_clause matches Some(condition) && condition_reads_back(condition),
    ensures
        spec_parse(spec_render(hashed)) == Ok::<_, ParseErrorView>(pseudonyms(hashed)),
{
    let statement = pseudonyms(hashed);
    assert(names(statement.columns) =~= digests(hashed.columns));
    assert forall|i: int| 0 <= i < statement.columns.len() implies is_identifier(
        #[trigger] statement.columns[i].name(),
    ) by {
        let digest = hashed.columns[i].digest;
        assert(is_hex_digest(digest));
        assert forall|j: int| 0 <= j < digest.len() implies in_class(
            #[trigger] digest[j],
            CharClass::Identifier,
        ) by {}
    }
    lemma_parse_reads_back_rendered(statement);
}

/// The clause of a connective between two columns is read as a condition
/// on the text after ` WHERE `.
proof fn lemma_where_of_connective(left: Seq<char>, word: Seq<char>, right: Seq<char>)
    requires
        is_identifier(left),
    ensures
        spec_where_clause(" WHERE "@ + left + word + right) == spec_parse_condition(
            left + word + right,
        ),
{
    reveal_strlit("WHERE");
    reveal_strlit(" WHERE ");
    let text = left + word + right;
    let w = " WHERE "@ + left + word + right;
    assert(w =~= seq![' '] + ("WHERE"@ + (seq![' '] + text)));
    assert(("WHERE"@ + (seq![' '] + text))[0] == 'W');
    assert(text[0] == left[0]);
    lemma_space_accepts("WHERE"@ + (seq![' '] + text));
    lemma_keyword_accepts("WHERE"@, seq![' '] + text, Rule::Whitespace);
    lemma_space_accepts(text);
}

/// An infix connective is read as a prefix connective only where the left
/// column is `word` itself: a longer name runs on where whitespace must
/// follow, and a shorter one ends before `word` does.
proof fn lemma_infix_is_no_prefix(
    left: Seq<char>,
    infix: Seq<char>,
    right: Seq<char>,
    word: Seq<char>,
)
    requires
        is_identifier(left),
        infix.len() > 0,
        infix[0] == ' ',
        is_identifier(word),
        left != word,
    ensures
        spec_binary(left + infix + right, word) is None,
{
    let s = left + infix + right;
    if has_prefix(s, word) {
        if left.len() < word.len() {
            assert(s[left.len() as int] == ' ');
            assert(in_class(word[left.len() as int], CharClass::Identifier));
        } else {
            assert forall|i: int| 0 <= i < word.len() implies left[i] == word[i] by {
                assert(s[i] == left[i]);
            }
            if left.len() == word.len() {
                assert(left =~= word);
            }
            let after = s.skip(word.len() as int);
            assert(after[0] == left[word.len() as int]);
            lemma_run_of_concat(Seq::empty(), after, CharClass::Whitespace);
            assert(Seq::<char>::empty() + after =~= after);
        }
    }
}

/// Among the statements whose conditions compare columns only, no other
/// than those of [`lemma_parse_reads_back_rendered`] is given back by
/// parsing its text.
pub proof fn lemma_only_these_read_back(statement: SelectStatementView)
    requires
        statement.where_clause matches Some(condition) ==> compares_columns(condition),
        spec_parse(spec_render_original(statement)) == Ok::<_, ParseErrorView>(statement),
    ensures
        statement_reads_back(statement),
{
    let text = spec_render_original(statement);
    lemma_statement_read_is_well_formed(text);
    lemma_statement_read_has_a_column(text);
    lemma_parse_of_rendered(statement);
    reveal_strlit("AND");
    reveal_strlit("OR");
    reveal_strlit(" AND ");
    reveal_strlit(" OR ");
    match statement.where_clause->0 {
        SearchConditionView::And(ValView::Column(left), ValView::Column(right)) => {
            if left.name() != "AND"@ {
                lemma_where_of_connective(left.name(), " AND "@, right.name());
                lemma_infix_is_no_prefix(left.name(), " AND "@, right.name(), "AND"@);
            }
        },
        SearchConditionView::Or(ValView::Column(left), ValView::Column(right)) => {
            if left.name() != "OR"@ {
                lemma_where_of_connective(left.name(), " OR "@, right.name());
                lemma_infix_is_no_prefix(left.name(), " OR "@, right.name(), "OR"@);
            }
        },
        _ => {},
    }
}

} // verus!
