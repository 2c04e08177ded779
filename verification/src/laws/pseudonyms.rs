//! What pseudonymizing changes and what it keeps.

use vstd::prelude::*;
use crate::ast::{
    ComparisonOperator, HashedSelectStatementView, SearchConditionView, SelectStatementView,
    ValView,
};
use crate::digest::{md5_hex, spec_hash_statement};
use crate::render::{digests, names, spec_name_list, spec_render, spec_render_statement};

verus! {

/// Pseudonymizing keeps a statement well formed.
pub proof fn lemma_hashed_is_well_formed(statement: SelectStatementView)
    requires
        statement.well_formed(),
    ensures
        spec_hash_statement(statement).well_formed(),
{
}

/// The digest of a column depends on its name alone: columns of the same
/// name get the same digest, in one statement or in two, and it is the
/// digest of the name.
pub proof fn lemma_digest_depends_on_name_alone(
    a: SelectStatementView,
    i: int,
    b: SelectStatementView,
    j: int,
)
    requires
        0 <= i < a.columns.len(),
        0 <= j < b.columns.len(),
        a.columns[i].name() == b.columns[j].name(),
    ensures
        spec_hash_statement(a).columns[i].digest == spec_hash_statement(b).columns[j].digest,
        spec_hash_statement(a).columns[i].digest == md5_hex(a.columns[i].name()),
{
}

/// Two pseudonymizations of one statement agree, digest by digest: the
/// result depends on the statement alone.
pub proof fn lemma_two_hashings_agree(
    statement: SelectStatementView,
    first: HashedSelectStatementView,
    second: HashedSelectStatementView,
)
    requires
        first == spec_hash_statement(statement),
        second == spec_hash_statement(statement),
    ensures
        first == second,
        first.columns.len() == statement.columns.len(),
        forall|i: int|
            0 <= i < statement.columns.len() ==> (#[trigger] first.columns[i]).digest
                == second.columns[i].digest,
{
}

/// Pseudonymizing leaves the condition and the table as they are.
pub proof fn lemma_hash_keeps_where(statement: SelectStatementView)
    ensures
        spec_hash_statement(statement).where_clause == statement.where_clause,
        spec_hash_statement(statement).table == statement.table,
{
}

/// A pseudonymized statement renders as the statement itself does, but for
/// the select list, which shows the digest of each name: the `WHERE` clause
/// shows the names as they were written.
pub proof fn lemma_render_of_hashed(statement: SelectStatementView)
    ensures
        spec_render(spec_hash_statement(statement)) == spec_render_statement(
            names(statement.columns).map_values(|name: Seq<char>| md5_hex(name)),
            statement.table,
            statement.where_clause,
        ),
{
    assert(digests(spec_hash_statement(statement).columns) =~= names(
        statement.columns,
    ).map_values(|name: Seq<char>| md5_hex(name)));
}

/// The text of a pseudonymized statement with a comparison for its
/// condition: `SELECT `, the digests joined by commas, ` FROM `, the table,
/// ` WHERE `, and the two operands with the operator between them and no
/// space. The names of the columns are not written in the select list.
pub proof fn lemma_render_of_comparison(
    hashed: HashedSelectStatementView,
    left: ValView,
    op: ComparisonOperator,
    right: ValView,
)
    requires
        hashed.where_clause == Some(SearchConditionView::ColumnComparison(left, op, right)),
    ensures
        spec_render(hashed) == "SELECT "@ + spec_name_list(digests(hashed.columns)) + " FROM "@
            + hashed.table + " WHERE "@ + left.text() + op.spec_text() + right.text(),
        op == ComparisonOperator::Equal ==> op.spec_text() == "="@,
        op == ComparisonOperator::NotEqual ==> op.spec_text() == "!="@,
        left matches ValView::StringVal(text) ==> left.text() == text,
        left matches ValView::Column(column) ==> left.text() == column.name(),
{
    assert(spec_render(hashed) =~= "SELECT "@ + spec_name_list(digests(hashed.columns))
        + " FROM "@ + hashed.table + " WHERE "@ + left.text() + op.spec_text() + right.text());
}

} // verus!
