//! Rendering a statement as SQL text.

use vstd::prelude::*;
use vstd::string::StringExecFns;
use crate::ast::{
    where_view, Column, ColumnView, HashedColumn, HashedColumnView, HashedSelectStatement,
    HashedSelectStatementView, SearchCondition, SearchConditionView, SelectStatement,
    SelectStatementView,
};

verus! {

/// Each of `names` after a comma.
pub open spec fn spec_more_names(names: Seq<Seq<char>>) -> Seq<char>
    decreases names.len(),
{
    if names.len() == 0 {
        Seq::empty()
    } else {
        ","@ + names[0] + spec_more_names(names.skip(1))
    }
}

/// `names` joined by commas, with no space.
pub open spec fn spec_name_list(names: Seq<Seq<char>>) -> Seq<char> {
    if names.len() == 0 {
        Seq::empty()
    } else {
        names[0] + spec_more_names(names.skip(1))
    }
}

/// The text of a `WHERE` clause, with its leading space; empty where there
/// is no condition.
pub open spec fn spec_render_where(clause: Option<SearchConditionView>) -> Seq<char> {
    match clause {
        Some(SearchConditionView::ColumnComparison(left, op, right)) => " WHERE "@ + left.text()
            + op.spec_text() + right.text(),
        Some(SearchConditionView::And(left, right)) => " WHERE "@ + left.text() + " AND "@
            + right.text(),
        Some(SearchConditionView::Or(left, right)) => " WHERE "@ + left.text() + " OR "@
            + right.text(),
        Some(SearchConditionView::Not(operand)) => " WHERE NOT "@ + operand.text(),
        Some(SearchConditionView::Empty) => Seq::empty(),
        None => Seq::empty(),
    }
}

/// The text of a statement whose select list shows `names`.
pub open spec fn spec_render_statement(
    names: Seq<Seq<char>>,
    table: Seq<char>,
    clause: Option<SearchConditionView>,
) -> Seq<char> {
    "SELECT "@ + spec_name_list(names) + " FROM "@ + table + spec_render_where(clause)
}

/// The digests of a hashed select list.
pub open spec fn digests(columns: Seq<HashedColumnView>) -> Seq<Seq<char>> {
    columns.map_values(|c: HashedColumnView| c.digest)
}

/// The names of a select list.
pub open spec fn names(columns: Seq<ColumnView>) -> Seq<Seq<char>> {
    columns.map_values(|c: ColumnView| c.name())
}

/// The text of a pseudonymized statement: the select list shows the
/// digests.
pub open spec fn spec_render(statement: HashedSelectStatementView) -> Seq<char> {
    spec_render_statement(digests(statement.columns), statement.table, statement.where_clause)
}

/// The text of a statement with its column names.
pub open spec fn spec_render_original(statement: SelectStatementView) -> Seq<char> {
    spec_render_statement(names(statement.columns), statement.table, statement.where_clause)
}

/// The names from the `i`-th on are the `i`-th after a comma and the rest.
proof fn lemma_more_names_step(names: Seq<Seq<char>>, i: int)
    requires
        0 <= i < names.len(),
    ensures
        spec_more_names(names.skip(i)) == ","@ + names[i] + spec_more_names(names.skip(i + 1)),
{
    assert(names.skip(i).skip(1) =~= names.skip(i + 1));
}

/// Appends the text of the `WHERE` clause.
fn push_where(out: &mut String, clause: &Option<SearchCondition>)
    ensures
        final(out)@ == old(out)@ + spec_render_where(where_view(*clause)),
{
    let ghost start = out@;
    match clause {
        Some(SearchCondition::ColumnComparison(left, op, right)) => {
            out.append(" WHERE ");
            out.append(left.text());
            out.append(op.text());
            out.append(right.text());
            assert(out@ =~= start + (" WHERE "@ + left@.text() + op.spec_text() + right@.text()));
        },
        Some(SearchCondition::And(left, right)) => {
            out.append(" WHERE ");
            out.append(left.text());
            out.append(" AND ");
            out.append(right.text());
            assert(out@ =~= start + (" WHERE "@ + left@.text() + " AND "@ + right@.text()));
        },
        Some(SearchCondition::Or(left, right)) => {
            out.append(" WHERE ");
            out.append(left.text());
            out.append(" OR ");
            out.append(right.text());
            assert(out@ =~= start + (" WHERE "@ + left@.text() + " OR "@ + right@.text()));
        },
        Some(SearchCondition::Not(operand)) => {
            out.append(" WHERE NOT ");
            out.append(operand.text());
            assert(out@ =~= start + (" WHERE NOT "@ + operand@.text()));
        },
        Some(SearchCondition::Empty) => {
            assert(out@ =~= start + Seq::<char>::empty());
        },
        None => {
            assert(out@ =~= start + Seq::<char>::empty());
        },
    }
}

/// What stands for a column in the select list of rendered text.
trait Listed {
    /// The text that stands for the column.
    spec fn spec_listed(&self) -> Seq<char>;

    /// The text that stands for the column.
    fn listed(&self) -> (r: &str)
        ensures
            r@ == self.spec_listed(),
    ;
}

impl Listed for Column {
    spec fn spec_listed(&self) -> Seq<char> {
        self@.name()
    }

    fn listed(&self) -> (r: &str) {
        self.name().as_str()
    }
}

impl Listed for HashedColumn {
    spec fn spec_listed(&self) -> Seq<char> {
        self@.digest
    }

    fn listed(&self) -> (r: &str) {
        self.digest.as_str()
    }
}

/// The texts that stand for the columns.
spec fn listed_texts<T: Listed>(columns: Seq<T>) -> Seq<Seq<char>> {
    columns.map_values(|c: T| c.spec_listed())
}

/// Writes a statement whose select list shows what stands for `columns`.
fn write_statement<T: Listed>(
    columns: &Vec<T>,
    table: &str,
    clause: &Option<SearchCondition>,
) -> (r: String)
    ensures
        r@ == spec_render_statement(listed_texts(columns@), table@, where_view(*clause)),
{
    let ghost list = listed_texts(columns@);
    let mut out = String::from_str("SELECT ");
    let n = columns.len();
    if n > 0 {
        out.append(columns[0].listed());
        let mut i: usize = 1;
        while i < n
            invariant
                1 <= i <= n,
                n == columns@.len(),
                list == listed_texts(columns@),
                out@ + spec_more_names(list.skip(i as int)) == "SELECT "@ + spec_name_list(list),
            decreases n - i,
        {
            let ghost before = out@;
            proof {
                lemma_more_names_step(list, i as int);
            }
            out.append(",");
            out.append(columns[i].listed());
            assert(out@ + spec_more_names(list.skip(i + 1)) =~= before + (","@ + list[i as int]
                + spec_more_names(list.skip(i + 1))));
            i += 1;
        }
    }
    assert(out@ + Seq::<char>::empty() =~= out@);
    let ghost select = out@;
    out.append(" FROM ");
    out.append(table);
    push_where(&mut out, clause);
    assert(out@ =~= select + " FROM "@ + table@ + spec_render_where(where_view(*clause)));
    out
}

/// Renders a pseudonymized statement as
/// `SELECT d1,d2,... FROM table` and the `WHERE` clause, where each `d` is
/// a digest and the commas stand alone. The clause is empty for no
/// condition and else ` WHERE ` with `a`, operator and `b` written together;
/// `a AND b`; `a OR b`; or `NOT a`. An operand is written as the raw text of
/// a string literal or the name of a column, so the clause shows names as
/// they were written.
pub fn render(hashed: HashedSelectStatement) -> (r: String)
    ensures
        r@ == spec_render(hashed@),
{
    assert(listed_texts(hashed.columns@) =~= digests(hashed@.columns));
    write_statement(&hashed.columns, hashed.table.as_str(), &hashed.where_clause)
}

/// Renders a statement with its column names, in the form that [`render`]
/// gives a pseudonymized one.
pub fn render_original(statement: &SelectStatement) -> (r: String)
    ensures
        r@ == spec_render_original(statement@),
{
    assert(listed_texts(statement.columns@) =~= names(statement@.columns));
    write_statement(&statement.columns, statement.table.as_str(), &statement.where_clause)
}

} // verus!
