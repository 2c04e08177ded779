//! Pseudonymization: every column of the select list gets the MD5 digest of
//! its name.

use vstd::prelude::*;
use crate::ast::{
    columns_view, hashed_columns_view, is_hex_digest, Column, ColumnView, HashedColumn,
    HashedColumnView, HashedSelectStatement, HashedSelectStatementView, SelectStatement,
    SelectStatementView,
};

verus! {

/// The MD5 digest of the UTF-8 bytes of `text`, written as lowercase
/// hexadecimal digits.
pub uninterp spec fn md5_hex(text: Seq<char>) -> Seq<char>;

/// Calls `md5::compute` on the bytes of `text` and formats the digest with
/// `{:x}`. Not proved: that the result is the MD5 digest, to which the
/// contract only gives its name; and that it is 32 lowercase hexadecimal
/// digits, two for each of the 16 bytes of `md5::Digest`.
#[verifier::external_body]
fn md5_hex_of(text: &str) -> (r: String)
    ensures
        r@ == md5_hex(text@),
        is_hex_digest(r@),
{
    format!("{:x}", md5::compute(text))
}

/// A column with its digest.
pub open spec fn spec_hash_column(column: ColumnView) -> HashedColumnView {
    HashedColumnView { name: column.name(), digest: md5_hex(column.name()) }
}

/// A statement with every column of the select list paired with its digest,
/// and table and condition as they were.
pub open spec fn spec_hash_statement(statement: SelectStatementView) -> HashedSelectStatementView {
    HashedSelectStatementView {
        columns: statement.columns.map_values(|c: ColumnView| spec_hash_column(c)),
        table: statement.table,
        where_clause: statement.where_clause,
    }
}

/// The digest of a name: MD5 of its UTF-8 bytes in lowercase hexadecimal.
pub fn digest(name: &str) -> (r: String)
    ensures
        r@ == md5_hex(name@),
        is_hex_digest(r@),
{
    md5_hex_of(name)
}

/// Pairs a column with the digest of its name.
pub fn hash_column(column: &Column) -> (r: HashedColumn)
    ensures
        r@ == spec_hash_column(column@),
        is_hex_digest(r@.digest),
{
    let name = column.name();
    HashedColumn::new(name.clone(), digest(name.as_str()))
}

/// Pairs every column with the digest of its name, in order.
fn hash_columns(columns: &Vec<Column>) -> (r: Vec<HashedColumn>)
    ensures
        hashed_columns_view(r@) == columns_view(columns@).map_values(
            |c: ColumnView| spec_hash_column(c),
        ),
        forall|i: int|
            0 <= i < r@.len() ==> is_hex_digest((#[trigger] hashed_columns_view(r@)[i]).digest),
{
    let mut hashed: Vec<HashedColumn> = Vec::new();
    let mut i: usize = 0;
    while i < columns.len()
        invariant
            i <= columns@.len(),
            hashed@.len() == i,
            forall|j: int|
                0 <= j < i ==> (#[trigger] hashed@[j])@ == spec_hash_column(columns@[j]@),
            forall|j: int| 0 <= j < i ==> is_hex_digest((#[trigger] hashed@[j])@.digest),
        decreases columns@.len() - i,
    {
        hashed.push(hash_column(&columns[i]));
        i += 1;
    }
    assert(hashed_columns_view(hashed@) =~= columns_view(columns@).map_values(
        |c: ColumnView| spec_hash_column(c),
    ));
    hashed
}

/// Pseudonymizes a statement: each column of the select list is paired
/// with the digest of its name, in the same order. The table and the
/// `WHERE` condition are carried over unchanged.
pub fn hash_statement(stmt: &SelectStatement) -> (r: HashedSelectStatement)
    ensures
        r@ == spec_hash_statement(stmt@),
        r@.where_clause == stmt@.where_clause,
        r@.table == stmt@.table,
        stmt@.well_formed() ==> r@.well_formed(),
        r@.columns.len() == stmt@.columns.len(),
        forall|i: int|
            0 <= i < stmt@.columns.len() ==> (#[trigger] r@.columns[i]).digest == md5_hex(
                stmt@.columns[i].name(),
            ),
        r@.digests_are_hex(),
{
    HashedSelectStatement {
        columns: hash_columns(&stmt.columns),
        table: stmt.table.clone(),
        where_clause: match &stmt.where_clause {
            Some(condition) => Some(condition.clone()),
            None => None,
        },
    }
}

/// Pseudonymizes a statement that the caller gives up: as
/// [`hash_statement`], without copying the table and the condition.
pub fn pseudonymize(stmt: SelectStatement) -> (r: HashedSelectStatement)
    ensures
        r@ == spec_hash_statement(stmt@),
        r@.where_clause == stmt@.where_clause,
        r@.table == stmt@.table,
        stmt@.well_formed() ==> r@.well_formed(),
        r@.digests_are_hex(),
{
    let columns = hash_columns(&stmt.columns);
    HashedSelectStatement { columns, table: stmt.table, where_clause: stmt.where_clause }
}

} // verus!
