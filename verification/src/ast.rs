//! The syntax tree of a statement, before and after pseudonymization.

use vstd::prelude::*;
use crate::text::is_identifier;

verus! {

/// A column of the select list.
#[derive(Debug, PartialEq, Eq)]
pub enum Column {
    /// A column given by its name.
    ColumnName(String),
}

/// The mathematical value of a [`Column`].
pub enum ColumnView {
    ColumnName(Seq<char>),
}

impl View for Column {
    type V = ColumnView;

    open spec fn view(&self) -> ColumnView {
        match self {
            Column::ColumnName(name) => ColumnView::ColumnName(name@),
        }
    }
}

impl ColumnView {
    /// The identifier that the column wraps.
    pub open spec fn name(self) -> Seq<char> {
        match self {
            ColumnView::ColumnName(name) => name,
        }
    }

    /// Whether the name is an identifier.
    pub open spec fn well_formed(self) -> bool {
        is_identifier(self.name())
    }
}

impl Column {
    /// The identifier that the column wraps.
    pub fn name(&self) -> (r: &String)
        ensures
            r@ == self@.name(),
    {
        match self {
            Column::ColumnName(name) => name,
        }
    }
}

impl Clone for Column {
    fn clone(&self) -> (r: Column)
        ensures
            r@ == self@,
    {
        match self {
            Column::ColumnName(name) => Column::ColumnName(name.clone()),
        }
    }
}

/// An operand: a string literal or a reference to a column.
#[derive(Debug, PartialEq, Eq)]
pub enum Val {
    /// The decoded text of a string literal.
    StringVal(String),
    /// A column reference.
    Column(Column),
}

/// The mathematical value of a [`Val`].
pub enum ValView {
    StringVal(Seq<char>),
    Column(ColumnView),
}

impl View for Val {
    type V = ValView;

    open spec fn view(&self) -> ValView {
        match self {
            Val::StringVal(text) => ValView::StringVal(text@),
            Val::Column(column) => ValView::Column(column@),
        }
    }
}

impl ValView {
    /// The text that stands for the operand in rendered SQL: the raw text of
    /// a string literal, the name of a column.
    pub open spec fn text(self) -> Seq<char> {
        match self {
            ValView::StringVal(text) => text,
            ValView::Column(column) => column.name(),
        }
    }

    /// Whether a column reference names an identifier. Any text is a string
    /// literal.
    pub open spec fn well_formed(self) -> bool {
        match self {
            ValView::StringVal(_) => true,
            ValView::Column(column) => column.well_formed(),
        }
    }
}

impl Val {
    /// The text that stands for the operand in rendered SQL.
    pub fn text(&self) -> (r: &str)
        ensures
            r@ == self@.text(),
    {
        match self {
            Val::StringVal(text) => text.as_str(),
            Val::Column(column) => column.name().as_str(),
        }
    }
}

impl Clone for Val {
    fn clone(&self) -> (r: Val)
        ensures
            r@ == self@,
    {
        match self {
            Val::StringVal(text) => Val::StringVal(text.clone()),
            Val::Column(column) => Val::Column(column.clone()),
        }
    }
}

/// The operator of a comparison.
#[derive(Clone, Copy, Debug, PartialEq, Eq, Structural)]
pub enum ComparisonOperator {
    /// `=`
    Equal,
    /// `!=`
    NotEqual,
}

impl ComparisonOperator {
    /// The operator as it is written.
    pub open spec fn spec_text(self) -> Seq<char> {
        match self {
            ComparisonOperator::Equal => "="@,
            ComparisonOperator::NotEqual => "!="@,
        }
    }

    /// The operator as it is written: `=` or `!=`.
    pub fn text(self) -> (r: &'static str)
        ensures
            r@ == self.spec_text(),
    {
        match self {
            ComparisonOperator::Equal => "=",
            ComparisonOperator::NotEqual => "!=",
        }
    }
}

impl View for ComparisonOperator {
    type V = ComparisonOperator;

    open spec fn view(&self) -> ComparisonOperator {
        *self
    }
}

/// The condition of a `WHERE` clause. The connectives are flat: they join
/// operands, not conditions.
#[derive(Debug, PartialEq, Eq)]
pub enum SearchCondition {
    /// Two operands and the operator between them.
    ColumnComparison(Val, ComparisonOperator, Val),
    /// `AND` of two operands.
    And(Val, Val),
    /// `OR` of two operands.
    Or(Val, Val),
    /// `NOT` of one operand.
    Not(Val),
    /// No condition.
    Empty,
}

/// The mathematical value of a [`SearchCondition`].
pub enum SearchConditionView {
    ColumnComparison(ValView, ComparisonOperator, ValView),
    And(ValView, ValView),
    Or(ValView, ValView),
    Not(ValView),
    Empty,
}

impl SearchConditionView {
    /// Whether every operand is well formed.
    pub open spec fn well_formed(self) -> bool {
        match self {
            SearchConditionView::ColumnComparison(left, _, right) => left.well_formed()
                && right.well_formed(),
            SearchConditionView::And(left, right) => left.well_formed() && right.well_formed(),
            SearchConditionView::Or(left, right) => left.well_formed() && right.well_formed(),
            SearchConditionView::Not(operand) => operand.well_formed(),
            SearchConditionView::Empty => true,
        }
    }
}

impl View for SearchCondition {
    type V = SearchConditionView;

    open spec fn view(&self) -> SearchConditionView {
        match self {
            SearchCondition::ColumnComparison(left, op, right) => {
                SearchConditionView::ColumnComparison(left@, *op, right@)
            },
            SearchCondition::And(left, right) => SearchConditionView::And(left@, right@),
            SearchCondition::Or(left, right) => SearchConditionView::Or(left@, right@),
            SearchCondition::Not(operand) => SearchConditionView::Not(operand@),
            SearchCondition::Empty => SearchConditionView::Empty,
        }
    }
}

impl Clone for SearchCondition {
    fn clone(&self) -> (r: SearchCondition)
        ensures
            r@ == self@,
    {
        match self {
            SearchCondition::ColumnComparison(left, op, right) => {
                SearchCondition::ColumnComparison(left.clone(), *op, right.clone())
            },
            SearchCondition::And(left, right) => {
                SearchCondition::And(left.clone(), right.clone())
            },
            SearchCondition::Or(left, right) => {
                SearchCondition::Or(left.clone(), right.clone())
            },
            SearchCondition::Not(operand) => SearchCondition::Not(operand.clone()),
            SearchCondition::Empty => SearchCondition::Empty,
        }
    }
}

/// The view of an optional condition.
pub open spec fn where_view(clause: Option<SearchCondition>) -> Option<SearchConditionView> {
    match clause {
        Some(condition) => Some(condition@),
        None => None,
    }
}

/// The views of the columns of a select list.
pub open spec fn columns_view(columns: Seq<Column>) -> Seq<ColumnView> {
    columns.map_values(|c: Column| c@)
}

/// A parsed `SELECT` statement.
#[derive(Debug, PartialEq, Eq)]
pub struct SelectStatement {
    /// The select list, in the order written; a name may occur twice.
    pub columns: Vec<Column>,
    /// The table after `FROM`.
    pub table: String,
    /// The condition after `WHERE`. The parser stores `Some(Empty)` where the
    /// text has no clause; `None` says the same and is never parsed.
    pub where_clause: Option<SearchCondition>,
}

/// The mathematical value of a [`SelectStatement`].
pub struct SelectStatementView {
    pub columns: Seq<ColumnView>,
    pub table: Seq<char>,
    pub where_clause: Option<SearchConditionView>,
}

impl SelectStatementView {
    /// Whether every name in the statement is an identifier.
    pub open spec fn well_formed(self) -> bool {
        &&& forall|i: int|
            0 <= i < self.columns.len() ==> (#[trigger] self.columns[i]).well_formed()
        &&& is_identifier(self.table)
        &&& self.where_clause matches Some(condition) ==> condition.well_formed()
    }
}

/// A copy of an optional condition.
fn clone_where(clause: &Option<SearchCondition>) -> (r: Option<SearchCondition>)
    ensures
        where_view(r) == where_view(*clause),
{
    match clause {
        Some(condition) => Some(condition.clone()),
        None => None,
    }
}

impl Clone for SelectStatement {
    fn clone(&self) -> (r: SelectStatement)
        ensures
            r@ == self@,
    {
        let mut columns: Vec<Column> = Vec::new();
        let mut i: usize = 0;
        while i < self.columns.len()
            invariant
                i <= self.columns@.len(),
                columns@.len() == i,
                forall|j: int| 0 <= j < i ==> (#[trigger] columns@[j])@ == self.columns@[j]@,
            decreases self.columns@.len() - i,
        {
            columns.push(self.columns[i].clone());
            i += 1;
        }
        assert(columns_view(columns@) =~= columns_view(self.columns@));
        SelectStatement {
            columns,
            table: self.table.clone(),
            where_clause: clone_where(&self.where_clause),
        }
    }
}

impl View for SelectStatement {
    type V = SelectStatementView;

    open spec fn view(&self) -> SelectStatementView {
        SelectStatementView {
            columns: columns_view(self.columns@),
            table: self.table@,
            where_clause: where_view(self.where_clause),
        }
    }
}

/// Whether `text` is 32 lowercase hexadecimal digits.
pub open spec fn is_hex_digest(text: Seq<char>) -> bool {
    text.len() == 32 && forall|i: int|
        0 <= i < text.len() ==> ('0' <= #[trigger] text[i] && text[i] <= '9') || ('a' <= text[i]
            && text[i] <= 'f')
}

/// A column name with its digest.
#[derive(Debug, PartialEq, Eq)]
pub struct HashedColumn {
    /// The name as it was written.
    pub name: String,
    /// The digest of the name, in lowercase hexadecimal.
    pub digest: String,
}

/// The mathematical value of a [`HashedColumn`].
pub struct HashedColumnView {
    pub name: Seq<char>,
    pub digest: Seq<char>,
}

impl HashedColumn {
    /// Pairs a name with a digest.
    pub fn new(name: String, digest: String) -> (r: HashedColumn)
        ensures
            r@ == (HashedColumnView { name: name@, digest: digest@ }),
    {
        HashedColumn { name, digest }
    }
}

impl Clone for HashedColumn {
    fn clone(&self) -> (r: HashedColumn)
        ensures
            r@ == self@,
    {
        HashedColumn { name: self.name.clone(), digest: self.digest.clone() }
    }
}

impl View for HashedColumn {
    type V = HashedColumnView;

    open spec fn view(&self) -> HashedColumnView {
        HashedColumnView { name: self.name@, digest: self.digest@ }
    }
}

/// The views of the columns of a hashed select list.
pub open spec fn hashed_columns_view(columns: Seq<HashedColumn>) -> Seq<HashedColumnView> {
    columns.map_values(|c: HashedColumn| c@)
}

/// A statement whose select list carries digests. Table and condition are
/// those of the statement it was made from.
#[derive(Debug, PartialEq, Eq)]
pub struct HashedSelectStatement {
    /// The select list, each name with its digest.
    pub columns: Vec<HashedColumn>,
    /// The table after `FROM`.
    pub table: String,
    /// The condition after `WHERE`, with its names as written.
    pub where_clause: Option<SearchCondition>,
}

/// The mathematical value of a [`HashedSelectStatement`].
pub struct HashedSelectStatementView {
    pub columns: Seq<HashedColumnView>,
    pub table: Seq<char>,
    pub where_clause: Option<SearchConditionView>,
}

impl HashedSelectStatementView {
    /// Whether every digest is 32 lowercase hexadecimal digits.
    pub open spec fn digests_are_hex(self) -> bool {
        forall|i: int|
            0 <= i < self.columns.len() ==> is_hex_digest((#[trigger] self.columns[i]).digest)
    }

    /// Whether every name in the statement is an identifier.
    pub open spec fn well_formed(self) -> bool {
        &&& forall|i: int|
            0 <= i < self.columns.len() ==> is_identifier((#[trigger] self.columns[i]).name)
        &&& is_identifier(self.table)
        &&& self.where_clause matches Some(condition) ==> condition.well_formed()
    }
}

impl Clone for HashedSelectStatement {
    fn clone(&self) -> (r: HashedSelectStatement)
        ensures
            r@ == self@,
    {
        let mut columns: Vec<HashedColumn> = Vec::new();
        let mut i: usize = 0;
        while i < self.columns.len()
            invariant
                i <= self.columns@.len(),
                columns@.len() == i,
                forall|j: int| 0 <= j < i ==> (#[trigger] columns@[j])@ == self.columns@[j]@,
            decreases self.columns@.len() - i,
        {
            columns.push(self.columns[i].clone());
            i += 1;
        }
        assert(hashed_columns_view(columns@) =~= hashed_columns_view(self.columns@));
        HashedSelectStatement {
            columns,
            table: self.table.clone(),
            where_clause: clone_where(&self.where_clause),
        }
    }
}

impl View for HashedSelectStatement {
    type V = HashedSelectStatementView;

    open spec fn view(&self) -> HashedSelectStatementView {
        HashedSelectStatementView {
            columns: hashed_columns_view(self.columns@),
            table: self.table@,
            where_clause: where_view(self.where_clause),
        }
    }
}

} // verus!
