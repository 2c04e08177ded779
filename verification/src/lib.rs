//! Parsing, pseudonymization and rendering of a restricted SQL `SELECT`
//! statement.
//!
//! A statement is read from text into a [`SelectStatement`] by [`parse`], its
//! column names are paired with their MD5 digests by [`hash_statement`], and
//! [`render`] writes the result back as SQL in which the select list shows
//! the digests and the `WHERE` clause the names as written. Every function
//! is specified against a model over `Seq<char>`, and [`laws`] holds what
//! is proved of the functions together.
//!
//! [`replace_column`] does the same over the full grammar of `sqlparser`,
//! for every expression that is a plain identifier, and [`answer_text`]
//! gives the text of what it returns.

pub mod ast;
pub mod condition;
pub mod digest;
pub mod error;
pub mod full_sql;
pub mod laws;
pub mod lexer;
pub mod render;
pub mod statement;
pub mod text;

pub use ast::{
    Column, ComparisonOperator, HashedColumn, HashedSelectStatement, SearchCondition,
    SelectStatement, Val,
};
pub use condition::{parse_comparison_operator, parse_condition, parse_value};
pub use digest::{hash_statement, pseudonymize};
pub use error::{ParseError, Rule};
pub use full_sql::{answer_text, replace_column};
pub use lexer::{scan_identifier, scan_string_literal};
pub use render::{render, render_original};
pub use statement::{parse, parse_select};
