//! Pseudonymization over the full SQL grammar. The statements are parsed by
//! `sqlparser`; every expression that is a plain identifier then gets the
//! digest of its name in place of the name.

use core::ops::ControlFlow;
use sqlparser::ast::{visit_expressions_mut, Expr, Statement};
use sqlparser::dialect::GenericDialect;
use sqlparser::keywords::Keyword;
use sqlparser::parser::{Parser, ParserError};
use sqlparser::tokenizer::{Token, Tokenizer};
use vstd::prelude::*;
use vstd::string::StringExecFns;
use crate::digest::{digest, md5_hex};

verus! {

/// A statement of `sqlparser`'s syntax tree.
#[verifier::external_type_specification]
#[verifier::external_body]
pub struct ExStatement(sqlparser::ast::Statement);

/// An expression of `sqlparser`'s syntax tree.
#[verifier::external_type_specification]
#[verifier::external_body]
pub struct ExExpr(sqlparser::ast::Expr);

/// The error of `sqlparser`'s parser.
#[verifier::external_type_specification]
#[verifier::external_body]
pub struct ExParserError(sqlparser::parser::ParserError);

/// A token of a text, as far as it matters for whether the parsed statements
/// can be displayed.
#[derive(Clone, Copy, Debug, PartialEq, Eq, Structural)]
pub enum Lexeme {
    /// Whitespace or a comment, which the parser skips.
    Whitespace,
    /// The keyword `LIMIT`.
    Limit,
    /// The keyword `ALL`.
    All,
    /// The keyword `BY`.
    By,
    /// Any other token.
    Other,
}

/// The tokens that `Tokenizer::tokenize` makes of a text under the generic
/// dialect, or `None` where it fails.
pub uninterp spec fn lexemes(sql: Seq<char>) -> Option<Seq<Lexeme>>;

/// Whether `to_string` returns on the statement. `Display` panics on an
/// identifier or a word token with a quote character that it does not know,
/// on an interval led by `SECOND` with both precisions and a last field,
/// and, in a build with debug assertions, on a `LIMIT BY` list without a
/// limit.
pub uninterp spec fn displayable(statement: Statement) -> bool;

/// What `Parser::parse_sql` makes of a text under the generic dialect.
pub uninterp spec fn parsed_sql(sql: Seq<char>) -> Result<Seq<Statement>, ParserError>;

/// The name that an expression holds where it is `Expr::Identifier`.
pub uninterp spec fn identifier_name(expr: Expr) -> Option<Seq<char>>;

/// The names of the `Expr::Identifier` expressions of a statement, in the
/// order in which a visit of its expressions leaves them.
pub uninterp spec fn identifier_names(statement: Statement) -> Seq<Seq<char>>;

/// The SQL text that a statement displays as.
pub uninterp spec fn statement_text(statement: Statement) -> Seq<char>;

/// The message that a parser error displays as.
pub uninterp spec fn parser_error_text(error: ParserError) -> Seq<char>;

/// Calls `Tokenizer::tokenize` with `GenericDialect` and tells the tokens
/// apart. Not proved: the contract names the tokens as a function of the
/// text.
#[verifier::external_body]
fn lexemes_of(sql: &str) -> (r: Option<Vec<Lexeme>>)
    ensures
        match r {
            Some(tokens) => lexemes(sql@) == Some(tokens@),
            None => lexemes(sql@) is None,
        },
{
    let kind = |token: &Token| match token {
        Token::Whitespace(_) => Lexeme::Whitespace,
        Token::Word(word) => match word.keyword {
            Keyword::LIMIT => Lexeme::Limit,
            Keyword::ALL => Lexeme::All,
            Keyword::BY => Lexeme::By,
            _ => Lexeme::Other,
        },
        _ => Lexeme::Other,
    };
    Tokenizer::new(&GenericDialect {}, sql).tokenize().ok().map(|t| t.iter().map(kind).collect())
}

/// Calls `Parser::parse_sql` with `GenericDialect`. Not proved: the contract
/// names the outcome, statements or error, as a function of the text; and
/// it says that the statements can be displayed where the tokens of the
/// text nowhere spell `LIMIT ALL BY`. Under this dialect the parser gives
/// an identifier no quote character but `"`, `'` and `` ` ``; the word
/// tokens that a statement displays are unquoted keywords; an interval led
/// by `SECOND` has no last field; and a `LIMIT BY` list stands without a
/// limit only where `LIMIT`, `ALL` and `BY` follow each other.
#[verifier::external_body]
fn parse_sql(sql: &str) -> (r: Result<Vec<Statement>, ParserError>)
    ensures
        match r {
            Ok(statements) => parsed_sql(sql@) == Ok::<_, ParserError>(statements@),
            Err(e) => parsed_sql(sql@) == Err::<Seq<Statement>, _>(e),
        },
        r matches Ok(statements) ==> (lexemes(sql@) matches Some(tokens) && !limits_all_by(tokens)
            ==> forall|i: int|
            0 <= i < statements@.len() ==> displayable(#[trigger] statements@[i])),
{
    Parser::parse_sql(&GenericDialect {}, sql)
}

/// Reads the field `value` of the `Ident` in `Expr::Identifier`. Not proved:
/// the contract names what is read.
#[verifier::external_body]
fn identifier_of(expr: &Expr) -> (r: Option<String>)
    ensures
        match r {
            Some(name) => identifier_name(*expr) == Some(name@),
            None => identifier_name(*expr) is None,
        },
{
    match expr {
        Expr::Identifier(ident) => Some(ident.value.clone()),
        _ => None,
    }
}

/// Writes the field `value` of the `Ident` in `Expr::Identifier`, and leaves
/// any other expression as it is. Not proved: that the name read afterwards
/// is the one written.
#[verifier::external_body]
fn set_identifier(expr: &mut Expr, name: String)
    ensures
        identifier_name(*old(expr)) is Some ==> identifier_name(*final(expr)) == Some(name@),
        identifier_name(*old(expr)) is None ==> *final(expr) == *old(expr),
{
    if let Expr::Identifier(ident) = expr {
        ident.value = name;
    }
}

/// Calls `visit_expressions_mut`, which hands every expression of the
/// statements once to [`pseudonymize_expression`], after the expressions
/// inside it. Not proved: that the visit reaches each `Expr::Identifier`
/// once and changes nothing itself, so that the names of each statement's
/// identifiers afterwards are the digests of the names before; and that a
/// statement that could be displayed still can, since only names change
/// and `Display` fails on no name.
#[verifier::external_body]
fn visit_identifiers(statements: &mut Vec<Statement>)
    ensures
        final(statements)@.len() == old(statements)@.len(),
        forall|i: int|
            0 <= i < old(statements)@.len() ==> identifier_names(#[trigger] final(statements)@[i])
                == identifier_names(old(statements)@[i]).map_values(
                |name: Seq<char>| md5_hex(name),
            ),
        forall|i: int|
            0 <= i < old(statements)@.len() && displayable(old(statements)@[i]) ==> displayable(
                #[trigger] final(statements)@[i],
            ),
{
    let _ = visit_expressions_mut(statements, |expr| pseudonymize_expression(expr));
}

/// Calls `to_string` on a statement that can be displayed. Not proved: the
/// contract names the text.
#[verifier::external_body]
fn statement_to_string(statement: &Statement) -> (r: String)
    requires
        displayable(*statement),
    ensures
        r@ == statement_text(*statement),
{
    statement.to_string()
}

/// Calls `to_string` on a parser error. Not proved: the contract names the
/// message.
#[verifier::external_body]
fn error_to_string(error: &ParserError) -> (r: String)
    ensures
        r@ == parser_error_text(*error),
{
    error.to_string()
}

/// Whether `after` are the statements `before` with the name of every
/// identifier expression replaced by its digest.
pub open spec fn identifiers_replaced(before: Seq<Statement>, after: Seq<Statement>) -> bool {
    &&& after.len() == before.len()
    &&& forall|i: int|
        0 <= i < before.len() ==> identifier_names(#[trigger] after[i]) == identifier_names(
            before[i],
        ).map_values(|name: Seq<char>| md5_hex(name))
}

/// Whether every one of the statements can be displayed.
pub open spec fn all_displayable(statements: Seq<Statement>) -> bool {
    forall|i: int| 0 <= i < statements.len() ==> displayable(#[trigger] statements[i])
}

/// How much of `LIMIT ALL BY` the tokens end with, whitespace and comments
/// apart: 1 after `LIMIT`, 2 after `LIMIT ALL`, and 3 once `BY` has followed
/// anywhere in the tokens.
pub open spec fn limit_all_by_progress(tokens: Seq<Lexeme>) -> nat
    decreases tokens.len(),
{
    if tokens.len() == 0 {
        0
    } else {
        let before = limit_all_by_progress(tokens.drop_last());
        if before == 3 {
            3
        } else {
            match tokens.last() {
                Lexeme::Whitespace => before,
                Lexeme::Limit => 1,
                Lexeme::All => if before == 1 {
                    2
                } else {
                    0
                },
                Lexeme::By => if before == 2 {
                    3
                } else {
                    0
                },
                Lexeme::Other => 0,
            }
        }
    }
}

/// Whether the tokens somewhere spell `LIMIT ALL BY`, with nothing but
/// whitespace and comments between the three.
pub open spec fn limits_all_by(tokens: Seq<Lexeme>) -> bool {
    limit_all_by_progress(tokens) == 3
}

/// Whether the tokens of a text show that what is parsed from it can be
/// displayed.
pub open spec fn shows(tokens: Option<Seq<Lexeme>>) -> bool {
    tokens matches Some(t) && !limits_all_by(t)
}

/// The texts of the statements, one after the other with nothing between
/// them.
pub open spec fn spec_statements_text(statements: Seq<Statement>) -> Seq<char>
    decreases statements.len(),
{
    if statements.len() == 0 {
        Seq::empty()
    } else {
        spec_statements_text(statements.drop_last()) + statement_text(statements.last())
    }
}

/// Replaces the name of an identifier expression by its digest and leaves
/// any other expression as it is. The visit always goes on.
pub fn pseudonymize_expression(expr: &mut Expr) -> (r: ControlFlow<()>)
    ensures
        r is Continue,
        identifier_name(*final(expr)) == match identifier_name(*old(expr)) {
            Some(name) => Some(md5_hex(name)),
            None => None,
        },
        identifier_name(*old(expr)) is None ==> *final(expr) == *old(expr),
{
    match identifier_of(expr) {
        Some(name) => {
            set_identifier(expr, digest(name.as_str()));
        },
        None => {},
    }
    ControlFlow::Continue(())
}

/// Whether the tokens somewhere spell `LIMIT ALL BY`.
pub fn finds_limit_all_by(tokens: &Vec<Lexeme>) -> (r: bool)
    ensures
        r == limits_all_by(tokens@),
{
    let mut progress: u8 = 0;
    let mut i: usize = 0;
    while i < tokens.len()
        invariant
            i <= tokens@.len(),
            progress == limit_all_by_progress(tokens@.take(i as int)),
            progress <= 3,
        decreases tokens@.len() - i,
    {
        assert(tokens@.take(i + 1).drop_last() =~= tokens@.take(i as int));
        if progress != 3 {
            progress = match tokens[i] {
                Lexeme::Whitespace => progress,
                Lexeme::Limit => 1,
                Lexeme::All => if progress == 1 {
                    2
                } else {
                    0
                },
                Lexeme::By => if progress == 2 {
                    3
                } else {
                    0
                },
                Lexeme::Other => 0,
            };
        }
        i += 1;
    }
    assert(tokens@.take(i as int) =~= tokens@);
    progress == 3
}

/// Parses `sql` under the generic dialect and replaces the name of every
/// identifier expression by its digest. A text that does not parse gives
/// the parser's error. The statements can be displayed where the tokens of
/// `sql` nowhere spell `LIMIT ALL BY`.
pub fn replace_column(sql: &str) -> (r: Result<Vec<Statement>, ParserError>)
    ensures
        match r {
            Ok(statements) => parsed_sql(sql@) matches Ok(parsed) && identifiers_replaced(
                parsed,
                statements@,
            ),
            Err(e) => parsed_sql(sql@) == Err::<Seq<Statement>, _>(e),
        },
        r matches Ok(statements) ==> (shows(lexemes(sql@)) ==> all_displayable(statements@)),
{
    match parse_sql(sql) {
        Ok(mut statements) => {
            visit_identifiers(&mut statements);
            Ok(statements)
        },
        Err(e) => Err(e),
    }
}

/// The texts of statements that can be displayed, one after the other
/// with nothing between them.
pub fn statements_text(statements: &Vec<Statement>) -> (r: String)
    requires
        all_displayable(statements@),
    ensures
        r@ == spec_statements_text(statements@),
{
    let mut text = String::new();
    let mut i: usize = 0;
    while i < statements.len()
        invariant
            i <= statements@.len(),
            all_displayable(statements@),
            text@ == spec_statements_text(statements@.take(i as int)),
        decreases statements@.len() - i,
    {
        let part = statement_to_string(&statements[i]);
        text.append(part.as_str());
        assert(statements@.take(i + 1).drop_last() =~= statements@.take(i as int));
        i += 1;
    }
    assert(statements@.take(i as int) =~= statements@);
    text
}

/// What is answered for the outcome of [`replace_column`]: the text of the
/// statements, which must be such as can be displayed, or the message of
/// the error.
pub fn outcome_text(outcome: &Result<Vec<Statement>, ParserError>) -> (r: String)
    requires
        outcome matches Ok(statements) ==> all_displayable(statements@),
    ensures
        r@ == match outcome {
            Ok(statements) => spec_statements_text(statements@),
            Err(e) => parser_error_text(*e),
        },
{
    match outcome {
        Ok(statements) => statements_text(statements),
        Err(e) => error_to_string(e),
    }
}

/// Whether `text` answers a request for `sql`: it is the message of the
/// parser's error, or the text of statements that are the parsed ones with
/// the name of every identifier expression replaced by its digest.
pub open spec fn answers(sql: Seq<char>, text: Seq<char>) -> bool {
    match parsed_sql(sql) {
        Ok(parsed) => exists|statements: Seq<Statement>| #[trigger]
            identifiers_replaced(parsed, statements) && text == spec_statements_text(statements),
        Err(e) => text == parser_error_text(e),
    }
}

/// Answers a request for `sql`: the text of [`outcome_text`] for the
/// outcome of [`replace_column`]. There is no answer, and nothing is
/// displayed, where `sql` parses and its tokens do not show that the
/// statements can be displayed: where they spell `LIMIT ALL BY`.
pub fn answer_text(sql: &str) -> (r: Option<String>)
    ensures
        r is None <==> parsed_sql(sql@) is Ok && !shows(lexemes(sql@)),
        r matches Some(text) ==> answers(sql@, text@),
{
    let outcome = replace_column(sql);
    let safe = match &outcome {
        Ok(_) => match lexemes_of(sql) {
            Some(tokens) => !finds_limit_all_by(&tokens),
            None => false,
        },
        Err(_) => true,
    };
    if safe {
        Some(outcome_text(&outcome))
    } else {
        None
    }
}

} // verus!
