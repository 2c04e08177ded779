use sql_pseudonymizer::ast::{Column, ComparisonOperator, SearchCondition, SelectStatement, Val};
use sql_pseudonymizer::condition::{parse_comparison_operator, parse_condition, parse_value};
use sql_pseudonymizer::error::{ParseError, Rule};
use sql_pseudonymizer::statement::{parse, parse_columns, parse_select};

fn chars(s: &str) -> Vec<char> {
    s.chars().collect()
}

fn text(s: &[char]) -> String {
    s.iter().collect()
}

fn col(name: &str) -> Column {
    Column::ColumnName(name.to_string())
}

fn col_val(name: &str) -> Val {
    Val::Column(col(name))
}

fn str_val(value: &str) -> Val {
    Val::StringVal(value.to_string())
}

fn value(s: &str) -> Result<(String, Val), ParseError> {
    let input = chars(s);
    parse_value(&input).map(|(rest, v)| (text(rest), v))
}

fn operator(s: &str) -> Result<(String, ComparisonOperator), ParseError> {
    let input = chars(s);
    parse_comparison_operator(&input).map(|(rest, v)| (text(rest), v))
}

fn condition(s: &str) -> (String, SearchCondition) {
    let input = chars(s);
    let (rest, c) = parse_condition(&input);
    (text(rest), c)
}

fn columns(s: &str) -> (String, Vec<Column>) {
    let input = chars(s);
    let (rest, c) = parse_columns(&input);
    (text(rest), c)
}

fn select(s: &str) -> Result<(String, SelectStatement), ParseError> {
    let input = chars(s);
    parse_select(&input).map(|(rest, v)| (text(rest), v))
}

fn statement(cols: &[&str], table: &str, clause: SearchCondition) -> SelectStatement {
    SelectStatement {
        columns: cols.iter().map(|c| col(c)).collect(),
        table: table.to_string(),
        where_clause: Some(clause),
    }
}

#[test]
fn parse_value_reads_a_literal_or_a_column() {
    assert_eq!(value("\"a b\" c"), Ok((" c".to_string(), str_val("a b"))));
    assert_eq!(value("name = 1"), Ok((" = 1".to_string(), col_val("name"))));
    assert_eq!(value("\"\\u0041\""), Ok(("".to_string(), str_val("A"))));
}

#[test]
fn parse_value_fails_as_the_branch_that_started() {
    assert_eq!(value("\"open"), Err(ParseError::UnterminatedString));
    assert_eq!(value("\"\\q\""), Err(ParseError::InvalidEscape));
    assert_eq!(value("\"\\u12\""), Err(ParseError::InvalidUnicodeEscape));
    assert_eq!(value("= 1"), Err(ParseError::EmptyIdentifier));
    assert_eq!(value(""), Err(ParseError::EmptyIdentifier));
    assert_eq!(value(" x"), Err(ParseError::EmptyIdentifier));
}

#[test]
fn parse_comparison_operator_reads_both_operators() {
    assert_eq!(operator("=b"), Ok(("b".to_string(), ComparisonOperator::Equal)));
    assert_eq!(operator("!=b"), Ok(("b".to_string(), ComparisonOperator::NotEqual)));
    assert_eq!(operator("  =  b"), Ok(("b".to_string(), ComparisonOperator::Equal)));
    assert_eq!(operator("\t!=\n"), Ok(("".to_string(), ComparisonOperator::NotEqual)));
    assert_eq!(operator("=="), Ok(("=".to_string(), ComparisonOperator::Equal)));
}

#[test]
fn parse_comparison_operator_reports_after_whitespace() {
    assert_eq!(
        operator("  < b"),
        Err(ParseError::GrammarMismatch(Rule::ComparisonOperator, "< b".to_string()))
    );
    assert_eq!(
        operator("! = b"),
        Err(ParseError::GrammarMismatch(Rule::ComparisonOperator, "! = b".to_string()))
    );
    assert_eq!(
        operator(""),
        Err(ParseError::GrammarMismatch(Rule::ComparisonOperator, "".to_string()))
    );
}

#[test]
fn parse_condition_reads_a_comparison() {
    assert_eq!(
        condition("column4 = \"value\""),
        (
            "".to_string(),
            SearchCondition::ColumnComparison(
                col_val("column4"),
                ComparisonOperator::Equal,
                str_val("value")
            )
        )
    );
    assert_eq!(
        condition("\"a\"!=b rest"),
        (
            " rest".to_string(),
            SearchCondition::ColumnComparison(
                str_val("a"),
                ComparisonOperator::NotEqual,
                col_val("b")
            )
        )
    );
}

#[test]
fn parse_condition_reads_flat_connectives() {
    assert_eq!(
        condition("AND a b"),
        ("".to_string(), SearchCondition::And(col_val("a"), col_val("b")))
    );
    assert_eq!(
        condition("OR \"x\"  y z"),
        (" z".to_string(), SearchCondition::Or(str_val("x"), col_val("y")))
    );
    assert_eq!(condition("NOT a"), ("".to_string(), SearchCondition::Not(col_val("a"))));
    assert_eq!(
        condition("NOT \"a\" b"),
        (" b".to_string(), SearchCondition::Not(str_val("a")))
    );
}

#[test]
fn parse_condition_tries_the_comparison_first() {
    assert_eq!(
        condition("AND = b"),
        (
            "".to_string(),
            SearchCondition::ColumnComparison(
                col_val("AND"),
                ComparisonOperator::Equal,
                col_val("b")
            )
        )
    );
    assert_eq!(
        condition("NOT != NOT"),
        (
            "".to_string(),
            SearchCondition::ColumnComparison(
                col_val("NOT"),
                ComparisonOperator::NotEqual,
                col_val("NOT")
            )
        )
    );
}

#[test]
fn parse_condition_falls_back_to_empty() {
    assert_eq!(condition(""), ("".to_string(), SearchCondition::Empty));
    assert_eq!(condition("a AND b"), ("a AND b".to_string(), SearchCondition::Empty));
    assert_eq!(condition("a = "), ("a = ".to_string(), SearchCondition::Empty));
    assert_eq!(condition("a = \"open"), ("a = \"open".to_string(), SearchCondition::Empty));
    assert_eq!(condition("AND a"), ("AND a".to_string(), SearchCondition::Empty));
    assert_eq!(condition("ANDa b"), ("ANDa b".to_string(), SearchCondition::Empty));
    assert_eq!(condition("and a b"), ("and a b".to_string(), SearchCondition::Empty));
    assert_eq!(condition("not a"), ("not a".to_string(), SearchCondition::Empty));
    assert_eq!(condition("  a = b"), ("  a = b".to_string(), SearchCondition::Empty));
}

#[test]
fn parse_columns_reads_a_comma_separated_list() {
    assert_eq!(
        columns("a,b , c  ,d FROM"),
        (" FROM".to_string(), vec![col("a"), col("b"), col("c"), col("d")])
    );
    assert_eq!(columns("a FROM"), (" FROM".to_string(), vec![col("a")]));
    assert_eq!(columns("a, a"), ("".to_string(), vec![col("a"), col("a")]));
}

#[test]
fn parse_columns_accepts_an_empty_list() {
    assert_eq!(columns(""), ("".to_string(), vec![]));
    assert_eq!(columns(", a"), (", a".to_string(), vec![]));
    assert_eq!(columns("* FROM t"), ("* FROM t".to_string(), vec![]));
}

#[test]
fn parse_columns_leaves_a_dangling_comma() {
    assert_eq!(columns("a, FROM"), ("".to_string(), vec![col("a"), col("FROM")]));
    assert_eq!(columns("a , ,b"), (" , ,b".to_string(), vec![col("a")]));
    assert_eq!(columns("a,"), (",".to_string(), vec![col("a")]));
}

#[test]
fn parse_select_reads_a_statement_without_where() {
    assert_eq!(
        select("SELECT a FROM t"),
        Ok(("".to_string(), statement(&["a"], "t", SearchCondition::Empty)))
    );
    assert_eq!(
        select("SELECT a FROM t;"),
        Ok((";".to_string(), statement(&["a"], "t", SearchCondition::Empty)))
    );
}

#[test]
fn parse_select_ignores_the_case_of_keywords() {
    let expected = statement(
        &["a", "b"],
        "t",
        SearchCondition::ColumnComparison(col_val("a"), ComparisonOperator::Equal, col_val("b")),
    );
    assert_eq!(
        select("select a,b from t where a=b"),
        Ok(("".to_string(), expected.clone()))
    );
    assert_eq!(
        select("SeLeCt\ta ,b\nFrOm\r\nt\n wHeRe  a = b"),
        Ok(("".to_string(), expected))
    );
}

#[test]
fn parse_select_reads_flat_connectives_after_where() {
    assert_eq!(
        select("SELECT a FROM t WHERE AND a \"x\""),
        Ok((
            "".to_string(),
            statement(&["a"], "t", SearchCondition::And(col_val("a"), str_val("x")))
        ))
    );
    assert_eq!(
        select("SELECT a FROM t WHERE NOT a"),
        Ok(("".to_string(), statement(&["a"], "t", SearchCondition::Not(col_val("a")))))
    );
}

#[test]
fn parse_select_leaves_an_incomplete_where_unread() {
    assert_eq!(
        select("SELECT a FROM t WHERE"),
        Ok((" WHERE".to_string(), statement(&["a"], "t", SearchCondition::Empty)))
    );
    assert_eq!(
        select("SELECT a FROM t WHEREx = 1"),
        Ok((" WHEREx = 1".to_string(), statement(&["a"], "t", SearchCondition::Empty)))
    );
    assert_eq!(
        select("SELECT a FROM t WHERE a AND b"),
        Ok(("a AND b".to_string(), statement(&["a"], "t", SearchCondition::Empty)))
    );
    assert_eq!(
        select("SELECT a FROM t ORDER BY a"),
        Ok((" ORDER BY a".to_string(), statement(&["a"], "t", SearchCondition::Empty)))
    );
}

#[test]
fn parse_select_reports_each_rule() {
    assert_eq!(
        select("SELEC a FROM t"),
        Err(ParseError::GrammarMismatch(Rule::SelectKeyword, "SELEC a FROM t".to_string()))
    );
    assert_eq!(
        select(" SELECT a FROM t"),
        Err(ParseError::GrammarMismatch(Rule::SelectKeyword, " SELECT a FROM t".to_string()))
    );
    assert_eq!(
        select("SELECTa FROM t"),
        Err(ParseError::GrammarMismatch(Rule::Whitespace, "a FROM t".to_string()))
    );
    assert_eq!(
        select("SELECT a,b"),
        Err(ParseError::GrammarMismatch(Rule::Whitespace, "".to_string()))
    );
    assert_eq!(
        select("SELECT a, FROM t"),
        Err(ParseError::GrammarMismatch(Rule::FromKeyword, "t".to_string()))
    );
    assert_eq!(
        select("SELECT a FORM t"),
        Err(ParseError::GrammarMismatch(Rule::FromKeyword, "FORM t".to_string()))
    );
    assert_eq!(
        select("SELECT a FROM"),
        Err(ParseError::GrammarMismatch(Rule::Whitespace, "".to_string()))
    );
    assert_eq!(select("SELECT a FROM \"t\""), Err(ParseError::EmptyIdentifier));
    assert_eq!(select("SELECT a FROM  "), Err(ParseError::EmptyIdentifier));
}

#[test]
fn parse_select_cannot_succeed_without_a_column() {
    assert_eq!(
        select("SELECT  FROM t"),
        Err(ParseError::GrammarMismatch(Rule::FromKeyword, "t".to_string()))
    );
    assert_eq!(
        select("SELECT * FROM t"),
        Err(ParseError::GrammarMismatch(Rule::Whitespace, "* FROM t".to_string()))
    );
}

#[test]
fn parse_reads_from_a_str() {
    assert_eq!(
        parse("select caf\u{e9} from t"),
        Err(ParseError::GrammarMismatch(Rule::Whitespace, "\u{e9} from t".to_string()))
    );
    assert_eq!(
        parse("SELECT a FROM t WHERE a = \"\\u00e9\" and more"),
        Ok(statement(
            &["a"],
            "t",
            SearchCondition::ColumnComparison(
                col_val("a"),
                ComparisonOperator::Equal,
                str_val("\u{e9}")
            )
        ))
    );
    assert_eq!(
        parse(""),
        Err(ParseError::GrammarMismatch(Rule::SelectKeyword, "".to_string()))
    );
}
