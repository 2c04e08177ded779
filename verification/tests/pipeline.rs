use sql_pseudonymizer::ast::{
    Column, ComparisonOperator, HashedColumn, HashedSelectStatement, SearchCondition,
    SelectStatement, Val,
};
use sql_pseudonymizer::digest::{digest, hash_statement, pseudonymize};
use sql_pseudonymizer::error::{ParseError, Rule};
use sql_pseudonymizer::render::{render, render_original};
use sql_pseudonymizer::statement::parse;

fn column(name: &str) -> Column {
    Column::ColumnName(name.to_string())
}

fn column_val(name: &str) -> Val {
    Val::Column(column(name))
}

#[test]
fn parse_accepts_select_with_comparison() {
    let parsed = parse("SELECT column1, column2 FROM my_table WHERE column4 = \"value\"");
    let expected = SelectStatement {
        columns: vec![column("column1"), column("column2")],
        table: "my_table".to_string(),
        where_clause: Some(SearchCondition::ColumnComparison(
            column_val("column4"),
            ComparisonOperator::Equal,
            Val::StringVal("value".to_string()),
        )),
    };
    assert_eq!(parsed, Ok(expected));
}

#[test]
fn parse_rejects_missing_column_list() {
    assert_eq!(
        parse("SELECT FROM t"),
        Err(ParseError::GrammarMismatch(Rule::FromKeyword, "t".to_string()))
    );
}

#[test]
fn digest_of_column1_is_standard_md5() {
    assert_eq!(digest("column1"), "85462f3980833d67fc6a95b192e39299");
    assert_eq!(digest("column1"), format!("{:x}", md5::compute("column1")));
    assert_eq!(digest("caf\u{e9}"), format!("{:x}", md5::compute([0x63, 0x61, 0x66, 0xc3, 0xa9])));
    assert_eq!(digest(""), "d41d8cd98f00b204e9800998ecf8427e");
    assert_eq!(digest("abc"), "900150983cd24fb0d6963f7d28e17f72");
}

#[test]
fn end_to_end_shows_digests_in_select_list_only() {
    let statement = parse("SELECT x, y FROM t WHERE z = \"1\"").unwrap();
    let text = render(pseudonymize(statement));
    let expected = format!(
        "SELECT {:x},{:x} FROM t WHERE z=1",
        md5::compute("x"),
        md5::compute("y")
    );
    assert_eq!(text, expected);
    assert_eq!(
        text,
        "SELECT 9dd4e461268c8034f5c8564e155c67a6,415290769594460e2e485922904f345d FROM t WHERE z=1"
    );
}

#[test]
fn hash_statement_keeps_where_clause() {
    let statement = parse("SELECT a FROM t WHERE a != b").unwrap();
    let hashed = hash_statement(&statement);
    assert_eq!(hashed.where_clause, statement.where_clause);
    assert_eq!(hashed.table, "t");
    assert_eq!(
        hashed.columns,
        vec![HashedColumn { name: "a".to_string(), digest: digest("a") }]
    );
}

#[test]
fn render_writes_given_digests() {
    let hashed = HashedSelectStatement {
        columns: vec![
            HashedColumn::new("a".to_string(), "d1".to_string()),
            HashedColumn::new("b".to_string(), "d2".to_string()),
        ],
        table: "t".to_string(),
        where_clause: Some(SearchCondition::And(column_val("a"), column_val("b"))),
    };
    assert_eq!(render(hashed), "SELECT d1,d2 FROM t WHERE a AND b");
}

#[test]
fn render_original_round_trips() {
    let text = "SELECT a,b FROM t WHERE a!=b";
    let statement = parse(text).unwrap();
    assert_eq!(render_original(&statement), text);
    assert_eq!(parse(&render_original(&statement)), Ok(statement));
}

#[test]
fn render_writes_every_form_of_where() {
    let make = |clause: Option<SearchCondition>| HashedSelectStatement {
        columns: vec![HashedColumn::new("a".to_string(), "d".to_string())],
        table: "t".to_string(),
        where_clause: clause,
    };
    assert_eq!(render(make(None)), "SELECT d FROM t");
    assert_eq!(render(make(Some(SearchCondition::Empty))), "SELECT d FROM t");
    assert_eq!(
        render(make(Some(SearchCondition::ColumnComparison(
            column_val("a"),
            ComparisonOperator::NotEqual,
            Val::StringVal("x y".to_string())
        )))),
        "SELECT d FROM t WHERE a!=x y"
    );
    assert_eq!(
        render(make(Some(SearchCondition::Or(Val::StringVal("1".to_string()), column_val("b"))))),
        "SELECT d FROM t WHERE 1 OR b"
    );
    assert_eq!(
        render(make(Some(SearchCondition::Not(column_val("b"))))),
        "SELECT d FROM t WHERE NOT b"
    );
}

#[test]
fn render_writes_an_empty_select_list() {
    let hashed = HashedSelectStatement {
        columns: vec![],
        table: "t".to_string(),
        where_clause: None,
    };
    assert_eq!(render(hashed), "SELECT  FROM t");
    let statement = SelectStatement { columns: vec![], table: "t".to_string(), where_clause: None };
    assert_eq!(render_original(&statement), "SELECT  FROM t");
}

#[test]
fn digests_are_equal_for_equal_names() {
    let statement = parse("SELECT a, b, a FROM t").unwrap();
    let first = hash_statement(&statement);
    let second = hash_statement(&statement);
    assert_eq!(first, second);
    assert_eq!(first.columns[0].digest, first.columns[2].digest);
    assert_ne!(first.columns[0].digest, first.columns[1].digest);
    for (column, hashed) in statement.columns.iter().zip(first.columns.iter()) {
        assert_eq!(&hashed.name, column.name());
        assert_eq!(hashed.digest, digest(column.name()));
        assert_eq!(hashed.digest, format!("{:x}", md5::compute(column.name())));
        assert_eq!(hashed.digest.len(), 32);
    }
    assert_eq!(pseudonymize(statement), first);
}

#[test]
fn hash_column_pairs_name_and_digest() {
    let hashed = sql_pseudonymizer::digest::hash_column(&column("column1"));
    assert_eq!(hashed.name, "column1");
    assert_eq!(hashed.digest, format!("{:x}", md5::compute("column1".as_bytes())));
    assert_ne!(hashed.digest, hashed.name);
}

#[test]
fn pseudonymize_keeps_where_clause_for_every_form() {
    for text in [
        "SELECT a FROM t",
        "SELECT a FROM t WHERE a = b",
        "SELECT a FROM t WHERE AND a b",
        "SELECT a FROM t WHERE OR a \"b\"",
        "SELECT a FROM t WHERE NOT a",
    ] {
        let statement = parse(text).unwrap();
        let clause = statement.where_clause.clone();
        let table = statement.table.clone();
        let hashed = pseudonymize(statement);
        assert_eq!(hashed.where_clause, clause);
        assert_eq!(hashed.table, table);
    }
    let absent = SelectStatement { columns: vec![], table: "t".to_string(), where_clause: None };
    assert_eq!(hash_statement(&absent).where_clause, None);
}

#[test]
fn parsing_reads_back_what_was_rendered() {
    let clauses = vec![
        SearchCondition::Empty,
        SearchCondition::ColumnComparison(
            column_val("a"),
            ComparisonOperator::Equal,
            column_val("b_1"),
        ),
        SearchCondition::ColumnComparison(
            column_val("AND"),
            ComparisonOperator::NotEqual,
            column_val("NOT"),
        ),
        SearchCondition::Not(column_val("x")),
        SearchCondition::And(column_val("AND"), column_val("b")),
        SearchCondition::Or(column_val("OR"), column_val("b")),
    ];
    for clause in clauses {
        let statement = SelectStatement {
            columns: vec![column("FROM"), column("c2"), column("_")],
            table: "my_table".to_string(),
            where_clause: Some(clause),
        };
        assert_eq!(parse(&render_original(&statement)), Ok(statement));
    }
}

#[test]
fn parsing_does_not_read_back_infix_connectives() {
    let statement = SelectStatement {
        columns: vec![column("a")],
        table: "t".to_string(),
        where_clause: Some(SearchCondition::And(column_val("a"), column_val("b"))),
    };
    let text = render_original(&statement);
    assert_eq!(text, "SELECT a FROM t WHERE a AND b");
    assert_eq!(parse(&text).unwrap().where_clause, Some(SearchCondition::Empty));
}

#[test]
fn clones_are_equal() {
    let statement = parse("SELECT a, b FROM t WHERE a != \"x\"").unwrap();
    assert_eq!(statement.clone(), statement);
    let hashed = hash_statement(&statement);
    assert_eq!(hashed.clone(), hashed);
    let error = parse("SELECT").unwrap_err();
    assert_eq!(error.clone(), error);
}

#[test]
fn operator_and_operand_texts() {
    assert_eq!(ComparisonOperator::Equal.text(), "=");
    assert_eq!(ComparisonOperator::NotEqual.text(), "!=");
    assert_eq!(column_val("a").text(), "a");
    assert_eq!(Val::StringVal("a b".to_string()).text(), "a b");
}

#[test]
fn digests_are_thirty_two_lowercase_hex_digits() {
    for name in ["", "a", "column1", "caf\u{e9}", "A_very_long_name_0123456789"] {
        let text = digest(name);
        assert_eq!(text.len(), 32);
        assert!(text.chars().all(|c| matches!(c, '0'..='9' | 'a'..='f')), "{}", text);
    }
}

#[test]
fn parsing_reads_back_a_rendered_pseudonymized_statement() {
    let statement = parse("SELECT x, y FROM t WHERE z != x").unwrap();
    let hashed = hash_statement(&statement);
    let expected = SelectStatement {
        columns: hashed.columns.iter().map(|c| Column::ColumnName(c.digest.clone())).collect(),
        table: hashed.table.clone(),
        where_clause: hashed.where_clause.clone(),
    };
    assert_eq!(parse(&render(hashed)), Ok(expected));
}
