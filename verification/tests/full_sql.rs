use sql_pseudonymizer::full_sql::{
    answer_text, finds_limit_all_by, outcome_text, replace_column, statements_text, Lexeme,
};

#[test]
fn test_a() {
    let sql = "SELECT x, y FROM t WHERE z = 1";
    let statements = replace_column(sql).unwrap();
    println!("{}", statements[0].to_string());
    let expectd = format!(
        "SELECT {:x}, {:x} FROM t WHERE {:x} = 1",
        md5::compute("x"),
        md5::compute("y"),
        md5::compute("z")
    );
    assert_eq!(statements[0].to_string(), expectd);
}

#[test]
fn replace_column_passes_the_parser_error_on() {
    let outcome = replace_column("this is no statement");
    assert!(outcome.is_err());
    let text = outcome_text(&outcome);
    assert!(text.starts_with("sql parser error: "));
    assert_eq!(text, outcome.unwrap_err().to_string());
}

#[test]
fn replace_column_leaves_other_expressions() {
    let statements = replace_column("SELECT t.a, 'x', 1 + b FROM t").unwrap();
    let expected = format!("SELECT t.a, 'x', 1 + {:x} FROM t", md5::compute("b"));
    assert_eq!(statements[0].to_string(), expected);
}

#[test]
fn statements_text_concatenates() {
    let statements = replace_column("SELECT 1; SELECT 2").unwrap();
    assert_eq!(statements.len(), 2);
    assert_eq!(statements_text(&statements), "SELECT 1SELECT 2");
    assert_eq!(outcome_text(&Ok(statements)), "SELECT 1SELECT 2");
}

#[test]
fn replace_column_of_empty_text_is_empty() {
    let statements = replace_column("").unwrap();
    assert!(statements.is_empty());
    assert_eq!(statements_text(&statements), "");
}

#[test]
fn answer_text_is_the_text_of_the_outcome() {
    let sql = "SELECT x, y FROM t WHERE z = 1; SELECT \"q\", `r` FROM t";
    let expected = format!(
        "SELECT {:x}, {:x} FROM t WHERE {:x} = 1SELECT \"{:x}\", `{:x}` FROM t",
        md5::compute("x"),
        md5::compute("y"),
        md5::compute("z"),
        md5::compute("q"),
        md5::compute("r")
    );
    assert_eq!(answer_text(sql), Some(expected.clone()));
    assert_eq!(outcome_text(&replace_column(sql)), expected);
}

#[test]
fn answer_text_gives_the_parser_error() {
    let sql = "this is no statement";
    let expected = replace_column(sql).unwrap_err().to_string();
    assert_eq!(answer_text(sql), Some(expected));
    let unterminated = "SELECT 'abc";
    let expected = replace_column(unterminated).unwrap_err().to_string();
    assert_eq!(answer_text(unterminated), Some(expected));
    let expected = replace_column("LIMIT ALL BY").unwrap_err().to_string();
    assert_eq!(answer_text("LIMIT ALL BY"), Some(expected));
}

#[test]
fn answer_text_displays_intervals_and_quoted_names() {
    let sql = "SELECT INTERVAL '5' SECOND (1, 3), 'a' AS \"b\", c AS 'd' FROM \"t\" LIMIT 2 BY c";
    let expected = format!(
        "SELECT INTERVAL '5' SECOND (1, 3), 'a' AS \"b\", {:x} AS 'd' FROM \"t\" LIMIT 2 BY {:x}",
        md5::compute("c"),
        md5::compute("c")
    );
    assert_eq!(answer_text(sql), Some(expected));
    let table = "CREATE TABLE t (a INT AUTO_INCREMENT)";
    assert_eq!(answer_text(table), Some(table.to_string()));
}

#[test]
fn answer_text_gives_none_for_limit_all_by() {
    for sql in [
        "SELECT a FROM t LIMIT ALL BY a",
        "select a from t limit all by a",
        "SELECT a FROM t LIMIT /* every */ ALL -- rows\n\tBY a, b",
        "SELECT 1; SELECT a FROM t LIMIT ALL BY a",
    ] {
        assert!(replace_column(sql).is_ok(), "{}", sql);
        assert_eq!(answer_text(sql), None, "{}", sql);
    }
}

#[test]
fn answer_text_answers_where_limit_all_by_is_not_spelled() {
    for sql in [
        "SELECT a FROM t LIMIT ALL",
        "SELECT a FROM t UNION ALL SELECT b FROM u ORDER BY 1 LIMIT 3",
        "SELECT 'LIMIT ALL BY' FROM t",
        "SELECT \"LIMIT\" FROM t GROUP BY ALL",
        "SELECT a FROM t LIMIT 1 BY a",
    ] {
        let expected: String =
            replace_column(sql).unwrap().iter().map(|s| s.to_string()).collect();
        assert_eq!(answer_text(sql), Some(expected), "{}", sql);
    }
}

#[test]
fn finds_limit_all_by_reads_the_tokens() {
    let (limit, all, by) = (Lexeme::Limit, Lexeme::All, Lexeme::By);
    let (other, space) = (Lexeme::Other, Lexeme::Whitespace);
    assert!(finds_limit_all_by(&vec![limit, all, by]));
    assert!(finds_limit_all_by(&vec![other, limit, space, all, space, space, by, other]));
    assert!(finds_limit_all_by(&vec![limit, limit, all, by]));
    assert!(finds_limit_all_by(&vec![limit, all, by, limit, other]));
    assert!(!finds_limit_all_by(&vec![]));
    assert!(!finds_limit_all_by(&vec![limit, all]));
    assert!(!finds_limit_all_by(&vec![limit, other, all, by]));
    assert!(!finds_limit_all_by(&vec![limit, all, other, by]));
    assert!(!finds_limit_all_by(&vec![all, by, limit]));
    assert!(!finds_limit_all_by(&vec![limit, all, all, by]));
}

fn sequences(alphabet: &[&str], longest: usize) -> Vec<String> {
    let mut all = vec![String::new()];
    let mut last = vec![String::new()];
    for _ in 0..longest {
        let mut next = Vec::new();
        for prefix in &last {
            for piece in alphabet {
                next.push(format!("{} {}", prefix, piece));
            }
        }
        all.extend(next.iter().cloned());
        last = next;
    }
    all
}

fn answers_unless_limit_all_by(sql: &str) {
    let spelled = sql.to_uppercase().contains("LIMIT ALL BY");
    match (replace_column(sql), answer_text(sql)) {
        (Ok(_), None) => assert!(spelled, "{}", sql),
        (Ok(statements), Some(text)) => {
            let expected: String = statements.iter().map(|s| s.to_string()).collect();
            assert_eq!(text, expected, "{}", sql);
        }
        (Err(e), answer) => assert_eq!(answer, Some(e.to_string()), "{}", sql),
    }
}

#[test]
fn answer_text_displays_what_parses_after_a_table() {
    let alphabet = ["LIMIT", "ALL", "BY", "1", "a", ",", "OFFSET", "ORDER", "ROWS", "UNION"];
    for tail in sequences(&alphabet, 4) {
        answers_unless_limit_all_by(&format!("SELECT a FROM t{}", tail));
    }
}

#[test]
fn answer_text_displays_intervals_that_parse() {
    let alphabet = ["INTERVAL", "'1'", "1", "SECOND", "DAY", "(2)", "(2, 3)", "TO", "a", ","];
    for tail in sequences(&alphabet, 4) {
        answers_unless_limit_all_by(&format!("SELECT{}", tail));
    }
}

#[test]
fn answer_text_displays_quoted_names_that_parse() {
    let alphabet = ["a", "\"b\"", "`c`", "'d'", "[e]", "AS", ".", ",", "*", "FROM"];
    for tail in sequences(&alphabet, 4) {
        answers_unless_limit_all_by(&format!("SELECT{}", tail));
    }
}

#[test]
fn answer_text_displays_statements_of_many_kinds() {
    for sql in [
        "CREATE TABLE t (a INT PRIMARY KEY AUTOINCREMENT, b TEXT NOT NULL DEFAULT 'x', c INT ASC)",
        "CREATE TABLE \"t\" (`a` INT AUTO_INCREMENT, b TIMESTAMP ON UPDATE now())",
        "ALTER TABLE t ADD COLUMN c INT, DROP COLUMN d",
        "INSERT INTO t (a, b) VALUES (1, 'x'), (2, NULL)",
        "UPDATE t SET a = a + 1 WHERE b IN (SELECT c FROM u)",
        "DELETE FROM t WHERE a BETWEEN 1 AND 2",
        "SELECT CASE WHEN a THEN b ELSE c END FROM t",
        "SELECT a, count(*) OVER (PARTITION BY b ORDER BY c) FROM t GROUP BY a HAVING a > 1",
        "SELECT * FROM t JOIN u ON t.a = u.a LEFT JOIN v USING (b)",
        "WITH w AS (SELECT a FROM t) SELECT * FROM w ORDER BY a DESC LIMIT 1 OFFSET 2",
        "SELECT a FROM t LIMIT 1, 2",
        "SELECT INTERVAL '1' DAY TO SECOND (3), INTERVAL 1 SECOND, INTERVAL '2' SECOND (4)",
        "SELECT CAST(a AS INTERVAL DAY) FROM t",
        "SELECT a[1], b.c, d -> 'e' FROM t",
        "CREATE VIEW v AS SELECT a FROM t",
        "CREATE INDEX i ON t (a, b)",
        "DROP TABLE IF EXISTS t",
        "BEGIN; COMMIT; ROLLBACK",
        "SET a = 1",
        "EXPLAIN SELECT a FROM t",
        "SELECT a FROM t FETCH FIRST 2 ROWS ONLY",
        "SELECT a FROM t FOR UPDATE",
        "GRANT SELECT ON t TO u",
        "TRUNCATE TABLE t",
    ] {
        answers_unless_limit_all_by(sql);
    }
}
