use parquet_tui::app::{apply_order_by_to_sql, current_sql, split_limit_clause, strip_order_by_clause};
use parquet_tui::engine::{
    count_sql_query, escape_sql_string, make_column_safe, read_path_spec, read_rows_sql,
    strip_optional_where_prefix, validate_and_trim_sql, wrap_user_query, SortDirection, SortSpec,
};
use parquet_tui::keys::unquote_path;

#[test]
fn escape_sql_string_no_special_chars() {
    assert_eq!(escape_sql_string("hello"), "hello");
}

#[test]
fn escape_sql_string_with_single_quotes() {
    assert_eq!(escape_sql_string("it's"), "it''s");
    assert_eq!(escape_sql_string("'hello'"), "''hello''");
    assert_eq!(escape_sql_string("'"), "''");
}

#[test]
fn escape_sql_string_empty() {
    assert_eq!(escape_sql_string(""), "");
}

#[test]
fn validate_and_trim_sql_valid_select() {
    assert_eq!(
        validate_and_trim_sql("SELECT * FROM t").unwrap(),
        "SELECT * FROM t"
    );
}

#[test]
fn validate_and_trim_sql_valid_with() {
    let sql = "WITH cte AS (SELECT 1) SELECT * FROM cte";
    assert_eq!(validate_and_trim_sql(sql).unwrap(), sql);
}

#[test]
fn validate_and_trim_sql_rejects_ddl() {
    let err = validate_and_trim_sql("DELETE FROM t").unwrap_err();
    assert!(
        err.message()
            .contains("Only SELECT/WITH queries are supported"),
        "unexpected error: {}",
        err.message()
    );
}

#[test]
fn validate_and_trim_sql_empty() {
    let err = validate_and_trim_sql("").unwrap_err();
    assert!(
        err.message().contains("SQL query is empty"),
        "unexpected error: {}",
        err.message()
    );
}

#[test]
fn validate_and_trim_sql_whitespace_only() {
    let err = validate_and_trim_sql("   ").unwrap_err();
    assert!(
        err.message().contains("SQL query is empty"),
        "unexpected error: {}",
        err.message()
    );
}

#[test]
fn validate_and_trim_sql_trailing_semicolon() {
    assert_eq!(
        validate_and_trim_sql("SELECT * FROM t;").unwrap(),
        "SELECT * FROM t"
    );
}

#[test]
fn validate_and_trim_sql_leading_trailing_whitespace() {
    assert_eq!(
        validate_and_trim_sql("  SELECT * FROM t  ").unwrap(),
        "SELECT * FROM t"
    );
}

#[test]
fn strip_optional_where_prefix_present() {
    assert_eq!(strip_optional_where_prefix("WHERE age > 50"), "age > 50");
}

#[test]
fn strip_optional_where_prefix_absent() {
    assert_eq!(strip_optional_where_prefix("age > 50"), "age > 50");
}

#[test]
fn strip_optional_where_prefix_mixed_case() {
    assert_eq!(strip_optional_where_prefix("where age > 50"), "age > 50");
    assert_eq!(strip_optional_where_prefix("WHERE age > 50"), "age > 50");
    assert_eq!(strip_optional_where_prefix("Where age > 50"), "age > 50");
}

#[test]
fn strip_optional_where_prefix_trimmed() {
    assert_eq!(
        strip_optional_where_prefix("  WHERE age > 50  "),
        "age > 50"
    );
}

#[test]
fn strip_optional_where_prefix_exact_where() {
    assert_eq!(strip_optional_where_prefix("WHERE"), "");
}

#[test]
fn unquote_path_removes_matching_quotes() {
    assert_eq!(unquote_path("'data/file.parquet'"), "data/file.parquet");
    assert_eq!(unquote_path("\"data/file.parquet\""), "data/file.parquet");
    assert_eq!(unquote_path(" data/file.parquet "), "data/file.parquet");
    assert_eq!(unquote_path("'data/file.parquet\""), "'data/file.parquet\"");
}

#[test]
fn make_column_safe_escapes_double_quotes() {
    let safe = make_column_safe("col\"name");
    assert_eq!(safe, "\"col\"\"name\"");

    assert_eq!(make_column_safe("id"), "\"id\"");

    assert_eq!(make_column_safe(""), "\"\"");
}

#[test]
fn read_path_spec_quotes_file_and_globs_folder() {
    assert_eq!(read_path_spec("/d/it's.parquet", false), "'/d/it''s.parquet'");
    assert_eq!(read_path_spec("/d/part", true), "'/d/part/**/*.parquet'");
}

#[test]
fn read_rows_sql_builds_select_with_filter_sort_and_page() {
    let fields = vec!["id".to_string(), "na\"me".to_string()];
    let sort = SortSpec {
        column_index: 1,
        column_name: "na\"me".to_string(),
        direction: SortDirection::Desc,
    };
    let q = read_rows_sql(&fields, Some("  where age > 50 "), -5, 25, Some(&sort))
        .unwrap()
        .unwrap();
    assert_eq!(
        q,
        "SELECT \"id\", \"na\"\"me\" FROM \"pv_data\" WHERE age > 50 ORDER BY 2 DESC NULLS LAST LIMIT 25 OFFSET 0"
    );
}

#[test]
fn read_rows_sql_without_fields_reads_nothing() {
    assert!(read_rows_sql(&[], None, 0, 10, None).unwrap().is_none());
}

#[test]
fn read_rows_sql_rejects_sort_out_of_range() {
    let fields = vec!["id".to_string()];
    let sort = SortSpec {
        column_index: 1,
        column_name: "x".to_string(),
        direction: SortDirection::Asc,
    };
    let err = read_rows_sql(&fields, None, 0, 10, Some(&sort)).unwrap_err();
    assert_eq!(err.message(), "Sort column is out of range");
}

#[test]
fn wrap_user_query_and_count_query() {
    assert_eq!(
        wrap_user_query(" SELECT 1; ").unwrap(),
        "SELECT * FROM (SELECT 1) AS pv_query"
    );
    assert_eq!(
        count_sql_query("select a from t").unwrap(),
        "SELECT count(*) FROM (select a from t) AS pv_count"
    );
    assert!(count_sql_query("drop table t").is_err());
}

#[test]
fn order_by_is_replaced_before_the_limit() {
    assert_eq!(
        apply_order_by_to_sql(
            "SELECT * FROM pv_data ORDER BY x LIMIT 10",
            "age",
            Some(SortDirection::Desc)
        ),
        "SELECT * FROM pv_data ORDER BY \"age\" DESC LIMIT 10"
    );
    assert_eq!(
        apply_order_by_to_sql("SELECT * FROM pv_data ORDER BY x", "age", None),
        "SELECT * FROM pv_data"
    );
}

#[test]
fn sql_helpers_split_and_strip() {
    let (body, limit) = split_limit_clause("SELECT a FROM t limit 5");
    assert_eq!(body, "SELECT a FROM t");
    assert_eq!(limit, " limit 5");
    assert_eq!(strip_order_by_clause("SELECT a FROM t order by a"), "SELECT a FROM t");
    assert_eq!(current_sql("  "), "SELECT * FROM pv_data LIMIT 100");
    assert_eq!(current_sql(" SELECT 1 "), " SELECT 1 ");
}

#[test]
fn escaped_text_reads_back() {
    for s in ["it's", "''", "plain", "'a'b''c'"] {
        assert_eq!(escape_sql_string(s).replace("''", "'"), s);
    }
    for s in ["col\"name", "\"\"", "id"] {
        let safe = make_column_safe(s);
        assert!(safe.starts_with('"') && safe.ends_with('"'));
        assert_eq!(safe[1..safe.len() - 1].replace("\"\"", "\""), s);
    }
}

#[test]
fn a_sort_is_replaced_and_removed() {
    let s = "SELECT * FROM pv_data WHERE x > 1 LIMIT 100";
    let r = apply_order_by_to_sql(s, "age", Some(SortDirection::Asc));
    assert_eq!(r, "SELECT * FROM pv_data WHERE x > 1 ORDER BY \"age\" ASC LIMIT 100");
    assert_eq!(apply_order_by_to_sql(&r, "name", None), s);
    assert_eq!(
        apply_order_by_to_sql(&r, "name", Some(SortDirection::Desc)),
        apply_order_by_to_sql(s, "name", Some(SortDirection::Desc))
    );
    assert_eq!(apply_order_by_to_sql(s, "age", None), s);
}
