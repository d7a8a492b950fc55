use parquet_tui::engine::metadata::{kv_metadata_sql, row_groups_sql, schema_nodes_sql};
use parquet_tui::engine::{
    column_probe_sql, count_partitions, count_rows_sql, describe_sql, fields_from_names,
    finish_user_query, open_error_message, source_for_path, source_view_sql, EngineError,
    PathKind, SortDirection, SortSpec,
};

#[test]
fn a_missing_path_is_refused() {
    let err = source_for_path("/nope", PathKind::Missing).unwrap_err();
    assert_eq!(
        err,
        EngineError::MissingPath {
            path: "/nope".to_string()
        }
    );
    assert_eq!(err.message(), "Path does not exist: /nope");
}

#[test]
fn a_folder_is_read_by_glob_and_a_file_directly() {
    assert_eq!(
        source_for_path("/data/p", PathKind::Directory).unwrap(),
        (true, "'/data/p/**/*.parquet'".to_string())
    );
    assert_eq!(
        source_for_path("/data/f.parquet", PathKind::File).unwrap(),
        (false, "'/data/f.parquet'".to_string())
    );
}

#[test]
fn a_source_without_columns_is_refused() {
    assert_eq!(fields_from_names(vec![]).unwrap_err(), EngineError::NoFields);
    assert_eq!(
        EngineError::NoFields.message(),
        "No fields found in parquet file(s)"
    );
    let fields = fields_from_names(vec!["id".to_string(), "name".to_string()]).unwrap();
    assert_eq!(fields.len(), 2);
    assert_eq!(fields[1].name, "name");
}

#[test]
fn partitions_count_parquet_files_at_least_one() {
    let exts = vec![
        Some("parquet".to_string()),
        Some("crc".to_string()),
        None,
        Some("parquet".to_string()),
    ];
    assert_eq!(count_partitions(&exts), 2);
    assert_eq!(count_partitions(&[]), 1);
    assert_eq!(count_partitions(&[Some("PARQUET".to_string())]), 1);
}

#[test]
fn setup_queries_name_the_source() {
    let rp = "'/d/f.parquet'";
    assert_eq!(
        describe_sql(rp),
        "DESCRIBE SELECT * FROM read_parquet('/d/f.parquet')"
    );
    assert_eq!(
        count_rows_sql(rp),
        "SELECT count(*) FROM read_parquet('/d/f.parquet')"
    );
    assert_eq!(
        source_view_sql(rp),
        "CREATE TEMP VIEW \"pv_data\" AS SELECT * FROM read_parquet('/d/f.parquet')"
    );
    assert_eq!(
        schema_nodes_sql(rp),
        "SELECT name, name AS path, COALESCE(type, ''), COALESCE(repetition_type, ''), num_children FROM parquet_schema('/d/f.parquet')"
    );
    assert_eq!(
        row_groups_sql(rp),
        "SELECT DISTINCT row_group_id, row_group_num_rows, row_group_bytes, row_group_compressed_bytes FROM parquet_metadata('/d/f.parquet')"
    );
    assert_eq!(
        kv_metadata_sql(rp),
        "SELECT key, value FROM parquet_kv_metadata('/d/f.parquet')"
    );
}

#[test]
fn user_queries_are_probed_then_sorted_and_paged() {
    let q = "SELECT * FROM (SELECT 1 AS a) AS pv_query".to_string();
    assert_eq!(
        column_probe_sql(&q),
        "SELECT * FROM (SELECT * FROM (SELECT 1 AS a) AS pv_query) AS pv_columns LIMIT 0"
    );
    let sort = SortSpec {
        column_index: 0,
        column_name: "a".to_string(),
        direction: SortDirection::Asc,
    };
    assert_eq!(
        finish_user_query(q.clone(), Some(&sort), 1, 10, 5).unwrap(),
        "SELECT * FROM (SELECT 1 AS a) AS pv_query ORDER BY 1 ASC NULLS LAST LIMIT 5 OFFSET 10"
    );
    assert_eq!(
        finish_user_query(q, Some(&sort), 0, 0, 5).unwrap_err(),
        EngineError::SortOutOfRange
    );
}

#[test]
fn conversion_failures_get_a_friendly_message() {
    assert_eq!(open_error_message("IO Error: nope"), "IO Error: nope");
    assert_eq!(
        open_error_message("Conversion Error: x"),
        "Failed to read parquet file. The file may be corrupt or use an unsupported feature.\n\nDetails: Conversion Error: x"
    );
}
