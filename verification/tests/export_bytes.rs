use parquet_tui::export::{export, export_as, ExportError};

fn strings(v: &[&str]) -> Vec<String> {
    v.iter().map(|s| s.to_string()).collect()
}

#[test]
fn csv_export_writes_header_then_rows() {
    let headers = strings(&["id", "name"]);
    let rows = vec![strings(&["1", "a,b"]), strings(&["2", "say \"hi\""])];
    let bytes = export(&headers, &rows, "/tmp/out.CSV").unwrap();
    assert_eq!(
        String::from_utf8(bytes).unwrap(),
        "id,name\n1,\"a,b\"\n2,\"say \"\"hi\"\"\"\n"
    );
}

#[test]
fn csv_export_refuses_a_row_of_another_length() {
    let headers = strings(&["id", "name"]);
    let rows = vec![strings(&["1", "a"]), strings(&["2"])];
    let err = export_as("csv", &headers, &rows).unwrap_err();
    assert!(matches!(
        err,
        ExportError::UnequalLengths {
            expected_len: 2,
            len: 1,
            ..
        }
    ));
    assert_eq!(
        err.message(),
        "CSV error: found record with 1 fields, but the previous record has 2 fields"
    );
}

#[test]
fn json_export_is_an_array_of_objects() {
    let headers = strings(&["id", "name"]);
    let rows = vec![strings(&["1"]), strings(&["2", "b", "extra"])];
    let bytes = export(&headers, &rows, "out.json").unwrap();
    let parsed: serde_json::Value = serde_json::from_slice(&bytes).unwrap();
    let arr = parsed.as_array().unwrap();
    assert_eq!(arr.len(), 2);
    assert_eq!(arr[0]["id"], "1");
    assert_eq!(arr[0]["name"], "");
    assert_eq!(arr[1]["name"], "b");
    assert_eq!(arr[1].as_object().unwrap().len(), 2);
}

#[test]
fn xlsx_export_gives_a_zip_container() {
    let headers = strings(&["id"]);
    let rows = vec![strings(&["1"])];
    let bytes = export(&headers, &rows, "/tmp/book.Xlsx").unwrap();
    assert!(bytes.starts_with(b"PK"));
}

#[test]
fn xlsx_export_refuses_a_too_long_cell() {
    let headers = strings(&["id"]);
    let long = "x".repeat(32_768);
    let rows = vec![vec![long]];
    let err = export_as("xlsx", &headers, &rows).unwrap_err();
    assert!(matches!(err, ExportError::StringTooLong(_)));
    assert_eq!(
        err.message(),
        "String exceeds Excel's limit of 32,767 characters."
    );
}

#[test]
fn xlsx_export_refuses_a_column_past_the_limit() {
    let mut headers: Vec<String> = vec![String::new(); 16_384];
    headers.push("late".to_string());
    let err = export_as("xlsx", &headers, &[]).unwrap_err();
    assert!(matches!(err, ExportError::CellOutOfRange(_)));
    assert_eq!(
        err.message(),
        "Row or column exceeds Excel's allowed limits (1,048,576 x 16,384)."
    );
}

#[test]
fn unknown_extension_is_refused() {
    let err = export(&strings(&["a"]), &[], "/tmp/out.TXT").unwrap_err();
    assert_eq!(
        err,
        ExportError::UnsupportedFormat {
            ext: "txt".to_string()
        }
    );
    assert_eq!(err.message(), "Unsupported export format: .txt");
    let err = export(&strings(&["a"]), &[], "/tmp/noext").unwrap_err();
    assert_eq!(err.message(), "Unsupported export format: .");
}
