use parquet_tui::app::{App, OperationKind, OperationOutcome, TableDensity};
use parquet_tui::engine::metadata::{
    build_tree, schema_tree_from_rows, SchemaNode, KvMetadata, ParquetMetadata, RowGroupInfo, SchemaRow,
};
use parquet_tui::settings::{default_date_format, default_page_size, default_true, DateFormat, Settings};
use parquet_tui::ui::field_select::{field_items, move_cursor, select_none, toggle_current};
use parquet_tui::ui::metadata_view::metadata_lines;
use parquet_tui::ui::table_view::{compute_row_start, compute_visible_cols, compute_widths, header_label};
use parquet_tui::ui::text_views::{input_cursor_x, operation_line, operations_shown, render_schema, status_summary};

fn table(headers: &[&str], rows: &[&[&str]]) -> App<()> {
    let mut app: App<()> = App::new(Settings::default());
    app.headers = headers.iter().map(|s| s.to_string()).collect();
    app.selected_fields = app.headers.clone();
    app.rows = rows
        .iter()
        .map(|r| r.iter().map(|s| s.to_string()).collect())
        .collect();
    app
}

fn row(name: &str, children: Option<i64>) -> SchemaRow {
    SchemaRow {
        name: name.to_string(),
        path: name.to_string(),
        type_label: "INT64".to_string(),
        repetition_type: "REQUIRED".to_string(),
        num_children: children,
    }
}

#[test]
fn settings_defaults() {
    let s = Settings::default();
    assert_eq!(s.page_size, 1000);
    assert!(!s.always_load_all);
    assert!(s.dark_mode);
    assert_eq!(s.date_format, DateFormat::Default);
    assert_eq!(default_page_size(), 1000);
    assert!(default_true());
    assert_eq!(default_date_format(), DateFormat::Default);
}

#[test]
fn schema_tree_is_built_depth_first() {
    let rows = vec![
        row("schema", Some(2)),
        row("a", Some(1)),
        row("a1", None),
        row("b", Some(0)),
    ];
    let tree = schema_tree_from_rows(rows).unwrap();
    assert_eq!(tree.children.len(), 2);
    assert_eq!(tree.children[0].name, "a");
    assert_eq!(tree.children[0].children[0].name, "a1");
    assert_eq!(tree.children[1].name, "b");
    let mut lines = Vec::new();
    render_schema(&tree, 0, &mut lines);
    assert_eq!(
        lines,
        vec![
            "schema [INT64] REQUIRED (children: 2)",
            "  \u{251c}\u{2500} a [INT64] REQUIRED (children: 1)",
            "    \u{251c}\u{2500} a1 [INT64] REQUIRED (children: 0)",
            "  \u{251c}\u{2500} b [INT64] REQUIRED (children: 0)",
        ]
    );
    assert!(schema_tree_from_rows(vec![]).is_err());
}

#[test]
fn schema_tree_stops_when_rows_run_out() {
    let tree = schema_tree_from_rows(vec![row("schema", Some(3)), row("a", None)]).unwrap();
    assert_eq!(tree.children.len(), 1);
}

#[test]
fn metadata_listing_cuts_long_values() {
    let tree = schema_tree_from_rows(vec![row("schema", Some(0))]).unwrap();
    let meta = ParquetMetadata {
        schema_tree: tree,
        row_groups: vec![RowGroupInfo {
            row_group_id: 0,
            row_num: 10,
            total_byte_size: 100,
            total_compressed_size: 50,
        }],
        kv_metadata: vec![KvMetadata {
            key: "k".to_string(),
            value: "v".repeat(81),
        }],
    };
    let sizes = vec![("100 B".to_string(), "50 B".to_string())];
    let lines = metadata_lines(&Some(meta), &sizes);
    assert_eq!(lines[0], "=== Schema Tree ===");
    assert_eq!(lines[2], "");
    assert_eq!(lines[3], "=== Row Groups (1) ===");
    assert_eq!(lines[4], "  #0: 10 rows, 100 B (50 B)");
    assert_eq!(lines[6], "=== Key-Value Metadata (1) ===");
    assert_eq!(lines[7], format!("  k: {}...", "v".repeat(80)));
    assert_eq!(metadata_lines(&None, &vec![]), vec!["Loading metadata..."]);
}

#[test]
fn widths_fill_the_available_space() {
    let app = table(&["id", "name"], &[&["1", "alice"], &["2", "bob"]]);
    let (start, end) = compute_visible_cols(&app, 40);
    assert_eq!((start, end), (0, 2));
    let widths = compute_widths(&app, start, end, 40);
    assert_eq!(widths.iter().sum::<usize>(), 40);
    let mut dense = app;
    dense.table_density = TableDensity::Dense;
    let widths = compute_widths(&dense, 0, 2, 40);
    assert!(widths.iter().sum::<usize>() < 40);
}

#[test]
fn row_start_keeps_the_cursor_on_screen() {
    let rows: Vec<Vec<String>> = (0..100).map(|i| vec![i.to_string()]).collect();
    let mut app = table(&["n"], &[]);
    app.rows = rows;
    app.cursor_row = 50;
    let start = compute_row_start(&app, 13);
    assert!(start <= 50 && 50 < start + 10);
}

#[test]
fn header_label_marks_the_sort() {
    let mut app = table(&["id", "age"], &[&["1", "2"]]);
    app.sort = Some(parquet_tui::engine::SortSpec {
        column_index: 1,
        column_name: "age".to_string(),
        direction: parquet_tui::engine::SortDirection::Desc,
    });
    assert_eq!(header_label(&app, 0), "id");
    assert_eq!(header_label(&app, 1), "age \u{2193}");
}

#[test]
fn operations_screen_shows_newest_first() {
    let mut app = table(&["id"], &[]);
    for s in ["one", "two", "three"] {
        app.record_operation(OperationKind::Sql, OperationOutcome::Succeeded, s, None);
    }
    assert_eq!(operations_shown(&app, 3), vec![2, 1]);
    app.operation_log_scroll = 2;
    assert_eq!(operations_shown(&app, 10), vec![0]);
    app.operation_log_scroll = 5;
    assert!(operations_shown(&app, 10).is_empty());
    assert_eq!(operation_line(&app.operation_log[0]), "#001 Sql Succeeded: one");
}

#[test]
fn status_line_summarises_the_view() {
    let app = table(&["id"], &[&["1"]]);
    assert_eq!(
        status_summary(&app),
        "mode: table | rows: 1 | total: 0 | fields: 1 | offset: 0 | partitions: 0 | page: 1000"
    );
}

#[test]
fn input_cursor_stays_inside_the_bar() {
    assert_eq!(input_cursor_x(0, 20, 3), 4);
    assert_eq!(input_cursor_x(0, 20, 100), 18);
    assert_eq!(input_cursor_x(u16::MAX - 1, 10, 5), u16::MAX - 2);
}

#[test]
fn field_selection_toggles_and_lists() {
    let mut app = table(&["id", "name"], &[]);
    app.all_fields = app.headers.clone();
    move_cursor(&mut app, 5);
    assert_eq!(app.meta_scroll, 1);
    toggle_current(&mut app);
    assert_eq!(app.selected_fields, vec!["id"]);
    let (items, highlighted) = field_items(&app);
    assert_eq!(highlighted, 1);
    assert_eq!(items[0], (true, "[x]  id".to_string()));
    assert_eq!(items[1], (false, "[ ]  name".to_string()));
    select_none(&mut app);
    assert!(app.selected_fields.is_empty());
}

#[test]
fn build_tree_appends_after_existing_children() {
    let node = |name: &str, n: i64| SchemaNode {
        name: name.to_string(),
        path: name.to_string(),
        type_label: String::new(),
        repetition_type: String::new(),
        num_children: n,
        children: vec![],
    };
    let mut parent = node("p", 2);
    parent.children.push(node("old", 0));
    let rows = vec![row("x", None), row("y", Some(0)), row("z", None)];
    let mut pos = 0;
    let tree = build_tree(parent, &rows, &mut pos);
    assert_eq!(pos, 2);
    let names: Vec<&str> = tree.children.iter().map(|c| c.name.as_str()).collect();
    assert_eq!(names, vec!["old", "x", "y"]);
}

#[test]
fn visible_columns_accept_any_width() {
    let app = table(&["id", "name"], &[&["1", "alice"]]);
    assert_eq!(compute_visible_cols(&app, usize::MAX), (0, 2));
    let widths = compute_widths(&app, 0, 2, usize::MAX);
    assert_eq!(widths.iter().map(|w| *w as u128).sum::<u128>(), usize::MAX as u128);
}
