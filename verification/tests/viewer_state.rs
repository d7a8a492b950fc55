use parquet_tui::app::{
    App, Focus, Mode, OpenedSource, OperationKind, OperationLevel, OperationOutcome, ReloadPlan,
    SortToggle, COLUMN_QUERY_WINDOW_SIZE,
};
use parquet_tui::engine::{QueryResult, SortDirection};
use parquet_tui::keys::{handle_key, Completion, KeyCode, KeyInput, Request};
use parquet_tui::settings::Settings;

fn key(code: KeyCode) -> KeyInput {
    KeyInput { code, ctrl: false }
}

fn ctrl_key(c: char) -> KeyInput {
    KeyInput {
        code: KeyCode::Char(c),
        ctrl: true,
    }
}

fn viewer() -> App<()> {
    App::new(Settings::default())
}

/// A viewer with a file of the given fields open (`()` stands for the engine).
fn opened(fields: &[&str], records: i64) -> App<()> {
    let mut app = viewer();
    let opened = OpenedSource {
        field_names: fields.iter().map(|s| s.to_string()).collect(),
        record_count: records,
        partition_count: 1,
        path: "/data/basic_types.parquet".to_string(),
    };
    app.install_engine((), opened);
    app
}

#[test]
fn record_operation_appends_incrementing_ids() {
    let mut app = viewer();
    app.record_operation(OperationKind::Open, OperationOutcome::Started, "one", None);
    app.record_operation(OperationKind::Sql, OperationOutcome::Succeeded, "two", None);

    assert_eq!(app.operation_log.len(), 2);
    assert_eq!(app.operation_log[0].id, 1);
    assert_eq!(app.operation_log[1].id, 2);
}

#[test]
fn operation_log_respects_capacity() {
    let mut app = viewer();
    app.operation_log_capacity = 2;
    app.record_operation(OperationKind::Open, OperationOutcome::Started, "one", None);
    app.record_operation(OperationKind::Sql, OperationOutcome::Succeeded, "two", None);
    app.record_operation(
        OperationKind::Export,
        OperationOutcome::Failed,
        "three",
        None,
    );

    assert_eq!(app.operation_log.len(), 2);
    assert_eq!(app.operation_log[0].summary, "two");
    assert_eq!(app.operation_log[1].summary, "three");
}

#[test]
fn set_message_records_success_and_error() {
    let mut app = viewer();
    app.set_message("ok", false);
    app.set_message("bad", true);

    assert_eq!(app.operation_log.len(), 2);
    assert_eq!(app.operation_log[0].level, OperationLevel::Success);
    assert_eq!(app.operation_log[1].level, OperationLevel::Error);
    assert_eq!(app.operation_log[1].outcome, OperationOutcome::Failed);
}

#[test]
fn esc_quits_from_normal_mode() {
    let mut app = viewer();
    assert!(matches!(handle_key(&mut app, key(KeyCode::Esc)), Request::Quit));
}

#[test]
fn esc_cancels_sql_input_not_quit() {
    let mut app = viewer();
    app.mode = Mode::SqlInput;
    app.input_buffer = "select * from pv_data".to_string();

    assert!(matches!(
        handle_key(&mut app, key(KeyCode::Esc)),
        Request::Continue
    ));
    assert_eq!(app.mode, Mode::Normal);
    assert!(app.input_buffer.is_empty());
}

#[test]
fn slash_opens_sql_input_when_file_open() {
    let mut app = opened(&["id", "name"], 1000);

    assert!(matches!(
        handle_key(&mut app, key(KeyCode::Char('/'))),
        Request::Continue
    ));
    assert_eq!(app.mode, Mode::SqlInput);
}

#[test]
fn ctrl_s_also_opens_sql_input_when_file_open() {
    let mut app = opened(&["id", "name"], 1000);

    assert!(matches!(handle_key(&mut app, ctrl_key('s')), Request::Continue));
    assert_eq!(app.mode, Mode::SqlInput);
}

#[test]
fn plain_letters_do_not_open_sql_input() {
    let mut app = opened(&["id", "name"], 1000);

    assert!(matches!(
        handle_key(&mut app, key(KeyCode::Char('s'))),
        Request::Continue
    ));
    assert_eq!(app.mode, Mode::Normal);
}

#[test]
fn ctrl_b_toggles_operations_view() {
    let mut app = viewer();

    assert!(matches!(handle_key(&mut app, ctrl_key('b')), Request::Continue));
    assert_eq!(app.mode, Mode::Operations);

    assert!(matches!(handle_key(&mut app, ctrl_key('b')), Request::Continue));
    assert_eq!(app.mode, Mode::Normal);
}

#[test]
fn sql_input_without_file_is_refused() {
    let mut app = viewer();
    assert!(matches!(
        handle_key(&mut app, key(KeyCode::Char('/'))),
        Request::Continue
    ));
    assert_eq!(app.mode, Mode::Normal);
    assert_eq!(app.message, "Open a file first (press Ctrl+P)");
    assert!(app.message_is_error);
}

#[test]
fn sql_input_starts_from_the_default_query() {
    let mut app = opened(&["id"], 3);
    handle_key(&mut app, key(KeyCode::Char('/')));
    assert_eq!(app.input_buffer, "SELECT * FROM pv_data LIMIT 100");
    assert_eq!(app.focus, Focus::Sql);
}

#[test]
fn typing_and_enter_in_sql_input_asks_for_a_counted_reload() {
    let mut app = opened(&["id"], 3);
    app.mode = Mode::SqlInput;
    app.input_buffer = "SELECT 1".to_string();
    handle_key(&mut app, key(KeyCode::Backspace));
    handle_key(&mut app, key(KeyCode::Char('2')));
    assert_eq!(app.input_buffer, "SELECT 2");
    let r = handle_key(&mut app, key(KeyCode::Enter));
    assert!(matches!(r, Request::CountThenReload(Completion::SqlApplied(ref s)) if s == "SELECT 2"));
    assert_eq!(app.sql_query, "SELECT 2");
    assert_eq!(app.mode, Mode::Normal);
}

#[test]
fn enter_in_open_input_asks_to_open_the_unquoted_path() {
    let mut app = viewer();
    app.mode = Mode::OpenInput;
    app.input_buffer = " '/tmp/a.parquet' ".to_string();
    let r = handle_key(&mut app, key(KeyCode::Enter));
    match r {
        Request::Open { path, input } => {
            assert_eq!(path, "/tmp/a.parquet");
            assert_eq!(input, " '/tmp/a.parquet' ");
        }
        _ => panic!("expected an open request"),
    }
}

#[test]
fn export_key_without_rows_is_refused() {
    let mut app = opened(&["id"], 3);
    handle_key(&mut app, ctrl_key('e'));
    assert_eq!(app.message, "No data to export");
    assert_eq!(app.mode, Mode::Normal);
}

#[test]
fn install_engine_selects_all_fields_and_plans_a_table_read() {
    let mut app = opened(&["id", "name", "age"], 1000);
    assert_eq!(app.selected_fields, vec!["id", "name", "age"]);
    assert_eq!(app.path.as_deref(), Some("/data/basic_types.parquet"));
    assert_eq!(app.page_size, 1000);
    match app.reload() {
        ReloadPlan::Table {
            fields,
            offset,
            limit,
            sort,
        } => {
            assert_eq!(fields, vec!["id", "name", "age"]);
            assert_eq!(offset, 0);
            assert_eq!(limit, 1000);
            assert!(sort.is_none());
        }
        _ => panic!("expected a table read"),
    }
}

#[test]
fn install_engine_without_fields_says_so() {
    let mut app = viewer();
    let reload = app.install_engine(
        (),
        OpenedSource {
            field_names: vec![],
            record_count: 0,
            partition_count: 1,
            path: "/x".to_string(),
        },
    );
    assert!(!reload);
    assert_eq!(app.message, "File opened. Press Ctrl+F to select fields.");
}

#[test]
fn finish_reload_reports_rows() {
    let mut app = opened(&["id"], 2);
    let _ = app.reload();
    app.finish_reload(
        QueryResult {
            headers: vec!["id".to_string()],
            rows: vec![vec!["1".to_string()], vec!["2".to_string()]],
        },
        true,
    );
    assert_eq!(app.message, "Loaded 2 rows (offset 0)");
    assert_eq!(app.rows.len(), 2);
    app.finish_reload(
        QueryResult {
            headers: vec!["id".to_string()],
            rows: vec![],
        },
        true,
    );
    assert_eq!(app.message, "No rows returned for the current query.");
}

#[test]
fn column_window_follows_the_cursor() {
    let names: Vec<String> = (0..120).map(|i| format!("c{}", i)).collect();
    let refs: Vec<&str> = names.iter().map(|s| s.as_str()).collect();
    let mut app = opened(&refs, 10);
    app.cursor_col = 100;
    app.ensure_column_window();
    assert_eq!(app.visible_col_start, 100 - (COLUMN_QUERY_WINDOW_SIZE - 1));
    assert!(app.visible_col_start <= app.cursor_col);
    assert!(app.cursor_col < app.visible_col_start + COLUMN_QUERY_WINDOW_SIZE);
    app.cursor_col = 5;
    app.ensure_column_window();
    assert_eq!(app.visible_col_start, 5);
}

#[test]
fn sort_toggle_cycles_through_directions() {
    let mut app = opened(&["id", "age"], 10);
    app.headers = vec!["id".to_string(), "age".to_string()];
    app.cursor_col = 1;
    assert_eq!(app.toggle_sort_current_column(), SortToggle::CountThenReload);
    assert_eq!(
        app.sql_query,
        "SELECT * FROM pv_data ORDER BY \"age\" ASC LIMIT 100"
    );
    assert_eq!(app.toggle_sort_current_column(), SortToggle::CountThenReload);
    assert_eq!(
        app.sql_query,
        "SELECT * FROM pv_data ORDER BY \"age\" DESC LIMIT 100"
    );
    assert_eq!(app.toggle_sort_current_column(), SortToggle::CountThenReload);
    assert_eq!(app.sql_query, "SELECT * FROM pv_data LIMIT 100");
    assert!(app.sort.is_none());
}

#[test]
fn sort_without_columns_is_an_error_message() {
    let mut app = viewer();
    assert_eq!(app.toggle_sort_current_column(), SortToggle::NoColumn);
    assert_eq!(app.message, "No column to sort");
    assert!(app.message_is_error);
}

#[test]
fn apply_sql_query_without_file_fails() {
    let mut app = viewer();
    let r = app.apply_sql_query("SELECT 1".to_string());
    assert_eq!(r.unwrap_err().message(), "No file is open");
    assert_eq!(app.sql_query, "SELECT 1");
}

#[test]
fn completing_an_export_reports_it() {
    let mut app = opened(&["id"], 3);
    app.complete(Completion::Exported("/tmp/out.csv".to_string()), Ok(()));
    assert_eq!(app.message, "Exported to /tmp/out.csv");
    app.complete(
        Completion::Exported("/tmp/out.txt".to_string()),
        Err("Unsupported export format: .txt".to_string()),
    );
    assert_eq!(app.message, "Export failed: Unsupported export format: .txt");
    assert!(app.message_is_error);
}

#[test]
fn ctrl_b_toggles_even_on_a_list_screen_with_a_far_cursor() {
    let mut app = viewer();
    app.mode = Mode::FieldSelect;
    app.meta_scroll = i32::MAX as usize;
    assert!(matches!(handle_key(&mut app, ctrl_key('b')), Request::Continue));
    assert_eq!(app.mode, Mode::Operations);
}

#[test]
fn table_reload_headers_are_the_window_of_selected_fields() {
    let names: Vec<String> = (0..60).map(|i| format!("c{}", i)).collect();
    let refs: Vec<&str> = names.iter().map(|s| s.as_str()).collect();
    let mut app = opened(&refs, 10);
    let _ = app.reload();
    app.finish_reload(
        QueryResult {
            headers: vec!["whatever".to_string()],
            rows: vec![vec!["1".to_string()]],
        },
        true,
    );
    assert_eq!(app.headers, names[0..COLUMN_QUERY_WINDOW_SIZE].to_vec());
}

#[test]
fn sql_reload_headers_come_from_the_result() {
    let mut app = opened(&["id"], 10);
    app.sql_query = "SELECT 1 AS one".to_string();
    let _ = app.reload();
    app.finish_reload(
        QueryResult {
            headers: vec!["one".to_string()],
            rows: vec![vec!["1".to_string()]],
        },
        false,
    );
    assert_eq!(app.headers, vec!["one"]);
}

#[test]
fn an_entry_carries_its_timestamp() {
    let mut app = viewer();
    app.record_operation_at(OperationKind::Sql, OperationOutcome::Started, "q", None, 1234);
    assert_eq!(app.operation_log[0].timestamp_ms, 1234);
}

#[test]
fn table_result_uses_the_asked_fields() {
    let r = parquet_tui::engine::table_result(
        &["a".to_string(), "b".to_string()],
        vec![vec!["1".to_string(), "2".to_string()]],
    );
    assert_eq!(r.headers, vec!["a", "b"]);
    assert_eq!(r.rows.len(), 1);
}

#[test]
fn three_sort_toggles_in_sql_mode_cycle() {
    let mut app = viewer();
    app.sql_query = "SELECT id, age FROM pv_data".to_string();
    app.headers = vec!["id".to_string(), "age".to_string()];
    app.cursor_col = 1;
    app.offset = 7;
    assert_eq!(app.toggle_sort_current_column(), SortToggle::ReloadOnly);
    let s = app.sort.as_ref().unwrap();
    assert_eq!((s.column_index, s.column_name.as_str(), s.direction), (1, "age", SortDirection::Asc));
    assert_eq!(app.offset, 0);
    app.toggle_sort_current_column();
    assert_eq!(app.sort.as_ref().unwrap().direction, SortDirection::Desc);
    app.toggle_sort_current_column();
    assert!(app.sort.is_none());
    assert_eq!(app.sql_query, "SELECT id, age FROM pv_data");
    assert_eq!(app.headers, vec!["id", "age"]);
}
