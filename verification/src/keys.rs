//! Key bindings: what each key does to the viewer, and what work it asks of the caller.
//! Work that reads or writes data (queries, opening, exporting) is returned as a
//! `Request`; once it is done, `App::complete` reports its outcome.
use crate::app::{
    App, Focus, Mode, OperationKind, OperationOutcome, SortToggle, DEFAULT_SQL, window_start,
};
use crate::text::{chars_of, is_blank, text_of_range, trim, trim_idx, upper_char};
use crate::ui::field_select::{clamp_int, move_cursor, select_all, select_none, toggle_current};
use crate::ui::metadata_view::scroll;
use crate::engine::views;
use vstd::prelude::*;

verus! {

/// The key of a key press.
#[derive(Debug, Clone, Copy, PartialEq, Eq, Structural)]
pub enum KeyCode {
    Esc,
    Enter,
    Tab,
    Backspace,
    Up,
    Down,
    Left,
    Right,
    Char(char),
    Other,
}

/// A key press, with whether Control was held.
#[derive(Debug, Clone, Copy, PartialEq, Eq, Structural)]
pub struct KeyInput {
    pub code: KeyCode,
    pub ctrl: bool,
}

/// Which way the table was scrolled.
#[derive(Debug, Clone, Copy, PartialEq, Eq, Structural)]
pub enum ScrollDir {
    RowsDown,
    RowsUp,
    ColumnsRight,
    ColumnsLeft,
}

/// How the outcome of a request is reported once the caller has done the work.
#[derive(Debug, Clone)]
pub enum Completion {
    ClearSql,
    LoadAll,
    Reload,
    Sort,
    Scroll(ScrollDir),
    Opened(String),
    SqlCleared,
    SqlApplied(String),
    Metadata,
    Exported(String),
    FieldsApplied,
}

/// What the caller does after a key press.
#[derive(Debug, Clone)]
pub enum Request {
    /// Nothing more: wait for the next key.
    Continue,
    /// Leave the viewer.
    Quit,
    /// Reload the rows (`App::reload`, read, `App::finish_reload`), then complete.
    Reload(Completion),
    /// Count the rows of `sql_query` into `record_count`, reload, then complete.
    CountThenReload(Completion),
    /// Open `path`, take it in (`App::install_engine`), reload if asked and note a wide
    /// table; then complete with `Completion::Opened(input)`.
    Open { path: String, input: String },
    /// Load the metadata into `metadata`, then complete with `Completion::Metadata`.
    LoadMetadata,
    /// Export the headers and rows to `path`, then complete with `Completion::Exported`.
    Export { path: String },
}

/// Whether a key is Control with the given letter, in either case.
pub open spec fn is_ctrl(key: KeyInput, target: char) -> bool {
    key.ctrl && (key.code matches KeyCode::Char(c) && upper_char(c) == upper_char(target))
}

/// Whether a key is the given character, Control held or not.
pub open spec fn is_char(key: KeyInput, c: char) -> bool {
    key.code == KeyCode::Char(c)
}

pub fn ctrl_char(key: KeyInput, target: char) -> (b: bool)
    ensures
        b == is_ctrl(key, target),
{
    if !key.ctrl {
        return false;
    }
    match key.code {
        KeyCode::Char(c) => crate::text::to_upper_char(c) == crate::text::to_upper_char(target),
        _ => false,
    }
}

/// What `unquote_path` gives back: the trimmed text, without one pair of matching quotes.
pub open spec fn unquote_spec(path: Seq<char>) -> Seq<char> {
    let t = trim(path);
    if t.len() >= 2 && ((t[0] == '\'' && t.last() == '\'') || (t[0] == '"' && t.last() == '"')) {
        t.subrange(1, t.len() - 1)
    } else {
        t
    }
}

/// A path as typed: trimmed, and without matching single or double quotes around it.
pub fn unquote_path(path: &str) -> (r: String)
    ensures
        r@ == unquote_spec(path@),
{
    let v = chars_of(path);
    let (a, b) = trim_idx(&v, 0, v.len());
    assert(v@.subrange(0, v@.len() as int) =~= v@);
    if b - a >= 2 {
        let first = v[a];
        let last = v[b - 1];
        if (first == '\'' && last == '\'') || (first == '"' && last == '"') {
            assert(v@.subrange(a + 1, b - 1) =~= v@.subrange(a as int, b as int).subrange(
                1,
                (b - a) - 1,
            ));
            return text_of_range(&v, a + 1, b - 1);
        }
    }
    text_of_range(&v, a, b)
}

/// The log text of a scroll.
pub open spec fn scroll_text(d: ScrollDir) -> Seq<char> {
    match d {
        ScrollDir::RowsDown => "Scrolled rows down"@,
        ScrollDir::RowsUp => "Scrolled rows up"@,
        ScrollDir::ColumnsRight => "Scrolled columns right"@,
        ScrollDir::ColumnsLeft => "Scrolled columns left"@,
    }
}

fn scroll_summary(d: ScrollDir) -> (s: &'static str)
    ensures
        s@ == scroll_text(d),
{
    match d {
        ScrollDir::RowsDown => "Scrolled rows down",
        ScrollDir::RowsUp => "Scrolled rows up",
        ScrollDir::ColumnsRight => "Scrolled columns right",
        ScrollDir::ColumnsLeft => "Scrolled columns left",
    }
}

/// `s` without its last character, if any (`String::pop`).
pub open spec fn drop_last_char(s: Seq<char>) -> Seq<char> {
    if s.len() > 0 {
        s.drop_last()
    } else {
        s
    }
}

fn pop_char(s: &String) -> (r: String)
    ensures
        r@ == drop_last_char(s@),
{
    let v = chars_of(s.as_str());
    if v.len() == 0 {
        return String::new();
    }
    text_of_range(&v, 0, v.len() - 1)
}

fn push_char(s: &String, c: char) -> (r: String)
    ensures
        r@ == s@.push(c),
{
    let mut v = chars_of(s.as_str());
    v.push(c);
    crate::text::text_from(v.as_slice())
}

/// `b` is `a` with the path input opened, showing the open path.
pub open spec fn path_input_opened<E>(a: App<E>, b: App<E>) -> bool {
    &&& b.input_prompt@ == "Open path"@
    &&& b.input_buffer@ == match a.path {
        Some(p) => p@,
        None => Seq::<char>::empty(),
    }
    &&& App::<E>::logged(
        App {
            focus: Focus::Path,
            mode: Mode::OpenInput,
            input_prompt: b.input_prompt,
            input_buffer: b.input_buffer,
            ..a
        },
        b,
        OperationKind::Open,
        OperationOutcome::Started,
        "Opened path input"@,
        None,
    )
}

/// `b` is `a` with the SQL input opened on the current (or default) query, or with an
/// error message when no file is open.
pub open spec fn sql_input_opened<E>(a: App<E>, b: App<E>) -> bool {
    if a.engine is Some {
        &&& b.input_prompt@ == "SQL query against pv_data"@
        &&& b.input_buffer@ == if a.sql_query@.len() == 0 {
            DEFAULT_SQL@
        } else {
            a.sql_query@
        }
        &&& App::<E>::logged(
            App {
                focus: Focus::Sql,
                mode: Mode::SqlInput,
                input_prompt: b.input_prompt,
                input_buffer: b.input_buffer,
                ..a
            },
            b,
            OperationKind::Sql,
            OperationOutcome::Started,
            "Opened SQL input"@,
            None,
        )
    } else {
        App::<E>::messaged(a, b, "Open a file first (press Ctrl+P)"@, true)
    }
}

/// Opens the path input on the open path.
fn enter_path_input<E>(app: &mut App<E>)
    requires
        old(app).next_operation_id < u64::MAX,
    ensures
        path_input_opened(*old(app), *final(app)),
{
    let ghost a = *app;
    app.log_started(OperationKind::Open, "Opened path input");
    app.focus = Focus::Path;
    app.enter_input_mode(Mode::OpenInput, "Open path");
    app.input_buffer = match &app.path {
        Some(p) => p.clone(),
        None => String::new(),
    };
}

/// Opens the SQL input on the current query (or the default one), if a file is open.
fn enter_sql_input<E>(app: &mut App<E>)
    requires
        old(app).next_operation_id < u64::MAX,
    ensures
        sql_input_opened(*old(app), *final(app)),
{
    if app.engine.is_some() {
        app.log_started(OperationKind::Sql, "Opened SQL input");
        app.focus = Focus::Sql;
        app.enter_input_mode(Mode::SqlInput, "SQL query against pv_data");
        app.input_buffer = if app.sql_query.as_str().unicode_len() == 0 {
            String::from_str(DEFAULT_SQL)
        } else {
            app.sql_query.clone()
        };
    } else {
        app.set_message("Open a file first (press Ctrl+P)", true);
    }
}

/// What a key does in an input mode (path, SQL or export input).
pub open spec fn input_key_post<E>(a: App<E>, b: App<E>, key: KeyInput, r: Request) -> bool {
    match key.code {
        KeyCode::Esc => {
            &&& r is Continue
            &&& b.input_buffer@.len() == 0
            &&& App::<E>::logged(
                App { mode: Mode::Normal, input_buffer: b.input_buffer, ..a },
                b,
                OperationKind::Input,
                OperationOutcome::Cancelled,
                "Cancelled input"@,
                None,
            )
        },
        KeyCode::Enter => {
            let input = a.input_buffer@;
            let a1 = App { mode: Mode::Normal, input_buffer: b.input_buffer, ..a };
            &&& b.input_buffer@.len() == 0
            &&& match a.mode {
                Mode::OpenInput => if trim(input).len() == 0 {
                    r is Continue && App::<E>::messaged(a1, b, "No path entered"@, true)
                } else {
                    &&& r matches Request::Open { path, input: i } && path@ == unquote_spec(
                        input,
                    ) && i@ == input
                    &&& b == a1
                },
                Mode::SqlInput => if trim(input).len() == 0 {
                    &&& r matches Request::Reload(Completion::SqlCleared)
                    &&& App::<E>::sql_cleared(a1, b)
                } else {
                    let a2 = App {
                        sql_query: b.sql_query,
                        offset: 0,
                        row_scroll: 0,
                        col_scroll: 0,
                        visible_col_start: 0,
                        cursor_row: 0,
                        cursor_col: 0,
                        sort: None,
                        ..a1
                    };
                    &&& b.sql_query@ == input
                    &&& a.engine is None ==> (r is Continue && App::<E>::messaged(
                        a2,
                        b,
                        "SQL query error: No file is open"@,
                        true,
                    ))
                    &&& a.engine is Some ==> (r matches Request::CountThenReload(
                        Completion::SqlApplied(i),
                    ) && i@ == input && b == a2)
                },
                Mode::ExportInput => {
                    &&& r matches Request::Export { path } && path@ == input
                    &&& b == a1
                },
                _ => r is Continue && b == a1,
            }
        },
        KeyCode::Backspace => {
            &&& r is Continue
            &&& b.input_buffer@ == drop_last_char(a.input_buffer@)
            &&& b == App { input_buffer: b.input_buffer, ..a }
        },
        KeyCode::Char(c) => if key.ctrl && c == 'c' {
            r is Quit && b == a
        } else {
            &&& r is Continue
            &&& b.input_buffer@ == a.input_buffer@.push(c)
            &&& b == App { input_buffer: b.input_buffer, ..a }
        },
        _ => r is Continue && b == a,
    }
}

/// Handles a key in an input mode.
fn handle_input_mode<E>(app: &mut App<E>, key: KeyInput) -> (r: Request)
    requires
        old(app).next_operation_id < u64::MAX,
    ensures
        input_key_post(*old(app), *final(app), key, r),
{
    match key.code {
        KeyCode::Esc => {
            app.log_cancelled(OperationKind::Input, "Cancelled input");
            app.exit_input_mode();
            Request::Continue
        },
        KeyCode::Enter => {
            let input = app.input_buffer.clone();
            let mode = app.mode;
            app.exit_input_mode();
            match mode {
                Mode::OpenInput => {
                    if is_blank(input.as_str()) {
                        app.set_message("No path entered", true);
                        Request::Continue
                    } else {
                        let path = unquote_path(input.as_str());
                        Request::Open { path, input }
                    }
                },
                Mode::SqlInput => {
                    if is_blank(input.as_str()) {
                        app.clear_sql_query();
                        Request::Reload(Completion::SqlCleared)
                    } else {
                        match app.apply_sql_query(input.clone()) {
                            Err(_) => {
                                app.set_message("SQL query error: No file is open", true);
                                Request::Continue
                            },
                            Ok(()) => Request::CountThenReload(Completion::SqlApplied(input)),
                        }
                    }
                },
                Mode::ExportInput => Request::Export { path: input },
                _ => Request::Continue,
            }
        },
        KeyCode::Backspace => {
            app.input_buffer = pop_char(&app.input_buffer);
            Request::Continue
        },
        KeyCode::Char(c) => {
            if key.ctrl && c == 'c' {
                return Request::Quit;
            }
            app.input_buffer = push_char(&app.input_buffer, c);
            Request::Continue
        },
        _ => Request::Continue,
    }
}

/// What `toggle_current` does to the selection.
pub open spec fn toggled<E>(a: App<E>, b: App<E>) -> bool {
    &&& a.meta_scroll >= a.all_fields@.len() ==> b == a
    &&& a.meta_scroll < a.all_fields@.len() ==> {
        let name = a.all_fields@[a.meta_scroll as int]@;
        let sel = views(a.selected_fields@);
        &&& b == (App { selected_fields: b.selected_fields, ..a })
        &&& (exists|i: int| 0 <= i < sel.len() && sel[i] == name) ==> exists|p: int|
            0 <= p < sel.len() && sel[p] == name && (forall|j: int| 0 <= j < p ==> sel[j] != name)
                && views(b.selected_fields@) == sel.remove(p)
        &&& !(exists|i: int| 0 <= i < sel.len() && sel[i] == name) ==> views(
            b.selected_fields@,
        ) == sel.push(name)
    }
}

/// Where the field cursor goes when it moves by `delta`.
pub open spec fn field_cursor_moved<E>(a: App<E>, b: App<E>, delta: int) -> bool {
    &&& (a.all_fields@.len() as i32) == 0 ==> b == a
    &&& (a.all_fields@.len() as i32) > 0 ==> b == (App {
        meta_scroll: clamp_int(
            (a.meta_scroll as i32) + delta,
            0,
            (a.all_fields@.len() as i32) - 1,
        ) as usize,
        ..a
    })
}

/// What a key does on the field selection screen.
pub open spec fn field_key_post<E>(a: App<E>, b: App<E>, key: KeyInput, r: Request) -> bool {
    if key.code == KeyCode::Esc {
        r is Continue && App::<E>::logged(
            App { mode: Mode::Normal, ..a },
            b,
            OperationKind::FieldSelect,
            OperationOutcome::Cancelled,
            "Cancelled field selection"@,
            None,
        )
    } else if key.code == KeyCode::Up || is_char(key, 'k') {
        r is Continue && field_cursor_moved(a, b, -1)
    } else if key.code == KeyCode::Down || is_char(key, 'j') {
        r is Continue && field_cursor_moved(a, b, 1)
    } else if is_char(key, ' ') {
        r is Continue && exists|m: App<E>|
            toggled(a, m) && App::<E>::logged(
                m,
                b,
                OperationKind::FieldSelect,
                OperationOutcome::Succeeded,
                "Toggled field"@,
                None,
            )
    } else if is_char(key, 'a') {
        r is Continue && exists|m: App<E>|
            views(m.selected_fields@) == views(a.all_fields@) && m == (App {
                selected_fields: m.selected_fields,
                ..a
            }) && App::<E>::logged(
                m,
                b,
                OperationKind::FieldSelect,
                OperationOutcome::Succeeded,
                "Selected all fields"@,
                None,
            )
    } else if is_char(key, 'n') {
        r is Continue && exists|m: App<E>|
            m.selected_fields@.len() == 0 && m == (App { selected_fields: m.selected_fields, ..a })
                && App::<E>::logged(
                m,
                b,
                OperationKind::FieldSelect,
                OperationOutcome::Succeeded,
                "Cleared field selection"@,
                None,
            )
    } else if key.code == KeyCode::Enter {
        if a.selected_fields@.len() == 0 {
            r is Continue && App::<E>::messaged(a, b, "Select at least one field"@, true)
        } else {
            &&& r matches Request::Reload(Completion::FieldsApplied)
            &&& views(b.selected_fields@) == views(a.selected_fields@)
            &&& b.sql_query@.len() == 0
            &&& b == (App {
                selected_fields: b.selected_fields,
                sql_query: b.sql_query,
                record_count: a.source_record_count,
                sort: None,
                offset: 0,
                row_scroll: 0,
                col_scroll: 0,
                visible_col_start: 0,
                cursor_row: 0,
                cursor_col: 0,
                ..a
            })
        }
    } else {
        r is Continue && b == a
    }
}

/// The step of a key that moves a list cursor: -1 for Up and `k`, 1 for Down and `j`, 0
/// for any other key.
pub open spec fn list_step(key: KeyInput) -> int {
    match key.code {
        KeyCode::Up | KeyCode::Char('k') => -1,
        KeyCode::Down | KeyCode::Char('j') => 1,
        _ => 0,
    }
}

/// Whether a list screen can move its cursor for a key: the cursor is counted as an `i32`,
/// which the move must not take past its range.
pub open spec fn list_step_fits(key: KeyInput, meta_scroll: usize) -> bool {
    list_step(key) != 0 ==> i32::MIN <= (meta_scroll as i32) + list_step(key) <= i32::MAX
}

/// Handles a key on the field selection screen.
fn handle_field_select<E>(app: &mut App<E>, key: KeyInput) -> (r: Request)
    requires
        old(app).next_operation_id < u64::MAX,
        list_step(key) != 0 ==> (old(app).all_fields@.len() as i32) >= 0,
        list_step_fits(key, old(app).meta_scroll),
    ensures
        field_key_post(*old(app), *final(app), key, r),
{
    match key.code {
        KeyCode::Esc => {
            app.log_cancelled(OperationKind::FieldSelect, "Cancelled field selection");
            app.mode = Mode::Normal;
        },
        KeyCode::Up | KeyCode::Char('k') => {
            move_cursor(app, -1);
        },
        KeyCode::Down | KeyCode::Char('j') => {
            move_cursor(app, 1);
        },
        KeyCode::Char(' ') => {
            toggle_current(app);
            let ghost m = *app;
            app.log_succeeded(OperationKind::FieldSelect, "Toggled field");
            assert(toggled(*old(app), m));
        },
        KeyCode::Char('a') => {
            select_all(app);
            let ghost m = *app;
            app.log_succeeded(OperationKind::FieldSelect, "Selected all fields");
            assert(views(m.selected_fields@) == views(old(app).all_fields@) && m == (App {
                selected_fields: m.selected_fields,
                ..*old(app)
            }) && App::<E>::logged(
                m,
                *app,
                OperationKind::FieldSelect,
                OperationOutcome::Succeeded,
                "Selected all fields"@,
                None,
            ));
        },
        KeyCode::Char('n') => {
            select_none(app);
            let ghost m = *app;
            app.log_succeeded(OperationKind::FieldSelect, "Cleared field selection");
            assert(m.selected_fields@.len() == 0 && m == (App {
                selected_fields: m.selected_fields,
                ..*old(app)
            }) && App::<E>::logged(
                m,
                *app,
                OperationKind::FieldSelect,
                OperationOutcome::Succeeded,
                "Cleared field selection"@,
                None,
            ));
        },
        KeyCode::Enter => {
            if app.selected_fields.len() == 0 {
                app.set_message("Select at least one field", true);
            } else {
                let fields = crate::engine::copy_strings(app.selected_fields.as_slice());
                app.set_fields(fields);
                return Request::Reload(Completion::FieldsApplied);
            }
        },
        _ => {},
    }
    Request::Continue
}

/// What a key does on the metadata screen.
pub open spec fn metadata_key_post<E>(a: App<E>, b: App<E>, key: KeyInput, r: Request) -> bool {
    &&& r is Continue
    &&& if key.code == KeyCode::Esc || is_char(key, 'q') || is_char(key, 'm') {
        App::<E>::logged(
            App { mode: Mode::Normal, ..a },
            b,
            OperationKind::Metadata,
            OperationOutcome::Cancelled,
            "Closed metadata view"@,
            None,
        )
    } else if key.code == KeyCode::Down || is_char(key, 'j') {
        b == (App {
            meta_scroll: (if (a.meta_scroll as i32) + 1 < 0 {
                0
            } else {
                (a.meta_scroll as i32) + 1
            }) as usize,
            ..a
        })
    } else if key.code == KeyCode::Up || is_char(key, 'k') {
        b == (App {
            meta_scroll: (if (a.meta_scroll as i32) - 1 < 0 {
                0
            } else {
                (a.meta_scroll as i32) - 1
            }) as usize,
            ..a
        })
    } else {
        b == a
    }
}

fn handle_metadata_view<E>(app: &mut App<E>, key: KeyInput) -> (r: Request)
    requires
        old(app).next_operation_id < u64::MAX,
        list_step_fits(key, old(app).meta_scroll),
    ensures
        metadata_key_post(*old(app), *final(app), key, r),
{
    match key.code {
        KeyCode::Esc | KeyCode::Char('q') | KeyCode::Char('m') => {
            app.log_cancelled(OperationKind::Metadata, "Closed metadata view");
            app.mode = Mode::Normal;
        },
        KeyCode::Down | KeyCode::Char('j') => {
            scroll(app, 1);
        },
        KeyCode::Up | KeyCode::Char('k') => {
            scroll(app, -1);
        },
        _ => {},
    }
    Request::Continue
}

/// What a key does on the operations screen.
pub open spec fn operations_key_post<E>(a: App<E>, b: App<E>, key: KeyInput, r: Request) -> bool {
    &&& r is Continue
    &&& if key.code == KeyCode::Esc || is_char(key, 'q') {
        App::<E>::logged(
            App { mode: Mode::Normal, ..a },
            b,
            OperationKind::System,
            OperationOutcome::Cancelled,
            "Closed operations view"@,
            None,
        )
    } else if key.code == KeyCode::Down || is_char(key, 'j') {
        let up = if a.operation_log_scroll < usize::MAX {
            a.operation_log_scroll + 1
        } else {
            a.operation_log_scroll as int
        };
        let max = if a.operation_log@.len() > 0 {
            a.operation_log@.len() - 1
        } else {
            0
        };
        b == (App {
            operation_log_scroll: (if up < max {
                up
            } else {
                max
            }) as usize,
            ..a
        })
    } else if key.code == KeyCode::Up || is_char(key, 'k') {
        b == (App {
            operation_log_scroll: (if a.operation_log_scroll > 0 {
                a.operation_log_scroll - 1
            } else {
                0
            }) as usize,
            ..a
        })
    } else {
        b == a
    }
}

fn handle_operations_view<E>(app: &mut App<E>, key: KeyInput) -> (r: Request)
    requires
        old(app).next_operation_id < u64::MAX,
    ensures
        operations_key_post(*old(app), *final(app), key, r),
{
    match key.code {
        KeyCode::Esc | KeyCode::Char('q') => {
            app.log_cancelled(OperationKind::System, "Closed operations view");
            app.mode = Mode::Normal;
        },
        KeyCode::Down | KeyCode::Char('j') => {
            let n = app.operation_log.len();
            let max = if n > 0 {
                n - 1
            } else {
                0
            };
            let up = if app.operation_log_scroll < usize::MAX {
                app.operation_log_scroll + 1
            } else {
                app.operation_log_scroll
            };
            app.operation_log_scroll = if up < max {
                up
            } else {
                max
            };
        },
        KeyCode::Up | KeyCode::Char('k') => {
            app.operation_log_scroll = if app.operation_log_scroll > 0 {
                app.operation_log_scroll - 1
            } else {
                0
            };
        },
        _ => {},
    }
    Request::Continue
}

/// `x + 1`, saturating at `usize::MAX`.
pub open spec fn inc_sat(x: usize) -> usize {
    if x < usize::MAX {
        (x + 1) as usize
    } else {
        x
    }
}

/// `x - 1`, saturating at 0.
pub open spec fn dec_sat(x: usize) -> usize {
    if x > 0 {
        (x - 1) as usize
    } else {
        0
    }
}

/// What an arrow key does with the cursor shown: move it, then reload when the column
/// window moved, or log the scroll.
pub open spec fn cursor_key_post<E>(
    a: App<E>,
    b: App<E>,
    r: Request,
    dr: isize,
    dc: isize,
    d: ScrollDir,
) -> bool {
    exists|m: App<E>, need: bool|
        #![trigger App::<E>::cursor_moved(a, m, dr, dc, need)]
        App::<E>::cursor_moved(a, m, dr, dc, need) && (need ==> (r matches Request::Reload(
            Completion::Scroll(x),
        ) && x == d && b == m)) && (!need ==> (r is Continue && App::<E>::logged(
            m,
            b,
            OperationKind::Scroll,
            OperationOutcome::Succeeded,
            scroll_text(d),
            None,
        )))
}

/// What Left or Right does with the cursor hidden: move the column scroll, then reload
/// when the column window moved, or log the scroll.
pub open spec fn column_scroll_post<E>(
    a: App<E>,
    b: App<E>,
    r: Request,
    col_scroll: usize,
    d: ScrollDir,
) -> bool {
    let a1 = App { col_scroll, ..a };
    let a2 = App {
        visible_col_start: window_start(
            !a1.table_mode(),
            a1.selected_fields@.len() as int,
            a1.visible_col_start as int,
            a1.cursor_col as int,
        ) as usize,
        ..a1
    };
    if a2.visible_col_start != a.visible_col_start {
        r matches Request::Reload(Completion::Scroll(x)) && x == d && b == a2
    } else {
        r is Continue && App::<E>::logged(
            a2,
            b,
            OperationKind::Scroll,
            OperationOutcome::Succeeded,
            scroll_text(d),
            None,
        )
    }
}

/// What a key does in normal mode.
pub open spec fn normal_key_post<E>(a: App<E>, b: App<E>, key: KeyInput, r: Request) -> bool {
    if key.code == KeyCode::Tab {
        r is Continue && b == (App {
            focus: match a.focus {
                Focus::Path => Focus::Sql,
                Focus::Sql => Focus::Table,
                Focus::Table => Focus::Path,
            },
            ..a
        })
    } else if key.code == KeyCode::Enter {
        r is Continue && match a.focus {
            Focus::Path => path_input_opened(a, b),
            Focus::Sql => sql_input_opened(a, b),
            Focus::Table => b == a,
        }
    } else if key.code == KeyCode::Esc {
        r is Quit && App::<E>::logged(
            a,
            b,
            OperationKind::Quit,
            OperationOutcome::Started,
            "Quit requested"@,
            None,
        )
    } else if is_char(key, '?') || is_ctrl(key, 'h') {
        r is Continue && App::<E>::logged(
            App { mode: Mode::Help, ..a },
            b,
            OperationKind::Help,
            OperationOutcome::Started,
            "Opened help"@,
            None,
        )
    } else if is_ctrl(key, 'p') {
        r is Continue && path_input_opened(a, b)
    } else if is_ctrl(key, 'f') {
        r is Continue && if a.engine is Some {
            App::<E>::logged(
                App { meta_scroll: 0, mode: Mode::FieldSelect, ..a },
                b,
                OperationKind::FieldSelect,
                OperationOutcome::Started,
                "Opened field selection"@,
                None,
            )
        } else {
            App::<E>::messaged(a, b, "Open a file first (press Ctrl+P)"@, true)
        }
    } else if is_char(key, '/') || is_ctrl(key, 's') {
        r is Continue && sql_input_opened(a, b)
    } else if is_ctrl(key, 'l') {
        r matches Request::Reload(Completion::ClearSql) && App::<E>::sql_cleared(a, b)
    } else if is_ctrl(key, 'a') {
        r matches Request::Reload(Completion::LoadAll) && b == (App {
            page_size: a.record_count,
            offset: 0,
            cursor_row: 0,
            ..a
        })
    } else if is_ctrl(key, 't') {
        exists|m: App<E>, t: SortToggle|
            #![trigger App::<E>::sort_toggled(a, m, t)]
            App::<E>::sort_toggled(a, m, t) && match t {
                SortToggle::NoColumn => r is Continue && App::<E>::logged(
                    m,
                    b,
                    OperationKind::Sort,
                    OperationOutcome::Succeeded,
                    "Toggled sort"@,
                    None,
                ),
                SortToggle::CountThenReload => r matches Request::CountThenReload(
                    Completion::Sort,
                ) && b == m,
                SortToggle::ReloadOnly => r matches Request::Reload(Completion::Sort) && b == m,
            }
    } else if is_ctrl(key, 'x') {
        r is Continue && App::<E>::logged(
            App { cursor_visible: !a.cursor_visible, ..a },
            b,
            OperationKind::Crosshair,
            OperationOutcome::Succeeded,
            "Toggled cursor"@,
            None,
        )
    } else if is_ctrl(key, 'd') {
        r is Continue && App::<E>::logged(
            App {
                table_density: match a.table_density {
                    crate::app::TableDensity::Fill => crate::app::TableDensity::Dense,
                    crate::app::TableDensity::Dense => crate::app::TableDensity::Fill,
                },
                ..a
            },
            b,
            OperationKind::Display,
            OperationOutcome::Succeeded,
            "Toggled table density"@,
            None,
        )
    } else if is_ctrl(key, 'y') {
        if a.engine is Some {
            r is LoadMetadata && b == a
        } else {
            r is Continue && App::<E>::messaged(a, b, "Open a file first (press Ctrl+P)"@, true)
        }
    } else if is_ctrl(key, 'e') {
        r is Continue && if a.rows@.len() == 0 {
            App::<E>::messaged(a, b, "No data to export"@, true)
        } else {
            &&& b.input_prompt@ == "Export path (.csv/.json/.xlsx)"@
            &&& b.input_buffer@.len() == 0
            &&& App::<E>::logged(
                App {
                    mode: Mode::ExportInput,
                    input_prompt: b.input_prompt,
                    input_buffer: b.input_buffer,
                    ..a
                },
                b,
                OperationKind::Export,
                OperationOutcome::Started,
                "Opened export input"@,
                None,
            )
        }
    } else if is_ctrl(key, 'r') {
        r matches Request::Reload(Completion::Reload) && b == a
    } else if key.code == KeyCode::Down {
        if a.cursor_visible {
            cursor_key_post(a, b, r, 1, 0, ScrollDir::RowsDown)
        } else {
            r is Continue && App::<E>::logged(
                App { row_scroll: inc_sat(a.row_scroll), ..a },
                b,
                OperationKind::Scroll,
                OperationOutcome::Succeeded,
                scroll_text(ScrollDir::RowsDown),
                None,
            )
        }
    } else if key.code == KeyCode::Up {
        if a.cursor_visible {
            cursor_key_post(a, b, r, -1isize, 0, ScrollDir::RowsUp)
        } else {
            r is Continue && App::<E>::logged(
                App { row_scroll: dec_sat(a.row_scroll), ..a },
                b,
                OperationKind::Scroll,
                OperationOutcome::Succeeded,
                scroll_text(ScrollDir::RowsUp),
                None,
            )
        }
    } else if key.code == KeyCode::Right {
        if a.cursor_visible {
            cursor_key_post(a, b, r, 0, 1, ScrollDir::ColumnsRight)
        } else {
            column_scroll_post(a, b, r, inc_sat(a.col_scroll), ScrollDir::ColumnsRight)
        }
    } else if key.code == KeyCode::Left {
        if a.cursor_visible {
            cursor_key_post(a, b, r, 0, -1isize, ScrollDir::ColumnsLeft)
        } else {
            column_scroll_post(a, b, r, dec_sat(a.col_scroll), ScrollDir::ColumnsLeft)
        }
    } else {
        r is Continue && b == a
    }
}

/// An arrow key with the cursor shown.
fn cursor_key<E>(app: &mut App<E>, dr: isize, dc: isize, d: ScrollDir) -> (r: Request)
    requires
        old(app).next_operation_id < u64::MAX,
    ensures
        cursor_key_post(*old(app), *final(app), r, dr, dc, d),
{
    let need = app.move_cursor(dr, dc);
    let ghost m = *app;
    if need {
        Request::Reload(Completion::Scroll(d))
    } else {
        app.log_succeeded(OperationKind::Scroll, scroll_summary(d));
        Request::Continue
    }
}

/// Left or Right with the cursor hidden.
fn column_scroll<E>(app: &mut App<E>, col_scroll: usize, d: ScrollDir) -> (r: Request)
    requires
        old(app).next_operation_id < u64::MAX,
    ensures
        column_scroll_post(*old(app), *final(app), r, col_scroll, d),
{
    let prev = app.visible_col_start;
    app.col_scroll = col_scroll;
    app.ensure_column_window();
    if app.visible_col_start != prev {
        Request::Reload(Completion::Scroll(d))
    } else {
        app.log_succeeded(OperationKind::Scroll, scroll_summary(d));
        Request::Continue
    }
}

/// Handles a key in normal mode.
fn handle_normal_key<E>(app: &mut App<E>, key: KeyInput) -> (r: Request)
    requires
        old(app).next_operation_id < u64::MAX - 1,
    ensures
        normal_key_post(*old(app), *final(app), key, r),
{
    if key.code == KeyCode::Tab {
        app.next_focus();
        return Request::Continue;
    }
    if key.code == KeyCode::Enter {
        match app.focus {
            Focus::Path => enter_path_input(app),
            Focus::Sql => enter_sql_input(app),
            Focus::Table => {},
        }
        return Request::Continue;
    }
    if key.code == KeyCode::Esc {
        app.log_started(OperationKind::Quit, "Quit requested");
        return Request::Quit;
    }
    if key.code == KeyCode::Char('?') || ctrl_char(key, 'h') {
        app.log_started(OperationKind::Help, "Opened help");
        app.mode = Mode::Help;
        return Request::Continue;
    }
    if ctrl_char(key, 'p') {
        enter_path_input(app);
        return Request::Continue;
    }
    if ctrl_char(key, 'f') {
        if app.engine.is_some() {
            app.log_started(OperationKind::FieldSelect, "Opened field selection");
            app.meta_scroll = 0;
            app.mode = Mode::FieldSelect;
        } else {
            app.set_message("Open a file first (press Ctrl+P)", true);
        }
        return Request::Continue;
    }
    if key.code == KeyCode::Char('/') || ctrl_char(key, 's') {
        enter_sql_input(app);
        return Request::Continue;
    }
    if ctrl_char(key, 'l') {
        app.clear_sql_query();
        return Request::Reload(Completion::ClearSql);
    }
    if ctrl_char(key, 'a') {
        app.load_all();
        return Request::Reload(Completion::LoadAll);
    }
    if ctrl_char(key, 't') {
        let t = app.toggle_sort_current_column();
        let ghost m = *app;
        return match t {
            SortToggle::NoColumn => {
                app.log_succeeded(OperationKind::Sort, "Toggled sort");
                Request::Continue
            },
            SortToggle::CountThenReload => Request::CountThenReload(Completion::Sort),
            SortToggle::ReloadOnly => Request::Reload(Completion::Sort),
        };
    }
    if ctrl_char(key, 'x') {
        app.toggle_cursor();
        app.log_succeeded(OperationKind::Crosshair, "Toggled cursor");
        return Request::Continue;
    }
    if ctrl_char(key, 'd') {
        app.toggle_table_density();
        app.log_succeeded(OperationKind::Display, "Toggled table density");
        return Request::Continue;
    }
    if ctrl_char(key, 'y') {
        if app.engine.is_some() {
            return Request::LoadMetadata;
        }
        app.set_message("Open a file first (press Ctrl+P)", true);
        return Request::Continue;
    }
    if ctrl_char(key, 'e') {
        if app.rows.len() == 0 {
            app.set_message("No data to export", true);
        } else {
            app.log_started(OperationKind::Export, "Opened export input");
            app.enter_input_mode(Mode::ExportInput, "Export path (.csv/.json/.xlsx)");
        }
        return Request::Continue;
    }
    if ctrl_char(key, 'r') {
        return Request::Reload(Completion::Reload);
    }
    match key.code {
        KeyCode::Down => {
            if app.cursor_visible {
                cursor_key(app, 1, 0, ScrollDir::RowsDown)
            } else {
                app.row_scroll = if app.row_scroll < usize::MAX {
                    app.row_scroll + 1
                } else {
                    app.row_scroll
                };
                app.log_succeeded(OperationKind::Scroll, "Scrolled rows down");
                Request::Continue
            }
        },
        KeyCode::Up => {
            if app.cursor_visible {
                cursor_key(app, -1, 0, ScrollDir::RowsUp)
            } else {
                app.row_scroll = if app.row_scroll > 0 {
                    app.row_scroll - 1
                } else {
                    0
                };
                app.log_succeeded(OperationKind::Scroll, "Scrolled rows up");
                Request::Continue
            }
        },
        KeyCode::Right => {
            if app.cursor_visible {
                cursor_key(app, 0, 1, ScrollDir::ColumnsRight)
            } else {
                let c = if app.col_scroll < usize::MAX {
                    app.col_scroll + 1
                } else {
                    app.col_scroll
                };
                column_scroll(app, c, ScrollDir::ColumnsRight)
            }
        },
        KeyCode::Left => {
            if app.cursor_visible {
                cursor_key(app, 0, -1, ScrollDir::ColumnsLeft)
            } else {
                let c = if app.col_scroll > 0 {
                    app.col_scroll - 1
                } else {
                    0
                };
                column_scroll(app, c, ScrollDir::ColumnsLeft)
            }
        },
        _ => Request::Continue,
    }
}

/// What a key does on the help screen.
pub open spec fn help_key_post<E>(a: App<E>, b: App<E>, key: KeyInput, r: Request) -> bool {
    &&& r is Continue
    &&& if key.code == KeyCode::Esc || is_char(key, '?') || is_ctrl(key, 'h') {
        App::<E>::logged(
            App { mode: Mode::Normal, ..a },
            b,
            OperationKind::Help,
            OperationOutcome::Cancelled,
            "Closed help"@,
            None,
        )
    } else {
        b == a
    }
}

/// What a key does: Control+B opens or closes the operations screen from anywhere; other
/// keys act as the current mode says.
pub open spec fn key_post<E>(a: App<E>, b: App<E>, key: KeyInput, r: Request) -> bool {
    if is_ctrl(key, 'b') {
        &&& r is Continue
        &&& a.mode == Mode::Operations ==> App::<E>::logged(
            App { mode: Mode::Normal, ..a },
            b,
            OperationKind::System,
            OperationOutcome::Cancelled,
            "Closed operations view"@,
            None,
        )
        &&& a.mode != Mode::Operations ==> App::<E>::logged(
            App { mode: Mode::Operations, ..a },
            b,
            OperationKind::System,
            OperationOutcome::Started,
            "Opened operations view"@,
            None,
        )
    } else {
        match a.mode {
            Mode::SqlInput | Mode::OpenInput | Mode::ExportInput => input_key_post(a, b, key, r),
            Mode::FieldSelect => field_key_post(a, b, key, r),
            Mode::MetadataView => metadata_key_post(a, b, key, r),
            Mode::Operations => operations_key_post(a, b, key, r),
            Mode::Help => help_key_post(a, b, key, r),
            Mode::Normal => normal_key_post(a, b, key, r),
        }
    }
}

/// Law: Control+B toggles the operations screen from any mode and keeps the typed input,
/// so two presses from the normal screen come back to it.
pub proof fn law_ctrl_b_toggles_operations<E>(
    a: App<E>,
    b: App<E>,
    c: App<E>,
    r1: Request,
    r2: Request,
    key: KeyInput,
)
    requires
        is_ctrl(key, 'b'),
        key_post(a, b, key, r1),
        key_post(b, c, key, r2),
    ensures
        r1 is Continue,
        b.mode == (if a.mode == Mode::Operations { Mode::Normal } else { Mode::Operations }),
        b.input_buffer == a.input_buffer,
        a.mode == Mode::Normal ==> c.mode == Mode::Normal,
{
}

/// Handles a key press.
pub fn handle_key<E>(app: &mut App<E>, key: KeyInput) -> (r: Request)
    requires
        old(app).next_operation_id < u64::MAX - 1,
        old(app).mode == Mode::FieldSelect && list_step(key) != 0 ==> (old(app).all_fields@.len()
            as i32) >= 0,
        old(app).mode == Mode::FieldSelect || old(app).mode == Mode::MetadataView
            ==> list_step_fits(key, old(app).meta_scroll),
    ensures
        key_post(*old(app), *final(app), key, r),
{
    if ctrl_char(key, 'b') {
        if app.mode == Mode::Operations {
            app.mode = Mode::Normal;
            app.log_cancelled(OperationKind::System, "Closed operations view");
        } else {
            app.mode = Mode::Operations;
            app.log_started(OperationKind::System, "Opened operations view");
        }
        return Request::Continue;
    }
    match app.mode {
        Mode::SqlInput | Mode::OpenInput | Mode::ExportInput => handle_input_mode(app, key),
        Mode::FieldSelect => handle_field_select(app, key),
        Mode::MetadataView => handle_metadata_view(app, key),
        Mode::Operations => handle_operations_view(app, key),
        Mode::Help => {
            if key.code == KeyCode::Esc || key.code == KeyCode::Char('?') || ctrl_char(key, 'h') {
                app.log_cancelled(OperationKind::Help, "Closed help");
                app.mode = Mode::Normal;
            }
            Request::Continue
        },
        Mode::Normal => handle_normal_key(app, key),
    }
}

/// `prefix` followed by an error text.
fn prefixed(prefix: &str, e: &String) -> (s: String)
    ensures
        s@ == prefix@ + e@,
{
    let mut s = String::from_str(prefix);
    s.append(e.as_str());
    s
}

/// How the outcome of a request is reported.
pub open spec fn completion_post<E>(
    a: App<E>,
    b: App<E>,
    c: Completion,
    result: Result<(), String>,
) -> bool {
    match (c, result) {
        (Completion::ClearSql, Err(e)) => App::<E>::messaged(a, b, e@, true),
        (Completion::ClearSql, Ok(())) => App::<E>::logged(
            a,
            b,
            OperationKind::Clear,
            OperationOutcome::Succeeded,
            "Cleared SQL"@,
            None,
        ),
        (Completion::LoadAll, Err(e)) => App::<E>::messaged(a, b, e@, true),
        (Completion::LoadAll, Ok(())) => App::<E>::logged(
            a,
            b,
            OperationKind::Page,
            OperationOutcome::Succeeded,
            "Loaded all rows"@,
            None,
        ),
        (Completion::Reload, Err(e)) => App::<E>::messaged(a, b, e@, true),
        (Completion::Reload, Ok(())) => App::<E>::logged(
            a,
            b,
            OperationKind::Reload,
            OperationOutcome::Succeeded,
            "Reloaded data"@,
            None,
        ),
        (Completion::Sort, Err(e)) => App::<E>::messaged(a, b, "Sort error: "@ + e@, true),
        (Completion::Sort, Ok(())) => App::<E>::logged(
            a,
            b,
            OperationKind::Sort,
            OperationOutcome::Succeeded,
            "Toggled sort"@,
            None,
        ),
        (Completion::Scroll(d), Err(e)) => exists|m: App<E>|
            App::<E>::messaged(a, m, "Scroll error: "@ + e@, true) && App::<E>::logged(
                m,
                b,
                OperationKind::Scroll,
                OperationOutcome::Succeeded,
                scroll_text(d),
                None,
            ),
        (Completion::Scroll(d), Ok(())) => App::<E>::logged(
            a,
            b,
            OperationKind::Scroll,
            OperationOutcome::Succeeded,
            scroll_text(d),
            None,
        ),
        (Completion::Opened(input), Err(e)) => App::<E>::messaged(
            a,
            b,
            "Failed to open: "@ + e@,
            true,
        ),
        (Completion::Opened(input), Ok(())) => App::<E>::logged(
            App { focus: Focus::Table, ..a },
            b,
            OperationKind::Open,
            OperationOutcome::Succeeded,
            "Opened "@ + input@,
            None,
        ),
        (Completion::SqlCleared, Err(e)) => App::<E>::messaged(
            a,
            b,
            "Query clear error: "@ + e@,
            true,
        ),
        (Completion::SqlCleared, Ok(())) => exists|m: App<E>|
            App::<E>::messaged(a, m, "SQL mode cleared"@, false) && App::<E>::logged(
                m,
                b,
                OperationKind::Sql,
                OperationOutcome::Succeeded,
                "Cleared SQL mode"@,
                None,
            ),
        (Completion::SqlApplied(input), Err(e)) => App::<E>::messaged(
            a,
            b,
            "SQL query error: "@ + e@,
            true,
        ),
        (Completion::SqlApplied(input), Ok(())) => App::<E>::logged(
            App { focus: Focus::Table, ..a },
            b,
            OperationKind::Sql,
            OperationOutcome::Succeeded,
            "Applied SQL query"@,
            Some(input@),
        ),
        (Completion::Metadata, Err(e)) => App::<E>::messaged(
            a,
            b,
            "Metadata error: "@ + e@,
            true,
        ),
        (Completion::Metadata, Ok(())) => App::<E>::logged(
            App { meta_scroll: 0, mode: Mode::MetadataView, ..a },
            b,
            OperationKind::Metadata,
            OperationOutcome::Succeeded,
            "Opened metadata view"@,
            None,
        ),
        (Completion::Exported(path), Err(e)) => App::<E>::messaged(
            a,
            b,
            "Export failed: "@ + e@,
            true,
        ),
        (Completion::Exported(path), Ok(())) => exists|m: App<E>|
            App::<E>::messaged(a, m, "Exported to "@ + path@, false) && App::<E>::logged(
                m,
                b,
                OperationKind::Export,
                OperationOutcome::Succeeded,
                "Exported to "@ + path@,
                None,
            ),
        (Completion::FieldsApplied, Err(e)) => App::<E>::messaged(
            App { mode: Mode::Normal, ..a },
            b,
            e@,
            true,
        ),
        (Completion::FieldsApplied, Ok(())) => App::<E>::logged(
            App { mode: Mode::Normal, ..a },
            b,
            OperationKind::FieldSelect,
            OperationOutcome::Succeeded,
            "Applied field selection"@,
            None,
        ),
    }
}

impl<E> App<E> {
    /// Reports the outcome of the work that a request asked for: a message on failure,
    /// an entry in the log of operations on success, and the screen the work leads to.
    pub fn complete(&mut self, c: Completion, result: Result<(), String>)
        requires
            old(self).next_operation_id < u64::MAX - 1,
        ensures
            completion_post(*old(self), *final(self), c, result),
    {
        match (c, result) {
            (Completion::ClearSql, Err(e)) => self.set_message(e.as_str(), true),
            (Completion::ClearSql, Ok(())) => self.log_succeeded(
                OperationKind::Clear,
                "Cleared SQL",
            ),
            (Completion::LoadAll, Err(e)) => self.set_message(e.as_str(), true),
            (Completion::LoadAll, Ok(())) => self.log_succeeded(
                OperationKind::Page,
                "Loaded all rows",
            ),
            (Completion::Reload, Err(e)) => self.set_message(e.as_str(), true),
            (Completion::Reload, Ok(())) => self.log_succeeded(
                OperationKind::Reload,
                "Reloaded data",
            ),
            (Completion::Sort, Err(e)) => {
                let m = prefixed("Sort error: ", &e);
                self.set_message(m.as_str(), true);
            },
            (Completion::Sort, Ok(())) => self.log_succeeded(OperationKind::Sort, "Toggled sort"),
            (Completion::Scroll(d), Err(e)) => {
                let m = prefixed("Scroll error: ", &e);
                self.set_message(m.as_str(), true);
                let ghost mid = *self;
                self.log_succeeded(OperationKind::Scroll, scroll_summary(d));
                assert(App::<E>::messaged(*old(self), mid, "Scroll error: "@ + e@, true)
                    && App::<E>::logged(
                    mid,
                    *self,
                    OperationKind::Scroll,
                    OperationOutcome::Succeeded,
                    scroll_text(d),
                    None,
                ));
            },
            (Completion::Scroll(d), Ok(())) => {
                self.log_succeeded(OperationKind::Scroll, scroll_summary(d));
            },
            (Completion::Opened(input), Err(e)) => {
                let m = prefixed("Failed to open: ", &e);
                self.set_message(m.as_str(), true);
            },
            (Completion::Opened(input), Ok(())) => {
                self.focus = Focus::Table;
                let m = prefixed("Opened ", &input);
                self.log_succeeded(OperationKind::Open, m.as_str());
            },
            (Completion::SqlCleared, Err(e)) => {
                let m = prefixed("Query clear error: ", &e);
                self.set_message(m.as_str(), true);
            },
            (Completion::SqlCleared, Ok(())) => {
                self.set_message("SQL mode cleared", false);
                let ghost mid = *self;
                self.log_succeeded(OperationKind::Sql, "Cleared SQL mode");
                assert(App::<E>::messaged(*old(self), mid, "SQL mode cleared"@, false)
                    && App::<E>::logged(
                    mid,
                    *self,
                    OperationKind::Sql,
                    OperationOutcome::Succeeded,
                    "Cleared SQL mode"@,
                    None,
                ));
            },
            (Completion::SqlApplied(input), Err(e)) => {
                let m = prefixed("SQL query error: ", &e);
                self.set_message(m.as_str(), true);
            },
            (Completion::SqlApplied(input), Ok(())) => {
                self.focus = Focus::Table;
                self.log_succeeded_detail(OperationKind::Sql, "Applied SQL query", input.as_str());
            },
            (Completion::Metadata, Err(e)) => {
                let m = prefixed("Metadata error: ", &e);
                self.set_message(m.as_str(), true);
            },
            (Completion::Metadata, Ok(())) => {
                self.log_succeeded(OperationKind::Metadata, "Opened metadata view");
                self.meta_scroll = 0;
                self.mode = Mode::MetadataView;
            },
            (Completion::Exported(path), Err(e)) => {
                let m = prefixed("Export failed: ", &e);
                self.set_message(m.as_str(), true);
            },
            (Completion::Exported(path), Ok(())) => {
                let m = prefixed("Exported to ", &path);
                self.set_message(m.as_str(), false);
                let ghost mid = *self;
                self.log_succeeded(OperationKind::Export, m.as_str());
                assert(App::<E>::messaged(*old(self), mid, "Exported to "@ + path@, false)
                    && App::<E>::logged(
                    mid,
                    *self,
                    OperationKind::Export,
                    OperationOutcome::Succeeded,
                    "Exported to "@ + path@,
                    None,
                ));
            },
            (Completion::FieldsApplied, Err(e)) => {
                self.set_message(e.as_str(), true);
                self.mode = Mode::Normal;
            },
            (Completion::FieldsApplied, Ok(())) => {
                self.log_succeeded(OperationKind::FieldSelect, "Applied field selection");
                self.mode = Mode::Normal;
            },
        }
    }
}

} // verus!
