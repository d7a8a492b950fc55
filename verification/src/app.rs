//! The viewer's state: what is shown, the cursor, the SQL mode, sorting and the log of
//! operations. Work that reads data (opening files, running queries) is done by the
//! caller between the steps that these methods take.
use crate::engine::metadata::ParquetMetadata;
use crate::engine::sql_utils::column_safe_spec;
use crate::engine::{
    copy_strings, direction_keyword, direction_sql, make_column_safe, same_sort, sql_core, views,
    QueryResult, SortDirection, SortSpec,
};
use crate::settings::Settings;
use crate::text::{
    ascii_upper, chars_of, int_text, is_blank, is_ws, last_occurrence, last_occurrence_idx,
    push_int_text, text_from, text_of_range, trim, trim_end_by, trim_end_char_idx, trim_idx,
    trim_start_by, trim_str, upper_vec, ws_pred,
};
use std::collections::VecDeque;
use vstd::prelude::*;

verus! {

/// Which panel/input mode is active.
#[derive(Debug, Clone, Copy, PartialEq, Eq, Structural)]
pub enum Mode {
    Normal,
    SqlInput,
    OpenInput,
    ExportInput,
    FieldSelect,
    MetadataView,
    Operations,
    Help,
}

/// The query that the SQL bar shows in table mode.
pub const DEFAULT_SQL: &'static str = "SELECT * FROM pv_data LIMIT 100";

/// How many selected columns a table-mode query reads at a time.
pub const COLUMN_QUERY_WINDOW_SIZE: usize = 50;

#[derive(Debug, Clone, Copy, PartialEq, Eq, Structural)]
pub enum OperationLevel {
    Info,
    Success,
    Error,
}

#[derive(Debug, Clone, Copy, PartialEq, Eq, Structural)]
pub enum OperationOutcome {
    Started,
    Succeeded,
    Failed,
    Cancelled,
}

#[derive(Debug, Clone, Copy, PartialEq, Eq, Structural)]
pub enum OperationKind {
    Open,
    Sql,
    Clear,
    Page,
    Scroll,
    FieldSelect,
    Metadata,
    Sort,
    Export,
    Reload,
    Input,
    Help,
    Quit,
    Crosshair,
    Display,
    System,
}

/// One entry of the log of operations.
#[derive(Debug, Clone, PartialEq, Eq)]
pub struct OperationLog {
    pub id: u64,
    pub timestamp_ms: u128,
    pub kind: OperationKind,
    pub outcome: OperationOutcome,
    pub level: OperationLevel,
    pub summary: String,
    pub detail: Option<String>,
}

#[derive(Debug, Clone, Copy, PartialEq, Eq, Structural)]
pub enum TableDensity {
    Fill,
    Dense,
}

#[derive(Debug, Clone, Copy, PartialEq, Eq, Structural)]
pub enum Focus {
    Path,
    Sql,
    Table,
}

/// Application state. `E` is the engine that reads the open file or folder.
pub struct App<E> {
    pub engine: Option<E>,
    pub metadata: Option<ParquetMetadata>,
    pub settings: Settings,
    pub path: Option<String>,
    pub selected_fields: Vec<String>,
    pub all_fields: Vec<String>,
    pub source_record_count: i64,
    pub record_count: i64,
    pub partition_count: i64,
    pub offset: i64,
    pub page_size: i64,
    pub sql_query: String,
    pub sort: Option<SortSpec>,
    /// Cached loaded rows (string-formatted cells).
    pub rows: Vec<Vec<String>>,
    /// Column headers for current selection.
    pub headers: Vec<String>,
    pub visible_col_start: usize,
    pub mode: Mode,
    pub focus: Focus,
    pub input_buffer: String,
    pub input_prompt: String,
    /// Status / error message shown to user.
    pub message: String,
    pub message_is_error: bool,
    /// Table scroll state
    pub row_scroll: usize,
    pub col_scroll: usize,
    pub cursor_visible: bool,
    pub cursor_row: usize,
    pub cursor_col: usize,
    pub table_density: TableDensity,
    /// Field select cursor
    pub field_select_cursor: usize,
    /// Metadata view scroll
    pub meta_scroll: usize,
    pub operation_log: VecDeque<OperationLog>,
    pub next_operation_id: u64,
    pub operation_log_capacity: usize,
    pub operation_log_scroll: usize,
}

/// What a reload asks the engine to read.
pub enum ReloadPlan {
    /// No file is open: nothing is read.
    Skip,
    /// Table mode with no field selected: rows and headers were cleared, nothing is read.
    Cleared,
    /// Read a page of the given fields (table mode).
    Table { fields: Vec<String>, offset: i64, limit: i64, sort: Option<SortSpec> },
    /// Run the SQL-mode query for a page of rows.
    Sql { sql: String, offset: i64, limit: i64 },
}

/// What toggling the sort asks for next.
#[derive(Debug, Clone, Copy, PartialEq, Eq, Structural)]
pub enum SortToggle {
    /// There is no column: an error message was shown.
    NoColumn,
    /// Count the rows of the new SQL query, then reload.
    CountThenReload,
    /// No file is open: reload only.
    ReloadOnly,
}

/// What an opened file or folder offers.
pub struct OpenedSource {
    pub field_names: Vec<String>,
    pub record_count: i64,
    pub partition_count: i64,
    pub path: String,
}

/// Errors of the viewer's own rules.
#[derive(Debug, Clone, Copy, PartialEq, Eq, Structural)]
pub enum AppError {
    NoFileOpen,
}

impl AppError {
    pub fn message(&self) -> (s: String)
        ensures
            s@ == "No file is open"@,
    {
        String::from_str("No file is open")
    }
}

/// Rows per query: the page size, or 1000 when it is not positive.
pub open spec fn page_limit(page_size: i64) -> i64 {
    if page_size <= 0 {
        1000
    } else {
        page_size
    }
}

/// Whether two optional sorts are copies of each other.
pub open spec fn sort_copy(a: Option<SortSpec>, b: Option<SortSpec>) -> bool {
    match (a, b) {
        (None, None) => true,
        (Some(x), Some(y)) => same_sort(x, y),
        _ => false,
    }
}

/// `x + d` clamped to the range of `usize` (`usize::saturating_add_signed`).
pub open spec fn add_signed_sat(x: int, d: int) -> int {
    if x + d < 0 {
        0
    } else if x + d > usize::MAX {
        usize::MAX as int
    } else {
        x + d
    }
}

/// `n - 1`, or 0 when `n` is 0.
pub open spec fn last_index(n: int) -> int {
    if n > 0 {
        n - 1
    } else {
        0
    }
}

pub open spec fn min_int(a: int, b: int) -> int {
    if a < b {
        a
    } else {
        b
    }
}

/// The text shown after a reload.
pub open spec fn reload_message(rows: int, offset: i64) -> Seq<char> {
    if rows == 0 {
        "No rows returned for the current query."@
    } else {
        "Loaded "@ + int_text(rows) + " rows (offset "@ + int_text(offset as int) + ")"@
    }
}

/// The text shown when an opened table has more selected columns than one query reads.
pub open spec fn wide_table_message(visible: int, selected: int) -> Seq<char> {
    "Wide table: loaded visible "@ + int_text(visible) + " of "@ + int_text(selected)
        + " selected columns."@
}

/// The direction that toggling gives a column: ascending, then descending, then none.
pub open spec fn next_direction(sort: Option<SortSpec>, idx: usize, name: Seq<char>) -> Option<
    SortDirection,
> {
    match sort {
        Some(s) => if s.column_index == idx && s.column_name@ == name && s.direction
            == SortDirection::Asc {
            Some(SortDirection::Desc)
        } else if s.column_index == idx && s.column_name@ == name && s.direction
            == SortDirection::Desc {
            None
        } else {
            Some(SortDirection::Asc)
        },
        None => Some(SortDirection::Asc),
    }
}

/// The text of an optional string.
pub open spec fn opt_text(o: Option<String>) -> Option<Seq<char>> {
    match o {
        Some(s) => Some(s@),
        None => None,
    }
}

/// The level that an outcome is logged at.
pub open spec fn level_of(outcome: OperationOutcome) -> OperationLevel {
    match outcome {
        OperationOutcome::Failed => OperationLevel::Error,
        OperationOutcome::Succeeded => OperationLevel::Success,
        OperationOutcome::Started | OperationOutcome::Cancelled => OperationLevel::Info,
    }
}

/// Milliseconds since the Unix epoch by the system clock, or 0 if the clock is before it
/// (`SystemTime::now`, `duration_since`, `as_millis`). Nothing is promised of the value.
#[verifier::external_body]
fn unix_millis() -> (ms: u128) {
    match std::time::SystemTime::now().duration_since(std::time::UNIX_EPOCH) {
        Ok(d) => d.as_millis(),
        Err(_) => 0,
    }
}

impl<E> App<E> {
    /// Whether the log keeps its older entries, oldest first, and ends with a new entry of
    /// the given kind, outcome, summary and detail, trimmed to the capacity from the front.
    pub open spec fn log_appended(
        old_log: Seq<OperationLog>,
        new_log: Seq<OperationLog>,
        cap: usize,
        id: u64,
        kind: OperationKind,
        outcome: OperationOutcome,
        summary: Seq<char>,
        detail: Option<Seq<char>>,
    ) -> bool {
        let n = old_log.len() + 1;
        let kept = if n > cap {
            cap as int
        } else {
            n as int
        };
        &&& new_log.len() == kept
        &&& forall|i: int| 0 <= i < kept - 1 ==> #[trigger] new_log[i] == old_log[n - kept + i]
        &&& kept > 0 ==> {
            let e = new_log[kept - 1];
            &&& e.id == id
            &&& e.kind == kind
            &&& e.outcome == outcome
            &&& e.level == level_of(outcome)
            &&& e.summary@ == summary
            &&& opt_text(e.detail) == detail
        }
    }

    /// `b` is `a` with one more entry in the log of operations.
    pub open spec fn logged(
        a: App<E>,
        b: App<E>,
        kind: OperationKind,
        outcome: OperationOutcome,
        summary: Seq<char>,
        detail: Option<Seq<char>>,
    ) -> bool {
        &&& Self::log_appended(
            a.operation_log@,
            b.operation_log@,
            a.operation_log_capacity,
            a.next_operation_id,
            kind,
            outcome,
            summary,
            detail,
        )
        &&& b == (App {
            operation_log: b.operation_log,
            next_operation_id: (a.next_operation_id + 1) as u64,
            operation_log_scroll: 0,
            ..a
        })
    }

    /// `b` is `a` showing a message, logged as a system operation that failed or succeeded.
    pub open spec fn messaged(a: App<E>, b: App<E>, msg: Seq<char>, is_error: bool) -> bool {
        &&& b.message@ == msg
        &&& b.message_is_error == is_error
        &&& Self::logged(
            App { message: b.message, message_is_error: is_error, ..a },
            b,
            OperationKind::System,
            if is_error {
                OperationOutcome::Failed
            } else {
                OperationOutcome::Succeeded
            },
            msg,
            None,
        )
    }

    pub fn new(settings: Settings) -> (app: Self)
        ensures
            app.engine is None,
            app.metadata is None,
            app.settings == settings,
            app.path is None,
            app.selected_fields@.len() == 0,
            app.all_fields@.len() == 0,
            app.source_record_count == 0,
            app.record_count == 0,
            app.partition_count == 0,
            app.offset == 0,
            app.page_size == 1000,
            app.sql_query@.len() == 0,
            app.sort is None,
            app.rows@.len() == 0,
            app.headers@.len() == 0,
            app.visible_col_start == 0,
            app.mode == Mode::Normal,
            app.focus == Focus::Table,
            app.input_buffer@.len() == 0,
            app.input_prompt@.len() == 0,
            app.message@.len() == 0,
            !app.message_is_error,
            app.row_scroll == 0,
            app.col_scroll == 0,
            app.cursor_visible,
            app.cursor_row == 0,
            app.cursor_col == 0,
            app.table_density == TableDensity::Fill,
            app.field_select_cursor == 0,
            app.meta_scroll == 0,
            app.operation_log@.len() == 0,
            app.next_operation_id == 1,
            app.operation_log_capacity == 500,
            app.operation_log_scroll == 0,
    {
        App {
            engine: None,
            metadata: None,
            settings,
            path: None,
            selected_fields: Vec::new(),
            all_fields: Vec::new(),
            source_record_count: 0,
            record_count: 0,
            partition_count: 0,
            offset: 0,
            page_size: 1000,
            sql_query: String::new(),
            sort: None,
            rows: Vec::new(),
            headers: Vec::new(),
            visible_col_start: 0,
            mode: Mode::Normal,
            focus: Focus::Table,
            input_buffer: String::new(),
            input_prompt: String::new(),
            message: String::new(),
            message_is_error: false,
            row_scroll: 0,
            col_scroll: 0,
            cursor_visible: true,
            cursor_row: 0,
            cursor_col: 0,
            table_density: TableDensity::Fill,
            field_select_cursor: 0,
            meta_scroll: 0,
            operation_log: VecDeque::new(),
            next_operation_id: 1,
            operation_log_capacity: 500,
            operation_log_scroll: 0,
        }
    }

    /// Puts the table back at its top-left corner.
    pub fn reset_scroll_state(&mut self)
        ensures
            *final(self) == (App {
                row_scroll: 0,
                col_scroll: 0,
                visible_col_start: 0,
                cursor_row: 0,
                cursor_col: 0,
                ..*old(self)
            }),
    {
        self.row_scroll = 0;
        self.col_scroll = 0;
        self.visible_col_start = 0;
        self.cursor_row = 0;
        self.cursor_col = 0;
    }

    /// Appends an entry to the log of operations, stamped with the system clock's reading in
    /// milliseconds since the Unix epoch (see `record_operation_at`).
    pub fn record_operation(
        &mut self,
        kind: OperationKind,
        outcome: OperationOutcome,
        summary: &str,
        detail: Option<String>,
    )
        requires
            old(self).next_operation_id < u64::MAX,
        ensures
            Self::log_appended(
                old(self).operation_log@,
                final(self).operation_log@,
                old(self).operation_log_capacity,
                old(self).next_operation_id,
                kind,
                outcome,
                summary@,
                opt_text(detail),
            ),
            *final(self) == (App {
                operation_log: final(self).operation_log,
                next_operation_id: (old(self).next_operation_id + 1) as u64,
                operation_log_scroll: 0,
                ..*old(self)
            }),
    {
        let timestamp_ms = unix_millis();
        self.record_operation_at(kind, outcome, summary, detail, timestamp_ms);
    }

    /// Appends an entry stamped `timestamp_ms` to the log of operations, dropping the oldest
    /// entries beyond the log's capacity, and scrolls the log back to its newest entry.
    pub fn record_operation_at(
        &mut self,
        kind: OperationKind,
        outcome: OperationOutcome,
        summary: &str,
        detail: Option<String>,
        timestamp_ms: u128,
    )
        requires
            old(self).next_operation_id < u64::MAX,
        ensures
            final(self).operation_log@.len() > 0 ==> final(self).operation_log@.last().timestamp_ms
                == timestamp_ms,
            Self::log_appended(
                old(self).operation_log@,
                final(self).operation_log@,
                old(self).operation_log_capacity,
                old(self).next_operation_id,
                kind,
                outcome,
                summary@,
                opt_text(detail),
            ),
            *final(self) == (App {
                operation_log: final(self).operation_log,
                next_operation_id: (old(self).next_operation_id + 1) as u64,
                operation_log_scroll: 0,
                ..*old(self)
            }),
    {
        let level = match outcome {
            OperationOutcome::Failed => OperationLevel::Error,
            OperationOutcome::Succeeded => OperationLevel::Success,
            OperationOutcome::Started | OperationOutcome::Cancelled => OperationLevel::Info,
        };
        let entry = OperationLog {
            id: self.next_operation_id,
            timestamp_ms,
            kind,
            outcome,
            level,
            summary: String::from_str(summary),
            detail,
        };
        let ghost old_log = self.operation_log@;
        let ghost e = entry;
        self.next_operation_id = self.next_operation_id + 1;
        self.operation_log.push_back(entry);
        let cap = self.operation_log_capacity;
        let ghost pushed = old_log.push(e);
        let ghost n = pushed.len();
        let ghost pre_loop = *self;
        while self.operation_log.len() > cap
            invariant
                self.operation_log_capacity == cap,
                n == pushed.len(),
                *self == (App { operation_log: self.operation_log, ..pre_loop }),
                self.operation_log@.len() <= n,
                self.operation_log@.len() >= (if n > cap {
                    cap as int
                } else {
                    n as int
                }),
                self.operation_log@ == pushed.subrange(
                    n - self.operation_log@.len(),
                    n as int,
                ),
            decreases self.operation_log@.len(),
        {
            self.operation_log.pop_front();
            assert(self.operation_log@ =~= pushed.subrange(
                n - self.operation_log@.len(),
                n as int,
            ));
        }
        self.operation_log_scroll = 0;
        proof {
            let kept = self.operation_log@.len();
            assert(kept == if n > cap {
                cap as int
            } else {
                n as int
            });
            assert forall|i: int| 0 <= i < kept - 1 implies #[trigger] self.operation_log@[i]
                == old_log[n - kept + i] by {
                assert(self.operation_log@[i] == pushed[n - kept + i]);
            }
            if kept > 0 {
                assert(self.operation_log@[kept - 1] == e);
            }
        }
    }

    /// Logs that an operation started.
    pub fn log_started(&mut self, kind: OperationKind, summary: &str)
        requires
            old(self).next_operation_id < u64::MAX,
        ensures
            Self::log_appended(
                old(self).operation_log@,
                final(self).operation_log@,
                old(self).operation_log_capacity,
                old(self).next_operation_id,
                kind,
                OperationOutcome::Started,
                summary@,
                None,
            ),
            *final(self) == (App {
                operation_log: final(self).operation_log,
                next_operation_id: (old(self).next_operation_id + 1) as u64,
                operation_log_scroll: 0,
                ..*old(self)
            }),
    {
        self.record_operation(kind, OperationOutcome::Started, summary, None);
    }

    /// Logs that an operation succeeded.
    pub fn log_succeeded(&mut self, kind: OperationKind, summary: &str)
        requires
            old(self).next_operation_id < u64::MAX,
        ensures
            Self::log_appended(
                old(self).operation_log@,
                final(self).operation_log@,
                old(self).operation_log_capacity,
                old(self).next_operation_id,
                kind,
                OperationOutcome::Succeeded,
                summary@,
                None,
            ),
            *final(self) == (App {
                operation_log: final(self).operation_log,
                next_operation_id: (old(self).next_operation_id + 1) as u64,
                operation_log_scroll: 0,
                ..*old(self)
            }),
    {
        self.record_operation(kind, OperationOutcome::Succeeded, summary, None);
    }

    /// Logs that an operation succeeded, with a detail.
    pub fn log_succeeded_detail(&mut self, kind: OperationKind, summary: &str, detail: &str)
        requires
            old(self).next_operation_id < u64::MAX,
        ensures
            Self::log_appended(
                old(self).operation_log@,
                final(self).operation_log@,
                old(self).operation_log_capacity,
                old(self).next_operation_id,
                kind,
                OperationOutcome::Succeeded,
                summary@,
                Some(detail@),
            ),
            *final(self) == (App {
                operation_log: final(self).operation_log,
                next_operation_id: (old(self).next_operation_id + 1) as u64,
                operation_log_scroll: 0,
                ..*old(self)
            }),
    {
        let d = String::from_str(detail);
        self.record_operation(kind, OperationOutcome::Succeeded, summary, Some(d));
    }

    /// Logs that an operation was cancelled.
    pub fn log_cancelled(&mut self, kind: OperationKind, summary: &str)
        requires
            old(self).next_operation_id < u64::MAX,
        ensures
            Self::log_appended(
                old(self).operation_log@,
                final(self).operation_log@,
                old(self).operation_log_capacity,
                old(self).next_operation_id,
                kind,
                OperationOutcome::Cancelled,
                summary@,
                None,
            ),
            *final(self) == (App {
                operation_log: final(self).operation_log,
                next_operation_id: (old(self).next_operation_id + 1) as u64,
                operation_log_scroll: 0,
                ..*old(self)
            }),
    {
        self.record_operation(kind, OperationOutcome::Cancelled, summary, None);
    }

    /// Shows a message and logs it as a system operation that succeeded or failed.
    pub fn set_message(&mut self, msg: &str, is_error: bool)
        requires
            old(self).next_operation_id < u64::MAX,
        ensures
            final(self).message@ == msg@,
            final(self).message_is_error == is_error,
            Self::log_appended(
                old(self).operation_log@,
                final(self).operation_log@,
                old(self).operation_log_capacity,
                old(self).next_operation_id,
                OperationKind::System,
                if is_error {
                    OperationOutcome::Failed
                } else {
                    OperationOutcome::Succeeded
                },
                msg@,
                None,
            ),
            *final(self) == (App {
                message: final(self).message,
                message_is_error: is_error,
                operation_log: final(self).operation_log,
                next_operation_id: (old(self).next_operation_id + 1) as u64,
                operation_log_scroll: 0,
                ..*old(self)
            }),
    {
        self.message = String::from_str(msg);
        self.message_is_error = is_error;
        let outcome = if is_error {
            OperationOutcome::Failed
        } else {
            OperationOutcome::Succeeded
        };
        self.record_operation(OperationKind::System, outcome, msg, None);
    }

    /// Whether no SQL query is active (`sql_query` blank), so the selected fields are shown.
    pub open spec fn table_mode(&self) -> bool {
        trim(self.sql_query@).len() == 0
    }

    /// How many columns the current view has.
    pub open spec fn column_total(&self) -> int {
        if self.table_mode() {
            self.selected_fields@.len() as int
        } else {
            self.headers@.len() as int
        }
    }

    pub fn require_engine(&self) -> (b: bool)
        ensures
            b == self.engine is Some,
    {
        self.engine.is_some()
    }

    pub fn is_table_mode(&self) -> (b: bool)
        ensures
            b == self.table_mode(),
    {
        is_blank(self.sql_query.as_str())
    }

    pub fn is_sql_mode(&self) -> (b: bool)
        ensures
            b == !self.table_mode(),
    {
        !is_blank(self.sql_query.as_str())
    }

    pub fn total_columns(&self) -> (n: usize)
        ensures
            n == self.column_total(),
    {
        if self.is_table_mode() {
            self.selected_fields.len()
        } else {
            self.headers.len()
        }
    }

    pub fn toggle_cursor(&mut self)
        ensures
            *final(self) == (App { cursor_visible: !old(self).cursor_visible, ..*old(self) }),
    {
        self.cursor_visible = !self.cursor_visible;
    }

    pub fn toggle_table_density(&mut self)
        ensures
            *final(self) == (App {
                table_density: match old(self).table_density {
                    TableDensity::Fill => TableDensity::Dense,
                    TableDensity::Dense => TableDensity::Fill,
                },
                ..*old(self)
            }),
    {
        self.table_density = match self.table_density {
            TableDensity::Fill => TableDensity::Dense,
            TableDensity::Dense => TableDensity::Fill,
        };
    }

    /// Moves the focus path -> sql -> table -> path.
    pub fn next_focus(&mut self)
        ensures
            *final(self) == (App {
                focus: match old(self).focus {
                    Focus::Path => Focus::Sql,
                    Focus::Sql => Focus::Table,
                    Focus::Table => Focus::Path,
                },
                ..*old(self)
            }),
    {
        self.focus = match self.focus {
            Focus::Path => Focus::Sql,
            Focus::Sql => Focus::Table,
            Focus::Table => Focus::Path,
        };
    }

    /// Opens an input mode with a prompt and an empty input buffer.
    pub fn enter_input_mode(&mut self, mode: Mode, prompt: &str)
        ensures
            final(self).input_prompt@ == prompt@,
            final(self).input_buffer@.len() == 0,
            *final(self) == (App {
                mode,
                input_prompt: final(self).input_prompt,
                input_buffer: final(self).input_buffer,
                ..*old(self)
            }),
    {
        self.mode = mode;
        self.input_prompt = String::from_str(prompt);
        self.input_buffer = String::new();
    }

    /// Leaves an input mode, dropping what was typed.
    pub fn exit_input_mode(&mut self)
        ensures
            final(self).input_buffer@.len() == 0,
            *final(self) == (App {
                mode: Mode::Normal,
                input_buffer: final(self).input_buffer,
                ..*old(self)
            }),
    {
        self.mode = Mode::Normal;
        self.input_buffer = String::new();
    }

    /// Moves the window of loaded columns so that it holds the cursor's column.
    pub fn ensure_column_window(&mut self)
        ensures
            *final(self) == (App {
                visible_col_start: window_start(
                    !old(self).table_mode(),
                    old(self).selected_fields@.len() as int,
                    old(self).visible_col_start as int,
                    old(self).cursor_col as int,
                ) as usize,
                ..*old(self)
            }),
    {
        if self.is_sql_mode() || self.selected_fields.len() == 0 {
            self.visible_col_start = 0;
            return ;
        }
        let len = self.selected_fields.len();
        let max_start = if len > COLUMN_QUERY_WINDOW_SIZE {
            len - COLUMN_QUERY_WINDOW_SIZE
        } else {
            0
        };
        let start = if self.visible_col_start < max_start {
            self.visible_col_start
        } else {
            max_start
        };
        let end = if start + COLUMN_QUERY_WINDOW_SIZE < len {
            start + COLUMN_QUERY_WINDOW_SIZE
        } else {
            len
        };
        let c = self.cursor_col;
        self.visible_col_start = if c < start {
            if c < max_start {
                c
            } else {
                max_start
            }
        } else if c >= end {
            let back = if c > COLUMN_QUERY_WINDOW_SIZE - 1 {
                c - (COLUMN_QUERY_WINDOW_SIZE - 1)
            } else {
                0
            };
            if back < max_start {
                back
            } else {
                max_start
            }
        } else {
            start
        };
    }

    /// The selected fields in the window of loaded columns.
    fn visible_fields(&self) -> (r: Vec<String>)
        requires
            self.visible_col_start <= self.selected_fields@.len(),
        ensures
            views(r@) == views(
                self.selected_fields@.subrange(
                    self.visible_col_start as int,
                    window_end(self.visible_col_start as int, self.selected_fields@.len() as int),
                ),
            ),
    {
        let len = self.selected_fields.len();
        let start = self.visible_col_start;
        let end = if len - start > COLUMN_QUERY_WINDOW_SIZE {
            start + COLUMN_QUERY_WINDOW_SIZE
        } else {
            len
        };
        let mut r: Vec<String> = Vec::new();
        let mut i = start;
        while i < end
            invariant
                start <= i <= end <= self.selected_fields@.len(),
                start == self.visible_col_start,
                end == window_end(start as int, self.selected_fields@.len() as int),
                r@.len() == i - start,
                forall|j: int| 0 <= j < i - start ==> #[trigger] r@[j]@
                    == self.selected_fields@[start + j]@,
            decreases end - i,
        {
            r.push(self.selected_fields[i].clone());
            i = i + 1;
        }
        assert(views(r@) =~= views(self.selected_fields@.subrange(start as int, end as int)));
        r
    }

    /// Prepares a reload: moves the column window to the cursor, drops a stale sort, and
    /// says what the engine is to read (or clears the rows when no field is selected).
    pub fn reload(&mut self) -> (plan: ReloadPlan)
        ensures
            ({
                let mid = App {
                    visible_col_start: window_start(
                        !old(self).table_mode(),
                        old(self).selected_fields@.len() as int,
                        old(self).visible_col_start as int,
                        old(self).cursor_col as int,
                    ) as usize,
                    ..*old(self)
                };
                if old(self).engine is None {
                    plan is Skip && *final(self) == mid
                } else if old(self).table_mode() && old(self).selected_fields@.len() == 0 {
                    &&& plan is Cleared
                    &&& final(self).rows@.len() == 0
                    &&& final(self).headers@.len() == 0
                    &&& *final(self) == (App {
                        rows: final(self).rows,
                        headers: final(self).headers,
                        ..mid
                    })
                } else if old(self).table_mode() {
                    &&& *final(self) == (App {
                        sort: fresh_sort(old(self).sort, old(self).selected_fields@),
                        ..mid
                    })
                    &&& plan matches ReloadPlan::Table { fields, offset, limit, sort }
                    &&& views(fields@) == views(
                        old(self).selected_fields@.subrange(
                            mid.visible_col_start as int,
                            window_end(
                                mid.visible_col_start as int,
                                old(self).selected_fields@.len() as int,
                            ),
                        ),
                    )
                    &&& offset == old(self).offset
                    &&& limit == page_limit(old(self).page_size)
                    &&& sort_copy(sort, final(self).sort)
                } else {
                    &&& *final(self) == (App {
                        sort: fresh_sort(old(self).sort, old(self).headers@),
                        ..mid
                    })
                    &&& plan matches ReloadPlan::Sql { sql, offset, limit }
                    &&& sql@ == old(self).sql_query@
                    &&& offset == old(self).offset
                    &&& limit == page_limit(old(self).page_size)
                }
            }),
    {
        self.ensure_column_window();
        if self.engine.is_none() {
            return ReloadPlan::Skip;
        }
        let limit = if self.page_size <= 0 {
            1000
        } else {
            self.page_size
        };
        if self.is_table_mode() {
            if self.selected_fields.len() == 0 {
                self.rows = Vec::new();
                self.headers = Vec::new();
                return ReloadPlan::Cleared;
            }
            invalidate_sort_if_stale(&mut self.sort, self.selected_fields.as_slice());
            proof {
                law_column_window_holds_cursor(
                    self.selected_fields@.len() as int,
                    0,
                    0,
                );
            }
            let fields = self.visible_fields();
            let sort = match &self.sort {
                Some(s) => Some(s.duplicate()),
                None => None,
            };
            ReloadPlan::Table { fields, offset: self.offset, limit, sort }
        } else {
            invalidate_sort_if_stale(&mut self.sort, self.headers.as_slice());
            ReloadPlan::Sql { sql: self.sql_query.clone(), offset: self.offset, limit }
        }
    }

    /// The names of the selected fields in the window of loaded columns (none when the
    /// window starts past them).
    pub open spec fn window_fields(self) -> Seq<Seq<char>> {
        if self.visible_col_start <= self.selected_fields@.len() {
            views(
                self.selected_fields@.subrange(
                    self.visible_col_start as int,
                    window_end(self.visible_col_start as int, self.selected_fields@.len() as int),
                ),
            )
        } else {
            Seq::empty()
        }
    }

    /// Takes in the rows that a reload read: shows them from the top, keeps the cursor
    /// inside the columns, and reports how many rows came. After a table read (`table`) the
    /// headers are the selected fields in the window of loaded columns, the fields that the
    /// read asked for; after an SQL read they are the result's own.
    pub fn finish_reload(&mut self, result: QueryResult, table: bool)
        requires
            old(self).next_operation_id < u64::MAX,
        ensures
            ({
                let total = if old(self).table_mode() {
                    old(self).selected_fields@.len() as int
                } else {
                    final(self).headers@.len() as int
                };
                let mid = App {
                    headers: final(self).headers,
                    rows: result.rows,
                    record_count: if table {
                        old(self).source_record_count
                    } else {
                        old(self).record_count
                    },
                    row_scroll: 0,
                    cursor_row: 0,
                    cursor_col: min_int(old(self).cursor_col as int, last_index(total)) as usize,
                    col_scroll: min_int(old(self).col_scroll as int, last_index(total)) as usize,
                    ..*old(self)
                };
                &&& table ==> views(final(self).headers@) == old(self).window_fields()
                &&& !table ==> final(self).headers == result.headers
                &&& final(self).message@ == reload_message(
                    result.rows@.len() as int,
                    old(self).offset,
                )
                &&& !final(self).message_is_error
                &&& Self::log_appended(
                    old(self).operation_log@,
                    final(self).operation_log@,
                    old(self).operation_log_capacity,
                    old(self).next_operation_id,
                    OperationKind::System,
                    OperationOutcome::Succeeded,
                    final(self).message@,
                    None,
                )
                &&& *final(self) == (App {
                    message: final(self).message,
                    message_is_error: false,
                    operation_log: final(self).operation_log,
                    next_operation_id: (old(self).next_operation_id + 1) as u64,
                    operation_log_scroll: 0,
                    ..mid
                })
            }),
    {
        if table {
            self.headers = if self.visible_col_start <= self.selected_fields.len() {
                self.visible_fields()
            } else {
                Vec::new()
            };
            assert(views(self.headers@) =~= old(self).window_fields());
            self.record_count = self.source_record_count;
        } else {
            self.headers = result.headers;
        }
        self.rows = result.rows;
        self.row_scroll = 0;
        self.cursor_row = 0;
        let total = self.total_columns();
        let last = if total > 0 {
            total - 1
        } else {
            0
        };
        if self.cursor_col > last {
            self.cursor_col = last;
        }
        if self.col_scroll > last {
            self.col_scroll = last;
        }
        if self.rows.len() == 0 {
            self.set_message("No rows returned for the current query.", false);
        } else {
            let mut msg = String::from_str("Loaded ");
            append_int_text(&mut msg, self.rows.len() as i128);
            msg.append(" rows (offset ");
            append_int_text(&mut msg, self.offset as i128);
            msg.append(")");
            self.set_message(msg.as_str(), false);
        }
    }

    /// What leaving SQL mode does (see `clear_sql_query`).
    pub open spec fn sql_cleared(a: App<E>, b: App<E>) -> bool {
        &&& (b.sql_query@.len() == 0)
        &&& (b == (App {
                sql_query: b.sql_query,
                record_count: a.source_record_count,
                offset: 0,
                row_scroll: 0,
                col_scroll: 0,
                visible_col_start: 0,
                cursor_row: 0,
                cursor_col: 0,
                sort: None,
                ..a
            }))
    }

    /// Leaves SQL mode: the table of selected fields is shown again from its first page.
    /// The caller reloads next.
    pub fn clear_sql_query(&mut self)
        ensures
            Self::sql_cleared(*old(self), *final(self)),
    {
        self.sql_query = String::new();
        self.record_count = self.source_record_count;
        self.offset = 0;
        self.reset_scroll_state();
        self.sort = None;
    }

    /// Makes the page as large as the row count, from the first row. The caller reloads next.
    pub fn load_all(&mut self)
        ensures
            *final(self) == (App {
                page_size: old(self).record_count,
                offset: 0,
                cursor_row: 0,
                ..*old(self)
            }),
    {
        self.page_size = self.record_count;
        self.offset = 0;
        self.cursor_row = 0;
    }

    /// Selects fields and leaves SQL mode, from the first page. The caller reloads next.
    pub fn set_fields(&mut self, fields: Vec<String>)
        ensures
            final(self).sql_query@.len() == 0,
            *final(self) == (App {
                selected_fields: fields,
                sql_query: final(self).sql_query,
                record_count: old(self).source_record_count,
                sort: None,
                offset: 0,
                row_scroll: 0,
                col_scroll: 0,
                visible_col_start: 0,
                cursor_row: 0,
                cursor_col: 0,
                ..*old(self)
            }),
    {
        self.selected_fields = fields;
        self.sql_query = String::new();
        self.record_count = self.source_record_count;
        self.sort = None;
        self.offset = 0;
        self.reset_scroll_state();
    }

    /// Enters SQL mode with a query, from the first page, unsorted. Without an open file this
    /// fails (after the query is stored); otherwise the caller counts its rows and reloads.
    pub fn apply_sql_query(&mut self, sql: String) -> (r: Result<(), AppError>)
        ensures
            r is Err <==> old(self).engine is None,
            *final(self) == (App {
                sql_query: sql,
                offset: 0,
                row_scroll: 0,
                col_scroll: 0,
                visible_col_start: 0,
                cursor_row: 0,
                cursor_col: 0,
                sort: None,
                ..*old(self)
            }),
    {
        self.sql_query = sql;
        self.offset = 0;
        self.reset_scroll_state();
        self.sort = None;
        if self.engine.is_none() {
            return Err(AppError::NoFileOpen);
        }
        Ok(())
    }

    /// What toggling the sort does (see `toggle_sort_current_column`).
    pub open spec fn sort_toggled(a: App<E>, b: App<E>, r: SortToggle) -> bool {
        &&& ((a.headers@.len() == 0 && a.selected_fields@.len() == 0) ==> {
                &&& r == SortToggle::NoColumn
                &&& b.message@ == "No column to sort"@
                &&& b.message_is_error
                &&& Self::log_appended(
                    a.operation_log@,
                    b.operation_log@,
                    a.operation_log_capacity,
                    a.next_operation_id,
                    OperationKind::System,
                    OperationOutcome::Failed,
                    "No column to sort"@,
                    None,
                )
                &&& b == (App {
                    message: b.message,
                    message_is_error: true,
                    operation_log: b.operation_log,
                    next_operation_id: (a.next_operation_id + 1) as u64,
                    operation_log_scroll: 0,
                    ..a
                })
            })
        &&& (!(a.headers@.len() == 0 && a.selected_fields@.len() == 0) ==> {
                let total = a.column_total();
                let idx = min_int(
                    if a.cursor_visible {
                        a.cursor_col as int
                    } else {
                        a.col_scroll as int
                    },
                    last_index(total),
                ) as usize;
                let names = if a.table_mode() {
                    a.selected_fields@
                } else {
                    a.headers@
                };
                let name = if idx < names.len() {
                    names[idx as int]@
                } else {
                    Seq::<char>::empty()
                };
                let dir = next_direction(a.sort, idx, name);
                &&& r == if a.engine is Some {
                    SortToggle::CountThenReload
                } else {
                    SortToggle::ReloadOnly
                }
                &&& b.sql_query@ == order_by_spec(
                    if a.table_mode() {
                        DEFAULT_SQL@
                    } else {
                        a.sql_query@
                    },
                    name,
                    dir,
                )
                &&& match (dir, b.sort) {
                    (None, None) => true,
                    (Some(d), Some(s)) => s.column_index == idx && s.column_name@ == name
                        && s.direction == d,
                    _ => false,
                }
                &&& b == (App {
                    sql_query: b.sql_query,
                    sort: b.sort,
                    offset: 0,
                    row_scroll: 0,
                    cursor_row: 0,
                    ..a
                })
            })
    }

    /// Toggles the sort of the cursor's column (ascending, descending, none): the query of
    /// the view (the default one in table mode) is rewritten with the new ORDER BY, and the
    /// view goes back to its first page. The caller then counts and reloads as answered.
    pub fn toggle_sort_current_column(&mut self) -> (r: SortToggle)
        requires
            old(self).next_operation_id < u64::MAX,
        ensures
            Self::sort_toggled(*old(self), *final(self), r),

    {
        if self.headers.len() == 0 && self.selected_fields.len() == 0 {
            self.set_message("No column to sort", true);
            return SortToggle::NoColumn;
        }
        let total = self.total_columns();
        let last = if total > 0 {
            total - 1
        } else {
            0
        };
        let pos = if self.cursor_visible {
            self.cursor_col
        } else {
            self.col_scroll
        };
        let idx = if pos < last {
            pos
        } else {
            last
        };
        let table = self.is_table_mode();
        let name = if table {
            if idx < self.selected_fields.len() {
                self.selected_fields[idx].clone()
            } else {
                String::new()
            }
        } else {
            if idx < self.headers.len() {
                self.headers[idx].clone()
            } else {
                String::new()
            }
        };
        let direction = match &self.sort {
            Some(s) => {
                if s.column_index == idx && s.column_name == name && s.direction
                    == SortDirection::Asc {
                    Some(SortDirection::Desc)
                } else if s.column_index == idx && s.column_name == name && s.direction
                    == SortDirection::Desc {
                    None
                } else {
                    Some(SortDirection::Asc)
                }
            },
            None => Some(SortDirection::Asc),
        };
        let sql = apply_order_by_to_sql(
            current_sql(self.sql_query.as_str()),
            name.as_str(),
            direction,
        );
        self.sql_query = sql;
        self.sort = match direction {
            Some(d) => Some(SortSpec { column_index: idx, column_name: name, direction: d }),
            None => None,
        };
        self.offset = 0;
        self.row_scroll = 0;
        self.cursor_row = 0;
        if self.engine.is_some() {
            SortToggle::CountThenReload
        } else {
            SortToggle::ReloadOnly
        }
    }

    /// What moving the cursor does (see `move_cursor`).
    pub open spec fn cursor_moved(
        a: App<E>,
        b: App<E>,
        row_delta: isize,
        col_delta: isize,
        reload: bool,
    ) -> bool {
        &&& ((a.rows@.len() == 0 || a.headers@.len() == 0) ==> (!reload
                && b == a))
        &&& (!(a.rows@.len() == 0 || a.headers@.len() == 0) ==> {
                let row = min_int(
                    add_signed_sat(a.cursor_row as int, row_delta as int),
                    last_index(a.rows@.len() as int),
                );
                let col = min_int(
                    add_signed_sat(a.cursor_col as int, col_delta as int),
                    last_index(a.column_total()),
                );
                let start = window_start(
                    !a.table_mode(),
                    a.selected_fields@.len() as int,
                    a.visible_col_start as int,
                    col,
                );
                &&& b == (App {
                    cursor_row: row as usize,
                    cursor_col: col as usize,
                    visible_col_start: start as usize,
                    ..a
                })
                &&& reload == (start != a.visible_col_start)
            })
    }

    /// Moves the cursor by the given numbers of rows and columns, staying on the loaded rows
    /// and the view's columns, and moves the column window with it. Answers whether the
    /// window moved, so that the caller reloads.
    pub fn move_cursor(&mut self, row_delta: isize, col_delta: isize) -> (reload: bool)
        ensures
            Self::cursor_moved(*old(self), *final(self), row_delta, col_delta, reload),

    {
        if self.rows.len() == 0 || self.headers.len() == 0 {
            return false;
        }
        let max_row = self.rows.len() - 1;
        let total = self.total_columns();
        let max_col = if total > 0 {
            total - 1
        } else {
            0
        };
        let r = add_signed_saturating(self.cursor_row, row_delta);
        self.cursor_row = if r < max_row {
            r
        } else {
            max_row
        };
        let c = add_signed_saturating(self.cursor_col, col_delta);
        self.cursor_col = if c < max_col {
            c
        } else {
            max_col
        };
        let prev = self.visible_col_start;
        self.ensure_column_window();
        self.visible_col_start != prev
    }

    /// Takes in a newly opened file or folder: all its fields are selected, the view is
    /// reset to the first page of table mode, and the page size follows the settings.
    /// Answers whether the caller is to reload; when there is no field, a message says so.
    pub fn install_engine(&mut self, engine: E, opened: OpenedSource) -> (reload: bool)
        requires
            old(self).next_operation_id < u64::MAX,
        ensures
            ({
                let mid = App {
                    engine: Some(engine),
                    all_fields: opened.field_names,
                    selected_fields: final(self).selected_fields,
                    record_count: opened.record_count,
                    source_record_count: opened.record_count,
                    partition_count: opened.partition_count,
                    path: final(self).path,
                    offset: 0,
                    sql_query: final(self).sql_query,
                    sort: None,
                    row_scroll: 0,
                    col_scroll: 0,
                    visible_col_start: 0,
                    cursor_row: 0,
                    cursor_col: 0,
                    page_size: if old(self).settings.always_load_all {
                        opened.record_count
                    } else {
                        old(self).settings.page_size
                    },
                    ..*old(self)
                };
                &&& views(final(self).selected_fields@) == views(opened.field_names@)
                &&& final(self).path matches Some(p) && p@ == opened.path@
                &&& final(self).sql_query@.len() == 0
                &&& reload == (opened.field_names@.len() > 0)
                &&& reload ==> *final(self) == mid
                &&& !reload ==> {
                    &&& final(self).message@ == "File opened. Press Ctrl+F to select fields."@
                    &&& !final(self).message_is_error
                    &&& Self::log_appended(
                        old(self).operation_log@,
                        final(self).operation_log@,
                        old(self).operation_log_capacity,
                        old(self).next_operation_id,
                        OperationKind::System,
                        OperationOutcome::Succeeded,
                        "File opened. Press Ctrl+F to select fields."@,
                        None,
                    )
                    &&& *final(self) == (App {
                        message: final(self).message,
                        message_is_error: false,
                        operation_log: final(self).operation_log,
                        next_operation_id: (old(self).next_operation_id + 1) as u64,
                        operation_log_scroll: 0,
                        ..mid
                    })
                }
            }),
    {
        let selected = copy_strings(opened.field_names.as_slice());
        self.all_fields = opened.field_names;
        self.record_count = opened.record_count;
        self.source_record_count = opened.record_count;
        self.partition_count = opened.partition_count;
        self.path = Some(opened.path);
        self.selected_fields = selected;
        self.offset = 0;
        self.sql_query = String::new();
        self.sort = None;
        self.reset_scroll_state();
        if self.settings.always_load_all {
            self.page_size = self.record_count;
        } else {
            self.page_size = self.settings.page_size;
        }
        self.engine = Some(engine);
        assert(views(self.selected_fields@).len() == views(opened.field_names@).len());
        let ghost pre = *self;
        if self.selected_fields.len() == 0 {
            self.set_message("File opened. Press Ctrl+F to select fields.", false);
            assert(*self == (App {
                message: self.message,
                message_is_error: false,
                operation_log: self.operation_log,
                next_operation_id: (pre.next_operation_id + 1) as u64,
                operation_log_scroll: 0,
                ..pre
            }));
            false
        } else {
            true
        }
    }

    /// After a newly opened table was loaded: says so when only a window of its selected
    /// columns could be read.
    pub fn note_wide_table(&mut self)
        requires
            old(self).next_operation_id < u64::MAX,
        ensures
            old(self).selected_fields@.len() <= COLUMN_QUERY_WINDOW_SIZE ==> *final(self) == *old(
                self,
            ),
            old(self).selected_fields@.len() > COLUMN_QUERY_WINDOW_SIZE ==> {
                &&& final(self).message@ == wide_table_message(
                    old(self).headers@.len() as int,
                    old(self).selected_fields@.len() as int,
                )
                &&& !final(self).message_is_error
                &&& Self::log_appended(
                    old(self).operation_log@,
                    final(self).operation_log@,
                    old(self).operation_log_capacity,
                    old(self).next_operation_id,
                    OperationKind::System,
                    OperationOutcome::Succeeded,
                    final(self).message@,
                    None,
                )
                &&& *final(self) == (App {
                    message: final(self).message,
                    message_is_error: false,
                    operation_log: final(self).operation_log,
                    next_operation_id: (old(self).next_operation_id + 1) as u64,
                    operation_log_scroll: 0,
                    ..*old(self)
                })
            },
    {
        if self.selected_fields.len() > COLUMN_QUERY_WINDOW_SIZE {
            let mut msg = String::from_str("Wide table: loaded visible ");
            append_int_text(&mut msg, self.headers.len() as i128);
            msg.append(" of ");
            append_int_text(&mut msg, self.selected_fields.len() as i128);
            msg.append(" selected columns.");
            self.set_message(msg.as_str(), false);
        }
    }
}

/// Where the window of loaded columns starts once it holds the cursor's column.
pub open spec fn window_start(sql_mode: bool, len: int, start: int, cursor: int) -> int {
    if sql_mode || len == 0 {
        0
    } else {
        let w = COLUMN_QUERY_WINDOW_SIZE as int;
        let max_start = if len > w {
            len - w
        } else {
            0
        };
        let s = if start < max_start {
            start
        } else {
            max_start
        };
        let end = if s + w < len {
            s + w
        } else {
            len
        };
        if cursor < s {
            if cursor < max_start {
                cursor
            } else {
                max_start
            }
        } else if cursor >= end {
            let back = if cursor > w - 1 {
                cursor - (w - 1)
            } else {
                0
            };
            if back < max_start {
                back
            } else {
                max_start
            }
        } else {
            s
        }
    }
}

/// Where the window of loaded columns that starts at `start` ends.
pub open spec fn window_end(start: int, len: int) -> int {
    if len - start > COLUMN_QUERY_WINDOW_SIZE {
        start + COLUMN_QUERY_WINDOW_SIZE
    } else {
        len
    }
}

/// Law: in table mode the window of loaded columns never passes the selected fields, and
/// it holds the cursor's column whenever that column exists.
pub proof fn law_column_window_holds_cursor(len: int, start: int, cursor: int)
    requires
        len > 0,
        start >= 0,
        cursor >= 0,
    ensures
        0 <= window_start(false, len, start, cursor) <= len,
        window_end(window_start(false, len, start, cursor), len) <= len,
        cursor < len ==> window_start(false, len, start, cursor) <= cursor < window_end(
            window_start(false, len, start, cursor),
            len,
        ),
{
}

/// Whether the entries of a log have strictly increasing ids, oldest first.
pub open spec fn ids_increasing(log: Seq<OperationLog>) -> bool {
    forall|i: int, j: int| 0 <= i < j < log.len() ==> #[trigger] log[i].id < #[trigger] log[j].id
}

/// Law: appending to the log of operations keeps it within its capacity, and keeps its ids
/// increasing when the new id is above every id already there.
pub proof fn law_log_append_keeps_capacity_and_order(
    old_log: Seq<OperationLog>,
    new_log: Seq<OperationLog>,
    cap: usize,
    id: u64,
    kind: OperationKind,
    outcome: OperationOutcome,
    summary: Seq<char>,
    detail: Option<Seq<char>>,
)
    requires
        App::<()>::log_appended(old_log, new_log, cap, id, kind, outcome, summary, detail),
        ids_increasing(old_log),
        forall|i: int| 0 <= i < old_log.len() ==> #[trigger] old_log[i].id < id,
    ensures
        new_log.len() <= cap,
        new_log.len() <= old_log.len() + 1,
        ids_increasing(new_log),
{
    let n = old_log.len() + 1;
    let kept: int = if n > cap {
        cap as int
    } else {
        n as int
    };
    assert forall|i: int, j: int| 0 <= i < j < new_log.len() implies #[trigger] new_log[i].id
        < #[trigger] new_log[j].id by {
        assert(new_log[i] == old_log[n - kept + i]);
        if j < kept - 1 {
            assert(new_log[j] == old_log[n - kept + j]);
        }
    }
}

/// Law: toggling the sort of one column goes from unsorted to ascending, to descending, and
/// back to unsorted.
pub proof fn law_sort_toggle_cycles(idx: usize, name: String)
    ensures
        next_direction(None, idx, name@) == Some(SortDirection::Asc),
        next_direction(
            Some(SortSpec { column_index: idx, column_name: name, direction: SortDirection::Asc }),
            idx,
            name@,
        ) == Some(SortDirection::Desc),
        next_direction(
            Some(SortSpec { column_index: idx, column_name: name, direction: SortDirection::Desc }),
            idx,
            name@,
        ) is None,
{
}

/// The column that a sort toggle acts on: the cursor's (or the scroll's, with the cursor
/// hidden), kept on the view's columns.
pub open spec fn toggle_column<E>(a: App<E>) -> int {
    let total = if trim(a.sql_query@).len() == 0 {
        a.selected_fields@.len() as int
    } else {
        a.headers@.len() as int
    };
    let want = if a.cursor_visible {
        a.cursor_col as int
    } else {
        a.col_scroll as int
    };
    if total == 0 {
        0
    } else if want < total - 1 {
        want
    } else {
        total - 1
    }
}

/// The name of the column that a sort toggle acts on.
pub open spec fn toggle_name<E>(a: App<E>) -> Seq<char> {
    let names = if trim(a.sql_query@).len() == 0 {
        a.selected_fields@
    } else {
        a.headers@
    };
    let i = toggle_column(a);
    if 0 <= i < names.len() {
        names[i]@
    } else {
        Seq::<char>::empty()
    }
}

/// Law: a sort toggle on a column that is not the sorted one (another position or
/// another name), or with nothing sorted, sorts that column ascending; on the sorted
/// column it goes from ascending to descending, and from descending to no sort.
pub proof fn law_sort_toggle_direction<E>(a: App<E>, b: App<E>, r: SortToggle)
    requires
        App::<E>::sort_toggled(a, b, r),
        a.headers@.len() > 0 || a.selected_fields@.len() > 0,
    ensures
        ({
            let i = toggle_column(a);
            let name = toggle_name(a);
            &&& (match a.sort {
                Some(s) => s.column_index != i || s.column_name@ != name,
                None => true,
            }) ==> (b.sort matches Some(t) && t.column_index == i && t.column_name@ == name
                && t.direction == SortDirection::Asc)
            &&& (a.sort matches Some(s) && s.column_index == i && s.column_name@ == name
                && s.direction == SortDirection::Asc) ==> (b.sort matches Some(t) && t.column_index
                == i && t.column_name@ == name && t.direction == SortDirection::Desc)
            &&& (a.sort matches Some(s) && s.column_index == i && s.column_name@ == name
                && s.direction == SortDirection::Desc) ==> b.sort is None
        }),
        b.offset == 0,
        b.row_scroll == 0,
        b.cursor_row == 0,
{
}

/// Trimming from the start keeps a suffix that reaches every character not trimmed.
pub proof fn lemma_trim_start_keeps(s: Seq<char>, p: spec_fn(char) -> bool, i: int)
    requires
        0 <= i < s.len(),
        !p(s[i]),
    ensures
        trim_start_by(s, p).len() >= s.len() - i,
        trim_start_by(s, p).len() <= s.len(),
        trim_start_by(s, p) == s.subrange(s.len() - trim_start_by(s, p).len(), s.len() as int),
    decreases s.len(),
{
    if p(s[0]) {
        let t = s.drop_first();
        assert(t[i - 1] == s[i]);
        lemma_trim_start_keeps(t, p, i - 1);
        assert(t.subrange(t.len() - trim_start_by(t, p).len(), t.len() as int) =~= s.subrange(
            s.len() - trim_start_by(t, p).len(),
            s.len() as int,
        ));
    } else {
        assert(s.subrange(0, s.len() as int) =~= s);
    }
}

/// Trimming from the end keeps every character up to one not trimmed.
pub proof fn lemma_trim_end_keeps(s: Seq<char>, p: spec_fn(char) -> bool, i: int)
    requires
        0 <= i < s.len(),
        !p(s[i]),
    ensures
        trim_end_by(s, p).len() > i,
    decreases s.len(),
{
    if p(s.last()) {
        lemma_trim_end_keeps(s.drop_last(), p, i);
    }
}

/// A text with a character that is not whitespace is not blank.
pub proof fn lemma_not_blank(s: Seq<char>, i: int)
    requires
        0 <= i < s.len(),
        !is_ws(s[i]),
    ensures
        trim(s).len() > 0,
{
    lemma_trim_start_keeps(s, ws_pred(), i);
    let t = trim_start_by(s, ws_pred());
    let j = i - (s.len() - t.len());
    assert(t[j] == s[i]);
    lemma_trim_end_keeps(t, ws_pred(), j);
}

/// A query with an ORDER BY clause put in is not blank.
pub proof fn lemma_sorted_query_not_blank(sql: Seq<char>, column: Seq<char>, d: SortDirection)
    ensures
        trim(order_by_spec(sql, column, Some(d))).len() > 0,
{
    reveal_strlit(" ORDER BY ");
    let core = sql_core(sql);
    let parts = split_limit_spec(core);
    let base = trim(strip_order_by_spec(parts.0));
    let o = order_by_spec(sql, column, Some(d));
    assert(o[base.len() + 1int] == 'O');
    lemma_not_blank(o, base.len() + 1int);
}

/// Law: three sort toggles on a query of SQL mode with no sort, and no reload between
/// them, sort its cursor's column ascending, then descending, then not at all; the
/// headers stay, and each toggle goes back to the first page.
pub proof fn law_sort_three_toggles<E>(
    a: App<E>,
    b: App<E>,
    c: App<E>,
    d: App<E>,
    r1: SortToggle,
    r2: SortToggle,
    r3: SortToggle,
)
    requires
        App::<E>::sort_toggled(a, b, r1),
        App::<E>::sort_toggled(b, c, r2),
        App::<E>::sort_toggled(c, d, r3),
        !a.table_mode(),
        a.headers@.len() > 0,
        a.sort is None,
    ensures
        ({
            let idx = min_int(
                if a.cursor_visible {
                    a.cursor_col as int
                } else {
                    a.col_scroll as int
                },
                a.headers@.len() - 1,
            );
            let name = a.headers@[idx]@;
            &&& b.sort matches Some(s) && s.column_index == idx && s.column_name@ == name
                && s.direction == SortDirection::Asc
            &&& c.sort matches Some(s) && s.column_index == idx && s.column_name@ == name
                && s.direction == SortDirection::Desc
            &&& d.sort is None
        }),
        b.headers == a.headers,
        c.headers == a.headers,
        d.headers == a.headers,
        b.offset == 0 && b.row_scroll == 0 && b.cursor_row == 0,
        c.offset == 0 && c.row_scroll == 0 && c.cursor_row == 0,
        d.offset == 0 && d.row_scroll == 0 && d.cursor_row == 0,
{
    let idx = min_int(
        if a.cursor_visible {
            a.cursor_col as int
        } else {
            a.col_scroll as int
        },
        a.headers@.len() - 1,
    );
    let name = a.headers@[idx]@;
    assert(next_direction(a.sort, idx as usize, name) == Some(SortDirection::Asc));
    lemma_sorted_query_not_blank(a.sql_query@, name, SortDirection::Asc);
    assert(!b.table_mode());
    assert(next_direction(b.sort, idx as usize, name) == Some(SortDirection::Desc));
    lemma_sorted_query_not_blank(b.sql_query@, name, SortDirection::Desc);
    assert(!c.table_mode());
    assert(next_direction(c.sort, idx as usize, name) is None);
}

/// A sort is stale when its column is no longer there under the same name.
pub open spec fn sort_is_stale(sort: SortSpec, names: Seq<String>) -> bool {
    sort.column_index >= names.len() || names[sort.column_index as int]@ != sort.column_name@
}

/// The sort once a stale one is dropped.
pub open spec fn fresh_sort(sort: Option<SortSpec>, names: Seq<String>) -> Option<SortSpec> {
    match sort {
        Some(s) => if sort_is_stale(s, names) {
            None
        } else {
            sort
        },
        None => None,
    }
}

/// Drops a sort whose column is no longer there under the same name.
pub fn invalidate_sort_if_stale(sort: &mut Option<SortSpec>, col_names: &[String])
    ensures
        *final(sort) == fresh_sort(*old(sort), col_names@),
{
    let stale = match sort {
        Some(s) => s.column_index >= col_names.len() || col_names[s.column_index]
            != s.column_name,
        None => false,
    };
    if stale {
        *sort = None;
    }
}

/// The query that SQL mode starts from: the current one, or the default when it is blank.
pub fn current_sql(sql: &str) -> (r: &str)
    ensures
        r@ == if trim(sql@).len() == 0 {
            DEFAULT_SQL@
        } else {
            sql@
        },
{
    if is_blank(sql) {
        DEFAULT_SQL
    } else {
        sql
    }
}

/// Where a text is cut by the last occurrence of a keyword, found in its ASCII upper case.
pub open spec fn cut_at_last(sql: Seq<char>, keyword: Seq<char>) -> int {
    match last_occurrence(ascii_upper(sql), keyword) {
        Some(i) => i,
        None => sql.len() as int,
    }
}

/// What `split_limit_clause` gives back: the text before its last ` LIMIT ` and the rest.
pub open spec fn split_limit_spec(sql: Seq<char>) -> (Seq<char>, Seq<char>) {
    let i = cut_at_last(sql, " LIMIT "@);
    (sql.subrange(0, i), sql.subrange(i, sql.len() as int))
}

/// What `strip_order_by_clause` gives back: the text before its last ` ORDER BY `.
pub open spec fn strip_order_by_spec(sql: Seq<char>) -> Seq<char> {
    sql.subrange(0, cut_at_last(sql, " ORDER BY "@))
}

/// The position of the last occurrence of a keyword in the upper case of `v`, or its length.
fn cut_index(v: &Vec<char>, keyword: &str) -> (i: usize)
    ensures
        i as int == cut_at_last(v@, keyword@),
        i <= v@.len(),
{
    let u = upper_vec(v);
    let k = chars_of(keyword);
    match last_occurrence_idx(&u, &k) {
        Some(i) => i,
        None => v.len(),
    }
}

/// Splits an SQL text before its last LIMIT clause (keyword found in any ASCII case).
pub fn split_limit_clause(sql: &str) -> (r: (String, String))
    ensures
        r.0@ == split_limit_spec(sql@).0,
        r.1@ == split_limit_spec(sql@).1,
{
    let v = chars_of(sql);
    let i = cut_index(&v, " LIMIT ");
    (text_of_range(&v, 0, i), text_of_range(&v, i, v.len()))
}

/// An SQL text cut before its last ORDER BY clause (keyword found in any ASCII case).
pub fn strip_order_by_clause(sql: &str) -> (r: String)
    ensures
        r@ == strip_order_by_spec(sql@),
{
    let v = chars_of(sql);
    let i = cut_index(&v, " ORDER BY ");
    text_of_range(&v, 0, i)
}

/// What `apply_order_by_to_sql` gives back.
pub open spec fn order_by_spec(sql: Seq<char>, column: Seq<char>, direction: Option<
    SortDirection,
>) -> Seq<char> {
    let core = sql_core(sql);
    let parts = split_limit_spec(core);
    let base = trim(strip_order_by_spec(parts.0));
    match direction {
        Some(d) => base + " ORDER BY "@ + column_safe_spec(column) + " "@ + direction_sql(d)
            + parts.1,
        None => base + parts.1,
    }
}

/// Rewrites a query so that it is ordered by a column (or not ordered, for `None`): any
/// last ORDER BY clause is replaced and a last LIMIT clause is kept at the end.
pub fn apply_order_by_to_sql(sql: &str, column_name: &str, direction: Option<SortDirection>) -> (r:
    String)
    ensures
        r@ == order_by_spec(sql@, column_name@, direction),
{
    let v = chars_of(sql);
    let (a, b) = trim_idx(&v, 0, v.len());
    assert(v@.subrange(0, v@.len() as int) =~= v@);
    let c = trim_end_char_idx(&v, a, b, ';');
    let (a2, b2) = trim_idx(&v, a, c);
    let core = text_of_range(&v, a2, b2);
    let (base, tail) = split_limit_clause(core.as_str());
    let stripped = strip_order_by_clause(base.as_str());
    let base = trim_str(stripped.as_str());
    let mut out = base;
    match direction {
        Some(d) => {
            out.append(" ORDER BY ");
            let col = make_column_safe(column_name);
            out.append(col.as_str());
            out.append(" ");
            let dir = direction_keyword(d);
            out.append(dir.as_str());
            out.append(tail.as_str());
        },
        None => {
            out.append(tail.as_str());
        },
    }
    out
}


/// `x + d`, saturating at the bounds of `usize`.
fn add_signed_saturating(x: usize, d: isize) -> (r: usize)
    ensures
        r == add_signed_sat(x as int, d as int),
{
    if d >= 0 {
        let u = d as usize;
        if x > usize::MAX - u {
            usize::MAX
        } else {
            x + u
        }
    } else {
        let u: usize = ((-(d + 1)) as usize) + 1;
        if x < u {
            0
        } else {
            x - u
        }
    }
}

/// Appends the decimal text of an integer to a string.
pub fn append_int_text(s: &mut String, i: i128)
    ensures
        final(s)@ == old(s)@ + int_text(i as int),
{
    let mut v: Vec<char> = Vec::new();
    push_int_text(&mut v, i);
    assert(v@ =~= int_text(i as int));
    let t = text_from(v.as_slice());
    s.append(t.as_str());
}

} // verus!
