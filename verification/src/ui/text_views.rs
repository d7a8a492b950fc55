//! The texts that the screens show: status line, log lines, input bars, titles and the
//! metadata listing.
use crate::app::{
    append_int_text, App, Focus, Mode, OperationKind, OperationLog, OperationOutcome,
    TableDensity, DEFAULT_SQL,
};
use crate::engine::metadata::{KvMetadata, ParquetMetadata, RowGroupInfo, SchemaNode};
use crate::engine::SortDirection;
use crate::text::{int_text, is_blank, nat_text, trim};
use vstd::prelude::*;
use vstd::string::StrSliceExecFns;

verus! {

/// The name of an operation kind, as its `Debug` writes it.
pub open spec fn kind_name(k: OperationKind) -> Seq<char> {
    match k {
        OperationKind::Open => "Open"@,
        OperationKind::Sql => "Sql"@,
        OperationKind::Clear => "Clear"@,
        OperationKind::Page => "Page"@,
        OperationKind::Scroll => "Scroll"@,
        OperationKind::FieldSelect => "FieldSelect"@,
        OperationKind::Metadata => "Metadata"@,
        OperationKind::Sort => "Sort"@,
        OperationKind::Export => "Export"@,
        OperationKind::Reload => "Reload"@,
        OperationKind::Input => "Input"@,
        OperationKind::Help => "Help"@,
        OperationKind::Quit => "Quit"@,
        OperationKind::Crosshair => "Crosshair"@,
        OperationKind::Display => "Display"@,
        OperationKind::System => "System"@,
    }
}

fn kind_text(k: OperationKind) -> (s: &'static str)
    ensures
        s@ == kind_name(k),
{
    match k {
        OperationKind::Open => "Open",
        OperationKind::Sql => "Sql",
        OperationKind::Clear => "Clear",
        OperationKind::Page => "Page",
        OperationKind::Scroll => "Scroll",
        OperationKind::FieldSelect => "FieldSelect",
        OperationKind::Metadata => "Metadata",
        OperationKind::Sort => "Sort",
        OperationKind::Export => "Export",
        OperationKind::Reload => "Reload",
        OperationKind::Input => "Input",
        OperationKind::Help => "Help",
        OperationKind::Quit => "Quit",
        OperationKind::Crosshair => "Crosshair",
        OperationKind::Display => "Display",
        OperationKind::System => "System",
    }
}

/// The name of an outcome, as its `Debug` writes it.
pub open spec fn outcome_name(o: OperationOutcome) -> Seq<char> {
    match o {
        OperationOutcome::Started => "Started"@,
        OperationOutcome::Succeeded => "Succeeded"@,
        OperationOutcome::Failed => "Failed"@,
        OperationOutcome::Cancelled => "Cancelled"@,
    }
}

fn outcome_text(o: OperationOutcome) -> (s: &'static str)
    ensures
        s@ == outcome_name(o),
{
    match o {
        OperationOutcome::Started => "Started",
        OperationOutcome::Succeeded => "Succeeded",
        OperationOutcome::Failed => "Failed",
        OperationOutcome::Cancelled => "Cancelled",
    }
}

/// Digits padded with zeros on the left to at least `width` characters.
pub open spec fn zero_pad(digits: Seq<char>, width: int) -> Seq<char> {
    if digits.len() >= width {
        digits
    } else {
        Seq::new((width - digits.len()) as nat, |i: int| '0') + digits
    }
}

/// One line of the operations screen: `#id kind outcome: summary` and ` — detail`.
pub open spec fn operation_line_spec(e: OperationLog) -> Seq<char> {
    "#"@ + zero_pad(nat_text(e.id as nat), 3) + " "@ + kind_name(e.kind) + " "@ + outcome_name(
        e.outcome,
    ) + ": "@ + e.summary@ + match e.detail {
        Some(d) => seq![' ', '\u{2014}', ' '] + d@,
        None => Seq::<char>::empty(),
    }
}

pub fn operation_line(e: &OperationLog) -> (s: String)
    ensures
        s@ == operation_line_spec(*e),
{
    let mut digits: Vec<char> = Vec::new();
    crate::text::push_nat_text(&mut digits, e.id as u128);
    assert(digits@ =~= nat_text(e.id as nat));
    let mut padded: Vec<char> = Vec::new();
    let mut k: usize = digits.len();
    while k < 3
        invariant
            digits.len() <= k <= 3 || (k == digits.len() && k >= 3),
            padded@ == Seq::new((k - digits.len()) as nat, |i: int| '0'),
        decreases 3 - k,
    {
        padded.push('0');
        k = k + 1;
        assert(padded@ =~= Seq::new((k - digits.len()) as nat, |i: int| '0'));
    }
    let mut i: usize = 0;
    let ghost zeros = padded@;
    while i < digits.len()
        invariant
            i <= digits.len(),
            padded@ == zeros + digits@.subrange(0, i as int),
        decreases digits.len() - i,
    {
        padded.push(digits[i]);
        i = i + 1;
        assert(padded@ =~= zeros + digits@.subrange(0, i as int));
    }
    proof {
        assert(digits@.subrange(0, digits@.len() as int) =~= digits@);
        if digits@.len() >= 3 {
            assert(zeros =~= Seq::<char>::empty());
            assert(padded@ =~= zero_pad(nat_text(e.id as nat), 3));
        } else {
            assert(padded@ =~= zero_pad(nat_text(e.id as nat), 3));
        }
    }
    let mut s = String::from_str("#");
    let p = crate::text::text_from(padded.as_slice());
    s.append(p.as_str());
    s.append(" ");
    s.append(kind_text(e.kind));
    s.append(" ");
    s.append(outcome_text(e.outcome));
    s.append(": ");
    s.append(e.summary.as_str());
    match &e.detail {
        Some(d) => {
            let mut v: Vec<char> = Vec::new();
            v.push(' ');
            v.push('\u{2014}');
            v.push(' ');
            let dash = crate::text::text_from(v.as_slice());
            assert(dash@ =~= seq![' ', '\u{2014}', ' ']);
            s.append(dash.as_str());
            s.append(d.as_str());
        },
        None => {},
    }
    s
}

/// The status line of the operations screen.
pub open spec fn status_summary_spec(app: App<impl Sized>) -> Seq<char> {
    "mode: "@ + (if trim(app.sql_query@).len() == 0 {
        "table"@
    } else {
        "sql"@
    }) + " | rows: "@ + int_text(app.rows@.len() as int) + " | total: "@ + int_text(
        app.record_count as int,
    ) + " | fields: "@ + int_text(app.headers@.len() as int) + " | offset: "@ + int_text(
        app.offset as int,
    ) + " | partitions: "@ + int_text(app.partition_count as int) + " | page: "@ + int_text(
        app.page_size as int,
    ) + match app.sort {
        Some(s) => " | sort: "@ + s.column_name@ + " "@ + match s.direction {
            SortDirection::Asc => "asc"@,
            SortDirection::Desc => "desc"@,
        },
        None => Seq::<char>::empty(),
    }
}

pub fn status_summary<E>(app: &App<E>) -> (s: String)
    ensures
        s@ == status_summary_spec(*app),
{
    let mut s = String::from_str("mode: ");
    if is_blank(app.sql_query.as_str()) {
        s.append("table");
    } else {
        s.append("sql");
    }
    s.append(" | rows: ");
    append_int_text(&mut s, app.rows.len() as i128);
    s.append(" | total: ");
    append_int_text(&mut s, app.record_count as i128);
    s.append(" | fields: ");
    append_int_text(&mut s, app.headers.len() as i128);
    s.append(" | offset: ");
    append_int_text(&mut s, app.offset as i128);
    s.append(" | partitions: ");
    append_int_text(&mut s, app.partition_count as i128);
    s.append(" | page: ");
    append_int_text(&mut s, app.page_size as i128);
    match &app.sort {
        Some(sort) => {
            s.append(" | sort: ");
            s.append(sort.column_name.as_str());
            s.append(" ");
            match sort.direction {
                SortDirection::Asc => s.append("asc"),
                SortDirection::Desc => s.append("desc"),
            }
        },
        None => {},
    }
    s
}

/// Which of the two input bars.
#[derive(Debug, Clone, Copy, PartialEq, Eq, Structural)]
pub enum BarKind {
    Path,
    Sql,
}

/// What an input bar shows: its text, its title, whether it has the focus, and whether
/// the text cursor stands in it.
pub struct BarView {
    pub text: String,
    pub title: String,
    pub focused: bool,
    pub cursor: bool,
}

/// The text of an input bar.
pub open spec fn bar_text(app: App<impl Sized>, kind: BarKind) -> Seq<char> {
    match kind {
        BarKind::Path => if app.mode == Mode::OpenInput {
            app.input_buffer@
        } else {
            match app.path {
                Some(p) => p@,
                None => "no file open"@,
            }
        },
        BarKind::Sql => if app.mode == Mode::SqlInput {
            app.input_buffer@
        } else if trim(app.sql_query@).len() == 0 {
            DEFAULT_SQL@
        } else {
            app.sql_query@
        },
    }
}

/// The title of an input bar.
pub open spec fn bar_title(app: App<impl Sized>, kind: BarKind) -> Seq<char> {
    match kind {
        BarKind::Path => if app.mode == Mode::OpenInput {
            "[ path \u{2014} Esc cancel, Enter open ]"@
        } else {
            "[ path Ctrl+P ]"@
        },
        BarKind::Sql => if app.mode == Mode::SqlInput {
            "[ sql \u{2014} Esc cancel, Enter submit ]"@
        } else {
            "[ sql / Ctrl+S ]"@
        },
    }
}

pub fn input_bar_view<E>(app: &App<E>, kind: BarKind) -> (v: BarView)
    ensures
        v.text@ == bar_text(*app, kind),
        v.title@ == bar_title(*app, kind),
        v.focused == match kind {
            BarKind::Path => app.focus == Focus::Path,
            BarKind::Sql => app.focus == Focus::Sql,
        },
        v.cursor == match kind {
            BarKind::Path => app.mode == Mode::OpenInput,
            BarKind::Sql => app.mode == Mode::SqlInput,
        },
{
    match kind {
        BarKind::Path => {
            let editing = app.mode == Mode::OpenInput;
            let text = if editing {
                app.input_buffer.clone()
            } else {
                match &app.path {
                    Some(p) => p.clone(),
                    None => String::from_str("no file open"),
                }
            };
            let title = if editing {
                String::from_str("[ path \u{2014} Esc cancel, Enter open ]")
            } else {
                String::from_str("[ path Ctrl+P ]")
            };
            BarView { text, title, focused: app.focus == Focus::Path, cursor: editing }
        },
        BarKind::Sql => {
            let editing = app.mode == Mode::SqlInput;
            let text = if editing {
                app.input_buffer.clone()
            } else if is_blank(app.sql_query.as_str()) {
                String::from_str(DEFAULT_SQL)
            } else {
                app.sql_query.clone()
            };
            let title = if editing {
                String::from_str("[ sql \u{2014} Esc cancel, Enter submit ]")
            } else {
                String::from_str("[ sql / Ctrl+S ]")
            };
            BarView { text, title, focused: app.focus == Focus::Sql, cursor: editing }
        },
    }
}

/// The column of the text cursor in an input bar: after the typed text, inside the border.
pub open spec fn input_cursor_x_spec(x: u16, width: u16, typed: usize) -> int {
    let right = if x + width > u16::MAX {
        u16::MAX as int
    } else {
        x + width
    };
    let limit = if right >= 2 {
        right - 2
    } else {
        0
    };
    let after = x + 1 + (typed as u16);
    let pos = if after > u16::MAX {
        u16::MAX as int
    } else {
        after
    };
    if pos < limit {
        pos
    } else {
        limit
    }
}

pub fn input_cursor_x(x: u16, width: u16, typed: usize) -> (r: u16)
    ensures
        r == input_cursor_x_spec(x, width, typed),
{
    let right: u16 = if x > u16::MAX - width {
        u16::MAX
    } else {
        x + width
    };
    let limit: u16 = if right >= 2 {
        right - 2
    } else {
        0
    };
    let n: u16 = typed as u16;
    let x1: u32 = x as u32 + 1 + n as u32;
    let pos: u16 = if x1 > u16::MAX as u32 {
        u16::MAX
    } else {
        x1 as u16
    };
    if pos < limit {
        pos
    } else {
        limit
    }
}

/// What the data panel says when there is nothing to show.
pub open spec fn empty_table_message_spec(app: App<impl Sized>) -> Seq<char> {
    if app.engine is None {
        "No file open. Press 'o' to open a parquet file or folder, or pass a path as argument."@
    } else if app.selected_fields@.len() == 0 {
        "No fields selected. Press 'f' to select fields."@
    } else {
        "No data to display."@
    }
}

pub fn empty_table_message<E>(app: &App<E>) -> (s: &'static str)
    ensures
        s@ == empty_table_message_spec(*app),
{
    if app.engine.is_none() {
        "No file open. Press 'o' to open a parquet file or folder, or pass a path as argument."
    } else if app.selected_fields.len() == 0 {
        "No fields selected. Press 'f' to select fields."
    } else {
        "No data to display."
    }
}

/// The title of the data panel: column count (at least one), density and cursor state.
pub open spec fn table_title_spec(app: App<impl Sized>) -> Seq<char> {
    let n = if app.column_total() > 1 {
        app.column_total()
    } else {
        1
    };
    "[ data \u{2014} "@ + int_text(n) + " cols \u{2014} "@ + match app.table_density {
        TableDensity::Fill => "fill d"@,
        TableDensity::Dense => "dense d"@,
    } + (if app.cursor_visible {
        " \u{2014} cursor x"@
    } else {
        Seq::<char>::empty()
    }) + " ]"@
}

pub fn table_title<E>(app: &App<E>) -> (s: String)
    ensures
        s@ == table_title_spec(*app),
{
    let total = app.total_columns();
    let n = if total > 1 {
        total
    } else {
        1
    };
    let mut s = String::from_str("[ data \u{2014} ");
    append_int_text(&mut s, n as i128);
    s.append(" cols \u{2014} ");
    match app.table_density {
        TableDensity::Fill => s.append("fill d"),
        TableDensity::Dense => s.append("dense d"),
    }
    if app.cursor_visible {
        s.append(" \u{2014} cursor x");
    }
    s.append(" ]");
    s
}

/// The line of a schema node at a depth.
pub open spec fn schema_line(n: SchemaNode, depth: nat) -> Seq<char> {
    Seq::new(2 * depth, |i: int| ' ') + (if depth == 0 {
        Seq::<char>::empty()
    } else {
        seq!['\u{251c}', '\u{2500}', ' ']
    }) + n.name@ + " ["@ + n.type_label@ + "] "@ + n.repetition_type@ + " (children: "@
        + int_text(n.num_children as int) + ")"@
}

/// The lines of a schema tree, depth first, each child one level deeper.
pub open spec fn schema_lines(n: SchemaNode, depth: nat) -> Seq<Seq<char>>
    decreases n, 1int,
{
    seq![schema_line(n, depth)] + schema_lines_all(n.children@, depth + 1)
}

pub open spec fn schema_lines_all(s: Seq<SchemaNode>, depth: nat) -> Seq<Seq<char>>
    decreases s, 0int,
{
    if s.len() == 0 {
        seq![]
    } else {
        schema_lines_all(s.drop_last(), depth) + schema_lines(s.last(), depth)
    }
}

fn schema_line_text(node: &SchemaNode, depth: usize) -> (s: String)
    ensures
        s@ == schema_line(*node, depth as nat),
{
    let mut v: Vec<char> = Vec::new();
    let mut i: usize = 0;
    while i < depth
        invariant
            i <= depth,
            v@ == Seq::new(2 * (i as nat), |k: int| ' '),
        decreases depth - i,
    {
        v.push(' ');
        v.push(' ');
        i = i + 1;
        assert(v@ =~= Seq::new(2 * (i as nat), |k: int| ' '));
    }
    if depth > 0 {
        v.push('\u{251c}');
        v.push('\u{2500}');
        v.push(' ');
    }
    let mut s = crate::text::text_from(v.as_slice());
    s.append(node.name.as_str());
    s.append(" [");
    s.append(node.type_label.as_str());
    s.append("] ");
    s.append(node.repetition_type.as_str());
    s.append(" (children: ");
    append_int_text(&mut s, node.num_children as i128);
    s.append(")");
    proof {
        let pre = Seq::new(2 * (depth as nat), |k: int| ' ') + (if depth == 0 {
            Seq::<char>::empty()
        } else {
            seq!['\u{251c}', '\u{2500}', ' ']
        });
        if depth == 0 {
            assert(v@ =~= pre);
        } else {
            assert(v@ =~= pre);
        }
    }
    s
}

/// Appends the lines of a schema tree, depth first.
pub fn render_schema(node: &SchemaNode, depth: usize, lines: &mut Vec<String>)
    requires
        depth < usize::MAX - crate::engine::metadata::height(*node),
    ensures
        views_of(final(lines)@) == views_of(old(lines)@) + schema_lines(*node, depth as nat),
    decreases *node,
{
    let line = schema_line_text(node, depth);
    let ghost start = lines@;
    lines.push(line);
    assert(views_of(lines@) =~= views_of(start) + seq![schema_line(*node, depth as nat)]);
    let mut i: usize = 0;
    while i < node.children.len()
        invariant
            i <= node.children@.len(),
            depth < usize::MAX - crate::engine::metadata::height(*node),
            views_of(lines@) == views_of(start) + seq![schema_line(*node, depth as nat)]
                + schema_lines_all(node.children@.subrange(0, i as int), (depth + 1) as nat),
        decreases node.children@.len() - i,
    {
        assert(decreases_to!(*node => node.children@[i as int]));
        proof {
            crate::engine::metadata::lemma_child_height(*node, i as int);
        }
        let ghost before = lines@;
        render_schema(&node.children[i], depth + 1, lines);
        proof {
            let pre = node.children@.subrange(0, i + 1);
            assert(pre.drop_last() =~= node.children@.subrange(0, i as int));
            assert(pre.last() == node.children@[i as int]);
        }
        i = i + 1;
    }
    assert(node.children@.subrange(0, node.children@.len() as int) =~= node.children@);
}

/// The views of a sequence of strings.
pub open spec fn views_of(v: Seq<String>) -> Seq<Seq<char>> {
    v.map_values(|s: String| s@)
}

/// How many log entries the operations screen shows in an inner area of `height` lines:
/// one line is kept for the status line.
pub open spec fn operations_shown_count(len: int, scroll: int, height: u16) -> int {
    let visible: int = if height >= 1 { height - 1 } else { 0 };
    let left: int = if len > scroll { len - scroll } else { 0 };
    if visible < left { visible } else { left }
}

/// The positions in the log of the entries that the operations screen shows, top to
/// bottom: newest first, after skipping `operation_log_scroll` entries, as many as fit in
/// an inner area of `height` lines with one line kept for the status line.
pub fn operations_shown<E>(app: &App<E>, height: u16) -> (r: Vec<usize>)
    ensures
        r@.len() == operations_shown_count(
            app.operation_log@.len() as int,
            app.operation_log_scroll as int,
            height,
        ),
        forall|k: int|
            0 <= k < r@.len() ==> #[trigger] r@[k] == app.operation_log@.len() - 1
                - app.operation_log_scroll - k,
{
    let len = app.operation_log.len();
    let visible: usize = if height >= 1 {
        (height - 1) as usize
    } else {
        0
    };
    let mut r: Vec<usize> = Vec::new();
    if app.operation_log_scroll >= len {
        return r;
    }
    let left = len - app.operation_log_scroll;
    let n = if visible < left {
        visible
    } else {
        left
    };
    let mut k: usize = 0;
    while k < n
        invariant
            k <= n <= left,
            left == len - app.operation_log_scroll,
            len == app.operation_log@.len(),
            r@.len() == k,
            forall|j: int|
                0 <= j < k ==> #[trigger] r@[j] == len - 1 - app.operation_log_scroll - j,
        decreases n - k,
    {
        r.push(left - 1 - k);
        k = k + 1;
    }
    r
}

} // verus!
