//! Layout of the data table: which rows and columns fit, and how wide each column is.
use crate::app::{App, TableDensity};
use crate::engine::SortDirection;
use crate::text::{is_blank, trim};
use vstd::prelude::*;
use vstd::string::StrSliceExecFns;

verus! {

/// Rows looked at to size a column.
pub const WIDTH_SAMPLE_ROWS: usize = 50;

/// The column of the whole selection that a column of the loaded window stands for.
pub open spec fn global_col(app: App<impl Sized>, local: usize) -> int {
    if trim(app.sql_query@).len() == 0 {
        sat_add(app.visible_col_start as int, local as int)
    } else {
        local as int
    }
}

/// `a + b`, saturating at `usize::MAX`.
pub open spec fn sat_add(a: int, b: int) -> int {
    if a + b > usize::MAX {
        usize::MAX as int
    } else {
        a + b
    }
}

/// `a - b`, saturating at 0.
pub open spec fn sat_sub(a: int, b: int) -> int {
    if a - b < 0 {
        0
    } else {
        a - b
    }
}

pub open spec fn min(a: int, b: int) -> int {
    if a < b {
        a
    } else {
        b
    }
}

pub open spec fn max(a: int, b: int) -> int {
    if a > b {
        a
    } else {
        b
    }
}

pub fn global_col_index<E>(app: &App<E>, local: usize) -> (g: usize)
    ensures
        g == global_col(*app, local),
{
    if is_blank(app.sql_query.as_str()) {
        if app.visible_col_start > usize::MAX - local {
            usize::MAX
        } else {
            app.visible_col_start + local
        }
    } else {
        local
    }
}

/// A position of the whole selection made local to the loaded window, kept on its headers.
pub open spec fn local_of(app: App<impl Sized>, pos: usize) -> int {
    min(
        if trim(app.sql_query@).len() == 0 {
            sat_sub(pos as int, app.visible_col_start as int)
        } else {
            pos as int
        },
        sat_sub(app.headers@.len() as int, 1),
    )
}

fn local_position<E>(app: &App<E>, pos: usize) -> (r: usize)
    ensures
        r == local_of(*app, pos),
{
    let p = if is_blank(app.sql_query.as_str()) {
        if pos > app.visible_col_start {
            pos - app.visible_col_start
        } else {
            0
        }
    } else {
        pos
    };
    let last = if app.headers.len() > 0 {
        app.headers.len() - 1
    } else {
        0
    };
    if p < last {
        p
    } else {
        last
    }
}

/// The cursor's column within the loaded headers.
pub fn local_cursor_col<E>(app: &App<E>) -> (r: usize)
    ensures
        r == local_of(*app, app.cursor_col),
{
    local_position(app, app.cursor_col)
}

/// The column scroll within the loaded headers.
pub fn local_col_scroll<E>(app: &App<E>) -> (r: usize)
    ensures
        r == local_of(*app, app.col_scroll),
{
    local_position(app, app.col_scroll)
}

/// The label of a header: its name, with an arrow when the view is sorted by it.
pub open spec fn header_label_spec(app: App<impl Sized>, index: usize) -> Seq<char> {
    let name = if index < app.headers@.len() {
        app.headers@[index as int]@
    } else {
        Seq::<char>::empty()
    };
    match app.sort {
        Some(s) => if s.column_index as int == global_col(app, index) {
            match s.direction {
                SortDirection::Asc => name + seq![' ', '\u{2191}'],
                SortDirection::Desc => name + seq![' ', '\u{2193}'],
            }
        } else {
            name
        },
        None => name,
    }
}

pub fn header_label<E>(app: &App<E>, index: usize) -> (s: String)
    ensures
        s@ == header_label_spec(*app, index),
{
    let mut v: Vec<char> = if index < app.headers.len() {
        crate::text::chars_of(app.headers[index].as_str())
    } else {
        Vec::new()
    };
    match &app.sort {
        Some(s) => {
            if s.column_index == global_col_index(app, index) {
                v.push(' ');
                match s.direction {
                    SortDirection::Asc => v.push('\u{2191}'),
                    SortDirection::Desc => v.push('\u{2193}'),
                }
            }
        },
        None => {},
    }
    crate::text::text_from(v.as_slice())
}

/// Length of the text of a cell, or 0 when the row has no such cell.
pub open spec fn cell_len(row: Seq<String>, index: usize) -> int {
    if index < row.len() {
        row[index as int]@.len() as int
    } else {
        0
    }
}

/// The longest cell of a column among the first `n` rows.
pub open spec fn longest_cell(rows: Seq<Vec<String>>, index: usize, n: int) -> int
    decreases n,
{
    if n <= 0 {
        0
    } else {
        max(longest_cell(rows, index, n - 1), cell_len(rows[n - 1]@, index))
    }
}

/// The width that a column's content asks for: its header or its longest cell among the
/// first rows, between 4 and 40 characters, plus one for the gap.
pub open spec fn content_width(app: App<impl Sized>, index: usize) -> int {
    let w = max(
        header_label_spec(app, index).len() as int,
        longest_cell(app.rows@, index, min(app.rows@.len() as int, WIDTH_SAMPLE_ROWS as int)),
    );
    (if w < 4 {
        4
    } else if w > 40 {
        40
    } else {
        w
    }) + 1
}

pub fn column_content_width<E>(app: &App<E>, index: usize) -> (w: usize)
    ensures
        w == content_width(*app, index),
        5 <= w <= 41,
{
    let header_len = header_label(app, index).as_str().unicode_len();
    let n = if app.rows.len() < WIDTH_SAMPLE_ROWS {
        app.rows.len()
    } else {
        WIDTH_SAMPLE_ROWS
    };
    let mut longest: usize = 0;
    let mut i: usize = 0;
    while i < n
        invariant
            i <= n <= app.rows@.len(),
            longest == longest_cell(app.rows@, index, i as int),
        decreases n - i,
    {
        let row = &app.rows[i];
        let len = if index < row.len() {
            row[index].as_str().unicode_len()
        } else {
            0
        };
        if len > longest {
            longest = len;
        }
        i = i + 1;
    }
    let w = if header_len > longest {
        header_len
    } else {
        longest
    };
    let c = if w < 4 {
        4
    } else if w > 40 {
        40
    } else {
        w
    };
    c + 1
}

/// The sum of a sequence of widths.
pub open spec fn sum(s: Seq<usize>) -> int
    decreases s.len(),
{
    if s.len() == 0 {
        0
    } else {
        sum(s.drop_last()) + s.last()
    }
}

/// The widths that the columns' contents ask for.
pub open spec fn base_widths(app: App<impl Sized>, col_start: usize, col_end: usize) -> Seq<int> {
    Seq::new((col_end - col_start) as nat, |i: int| content_width(app, (col_start + i) as usize))
}

/// The width of each column from `col_start` to `col_end`: what its content asks for and,
/// in fill mode, an equal share of the width left over, the first columns taking one more
/// each until the remainder is spent.
pub open spec fn widths_spec(
    app: App<impl Sized>,
    col_start: usize,
    col_end: usize,
    available: usize,
    total: int,
) -> Seq<int> {
    let base = base_widths(app, col_start, col_end);
    let n = base.len() as int;
    if app.table_density == TableDensity::Fill && n > 0 {
        let extra = sat_sub(available as int, total);
        Seq::new(
            n as nat,
            |i: int| base[i] + extra / n + if i < extra % n {
                1int
            } else {
                0int
            },
        )
    } else {
        base
    }
}

pub proof fn lemma_sum_push(s: Seq<usize>, x: usize)
    ensures
        sum(s.push(x)) == sum(s) + x,
{
    assert(s.push(x).drop_last() =~= s);
}

/// Each width is at most the sum of all of them.
pub proof fn lemma_sum_bounds_each(s: Seq<usize>, j: int)
    requires
        0 <= j < s.len(),
    ensures
        s[j] <= sum(s),
        sum(s) >= 0,
    decreases s.len(),
{
    lemma_sum_nonneg(s.drop_last());
    if j < s.len() - 1 {
        lemma_sum_bounds_each(s.drop_last(), j);
    }
}

/// A sum of widths is not negative.
pub proof fn lemma_sum_nonneg(s: Seq<usize>)
    ensures
        sum(s) >= 0,
    decreases s.len(),
{
    if s.len() > 0 {
        lemma_sum_nonneg(s.drop_last());
    }
}

/// The widths of the columns from `col_start` to `col_end`.
pub fn compute_widths<E>(app: &App<E>, col_start: usize, col_end: usize, available_width: usize) -> (r:
    Vec<usize>)
    requires
        col_start <= col_end,
    ensures
        r@.len() == col_end - col_start,
        forall|i: int|
            0 <= i < r@.len() ==> r@[i] == widths_spec(
                *app,
                col_start,
                col_end,
                available_width,
                sum(
                    Seq::new(
                        (col_end - col_start) as nat,
                        |j: int| content_width(*app, (col_start + j) as usize) as usize,
                    ),
                ),
            )[i],
{
    let ghost base = Seq::new(
        (col_end - col_start) as nat,
        |j: int| content_width(*app, (col_start + j) as usize) as usize,
    );
    let mut widths: Vec<usize> = Vec::new();
    let mut total: usize = 0;
    let mut i = col_start;
    while i < col_end
        invariant
            col_start <= i <= col_end,
            base == Seq::new(
                (col_end - col_start) as nat,
                |j: int| content_width(*app, (col_start + j) as usize) as usize,
            ),
            widths@ == base.subrange(0, i - col_start),
            total == (if sum(widths@) > usize::MAX { usize::MAX as int } else { sum(widths@) }),
        decreases col_end - i,
    {
        let w = column_content_width(app, i);
        proof {
            lemma_sum_push(widths@, w);
            lemma_sum_nonneg(widths@);
        }
        widths.push(w);
        total = if total > usize::MAX - w {
            usize::MAX
        } else {
            total + w
        };
        i = i + 1;
        assert(widths@ =~= base.subrange(0, i - col_start));
    }
    assert(widths@ =~= base);
    let n = widths.len();
    if app.table_density == TableDensity::Fill && n > 0 {
        let extra = if available_width > total {
            available_width - total
        } else {
            0
        };
        let per_col = extra / n;
        let mut remainder = extra % n;
        let mut k: usize = 0;
        let ghost spread = widths@;
        assert forall|j: int| 0 <= j < n implies spread[j] <= sum(spread) by {
            lemma_sum_bounds_each(spread, j);
        }
        while k < n
            invariant
                n == widths@.len(),
                n == spread.len(),
                k <= n,
                extra > 0 ==> sum(spread) + extra == available_width,
                per_col == extra / n,
                extra % n < n,
                remainder == if k < extra % n {
                    extra % n - k
                } else {
                    0
                },
                forall|j: int| 0 <= j < n ==> spread[j] <= sum(spread),
                forall|j: int|
                    0 <= j < k ==> widths@[j] == spread[j] + per_col + if j < extra % n {
                        1int
                    } else {
                        0int
                    },
                forall|j: int| k <= j < n ==> widths@[j] == spread[j],
            decreases n - k,
        {
            proof {
                assert(per_col <= extra) by (nonlinear_arith)
                    requires
                        per_col == extra / n,
                        n > 0,
                ;
                assert(extra % n > 0 ==> per_col + 1 <= extra) by (nonlinear_arith)
                    requires
                        per_col == extra / n,
                        n > 0,
                ;
                assert(widths@[k as int] == spread[k as int]);
                assert(spread[k as int] <= sum(spread));
            }
            let mut w = widths[k] + per_col;
            if remainder > 0 {
                w = w + 1;
                remainder = remainder - 1;
            }
            widths.set(k, w);
            k = k + 1;
        }
    }
    widths
}

/// How many columns, from `col_start`, fit in the available width (at least one).
pub open spec fn fit_end(app: App<impl Sized>, col_start: int, available: int, used: int, end: int) -> int
    decreases app.headers@.len() - end,
{
    if end < col_start || end >= app.headers@.len() {
        if end < col_start { col_start } else { end }
    } else {
        let w = content_width(app, end as usize);
        if used + w > available && end > col_start {
            end
        } else {
            fit_end(app, col_start, available, used + w, end + 1)
        }
    }
}

/// Where the columns that fit from `col_start` end.
pub fn visible_col_end<E>(app: &App<E>, col_start: usize, available_width: usize) -> (r: usize)
    ensures
        r == fit_end(*app, col_start as int, available_width as int, 0, col_start as int),
{
    let total = app.headers.len();
    let mut width_used: usize = 0;
    let mut col_end = col_start;
    while col_end < total
        invariant
            col_start <= col_end,
            total == app.headers@.len(),
            width_used <= available_width || col_end == col_start + 1,
            col_end == col_start ==> width_used == 0,
            fit_end(*app, col_start as int, available_width as int, 0, col_start as int) == fit_end(
                *app,
                col_start as int,
                available_width as int,
                width_used as int,
                col_end as int,
            ),
        decreases total - col_end,
    {
        let w = column_content_width(app, col_end);
        let over = width_used > available_width || w > available_width - width_used;
        if over && col_end > col_start {
            return col_end;
        }
        width_used = width_used + w;
        col_end = col_end + 1;
    }
    col_end
}

/// The first row on screen: the row scroll, moved so that the shown cursor's row is on
/// screen, and kept so that the screen is as full as the rows allow.
pub open spec fn row_start_spec(app: App<impl Sized>, height: u16) -> int {
    let visible = sat_sub(height as int, 3);
    let len = app.rows@.len() as int;
    if !app.cursor_visible || visible == 0 {
        min(app.row_scroll as int, sat_sub(len, 1))
    } else {
        let max_start = sat_sub(len, visible);
        let current = min(app.row_scroll as int, max_start);
        min(
            if (app.cursor_row as int) < current {
                app.cursor_row as int
            } else if app.cursor_row as int >= sat_add(current, visible) {
                sat_sub(app.cursor_row as int, sat_sub(visible, 1))
            } else {
                current
            },
            max_start,
        )
    }
}

/// The first row on screen for a table area of the given height.
pub fn compute_row_start<E>(app: &App<E>, height: u16) -> (r: usize)
    ensures
        r == row_start_spec(*app, height),
{
    let visible: usize = if height > 3 {
        (height - 3) as usize
    } else {
        0
    };
    let len = app.rows.len();
    if !app.cursor_visible || visible == 0 {
        let last = if len > 0 {
            len - 1
        } else {
            0
        };
        return if app.row_scroll < last {
            app.row_scroll
        } else {
            last
        };
    }
    let max_start = if len > visible {
        len - visible
    } else {
        0
    };
    let current = if app.row_scroll < max_start {
        app.row_scroll
    } else {
        max_start
    };
    let start = if app.cursor_row < current {
        app.cursor_row
    } else if app.cursor_row >= current + visible {
        app.cursor_row - (visible - 1)
    } else {
        current
    };
    if start < max_start {
        start
    } else {
        max_start
    }
}

/// Law: with the cursor shown on a table area taller than its borders, the cursor's row
/// is on screen whenever it is one of the loaded rows.
pub proof fn law_cursor_row_on_screen(app: App<impl Sized>, height: u16)
    requires
        app.cursor_visible,
        height > 3,
        app.cursor_row < app.rows@.len(),
    ensures
        row_start_spec(app, height) <= app.cursor_row < row_start_spec(app, height) + (height - 3),
{
}

/// Law: with the cursor hidden (or no room for a row), the first row shown is the row
/// scroll, kept on the last row (0 without rows); with the cursor shown and already on
/// screen at the row scroll, which leaves no empty row below, the table does not move.
pub proof fn law_row_start_follows_scroll(app: App<impl Sized>, height: u16)
    ensures
        !app.cursor_visible || height <= 3 ==> row_start_spec(app, height) == if app.rows@.len()
            == 0 {
            0
        } else if app.row_scroll < app.rows@.len() {
            app.row_scroll as int
        } else {
            app.rows@.len() - 1
        },
        app.cursor_visible && height > 3 && app.row_scroll <= app.cursor_row && app.cursor_row
            < app.row_scroll + (height - 3) && app.row_scroll + (height - 3) <= app.rows@.len()
            ==> row_start_spec(app, height) == app.row_scroll,
{
    let visible = sat_sub(height as int, 3);
    let len = app.rows@.len() as int;
    if app.cursor_visible && height > 3 && app.row_scroll <= app.cursor_row && app.cursor_row
        < app.row_scroll + (height - 3) && app.row_scroll + (height - 3) <= len {
        assert(visible == height - 3);
        assert(app.rows@.len() == app.rows.len());
        assert(sat_sub(len, visible) == len - visible);
        assert(min(app.row_scroll as int, sat_sub(len, visible)) == app.row_scroll);
        assert(sat_add(app.row_scroll as int, visible) == app.row_scroll + visible);
    }
}

/// Law: in fill mode the columns' widths add up to the whole available width whenever
/// their contents fit in it.
pub proof fn law_fill_spends_available_width(base: Seq<int>, available: int)
    requires
        base.len() > 0,
        available >= 0,
        sum_int(base) <= available,
    ensures
        sum_int(
            Seq::new(
                base.len(),
                |i: int| base[i] + (available - sum_int(base)) / (base.len() as int) + if i < (
                available - sum_int(base)) % (base.len() as int) {
                    1int
                } else {
                    0int
                },
            ),
        ) == available,
{
    let n = base.len() as int;
    let extra = available - sum_int(base);
    let per = extra / n;
    let rem = extra % n;
    let spread = Seq::new(
        base.len(),
        |i: int| base[i] + per + if i < rem {
            1int
        } else {
            0int
        },
    );
    lemma_sum_spread(base, per, rem, n);
    assert(base.subrange(0, n) =~= base);
    assert(0 <= rem < n);
    assert(extra == per * n + rem) by (nonlinear_arith)
        requires
            n > 0,
            per == extra / n,
            rem == extra % n,
    ;
    assert(spread =~= Seq::new(
        base.len(),
        |i: int| base[i] + (available - sum_int(base)) / (base.len() as int) + if i < (available
            - sum_int(base)) % (base.len() as int) {
            1int
        } else {
            0int
        },
    ));
}

/// The sum of a sequence of integers.
pub open spec fn sum_int(s: Seq<int>) -> int
    decreases s.len(),
{
    if s.len() == 0 {
        0
    } else {
        sum_int(s.drop_last()) + s.last()
    }
}

proof fn lemma_sum_spread(base: Seq<int>, per: int, rem: int, k: int)
    requires
        0 <= k <= base.len(),
        0 <= rem,
    ensures
        sum_int(
            Seq::new(
                k as nat,
                |i: int| base[i] + per + if i < rem {
                    1int
                } else {
                    0int
                },
            ),
        ) == sum_int(base.subrange(0, k)) + per * k + min(k, rem),
    decreases k,
{
    let f = |i: int| base[i] + per + if i < rem {
        1int
    } else {
        0int
    };
    if k == 0 {
        assert(Seq::new(0, f) =~= Seq::<int>::empty());
        assert(base.subrange(0, 0) =~= Seq::<int>::empty());
    } else {
        lemma_sum_spread(base, per, rem, k - 1);
        let s = Seq::new(k as nat, f);
        assert(s.drop_last() =~= Seq::new((k - 1) as nat, f));
        assert(s.last() == f(k - 1));
        assert(sum_int(s) == sum_int(Seq::new((k - 1) as nat, f)) + f(k - 1));
        assert(base.subrange(0, k).drop_last() =~= base.subrange(0, k - 1));
        assert(base.subrange(0, k).last() == base[k - 1]);
        assert(sum_int(base.subrange(0, k)) == sum_int(base.subrange(0, k - 1)) + base[k - 1]);
        assert(per * k == per * (k - 1) + per) by (nonlinear_arith);
        assert(min(k, rem) == min(k - 1, rem) + if k - 1 < rem {
            1int
        } else {
            0int
        });
    }
}

/// Where the window of shown columns starts once it has moved left from `s` as far as it
/// can while still reaching column `lc`.
pub open spec fn walk_left(app: App<impl Sized>, s: int, lc: int, available: int) -> int
    decreases s,
{
    if s <= 0 {
        s
    } else if fit_end(app, s - 1, available, 0, s - 1) <= lc {
        s
    } else {
        walk_left(app, s - 1, lc, available)
    }
}

/// The loaded columns shown on screen, `(start, end)`: from the column scroll, moved so
/// that the shown cursor's column is on screen, and at least one column when there is one.
pub open spec fn visible_cols_spec(app: App<impl Sized>, available: int) -> (int, int) {
    let total = app.headers@.len() as int;
    if total == 0 {
        (0, 0)
    } else {
        let start0 = local_of(app, app.col_scroll);
        let end0 = fit_end(app, start0, available, 0, start0);
        let (start, end) = if app.cursor_visible {
            let lc = local_of(app, app.cursor_col);
            if lc < start0 {
                (lc, fit_end(app, lc, available, 0, lc))
            } else if lc >= end0 {
                let s = walk_left(app, lc, lc, available);
                (s, fit_end(app, s, available, 0, s))
            } else {
                (start0, end0)
            }
        } else {
            (start0, end0)
        };
        if end == start {
            (start, min(start + 1, total))
        } else {
            (start, end)
        }
    }
}

/// The columns that fit from `col_start` end past it (when there is a column there) and
/// not past the last header.
pub proof fn lemma_fit_end_bounds(
    app: App<impl Sized>,
    col_start: int,
    available: int,
    used: int,
    end: int,
)
    requires
        0 <= col_start <= end <= app.headers@.len(),
    ensures
        end <= fit_end(app, col_start, available, used, end) <= app.headers@.len(),
        end == col_start && col_start < app.headers@.len() ==> col_start < fit_end(
            app,
            col_start,
            available,
            used,
            end,
        ),
    decreases app.headers@.len() - end,
{
    if end < app.headers@.len() {
        let w = content_width(app, end as usize);
        if !(used + w > available && end > col_start) {
            lemma_fit_end_bounds(app, col_start, available, used + w, end + 1);
        }
    }
}

/// Walking the window left keeps it reaching column `lc`.
pub proof fn lemma_walk_left_reaches(app: App<impl Sized>, s: int, lc: int, available: int)
    requires
        0 <= s <= lc < app.headers@.len(),
        lc < fit_end(app, s, available, 0, s),
    ensures
        0 <= walk_left(app, s, lc, available) <= s,
        lc < fit_end(app, walk_left(app, s, lc, available), available, 0, walk_left(
            app,
            s,
            lc,
            available,
        )),
    decreases s,
{
    if s > 0 && fit_end(app, s - 1, available, 0, s - 1) > lc {
        lemma_walk_left_reaches(app, s - 1, lc, available);
    }
}

/// The sum of the content widths of columns `s` to `e - 1`.
pub open spec fn widths_sum(app: App<impl Sized>, s: int, e: int) -> int
    decreases e - s,
{
    if e <= s {
        0
    } else {
        widths_sum(app, s, e - 1) + content_width(app, (e - 1) as usize)
    }
}

/// The columns that fit from `col_start` take no more than the available width, unless
/// they are a single column.
pub proof fn lemma_fit_end_fits(
    app: App<impl Sized>,
    col_start: int,
    available: int,
    used: int,
    end: int,
)
    requires
        0 <= col_start <= end,
        available >= 0,
        used == widths_sum(app, col_start, end),
        used <= available || end <= col_start + 1,
    ensures
        ({
            let r = fit_end(app, col_start, available, used, end);
            widths_sum(app, col_start, r) <= available || r <= col_start + 1
        }),
    decreases app.headers@.len() - end,
{
    if end < app.headers@.len() {
        let w = content_width(app, end as usize);
        if !(used + w > available && end > col_start) {
            assert(widths_sum(app, col_start, end + 1) == used + w);
            lemma_fit_end_fits(app, col_start, available, used + w, end + 1);
        }
    }
}

/// Law: the shown columns are a non-empty range of the loaded headers when there are
/// any, take no more than the available width unless a single column is shown, and hold
/// the cursor's column when the cursor is shown.
pub proof fn law_visible_cols_hold_cursor(app: App<impl Sized>, available: int)
    requires
        available >= 0,
    ensures
        widths_sum(app, visible_cols_spec(app, available).0, visible_cols_spec(app, available).1)
            <= available || visible_cols_spec(app, available).1 <= visible_cols_spec(
            app,
            available,
        ).0 + 1,
        0 <= visible_cols_spec(app, available).0 <= visible_cols_spec(app, available).1
            <= app.headers@.len(),
        app.headers@.len() > 0 ==> visible_cols_spec(app, available).0 < visible_cols_spec(
            app,
            available,
        ).1,
        app.headers@.len() > 0 && app.cursor_visible ==> visible_cols_spec(app, available).0
            <= local_of(app, app.cursor_col) < visible_cols_spec(app, available).1,
{
    let total = app.headers@.len() as int;
    if total > 0 {
        let start0 = local_of(app, app.col_scroll);
        lemma_fit_end_bounds(app, start0, available, 0, start0);
        lemma_fit_end_fits(app, start0, available, 0, start0);
        if app.cursor_visible {
            let lc = local_of(app, app.cursor_col);
            lemma_fit_end_bounds(app, lc, available, 0, lc);
            lemma_fit_end_fits(app, lc, available, 0, lc);
            let end0 = fit_end(app, start0, available, 0, start0);
            if lc >= end0 {
                lemma_walk_left_reaches(app, lc, lc, available);
                let s = walk_left(app, lc, lc, available);
                lemma_fit_end_bounds(app, s, available, 0, s);
                lemma_fit_end_fits(app, s, available, 0, s);
            }
        }
    }
}

/// The loaded columns shown on screen for the available width.
pub fn compute_visible_cols<E>(app: &App<E>, available_width: usize) -> (r: (usize, usize))
    ensures
        r.0 as int == visible_cols_spec(*app, available_width as int).0,
        r.1 as int == visible_cols_spec(*app, available_width as int).1,
        r.0 <= r.1 <= app.headers@.len(),
        app.headers@.len() > 0 ==> r.0 < r.1,
        app.headers@.len() > 0 && app.cursor_visible ==> r.0 <= local_of(*app, app.cursor_col)
            < r.1,
        widths_sum(*app, r.0 as int, r.1 as int) <= available_width || r.1 <= r.0 + 1,
{
    proof {
        law_visible_cols_hold_cursor(*app, available_width as int);
    }
    let total = app.headers.len();
    if total == 0 {
        return (0, 0);
    }
    let mut col_start = local_col_scroll(app);
    let mut col_end = visible_col_end(app, col_start, available_width);
    if app.cursor_visible {
        let lc = local_cursor_col(app);
        if lc < col_start {
            col_start = lc;
            col_end = visible_col_end(app, col_start, available_width);
        } else if lc >= col_end {
            col_start = lc;
            loop
                invariant
                    col_start <= lc,
                    walk_left(*app, lc as int, lc as int, available_width as int) == walk_left(
                        *app,
                        col_start as int,
                        lc as int,
                        available_width as int,
                    ),
                ensures
                    col_start as int == walk_left(
                        *app,
                        lc as int,
                        lc as int,
                        available_width as int,
                    ),
                decreases col_start,
            {
                if col_start == 0 {
                    break;
                }
                let prev = col_start - 1;
                let next_end = visible_col_end(app, prev, available_width);
                if next_end <= lc {
                    break;
                }
                col_start = prev;
            }
            col_end = visible_col_end(app, col_start, available_width);
        }
    }
    if col_end == col_start {
        col_end = if col_start + 1 < total {
            col_start + 1
        } else {
            total
        };
    }
    (col_start, col_end)
}

} // verus!
