//! Query building and result types of the DuckDB-backed parquet engine.
pub mod format;
pub mod metadata;
pub mod sql_utils;

pub use sql_utils::{escape_sql_string, make_column_safe};

use crate::engine::sql_utils::{column_safe_spec, escape_sql_spec};
use crate::text::{
    ascii_upper, char_pred, chars_of, eq_ignore_ascii_case, int_text, last_occurrence,
    last_occurrence_idx, nat_string, nat_text, occurs_at, push_int_text, starts_with,
    starts_with_ignore_case_idx, text_from, text_of_range, trim, trim_end_by, trim_end_char_idx,
    trim_idx, upper_vec,
};
use vstd::prelude::*;

verus! {

/// Name of the temporary view that stands for the opened parquet data.
pub const SOURCE_VIEW_NAME: &'static str = "pv_data";

/// A single field/column in the parquet file.
#[derive(Debug, Clone)]
pub struct Field {
    pub name: String,
}

/// Headers and string-formatted rows of a query.
#[derive(Debug, Clone)]
pub struct QueryResult {
    pub headers: Vec<String>,
    pub rows: Vec<Vec<String>>,
}

#[derive(Debug, Clone, Copy, PartialEq, Eq, Structural)]
pub enum SortDirection {
    Asc,
    Desc,
}

#[derive(Debug, Clone, PartialEq, Eq)]
pub struct SortSpec {
    pub column_index: usize,
    pub column_name: String,
    pub direction: SortDirection,
}

impl SortSpec {
    /// A copy of this sort.
    pub fn duplicate(&self) -> (r: SortSpec)
        ensures
            r.column_index == self.column_index,
            r.column_name@ == self.column_name@,
            r.direction == self.direction,
    {
        SortSpec {
            column_index: self.column_index,
            column_name: self.column_name.clone(),
            direction: self.direction,
        }
    }
}

/// Whether two sorts name the same column, by index and name, in the same direction.
pub open spec fn same_sort(a: SortSpec, b: SortSpec) -> bool {
    a.column_index == b.column_index && a.column_name@ == b.column_name@ && a.direction
        == b.direction
}

/// Copies of a sequence of strings.
pub fn copy_strings(v: &[String]) -> (r: Vec<String>)
    ensures
        views(r@) == views(v@),
{
    let mut r: Vec<String> = Vec::new();
    let mut i: usize = 0;
    while i < v.len()
        invariant
            i <= v@.len(),
            r@.len() == i,
            forall|j: int| 0 <= j < i ==> #[trigger] r@[j]@ == v@[j]@,
        decreases v@.len() - i,
    {
        let c = v[i].clone();
        r.push(c);
        i = i + 1;
    }
    assert(views(r@) =~= views(v@));
    r
}

/// Errors of the engine's own rules.
#[derive(Debug, Clone, PartialEq, Eq)]
pub enum EngineError {
    /// The SQL text is empty once trimmed.
    EmptySql,
    /// The SQL text is neither a SELECT nor a WITH query.
    UnsupportedSql,
    /// A sort names a column past the end of the result.
    SortOutOfRange,
    /// The path is neither a directory nor a file.
    MissingPath { path: String },
    /// The parquet source has no columns.
    NoFields,
}

/// The text of each engine error.
pub open spec fn engine_error_text(e: EngineError) -> Seq<char> {
    match e {
        EngineError::EmptySql => "SQL query is empty"@,
        EngineError::UnsupportedSql => "Only SELECT/WITH queries are supported in SQL mode"@,
        EngineError::SortOutOfRange => "Sort column is out of range"@,
        EngineError::MissingPath { path } => "Path does not exist: "@ + path@,
        EngineError::NoFields => "No fields found in parquet file(s)"@,
    }
}

impl EngineError {
    /// The message shown to the user.
    pub fn message(&self) -> (s: String)
        ensures
            s@ == engine_error_text(*self),
    {
        match self {
            EngineError::EmptySql => String::from_str("SQL query is empty"),
            EngineError::UnsupportedSql => String::from_str(
                "Only SELECT/WITH queries are supported in SQL mode",
            ),
            EngineError::SortOutOfRange => String::from_str("Sort column is out of range"),
            EngineError::MissingPath { path } => {
                let mut s = String::from_str("Path does not exist: ");
                s.append(path.as_str());
                s
            },
            EngineError::NoFields => String::from_str("No fields found in parquet file(s)"),
        }
    }
}

/// Items joined with a separator between each two of them (`[String]::join`).
pub open spec fn join(items: Seq<Seq<char>>, sep: Seq<char>) -> Seq<char>
    decreases items.len(),
{
    if items.len() == 0 {
        seq![]
    } else if items.len() == 1 {
        items[0]
    } else {
        join(items.drop_last(), sep) + sep + items.last()
    }
}

/// The views of a sequence of strings.
pub open spec fn views(v: Seq<String>) -> Seq<Seq<char>> {
    v.map_values(|s: String| s@)
}

/// What `SortDirection` writes in SQL.
pub open spec fn direction_sql(d: SortDirection) -> Seq<char> {
    match d {
        SortDirection::Asc => "ASC"@,
        SortDirection::Desc => "DESC"@,
    }
}

pub fn direction_keyword(d: SortDirection) -> (s: String)
    ensures
        s@ == direction_sql(d),
{
    match d {
        SortDirection::Asc => String::from_str("ASC"),
        SortDirection::Desc => String::from_str("DESC"),
    }
}

/// The ORDER BY clause that a sort adds to a query (columns counted from one).
pub open spec fn sort_clause(sort: SortSpec) -> Seq<char> {
    " ORDER BY "@ + nat_text((sort.column_index + 1) as nat) + " "@ + direction_sql(sort.direction)
        + " NULLS LAST"@
}

/// The `read_parquet` path argument: a quoted file, or every parquet file below a folder.
pub open spec fn read_path_spec_text(path: Seq<char>, is_folder: bool) -> Seq<char> {
    if is_folder {
        "'"@ + escape_sql_spec(path) + "/**/*.parquet'"@
    } else {
        "'"@ + escape_sql_spec(path) + "'"@
    }
}

/// The DuckDB `read_parquet` path spec for a file or a folder of partitioned files.
pub fn read_path_spec(path: &str, is_folder: bool) -> (s: String)
    ensures
        s@ == read_path_spec_text(path@, is_folder),
{
    let escaped = escape_sql_string(path);
    let mut s = String::from_str("'");
    s.append(escaped.as_str());
    if is_folder {
        s.append("/**/*.parquet'");
    } else {
        s.append("'");
    }
    s
}

/// What is known of a path before it is opened.
#[derive(Debug, Clone, Copy, PartialEq, Eq, Structural)]
pub enum PathKind {
    Directory,
    File,
    Missing,
}

/// Decides how a path is read: `(is_folder, read_path_spec)`, or an error for a missing path.
pub fn source_for_path(path: &str, kind: PathKind) -> (r: Result<(bool, String), EngineError>)
    ensures
        kind == PathKind::Missing ==> (r matches Err(EngineError::MissingPath { path: p })
            && p@ == path@),
        kind == PathKind::Directory ==> (r matches Ok((f, s)) && f && s@ == read_path_spec_text(
            path@,
            true,
        )),
        kind == PathKind::File ==> (r matches Ok((f, s)) && !f && s@ == read_path_spec_text(
            path@,
            false,
        )),
{
    match kind {
        PathKind::Directory => Ok((true, read_path_spec(path, true))),
        PathKind::File => Ok((false, read_path_spec(path, false))),
        PathKind::Missing => Err(EngineError::MissingPath { path: String::from_str(path) }),
    }
}

/// SQL that registers the temporary source view over `read_parquet`.
pub open spec fn source_view_sql_text(read_path: Seq<char>) -> Seq<char> {
    "CREATE TEMP VIEW "@ + column_safe_spec("pv_data"@) + " AS SELECT * FROM read_parquet("@
        + read_path + ")"@
}

pub fn source_view_sql(read_path: &str) -> (s: String)
    ensures
        s@ == source_view_sql_text(read_path@),
{
    let mut s = String::from_str("CREATE TEMP VIEW ");
    let view = make_column_safe(SOURCE_VIEW_NAME);
    s.append(view.as_str());
    s.append(" AS SELECT * FROM read_parquet(");
    s.append(read_path);
    s.append(")");
    s
}

/// SQL that lists the columns of the parquet source.
pub fn describe_sql(read_path: &str) -> (s: String)
    ensures
        s@ == "DESCRIBE SELECT * FROM read_parquet("@ + read_path@ + ")"@,
{
    let mut s = String::from_str("DESCRIBE SELECT * FROM read_parquet(");
    s.append(read_path);
    s.append(")");
    s
}

/// SQL that counts the rows of the parquet source.
pub fn count_rows_sql(read_path: &str) -> (s: String)
    ensures
        s@ == "SELECT count(*) FROM read_parquet("@ + read_path@ + ")"@,
{
    let mut s = String::from_str("SELECT count(*) FROM read_parquet(");
    s.append(read_path);
    s.append(")");
    s
}

/// The fields of a source, from the column names that DESCRIBE lists; a source
/// without columns is refused.
pub fn fields_from_names(names: Vec<String>) -> (r: Result<Vec<Field>, EngineError>)
    ensures
        names@.len() == 0 <==> r is Err,
        r is Err ==> r == Err::<Vec<Field>, EngineError>(EngineError::NoFields),
        r matches Ok(f) ==> f@.len() == names@.len() && forall|i: int|
            0 <= i < names@.len() ==> #[trigger] f@[i].name == names@[i],
{
    if names.len() == 0 {
        return Err(EngineError::NoFields);
    }
    let mut fields: Vec<Field> = Vec::new();
    let mut i: usize = 0;
    while i < names.len()
        invariant
            i <= names@.len(),
            fields@.len() == i,
            forall|j: int| 0 <= j < i ==> #[trigger] fields@[j].name == names@[j],
        decreases names@.len() - i,
    {
        fields.push(Field { name: names[i].clone() });
        i = i + 1;
    }
    Ok(fields)
}

/// Number of parquet files among the extensions of the files below a folder, at least one.
pub open spec fn parquet_file_count(exts: Seq<Option<String>>) -> int
    decreases exts.len(),
{
    if exts.len() == 0 {
        0
    } else {
        parquet_file_count(exts.drop_last()) + (if exts.last() matches Some(e) && e@ == "parquet"@ {
            1int
        } else {
            0int
        })
    }
}

/// Counts the partitions of a folder from the extensions of the files found below it:
/// the files whose extension is `parquet`, and at least one.
pub fn count_partitions(exts: &[Option<String>]) -> (n: i64)
    requires
        exts@.len() < i64::MAX,
    ensures
        n == if parquet_file_count(exts@) < 1 {
            1
        } else {
            parquet_file_count(exts@)
        },
{
    let parquet = String::from_str("parquet");
    let mut count: i64 = 0;
    let mut i: usize = 0;
    while i < exts.len()
        invariant
            i <= exts@.len(),
            exts@.len() < i64::MAX,
            parquet@ == "parquet"@,
            count == parquet_file_count(exts@.subrange(0, i as int)),
            0 <= count <= i,
        decreases exts@.len() - i,
    {
        let is_parquet = match &exts[i] {
            Some(e) => *e == parquet,
            None => false,
        };
        if is_parquet {
            count = count + 1;
        }
        assert(exts@.subrange(0, i + 1).drop_last() =~= exts@.subrange(0, i as int));
        i = i + 1;
    }
    assert(exts@.subrange(0, exts@.len() as int) =~= exts@);
    if count < 1 {
        1
    } else {
        count
    }
}

/// The SQL text once trimmed, with trailing semicolons removed and trimmed again.
pub open spec fn sql_core(sql: Seq<char>) -> Seq<char> {
    trim(trim_end_by(trim(sql), char_pred(';')))
}

/// Whether a trimmed SQL text is a query that SQL mode runs.
pub open spec fn is_select_or_with(core: Seq<char>) -> bool {
    starts_with(ascii_upper(core), "SELECT "@) || starts_with(ascii_upper(core), "WITH "@)
}

/// What `validate_and_trim_sql` answers.
pub open spec fn validate_sql_spec(sql: Seq<char>) -> Result<Seq<char>, EngineError> {
    let core = sql_core(sql);
    if core.len() == 0 {
        Err(EngineError::EmptySql)
    } else if !is_select_or_with(core) {
        Err(EngineError::UnsupportedSql)
    } else {
        Ok(core)
    }
}

/// Whether `v[lo..hi]`'s upper-case form starts with `p`.
fn upper_starts_with(v: &Vec<char>, p: &str) -> (b: bool)
    ensures
        b == starts_with(ascii_upper(v@), p@),
{
    let u = upper_vec(v);
    let pv = chars_of(p);
    if pv.len() > u.len() {
        return false;
    }
    let mut k: usize = 0;
    while k < pv.len()
        invariant
            pv@.len() <= u@.len(),
            u@ == ascii_upper(v@),
            pv@ == p@,
            k <= pv@.len(),
            forall|j: int| 0 <= j < k ==> u@[j] == pv@[j],
        decreases pv@.len() - k,
    {
        if u[k] != pv[k] {
            assert(u@.subrange(0, pv@.len() as int)[k as int] != pv@[k as int]);
            return false;
        }
        k = k + 1;
    }
    assert(u@.subrange(0, pv@.len() as int) =~= pv@);
    true
}

/// Trims an SQL text for SQL mode and refuses what is empty or not a SELECT/WITH query.
pub fn validate_and_trim_sql(sql: &str) -> (r: Result<String, EngineError>)
    ensures
        match validate_sql_spec(sql@) {
            Ok(core) => r matches Ok(s) && s@ == core,
            Err(e) => r matches Err(e2) && e2 == e,
        },
{
    let v = chars_of(sql);
    let (a, b) = trim_idx(&v, 0, v.len());
    assert(v@.subrange(0, v@.len() as int) =~= v@);
    let c = trim_end_char_idx(&v, a, b, ';');
    let (a2, b2) = trim_idx(&v, a, c);
    proof {
        assert(v@.subrange(a as int, c as int) == trim_end_by(trim(sql@), char_pred(';')));
        assert(v@.subrange(a2 as int, b2 as int) == sql_core(sql@));
    }
    if a2 == b2 {
        return Err(EngineError::EmptySql);
    }
    let core = copy_chars(&v, a2, b2);
    if !(upper_starts_with(&core, "SELECT ") || upper_starts_with(&core, "WITH ")) {
        return Err(EngineError::UnsupportedSql);
    }
    Ok(text_from(core.as_slice()))
}

fn copy_chars(v: &Vec<char>, a: usize, b: usize) -> (r: Vec<char>)
    requires
        a <= b <= v@.len(),
    ensures
        r@ == v@.subrange(a as int, b as int),
{
    crate::text::copy_range(v, a, b)
}

/// What `strip_optional_where_prefix` gives back.
pub open spec fn strip_where_spec(filter: Seq<char>) -> Seq<char> {
    let t = trim(filter);
    if t.len() >= 5 && eq_ignore_ascii_case(t.subrange(0, 5), "WHERE"@) {
        trim(t.subrange(5, t.len() as int))
    } else {
        t
    }
}

/// A filter with an optional leading `WHERE` keyword (any case) removed, trimmed.
pub fn strip_optional_where_prefix(filter: &str) -> (r: String)
    ensures
        r@ == strip_where_spec(filter@),
{
    let v = chars_of(filter);
    let (a, b) = trim_idx(&v, 0, v.len());
    assert(v@.subrange(0, v@.len() as int) =~= v@);
    let t = copy_chars(&v, a, b);
    let kw = chars_of("WHERE");
    proof {
        assert(t@ == trim(filter@));
    }
    if starts_with_ignore_case_idx(&t, 0, &kw) {
        proof {
            assert(kw@.len() == 5) by {
                reveal_strlit("WHERE");
            }
        }
        let (c, d) = trim_idx(&t, 5, t.len());
        text_of_range(&t, c, d)
    } else {
        proof {
            assert(kw@.len() == 5) by {
                reveal_strlit("WHERE");
            }
            assert(t@.subrange(0, t@.len() as int) =~= t@);
        }
        text_of_range(&t, 0, t.len())
    }
}

/// Appends the ORDER BY clause of a sort, refusing a column past `col_count`.
pub fn push_sort_clause(query: &mut String, sort: Option<&SortSpec>, col_count: usize) -> (r:
    Result<(), EngineError>)
    ensures
        match sort {
            None => r is Ok && final(query)@ == old(query)@,
            Some(s) => if s.column_index >= col_count {
                r == Err::<(), EngineError>(EngineError::SortOutOfRange) && final(query)@ == old(
                    query,
                )@
            } else {
                r is Ok && final(query)@ == old(query)@ + sort_clause(*s)
            },
        },
{
    match sort {
        None => Ok(()),
        Some(s) => {
            if s.column_index >= col_count {
                return Err(EngineError::SortOutOfRange);
            }
            let n = nat_string((s.column_index + 1) as u128);
            let d = direction_keyword(s.direction);
            query.append(" ORDER BY ");
            query.append(n.as_str());
            query.append(" ");
            query.append(d.as_str());
            query.append(" NULLS LAST");
            Ok(())
        }
    }
}

/// The LIMIT/OFFSET clause, negative values counting as zero.
pub open spec fn limit_clause(limit: i64, offset: i64) -> Seq<char> {
    " LIMIT "@ + int_text(if limit < 0 {
        0
    } else {
        limit as int
    }) + " OFFSET "@ + int_text(if offset < 0 {
        0
    } else {
        offset as int
    })
}

pub fn push_limit_clause(query: &mut String, limit: i64, offset: i64)
    ensures
        final(query)@ == old(query)@ + limit_clause(limit, offset),
{
    let l: i64 = if limit < 0 {
        0
    } else {
        limit
    };
    let o: i64 = if offset < 0 {
        0
    } else {
        offset
    };
    let mut lv: Vec<char> = Vec::new();
    push_int_text(&mut lv, l as i128);
    let mut ov: Vec<char> = Vec::new();
    push_int_text(&mut ov, o as i128);
    let ls = text_from(lv.as_slice());
    let os = text_from(ov.as_slice());
    query.append(" LIMIT ");
    query.append(ls.as_str());
    query.append(" OFFSET ");
    query.append(os.as_str());
}

/// The column list of a table-mode query.
pub open spec fn field_list_sql(fields: Seq<String>) -> Seq<char> {
    join(views(fields).map_values(|f: Seq<char>| column_safe_spec(f)), ", "@)
}

/// The WHERE clause of a table-mode query, if the filter is not empty.
pub open spec fn where_clause(where_filter: Option<Seq<char>>) -> Seq<char> {
    match where_filter {
        None => seq![],
        Some(f) => {
            let body = strip_where_spec(trim(f));
            if body.len() == 0 {
                seq![]
            } else {
                " WHERE "@ + body
            }
        },
    }
}

/// What the query of `read_rows_query` is, before its sort and limit.
pub open spec fn read_rows_base(fields: Seq<String>, where_filter: Option<Seq<char>>) -> Seq<
    char,
> {
    "SELECT "@ + field_list_sql(fields) + " FROM "@ + column_safe_spec("pv_data"@) + where_clause(
        where_filter,
    )
}

pub fn join_column_list(fields: &[String]) -> (s: String)
    ensures
        s@ == field_list_sql(fields@),
{
    let ghost items = views(fields@).map_values(|f: Seq<char>| column_safe_spec(f));
    let mut s = String::new();
    let mut i: usize = 0;
    while i < fields.len()
        invariant
            i <= fields@.len(),
            items == views(fields@).map_values(|f: Seq<char>| column_safe_spec(f)),
            items.len() == fields@.len(),
            s@ == join(items.subrange(0, i as int), ", "@),
        decreases fields@.len() - i,
    {
        let c = make_column_safe(fields[i].as_str());
        if i > 0 {
            s.append(", ");
        }
        s.append(c.as_str());
        proof {
            assert(items[i as int] == c@);
            let pre = items.subrange(0, i + 1);
            assert(pre.drop_last() =~= items.subrange(0, i as int));
            if i == 0 {
                assert(items.subrange(0, 0) =~= Seq::<Seq<char>>::empty());
                assert(s@ =~= join(pre, ", "@));
            } else {
                assert(s@ =~= join(pre, ", "@));
            }
        }
        i = i + 1;
    }
    assert(items.subrange(0, fields@.len() as int) =~= items);
    s
}

pub open spec fn opt_view(o: Option<&str>) -> Option<Seq<char>> {
    match o {
        Some(s) => Some(s@),
        None => None,
    }
}

/// The query that reads a page of rows of the selected fields, or `None` when no field is
/// selected (nothing is read then).
pub fn read_rows_sql(
    selected_fields: &[String],
    where_filter: Option<&str>,
    offset: i64,
    limit: i64,
    sort: Option<&SortSpec>,
) -> (r: Result<Option<String>, EngineError>)
    ensures
        selected_fields@.len() == 0 ==> r matches Ok(None),
        selected_fields@.len() > 0 ==> match sort {
            Some(s) if s.column_index >= selected_fields@.len() => r == Err::<
                Option<String>,
                EngineError,
            >(EngineError::SortOutOfRange),
            _ => r matches Ok(Some(q)) && q@ == read_rows_base(
                selected_fields@,
                opt_view(where_filter),
            ) + (match sort {
                Some(s) => sort_clause(*s),
                None => seq![],
            }) + limit_clause(limit, offset),
        },
{
    if selected_fields.len() == 0 {
        return Ok(None);
    }
    let fields_sql = join_column_list(selected_fields);
    let mut query = String::from_str("SELECT ");
    query.append(fields_sql.as_str());
    query.append(" FROM ");
    let view = make_column_safe(SOURCE_VIEW_NAME);
    query.append(view.as_str());
    match where_filter {
        Some(filter) => {
            let trimmed = crate::text::trim_str(filter);
            let body = strip_optional_where_prefix(trimmed.as_str());
            if body.as_str().unicode_len() > 0 {
                query.append(" WHERE ");
                query.append(body.as_str());
            }
        },
        None => {},
    }
    let ghost before_sort = query@;
    match push_sort_clause(&mut query, sort, selected_fields.len()) {
        Ok(()) => {},
        Err(e) => {
            return Err(e);
        },
    }
    push_limit_clause(&mut query, limit, offset);
    Ok(Some(query))
}

/// What `query_sql` first runs on: the user's query as a subquery.
pub open spec fn wrapped_query_text(core: Seq<char>) -> Seq<char> {
    "SELECT * FROM ("@ + core + ") AS pv_query"@
}

/// Wraps a validated user query for SQL mode.
pub fn wrap_user_query(sql: &str) -> (r: Result<String, EngineError>)
    ensures
        match validate_sql_spec(sql@) {
            Ok(core) => r matches Ok(q) && q@ == wrapped_query_text(core),
            Err(e) => r == Err::<String, EngineError>(e),
        },
{
    let core = validate_and_trim_sql(sql)?;
    let mut q = String::from_str("SELECT * FROM (");
    q.append(core.as_str());
    q.append(") AS pv_query");
    Ok(q)
}

/// The query that finds how many columns a query yields, reading no row.
pub fn column_probe_sql(query: &str) -> (s: String)
    ensures
        s@ == "SELECT * FROM ("@ + query@ + ") AS pv_columns LIMIT 0"@,
{
    let mut s = String::from_str("SELECT * FROM (");
    s.append(query);
    s.append(") AS pv_columns LIMIT 0");
    s
}

/// Completes the SQL-mode query once its column count is known: sort, then page.
pub fn finish_user_query(
    query: String,
    sort: Option<&SortSpec>,
    col_count: usize,
    offset: i64,
    limit: i64,
) -> (r: Result<String, EngineError>)
    ensures
        match sort {
            Some(s) if s.column_index >= col_count => r == Err::<String, EngineError>(
                EngineError::SortOutOfRange,
            ),
            _ => r matches Ok(q) && q@ == query@ + (match sort {
                Some(s) => sort_clause(*s),
                None => seq![],
            }) + limit_clause(limit, offset),
        },
{
    let mut q = query;
    push_sort_clause(&mut q, sort, col_count)?;
    push_limit_clause(&mut q, limit, offset);
    Ok(q)
}

/// The query that counts the rows of a validated user query.
pub fn count_sql_query(sql: &str) -> (r: Result<String, EngineError>)
    ensures
        match validate_sql_spec(sql@) {
            Ok(core) => r matches Ok(q) && q@ == "SELECT count(*) FROM ("@ + core
                + ") AS pv_count"@,
            Err(e) => r == Err::<String, EngineError>(e),
        },
{
    let core = validate_and_trim_sql(sql)?;
    let mut q = String::from_str("SELECT count(*) FROM (");
    q.append(core.as_str());
    q.append(") AS pv_count");
    Ok(q)
}

/// Whether an error text points at a conversion problem in the file.
pub open spec fn is_conversion_error(msg: Seq<char>) -> bool {
    (exists|i: int| occurs_at(msg, "Could not convert"@, i)) || (exists|i: int|
        occurs_at(msg, "Conversion"@, i))
}

/// The user-facing text of a failure to open a path.
pub open spec fn open_error_text(msg: Seq<char>) -> Seq<char> {
    if is_conversion_error(msg) {
        "Failed to read parquet file. The file may be corrupt or use an unsupported feature.\n\nDetails: "@
            + msg
    } else {
        msg
    }
}

/// Turns the text of a failure to open a path into the message shown to the user.
pub fn open_error_message(msg: &str) -> (s: String)
    ensures
        s@ == open_error_text(msg@),
{
    let v = chars_of(msg);
    let p1 = chars_of("Could not convert");
    let p2 = chars_of("Conversion");
    let f1 = last_occurrence_idx(&v, &p1);
    let f2 = last_occurrence_idx(&v, &p2);
    match (f1, f2) {
        (None, None) => String::from_str(msg),
        _ => {
            let mut s = String::from_str(
                "Failed to read parquet file. The file may be corrupt or use an unsupported feature.\n\nDetails: ",
            );
            s.append(msg);
            s
        },
    }
}

/// The result of a table read: its rows, under the fields that the read asked for.
pub fn table_result(selected_fields: &[String], rows: Vec<Vec<String>>) -> (r: QueryResult)
    ensures
        views(r.headers@) == views(selected_fields@),
        r.rows == rows,
{
    QueryResult { headers: copy_strings(selected_fields), rows }
}

} // verus!
