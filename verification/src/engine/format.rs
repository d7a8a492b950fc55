//! Display text of the values that DuckDB gives back for the cells of a result.
use crate::engine::join;
use crate::text::{int_text, nat_text, push_int_text, push_nat_text, text_from};
use vstd::prelude::*;

verus! {

/// The unit of a time or timestamp value.
#[derive(Debug, Clone, Copy, PartialEq, Eq, Structural)]
pub enum TimeUnit {
    Second,
    Millisecond,
    Microsecond,
    Nanosecond,
}

/// A cell value as DuckDB gives it back. Floating-point and decimal numbers arrive as the
/// text that their own `Display` writes; `Other` holds the debug text of a kind of value
/// that this library does not know.
#[derive(Debug)]
pub enum CellValue {
    Null,
    Boolean(bool),
    TinyInt(i8),
    SmallInt(i16),
    Int(i32),
    BigInt(i64),
    HugeInt(i128),
    UTinyInt(u8),
    USmallInt(u16),
    UInt(u32),
    UBigInt(u64),
    UHugeInt(u128),
    Float(String),
    Double(String),
    Decimal(String),
    Timestamp(TimeUnit, i64),
    Text(String),
    Blob(Vec<u8>),
    Geometry(Vec<u8>),
    Date32(i32),
    Time64(TimeUnit, i64),
    Interval { months: i32, days: i32, nanos: i64 },
    List(Vec<CellValue>),
    Enum(String),
    Struct(Vec<(String, CellValue)>),
    Array(Vec<CellValue>),
    KeyValueMap(Vec<(CellValue, CellValue)>),
    Union(Box<CellValue>),
    Other(String),
}

/// The name of a time unit, as its `Debug` writes it.
pub open spec fn unit_name(u: TimeUnit) -> Seq<char> {
    match u {
        TimeUnit::Second => "Second"@,
        TimeUnit::Millisecond => "Millisecond"@,
        TimeUnit::Microsecond => "Microsecond"@,
        TimeUnit::Nanosecond => "Nanosecond"@,
    }
}

/// An integer clamped to the range of `i64`.
pub open spec fn saturate_i64(x: int) -> int {
    if x > i64::MAX {
        i64::MAX as int
    } else if x < i64::MIN {
        i64::MIN as int
    } else {
        x
    }
}

/// Nanoseconds per unit.
pub open spec fn unit_factor(u: TimeUnit) -> int {
    match u {
        TimeUnit::Second => 1_000_000_000,
        TimeUnit::Millisecond => 1_000_000,
        TimeUnit::Microsecond => 1_000,
        TimeUnit::Nanosecond => 1,
    }
}

/// A count of units in nanoseconds, saturating at the bounds of `i64`.
pub open spec fn nanos_spec(u: TimeUnit, val: i64) -> int {
    saturate_i64(val * unit_factor(u))
}

/// Division rounding toward zero, as Rust's `/` on integers.
pub open spec fn trunc_div(a: int, b: int) -> int {
    if a >= 0 {
        a / b
    } else {
        -((-a) / b)
    }
}

/// Remainder with the sign of the dividend, as Rust's `%` on integers.
pub open spec fn trunc_rem(a: int, b: int) -> int {
    a - b * trunc_div(a, b)
}

/// Converts a count of units to nanoseconds, saturating at the bounds of `i64`.
pub fn time_unit_to_nanos(unit: TimeUnit, val: i64) -> (r: i64)
    ensures
        r == nanos_spec(unit, val),
{
    let f: i64 = match unit {
        TimeUnit::Second => 1_000_000_000,
        TimeUnit::Millisecond => 1_000_000,
        TimeUnit::Microsecond => 1_000,
        TimeUnit::Nanosecond => 1,
    };
    match val.checked_mul(f) {
        Some(x) => x,
        None => {
            if val < 0 {
                i64::MIN
            } else {
                i64::MAX
            }
        },
    }
}

/// Two decimal digits of a number below one hundred.
pub open spec fn two_digits(n: int) -> Seq<char> {
    seq![crate::text::digit_char((n / 10) as nat), crate::text::digit_char((n % 10) as nat)]
}

/// `HH:MM:SS` of a number of seconds since midnight.
pub open spec fn hms_text(secs: int) -> Seq<char> {
    two_digits(secs / 3600) + ":"@ + two_digits((secs / 60) % 60) + ":"@ + two_digits(secs % 60)
}

/// Whether chrono accepts seconds since midnight and a nanosecond part as a time of day.
pub open spec fn time_of_day_valid(secs: u32, nano: u32) -> bool {
    secs < 86_400 && nano < 2_000_000_000 && (nano < 1_000_000_000 || secs % 60 == 59)
}

/// The date `days` after 1970-01-01, as chrono writes it with `%Y-%m-%d`; `None` when
/// chrono cannot represent that date.
pub uninterp spec fn epoch_day_text(days: i32) -> Option<Seq<char>>;

/// The UTC date and time `secs` seconds and `nsecs` nanoseconds after the Unix epoch, as
/// chrono writes it with `%Y-%m-%d %H:%M:%S`; `None` when chrono refuses them.
pub uninterp spec fn timestamp_text(secs: i64, nsecs: u32) -> Option<Seq<char>>;

/// chrono: `NaiveDate::from_ymd_opt(1970, 1, 1)`, `checked_add_signed(TimeDelta::days(..))`
/// and `format("%Y-%m-%d")`. The contract names the result; it says nothing of its text.
#[verifier::external_body]
fn chrono_epoch_day(days: i32) -> (r: Option<String>)
    ensures
        match r {
            Some(s) => epoch_day_text(days) == Some(s@),
            None => epoch_day_text(days) is None,
        },
{
    match chrono::NaiveDate::from_ymd_opt(1970, 1, 1) {
        Some(epoch) => match epoch.checked_add_signed(chrono::TimeDelta::days(days as i64)) {
            Some(date) => Some(date.format("%Y-%m-%d").to_string()),
            None => None,
        },
        None => None,
    }
}

/// chrono: `NaiveTime::from_num_seconds_from_midnight_opt` and `format("%H:%M:%S")`.
/// The contract states when chrono accepts the arguments and, outside a leap second, the
/// text: hours, minutes and seconds zero-padded to two digits. The text of a leap second
/// (a nanosecond part of one second or more) is left unsaid.
#[verifier::external_body]
fn chrono_time_of_day(secs: u32, nano: u32) -> (r: Option<String>)
    ensures
        r is Some <==> time_of_day_valid(secs, nano),
        r matches Some(t) ==> (nano < 1_000_000_000 ==> t@ == hms_text(secs as int)),
{
    match chrono::NaiveTime::from_num_seconds_from_midnight_opt(secs, nano) {
        Some(t) => Some(t.format("%H:%M:%S").to_string()),
        None => None,
    }
}

/// chrono: `NaiveDateTime::from_timestamp_opt` and `format("%Y-%m-%d %H:%M:%S")`. The
/// contract names the result, and states that a nanosecond part of two seconds or more is
/// refused, as chrono documents.
#[verifier::external_body]
fn chrono_timestamp(secs: i64, nsecs: u32) -> (r: Option<String>)
    ensures
        match r {
            Some(s) => timestamp_text(secs, nsecs) == Some(s@),
            None => timestamp_text(secs, nsecs) is None,
        },
        nsecs >= 2_000_000_000 ==> r is None,
{
    #[allow(deprecated)]
    match chrono::NaiveDateTime::from_timestamp_opt(secs, nsecs) {
        Some(dt) => Some(dt.format("%Y-%m-%d %H:%M:%S").to_string()),
        None => None,
    }
}

/// The text of a Date32 value.
pub open spec fn date_spec(days: i32) -> Seq<char> {
    match epoch_day_text(days) {
        Some(t) => t,
        None => "date("@ + int_text(days as int) + ")"@,
    }
}

/// Seconds since midnight of a Time64 value, as `u32::try_from(..).unwrap_or(0)` gives them.
pub open spec fn time_secs(total: int) -> int {
    let s = trunc_div(total, 1_000_000_000);
    if 0 <= s <= u32::MAX {
        s
    } else {
        0
    }
}

/// The nanosecond part of a Time64 value, as `u32::try_from(..).unwrap_or(0)` gives it.
pub open spec fn time_nanos(total: int) -> int {
    let r = trunc_rem(total, 1_000_000_000);
    if r >= 0 {
        r
    } else {
        0
    }
}

/// The text of a Time64 value.
pub open spec fn time_spec(u: TimeUnit, val: i64) -> Seq<char> {
    let total = nanos_spec(u, val);
    let secs = time_secs(total);
    let nanos = time_nanos(total);
    if time_of_day_valid(secs as u32, nanos as u32) {
        hms_text(secs)
    } else {
        "time("@ + unit_name(u) + ", "@ + int_text(val as int) + ")"@
    }
}

/// The nanosecond part of a Timestamp value, as `(r as u32)` casts the remainder.
pub open spec fn ts_nanos(total: int) -> int {
    let r = trunc_rem(total, 1_000_000_000);
    if r >= 0 {
        r
    } else {
        r + 0x1_0000_0000
    }
}

/// The text of a Timestamp value.
pub open spec fn timestamp_spec(u: TimeUnit, val: i64) -> Seq<char> {
    let total = nanos_spec(u, val);
    match timestamp_text(trunc_div(total, 1_000_000_000) as i64, ts_nanos(total) as u32) {
        Some(t) => t,
        None => "ts("@ + unit_name(u) + ", "@ + int_text(val as int) + ")"@,
    }
}

/// The texts of a sequence of values.
pub open spec fn format_items(items: Seq<CellValue>) -> Seq<Seq<char>>
    decreases items,
{
    if items.len() == 0 {
        seq![]
    } else {
        format_items(items.drop_last()).push(format_spec(items.last()))
    }
}

/// The texts `key: value` of the fields of a struct.
pub open spec fn format_fields(fields: Seq<(String, CellValue)>) -> Seq<Seq<char>>
    decreases fields,
{
    if fields.len() == 0 {
        seq![]
    } else {
        format_fields(fields.drop_last()).push(
            fields.last().0@ + ": "@ + format_spec(fields.last().1),
        )
    }
}

/// The texts `key: value` of the entries of a map.
pub open spec fn format_entries(entries: Seq<(CellValue, CellValue)>) -> Seq<Seq<char>>
    decreases entries,
{
    if entries.len() == 0 {
        seq![]
    } else {
        format_entries(entries.drop_last()).push(
            format_spec(entries.last().0) + ": "@ + format_spec(entries.last().1),
        )
    }
}

/// The display text of a value.
pub open spec fn format_spec(v: CellValue) -> Seq<char>
    decreases v,
{
    match v {
        CellValue::Null => seq![],
        CellValue::Boolean(b) => if b {
            "true"@
        } else {
            "false"@
        },
        CellValue::TinyInt(i) => int_text(i as int),
        CellValue::SmallInt(i) => int_text(i as int),
        CellValue::Int(i) => int_text(i as int),
        CellValue::BigInt(i) => int_text(i as int),
        CellValue::HugeInt(i) => int_text(i as int),
        CellValue::UTinyInt(i) => int_text(i as int),
        CellValue::USmallInt(i) => int_text(i as int),
        CellValue::UInt(i) => int_text(i as int),
        CellValue::UBigInt(i) => int_text(i as int),
        CellValue::UHugeInt(i) => int_text(i as int),
        CellValue::Float(s) => s@,
        CellValue::Double(s) => s@,
        CellValue::Decimal(s) => s@,
        CellValue::Text(s) => s@,
        CellValue::Blob(b) => "<blob "@ + nat_text(b@.len()) + " bytes>"@,
        CellValue::Geometry(b) => "<geometry "@ + nat_text(b@.len()) + " bytes>"@,
        CellValue::Date32(d) => date_spec(d),
        CellValue::Time64(u, x) => time_spec(u, x),
        CellValue::Timestamp(u, x) => timestamp_spec(u, x),
        CellValue::Interval { months, days, nanos } => "interval(months="@ + int_text(
            months as int,
        ) + ", days="@ + int_text(days as int) + ", nanos="@ + int_text(nanos as int) + ")"@,
        CellValue::List(items) => "["@ + join(format_items(items@), ", "@) + "]"@,
        CellValue::Struct(fields) => "{"@ + join(format_fields(fields@), ", "@) + "}"@,
        CellValue::KeyValueMap(entries) => "{"@ + join(format_entries(entries@), ", "@) + "}"@,
        CellValue::Array(items) => "["@ + join(format_items(items@), ", "@) + "]"@,
        CellValue::Enum(s) => s@,
        CellValue::Union(inner) => "union("@ + format_spec(*inner) + ")"@,
        CellValue::Other(s) => s@,
    }
}


/// The texts of a list's items, one per item in order.
pub proof fn lemma_items_each(items: Seq<CellValue>)
    ensures
        format_items(items) == Seq::new(items.len(), |i: int| format_spec(items[i])),
    decreases items.len(),
{
    if items.len() > 0 {
        lemma_items_each(items.drop_last());
    }
    assert(format_items(items) =~= Seq::new(items.len(), |i: int| format_spec(items[i])));
}

/// The texts of a struct's fields, one per field in order.
pub proof fn lemma_fields_each(fields: Seq<(String, CellValue)>)
    ensures
        format_fields(fields) == Seq::new(
            fields.len(),
            |i: int| fields[i].0@ + ": "@ + format_spec(fields[i].1),
        ),
    decreases fields.len(),
{
    if fields.len() > 0 {
        lemma_fields_each(fields.drop_last());
    }
    assert(format_fields(fields) =~= Seq::new(
        fields.len(),
        |i: int| fields[i].0@ + ": "@ + format_spec(fields[i].1),
    ));
}

/// The texts of a map's entries, one per entry in order.
pub proof fn lemma_entries_each(entries: Seq<(CellValue, CellValue)>)
    ensures
        format_entries(entries) == Seq::new(
            entries.len(),
            |i: int| format_spec(entries[i].0) + ": "@ + format_spec(entries[i].1),
        ),
    decreases entries.len(),
{
    if entries.len() > 0 {
        lemma_entries_each(entries.drop_last());
    }
    assert(format_entries(entries) =~= Seq::new(
        entries.len(),
        |i: int| format_spec(entries[i].0) + ": "@ + format_spec(entries[i].1),
    ));
}

/// Law: the text of a list or array is the text of every item, in order, joined by `, `
/// in brackets; that of a struct or map is `key: value` for every field or entry, in
/// order, joined by `, ` in braces.
pub proof fn law_collection_text_lists_every_element(v: CellValue)
    ensures
        v matches CellValue::List(items) ==> format_spec(v) == "["@ + join(
            Seq::new(items@.len(), |i: int| format_spec(items@[i])),
            ", "@,
        ) + "]"@,
        v matches CellValue::Array(items) ==> format_spec(v) == "["@ + join(
            Seq::new(items@.len(), |i: int| format_spec(items@[i])),
            ", "@,
        ) + "]"@,
        v matches CellValue::Struct(fields) ==> format_spec(v) == "{"@ + join(
            Seq::new(fields@.len(), |i: int| fields@[i].0@ + ": "@ + format_spec(fields@[i].1)),
            ", "@,
        ) + "}"@,
        v matches CellValue::KeyValueMap(entries) ==> format_spec(v) == "{"@ + join(
            Seq::new(
                entries@.len(),
                |i: int| format_spec(entries@[i].0) + ": "@ + format_spec(entries@[i].1),
            ),
            ", "@,
        ) + "}"@,
{
    match v {
        CellValue::List(items) => lemma_items_each(items@),
        CellValue::Array(items) => lemma_items_each(items@),
        CellValue::Struct(fields) => lemma_fields_each(fields@),
        CellValue::KeyValueMap(entries) => lemma_entries_each(entries@),
        _ => {},
    }
}

/// Law: joining puts the separator between each two items and nowhere else: nothing for
/// no item, the item itself for one, and one more item after a separator for each more.
pub proof fn law_join_separates_items(items: Seq<Seq<char>>, x: Seq<char>, sep: Seq<char>)
    ensures
        join(Seq::<Seq<char>>::empty(), sep) == Seq::<char>::empty(),
        join(seq![x], sep) == x,
        items.len() > 0 ==> join(items.push(x), sep) == join(items, sep) + sep + x,
{
    assert(seq![x].len() == 1);
    if items.len() > 0 {
        assert(items.push(x).drop_last() =~= items);
    }
}

pub proof fn lemma_join_push(items: Seq<Seq<char>>, x: Seq<char>, sep: Seq<char>)
    ensures
        join(items.push(x), sep) == if items.len() == 0 {
            x
        } else {
            join(items, sep) + sep + x
        },
{
    assert(items.push(x).drop_last() =~= items);
    if items.len() == 0 {
        assert(items.push(x).len() == 1);
    }
}

/// `(a / b, a % b)` with Rust's rounding toward zero, for a positive divisor.
fn div_rem_trunc(a: i64, b: i64) -> (r: (i64, i64))
    requires
        b > 1,
    ensures
        r.0 == trunc_div(a as int, b as int),
        r.1 == trunc_rem(a as int, b as int),
{
    let t: i128 = a as i128;
    let d: i128 = b as i128;
    proof {
        let ti = t as int;
        let di = d as int;
        if ti >= 0 {
            assert(0 <= ti / di <= ti && 0 <= ti - di * (ti / di) < di) by (nonlinear_arith)
                requires
                    ti >= 0,
                    di > 1,
            ;
        } else {
            assert(0 <= (-ti) / di <= -ti && 0 <= (-ti) - di * ((-ti) / di) < di)
                by (nonlinear_arith)
                requires
                    ti < 0,
                    di > 1,
            ;
        }
    }
    let q: i128 = if t >= 0 {
        t / d
    } else {
        -((-t) / d)
    };
    proof {
        let ti = t as int;
        let di = d as int;
        if ti >= 0 {
            assert(q as int == ti / di);
            assert(di * (q as int) == di * (ti / di));
            assert(ti - di < di * (q as int) <= ti);
        } else {
            assert(q as int == -((-ti) / di));
            assert(di * (q as int) == -(di * ((-ti) / di))) by (nonlinear_arith)
                requires
                    q as int == -((-ti) / di),
            ;
            assert(ti <= di * (q as int) < ti + di);
        }
        assert(q as int == trunc_div(a as int, b as int));
    }
    let r: i128 = t - d * q;
    proof {
        assert(r as int == trunc_rem(a as int, b as int));
        assert(-(b as int) < r < b);
    }
    (q as i64, r as i64)
}

fn append_int(s: &mut String, i: i128)
    ensures
        final(s)@ == old(s)@ + int_text(i as int),
{
    let mut v: Vec<char> = Vec::new();
    push_int_text(&mut v, i);
    assert(v@ =~= int_text(i as int));
    let t = text_from(v.as_slice());
    s.append(t.as_str());
}

fn append_nat(s: &mut String, n: u128)
    ensures
        final(s)@ == old(s)@ + nat_text(n as nat),
{
    let mut v: Vec<char> = Vec::new();
    push_nat_text(&mut v, n);
    assert(v@ =~= nat_text(n as nat));
    let t = text_from(v.as_slice());
    s.append(t.as_str());
}

fn unit_name_text(u: TimeUnit) -> (s: String)
    ensures
        s@ == unit_name(u),
{
    match u {
        TimeUnit::Second => String::from_str("Second"),
        TimeUnit::Millisecond => String::from_str("Millisecond"),
        TimeUnit::Microsecond => String::from_str("Microsecond"),
        TimeUnit::Nanosecond => String::from_str("Nanosecond"),
    }
}

/// `prefix unit, val)` for a time or timestamp value that chrono refuses.
fn fallback_text(prefix: &str, u: TimeUnit, val: i64) -> (s: String)
    ensures
        s@ == prefix@ + unit_name(u) + ", "@ + int_text(val as int) + ")"@,
{
    let mut s = String::from_str(prefix);
    let n = unit_name_text(u);
    s.append(n.as_str());
    s.append(", ");
    append_int(&mut s, val as i128);
    s.append(")");
    s
}

/// The text of a Date32 value: the date, or `date(days)` when chrono cannot hold it.
pub fn format_date(days: i32) -> (s: String)
    ensures
        s@ == date_spec(days),
{
    match chrono_epoch_day(days) {
        Some(t) => t,
        None => {
            let mut s = String::from_str("date(");
            append_int(&mut s, days as i128);
            s.append(")");
            s
        },
    }
}

/// The text of a Time64 value: `HH:MM:SS`, or `time(unit, value)` when it is no time of day.
pub fn format_time(u: TimeUnit, val: i64) -> (s: String)
    ensures
        s@ == time_spec(u, val),
{
    let total = time_unit_to_nanos(u, val);
    let (q, r) = div_rem_trunc(total, 1_000_000_000);
    let secs: u32 = if 0 <= q && q <= u32::MAX as i64 {
        q as u32
    } else {
        0
    };
    let nanos: u32 = if r >= 0 {
        r as u32
    } else {
        0
    };
    proof {
        assert(secs == time_secs(total as int));
        assert(nanos == time_nanos(total as int));
        assert(nanos < 1_000_000_000);
    }
    match chrono_time_of_day(secs, nanos) {
        Some(t) => t,
        None => fallback_text("time(", u, val),
    }
}

/// The text of a Timestamp value: `YYYY-MM-DD HH:MM:SS`, or `ts(unit, value)` when chrono
/// refuses it.
pub fn format_timestamp(u: TimeUnit, val: i64) -> (s: String)
    ensures
        s@ == timestamp_spec(u, val),
{
    let total = time_unit_to_nanos(u, val);
    let (q, r) = div_rem_trunc(total, 1_000_000_000);
    let nsecs: u32 = if r >= 0 {
        r as u32
    } else {
        (r + 0x1_0000_0000) as u32
    };
    proof {
        assert(nsecs == ts_nanos(total as int));
    }
    match chrono_timestamp(q, nsecs) {
        Some(t) => t,
        None => fallback_text("ts(", u, val),
    }
}

/// `prefix + join(texts of items, ", ") + suffix` for a list or an array.
fn format_list(items: &Vec<CellValue>, open: &str, close: &str) -> (s: String)
    ensures
        s@ == open@ + join(format_items(items@), ", "@) + close@,
    decreases items@,
{
    let mut s = String::from_str(open);
    let ghost start = s@;
    let mut i: usize = 0;
    while i < items.len()
        invariant
            i <= items@.len(),
            s@ == start + join(format_items(items@.subrange(0, i as int)), ", "@),
            start == open@,
        decreases items@.len() - i,
    {
        assert(decreases_to!(items@ => items@[i as int]));
        let t = format_value(&items[i]);
        if i > 0 {
            s.append(", ");
        }
        s.append(t.as_str());
        proof {
            let pre = items@.subrange(0, i + 1);
            assert(pre.drop_last() =~= items@.subrange(0, i as int));
            assert(format_items(pre) == format_items(items@.subrange(0, i as int)).push(t@));
            lemma_join_push(format_items(items@.subrange(0, i as int)), t@, ", "@);
            assert(s@ =~= start + join(format_items(pre), ", "@));
        }
        i = i + 1;
    }
    assert(items@.subrange(0, items@.len() as int) =~= items@);
    s.append(close);
    s
}

fn format_struct(fields: &Vec<(String, CellValue)>) -> (s: String)
    ensures
        s@ == "{"@ + join(format_fields(fields@), ", "@) + "}"@,
    decreases fields@,
{
    let mut s = String::from_str("{");
    let ghost start = s@;
    let mut i: usize = 0;
    while i < fields.len()
        invariant
            i <= fields@.len(),
            s@ == start + join(format_fields(fields@.subrange(0, i as int)), ", "@),
            start == "{"@,
        decreases fields@.len() - i,
    {
        assert(decreases_to!(fields@ => fields@[i as int]));
        let (k, v) = &fields[i];
        let t = format_value(v);
        let mut piece = k.clone();
        piece.append(": ");
        piece.append(t.as_str());
        if i > 0 {
            s.append(", ");
        }
        s.append(piece.as_str());
        proof {
            let pre = fields@.subrange(0, i + 1);
            assert(pre.drop_last() =~= fields@.subrange(0, i as int));
            assert(format_fields(pre) == format_fields(fields@.subrange(0, i as int)).push(
                piece@,
            ));
            lemma_join_push(format_fields(fields@.subrange(0, i as int)), piece@, ", "@);
            assert(s@ =~= start + join(format_fields(pre), ", "@));
        }
        i = i + 1;
    }
    assert(fields@.subrange(0, fields@.len() as int) =~= fields@);
    s.append("}");
    s
}

fn format_map(entries: &Vec<(CellValue, CellValue)>) -> (s: String)
    ensures
        s@ == "{"@ + join(format_entries(entries@), ", "@) + "}"@,
    decreases entries@,
{
    let mut s = String::from_str("{");
    let ghost start = s@;
    let mut i: usize = 0;
    while i < entries.len()
        invariant
            i <= entries@.len(),
            s@ == start + join(format_entries(entries@.subrange(0, i as int)), ", "@),
            start == "{"@,
        decreases entries@.len() - i,
    {
        assert(decreases_to!(entries@ => entries@[i as int]));
        let (k, v) = &entries[i];
        let mut piece = format_value(k);
        let t = format_value(v);
        piece.append(": ");
        piece.append(t.as_str());
        if i > 0 {
            s.append(", ");
        }
        s.append(piece.as_str());
        proof {
            let pre = entries@.subrange(0, i + 1);
            assert(pre.drop_last() =~= entries@.subrange(0, i as int));
            assert(format_entries(pre) == format_entries(entries@.subrange(0, i as int)).push(
                piece@,
            ));
            lemma_join_push(format_entries(entries@.subrange(0, i as int)), piece@, ", "@);
            assert(s@ =~= start + join(format_entries(pre), ", "@));
        }
        i = i + 1;
    }
    assert(entries@.subrange(0, entries@.len() as int) =~= entries@);
    s.append("}");
    s
}

fn bytes_text(prefix: &str, n: usize) -> (s: String)
    ensures
        s@ == prefix@ + nat_text(n as nat) + " bytes>"@,
{
    let mut s = String::from_str(prefix);
    append_nat(&mut s, n as u128);
    s.append(" bytes>");
    s
}

/// Format a DuckDB value into a display string.
pub fn format_value(v: &CellValue) -> (s: String)
    ensures
        s@ == format_spec(*v),
    decreases *v,
{
    match v {
        CellValue::Null => String::new(),
        CellValue::Boolean(b) => if *b {
            String::from_str("true")
        } else {
            String::from_str("false")
        },
        CellValue::TinyInt(i) => crate::text::int_string(*i as i128),
        CellValue::SmallInt(i) => crate::text::int_string(*i as i128),
        CellValue::Int(i) => crate::text::int_string(*i as i128),
        CellValue::BigInt(i) => crate::text::int_string(*i as i128),
        CellValue::HugeInt(i) => crate::text::int_string(*i),
        CellValue::UTinyInt(i) => crate::text::nat_string(*i as u128),
        CellValue::USmallInt(i) => crate::text::nat_string(*i as u128),
        CellValue::UInt(i) => crate::text::nat_string(*i as u128),
        CellValue::UBigInt(i) => crate::text::nat_string(*i as u128),
        CellValue::UHugeInt(i) => crate::text::nat_string(*i),
        CellValue::Float(s) => s.clone(),
        CellValue::Double(s) => s.clone(),
        CellValue::Decimal(s) => s.clone(),
        CellValue::Text(s) => s.clone(),
        CellValue::Blob(b) => bytes_text("<blob ", b.len()),
        CellValue::Geometry(b) => bytes_text("<geometry ", b.len()),
        CellValue::Date32(d) => format_date(*d),
        CellValue::Time64(u, x) => format_time(*u, *x),
        CellValue::Timestamp(u, x) => format_timestamp(*u, *x),
        CellValue::Interval { months, days, nanos } => {
            let mut s = String::from_str("interval(months=");
            append_int(&mut s, *months as i128);
            s.append(", days=");
            append_int(&mut s, *days as i128);
            s.append(", nanos=");
            append_int(&mut s, *nanos as i128);
            s.append(")");
            s
        },
        CellValue::List(items) => format_list(items, "[", "]"),
        CellValue::Struct(fields) => format_struct(fields),
        CellValue::KeyValueMap(entries) => format_map(entries),
        CellValue::Array(items) => format_list(items, "[", "]"),
        CellValue::Enum(s) => s.clone(),
        CellValue::Union(inner) => {
            let t = format_value(inner);
            let mut s = String::from_str("union(");
            s.append(t.as_str());
            s.append(")");
            s
        },
        CellValue::Other(s) => s.clone(),
    }
}

} // verus!
