use parquet_tui::engine::format::{format_value, time_unit_to_nanos, CellValue, TimeUnit};

#[test]
fn format_value_null() {
    assert_eq!(format_value(&CellValue::Null), "");
}

#[test]
fn format_value_boolean() {
    assert_eq!(format_value(&CellValue::Boolean(true)), "true");
    assert_eq!(format_value(&CellValue::Boolean(false)), "false");
}

#[test]
fn format_value_integers() {
    assert_eq!(format_value(&CellValue::TinyInt(42)), "42");
    assert_eq!(format_value(&CellValue::SmallInt(-1)), "-1");
    assert_eq!(format_value(&CellValue::Int(0)), "0");
    assert_eq!(format_value(&CellValue::BigInt(i64::MAX)), i64::MAX.to_string());
    assert_eq!(format_value(&CellValue::UTinyInt(255)), "255");
    assert_eq!(format_value(&CellValue::USmallInt(65535)), "65535");
    assert_eq!(format_value(&CellValue::UInt(4_294_967_295u32)), "4294967295");
    assert_eq!(
        format_value(&CellValue::UBigInt(u64::MAX)),
        u64::MAX.to_string()
    );
}

#[test]
fn format_value_float_double() {
    let float_val = format_value(&CellValue::Float(3.25f32.to_string()));
    assert!(float_val.starts_with("3.25"), "got {}", float_val);
    let double_val = format_value(&CellValue::Double(0.57721f64.to_string()));
    assert!(double_val.starts_with("0.57721"), "got {}", double_val);
    assert_eq!(format_value(&CellValue::Float(f32::INFINITY.to_string())), "inf");
    assert_eq!(format_value(&CellValue::Float(f32::NEG_INFINITY.to_string())), "-inf");
}

#[test]
fn format_value_text() {
    assert_eq!(format_value(&CellValue::Text("hello".to_string())), "hello");
    assert_eq!(format_value(&CellValue::Text(String::new())), "");
}

#[test]
fn format_value_blob() {
    assert_eq!(format_value(&CellValue::Blob(vec![1, 2, 3])), "<blob 3 bytes>");
    assert_eq!(format_value(&CellValue::Blob(vec![])), "<blob 0 bytes>");
}

#[test]
fn format_value_date32() {
    assert_eq!(format_value(&CellValue::Date32(0)), "1970-01-01");
    assert_eq!(format_value(&CellValue::Date32(365)), "1971-01-01");
}

#[test]
fn format_value_time64() {
    assert_eq!(
        format_value(&CellValue::Time64(TimeUnit::Second, 0)),
        "00:00:00"
    );
    assert_eq!(
        format_value(&CellValue::Time64(TimeUnit::Second, 3600)),
        "01:00:00"
    );
    assert_eq!(
        format_value(&CellValue::Time64(TimeUnit::Millisecond, 5_000)),
        "00:00:05"
    );
    assert_eq!(
        format_value(&CellValue::Time64(TimeUnit::Microsecond, 5_000_000)),
        "00:00:05"
    );
    assert_eq!(
        format_value(&CellValue::Time64(TimeUnit::Nanosecond, 5_000_000_000)),
        "00:00:05"
    );
}

#[test]
fn format_value_timestamp() {
    assert_eq!(
        format_value(&CellValue::Timestamp(TimeUnit::Second, 0)),
        "1970-01-01 00:00:00"
    );
    assert_eq!(
        format_value(&CellValue::Timestamp(TimeUnit::Millisecond, 1_000)),
        "1970-01-01 00:00:01"
    );
    assert_eq!(
        format_value(&CellValue::Timestamp(TimeUnit::Microsecond, 1_000_000)),
        "1970-01-01 00:00:01"
    );
    assert_eq!(
        format_value(&CellValue::Timestamp(TimeUnit::Nanosecond, 1_000_000_000)),
        "1970-01-01 00:00:01"
    );
}

#[test]
fn format_value_interval() {
    let val = CellValue::Interval {
        months: 1,
        days: 2,
        nanos: 3,
    };
    assert_eq!(format_value(&val), "interval(months=1, days=2, nanos=3)");
}

#[test]
fn format_value_list() {
    assert_eq!(
        format_value(&CellValue::List(vec![CellValue::Int(1), CellValue::Int(2)])),
        "[1, 2]"
    );
    assert_eq!(format_value(&CellValue::List(vec![])), "[]");
}

#[test]
fn format_value_struct() {
    assert_eq!(
        format_value(&CellValue::Struct(vec![
            ("x".to_string(), CellValue::Int(10)),
            ("y".to_string(), CellValue::Text("z".to_string())),
        ])),
        "{x: 10, y: z}"
    );
    assert_eq!(format_value(&CellValue::Struct(vec![])), "{}");
}

#[test]
fn format_value_enum() {
    assert_eq!(format_value(&CellValue::Enum("RED".to_string())), "RED");
}

#[test]
fn format_value_array() {
    assert_eq!(
        format_value(&CellValue::Array(vec![
            CellValue::Boolean(true),
            CellValue::Boolean(false)
        ])),
        "[true, false]"
    );
}

#[test]
fn format_value_union() {
    assert_eq!(
        format_value(&CellValue::Union(Box::new(CellValue::Int(42)))),
        "union(42)"
    );
}

#[test]
fn format_value_map_and_geometry() {
    assert_eq!(
        format_value(&CellValue::KeyValueMap(vec![(
            CellValue::Text("k".to_string()),
            CellValue::UHugeInt(7)
        )])),
        "{k: 7}"
    );
    assert_eq!(format_value(&CellValue::Geometry(vec![0; 5])), "<geometry 5 bytes>");
    assert_eq!(format_value(&CellValue::HugeInt(-12)), "-12");
}

#[test]
fn format_value_negative_and_out_of_range_times() {
    assert_eq!(
        format_value(&CellValue::Timestamp(TimeUnit::Second, -1)),
        "1969-12-31 23:59:59"
    );
    assert_eq!(
        format_value(&CellValue::Time64(TimeUnit::Second, 86_400)),
        "time(Second, 86400)"
    );
    assert_eq!(format_value(&CellValue::Time64(TimeUnit::Second, -5)), "00:00:00");
    assert_eq!(format_value(&CellValue::Date32(-1)), "1969-12-31");
}

#[test]
fn time_unit_to_nanos_saturates() {
    assert_eq!(time_unit_to_nanos(TimeUnit::Millisecond, 3), 3_000_000);
    assert_eq!(time_unit_to_nanos(TimeUnit::Second, i64::MAX), i64::MAX);
    assert_eq!(time_unit_to_nanos(TimeUnit::Second, i64::MIN), i64::MIN);
    assert_eq!(time_unit_to_nanos(TimeUnit::Nanosecond, -7), -7);
}
