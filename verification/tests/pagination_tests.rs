use langfuse_cli::jsontext::to_compact_string;
use langfuse_cli::pagination::{PageStep, Paginator};
use langfuse_cli::requests::{list_params, traces_filters};
use langfuse_cli::strutil::parse_i32;
use langfuse_cli::value::Value;

fn record(id: &str) -> Value {
    Value::Obj(vec![("id".to_string(), Value::Str(id.to_string()))])
}

#[test]
fn test_page_size_capped_at_100() {
    let p = Paginator::new(150, 1);
    assert_eq!(p.page_size, 100);
    assert_eq!(p.limit, 150);

    let p = Paginator::new(5000, 1);
    assert_eq!(p.page_size, 100);

    let p = Paginator::new(100, 1);
    assert_eq!(p.page_size, 100);

    let p = Paginator::new(99, 1);
    assert_eq!(p.page_size, 99);
}

#[test]
fn test_two_pages_reach_limit_in_order() {
    // Two-page fixture: page 1 has 2 records and reports 2 total pages,
    // page 2 has 1 record. A limit of 3 takes exactly the 3 records, in
    // server order, with exactly 2 requests issued.
    let mut p = Paginator::new(3, 1);
    assert_eq!(p.current_page, 1);

    let step1 = p.accept_page(vec![record("trace-1"), record("trace-2")], Some(2));
    assert_eq!(step1, PageStep::Continue);
    assert_eq!(p.current_page, 2);

    let step2 = p.accept_page(vec![record("trace-3")], Some(2));
    assert_eq!(step2, PageStep::Done);

    let records = p.into_records();
    assert_eq!(records.len(), 3);
    assert_eq!(to_compact_string(&records[0]), "{\"id\":\"trace-1\"}");
    assert_eq!(to_compact_string(&records[1]), "{\"id\":\"trace-2\"}");
    assert_eq!(to_compact_string(&records[2]), "{\"id\":\"trace-3\"}");
}

#[test]
fn test_single_page_truncated_to_limit() {
    // Single-page fixture with 3 records and totalPages 1; a limit of 2
    // cuts the result to exactly the first 2 records.
    let mut p = Paginator::new(2, 1);

    let step = p.accept_page(
        vec![record("trace-1"), record("trace-2"), record("trace-3")],
        Some(1),
    );
    assert_eq!(step, PageStep::Done);

    let records = p.into_records();
    assert_eq!(records.len(), 2);
    assert_eq!(to_compact_string(&records[0]), "{\"id\":\"trace-1\"}");
    assert_eq!(to_compact_string(&records[1]), "{\"id\":\"trace-2\"}");
}

#[test]
fn test_stops_on_last_reported_page() {
    let mut p = Paginator::new(50, 1);
    let step = p.accept_page(vec![record("a"), record("b")], Some(1));
    assert_eq!(step, PageStep::Done);
    assert_eq!(p.into_records().len(), 2);
}

#[test]
fn test_continues_without_meta() {
    let mut p = Paginator::new(50, 1);
    let step = p.accept_page(vec![record("a")], None);
    assert_eq!(step, PageStep::Continue);
    assert_eq!(p.current_page, 2);
}

#[test]
fn test_list_params_texts() {
    let params = list_params(100, 1, Vec::new());
    assert_eq!(params.len(), 2);
    assert_eq!(params[0], ("limit".to_string(), "100".to_string()));
    assert_eq!(params[1], ("page".to_string(), "1".to_string()));
}

#[test]
fn test_traces_filters_order_and_tags() {
    let tags = vec!["alpha".to_string(), "beta".to_string()];
    let filters = traces_filters(
        Some("my-trace"),
        Some("user-123"),
        None,
        Some(&tags),
        None,
        Some("2024-01-16T00:00:00Z"),
    );
    assert_eq!(
        filters,
        vec![
            ("name".to_string(), "my-trace".to_string()),
            ("userId".to_string(), "user-123".to_string()),
            ("toTimestamp".to_string(), "2024-01-16T00:00:00Z".to_string()),
            ("tags".to_string(), "alpha".to_string()),
            ("tags".to_string(), "beta".to_string()),
        ]
    );
}

#[test]
fn test_split_page_reads_data_and_total() {
    let envelope = Value::Obj(vec![
        (
            "data".to_string(),
            Value::Arr(vec![record("trace-1"), record("trace-2")]),
        ),
        (
            "meta".to_string(),
            Value::Obj(vec![
                ("page".to_string(), Value::Num("1".to_string())),
                ("totalPages".to_string(), Value::Num("2".to_string())),
            ]),
        ),
    ]);
    let (data, total) = langfuse_cli::pagination::split_page(envelope);
    assert_eq!(data.len(), 2);
    assert_eq!(to_compact_string(&data[0]), "{\"id\":\"trace-1\"}");
    assert_eq!(total, Some(2));
}

#[test]
fn test_split_page_without_meta() {
    let envelope = Value::Obj(vec![(
        "data".to_string(),
        Value::Arr(vec![record("a")]),
    )]);
    let (data, total) = langfuse_cli::pagination::split_page(envelope);
    assert_eq!(data.len(), 1);
    assert_eq!(total, None);
}

#[test]
fn test_split_page_rejects_fractional_total() {
    let envelope = Value::Obj(vec![
        ("data".to_string(), Value::Arr(vec![])),
        (
            "meta".to_string(),
            Value::Obj(vec![(
                "totalPages".to_string(),
                Value::Num("2.5".to_string()),
            )]),
        ),
    ]);
    let (data, total) = langfuse_cli::pagination::split_page(envelope);
    assert!(data.is_empty());
    assert_eq!(total, None);
}

#[test]
fn test_split_page_of_non_object() {
    let (data, total) = langfuse_cli::pagination::split_page(Value::Str("x".to_string()));
    assert!(data.is_empty());
    assert_eq!(total, None);
}

#[test]
fn test_parse_i32_cases() {
    assert_eq!(parse_i32("2"), Some(2));
    assert_eq!(parse_i32("0"), Some(0));
    assert_eq!(parse_i32("-17"), Some(-17));
    assert_eq!(parse_i32(""), None);
    assert_eq!(parse_i32("-"), None);
    assert_eq!(parse_i32("12a"), None);
    assert_eq!(parse_i32("+5"), None);
    assert_eq!(parse_i32("2147483647"), Some(2147483647));
    assert_eq!(parse_i32("2147483648"), None);
    assert_eq!(parse_i32("-2147483648"), Some(-2147483648));
    assert_eq!(parse_i32("-2147483649"), None);
    assert_eq!(parse_i32("99999999999999999999"), None);
}
