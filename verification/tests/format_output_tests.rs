use langfuse_cli::formatters::format_output;
use langfuse_cli::types::OutputFormat;
use langfuse_cli::value::Value;

fn s(x: &str) -> Value {
    Value::Str(x.to_string())
}

fn n(x: &str) -> Value {
    Value::Num(x.to_string())
}

fn obj(pairs: Vec<(&str, Value)>) -> Value {
    Value::Obj(pairs.into_iter().map(|(k, v)| (k.to_string(), v)).collect())
}

#[test]
fn test_format_output_table() {
    let data = obj(vec![("id", s("1")), ("name", s("test"))]);
    let result = format_output(&data, OutputFormat::Table);

    assert!(result.contains("id"));
    assert!(result.contains("name"));
    assert!(result.contains("1"));
    assert!(result.contains("test"));
}

#[test]
fn test_format_output_json() {
    let data = obj(vec![("id", s("1")), ("name", s("test"))]);
    let result = format_output(&data, OutputFormat::Json);

    assert!(result.contains("\"id\": \"1\""));
    assert!(result.contains("\"name\": \"test\""));
}

#[test]
fn test_format_output_csv() {
    let data = obj(vec![("id", s("1")), ("name", s("test"))]);
    let result = format_output(&data, OutputFormat::Csv);

    assert!(result.contains("id"));
    assert!(result.contains("name"));
    assert!(result.contains("1"));
    assert!(result.contains("test"));
}

#[test]
fn test_format_output_markdown() {
    let data = obj(vec![("id", s("1")), ("name", s("test"))]);
    let result = format_output(&data, OutputFormat::Markdown);

    assert!(result.contains("|"));
    assert!(result.contains("---"));
    assert!(result.contains("id"));
    assert!(result.contains("name"));
}

#[test]
fn test_format_output_empty_data() {
    let data = Value::Arr(vec![]);

    let table = format_output(&data, OutputFormat::Table);
    let csv = format_output(&data, OutputFormat::Csv);
    let markdown = format_output(&data, OutputFormat::Markdown);
    let json = format_output(&data, OutputFormat::Json);

    assert_eq!(table, "No data to display");
    assert_eq!(csv, "No data to display");
    assert_eq!(markdown, "No data to display");
    assert_eq!(json, "[]");
}

#[test]
fn test_format_output_null_data() {
    let data = Value::Null;

    assert_eq!(format_output(&data, OutputFormat::Table), "No data to display");
    assert_eq!(format_output(&data, OutputFormat::Csv), "No data to display");
    assert_eq!(format_output(&data, OutputFormat::Markdown), "No data to display");
    assert_eq!(format_output(&data, OutputFormat::Json), "null");
}

#[test]
fn test_format_output_array() {
    let data = Value::Arr(vec![obj(vec![("id", s("1"))]), obj(vec![("id", s("2"))])]);

    let table = format_output(&data, OutputFormat::Table);
    let csv = format_output(&data, OutputFormat::Csv);
    let markdown = format_output(&data, OutputFormat::Markdown);
    let json = format_output(&data, OutputFormat::Json);

    assert!(table.contains("1") && table.contains("2"));
    assert!(csv.contains("1") && csv.contains("2"));
    assert!(markdown.contains("1") && markdown.contains("2"));
    assert!(json.contains("1") && json.contains("2"));
}

#[test]
fn test_format_output_complex_data() {
    let data = obj(vec![
        ("id", s("trace-123")),
        ("name", s("test-trace")),
        ("metadata", obj(vec![("key", s("value"))])),
        ("tags", Value::Arr(vec![s("tag1"), s("tag2")])),
        ("count", n("42")),
        ("active", Value::Bool(true)),
    ]);

    assert!(!format_output(&data, OutputFormat::Table).is_empty());
    assert!(!format_output(&data, OutputFormat::Json).is_empty());
    assert!(!format_output(&data, OutputFormat::Csv).is_empty());
    assert!(!format_output(&data, OutputFormat::Markdown).is_empty());
}

#[test]
fn test_column_order_is_lexical_across_records() {
    // Keys spread over two records with differing field order still give
    // one sorted column list.
    let data = Value::Arr(vec![obj(vec![("b", n("1"))]), obj(vec![("a", n("2"))])]);
    let csv = format_output(&data, OutputFormat::Csv);
    let lines: Vec<&str> = csv.lines().collect();
    assert_eq!(lines[0], "a,b");
    assert_eq!(lines[1], ",1");
    assert_eq!(lines[2], "2,");
}

#[test]
fn test_table_truncates_but_csv_and_markdown_do_not() {
    let long: String = "y".repeat(60);
    let data = obj(vec![("payload", Value::Arr(vec![Value::Str(long.clone())]))]);
    // compact JSON of the cell is ["yyy...yyy"] with 64 characters
    let table = format_output(&data, OutputFormat::Table);
    let csv = format_output(&data, OutputFormat::Csv);
    let markdown = format_output(&data, OutputFormat::Markdown);

    assert!(table.contains("..."));
    assert!(!table.contains(&long));
    assert!(csv.contains(&long));
    assert!(markdown.contains(&long));
}

#[test]
fn test_scalar_string_renders_natively() {
    // A top-level string is rendered as its native text by the tabular
    // formats, without JSON quoting; the JSON format keeps the quotes.
    let data = s("hello");
    assert_eq!(format_output(&data, OutputFormat::Table), "hello");
    assert_eq!(format_output(&data, OutputFormat::Csv), "hello");
    assert_eq!(format_output(&data, OutputFormat::Markdown), "hello");
    assert_eq!(format_output(&data, OutputFormat::Json), "\"hello\"");
}

#[test]
fn test_scalar_number_and_boolean_render() {
    assert_eq!(format_output(&n("42"), OutputFormat::Table), "42");
    assert_eq!(format_output(&n("42"), OutputFormat::Csv), "42");
    assert_eq!(format_output(&Value::Bool(true), OutputFormat::Markdown), "true");
}
