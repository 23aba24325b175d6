use langfuse_cli::formatters::markdown::MarkdownFormatter;
use langfuse_cli::value::Value;

fn s(x: &str) -> Value {
    Value::Str(x.to_string())
}

fn n(x: &str) -> Value {
    Value::Num(x.to_string())
}

fn obj(pairs: Vec<(&str, Value)>) -> Value {
    Value::Obj(pairs.into_iter().map(|(k, v)| (k.to_string(), v)).collect())
}

#[test]
fn markdown_test_format_empty_array() {
    let data = Value::Arr(vec![]);
    let result = MarkdownFormatter::format(&data);
    assert_eq!(result, "No data to display");
}

#[test]
fn markdown_test_format_null() {
    let data = Value::Null;
    let result = MarkdownFormatter::format(&data);
    assert_eq!(result, "No data to display");
}

#[test]
fn markdown_test_format_single_object() {
    let data = obj(vec![("id", s("123")), ("name", s("test"))]);
    let result = MarkdownFormatter::format(&data);

    assert!(result.contains("| id |"));
    assert!(result.contains("| name |"));
    assert!(result.contains("| --- |"));
    assert!(result.contains("| 123 |"));
    assert!(result.contains("| test |"));
}

#[test]
fn markdown_test_format_array_of_objects() {
    let data = Value::Arr(vec![
        obj(vec![("id", s("1")), ("status", s("active"))]),
        obj(vec![("id", s("2")), ("status", s("inactive"))]),
    ]);
    let result = MarkdownFormatter::format(&data);

    let lines: Vec<&str> = result.lines().collect();
    assert_eq!(lines.len(), 4); // header + separator + 2 data rows

    assert!(lines[0].starts_with("|"));
    assert!(lines[0].ends_with("|"));

    assert!(lines[1].contains("---"));
}

#[test]
fn markdown_test_format_primitive_value() {
    let data = s("simple string");
    let result = MarkdownFormatter::format(&data);
    assert!(result.contains("simple string"));
}

#[test]
fn markdown_test_format_value_none() {
    let result = MarkdownFormatter::format_value(None);
    assert_eq!(result, "");
}

#[test]
fn markdown_test_format_value_null() {
    let result = MarkdownFormatter::format_value(Some(&Value::Null));
    assert_eq!(result, "");
}

#[test]
fn markdown_test_format_value_string() {
    let value = s("hello");
    let result = MarkdownFormatter::format_value(Some(&value));
    assert_eq!(result, "hello");
}

#[test]
fn markdown_test_format_value_number() {
    let value = n("123");
    let result = MarkdownFormatter::format_value(Some(&value));
    assert_eq!(result, "123");

    let float_value = n("45.67");
    let result = MarkdownFormatter::format_value(Some(&float_value));
    assert_eq!(result, "45.67");
}

#[test]
fn markdown_test_format_value_boolean() {
    let true_val = Value::Bool(true);
    assert_eq!(MarkdownFormatter::format_value(Some(&true_val)), "true");

    let false_val = Value::Bool(false);
    assert_eq!(MarkdownFormatter::format_value(Some(&false_val)), "false");
}

#[test]
fn markdown_test_format_value_array() {
    let value = Value::Arr(vec![n("1"), n("2"), n("3")]);
    let result = MarkdownFormatter::format_value(Some(&value));
    assert_eq!(result, "[1,2,3]");
}

#[test]
fn markdown_test_format_value_object() {
    let value = obj(vec![("a", n("1"))]);
    let result = MarkdownFormatter::format_value(Some(&value));
    assert_eq!(result, "{\"a\":1}");
}

#[test]
fn test_escape_pipes_no_pipes() {
    assert_eq!(MarkdownFormatter::escape_pipes("hello world"), "hello world");
}

#[test]
fn test_escape_pipes_single_pipe() {
    assert_eq!(MarkdownFormatter::escape_pipes("a|b"), "a\\|b");
}

#[test]
fn test_escape_pipes_multiple_pipes() {
    assert_eq!(MarkdownFormatter::escape_pipes("a|b|c|d"), "a\\|b\\|c\\|d");
}

#[test]
fn test_escape_pipes_only_pipe() {
    assert_eq!(MarkdownFormatter::escape_pipes("|"), "\\|");
}

#[test]
fn test_escape_pipes_empty() {
    assert_eq!(MarkdownFormatter::escape_pipes(""), "");
}

#[test]
fn test_markdown_table_structure() {
    let data = Value::Arr(vec![obj(vec![("col1", s("a")), ("col2", s("b"))])]);
    let result = MarkdownFormatter::format(&data);

    let lines: Vec<&str> = result.lines().collect();

    assert!(lines[0].starts_with("|"));
    assert!(lines[0].ends_with("|"));

    assert!(lines[1].starts_with("|"));
    assert!(lines[1].ends_with("|"));
    assert!(lines[1].contains("---"));

    assert!(lines[2].starts_with("|"));
    assert!(lines[2].ends_with("|"));
}

#[test]
fn test_markdown_column_count() {
    let data = Value::Arr(vec![obj(vec![("a", s("1")), ("b", s("2")), ("c", s("3"))])]);
    let result = MarkdownFormatter::format(&data);

    let lines: Vec<&str> = result.lines().collect();

    assert_eq!(lines[0].matches('|').count(), 4);
    assert_eq!(lines[1].matches('|').count(), 4);
    assert_eq!(lines[2].matches('|').count(), 4);
}

#[test]
fn test_markdown_objects_with_different_keys() {
    let data = Value::Arr(vec![
        obj(vec![("id", s("1")), ("name", s("Alice"))]),
        obj(vec![("id", s("2")), ("email", s("bob@test.com"))]),
    ]);
    let result = MarkdownFormatter::format(&data);

    assert!(result.contains("id"));
    assert!(result.contains("name"));
    assert!(result.contains("email"));
}

#[test]
fn test_markdown_value_with_pipe() {
    let data = obj(vec![("expression", s("a | b"))]);
    let result = MarkdownFormatter::format(&data);

    assert!(result.contains("a \\| b"));
}

#[test]
fn test_markdown_empty_values() {
    let data = obj(vec![("id", s("1")), ("name", Value::Null)]);
    let result = MarkdownFormatter::format(&data);

    let lines: Vec<&str> = result.lines().collect();
    assert_eq!(lines.len(), 3);
}

#[test]
fn test_markdown_unicode() {
    let data = obj(vec![("greeting", s("你好")), ("emoji", s("🎉"))]);
    let result = MarkdownFormatter::format(&data);

    assert!(result.contains("你好"));
    assert!(result.contains("🎉"));
}

#[test]
fn test_markdown_header_order() {
    let data = Value::Arr(vec![obj(vec![
        ("zebra", s("z")),
        ("alpha", s("a")),
        ("middle", s("m")),
    ])]);
    let result = MarkdownFormatter::format(&data);

    let lines: Vec<&str> = result.lines().collect();
    let header = lines[0];

    let alpha_pos = header.find("alpha").unwrap();
    let middle_pos = header.find("middle").unwrap();
    let zebra_pos = header.find("zebra").unwrap();

    assert!(alpha_pos < middle_pos);
    assert!(middle_pos < zebra_pos);
}

#[test]
fn test_markdown_nested_object() {
    let data = obj(vec![("id", s("1")), ("metadata", obj(vec![("key", s("value"))]))]);
    let result = MarkdownFormatter::format(&data);

    assert!(result.contains("id"));
    assert!(result.contains("metadata"));
}

#[test]
fn test_markdown_single_column() {
    let data = Value::Arr(vec![obj(vec![("only", s("one"))]), obj(vec![("only", s("two"))])]);
    let result = MarkdownFormatter::format(&data);

    let lines: Vec<&str> = result.lines().collect();
    assert_eq!(lines.len(), 4); // header + sep + 2 data
}

#[test]
fn test_markdown_special_characters() {
    let data = obj(vec![("code", s("`inline`")), ("bold", s("**text**"))]);
    let result = MarkdownFormatter::format(&data);

    assert!(result.contains("`inline`"));
    assert!(result.contains("**text**"));
}

#[test]
fn test_markdown_long_values() {
    let data = obj(vec![
        ("short", s("a")),
        ("long", s("This is a very long value that spans many characters")),
    ]);
    let result = MarkdownFormatter::format(&data);

    assert!(result.contains("This is a very long value"));
}
