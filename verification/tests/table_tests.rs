use langfuse_cli::formatters::table::TableFormatter;
use langfuse_cli::value::Value;

fn s(x: &str) -> Value {
    Value::Str(x.to_string())
}

fn n(x: &str) -> Value {
    Value::Num(x.to_string())
}

fn obj(pairs: Vec<(&str, Value)>) -> Value {
    Value::Obj(pairs.into_iter().map(|(k, v)| (k.to_string(), v)).collect())
}

#[test]
fn table_test_format_empty_array() {
    let data = Value::Arr(vec![]);
    let result = TableFormatter::format(&data);
    assert_eq!(result, "No data to display");
}

#[test]
fn table_test_format_null() {
    let data = Value::Null;
    let result = TableFormatter::format(&data);
    assert_eq!(result, "No data to display");
}

#[test]
fn table_test_format_single_object() {
    let data = obj(vec![("id", s("123")), ("name", s("test"))]);
    let result = TableFormatter::format(&data);

    assert!(result.contains("id"));
    assert!(result.contains("name"));
    assert!(result.contains("123"));
    assert!(result.contains("test"));
}

#[test]
fn table_test_format_array_of_objects() {
    let data = Value::Arr(vec![
        obj(vec![("id", s("1")), ("status", s("active"))]),
        obj(vec![("id", s("2")), ("status", s("inactive"))]),
    ]);
    let result = TableFormatter::format(&data);

    assert!(result.contains("id"));
    assert!(result.contains("status"));
    assert!(result.contains("1"));
    assert!(result.contains("2"));
    assert!(result.contains("active"));
    assert!(result.contains("inactive"));
}

#[test]
fn table_test_format_primitive_value() {
    let data = s("simple string");
    let result = TableFormatter::format(&data);
    assert!(result.contains("simple string"));
}

#[test]
fn table_test_format_number() {
    let data = n("42");
    let result = TableFormatter::format(&data);
    assert!(result.contains("42"));
}

#[test]
fn table_test_format_boolean() {
    let data = Value::Bool(true);
    let result = TableFormatter::format(&data);
    assert!(result.contains("true"));
}

#[test]
fn table_test_format_value_none() {
    let result = TableFormatter::format_value(None);
    assert_eq!(result, "");
}

#[test]
fn table_test_format_value_null() {
    let result = TableFormatter::format_value(Some(&Value::Null));
    assert_eq!(result, "");
}

#[test]
fn table_test_format_value_string() {
    let value = s("hello");
    let result = TableFormatter::format_value(Some(&value));
    assert_eq!(result, "hello");
}

#[test]
fn table_test_format_value_number() {
    let value = n("123");
    let result = TableFormatter::format_value(Some(&value));
    assert_eq!(result, "123");

    let float_value = n("45.67");
    let result = TableFormatter::format_value(Some(&float_value));
    assert_eq!(result, "45.67");
}

#[test]
fn table_test_format_value_boolean() {
    let true_val = Value::Bool(true);
    assert_eq!(TableFormatter::format_value(Some(&true_val)), "true");

    let false_val = Value::Bool(false);
    assert_eq!(TableFormatter::format_value(Some(&false_val)), "false");
}

#[test]
fn test_format_value_array_short() {
    let value = Value::Arr(vec![n("1"), n("2"), n("3")]);
    let result = TableFormatter::format_value(Some(&value));
    assert_eq!(result, "[1,2,3]");
}

#[test]
fn test_format_value_array_long() {
    let value = Value::Arr(vec![
        s("this"),
        s("is"),
        s("a"),
        s("very"),
        s("long"),
        s("array"),
        s("that"),
        s("should"),
        s("be"),
        s("truncated"),
    ]);
    let result = TableFormatter::format_value(Some(&value));
    assert!(result.ends_with("..."));
    assert!(result.len() <= 53); // 50 + "..."
}

#[test]
fn test_format_value_object_short() {
    let value = obj(vec![("a", n("1"))]);
    let result = TableFormatter::format_value(Some(&value));
    assert_eq!(result, "{\"a\":1}");
}

#[test]
fn test_format_value_object_long() {
    let value = obj(vec![(
        "long_key_name",
        s("this is a very long value that should be truncated"),
    )]);
    let result = TableFormatter::format_value(Some(&value));
    assert!(result.ends_with("..."));
    assert!(result.len() <= 53); // 50 + "..."
}

#[test]
fn test_truncate_string_short() {
    let result = TableFormatter::truncate_string("short", 50);
    assert_eq!(result, "short");
}

#[test]
fn test_truncate_string_exact() {
    let s: String = "x".repeat(50);
    let result = TableFormatter::truncate_string(&s, 50);
    assert_eq!(result, s);
}

#[test]
fn test_truncate_string_long() {
    let s: String = "x".repeat(100);
    let result = TableFormatter::truncate_string(&s, 50);
    assert_eq!(result.len(), 53); // 50 + "..."
    assert!(result.ends_with("..."));
}

#[test]
fn test_format_objects_with_different_keys() {
    let data = Value::Arr(vec![
        obj(vec![("id", s("1")), ("name", s("Alice"))]),
        obj(vec![("id", s("2")), ("email", s("bob@test.com"))]),
    ]);
    let result = TableFormatter::format(&data);

    assert!(result.contains("id"));
    assert!(result.contains("name"));
    assert!(result.contains("email"));
}

#[test]
fn table_test_format_nested_object() {
    let data = obj(vec![("id", s("1")), ("metadata", obj(vec![("key", s("value"))]))]);
    let result = TableFormatter::format(&data);

    assert!(result.contains("id"));
    assert!(result.contains("metadata"));
    assert!(result.contains("1"));
}

#[test]
fn test_format_with_empty_strings() {
    let data = obj(vec![("id", s("")), ("name", s(""))]);
    let result = TableFormatter::format(&data);

    assert!(result.contains("id"));
    assert!(result.contains("name"));
}

#[test]
fn test_format_array_with_non_objects() {
    let data = Value::Arr(vec![s("string1"), s("string2")]);
    let result = TableFormatter::format(&data);
    // Non-objects can't be displayed as a table
    assert_eq!(result, "No data to display");
}

#[test]
fn table_test_format_special_characters() {
    let data = obj(vec![("message", s("Hello\nWorld\tTab"))]);
    let result = TableFormatter::format(&data);
    assert!(result.contains("message"));
}
