use serde_command_line::to_vec;
use serde_command_line::Field;
use serde_command_line::Value;

fn field(name: &str, value: Value) -> Field {
    Field { name: name.to_string(), value }
}

fn encoded(value: &Value) -> Vec<String> {
    to_vec(value).unwrap()
}

#[test]
fn flag_true() {
    let value = Value::Record(vec![field("abc", Value::Bool(true))]);
    assert_eq!(encoded(&value), vec!["--abc".to_string()]);
}

#[test]
fn flag_false() {
    let value = Value::Record(vec![field("abc", Value::Bool(false))]);
    let expected: Vec<String> = vec![];
    assert_eq!(encoded(&value), expected);
}

#[test]
fn option_some() {
    let value = Value::Record(vec![field("foo", Value::Present(Box::new(Value::Uint(32))))]);
    assert_eq!(encoded(&value), vec!["--foo=32".to_string()]);
}

#[test]
fn option_none() {
    let value = Value::Record(vec![field("foo", Value::Absent)]);
    let expected: Vec<String> = vec![];
    assert_eq!(encoded(&value), expected);
}

#[test]
fn option_some_flag() {
    let value = Value::Record(vec![field("foo", Value::Present(Box::new(Value::Bool(true))))]);
    assert_eq!(encoded(&value), vec!["--foo".to_string()]);
}

#[test]
fn option_none_flag() {
    let value = Value::Record(vec![field("foo", Value::Absent)]);
    let expected: Vec<String> = vec![];
    assert_eq!(encoded(&value), expected);
}

#[test]
fn multiple() {
    let value = Value::Record(vec![
        field("a", Value::Uint(42)),
        field("b", Value::Text(String::from("test"))),
    ]);
    assert_eq!(encoded(&value), vec!["--a=42".to_string(), "--b=test".to_string()]);
}

#[test]
fn enum_unit() {
    let a = Value::Record(vec![field("b", Value::UnitVariant(String::from("A")))]);
    assert_eq!(encoded(&a), vec!["--b=A".to_string()]);
    let b = Value::Record(vec![field("b", Value::UnitVariant(String::from("B")))]);
    assert_eq!(encoded(&b), vec!["--b=B".to_string()]);
}

#[test]
fn subcommand_empty() {
    let value = Value::Record(vec![
        field("path", Value::Text(String::from("a/b"))),
        field("subcommand", Value::StructVariant(String::from("Load"), vec![])),
    ]);
    assert_eq!(encoded(&value), vec!["--path=a/b".to_string(), "Load".to_string()]);
}

#[test]
fn subcommand_field() {
    let value = Value::Record(vec![
        field("path", Value::Text(String::from("a/b"))),
        field(
            "subcommand",
            Value::StructVariant(String::from("Run"), vec![field("time", Value::Int(2))]),
        ),
    ]);
    assert_eq!(
        encoded(&value),
        vec!["--path=a/b".to_string(), "Run".to_string(), "--time=2".to_string()]
    );
}
