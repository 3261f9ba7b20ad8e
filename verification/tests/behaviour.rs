use serde_command_line::to_vec;
use serde_command_line::Encoded;
use serde_command_line::Error;
use serde_command_line::Field;
use serde_command_line::StructSerializer;
use serde_command_line::Value;
use serde_command_line::ValueSerializer;

fn field(name: &str, value: Value) -> Field {
    Field { name: name.to_string(), value }
}

#[test]
fn nested_record_flattens_in_order() {
    let value = Value::Record(vec![
        field(
            "inner",
            Value::Record(vec![field("x", Value::Uint(1)), field("y", Value::Uint(2))]),
        ),
        field("b", Value::Bool(true)),
    ]);
    assert_eq!(
        to_vec(&value).unwrap(),
        vec!["--x=1".to_string(), "--y=2".to_string(), "--b".to_string()]
    );
}

#[test]
fn encoding_twice_gives_identical_output() {
    let value = Value::Record(vec![
        field("path", Value::Text(String::from("a/b"))),
        field("n", Value::Int(-3)),
        field("flag", Value::Bool(true)),
    ]);
    let first = to_vec(&value).unwrap();
    let second = to_vec(&value).unwrap();
    assert_eq!(first, second);
}

#[test]
fn empty_record_gives_no_tokens() {
    let value = Value::Record(vec![]);
    let expected: Vec<String> = vec![];
    assert_eq!(to_vec(&value).unwrap(), expected);
}

#[test]
fn negative_and_extreme_integers() {
    let value = Value::Record(vec![
        field("n", Value::Int(-7)),
        field("min", Value::Int(i64::MIN)),
        field("max", Value::Uint(u64::MAX)),
        field("zero", Value::Uint(0)),
    ]);
    assert_eq!(
        to_vec(&value).unwrap(),
        vec![
            "--n=-7".to_string(),
            "--min=-9223372036854775808".to_string(),
            "--max=18446744073709551615".to_string(),
            "--zero=0".to_string(),
        ]
    );
}

#[test]
fn char_field() {
    let value = Value::Record(vec![field("c", Value::Char('x'))]);
    assert_eq!(to_vec(&value).unwrap(), vec!["--c=x".to_string()]);
}

#[test]
fn struct_variant_at_top_level_flattens() {
    let value = Value::StructVariant(String::from("Run"), vec![field("time", Value::Int(2))]);
    assert_eq!(to_vec(&value).unwrap(), vec!["Run".to_string(), "--time=2".to_string()]);
}

#[test]
fn unsupported_field_rejects_whole_value() {
    let value = Value::Record(vec![
        field("a", Value::Uint(1)),
        field("data", Value::Unsupported("bytes")),
    ]);
    assert_eq!(to_vec(&value).unwrap_err(), Error::Unsupported("bytes"));
}

#[test]
fn unsupported_deeply_nested_rejects() {
    let value = Value::Record(vec![field(
        "outer",
        Value::Record(vec![field(
            "inner",
            Value::Present(Box::new(Value::Unsupported("seq"))),
        )]),
    )]);
    assert_eq!(to_vec(&value).unwrap_err(), Error::Unsupported("seq"));
}

#[test]
fn first_unsupported_field_decides_the_error() {
    let value = Value::Record(vec![
        field("a", Value::Unsupported("map")),
        field("b", Value::Unsupported("tuple")),
    ]);
    assert_eq!(to_vec(&value).unwrap_err(), Error::Unsupported("map"));
}

#[test]
fn bare_scalar_at_top_level_fails() {
    assert_eq!(to_vec(&Value::Bool(true)).unwrap_err(), Error::Unsupported("bool"));
    assert_eq!(to_vec(&Value::Int(3)).unwrap_err(), Error::Unsupported("i64"));
    assert_eq!(to_vec(&Value::Uint(3)).unwrap_err(), Error::Unsupported("u64"));
    assert_eq!(to_vec(&Value::Char('c')).unwrap_err(), Error::Unsupported("char"));
    assert_eq!(
        to_vec(&Value::Text(String::from("s"))).unwrap_err(),
        Error::Unsupported("str")
    );
}

#[test]
fn bare_optional_or_unit_variant_at_top_level_fails() {
    assert_eq!(to_vec(&Value::Absent).unwrap_err(), Error::Unsupported("option"));
    assert_eq!(
        to_vec(&Value::Present(Box::new(Value::Bool(true)))).unwrap_err(),
        Error::Unsupported("option")
    );
    assert_eq!(
        to_vec(&Value::UnitVariant(String::from("A"))).unwrap_err(),
        Error::Unsupported("unit variant")
    );
    assert_eq!(
        to_vec(&Value::Unsupported("unit")).unwrap_err(),
        Error::Unsupported("unit")
    );
}

#[test]
fn scalar_table_accepted_kinds() {
    assert_eq!(ValueSerializer::serialize_bool(true).unwrap(), Encoded::Flag);
    assert_eq!(ValueSerializer::serialize_bool(false).unwrap(), Encoded::Absent);
    assert_eq!(
        ValueSerializer::serialize_i8(-5).unwrap(),
        Encoded::Text("-5".to_string())
    );
    assert_eq!(
        ValueSerializer::serialize_i16(-300).unwrap(),
        Encoded::Text("-300".to_string())
    );
    assert_eq!(
        ValueSerializer::serialize_i32(70000).unwrap(),
        Encoded::Text("70000".to_string())
    );
    assert_eq!(
        ValueSerializer::serialize_i64(-9).unwrap(),
        Encoded::Text("-9".to_string())
    );
    assert_eq!(ValueSerializer::serialize_u8(200).unwrap(), Encoded::Text("200".to_string()));
    assert_eq!(
        ValueSerializer::serialize_u16(60000).unwrap(),
        Encoded::Text("60000".to_string())
    );
    assert_eq!(
        ValueSerializer::serialize_u32(4000000000).unwrap(),
        Encoded::Text("4000000000".to_string())
    );
    assert_eq!(ValueSerializer::serialize_u64(42).unwrap(), Encoded::Text("42".to_string()));
    assert_eq!(ValueSerializer::serialize_char('z').unwrap(), Encoded::Text("z".to_string()));
    assert_eq!(
        ValueSerializer::serialize_str("a/b").unwrap(),
        Encoded::Text("a/b".to_string())
    );
    assert_eq!(ValueSerializer::serialize_none().unwrap(), Encoded::Absent);
    assert_eq!(
        ValueSerializer::serialize_unit_variant("B").unwrap(),
        Encoded::Text("B".to_string())
    );
    assert_eq!(
        ValueSerializer::serialize_value("ready".to_string()).unwrap(),
        Encoded::Text("ready".to_string())
    );
}

#[test]
fn scalar_table_rejected_kinds() {
    assert_eq!(ValueSerializer::serialize_bytes().unwrap_err(), Error::Unsupported("bytes"));
    assert_eq!(ValueSerializer::serialize_unit().unwrap_err(), Error::Unsupported("unit"));
    assert_eq!(
        ValueSerializer::serialize_unit_struct().unwrap_err(),
        Error::Unsupported("unit struct")
    );
    assert_eq!(
        ValueSerializer::serialize_newtype_struct().unwrap_err(),
        Error::Unsupported("newtype struct")
    );
    assert_eq!(
        ValueSerializer::serialize_newtype_variant().unwrap_err(),
        Error::Unsupported("newtype variant")
    );
    assert_eq!(ValueSerializer::serialize_seq().unwrap_err(), Error::Unsupported("seq"));
    assert_eq!(ValueSerializer::serialize_tuple().unwrap_err(), Error::Unsupported("tuple"));
    assert_eq!(
        ValueSerializer::serialize_tuple_struct().unwrap_err(),
        Error::Unsupported("tuple struct")
    );
    assert_eq!(
        ValueSerializer::serialize_tuple_variant().unwrap_err(),
        Error::Unsupported("tuple variant")
    );
    assert_eq!(ValueSerializer::serialize_map().unwrap_err(), Error::Unsupported("map"));
}

#[test]
fn struct_serializer_appends_field_tokens() {
    let mut serializer = StructSerializer::default();
    serializer.serialize_field("a", &Value::Uint(1)).unwrap();
    serializer.serialize_field("gone", &Value::Bool(false)).unwrap();
    serializer.serialize_field("b", &Value::Bool(true)).unwrap();
    assert_eq!(serializer.end(), vec!["--a=1".to_string(), "--b".to_string()]);
}

#[test]
fn error_descriptions() {
    assert_eq!(Error::Message("boom".to_string()).describe(), "boom");
    assert_eq!(
        Error::Unsupported("bytes").describe(),
        "Unsupported type: bytes"
    );
}
