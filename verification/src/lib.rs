mod encode;
mod error;
mod laws;
mod tokens;
mod value;

pub use encode::Encoded;
pub use encode::StructSerializer;
pub use encode::ValueSerializer;
pub use error::Error;
pub use value::Field;
pub use value::Value;

use encode::encode_value;
use encode::spec_encode_fields;
use tokens::token_views;

use vstd::prelude::*;

verus! {

/// The kind name under which a value is rejected when it stands at the top
/// level: the top level must be a record or a struct-like union variant.
pub open spec fn spec_top_kind(v: Value) -> Seq<char> {
    match v {
        Value::Bool(_) => "bool"@,
        Value::Int(_) => "i64"@,
        Value::Uint(_) => "u64"@,
        Value::Char(_) => "char"@,
        Value::Text(_) => "str"@,
        Value::Absent => "option"@,
        Value::Present(_) => "option"@,
        Value::Record(_) => Seq::empty(),
        Value::UnitVariant(_) => "unit variant"@,
        Value::StructVariant(_, _) => Seq::empty(),
        Value::Unsupported(kind) => kind@,
    }
}

/// The token list a top-level encode call yields: a record's fields
/// flattened in declared order, a struct-like variant's name followed by
/// its flattened fields, and an error for every other shape.
pub open spec fn spec_to_vec(v: Value) -> Result<Seq<Seq<char>>, Seq<char>> {
    match v {
        Value::Record(fields) => spec_encode_fields(fields@),
        Value::StructVariant(name, fields) => match spec_encode_fields(fields@) {
            Ok(tokens) => Ok(seq![name@] + tokens),
            Err(kind) => Err(kind),
        },
        _ => Err(spec_top_kind(v)),
    }
}

/// Everything [`to_vec`] promises of its result: the complete token list on
/// success, and on failure the `Unsupported` error naming the rejected
/// kind, with no tokens surfaced.
pub open spec fn to_vec_post(v: Value, r: Result<Vec<String>, Error>) -> bool {
    match spec_to_vec(v) {
        Ok(tokens) => r matches Ok(args) && token_views(args@) == tokens,
        Err(kind) => r matches Err(Error::Unsupported(k)) && k@ == kind,
    }
}

/// Encodes a top-level value into its ordered command-line token list.
///
/// The value must be a record (or a struct-like union variant, which
/// flattens the same way); every other shape is rejected. On an error no
/// partial token list is returned.
pub fn to_vec(value: &Value) -> (r: Result<Vec<String>, Error>)
    ensures
        to_vec_post(*value, r),
{
    match value {
        Value::Record(_) | Value::StructVariant(_, _) => {
            let mut serializer = StructSerializer::default();
            match encode_value(value, &mut serializer.args) {
                Ok(_) => {
                    proof {
                        assert(token_views(Seq::<String>::empty()) =~= Seq::<Seq<char>>::empty());
                        match spec_to_vec(*value) {
                            Ok(tokens) => {
                                assert(Seq::<Seq<char>>::empty() + tokens =~= tokens);
                            },
                            Err(_) => {},
                        }
                    }
                    Ok(serializer.end())
                },
                Err(e) => Err(e),
            }
        },
        Value::Bool(_) => Err(Error::Unsupported("bool")),
        Value::Int(_) => Err(Error::Unsupported("i64")),
        Value::Uint(_) => Err(Error::Unsupported("u64")),
        Value::Char(_) => Err(Error::Unsupported("char")),
        Value::Text(_) => Err(Error::Unsupported("str")),
        Value::Absent => Err(Error::Unsupported("option")),
        Value::Present(_) => Err(Error::Unsupported("option")),
        Value::UnitVariant(_) => Err(Error::Unsupported("unit variant")),
        Value::Unsupported(kind) => Err(Error::Unsupported(*kind)),
    }
}

} // verus!
