use vstd::prelude::*;

verus! {

/// One named field of a record or of a struct-like union variant.
pub struct Field {
    pub name: String,
    pub value: Value,
}

/// The closed set of shapes a value can describe itself as.
///
/// The structural-traversal layer that feeds the encoder reports every input
/// as one of these shapes: a scalar leaf, an optional, a record with named
/// fields in declaration order, a tagged-union variant, or a construct the
/// encoder rejects, carried with its kind name in `Unsupported`. Integer
/// widths are normalized to a single signed or unsigned 64-bit
/// representation before they reach the encoder.
pub enum Value {
    /// A boolean: `true` encodes as a bare flag, `false` contributes nothing.
    Bool(bool),
    /// Any signed integer width, widened to 64 bits.
    Int(i64),
    /// Any unsigned integer width, widened to 64 bits.
    Uint(u64),
    /// A single character.
    Char(char),
    /// A textual payload, already fully rendered.
    Text(String),
    /// An optional with no content.
    Absent,
    /// An optional holding a value; it encodes as the value itself would.
    Present(Box<Value>),
    /// A record: named fields in declaration order.
    Record(Vec<Field>),
    /// A unit variant of a tagged union: the variant name, no payload.
    UnitVariant(String),
    /// A struct-like variant of a tagged union: the variant name and its
    /// named fields in declaration order.
    StructVariant(String, Vec<Field>),
    /// A construct the encoder rejects (bytes, sequence, tuple, map, unit
    /// placeholder, ...), reported with its kind name.
    Unsupported(&'static str),
}

/// Whether a rejected construct occurs anywhere in the value.
pub open spec fn contains_unsupported(v: Value) -> bool
    decreases v,
{
    match v {
        Value::Present(inner) => contains_unsupported(*inner),
        Value::Record(fields) => fields_contain_unsupported(fields@),
        Value::StructVariant(_, fields) => fields_contain_unsupported(fields@),
        Value::Unsupported(_) => true,
        _ => false,
    }
}

/// Whether a rejected construct occurs anywhere under one of the fields.
pub open spec fn fields_contain_unsupported(fields: Seq<Field>) -> bool
    decreases fields,
{
    fields.len() > 0 && (contains_unsupported(fields[0].value)
        || fields_contain_unsupported(fields.drop_first()))
}

} // verus!
