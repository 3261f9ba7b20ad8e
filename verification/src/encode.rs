use vstd::prelude::*;

use crate::error::Error;
use crate::laws::{lemma_fields_concat, lemma_fields_snoc};
use crate::tokens::{
    char_string, dec_of_int, dec_of_nat, flag_token, i64_string, kv_token, lemma_token_views_push,
    spec_flag_token, spec_kv_token, token_views, u64_string,
};
use crate::value::{Field, Value};

verus! {

/// The result of encoding one value, consumed by whatever held the value.
///
/// `Flag` is a "present, no payload" signal; `Absent` contributes nothing;
/// `Text` is a fully formatted textual payload; `Flattened` means the value
/// already pushed its complete tokens directly into the shared token list,
/// so the consumer must not emit anything further for it.
#[derive(Debug, PartialEq)]
pub enum Encoded {
    Flag,
    Absent,
    Text(String),
    Flattened,
}

/// The specification-level counterpart of [`Encoded`]: `Text` carries the
/// payload's characters, `Flattened` carries the tokens the value appended.
pub ghost enum SpecEncoded {
    Flag,
    Absent,
    Text(Seq<char>),
    Flattened(Seq<Seq<char>>),
}

/// What encoding a single value yields: its result as seen by the consumer,
/// or the kind name of a rejected construct.
pub open spec fn spec_encode(v: Value) -> Result<SpecEncoded, Seq<char>>
    decreases v,
{
    match v {
        Value::Bool(b) => Ok(
            if b {
                SpecEncoded::Flag
            } else {
                SpecEncoded::Absent
            },
        ),
        Value::Int(n) => Ok(SpecEncoded::Text(dec_of_int(n as int))),
        Value::Uint(n) => Ok(SpecEncoded::Text(dec_of_nat(n as nat))),
        Value::Char(c) => Ok(SpecEncoded::Text(seq![c])),
        Value::Text(s) => Ok(SpecEncoded::Text(s@)),
        Value::Absent => Ok(SpecEncoded::Absent),
        Value::Present(inner) => spec_encode(*inner),
        Value::Record(fields) => match spec_encode_fields(fields@) {
            Ok(tokens) => Ok(SpecEncoded::Flattened(tokens)),
            Err(kind) => Err(kind),
        },
        Value::UnitVariant(name) => Ok(SpecEncoded::Text(name@)),
        Value::StructVariant(name, fields) => match spec_encode_fields(fields@) {
            Ok(tokens) => Ok(SpecEncoded::Flattened(seq![name@] + tokens)),
            Err(kind) => Err(kind),
        },
        Value::Unsupported(kind) => Err(kind@),
    }
}

/// The tokens a field named `name` contributes, given its value's encoding:
/// a flag token for `Flag`, nothing for `Absent`, one `--name=value` token
/// for `Text`, and, for `Flattened`, exactly the tokens the value itself
/// appended.
pub open spec fn spec_field_tokens(name: Seq<char>, e: SpecEncoded) -> Seq<Seq<char>> {
    match e {
        SpecEncoded::Flag => seq![spec_flag_token(name)],
        SpecEncoded::Absent => Seq::empty(),
        SpecEncoded::Text(value) => seq![spec_kv_token(name, value)],
        SpecEncoded::Flattened(tokens) => tokens,
    }
}

/// The tokens a field list contributes, field by field in declared order,
/// or the kind name of the first rejected construct.
pub open spec fn spec_encode_fields(fields: Seq<Field>) -> Result<Seq<Seq<char>>, Seq<char>>
    decreases fields,
{
    if fields.len() == 0 {
        Ok(Seq::empty())
    } else {
        match spec_encode(fields[0].value) {
            Err(kind) => Err(kind),
            Ok(e) => match spec_encode_fields(fields.drop_first()) {
                Err(kind) => Err(kind),
                Ok(rest) => Ok(spec_field_tokens(fields[0].name@, e) + rest),
            },
        }
    }
}

/// Whether an executable encoding result carries the specified one.
pub open spec fn encoded_matches(x: Encoded, e: SpecEncoded) -> bool {
    match e {
        SpecEncoded::Flag => x is Flag,
        SpecEncoded::Absent => x is Absent,
        SpecEncoded::Text(value) => x matches Encoded::Text(s) && s@ == value,
        SpecEncoded::Flattened(_) => x is Flattened,
    }
}

/// The tokens a value pushed directly into the shared list while being
/// encoded: none unless it flattened itself.
pub open spec fn spec_emitted(e: SpecEncoded) -> Seq<Seq<char>> {
    match e {
        SpecEncoded::Flattened(tokens) => tokens,
        _ => Seq::empty(),
    }
}

/// The tokens the consumer of a field appends itself, given the field's
/// name and its value's executable encoding result: nothing for `Absent`,
/// and nothing for `Flattened`, whose tokens the value already appended.
pub open spec fn spec_applied(name: Seq<char>, enc: Encoded) -> Seq<Seq<char>> {
    match enc {
        Encoded::Flag => seq![spec_flag_token(name)],
        Encoded::Absent => Seq::empty(),
        Encoded::Text(s) => seq![spec_kv_token(name, s@)],
        Encoded::Flattened => Seq::empty(),
    }
}

/// The token list of a successful field-list encoding; empty on an error.
pub open spec fn ok_tokens(r: Result<Seq<Seq<char>>, Seq<char>>) -> Seq<Seq<char>> {
    match r {
        Ok(tokens) => tokens,
        Err(_) => Seq::empty(),
    }
}

/// What the value emitted and what its consumer appends together make up
/// exactly the field's tokens.
proof fn lemma_field_step(name: Seq<char>, enc: Encoded, e: SpecEncoded)
    requires
        encoded_matches(enc, e),
    ensures
        spec_emitted(e) + spec_applied(name, enc) == spec_field_tokens(name, e),
{
    match e {
        SpecEncoded::Flag => {
            assert(spec_emitted(e) + spec_applied(name, enc) =~= spec_field_tokens(name, e));
        },
        SpecEncoded::Absent => {
            assert(spec_emitted(e) + spec_applied(name, enc) =~= spec_field_tokens(name, e));
        },
        SpecEncoded::Text(_) => {
            assert(spec_emitted(e) + spec_applied(name, enc) =~= spec_field_tokens(name, e));
        },
        SpecEncoded::Flattened(_) => {
            assert(spec_emitted(e) + spec_applied(name, enc) =~= spec_field_tokens(name, e));
        },
    }
}

/// Consumes a field value's encoding result: appends the `--name` or
/// `--name=value` token it calls for, and nothing for `Absent` or
/// `Flattened`.
fn apply_field(args: &mut Vec<String>, name: &str, enc: &Encoded)
    ensures
        token_views(final(args)@) == token_views(old(args)@) + spec_applied(name@, *enc),
{
    match enc {
        Encoded::Flag => {
            let t = flag_token(name);
            proof {
                lemma_token_views_push(args@, t);
            }
            args.push(t);
            proof {
                assert(token_views(args@) =~= token_views(old(args)@) + spec_applied(
                    name@,
                    *enc,
                ));
            }
        },
        Encoded::Absent => {
            proof {
                assert(token_views(args@) =~= token_views(args@) + Seq::<Seq<char>>::empty());
            }
        },
        Encoded::Text(s) => {
            let t = kv_token(name, s.as_str());
            proof {
                lemma_token_views_push(args@, t);
            }
            args.push(t);
            proof {
                assert(token_views(args@) =~= token_views(old(args)@) + spec_applied(
                    name@,
                    *enc,
                ));
            }
        },
        Encoded::Flattened => {
            proof {
                assert(token_views(args@) =~= token_views(args@) + Seq::<Seq<char>>::empty());
            }
        },
    }
}

/// Encodes one value, appending tokens to the shared list only where the
/// value flattens itself (a record or a struct-like variant).
pub fn encode_value(v: &Value, args: &mut Vec<String>) -> (r: Result<Encoded, Error>)
    ensures
        (match spec_encode(*v) {
            Ok(e) => r matches Ok(enc) && encoded_matches(enc, e) && token_views(final(args)@)
                == token_views(old(args)@) + spec_emitted(e),
            Err(kind) => r matches Err(Error::Unsupported(k)) && k@ == kind,
        }),
    decreases *v, 0nat,
{
    let r = match v {
        Value::Bool(b) => ValueSerializer::serialize_bool(*b),
        Value::Int(n) => ValueSerializer::serialize_i64(*n),
        Value::Uint(n) => ValueSerializer::serialize_u64(*n),
        Value::Char(c) => ValueSerializer::serialize_char(*c),
        Value::Text(s) => ValueSerializer::serialize_str(s.as_str()),
        Value::Absent => ValueSerializer::serialize_none(),
        Value::Present(inner) => {
            return encode_value(&**inner, args);
        },
        Value::Record(fields) => {
            return (match encode_fields(fields, args) {
                Ok(()) => Ok(Encoded::Flattened),
                Err(e) => Err(e),
            });
        },
        Value::UnitVariant(name) => ValueSerializer::serialize_unit_variant(name.as_str()),
        Value::StructVariant(name, fields) => {
            let t = name.clone();
            proof {
                lemma_token_views_push(args@, t);
            }
            args.push(t);
            match encode_fields(fields, args) {
                Ok(()) => {
                    proof {
                        assert(token_views(args@) =~= token_views(old(args)@) + (seq![name@]
                            + ok_tokens(spec_encode_fields(fields@))));
                    }
                    return Ok(Encoded::Flattened);
                },
                Err(e) => {
                    return Err(e);
                },
            }
        },
        Value::Unsupported(kind) => Err(Error::Unsupported(*kind)),
    };
    proof {
        assert(token_views(args@) =~= token_views(args@) + Seq::<Seq<char>>::empty());
    }
    r
}

/// Encodes a field list in declared order into the shared token list.
fn encode_fields(fields: &Vec<Field>, args: &mut Vec<String>) -> (r: Result<(), Error>)
    ensures
        (match spec_encode_fields(fields@) {
            Ok(tokens) => r is Ok && token_views(final(args)@) == token_views(old(args)@)
                + tokens,
            Err(kind) => r matches Err(Error::Unsupported(k)) && k@ == kind,
        }),
    decreases *fields, 1nat,
{
    let ghost orig = args@;
    let mut i: usize = 0;
    while i < fields.len()
        invariant
            i <= fields@.len(),
            spec_encode_fields(fields@.subrange(0, i as int)) is Ok,
            token_views(args@) == token_views(orig) + ok_tokens(
                spec_encode_fields(fields@.subrange(0, i as int)),
            ),
            orig == old(args)@,
        decreases fields@.len() - i,
    {
        proof {
            assert(decreases_to!(*fields => fields@));
            assert(decreases_to!(fields@ => fields@[i as int]));
            assert(decreases_to!(fields@[i as int] => fields@[i as int].value));
        }
        match encode_value(&fields[i].value, args) {
            Err(e) => {
                proof {
                    let prefix = fields@.subrange(0, i as int);
                    let suffix = fields@.subrange(i as int, fields@.len() as int);
                    assert(fields@ =~= prefix + suffix);
                    assert(suffix[0] == fields@[i as int]);
                    lemma_fields_concat(prefix, suffix);
                }
                return Err(e);
            },
            Ok(enc) => {
                apply_field(args, fields[i].name.as_str(), &enc);
                proof {
                    let prefix = fields@.subrange(0, i as int);
                    let f = fields@[i as int];
                    let e = (match spec_encode(f.value) {
                        Ok(e) => e,
                        Err(_) => SpecEncoded::Absent,
                    });
                    lemma_field_step(f.name@, enc, e);
                    lemma_fields_snoc(prefix, f);
                    assert(fields@.subrange(0, i as int + 1) =~= prefix.push(f));
                    assert(token_views(args@) =~= token_views(orig) + ok_tokens(
                        spec_encode_fields(fields@.subrange(0, i as int + 1)),
                    ));
                }
                i += 1;
            },
        }
    }
    proof {
        assert(fields@.subrange(0, fields@.len() as int) =~= fields@);
    }
    Ok(())
}

/// Owns the shared token list for the duration of one top-level encode
/// call; fields are serialized into it in declared order.
pub struct StructSerializer {
    pub args: Vec<String>,
}

impl Default for StructSerializer {
    /// A serializer with an empty token list.
    fn default() -> (s: StructSerializer)
        ensures
            s.args@ == Seq::<String>::empty(),
    {
        StructSerializer { args: Vec::new() }
    }
}

impl StructSerializer {
    /// Encodes one named field and appends the tokens it contributes.
    pub fn serialize_field(&mut self, key: &str, value: &Value) -> (r: Result<(), Error>)
        ensures
            (match spec_encode(*value) {
                Ok(e) => r is Ok && token_views(final(self).args@) == token_views(old(self).args@)
                    + spec_field_tokens(key@, e),
                Err(kind) => r matches Err(Error::Unsupported(k)) && k@ == kind,
            }),
    {
        match encode_value(value, &mut self.args) {
            Err(e) => Err(e),
            Ok(enc) => {
                apply_field(&mut self.args, key, &enc);
                proof {
                    let e = (match spec_encode(*value) {
                        Ok(e) => e,
                        Err(_) => SpecEncoded::Absent,
                    });
                    lemma_field_step(key@, enc, e);
                    assert(token_views(self.args@) =~= token_views(old(self).args@)
                        + spec_field_tokens(key@, e));
                }
                Ok(())
            },
        }
    }

    /// Finishes the record and hands the token list back.
    pub fn end(self) -> (r: Vec<String>)
        ensures
            r == self.args,
    {
        self.args
    }
}

/// The per-scalar-kind encoding table: every scalar leaf maps to a `Flag`,
/// `Absent` or `Text` result, and every rejected kind to its `Unsupported`
/// error.
pub struct ValueSerializer;

impl ValueSerializer {
    /// Wraps an already rendered textual payload.
    pub fn serialize_value(value: String) -> (r: Result<Encoded, Error>)
        ensures
            r matches Ok(Encoded::Text(t)) && t@ == value@,
    {
        Ok(Encoded::Text(value))
    }

    /// `true` is a bare flag; `false` contributes nothing.
    pub fn serialize_bool(v: bool) -> (r: Result<Encoded, Error>)
        ensures
            r matches Ok(e) && encoded_matches(e, if v { SpecEncoded::Flag } else { SpecEncoded::Absent }),
    {
        match v {
            true => Ok(Encoded::Flag),
            false => Ok(Encoded::Absent),
        }
    }

    /// Widened to the signed 64-bit representation.
    pub fn serialize_i8(v: i8) -> (r: Result<Encoded, Error>)
        ensures
            r matches Ok(Encoded::Text(t)) && t@ == dec_of_int(v as int),
    {
        Self::serialize_i64(v as i64)
    }

    /// Widened to the signed 64-bit representation.
    pub fn serialize_i16(v: i16) -> (r: Result<Encoded, Error>)
        ensures
            r matches Ok(Encoded::Text(t)) && t@ == dec_of_int(v as int),
    {
        Self::serialize_i64(v as i64)
    }

    /// Widened to the signed 64-bit representation.
    pub fn serialize_i32(v: i32) -> (r: Result<Encoded, Error>)
        ensures
            r matches Ok(Encoded::Text(t)) && t@ == dec_of_int(v as int),
    {
        Self::serialize_i64(v as i64)
    }

    /// The decimal rendering of the signed value.
    pub fn serialize_i64(v: i64) -> (r: Result<Encoded, Error>)
        ensures
            r matches Ok(Encoded::Text(t)) && t@ == dec_of_int(v as int),
    {
        Self::serialize_value(i64_string(v))
    }

    /// Widened to the unsigned 64-bit representation.
    pub fn serialize_u8(v: u8) -> (r: Result<Encoded, Error>)
        ensures
            r matches Ok(Encoded::Text(t)) && t@ == dec_of_nat(v as nat),
    {
        Self::serialize_u64(v as u64)
    }

    /// Widened to the unsigned 64-bit representation.
    pub fn serialize_u16(v: u16) -> (r: Result<Encoded, Error>)
        ensures
            r matches Ok(Encoded::Text(t)) && t@ == dec_of_nat(v as nat),
    {
        Self::serialize_u64(v as u64)
    }

    /// Widened to the unsigned 64-bit representation.
    pub fn serialize_u32(v: u32) -> (r: Result<Encoded, Error>)
        ensures
            r matches Ok(Encoded::Text(t)) && t@ == dec_of_nat(v as nat),
    {
        Self::serialize_u64(v as u64)
    }

    /// The decimal rendering of the unsigned value.
    pub fn serialize_u64(v: u64) -> (r: Result<Encoded, Error>)
        ensures
            r matches Ok(Encoded::Text(t)) && t@ == dec_of_nat(v as nat),
    {
        Self::serialize_value(u64_string(v))
    }

    /// A single character is its own textual payload.
    pub fn serialize_char(v: char) -> (r: Result<Encoded, Error>)
        ensures
            r matches Ok(Encoded::Text(t)) && t@ == seq![v],
    {
        Self::serialize_value(char_string(v))
    }

    /// A string is its own textual payload.
    pub fn serialize_str(v: &str) -> (r: Result<Encoded, Error>)
        ensures
            r matches Ok(Encoded::Text(t)) && t@ == v@,
    {
        Self::serialize_value(String::from_str(v))
    }

    /// An empty optional contributes nothing.
    pub fn serialize_none() -> (r: Result<Encoded, Error>)
        ensures
            r matches Ok(e) && e is Absent,
    {
        Ok(Encoded::Absent)
    }

    /// A unit variant used as a value is its variant name.
    pub fn serialize_unit_variant(variant: &str) -> (r: Result<Encoded, Error>)
        ensures
            r matches Ok(Encoded::Text(t)) && t@ == variant@,
    {
        Self::serialize_value(String::from_str(variant))
    }

    /// Raw byte buffers are rejected.
    pub fn serialize_bytes() -> (r: Result<Encoded, Error>)
        ensures
            r matches Err(Error::Unsupported(k)) && k@ == "bytes"@,
    {
        Err(Error::Unsupported("bytes"))
    }

    /// The unit placeholder value is rejected.
    pub fn serialize_unit() -> (r: Result<Encoded, Error>)
        ensures
            r matches Err(Error::Unsupported(k)) && k@ == "unit"@,
    {
        Err(Error::Unsupported("unit"))
    }

    /// Unit-struct placeholders are rejected.
    pub fn serialize_unit_struct() -> (r: Result<Encoded, Error>)
        ensures
            r matches Err(Error::Unsupported(k)) && k@ == "unit struct"@,
    {
        Err(Error::Unsupported("unit struct"))
    }

    /// Single-field wrapper records are rejected.
    pub fn serialize_newtype_struct() -> (r: Result<Encoded, Error>)
        ensures
            r matches Err(Error::Unsupported(k)) && k@ == "newtype struct"@,
    {
        Err(Error::Unsupported("newtype struct"))
    }

    /// Single-field wrapper variants are rejected.
    pub fn serialize_newtype_variant() -> (r: Result<Encoded, Error>)
        ensures
            r matches Err(Error::Unsupported(k)) && k@ == "newtype variant"@,
    {
        Err(Error::Unsupported("newtype variant"))
    }

    /// Sequences are rejected.
    pub fn serialize_seq() -> (r: Result<Encoded, Error>)
        ensures
            r matches Err(Error::Unsupported(k)) && k@ == "seq"@,
    {
        Err(Error::Unsupported("seq"))
    }

    /// Tuples are rejected.
    pub fn serialize_tuple() -> (r: Result<Encoded, Error>)
        ensures
            r matches Err(Error::Unsupported(k)) && k@ == "tuple"@,
    {
        Err(Error::Unsupported("tuple"))
    }

    /// Tuple-like records are rejected.
    pub fn serialize_tuple_struct() -> (r: Result<Encoded, Error>)
        ensures
            r matches Err(Error::Unsupported(k)) && k@ == "tuple struct"@,
    {
        Err(Error::Unsupported("tuple struct"))
    }

    /// Tuple-like variants are rejected.
    pub fn serialize_tuple_variant() -> (r: Result<Encoded, Error>)
        ensures
            r matches Err(Error::Unsupported(k)) && k@ == "tuple variant"@,
    {
        Err(Error::Unsupported("tuple variant"))
    }

    /// Maps are rejected.
    pub fn serialize_map() -> (r: Result<Encoded, Error>)
        ensures
            r matches Err(Error::Unsupported(k)) && k@ == "map"@,
    {
        Err(Error::Unsupported("map"))
    }
}

} // verus!
