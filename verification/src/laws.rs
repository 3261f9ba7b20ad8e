use vstd::prelude::*;

use crate::encode::{spec_encode, spec_encode_fields, spec_field_tokens, SpecEncoded};
use crate::error::Error;
use crate::spec_to_vec;
use crate::to_vec_post;
use crate::tokens::token_views;
use crate::value::{contains_unsupported, fields_contain_unsupported, Field, Value};

verus! {

/// Declared order is preserved across flattening: a field list encodes
/// field by field, so the tokens of a concatenated field list are exactly
/// the tokens of the first part followed by the tokens of the second, and
/// the first rejected construct (in declared order) decides the error.
pub proof fn lemma_fields_concat(s1: Seq<Field>, s2: Seq<Field>)
    ensures
        (match spec_encode_fields(s1) {
            Err(kind) => spec_encode_fields(s1 + s2) == Err::<Seq<Seq<char>>, Seq<char>>(kind),
            Ok(t1) => (match spec_encode_fields(s2) {
                Err(kind) => spec_encode_fields(s1 + s2) == Err::<Seq<Seq<char>>, Seq<char>>(kind),
                Ok(t2) => spec_encode_fields(s1 + s2) == Ok::<Seq<Seq<char>>, Seq<char>>(t1 + t2),
            }),
        }),
    decreases s1.len(),
{
    if s1.len() == 0 {
        assert(s1 + s2 =~= s2);
        match spec_encode_fields(s2) {
            Ok(t2) => {
                assert(Seq::<Seq<char>>::empty() + t2 =~= t2);
            },
            Err(_) => {},
        }
    } else {
        assert((s1 + s2)[0] == s1[0]);
        assert((s1 + s2).drop_first() =~= s1.drop_first() + s2);
        lemma_fields_concat(s1.drop_first(), s2);
        match spec_encode(s1[0].value) {
            Err(_) => {},
            Ok(e) => {
                match (spec_encode_fields(s1.drop_first()), spec_encode_fields(s2)) {
                    (Ok(rest), Ok(t2)) => {
                        assert(spec_field_tokens(s1[0].name@, e) + (rest + t2) =~= (
                        spec_field_tokens(s1[0].name@, e) + rest) + t2);
                    },
                    _ => {},
                }
            },
        }
    }
}

/// Appending one more field appends exactly that field's tokens, and a
/// rejected construct in it turns the whole encoding into its error.
pub proof fn lemma_fields_snoc(s: Seq<Field>, f: Field)
    ensures
        (match spec_encode_fields(s) {
            Err(kind) => spec_encode_fields(s.push(f)) == Err::<Seq<Seq<char>>, Seq<char>>(kind),
            Ok(tokens) => (match spec_encode(f.value) {
                Err(kind) => spec_encode_fields(s.push(f)) == Err::<Seq<Seq<char>>, Seq<char>>(
                    kind,
                ),
                Ok(e) => spec_encode_fields(s.push(f)) == Ok::<Seq<Seq<char>>, Seq<char>>(
                    tokens + spec_field_tokens(f.name@, e),
                ),
            }),
        }),
{
    let single = seq![f];
    lemma_fields_concat(s, single);
    assert(s.push(f) =~= s + single);
    assert(single.drop_first() =~= Seq::<Field>::empty());
    assert(single[0] == f);
    assert(spec_encode_fields(Seq::<Field>::empty()) == Ok::<Seq<Seq<char>>, Seq<char>>(
        Seq::<Seq<char>>::empty(),
    ));
    match spec_encode(f.value) {
        Err(_) => {},
        Ok(e) => {
            assert(spec_encode_fields(single) == Ok::<Seq<Seq<char>>, Seq<char>>(
                spec_field_tokens(f.name@, e) + Seq::<Seq<char>>::empty(),
            ));
            assert(spec_field_tokens(f.name@, e) + Seq::<Seq<char>>::empty() =~= spec_field_tokens(
                f.name@,
                e,
            ));
        },
    }
}

/// Encoding is deterministic: the contract of [`crate::to_vec`] pins its
/// observable result down, so any two results it allows for the same value
/// agree — same success or failure, same token characters, same rejected
/// kind. There is no hidden mutable state.
pub proof fn lemma_encode_deterministic(
    v: Value,
    r1: Result<Vec<String>, Error>,
    r2: Result<Vec<String>, Error>,
)
    requires
        to_vec_post(v, r1),
        to_vec_post(v, r2),
    ensures
        r1 is Ok <==> r2 is Ok,
        r1 matches Ok(a1) ==> r2 matches Ok(a2) ==> token_views(a1@) == token_views(a2@),
        r1 matches Err(Error::Unsupported(k1)) ==> r2 matches Err(Error::Unsupported(k2)) ==> k1@
            == k2@,
{
}

/// A value whose encoding succeeds holds no rejected construct.
proof fn lemma_value_unsupported_err(v: Value)
    requires
        contains_unsupported(v),
    ensures
        spec_encode(v) is Err,
    decreases v, 0nat,
{
    match v {
        Value::Present(inner) => {
            lemma_value_unsupported_err(*inner);
        },
        Value::Record(fields) => {
            lemma_fields_unsupported_err(fields@);
        },
        Value::StructVariant(_, fields) => {
            lemma_fields_unsupported_err(fields@);
        },
        _ => {},
    }
}

/// A field list whose encoding succeeds holds no rejected construct.
proof fn lemma_fields_unsupported_err(s: Seq<Field>)
    requires
        fields_contain_unsupported(s),
    ensures
        spec_encode_fields(s) is Err,
    decreases s, 1nat,
{
    if contains_unsupported(s[0].value) {
        lemma_value_unsupported_err(s[0].value);
    } else {
        lemma_fields_unsupported_err(s.drop_first());
    }
}

/// A rejected construct anywhere in the value — a byte buffer, sequence,
/// tuple, or map at any nesting depth — fails the whole encode call: the
/// result is an error, and an error carries no token list, so no partial
/// success is ever surfaced.
pub proof fn lemma_unsupported_rejected(v: Value)
    requires
        contains_unsupported(v),
    ensures
        spec_to_vec(v) is Err,
{
    match v {
        Value::Record(fields) => {
            lemma_fields_unsupported_err(fields@);
        },
        Value::StructVariant(_, fields) => {
            lemma_fields_unsupported_err(fields@);
        },
        _ => {},
    }
}

/// The top level must be a record or a struct-like union variant: a bare
/// scalar, optional, or unit union value at the top level fails.
pub proof fn lemma_top_level_must_be_record(v: Value)
    requires
        !(v matches Value::Record(_)),
        !(v matches Value::StructVariant(_, _)),
    ensures
        spec_to_vec(v) is Err,
{
}

} // verus!
