//! The library's model of one parsed JSON frame, and the trusted bridge
//! from frame text to it. Numbers that fit a signed 64-bit integer are kept
//! exactly; any other number is marked and never read by the decoders.

use vstd::prelude::*;

verus! {

broadcast use vstd::seq::group_seq_axioms;

/// One parsed JSON value.
#[derive(Debug)]
pub enum JsonValue {
    Null,
    Bool(bool),
    Int(i64),
    Str(String),
    Arr(Vec<JsonValue>),
    Obj(Vec<(String, JsonValue)>),
    /// A number outside the signed 64-bit range, or with a fraction.
    OtherNumber,
}

/// The value of the first field named `name`, if any.
pub open spec fn obj_get(fields: Seq<(String, JsonValue)>, name: Seq<char>) -> Option<JsonValue>
    decreases fields.len(),
{
    if fields.len() == 0 {
        None
    } else if fields[0].0@ == name {
        Some(fields[0].1)
    } else {
        obj_get(fields.drop_first(), name)
    }
}

/// What the frame text denotes as JSON, `None` when it is not well formed.
pub uninterp spec fn json_parse(text: Seq<char>) -> Option<JsonValue>;

/// The library model of one `serde_json` tree: a function of the tree alone.
pub uninterp spec fn value_model(v: serde_json::Value) -> JsonValue;

#[verifier::external_type_specification]
#[verifier::external_body]
pub struct ExJsonRaw(serde_json::Value);

/// Relies on serde_json::from_str::<serde_json::Value>: `Some` exactly on
/// well-formed JSON text, and the parse is a function of the text alone.
#[verifier::external_body]
fn parse_value(text: &str) -> (r: Option<serde_json::Value>)
    ensures
        r matches Some(v) ==> json_parse(text@) == Some(value_model(v)),
        r is None ==> json_parse(text@) is None,
{
    serde_json::from_str::<serde_json::Value>(text).ok()
}

/// Relies on serde_json::Value: rebuilds the parsed tree as the library's
/// own `JsonValue`, one arm per variant, fields carried over unchanged.
#[verifier::external_body]
fn to_model(v: &serde_json::Value) -> (r: JsonValue)
    ensures
        r == value_model(*v),
{
    match v {
        serde_json::Value::Null => JsonValue::Null,
        serde_json::Value::Bool(b) => JsonValue::Bool(*b),
        serde_json::Value::Number(n) => match n.as_i64() {
            Some(i) => JsonValue::Int(i),
            None => JsonValue::OtherNumber,
        },
        serde_json::Value::String(s) => JsonValue::Str(s.clone()),
        serde_json::Value::Array(items) => JsonValue::Arr(items.iter().map(to_model).collect()),
        serde_json::Value::Object(m) => JsonValue::Obj(
            m.iter().map(|(k, w)| (k.clone(), to_model(w))).collect(),
        ),
    }
}

/// Parses frame text into the library's JSON model; `None` exactly on text
/// that is not well-formed JSON.
pub fn parse_json(text: &str) -> (r: Option<JsonValue>)
    ensures
        r == json_parse(text@),
{
    match parse_value(text) {
        Some(v) => Some(to_model(&v)),
        None => None,
    }
}

/// The first matching field of an object, borrowed.
pub fn get_field<'a>(fields: &'a Vec<(String, JsonValue)>, name: &String) -> (r: Option<
    &'a JsonValue,
>)
    ensures
        match r {
            Some(j) => obj_get(fields@, name@) == Some(*j),
            None => obj_get(fields@, name@) is None,
        },
{
    let n = fields.len();
    let mut i: usize = 0;
    proof {
        assert(fields@.subrange(0, fields@.len() as int) =~= fields@);
    }
    while i < n
        invariant
            0 <= i <= n,
            n == fields@.len(),
            obj_get(fields@, name@) == obj_get(
                fields@.subrange(i as int, fields@.len() as int),
                name@,
            ),
        decreases n - i,
    {
        proof {
            let rest = fields@.subrange(i as int, fields@.len() as int);
            assert(rest[0] == fields@[i as int]);
            assert(rest.drop_first() =~= fields@.subrange(i + 1, fields@.len() as int));
        }
        if fields[i].0.eq(name) {
            proof {
                let rest = fields@.subrange(i as int, fields@.len() as int);
                assert(obj_get(rest, name@) == Some(rest[0].1));
            }
            return Some(&fields[i].1);
        }
        i = i + 1;
    }
    proof {
        assert(fields@.subrange(n as int, fields@.len() as int) =~= Seq::<(
            String,
            JsonValue,
        )>::empty());
    }
    None
}

/// The first matching field of an object, moved out of it.
pub fn take_field(fields: &mut Vec<(String, JsonValue)>, name: &String) -> (r: Option<JsonValue>)
    ensures
        match r {
            Some(j) => obj_get(old(fields)@, name@) == Some(j),
            None => obj_get(old(fields)@, name@) is None,
        },
{
    let n = fields.len();
    let mut i: usize = 0;
    proof {
        assert(fields@.subrange(0, fields@.len() as int) =~= fields@);
    }
    while i < n
        invariant
            0 <= i <= n,
            n == fields@.len(),
            fields@ == old(fields)@,
            obj_get(fields@, name@) == obj_get(
                fields@.subrange(i as int, fields@.len() as int),
                name@,
            ),
        decreases n - i,
    {
        proof {
            let rest = fields@.subrange(i as int, fields@.len() as int);
            assert(rest[0] == fields@[i as int]);
            assert(rest.drop_first() =~= fields@.subrange(i + 1, fields@.len() as int));
        }
        if fields[i].0.eq(name) {
            proof {
                let rest = fields@.subrange(i as int, fields@.len() as int);
                assert(obj_get(rest, name@) == Some(rest[0].1));
            }
            let pair = fields.remove(i);
            return Some(pair.1);
        }
        i = i + 1;
    }
    proof {
        assert(fields@.subrange(n as int, fields@.len() as int) =~= Seq::<(
            String,
            JsonValue,
        )>::empty());
    }
    None
}

} // verus!
