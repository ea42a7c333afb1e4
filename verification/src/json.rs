//! The library's model of a parsed JSON document, and the one trusted
//! call that produces it. Everything read out of a response body after
//! parsing is verified code over this model.

use vstd::prelude::*;

verus! {

/// A JSON number: its `i64` reading, present exactly when the number is
/// an integer that fits in `i64`, and its decimal text.
#[derive(Debug)]
pub struct JsonNum {
    pub int_val: Option<i64>,
    pub text: String,
}

/// A parsed JSON document. Object members are listed with unique keys;
/// the parser collapses duplicate keys in the text before the model is
/// built.
#[derive(Debug)]
pub enum JsonValue {
    Null,
    Bool(bool),
    Num(JsonNum),
    Str(String),
    Arr(Vec<JsonValue>),
    Obj(Vec<(String, JsonValue)>),
}

/// The first member under `k` of a member list.
pub open spec fn member_in(fields: Seq<(String, JsonValue)>, k: Seq<char>) -> Option<JsonValue>
    decreases fields.len(),
{
    if fields.len() == 0 {
        None
    } else if fields[0].0@ == k {
        Some(fields[0].1)
    } else {
        member_in(fields.skip(1), k)
    }
}

/// The member of an object under `k`; `None` on a non-object or an
/// absent key.
pub open spec fn obj_member(v: JsonValue, k: Seq<char>) -> Option<JsonValue> {
    match v {
        JsonValue::Obj(fields) => member_in(fields@, k),
        _ => None,
    }
}

/// Looks a member up by key.
#[verifier::loop_isolation(false)]
pub fn get_member<'a>(v: &'a JsonValue, k: &str) -> (r: Option<&'a JsonValue>)
    ensures
        match r {
            Some(x) => obj_member(*v, k@) == Some(*x),
            None => obj_member(*v, k@) is None,
        },
{
    match v {
        JsonValue::Obj(fields) => {
            let key = String::from_str(k);
            let mut i: usize = 0;
            proof {
                assert(fields@.skip(0) =~= fields@);
            }
            while i < fields.len()
                invariant
                    i <= fields@.len(),
                    key@ == k@,
                    member_in(fields@.skip(i as int), k@) == member_in(fields@, k@),
                decreases fields@.len() - i,
            {
                proof {
                    assert(fields@.skip(i as int)[0] == fields@[i as int]);
                    assert(fields@.skip(i as int).skip(1) =~= fields@.skip(i + 1 as int));
                }
                let entry = &fields[i];
                if entry.0.eq(&key) {
                    proof {
                        assert(member_in(fields@.skip(i as int), k@) == Some(
                            fields@[i as int].1,
                        ));
                        assert(*v == JsonValue::Obj(*fields));
                    }
                    return Some(&entry.1);
                }
                i = i + 1;
            }
            assert(fields@.skip(fields@.len() as int) =~= Seq::<(String, JsonValue)>::empty());
            None
        },
        _ => None,
    }
}

/// Whether a value is a JSON object.
pub fn is_object(v: &JsonValue) -> (r: bool)
    ensures
        r == (*v is Obj),
{
    match v {
        JsonValue::Obj(_) => true,
        _ => false,
    }
}

/// Structural equality of two parsed values, comparing texts by their
/// content. This is as strong a claim as a deep copy supports: a copied
/// text is a new `String` with the same characters.
pub open spec fn json_eq(a: JsonValue, b: JsonValue) -> bool
    decreases a,
{
    match (a, b) {
        (JsonValue::Null, JsonValue::Null) => true,
        (JsonValue::Bool(x), JsonValue::Bool(y)) => x == y,
        (JsonValue::Num(m), JsonValue::Num(n)) => m.int_val == n.int_val && m.text@ == n.text@,
        (JsonValue::Str(s), JsonValue::Str(t)) => s@ == t@,
        (JsonValue::Arr(xs), JsonValue::Arr(ys)) => xs@.len() == ys@.len() && (forall|i: int|
            0 <= i < xs@.len() ==> json_eq(#[trigger] xs@[i], ys@[i])),
        (JsonValue::Obj(fs), JsonValue::Obj(gs)) => fs@.len() == gs@.len() && (forall|i: int|
            0 <= i < fs@.len() ==> fs@[i].0@ == gs@[i].0@ && json_eq(
                fs@[i].1,
                #[trigger] gs@[i].1,
            )),
        _ => false,
    }
}

/// A deep copy of a parsed value.
#[verifier::loop_isolation(false)]
pub fn clone_json(v: &JsonValue) -> (r: JsonValue)
    ensures
        json_eq(r, *v),
    decreases *v,
{
    match v {
        JsonValue::Null => JsonValue::Null,
        JsonValue::Bool(b) => JsonValue::Bool(*b),
        JsonValue::Num(n) => JsonValue::Num(
            JsonNum { int_val: n.int_val, text: n.text.clone() },
        ),
        JsonValue::Str(s) => JsonValue::Str(s.clone()),
        JsonValue::Arr(a) => {
            let mut out: Vec<JsonValue> = Vec::new();
            let mut i: usize = 0;
            while i < a.len()
                invariant
                    i <= a@.len(),
                    out@.len() == i,
                    *v is Arr,
                    forall|j: int| 0 <= j < i ==> json_eq(#[trigger] out@[j], a@[j]),
                decreases a@.len() - i,
            {
                proof {
                    assert(decreases_to!(*v => *a));
                    assert(decreases_to!(*a => a@[i as int]));
                }
                out.push(clone_json(&a[i]));
                i = i + 1;
            }
            let r = JsonValue::Arr(out);
            assert(json_eq(r, *v));
            r
        },
        JsonValue::Obj(fields) => {
            let mut out: Vec<(String, JsonValue)> = Vec::new();
            let mut i: usize = 0;
            while i < fields.len()
                invariant
                    i <= fields@.len(),
                    out@.len() == i,
                    *v is Obj,
                    forall|j: int|
                        #![trigger out@[j]]
                        0 <= j < i ==> out@[j].0@ == fields@[j].0@ && json_eq(
                            out@[j].1,
                            fields@[j].1,
                        ),
                decreases fields@.len() - i,
            {
                proof {
                    assert(decreases_to!(*v => *fields));
                    assert(decreases_to!(*fields => fields@[i as int]));
                }
                let entry = &fields[i];
                let kc = entry.0.clone();
                let vc = clone_json(&entry.1);
                proof {
                    assert(kc@ == fields@[i as int].0@);
                    assert(json_eq(vc, fields@[i as int].1));
                }
                let ghost prev_out = out@;
                out.push((kc, vc));
                proof {
                    assert forall|j: int|
                        #![trigger out@[j]]
                        0 <= j < i + 1 implies out@[j].0@ == fields@[j].0@ && json_eq(
                        out@[j].1,
                        fields@[j].1,
                    ) by {
                        if j < i {
                            assert(out@[j] == prev_out[j]);
                        } else {
                            assert(out@[j] == (kc, vc));
                        }
                    }
                }
                i = i + 1;
            }
            proof {
                assert(out@.len() == fields@.len());
            }
            let r = JsonValue::Obj(out);
            proof {
                assert(json_eq(r, *v));
            }
            r
        },
    }
}

/// The parsed JSON document of a text, `None` exactly when the text is
/// not well-formed JSON; a function of the text alone.
pub uninterp spec fn json_model_of(s: Seq<char>) -> Option<JsonValue>;

#[verifier::external_type_specification]
#[verifier::external_body]
pub struct ExValue(serde_json::Value);

/// Relies on `serde_json::Value`: one arm per variant, moving fields into
/// the model; a number keeps its `as_i64` reading and its decimal text.
#[verifier::external_body]
fn model_of_value(v: serde_json::Value) -> JsonValue {
    match v {
        serde_json::Value::Null => JsonValue::Null,
        serde_json::Value::Bool(b) => JsonValue::Bool(b),
        serde_json::Value::Number(n) => JsonValue::Num(
            JsonNum { int_val: n.as_i64(), text: n.to_string() },
        ),
        serde_json::Value::String(s) => JsonValue::Str(s),
        serde_json::Value::Array(a) => JsonValue::Arr(
            a.into_iter().map(model_of_value).collect(),
        ),
        serde_json::Value::Object(m) => JsonValue::Obj(
            m.into_iter().map(|(k, x)| (k, model_of_value(x))).collect(),
        ),
    }
}

/// Relies on `serde_json::from_str::<Value>`: parsing succeeds exactly on
/// well-formed JSON text and yields the text's document, a function of
/// the text alone.
#[verifier::external_body]
pub fn json_model(s: &str) -> (r: Option<JsonValue>)
    ensures
        r == json_model_of(s@),
{
    match serde_json::from_str::<serde_json::Value>(s) {
        Ok(v) => Some(model_of_value(v)),
        Err(_) => None,
    }
}

} // verus!
