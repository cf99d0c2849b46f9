//! A plain model of JSON values, and the trusted bridge to `serde_json`.
//!
//! [`Json`] holds a parsed JSON document as plain data that verified code can
//! inspect. The bridge functions hand parsing and serializing to
//! `serde_json`; everything that interprets the tree is verified.

use vstd::prelude::*;
use vstd::string::StringExecFns;

verus! {

broadcast use vstd::std_specs::vec::group_vec_axioms, vstd::seq::group_seq_axioms;

/// A JSON value as plain data.
#[derive(Debug, PartialEq)]
pub enum Json {
    Null,
    Bool(bool),
    /// A number representable as a signed 64-bit integer.
    Int(i64),
    /// A number that `i64` cannot hold: a fraction, or an integer out of
    /// range. The renderer never reads such a number, so its value is not
    /// kept.
    OtherNum,
    Str(String),
    Arr(Vec<Json>),
    Obj(Vec<(String, Json)>),
}

/// The mathematical shape of a [`Json`] tree.
pub ghost enum JsonView {
    Null,
    Bool(bool),
    Int(int),
    OtherNum,
    Str(Seq<char>),
    Arr(Seq<JsonView>),
    Obj(Seq<(Seq<char>, JsonView)>),
}

/// The view of a [`Json`] tree, node by node.
pub open spec fn json_view(j: Json) -> JsonView
    decreases j,
{
    match j {
        Json::Null => JsonView::Null,
        Json::Bool(b) => JsonView::Bool(b),
        Json::Int(n) => JsonView::Int(n as int),
        Json::OtherNum => JsonView::OtherNum,
        Json::Str(s) => JsonView::Str(s@),
        Json::Arr(items) => JsonView::Arr(spec_items_view(items@)),
        Json::Obj(fields) => JsonView::Obj(spec_fields_view(fields@)),
    }
}

/// The views of an array's items, in order.
pub open spec fn spec_items_view(items: Seq<Json>) -> Seq<JsonView>
    decreases items,
{
    if items.len() == 0 {
        Seq::empty()
    } else {
        seq![json_view(items[0])] + spec_items_view(items.drop_first())
    }
}

/// The view of an object's field list: each name and value viewed in place.
pub open spec fn spec_fields_view(fields: Seq<(String, Json)>) -> Seq<(Seq<char>, JsonView)>
    decreases fields,
{
    if fields.len() == 0 {
        Seq::empty()
    } else {
        seq![(fields[0].0@, json_view(fields[0].1))] + spec_fields_view(fields.drop_first())
    }
}

impl View for Json {
    type V = JsonView;

    open spec fn view(&self) -> JsonView {
        json_view(*self)
    }
}

/// `spec_items_view` views each item in place.
pub proof fn lemma_items_view(items: Seq<Json>)
    ensures
        spec_items_view(items).len() == items.len(),
        forall|i: int| 0 <= i < items.len() ==> spec_items_view(items)[i] == json_view(items[i]),
    decreases items.len(),
{
    if items.len() > 0 {
        lemma_items_view(items.drop_first());
        assert forall|i: int|
            0 <= i < items.len() implies spec_items_view(items)[i] == json_view(items[i]) by {
            if i > 0 {
                assert(items.drop_first()[i - 1] == items[i]);
            }
        }
    }
}

/// `spec_fields_view` views each field in place.
pub proof fn lemma_fields_view(fields: Seq<(String, Json)>)
    ensures
        spec_fields_view(fields).len() == fields.len(),
        forall|i: int|
            0 <= i < fields.len() ==> spec_fields_view(fields)[i] == (
            fields[i].0@,
            json_view(fields[i].1),
            ),
    decreases fields.len(),
{
    if fields.len() > 0 {
        lemma_fields_view(fields.drop_first());
        assert forall|i: int|
            0 <= i < fields.len() implies spec_fields_view(fields)[i] == (
            fields[i].0@,
            json_view(fields[i].1),
            ) by {
            if i > 0 {
                assert(fields.drop_first()[i - 1] == fields[i]);
            }
        }
    }
}

/// The value of the first field named `key`, or `None` where no field
/// carries that name.
pub open spec fn spec_obj_get(fields: Seq<(Seq<char>, JsonView)>, key: Seq<char>) -> Option<
    JsonView,
>
    decreases fields.len(),
{
    if fields.len() == 0 {
        None
    } else if fields[0].0 == key {
        Some(fields[0].1)
    } else {
        spec_obj_get(fields.drop_first(), key)
    }
}

/// Looking a key up is unchanged by skipping a prefix in which it does not
/// occur.
pub proof fn lemma_obj_get_skip(fields: Seq<(Seq<char>, JsonView)>, key: Seq<char>, i: int)
    requires
        0 <= i <= fields.len(),
        forall|j: int| 0 <= j < i ==> fields[j].0 != key,
    ensures
        spec_obj_get(fields, key) == spec_obj_get(fields.skip(i), key),
    decreases i,
{
    if i > 0 {
        assert(fields[0].0 != key);
        assert(forall|j: int|
            0 <= j < i - 1 ==> fields.drop_first()[j].0 == fields[j + 1].0 && fields[j + 1].0
                != key);
        lemma_obj_get_skip(fields.drop_first(), key, i - 1);
        assert(fields.drop_first().skip(i - 1) =~= fields.skip(i));
    } else {
        assert(fields.skip(0) =~= fields);
    }
}

/// Where `key` first occurs at position `i`, looking it up returns that
/// field's value.
pub proof fn lemma_obj_get_at(fields: Seq<(Seq<char>, JsonView)>, key: Seq<char>, i: int)
    requires
        0 <= i < fields.len(),
        fields[i].0 == key,
        forall|j: int| 0 <= j < i ==> fields[j].0 != key,
    ensures
        spec_obj_get(fields, key) == Some(fields[i].1),
{
    lemma_obj_get_skip(fields, key, i);
    assert(fields.skip(i)[0] == fields[i]);
}

/// Finds the first field named `key` in an object's field list.
pub fn obj_get<'a>(fields: &'a Vec<(String, Json)>, key: &str) -> (r: Option<&'a Json>)
    ensures
        match r {
            Some(j) => spec_obj_get(spec_fields_view(fields@), key@) == Some(j@),
            None => spec_obj_get(spec_fields_view(fields@), key@) is None,
        },
{
    let k = String::from_str(key);
    let ghost fv = spec_fields_view(fields@);
    let mut i: usize = 0;
    while i < fields.len()
        invariant
            i <= fields.len(),
            k@ == key@,
            fv == spec_fields_view(fields@),
            forall|j: int| 0 <= j < i ==> fv[j].0 != key@,
        decreases fields.len() - i,
    {
        let pair = &fields[i];
        if pair.0 == k {
            proof {
                lemma_fields_view(fields@);
                lemma_obj_get_skip(fv, key@, i as int);
                assert(fv.skip(i as int)[0] == fv[i as int]);
                assert(fv[i as int].0 == key@);
            }
            return Some(&pair.1);
        }
        proof {
            lemma_fields_view(fields@);
            assert(fv[i as int].0 == fields@[i as int].0@);
        }
        i += 1;
    }
    proof {
        lemma_fields_view(fields@);
        lemma_obj_get_skip(fv, key@, fields@.len() as int);
        assert(fv.skip(fields@.len() as int).len() == 0);
    }
    None
}

/// `serde_json::Value` runs only through the trusted bridge; to Verus it is
/// opaque.
#[verifier::external_type_specification]
#[verifier::external_body]
pub struct ExValue(serde_json::Value);

/// `serde_json::Error`, returned by a failed parse; opaque to Verus.
#[verifier::external_type_specification]
#[verifier::external_body]
pub struct ExError(serde_json::Error);

/// The JSON tree that `serde_json::from_str` parses `s` into, or `None`
/// where `s` is not valid JSON. The result depends on `s` alone.
pub uninterp spec fn json_of(s: Seq<char>) -> Option<JsonView>;

/// Relies on `serde_json::from_str::<Value>`: returns the parsed value tree
/// exactly when the text is valid JSON, and its error otherwise.
#[verifier::external_body]
pub(crate) fn parse_json(s: &str) -> (r: Result<Json, serde_json::Error>)
    ensures
        r matches Ok(j) ==> json_of(s@) == Some(j@),
        r is Err ==> json_of(s@) is None,
{
    match serde_json::from_str::<serde_json::Value>(s) {
        Ok(v) => Ok(value_to_json(v)),
        Err(e) => Err(e),
    }
}

/// Converts a `serde_json::Value` into the plain [`Json`] tree, variant by
/// variant; a number keeps its value only where `i64` can hold it.
#[verifier::external_body]
fn value_to_json(v: serde_json::Value) -> Json {
    match v {
        serde_json::Value::Null => Json::Null,
        serde_json::Value::Bool(b) => Json::Bool(b),
        serde_json::Value::Number(n) => n.as_i64().map_or(Json::OtherNum, Json::Int),
        serde_json::Value::String(s) => Json::Str(s),
        serde_json::Value::Array(a) => Json::Arr(a.into_iter().map(value_to_json).collect()),
        serde_json::Value::Object(m) => Json::Obj(
            m.into_iter().map(|p| (p.0, value_to_json(p.1))).collect(),
        ),
    }
}

/// The text that `serde_json::to_string` renders the tree `j` as. The result
/// depends on the tree alone.
pub uninterp spec fn text_of(j: JsonView) -> Seq<char>;

/// Relies on `serde_json::to_string`: renders a value tree as JSON text.
/// Serializing a `Value` never fails.
#[verifier::external_body]
pub(crate) fn to_json_text(j: &Json) -> (r: String)
    ensures
        r@ == text_of(j@),
{
    match serde_json::to_string(&json_to_value(j)) {
        Ok(s) => s,
        Err(_) => String::new(),
    }
}

/// Converts a plain [`Json`] tree back into a `serde_json::Value`, variant
/// by variant; `OtherNum`, whose numeric value was not kept, becomes `Null`.
#[verifier::external_body]
fn json_to_value(j: &Json) -> serde_json::Value {
    match j {
        Json::Null => serde_json::Value::Null,
        Json::Bool(b) => serde_json::Value::Bool(*b),
        Json::Int(n) => serde_json::Value::from(*n),
        Json::OtherNum => serde_json::Value::Null,
        Json::Str(s) => serde_json::Value::String(s.clone()),
        Json::Arr(a) => serde_json::Value::Array(a.iter().map(json_to_value).collect()),
        Json::Obj(f) => serde_json::Value::Object(
            f.iter().map(|p| (p.0.clone(), json_to_value(&p.1))).collect(),
        ),
    }
}

} // verus!
