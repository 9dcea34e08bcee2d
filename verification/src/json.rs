//! A JSON value tree, its mathematical model, and the trusted boundary to
//! the `serde_json` tokenizer. The schema decoder and encoder in the rest of
//! the crate work on this tree; only the conversion between JSON text and
//! the tree is delegated to `serde_json`.

use vstd::prelude::*;

verus! {

broadcast use vstd::std_specs::vec::group_vec_axioms;

/// Specification-level model of a JSON value. Numbers carry no payload: the
/// manifest schema never reads a number, it only rejects one as a shape
/// mismatch, so only the fact that a value is a number is modelled.
pub enum JsonV {
    Null,
    Bool(bool),
    Num,
    Str(Seq<char>),
    Arr(Seq<JsonV>),
    Obj(Seq<(Seq<char>, JsonV)>),
}

/// Executable JSON value. Objects keep their fields as an ordered list of
/// pairs; lookups take the first binding of a key.
pub enum Json {
    Null,
    Bool(bool),
    Num,
    Str(String),
    Arr(Vec<Json>),
    Obj(Vec<(String, Json)>),
}

impl DeepView for Json {
    type V = JsonV;

    open spec fn deep_view(&self) -> JsonV
        decreases self,
    {
        match self {
            Json::Null => JsonV::Null,
            Json::Bool(b) => JsonV::Bool(*b),
            Json::Num => JsonV::Num,
            Json::Str(s) => JsonV::Str(s@),
            Json::Arr(v) => JsonV::Arr(arr_view(v@)),
            Json::Obj(v) => JsonV::Obj(obj_view(v@)),
        }
    }
}

/// Model of a list of JSON values, elementwise.
pub open spec fn arr_view(s: Seq<Json>) -> Seq<JsonV>
    decreases s,
{
    if s.len() == 0 {
        Seq::empty()
    } else {
        seq![s[0].deep_view()] + arr_view(s.drop_first())
    }
}

/// Model of an object's field list, elementwise.
pub open spec fn obj_view(s: Seq<(String, Json)>) -> Seq<(Seq<char>, JsonV)>
    decreases s,
{
    if s.len() == 0 {
        Seq::empty()
    } else {
        seq![(s[0].0@, s[0].1.deep_view())] + obj_view(s.drop_first())
    }
}

/// `arr_view` maps the sequence elementwise.
pub proof fn lemma_arr_view(s: Seq<Json>)
    ensures
        arr_view(s).len() == s.len(),
        forall|i: int| #![trigger s[i]] 0 <= i < s.len() ==> arr_view(s)[i] == s[i].deep_view(),
    decreases s.len(),
{
    if s.len() > 0 {
        lemma_arr_view(s.drop_first());
        assert(arr_view(s) == seq![s[0].deep_view()] + arr_view(s.drop_first()));
        assert forall|i: int| #![trigger s[i]] 0 <= i < s.len() implies arr_view(s)[i]
            == s[i].deep_view() by {
            if i > 0 {
                assert(s.drop_first()[i - 1] == s[i]);
                assert(arr_view(s)[i] == arr_view(s.drop_first())[i - 1]);
            } else {
                assert(arr_view(s)[0] == seq![s[0].deep_view()][0]);
            }
        }
    }
}

/// `obj_view` maps the field list elementwise.
pub proof fn lemma_obj_view(s: Seq<(String, Json)>)
    ensures
        obj_view(s).len() == s.len(),
        forall|i: int| #![trigger s[i]] 0 <= i < s.len() ==> obj_view(s)[i] == (s[i].0@, s[i].1.deep_view()),
    decreases s.len(),
{
    if s.len() > 0 {
        lemma_obj_view(s.drop_first());
        assert(obj_view(s) == seq![(s[0].0@, s[0].1.deep_view())] + obj_view(s.drop_first()));
        assert forall|i: int| #![trigger s[i]] 0 <= i < s.len() implies obj_view(s)[i] == (
            s[i].0@,
            s[i].1.deep_view(),
        ) by {
            if i > 0 {
                assert(s.drop_first()[i - 1] == s[i]);
                assert(obj_view(s)[i] == obj_view(s.drop_first())[i - 1]);
            } else {
                assert(obj_view(s)[0] == seq![(s[0].0@, s[0].1.deep_view())][0]);
            }
        }
    }
}

/// First binding of `k` in an object's field list, if any.
pub open spec fn obj_get(o: Seq<(Seq<char>, JsonV)>, k: Seq<char>) -> Option<JsonV>
    decreases o.len(),
{
    if o.len() == 0 {
        None
    } else if o[0].0 == k {
        Some(o[0].1)
    } else {
        obj_get(o.drop_first(), k)
    }
}

proof fn lemma_obj_get_skip(o: Seq<(Seq<char>, JsonV)>, k: Seq<char>, i: int)
    requires
        0 <= i <= o.len(),
        forall|l: int| 0 <= l < i ==> o[l].0 != k,
    ensures
        obj_get(o, k) == obj_get(o.subrange(i, o.len() as int), k),
    decreases i,
{
    if i > 0 {
        assert(o.drop_first().subrange(i - 1, o.drop_first().len() as int)
            =~= o.subrange(i, o.len() as int));
        lemma_obj_get_skip(o.drop_first(), k, i - 1);
    } else {
        assert(o.subrange(0, o.len() as int) =~= o);
    }
}

/// Executable lookup of the first binding of `k`, mirroring [`obj_get`].
pub fn obj_lookup<'a>(o: &'a Vec<(String, Json)>, k: &String) -> (r: Option<&'a Json>)
    ensures
        match r {
            Some(j) => obj_get(obj_view(o@), k@) == Some(j.deep_view()),
            None => obj_get(obj_view(o@), k@) is None,
        },
{
    let ghost ov = obj_view(o@);
    proof {
        lemma_obj_view(o@);
    }
    let n = o.len();
    for i in 0..n
        invariant
            n == o.len(),
            ov == obj_view(o@),
            ov.len() == n,
            forall|l: int| #![trigger o@[l]] 0 <= l < n ==> ov[l] == (o@[l].0@, o@[l].1.deep_view()),
            forall|l: int| 0 <= l < i ==> ov[l].0 != k@,
    {
        if o[i].0 == *k {
            proof {
                lemma_obj_get_skip(ov, k@, i as int);
                assert(ov.subrange(i as int, ov.len() as int)[0] == ov[i as int]);
            }
            return Some(&o[i].1);
        }
    }
    proof {
        lemma_obj_get_skip(ov, k@, n as int);
    }
    None
}

#[verifier::external_type_specification]
#[verifier::external_body]
pub struct ExValue(serde_json::Value);

/// What `serde_json` parses a given text to, translated into the tree model:
/// `None` where the text is not accepted as JSON, the parsed tree otherwise.
/// The result depends on the characters alone.
pub uninterp spec fn json_parse(s: Seq<char>) -> Option<JsonV>;

/// What `serde_json` prints a (number-free) tree as. The result depends on
/// the tree alone.
pub uninterp spec fn json_render(j: JsonV) -> Seq<char>;

/// Relies on `serde_json::from_str::<serde_json::Value>`: it accepts exactly
/// the well-formed JSON texts and returns the parsed value tree, a function
/// of the input text alone (named `json_parse` here).
#[verifier::external_body]
pub(crate) fn parse_json(s: &str) -> (r: Option<Json>)
    ensures
        r matches Some(j) ==> json_parse(s@) == Some(j.deep_view()),
        r is None ==> json_parse(s@) is None,
{
    match serde_json::from_str::<serde_json::Value>(s) {
        Ok(v) => Some(value_to_json(v)),
        Err(_) => None,
    }
}

/// Mirrors `serde_json::Value` into the crate's tree, one arm per variant,
/// moving fields only; [`parse_json`] builds its result with it.
#[verifier::external_body]
fn value_to_json(v: serde_json::Value) -> Json {
    match v {
        serde_json::Value::Null => Json::Null,
        serde_json::Value::Bool(b) => Json::Bool(b),
        serde_json::Value::Number(_) => Json::Num,
        serde_json::Value::String(s) => Json::Str(s),
        serde_json::Value::Array(a) => Json::Arr(a.into_iter().map(value_to_json).collect()),
        serde_json::Value::Object(o) => Json::Obj(
            o.into_iter().map(|p| (p.0, value_to_json(p.1))).collect(),
        ),
    }
}

/// Relies on `serde_json::to_string`: on a value tree it always succeeds and
/// returns the printed text, a function of the tree alone (named
/// `json_render` here). The schema encoder never emits a number; since the
/// tree keeps no number payload, a hand-built `Num` node prints as `null`.
#[verifier::external_body]
pub(crate) fn render_json(j: &Json) -> (r: String)
    ensures
        r@ == json_render(j.deep_view()),
{
    match serde_json::to_string(&json_to_value(j)) {
        Ok(s) => s,
        Err(_) => String::new(),
    }
}

/// Mirrors the crate's tree into `serde_json::Value`, one arm per variant;
/// [`render_json`] hands its result to `serde_json::to_string`. The tree
/// keeps no number payload, so a `Num` node maps to null.
#[verifier::external_body]
fn json_to_value(j: &Json) -> serde_json::Value {
    match j {
        Json::Null => serde_json::Value::Null,
        Json::Bool(b) => serde_json::Value::Bool(*b),
        Json::Num => serde_json::Value::Null,
        Json::Str(s) => serde_json::Value::String(s.clone()),
        Json::Arr(a) => serde_json::Value::Array(a.iter().map(json_to_value).collect()),
        Json::Obj(o) => serde_json::Value::Object(
            o.iter().map(|p| (p.0.clone(), json_to_value(&p.1))).collect(),
        ),
    }
}

} // verus!
