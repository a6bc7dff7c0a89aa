//! A mathematical model of JSON documents, and the trusted bridge between
//! that model and `serde_json`'s `Value` type.
//!
//! Verified code never inspects a `serde_json::Value` directly: every
//! construction and every observation goes through one of the wrappers
//! below, whose contracts are stated over the model. The model of a
//! number mirrors how `serde_json` represents one internally: `UInt`
//! for a non-negative integer, `Neg` for a negative integer, and `FNum`
//! for a floating-point number, identified by the text `serde_json`
//! prints for it.

use vstd::prelude::*;
use crate::text::{dec_nat, dec_int};

verus! {

/// The model of one JSON value.
pub enum Json {
    Null,
    Bool(bool),
    UInt(u64),
    Neg(i64),
    FNum(Seq<char>),
    Str(Seq<char>),
    Arr(Seq<Json>),
    Obj(Map<Seq<char>, Json>),
}

impl Json {
    /// True for the three number shapes.
    pub open spec fn is_number(self) -> bool {
        self is UInt || self is Neg || self is FNum
    }

    /// The text `serde_json` prints for a number value.
    pub open spec fn number_text(self) -> Seq<char> {
        match self {
            Json::UInt(n) => dec_nat(n as nat),
            Json::Neg(i) => dec_int(i as int),
            Json::FNum(t) => t,
            _ => Seq::empty(),
        }
    }
}

/// The model of a `serde_json::Value`.
pub uninterp spec fn json_of_value(v: serde_json::Value) -> Json;

/// The model of a `serde_json::Map<String, Value>`: which keys it holds
/// and the model of the value under each.
pub uninterp spec fn obj_of_map(m: serde_json::Map<String, serde_json::Value>) -> Map<
    Seq<char>,
    Json,
>;

/// What `serde_json::from_str::<Value>` makes of a text: `None` when the
/// text is not a JSON document, else the model of the parsed value.
pub uninterp spec fn json_of_text(s: Seq<char>) -> Option<Json>;

/// What parsing a text as a bare JSON number yields. A bare number is
/// also a complete JSON document, so this is `json_of_text` restricted
/// to the number shapes.
pub open spec fn num_of_text(s: Seq<char>) -> Option<Json> {
    match json_of_text(s) {
        Some(j) => if j.is_number() {
            Some(j)
        } else {
            None
        },
        None => None,
    }
}

/// True when `s` is exactly the text `serde_json` prints for the number
/// it parses to. Such texts survive a print/parse round trip unchanged.
pub open spec fn canonical_number_text(s: Seq<char>) -> bool {
    match num_of_text(s) {
        Some(j) => j.number_text() == s,
        None => false,
    }
}

/// True when the value nests containers at most `n` levels deep: a
/// scalar is nested zero deep, and an array or object is nested one
/// deeper than its deepest member.
pub open spec fn depth_le(j: Json, n: int) -> bool
    decreases j,
{
    match j {
        Json::Arr(items) => n >= 1 && (forall|i: int|
            0 <= i < items.len() ==> depth_le(#[trigger] items[i], n - 1)),
        Json::Obj(m) => n >= 1 && (forall|k: Seq<char>|
            m.dom().contains(k) ==> depth_le(#[trigger] m[k], n - 1)),
        _ => n >= 0,
    }
}

/// A value nested within a bound is nested within every larger bound.
pub proof fn lemma_depth_le_widen(j: Json, a: int, b: int)
    requires
        depth_le(j, a),
        a <= b,
    ensures
        depth_le(j, b),
    decreases j,
{
    match j {
        Json::Arr(items) => {
            assert forall|i: int| 0 <= i < items.len() implies depth_le(
                #[trigger] items[i],
                b - 1,
            ) by {
                lemma_depth_le_widen(items[i], a - 1, b - 1);
            }
        },
        Json::Obj(m) => {
            assert forall|k: Seq<char>| m.dom().contains(k) implies depth_le(
                #[trigger] m[k],
                b - 1,
            ) by {
                lemma_depth_le_widen(m[k], a - 1, b - 1);
            }
        },
        _ => (),
    }
}

#[verifier::external_type_specification]
#[verifier::external_body]
pub struct ExValue(serde_json::Value);

#[verifier::external_type_specification]
#[verifier::external_body]
#[verifier::reject_recursive_types(K)]
#[verifier::reject_recursive_types(V)]
pub struct ExJsonMap<K, V>(serde_json::Map<K, V>);

/// Relies on `serde_json::from_str::<Value>`: parses a complete JSON
/// document; the error text is `serde_json`'s own message.
#[verifier::external_body]
pub(crate) fn json_parse(s: &str) -> (r: Result<serde_json::Value, String>)
    ensures
        r is Ok <==> json_of_text(s@) is Some,
        r matches Ok(v) ==> Some(json_of_value(v)) == json_of_text(s@),
{
    match serde_json::from_str::<serde_json::Value>(s) {
        Ok(v) => Ok(v),
        Err(e) => Err(format!("{}", e)),
    }
}

/// Relies on `serde_json::to_string`: printing a `Value` cannot fail,
/// since its tree holds nothing a JSON document cannot, and the printed
/// document parses back to a value with the same model whenever the
/// value's containers nest within the parser's recursion limit. The
/// serializer has no depth limit, but `from_str` rejects a document
/// once 128 containers are open, so nothing is claimed of the output
/// for a value nested deeper than 127.
#[verifier::external_body]
pub(crate) fn json_print(v: &serde_json::Value) -> (r: String)
    ensures
        depth_le(json_of_value(*v), 127) ==> json_of_text(r@) == Some(json_of_value(*v)),
{
    match serde_json::to_string(v) {
        Ok(s) => s,
        Err(_) => String::new(),
    }
}

/// Relies on `serde_json::Value::Null`.
#[verifier::external_body]
pub(crate) fn json_null() -> (v: serde_json::Value)
    ensures
        json_of_value(v) == Json::Null,
{
    serde_json::Value::Null
}

/// Relies on `serde_json::Value::Bool`.
#[verifier::external_body]
pub(crate) fn json_bool(b: bool) -> (v: serde_json::Value)
    ensures
        json_of_value(v) == Json::Bool(b),
{
    serde_json::Value::Bool(b)
}

/// Relies on `From<u64> for serde_json::Value`: a non-negative integer.
#[verifier::external_body]
pub(crate) fn json_uint(n: u64) -> (v: serde_json::Value)
    ensures
        json_of_value(v) == Json::UInt(n),
{
    serde_json::Value::from(n)
}

/// Relies on `From<i64> for serde_json::Value`: a non-negative integer is
/// stored as an unsigned one, a negative integer as a signed one.
#[verifier::external_body]
pub(crate) fn json_int(n: i64) -> (v: serde_json::Value)
    ensures
        n >= 0 ==> json_of_value(v) == Json::UInt(n as u64),
        n < 0 ==> json_of_value(v) == Json::Neg(n),
{
    serde_json::Value::from(n)
}

/// Relies on `From<&str> for serde_json::Value`.
#[verifier::external_body]
pub(crate) fn json_string(s: &str) -> (v: serde_json::Value)
    ensures
        json_of_value(v) == Json::Str(s@),
{
    serde_json::Value::from(s)
}

/// Relies on `serde_json::Value::Array`.
#[verifier::external_body]
pub(crate) fn json_array(items: Vec<serde_json::Value>) -> (v: serde_json::Value)
    ensures
        json_of_value(v) == Json::Arr(items@.map_values(|x: serde_json::Value| json_of_value(x))),
{
    serde_json::Value::Array(items)
}

/// Relies on `serde_json::Value::Object`.
#[verifier::external_body]
pub(crate) fn json_object(m: serde_json::Map<String, serde_json::Value>) -> (v: serde_json::Value)
    ensures
        json_of_value(v) == Json::Obj(obj_of_map(m)),
{
    serde_json::Value::Object(m)
}

/// Relies on `serde_json::from_str::<Number>`: parses a text that is
/// exactly one JSON number, using the same number grammar as a document.
#[verifier::external_body]
pub(crate) fn json_number_from_text(s: &str) -> (r: Option<serde_json::Value>)
    ensures
        r is Some <==> num_of_text(s@) is Some,
        r matches Some(v) ==> Some(json_of_value(v)) == num_of_text(s@),
{
    match serde_json::from_str::<serde_json::Number>(s) {
        Ok(n) => Some(serde_json::Value::Number(n)),
        Err(_) => None,
    }
}

/// Relies on the `Display` of `serde_json::Number`: an integer prints as
/// its plain decimal, a float as the text the model names it by; in
/// either case parsing the printed text back gives the same number.
/// Returns an empty string when the value is not a number.
#[verifier::external_body]
pub(crate) fn json_number_text(v: &serde_json::Value) -> (r: String)
    ensures
        json_of_value(*v).is_number() ==> {
            &&& r@ == json_of_value(*v).number_text()
            &&& num_of_text(r@) == Some(json_of_value(*v))
        },
{
    match v {
        serde_json::Value::Number(n) => format!("{}", n),
        _ => String::new(),
    }
}

/// The model of an object without fields.
pub open spec fn empty_obj() -> Map<Seq<char>, Json> {
    Map::empty()
}

/// Relies on `serde_json::Map::new`.
#[verifier::external_body]
pub(crate) fn map_new() -> (m: serde_json::Map<String, serde_json::Value>)
    ensures
        obj_of_map(m) == empty_obj(),
{
    serde_json::Map::new()
}

/// Relies on `serde_json::Map::insert`: binds `key` to `v`, replacing any
/// earlier binding.
#[verifier::external_body]
pub(crate) fn map_insert(
    m: &mut serde_json::Map<String, serde_json::Value>,
    key: &str,
    v: serde_json::Value,
)
    ensures
        obj_of_map(*final(m)) == obj_of_map(*old(m)).insert(key@, json_of_value(v)),
{
    m.insert(key.to_owned(), v);
}

/// Relies on `serde_json::Map::get`.
#[verifier::external_body]
pub(crate) fn map_get<'a>(
    m: &'a serde_json::Map<String, serde_json::Value>,
    key: &str,
) -> (r: Option<&'a serde_json::Value>)
    ensures
        r is Some <==> obj_of_map(*m).dom().contains(key@),
        r matches Some(v) ==> json_of_value(*v) == obj_of_map(*m)[key@],
{
    m.get(key)
}

/// Relies on `serde_json::Map::keys`: every key of the map, each exactly
/// once.
#[verifier::external_body]
pub(crate) fn map_keys(m: &serde_json::Map<String, serde_json::Value>) -> (r: Vec<String>)
    ensures
        forall|i: int|
            0 <= i < r@.len() ==> obj_of_map(*m).dom().contains(#[trigger] r@[i]@),
        forall|k: Seq<char>|
            obj_of_map(*m).dom().contains(k) ==> exists|i: int|
                0 <= i < r@.len() && #[trigger] r@[i]@ == k,
{
    m.keys().cloned().collect()
}

/// Relies on `serde_json::Value::as_object`.
#[verifier::external_body]
pub(crate) fn json_as_object<'a>(v: &'a serde_json::Value) -> (r: Option<
    &'a serde_json::Map<String, serde_json::Value>,
>)
    ensures
        r is Some <==> json_of_value(*v) is Obj,
        r matches Some(m) ==> json_of_value(*v) == Json::Obj(obj_of_map(*m)),
{
    v.as_object()
}

/// Relies on `serde_json::Value::as_array`.
#[verifier::external_body]
pub(crate) fn json_as_array<'a>(v: &'a serde_json::Value) -> (r: Option<
    &'a Vec<serde_json::Value>,
>)
    ensures
        r is Some <==> json_of_value(*v) is Arr,
        r matches Some(a) ==> json_of_value(*v) == Json::Arr(
            a@.map_values(|x: serde_json::Value| json_of_value(x)),
        ),
{
    v.as_array()
}

/// Relies on `serde_json::Value::as_str`.
#[verifier::external_body]
pub(crate) fn json_as_str<'a>(v: &'a serde_json::Value) -> (r: Option<&'a str>)
    ensures
        r is Some <==> json_of_value(*v) is Str,
        r matches Some(s) ==> json_of_value(*v) == Json::Str(s@),
{
    v.as_str()
}

/// Relies on `serde_json::Value::as_bool`.
#[verifier::external_body]
pub(crate) fn json_as_bool(v: &serde_json::Value) -> (r: Option<bool>)
    ensures
        r is Some <==> json_of_value(*v) is Bool,
        r matches Some(b) ==> json_of_value(*v) == Json::Bool(b),
{
    v.as_bool()
}

/// Relies on `serde_json::Value::as_u64`: answers only for a non-negative
/// integer.
#[verifier::external_body]
pub(crate) fn json_as_u64(v: &serde_json::Value) -> (r: Option<u64>)
    ensures
        r is Some <==> json_of_value(*v) is UInt,
        r matches Some(n) ==> json_of_value(*v) == Json::UInt(n),
{
    v.as_u64()
}

/// Relies on `serde_json::Value::as_i64`: answers for a negative integer,
/// and for a non-negative one that fits in `i64`.
#[verifier::external_body]
pub(crate) fn json_as_i64(v: &serde_json::Value) -> (r: Option<i64>)
    ensures
        r is Some <==> (json_of_value(*v) matches Json::UInt(n) && n <= i64::MAX) || json_of_value(
            *v,
        ) is Neg,
        r matches Some(n) ==> (if n >= 0 {
            json_of_value(*v) == Json::UInt(n as u64)
        } else {
            json_of_value(*v) == Json::Neg(n)
        }),
{
    v.as_i64()
}

/// Relies on `serde_json::Value::is_null`.
#[verifier::external_body]
pub(crate) fn json_is_null(v: &serde_json::Value) -> (r: bool)
    ensures
        r <==> json_of_value(*v) is Null,
{
    v.is_null()
}

/// Relies on `serde_json::Value::is_number`.
#[verifier::external_body]
pub(crate) fn json_is_number(v: &serde_json::Value) -> (r: bool)
    ensures
        r <==> json_of_value(*v).is_number(),
{
    v.is_number()
}

/// Relies on `Clone for serde_json::Value`: the copy has the same model.
#[verifier::external_body]
pub(crate) fn json_clone(v: &serde_json::Value) -> (r: serde_json::Value)
    ensures
        json_of_value(r) == json_of_value(*v),
{
    v.clone()
}

} // verus!
