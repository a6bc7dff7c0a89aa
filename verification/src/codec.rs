//! Verified readers and writers between the model types and the JSON
//! object model: per-field readers shared by every response decoder,
//! and the writers the payload encoders are built from.

use vstd::prelude::*;
use crate::ident::{uuid_norm, uuid_normalize};
use crate::json::{
    canonical_number_text, json_as_array, json_as_bool, json_as_i64, json_as_object, json_as_str,
    json_as_u64, json_clone, json_is_null, json_is_number, json_number_text, json_of_value,
    json_string, map_get, num_of_text, Json,
};
use crate::models::HnswSpace;
use crate::text::str_eq;

verus! {

pub type JsonObj = serde_json::Map<String, serde_json::Value>;

/// True when the object gives the key no value: the field is missing or
/// explicitly null. An optional field then reads back as `None`.
pub open spec fn field_vacant(m: Map<Seq<char>, Json>, k: Seq<char>) -> bool {
    !m.dom().contains(k) || m[k] is Null
}

// --- optional fields -------------------------------------------------

pub open spec fn opt_u32_ok(m: Map<Seq<char>, Json>, k: Seq<char>) -> bool {
    field_vacant(m, k) || (m[k] matches Json::UInt(n) && n <= u32::MAX)
}

pub open spec fn opt_u32_val(m: Map<Seq<char>, Json>, k: Seq<char>) -> Option<u32> {
    if !field_vacant(m, k) && (m[k] matches Json::UInt(n) && n <= u32::MAX) {
        Some(m[k]->UInt_0 as u32)
    } else {
        None
    }
}

pub(crate) fn opt_u32_field(m: &JsonObj, key: &str) -> (r: Result<Option<u32>, ()>)
    ensures
        r is Ok <==> opt_u32_ok(crate::json::obj_of_map(*m), key@),
        r matches Ok(o) ==> o == opt_u32_val(crate::json::obj_of_map(*m), key@),
{
    match map_get(m, key) {
        Some(v) => {
            if json_is_null(v) {
                Ok(None)
            } else {
                match json_as_u64(v) {
                    Some(n) => if n <= u32::MAX as u64 {
                        Ok(Some(n as u32))
                    } else {
                        Err(())
                    },
                    None => Err(()),
                }
            }
        },
        None => Ok(None),
    }
}

/// True when the value is an integer that fits in `i32`.
pub open spec fn fits_i32(j: Json) -> bool {
    (j matches Json::UInt(n) && n <= i32::MAX) || (j matches Json::Neg(i) && i >= i32::MIN)
}

pub open spec fn i32_of_json(j: Json) -> i32 {
    match j {
        Json::UInt(n) => n as i32,
        Json::Neg(i) => i as i32,
        _ => 0,
    }
}

pub open spec fn opt_i32_ok(m: Map<Seq<char>, Json>, k: Seq<char>) -> bool {
    field_vacant(m, k) || fits_i32(m[k])
}

pub open spec fn opt_i32_val(m: Map<Seq<char>, Json>, k: Seq<char>) -> Option<i32> {
    if !field_vacant(m, k) && fits_i32(m[k]) {
        Some(i32_of_json(m[k]))
    } else {
        None
    }
}

pub(crate) fn opt_i32_field(m: &JsonObj, key: &str) -> (r: Result<Option<i32>, ()>)
    ensures
        r is Ok <==> opt_i32_ok(crate::json::obj_of_map(*m), key@),
        r matches Ok(o) ==> o == opt_i32_val(crate::json::obj_of_map(*m), key@),
{
    match map_get(m, key) {
        Some(v) => {
            if json_is_null(v) {
                Ok(None)
            } else {
                match json_as_i64(v) {
                    Some(n) => if i32::MIN as i64 <= n && n <= i32::MAX as i64 {
                        Ok(Some(n as i32))
                    } else {
                        Err(())
                    },
                    None => Err(()),
                }
            }
        },
        None => Ok(None),
    }
}

pub open spec fn opt_num_ok(m: Map<Seq<char>, Json>, k: Seq<char>) -> bool {
    field_vacant(m, k) || m[k].is_number()
}

/// The numeral text of an optional number field.
pub open spec fn opt_num_val(m: Map<Seq<char>, Json>, k: Seq<char>) -> Option<Seq<char>> {
    if !field_vacant(m, k) && m[k].is_number() {
        Some(m[k].number_text())
    } else {
        None
    }
}

pub(crate) fn opt_num_field(m: &JsonObj, key: &str) -> (r: Result<Option<String>, ()>)
    ensures
        r is Ok <==> opt_num_ok(crate::json::obj_of_map(*m), key@),
        r matches Ok(o) ==> o.deep_view() == opt_num_val(crate::json::obj_of_map(*m), key@),
        r matches Ok(Some(t)) ==> canonical_number_text(t@) && num_of_text(t@) == Some(
            crate::json::obj_of_map(*m)[key@],
        ),
{
    match map_get(m, key) {
        Some(v) => {
            if json_is_null(v) {
                Ok(None)
            } else {
                if json_is_number(v) {
                    Ok(Some(json_number_text(v)))
                } else {
                    Err(())
                }
            }
        },
        None => Ok(None),
    }
}

pub open spec fn opt_obj_ok(m: Map<Seq<char>, Json>, k: Seq<char>) -> bool {
    field_vacant(m, k) || m[k] is Obj
}

pub open spec fn opt_obj_val(m: Map<Seq<char>, Json>, k: Seq<char>) -> Option<Json> {
    if !field_vacant(m, k) && m[k] is Obj {
        Some(m[k])
    } else {
        None
    }
}

/// An optional field that must be an object when present, kept as an
/// opaque value.
pub(crate) fn opt_obj_field(m: &JsonObj, key: &str) -> (r: Result<Option<serde_json::Value>, ()>)
    ensures
        r is Ok <==> opt_obj_ok(crate::json::obj_of_map(*m), key@),
        r matches Ok(o) ==> (match o {
            Some(v) => Some(json_of_value(v)),
            None => None,
        }) == opt_obj_val(crate::json::obj_of_map(*m), key@),
{
    match map_get(m, key) {
        Some(v) => {
            if json_is_null(v) {
                Ok(None)
            } else {
                match json_as_object(v) {
                    Some(_) => Ok(Some(json_clone(v))),
                    None => Err(()),
                }
            }
        },
        None => Ok(None),
    }
}

/// The wire text of an index space.
pub open spec fn space_text(sp: HnswSpace) -> Seq<char> {
    match sp {
        HnswSpace::L2 => "l2"@,
        HnswSpace::Cosine => "cosine"@,
        HnswSpace::Ip => "ip"@,
    }
}

pub open spec fn space_of_text(s: Seq<char>) -> Option<HnswSpace> {
    if s == "l2"@ {
        Some(HnswSpace::L2)
    } else if s == "cosine"@ {
        Some(HnswSpace::Cosine)
    } else if s == "ip"@ {
        Some(HnswSpace::Ip)
    } else {
        None
    }
}

pub open spec fn opt_space_ok(m: Map<Seq<char>, Json>, k: Seq<char>) -> bool {
    field_vacant(m, k) || (m[k] matches Json::Str(s) && space_of_text(s) is Some)
}

pub open spec fn opt_space_val(m: Map<Seq<char>, Json>, k: Seq<char>) -> Option<HnswSpace> {
    if !field_vacant(m, k) {
        match m[k] {
            Json::Str(s) => space_of_text(s),
            _ => None,
        }
    } else {
        None
    }
}

pub(crate) fn opt_space_field(m: &JsonObj, key: &str) -> (r: Result<Option<HnswSpace>, ()>)
    ensures
        r is Ok <==> opt_space_ok(crate::json::obj_of_map(*m), key@),
        r matches Ok(o) ==> o == opt_space_val(crate::json::obj_of_map(*m), key@),
{
    match map_get(m, key) {
        Some(v) => {
            if json_is_null(v) {
                Ok(None)
            } else {
                match json_as_str(v) {
                    Some(s) => {
                        if str_eq(s, "l2") {
                            Ok(Some(HnswSpace::L2))
                        } else if str_eq(s, "cosine") {
                            Ok(Some(HnswSpace::Cosine))
                        } else if str_eq(s, "ip") {
                            Ok(Some(HnswSpace::Ip))
                        } else {
                            Err(())
                        }
                    },
                    None => Err(()),
                }
            }
        },
        None => Ok(None),
    }
}

// --- required fields -------------------------------------------------

pub open spec fn req_str_ok(m: Map<Seq<char>, Json>, k: Seq<char>) -> bool {
    m.dom().contains(k) && m[k] is Str
}

pub open spec fn req_str_val(m: Map<Seq<char>, Json>, k: Seq<char>) -> Seq<char> {
    m[k]->Str_0
}

pub(crate) fn req_str_field(m: &JsonObj, key: &str) -> (r: Result<String, ()>)
    ensures
        r is Ok <==> req_str_ok(crate::json::obj_of_map(*m), key@),
        r matches Ok(s) ==> s@ == req_str_val(crate::json::obj_of_map(*m), key@),
{
    match map_get(m, key) {
        Some(v) => match json_as_str(v) {
            Some(s) => Ok(s.to_owned()),
            None => Err(()),
        },
        None => Err(()),
    }
}

/// A required field holding a UUID text.
pub open spec fn req_uuid_ok(m: Map<Seq<char>, Json>, k: Seq<char>) -> bool {
    req_str_ok(m, k) && uuid_norm(m[k]->Str_0) is Some
}

pub open spec fn req_uuid_val(m: Map<Seq<char>, Json>, k: Seq<char>) -> Seq<char> {
    match uuid_norm(m[k]->Str_0) {
        Some(t) => t,
        None => Seq::empty(),
    }
}

pub(crate) fn req_uuid_field(m: &JsonObj, key: &str) -> (r: Result<String, ()>)
    ensures
        r is Ok <==> req_uuid_ok(crate::json::obj_of_map(*m), key@),
        r matches Ok(s) ==> s@ == req_uuid_val(crate::json::obj_of_map(*m), key@),
{
    match req_str_field(m, key) {
        Ok(s) => match uuid_normalize(s.as_str()) {
            Some(t) => Ok(t),
            None => Err(()),
        },
        Err(e) => Err(e),
    }
}

pub open spec fn req_u64_ok(m: Map<Seq<char>, Json>, k: Seq<char>) -> bool {
    m.dom().contains(k) && m[k] is UInt
}

pub open spec fn req_u64_val(m: Map<Seq<char>, Json>, k: Seq<char>) -> u64 {
    m[k]->UInt_0
}

pub(crate) fn req_u64_field(m: &JsonObj, key: &str) -> (r: Result<u64, ()>)
    ensures
        r is Ok <==> req_u64_ok(crate::json::obj_of_map(*m), key@),
        r matches Ok(n) ==> n == req_u64_val(crate::json::obj_of_map(*m), key@),
{
    match map_get(m, key) {
        Some(v) => match json_as_u64(v) {
            Some(n) => Ok(n),
            None => Err(()),
        },
        None => Err(()),
    }
}

/// True when the value is an integer that fits in `i64`.
pub open spec fn fits_i64(j: Json) -> bool {
    (j matches Json::UInt(n) && n <= i64::MAX) || j is Neg
}

pub open spec fn i64_of_json(j: Json) -> i64 {
    match j {
        Json::UInt(n) => n as i64,
        Json::Neg(i) => i,
        _ => 0,
    }
}

pub open spec fn req_i64_ok(m: Map<Seq<char>, Json>, k: Seq<char>) -> bool {
    m.dom().contains(k) && fits_i64(m[k])
}

pub(crate) fn req_i64_field(m: &JsonObj, key: &str) -> (r: Result<i64, ()>)
    ensures
        r is Ok <==> req_i64_ok(crate::json::obj_of_map(*m), key@),
        r matches Ok(n) ==> n == i64_of_json(crate::json::obj_of_map(*m)[key@]),
{
    match map_get(m, key) {
        Some(v) => match json_as_i64(v) {
            Some(n) => Ok(n),
            None => Err(()),
        },
        None => Err(()),
    }
}

pub open spec fn req_i32_ok(m: Map<Seq<char>, Json>, k: Seq<char>) -> bool {
    m.dom().contains(k) && fits_i32(m[k])
}

pub(crate) fn req_i32_field(m: &JsonObj, key: &str) -> (r: Result<i32, ()>)
    ensures
        r is Ok <==> req_i32_ok(crate::json::obj_of_map(*m), key@),
        r matches Ok(n) ==> n == i32_of_json(crate::json::obj_of_map(*m)[key@]),
{
    match map_get(m, key) {
        Some(v) => match json_as_i64(v) {
            Some(n) => if i32::MIN as i64 <= n && n <= i32::MAX as i64 {
                Ok(n as i32)
            } else {
                Err(())
            },
            None => Err(()),
        },
        None => Err(()),
    }
}

pub open spec fn req_bool_ok(m: Map<Seq<char>, Json>, k: Seq<char>) -> bool {
    m.dom().contains(k) && m[k] is Bool
}

pub(crate) fn req_bool_field(m: &JsonObj, key: &str) -> (r: Result<bool, ()>)
    ensures
        r is Ok <==> req_bool_ok(crate::json::obj_of_map(*m), key@),
        r matches Ok(b) ==> crate::json::obj_of_map(*m)[key@] == Json::Bool(b),
{
    match map_get(m, key) {
        Some(v) => match json_as_bool(v) {
            Some(b) => Ok(b),
            None => Err(()),
        },
        None => Err(()),
    }
}

// --- arrays of strings ------------------------------------------------

pub open spec fn str_items_ok(items: Seq<Json>) -> bool {
    forall|i: int| 0 <= i < items.len() ==> items[i] is Str
}

pub open spec fn str_item_vals(items: Seq<Json>) -> Seq<Seq<char>> {
    items.map_values(|j: Json| j->Str_0)
}

/// Reads an array whose items must all be strings.
pub(crate) fn decode_strings(v: &serde_json::Value) -> (r: Result<Vec<String>, ()>)
    ensures
        r is Ok <==> (json_of_value(*v) is Arr && str_items_ok(json_of_value(*v)->Arr_0)),
        r matches Ok(xs) ==> xs.deep_view() == str_item_vals(json_of_value(*v)->Arr_0),
{
    match json_as_array(v) {
        Some(a) => {
            let ghost items = json_of_value(*v)->Arr_0;
            let mut xs: Vec<String> = Vec::new();
            let mut i: usize = 0;
            while i < a.len()
                invariant
                    i <= a.len(),
                    json_of_value(*v) == Json::Arr(items),
                    items == a@.map_values(|x: serde_json::Value| json_of_value(x)),
                    items.len() == a@.len(),
                    xs.deep_view().len() == i as int,
                    forall|j: int| 0 <= j < i ==> items[j] is Str,
                    forall|j: int|
                        0 <= j < i ==> #[trigger] xs.deep_view()[j] == items[j]->Str_0,
                decreases a.len() - i,
            {
                proof {
                    assert(items[i as int] == json_of_value(a@[i as int]));
                }
                match json_as_str(&a[i]) {
                    Some(s) => {
                        let owned = s.to_owned();
                        let ghost pre = xs.deep_view();
                        xs.push(owned);
                        proof {
                            assert(xs.deep_view() =~= pre.push(owned@));
                        }
                    },
                    None => {
                        proof {
                            assert(!(items[i as int] is Str));
                            assert(!str_items_ok(items));
                        }
                        return Err(());
                    },
                }
                i += 1;
            }
            proof {
                assert(xs.deep_view() =~= str_item_vals(items));
            }
            Ok(xs)
        },
        None => Err(()),
    }
}

/// Builds an array of strings.
pub open spec fn strings_json(xs: Seq<Seq<char>>) -> Json {
    Json::Arr(xs.map_values(|s: Seq<char>| Json::Str(s)))
}

pub(crate) fn encode_strings(xs: &Vec<String>) -> (r: serde_json::Value)
    ensures
        json_of_value(r) == strings_json(xs.deep_view()),
{
    let mut out: Vec<serde_json::Value> = Vec::new();
    let mut i: usize = 0;
    while i < xs.len()
        invariant
            i <= xs.len(),
            out@.len() == i as int,
            forall|j: int|
                0 <= j < i ==> #[trigger] json_of_value(out@[j]) == Json::Str(xs.deep_view()[j]),
        decreases xs.len() - i,
    {
        out.push(json_string(xs[i].as_str()));
        i += 1;
    }
    let r = crate::json::json_array(out);
    proof {
        assert(json_of_value(r)->Arr_0 =~= strings_json(xs.deep_view())->Arr_0);
        assert(json_of_value(r) == strings_json(xs.deep_view()));
    }
    r
}

/// True when a document decodes as a response struct without fields:
/// any object, or an empty array.
pub open spec fn empty_struct_decodable(j: Json) -> bool {
    j is Obj || (j matches Json::Arr(a) && a.len() == 0)
}

pub(crate) fn check_empty_struct(v: &serde_json::Value) -> (r: bool)
    ensures
        r == empty_struct_decodable(json_of_value(*v)),
{
    match json_as_object(v) {
        Some(_) => true,
        None => match json_as_array(v) {
            Some(a) => a.len() == 0,
            None => false,
        },
    }
}

} // verus!
